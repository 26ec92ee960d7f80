use desk_control::config::DrinkSize;
use desk_control::menu::{MenuChoice, MenuIds};

fn ids() -> MenuIds {
    MenuIds {
        presets: vec![
            (DrinkSize::Short, "10".to_string()),
            (DrinkSize::Tall, "11".to_string()),
            (DrinkSize::Grande, "12".to_string()),
            (DrinkSize::Venti, "13".to_string()),
        ],
        configure_desk: "20".to_string(),
        configure_presets: "21".to_string(),
        quit: "22".to_string(),
    }
}

#[test]
fn menu_ids_map_to_choices() {
    let ids = ids();
    assert_eq!(ids.choice(&"12".to_string()), MenuChoice::Preset(DrinkSize::Grande));
    assert_eq!(ids.choice(&"10".to_string()), MenuChoice::Preset(DrinkSize::Short));
    assert_eq!(ids.choice(&"20".to_string()), MenuChoice::ConfigureDesk);
    assert_eq!(ids.choice(&"21".to_string()), MenuChoice::ConfigurePresets);
    assert_eq!(ids.choice(&"22".to_string()), MenuChoice::Quit);
    assert_eq!(ids.choice(&"1".to_string()), MenuChoice::Unknown);
}

#[test]
fn preset_entries_take_precedence() {
    let mut ids = ids();
    ids.quit = "13".to_string();
    assert_eq!(ids.choice(&"13".to_string()), MenuChoice::Preset(DrinkSize::Venti));
}
