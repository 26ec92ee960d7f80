use desk_control::config::{Config, DrinkSize};

#[test]
fn default_config_has_no_desk_and_standard_presets() {
    let c = Config::default();
    assert!(c.desk_address.is_none());
    assert_eq!(c.get_preset(DrinkSize::Short), 650);
    assert_eq!(c.get_preset(DrinkSize::Tall), 850);
    assert_eq!(c.get_preset(DrinkSize::Grande), 1050);
    assert_eq!(c.get_preset(DrinkSize::Venti), 1250);
}

#[test]
fn set_preset_changes_only_that_preset() {
    let mut c = Config::default();
    c.set_preset(DrinkSize::Tall, 900);
    assert_eq!(c.get_preset(DrinkSize::Tall), 900);
    assert_eq!(c.get_preset(DrinkSize::Short), 650);
    assert_eq!(c.get_preset(DrinkSize::Grande), 1050);
    assert_eq!(c.get_preset(DrinkSize::Venti), 1250);
}

#[test]
fn drink_sizes_and_names() {
    let all = DrinkSize::all();
    assert_eq!(all, vec![DrinkSize::Short, DrinkSize::Tall, DrinkSize::Grande, DrinkSize::Venti]);
    let names: Vec<&str> = all.iter().map(|d| d.name()).collect();
    assert_eq!(names, vec!["Short", "Tall", "Grande", "Venti"]);
}

#[test]
fn config_paths_under_home() {
    assert_eq!(Config::config_dir("/home/ann"), "/home/ann/.desk-control");
    assert_eq!(Config::config_file("/home/ann"), "/home/ann/.desk-control/config");
    assert_eq!(Config::config_file("/home/ann/"), "/home/ann/.desk-control/config");
    assert_eq!(Config::config_file(""), ".desk-control/config");
}
