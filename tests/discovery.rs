use desk_control::discovery::{
    filter_desks, is_desk_candidate, is_desk_name, matches_desk_keyword, select_candidate,
    ObservedDevice,
};

fn device(address: &str, name: Option<&str>) -> ObservedDevice {
    ObservedDevice { address: address.to_string(), name: name.map(|n| n.to_string()) }
}

#[test]
fn desk_name_is_kept_and_others_are_not() {
    assert!(is_desk_candidate(&device("AA", Some("Desk 123"))));
    assert!(!is_desk_candidate(&device("BB", Some("Chair"))));
    assert!(!is_desk_candidate(&device("CC", None)));
}

#[test]
fn keywords_match_without_regard_to_case() {
    assert!(is_desk_name("DESK 1"));
    assert!(is_desk_name("my LiNaK"));
    assert!(is_desk_name("DPG1C"));
    assert!(!is_desk_name("Keyboard"));
    assert!(!is_desk_name(""));
    assert!(!is_desk_name("DES K"));
}

#[test]
fn lowered_keyword_match_is_exact_on_case() {
    assert!(matches_desk_keyword("desk 123"));
    assert!(matches_desk_keyword("xxlinak"));
    assert!(matches_desk_keyword("dpg"));
    assert!(!matches_desk_keyword("DESK 123"));
    assert!(!matches_desk_keyword("dp"));
}

#[test]
fn filter_keeps_discovery_order() {
    let devs = vec![
        device("01", Some("Chair")),
        device("02", Some("Desk 123")),
        device("03", None),
        device("04", Some("Linak DPG")),
        device("05", Some("Lamp")),
    ];
    assert_eq!(filter_desks(&devs), vec![1, 3]);
    assert_eq!(filter_desks(&Vec::new()), Vec::<usize>::new());
}

#[test]
fn selection_by_address_or_first() {
    let devs = vec![
        device("01", Some("Chair")),
        device("02", Some("Desk A")),
        device("03", Some("Desk B")),
        device("04", None),
    ];
    assert_eq!(select_candidate(&devs, &None), Some(1));
    assert_eq!(select_candidate(&devs, &Some("03".to_string())), Some(2));
    assert_eq!(select_candidate(&devs, &Some("01".to_string())), None);
    assert_eq!(select_candidate(&devs, &Some("04".to_string())), None);
    assert_eq!(select_candidate(&devs, &Some("99".to_string())), None);
    assert_eq!(select_candidate(&Vec::new(), &None), None);
}
