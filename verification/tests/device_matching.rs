use autorotate::matching::{ascii_lower, find_inputs, matches_any_exec, name_contains};

fn strings(items: &[&str]) -> Vec<String> {
    items.iter().map(|s| s.to_string()).collect()
}

#[test]
fn match_is_case_insensitive() {
    let devices = strings(&["My TouchPad Device"]);
    let patterns = strings(&["touchpad"]);
    assert_eq!(find_inputs(&devices, &patterns), strings(&["My TouchPad Device"]));
}

#[test]
fn no_match_returns_empty() {
    let devices = strings(&["Foo"]);
    let patterns = strings(&["touchpad"]);
    assert_eq!(find_inputs(&devices, &patterns), Vec::<String>::new());
}

#[test]
fn pattern_must_be_substring_of_name() {
    // The device name is the haystack, not the other way round.
    let devices = strings(&["pad"]);
    let patterns = strings(&["touchpad"]);
    assert_eq!(find_inputs(&devices, &patterns), Vec::<String>::new());
}

#[test]
fn any_pattern_suffices_and_order_is_kept() {
    let devices = strings(&[
        "TPPS/2 Elan TrackPoint",
        "USB Mouse",
        "Synaptics Touchpad",
    ]);
    let patterns = strings(&["touchpad", "trackpoint"]);
    assert_eq!(
        find_inputs(&devices, &patterns),
        strings(&["TPPS/2 Elan TrackPoint", "Synaptics Touchpad"])
    );
}

#[test]
fn empty_device_list_matches_nothing() {
    assert_eq!(
        find_inputs(&Vec::new(), &strings(&["touchpad"])),
        Vec::<String>::new()
    );
}

#[test]
fn contains_finds_pattern_anywhere() {
    assert!(name_contains("ELAN Touchscreen", "touchscreen"));
    assert!(name_contains("Wacom HID Pen", "wacom"));
    assert!(name_contains("touchpad", "touchpad"));
    assert!(!name_contains("ELAN Touchscreen", "wacom"));
    assert!(!name_contains("", "touchpad"));
}

#[test]
fn contains_with_empty_pattern() {
    // The empty pattern occurs in every name.
    assert!(name_contains("anything", ""));
    assert!(name_contains("", ""));
}

#[test]
fn lowercase_maps_only_ascii_uppercase() {
    assert_eq!(ascii_lower('A'), 'a');
    assert_eq!(ascii_lower('Z'), 'z');
    assert_eq!(ascii_lower('m'), 'm');
    assert_eq!(ascii_lower('2'), '2');
    assert_eq!(ascii_lower(' '), ' ');
    assert_eq!(ascii_lower('é'), 'é');
}

#[test]
fn matches_any_over_a_pattern_list() {
    let name = "TPPS/2 Elan TrackPoint".to_string();
    let patterns = vec!["touchpad".to_string(), "trackpoint".to_string()];
    assert!(matches_any_exec(&name, &patterns));
    assert!(!matches_any_exec(&"USB Mouse".to_string(), &patterns));
    assert!(!matches_any_exec(&name, &Vec::new()));
}

#[test]
fn mixed_case_on_both_sides() {
    assert!(name_contains("at translated set 2 KEYBOARD", "AT Translated Set 2 keyboard"));
}
