use gravity_sim::title::generate_window_title;

#[test]
fn title_joins_name_and_version() {
    assert_eq!(generate_window_title("gravity", "0.1.0"), "gravity v0.1.0");
}

#[test]
fn title_of_empty_parts() {
    assert_eq!(generate_window_title("", ""), " v");
    assert_eq!(generate_window_title("sim", ""), "sim v");
    assert_eq!(generate_window_title("", "2"), " v2");
}

#[test]
fn title_keeps_other_scripts() {
    assert_eq!(generate_window_title("重力", "1.0-β"), "重力 v1.0-β");
}
