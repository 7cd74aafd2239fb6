use wezterm::tabs::TabStop;

#[test]
fn stops_stand_at_multiples_of_the_width() {
    let tabs = TabStop::new(20, 8);
    assert_eq!(tabs.find_next_tab_stop(0), Some(8));
    assert_eq!(tabs.find_next_tab_stop(7), Some(8));
    assert_eq!(tabs.find_next_tab_stop(8), Some(16));
    assert_eq!(tabs.find_next_tab_stop(16), None);
    assert_eq!(tabs.find_next_tab_stop(19), None);
    assert_eq!(tabs.find_next_tab_stop(100), None);
}

#[test]
fn a_stop_that_is_set_is_found() {
    let mut tabs = TabStop::new(20, 8);
    tabs.set_tab_stop(3);
    assert_eq!(tabs.find_next_tab_stop(0), Some(3));
    assert_eq!(tabs.find_next_tab_stop(3), Some(8));
}

#[test]
fn new_columns_get_stops() {
    let mut tabs = TabStop::new(10, 4);
    assert_eq!(tabs.find_next_tab_stop(8), None);
    tabs.set_tab_stop(5);
    tabs.resize(17);
    assert_eq!(tabs.find_next_tab_stop(4), Some(5));
    assert_eq!(tabs.find_next_tab_stop(8), Some(12));
    assert_eq!(tabs.find_next_tab_stop(12), Some(16));
    assert_eq!(tabs.find_next_tab_stop(16), None);
}

#[test]
fn a_narrower_screen_keeps_its_stops() {
    let mut tabs = TabStop::new(20, 8);
    tabs.resize(5);
    assert_eq!(tabs.find_next_tab_stop(8), Some(16));
}
