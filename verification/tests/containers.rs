use script_timers::font::{get_and_reset_text_shaping_performance_counter, FontSearchScope};
use script_timers::gamepadlist::GamepadList;

#[test]
fn gamepad_list_keeps_order_and_uniqueness() {
    let mut list = GamepadList::new(vec![3, 1]);
    assert_eq!(list.length(), 2);

    // 1 is already present; 5 appears twice and is added once.
    list.add_if_not_exists(&[1, 5, 5, 8]);
    assert_eq!(list.length(), 4);
    assert_eq!(list.item(0), Some(3));
    assert_eq!(list.item(1), Some(1));
    assert_eq!(list.item(2), Some(5));
    assert_eq!(list.item(3), Some(8));
    assert_eq!(list.item(4), None);
}

#[test]
fn gamepad_list_removes_by_position() {
    let mut list = GamepadList::new(vec![7, 8, 9]);
    list.remove_gamepad(1);
    assert_eq!(list.length(), 2);
    assert_eq!(list.item(0), Some(7));
    assert_eq!(list.item(1), Some(9));
}

#[test]
fn shaping_counter_reads_and_resets() {
    let mut counter: usize = 41;
    assert_eq!(get_and_reset_text_shaping_performance_counter(&mut counter), 41);
    assert_eq!(counter, 0);
    assert_eq!(get_and_reset_text_shaping_performance_counter(&mut counter), 0);
}

#[test]
fn font_search_scope_distinguishes_local() {
    assert_ne!(FontSearchScope::Any, FontSearchScope::Local);
    assert_eq!(FontSearchScope::Local, FontSearchScope::Local);
}
