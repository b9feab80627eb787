use formatter_builder::FormatWith;

#[test]
fn a_new_slot_is_loaded() {
    let slot = FormatWith::new(|| 5);
    assert!(slot.is_loaded());
}

#[test]
fn take_hands_the_routine_out_once() {
    let text = String::from("kept");
    let mut slot = FormatWith::new(move || text);
    let routine = slot.take();
    assert!(!slot.is_loaded());
    assert_eq!(routine(), "kept");
}
