use corophage::Control;

#[test]
fn control_resume_holds_value() {
    let c: Control<u32> = Control::resume(7);
    assert_eq!(c, Control::Resume(7));
}

#[test]
fn control_cancel_is_cancel() {
    let c: Control<u32> = Control::cancel();
    assert_eq!(c, Control::Cancel);
}

#[test]
fn control_from_value_resumes() {
    let c: Control<&str> = Control::from("yes");
    assert_eq!(c, Control::Resume("yes"));
    let d: Control<u8> = 3u8.into();
    assert_eq!(d, Control::Resume(3));
}
