use hyprmux::ui_capture::{capture_ui, encode_plan, frame_painted, CaptureForm};

const PNG: u8 = 1;
const TEXT: u8 = 0;

fn form(render: u8, scale: u8) -> CaptureForm {
    CaptureForm { render, scale, image_pixels: false }
}

#[test]
fn requests_before_one_paint_share_a_batch_and_its_encodes() {
    let mut pending = None;
    assert!(capture_ui(&mut pending, form(PNG, 1), 10), "the first request asks for a paint");
    assert!(!capture_ui(&mut pending, form(PNG, 1), 11));
    assert!(!capture_ui(&mut pending, form(TEXT, 1), 12));
    let batch = pending.as_mut().unwrap();
    assert_eq!(batch.waiters.len(), 3);
    let waiters = frame_painted(batch);
    assert!(batch.served && batch.waiters.is_empty());
    let (forms, answer_from) = encode_plan(&waiters);
    assert_eq!(forms, [form(PNG, 1), form(TEXT, 1)], "each form is encoded once");
    assert_eq!(answer_from, [0, 0, 1]);

    assert!(capture_ui(&mut pending, form(TEXT, 1), 13), "after the paint a request waits for a frame of its own");
    assert_eq!(pending.as_ref().unwrap().waiters, [(form(TEXT, 1), 13)]);
}

#[test]
fn each_scale_is_its_own_encode() {
    let waiters = vec![(form(PNG, 2), 1), (form(PNG, 1), 2), (form(PNG, 2), 3)];
    let (forms, answer_from) = encode_plan(&waiters);
    assert_eq!(forms, [form(PNG, 2), form(PNG, 1)]);
    assert_eq!(answer_from, [0, 1, 0]);
}
