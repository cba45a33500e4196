use wsta::frame_data::FrameData;

#[test]
fn text_frame_is_utf8() {
    let frame = FrameData::from_utf8(String::from("hello"));
    assert!(frame.is_utf8());
    assert_eq!(frame, FrameData::Utf8(String::from("hello")));
}

#[test]
fn binary_frame_is_not_utf8() {
    let frame = FrameData::from_binary_buffer(vec![0, 159, 146, 150]);
    assert!(!frame.is_utf8());
    assert_eq!(frame, FrameData::Binary(vec![0, 159, 146, 150]));
}
