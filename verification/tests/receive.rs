use wsta::exit::{exit_code, Fatal, EXIT_FAILURE, EXIT_OK, EXIT_STREAM_CLOSED};
use wsta::receive::{message_to_stdout, receive_step, Printed, Received, ReceiverStep};

#[test]
fn text_payload_is_shown_as_a_line() {
    assert_eq!(message_to_stdout(b"hello".to_vec()), Printed::Line(String::from("hello")));
    assert_eq!(
        message_to_stdout(vec![0xe2, 0x82, 0xac, 0x20, 0xf0, 0x9f, 0x98, 0x80]),
        Printed::Line(String::from("\u{20ac} \u{1f600}"))
    );
    assert_eq!(message_to_stdout(Vec::new()), Printed::Line(String::new()));
}

#[test]
fn other_payload_is_shown_as_it_is() {
    assert_eq!(message_to_stdout(vec![0xff, 0xfe, 0x00]), Printed::Raw(vec![0xff, 0xfe, 0x00]));
    assert_eq!(message_to_stdout(vec![b'a', 0x80]), Printed::Raw(vec![b'a', 0x80]));
    assert_eq!(message_to_stdout(vec![0xc0, 0xaf]), Printed::Raw(vec![0xc0, 0xaf]));
    assert_eq!(message_to_stdout(vec![0xed, 0xa0, 0x80]), Printed::Raw(vec![0xed, 0xa0, 0x80]));
    assert_eq!(message_to_stdout(vec![0xe2, 0x82]), Printed::Raw(vec![0xe2, 0x82]));
}

#[test]
fn frame_is_printed_and_receiving_goes_on() {
    assert_eq!(
        receive_step(Received::Message(b"pong".to_vec())),
        ReceiverStep::Print(Printed::Line(String::from("pong")))
    );
    assert_eq!(
        receive_step(Received::Message(vec![0x80])),
        ReceiverStep::Print(Printed::Raw(vec![0x80]))
    );
}

#[test]
fn closed_stream_ends_the_process_with_its_own_status() {
    let step = receive_step(Received::NoDataAvailable);
    assert_eq!(step, ReceiverStep::Exit(Fatal::StreamClosed));
    match step {
        ReceiverStep::Exit(fatal) => assert_eq!(exit_code(fatal), 2),
        ReceiverStep::Print(printed) => panic!("printed {:?}", printed),
    }
}

#[test]
fn receive_error_ends_the_process_with_the_same_status() {
    let step = receive_step(Received::Failed);
    assert_eq!(step, ReceiverStep::Exit(Fatal::Receive));
    assert_eq!(exit_code(Fatal::Receive), EXIT_STREAM_CLOSED);
}

#[test]
fn exit_statuses() {
    assert_eq!(EXIT_OK, 0);
    assert_eq!(EXIT_FAILURE, 1);
    assert_eq!(EXIT_STREAM_CLOSED, 2);
    assert_eq!(exit_code(Fatal::Configuration), 1);
    assert_eq!(exit_code(Fatal::Authentication), 1);
    assert_eq!(exit_code(Fatal::Handshake), 1);
    assert_eq!(exit_code(Fatal::Send), 1);
    assert_eq!(exit_code(Fatal::Output), 1);
    assert_eq!(exit_code(Fatal::StreamClosed), 2);
    assert_eq!(exit_code(Fatal::Receive), 2);
}
