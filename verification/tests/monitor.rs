use huhnitor::monitor::{
    choose_port, decide, on_message, on_read, opening_write, Action, ControlMessage, DeviceRead,
    FlowControl, LineSettings, Parity, PortChoice,
};

fn raw(text: &str) -> ControlMessage {
    ControlMessage::Raw(text.to_string())
}

#[test]
fn submitting_clear_clears_the_display_and_sends_nothing() {
    assert_eq!(on_message(raw("CLEAR")), Action::ClearDisplay);
}

#[test]
fn clear_is_recognised_without_regard_to_case_or_surrounding_space() {
    assert_eq!(on_message(raw("clear")), Action::ClearDisplay);
    assert_eq!(on_message(raw("  Clear\r\n")), Action::ClearDisplay);
}

#[test]
fn submitting_exit_ends_the_session() {
    assert_eq!(on_message(raw("EXIT")), Action::Close(false));
}

#[test]
fn exit_is_recognised_without_regard_to_case_or_surrounding_space() {
    assert_eq!(on_message(raw("exit")), Action::Close(false));
    assert_eq!(on_message(raw(" eXiT \r\n")), Action::Close(false));
}

#[test]
fn a_line_that_only_contains_the_exit_word_is_transmitted() {
    assert_eq!(on_message(raw("exit now")), Action::Transmit("exit now\r\n".to_string()));
    assert_eq!(on_message(raw("exits")), Action::Transmit("exits\r\n".to_string()));
}

#[test]
fn the_exit_message_ends_the_session() {
    assert_eq!(on_message(ControlMessage::Exit), Action::Close(false));
}

#[test]
fn a_stop_request_is_written_as_the_stop_text() {
    assert_eq!(on_message(ControlMessage::Stop), Action::Transmit("stop\n".to_string()));
}

#[test]
fn a_macro_goes_to_the_expander_as_it_was_submitted() {
    assert_eq!(on_message(raw("HUHN read x")), Action::Expand("HUHN read x".to_string()));
    assert_eq!(on_message(raw("huhn read x\r\n")), Action::Expand("huhn read x\r\n".to_string()));
    assert_eq!(on_message(raw("Huhn")), Action::Expand("Huhn".to_string()));
}

#[test]
fn the_macro_prefix_counts_only_at_the_very_start() {
    assert_eq!(on_message(raw(" huhn x")), Action::Transmit(" huhn x\r\n".to_string()));
    assert_eq!(on_message(raw("a huhn")), Action::Transmit("a huhn\r\n".to_string()));
    assert_eq!(on_message(raw("huh")), Action::Transmit("huh\r\n".to_string()));
}

#[test]
fn any_other_line_is_transmitted_with_one_line_end_appended() {
    assert_eq!(on_message(raw("scan -t 5s")), Action::Transmit("scan -t 5s\r\n".to_string()));
    assert_eq!(on_message(raw("")), Action::Transmit("\r\n".to_string()));
    assert_eq!(on_message(raw("  padded  ")), Action::Transmit("  padded  \r\n".to_string()));
    assert_eq!(on_message(raw("done\r\n")), Action::Transmit("done\r\n\r\n".to_string()));
    assert_eq!(on_message(raw("grüß dich")), Action::Transmit("grüß dich\r\n".to_string()));
}

#[test]
fn decide_goes_by_the_forms_it_is_given() {
    assert_eq!(decide("x".to_string(), "EXIT", "X"), Action::Close(false));
    assert_eq!(decide("x".to_string(), "CLEAR", "X"), Action::ClearDisplay);
    assert_eq!(decide("x".to_string(), "X", "HUHN"), Action::Expand("x".to_string()));
    assert_eq!(decide("x".to_string(), "X", "X"), Action::Transmit("x\r\n".to_string()));
    // The exit word wins over the clear word's place and the macro prefix.
    assert_eq!(decide("x".to_string(), "EXIT", "HUHN"), Action::Close(false));
    assert_eq!(decide("x".to_string(), "CLEAR", "HUHN"), Action::ClearDisplay);
    // The forms are taken as they are: no folding happens here.
    assert_eq!(decide("x".to_string(), "exit", "huhn"), Action::Transmit("x\r\n".to_string()));
}

#[test]
fn the_end_of_the_stream_ends_the_session_without_a_failure() {
    assert_eq!(on_read(DeviceRead::Done(0, Vec::new())), Action::Close(false));
    assert_eq!(on_read(DeviceRead::Done(0, vec![b'x'])), Action::Close(false));
}

#[test]
fn a_failed_read_ends_the_session_with_a_failure() {
    assert_eq!(on_read(DeviceRead::Failed), Action::Close(true));
}

#[test]
fn a_line_is_forwarded_with_its_line_feed() {
    let bytes = "ERROR: sensor offline\n".as_bytes().to_vec();
    assert_eq!(
        on_read(DeviceRead::Done(bytes.len(), bytes)),
        Action::Forward("ERROR: sensor offline\n".to_string())
    );
    let bytes = "größe: 3\r\n".as_bytes().to_vec();
    assert_eq!(
        on_read(DeviceRead::Done(bytes.len(), bytes)),
        Action::Forward("größe: 3\r\n".to_string())
    );
}

#[test]
fn bytes_that_are_not_text_are_replaced_not_refused() {
    let bytes = vec![b'f', 0xff, b'o', b'\n'];
    assert_eq!(on_read(DeviceRead::Done(4, bytes)), Action::Forward("f\u{fffd}o\n".to_string()));
    let bytes = vec![0xc3];
    assert_eq!(on_read(DeviceRead::Done(1, bytes)), Action::Forward("\u{fffd}".to_string()));
}

#[test]
fn the_line_settings_are_fixed() {
    let settings = LineSettings::fixed();
    assert_eq!(settings.baud_rate, 115200);
    assert_eq!(settings.data_bits, 8);
    assert_eq!(settings.parity, Parity::Off);
    assert_eq!(settings.stop_bits, 1);
    assert_eq!(settings.flow_control, FlowControl::Off);
    assert_eq!(settings.timeout_secs, 10);
    assert!(!settings.exclusive);
}

#[test]
fn a_given_port_is_taken_before_anything_else() {
    let given = Some("/dev/ttyUSB0".to_string());
    assert_eq!(choose_port(given.clone(), true), PortChoice::Given("/dev/ttyUSB0".to_string()));
    assert_eq!(choose_port(given, false), PortChoice::Given("/dev/ttyUSB0".to_string()));
}

#[test]
fn without_a_given_port_the_device_is_looked_for_or_asked_for() {
    assert_eq!(choose_port(None, true), PortChoice::Discover);
    assert_eq!(choose_port(None, false), PortChoice::Ask);
}

#[test]
fn the_welcome_line_is_written_unless_switched_off() {
    assert_eq!(opening_write(false), Some("welcome\r\n".to_string()));
    assert_eq!(opening_write(true), None);
}
