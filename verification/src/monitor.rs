//! The session's decisions: what to do with a message from the input channel
//! and with the outcome of a read from the device. The loop that waits for
//! either and carries out the actions is not part of this crate.

use crate::text::{decode_lossy, fold, folded, lossy_text, same_text, starts_with, to_upper, uppercase};
use vstd::prelude::*;
use vstd::string::*;

verus! {

/// What the input channel carries.
#[derive(Clone, Debug, PartialEq, Eq)]
pub enum ControlMessage {
    /// A line that the user submitted.
    Raw(String),
    /// The user asked the device to stop what it is doing.
    Stop,
    /// The session is to end.
    Exit,
}

/// Mathematical model of a [`ControlMessage`].
#[verifier::ext_equal]
pub enum ControlValue {
    Raw(Seq<char>),
    Stop,
    Exit,
}

impl View for ControlMessage {
    type V = ControlValue;

    open spec fn view(&self) -> ControlValue {
        match self {
            ControlMessage::Raw(text) => ControlValue::Raw(text@),
            ControlMessage::Stop => ControlValue::Stop,
            ControlMessage::Exit => ControlValue::Exit,
        }
    }
}

/// The outcome of one read from the device.
#[derive(Clone, Debug, PartialEq, Eq)]
pub enum DeviceRead {
    /// The read returned: the number of bytes it reports, and the bytes of
    /// the line, line feed included.
    Done(usize, Vec<u8>),
    /// The read failed.
    Failed,
}

/// What the session loop is to do next.
#[derive(Clone, Debug, PartialEq, Eq)]
pub enum Action {
    /// Hand the line to the display.
    Forward(String),
    /// Write the text to the device as it is.
    Transmit(String),
    /// Hand the text to the macro expander and write what it returns.
    Expand(String),
    /// Clear the display; nothing goes to the device.
    ClearDisplay,
    /// Leave the loop. The flag tells whether a failure is to be logged.
    Close(bool),
}

/// Mathematical model of an [`Action`].
#[verifier::ext_equal]
pub enum ActionValue {
    Forward(Seq<char>),
    Transmit(Seq<char>),
    Expand(Seq<char>),
    ClearDisplay,
    Close(bool),
}

impl View for Action {
    type V = ActionValue;

    open spec fn view(&self) -> ActionValue {
        match self {
            Action::Forward(text) => ActionValue::Forward(text@),
            Action::Transmit(text) => ActionValue::Transmit(text@),
            Action::Expand(text) => ActionValue::Expand(text@),
            Action::ClearDisplay => ActionValue::ClearDisplay,
            Action::Close(failed) => ActionValue::Close(*failed),
        }
    }
}

/// The word that ends the session.
pub open spec fn exit_word() -> Seq<char> {
    "EXIT"@
}

/// The word that clears the display.
pub open spec fn clear_word() -> Seq<char> {
    "CLEAR"@
}

/// The prefix of a line that is a macro.
pub open spec fn macro_prefix() -> Seq<char> {
    "HUHN"@
}

/// The end of a transmitted line: carriage return, line feed.
pub open spec fn line_end() -> Seq<char> {
    "\r\n"@
}

/// What is written to the device for a stop request.
pub open spec fn stop_text() -> Seq<char> {
    "stop\n"@
}

/// Whether `text` asks for the end of the session: trimmed and without
/// regard to case, it is the exit word.
pub open spec fn is_exit(text: Seq<char>) -> bool {
    folded(text) == exit_word()
}

/// Whether `text` asks for the display to be cleared.
pub open spec fn is_clear(text: Seq<char>) -> bool {
    folded(text) == clear_word()
}

/// Whether `text` is a macro: without regard to case it begins with the
/// macro prefix.
pub open spec fn is_macro(text: Seq<char>) -> bool {
    macro_prefix().is_prefix_of(uppercase(text))
}

/// The action for a submitted line `text`, given its trimmed upper-case form
/// `form` and its upper-case form `upper`.
pub open spec fn decision(text: Seq<char>, form: Seq<char>, upper: Seq<char>) -> ActionValue {
    if form == exit_word() {
        ActionValue::Close(false)
    } else if form == clear_word() {
        ActionValue::ClearDisplay
    } else if macro_prefix().is_prefix_of(upper) {
        ActionValue::Expand(text)
    } else {
        ActionValue::Transmit(text + line_end())
    }
}

/// The action for a message from the input channel.
pub open spec fn message_action(message: ControlValue) -> ActionValue {
    match message {
        ControlValue::Raw(text) => decision(text, folded(text), uppercase(text)),
        ControlValue::Stop => ActionValue::Transmit(stop_text()),
        ControlValue::Exit => ActionValue::Close(false),
    }
}

/// Decides what to do with the submitted line `text`, whose trimmed
/// upper-case form is `form` and whose upper-case form is `upper`. The exit
/// word ends the session; the clear word clears the display; a macro goes to
/// the expander unchanged; any other line is transmitted with one line end
/// appended.
pub fn decide(text: String, form: &str, upper: &str) -> (action: Action)
    ensures
        action@ == decision(text@, form@, upper@),
{
    if same_text(form, "EXIT") {
        Action::Close(false)
    } else if same_text(form, "CLEAR") {
        Action::ClearDisplay
    } else if starts_with(upper, "HUHN") {
        Action::Expand(text)
    } else {
        let mut line = text;
        line.append("\r\n");
        Action::Transmit(line)
    }
}

/// Decides what to do with a message from the input channel. A stop request
/// is written to the device as the stop text and does not end the session.
pub fn on_message(message: ControlMessage) -> (action: Action)
    ensures
        action@ == message_action(message@),
{
    match message {
        ControlMessage::Raw(text) => {
            let form = fold(text.as_str());
            let upper = to_upper(text.as_str());
            decide(text, form.as_str(), upper.as_str())
        },
        ControlMessage::Stop => Action::Transmit(String::from_str("stop\n")),
        ControlMessage::Exit => Action::Close(false),
    }
}

/// The action for the outcome of a read from the device.
pub open spec fn read_action(count: int, bytes: Seq<u8>) -> ActionValue {
    if count == 0 {
        ActionValue::Close(false)
    } else {
        ActionValue::Forward(lossy_text(bytes))
    }
}

/// Decides what to do with the outcome of a read from the device. A read of
/// no bytes is the end of the stream and ends the session without a failure;
/// a failed read ends it with one; a line is decoded, whatever its bytes, and
/// forwarded to the display.
pub fn on_read(read: DeviceRead) -> (action: Action)
    ensures
        match read {
            DeviceRead::Done(count, bytes) => {
                &&& action@ == read_action(count as int, bytes@)
                &&& count != 0 && vstd::utf8::valid_utf8(bytes@) ==> action@
                    == ActionValue::Forward(vstd::utf8::decode_utf8(bytes@))
            },
            DeviceRead::Failed => action@ == ActionValue::Close(true),
        },
{
    match read {
        DeviceRead::Done(count, bytes) => {
            if count == 0 {
                Action::Close(false)
            } else {
                Action::Forward(decode_lossy(bytes.as_slice()))
            }
        },
        DeviceRead::Failed => Action::Close(true),
    }
}

/// A line that is neither the exit word nor the clear word and is a macro is
/// handed to the expander as it was submitted.
pub proof fn lemma_macro_line_is_expanded(text: Seq<char>)
    requires
        !is_exit(text),
        !is_clear(text),
        is_macro(text),
    ensures
        message_action(ControlValue::Raw(text)) == ActionValue::Expand(text),
{
}

/// A line that is neither the exit word nor the clear word nor a macro is
/// transmitted as it was submitted, with one line end appended.
pub proof fn lemma_plain_line_gets_one_line_end(text: Seq<char>)
    requires
        !is_exit(text),
        !is_clear(text),
        !is_macro(text),
    ensures
        message_action(ControlValue::Raw(text)) == ActionValue::Transmit(text + line_end()),
{
}

/// Parity of a serial line.
#[derive(Clone, Copy, Debug, PartialEq, Eq, Structural)]
pub enum Parity {
    Off,
    Odd,
    Even,
}

/// Flow control of a serial line.
#[derive(Clone, Copy, Debug, PartialEq, Eq, Structural)]
pub enum FlowControl {
    Off,
    Software,
    Hardware,
}

/// Settings of the serial line.
#[derive(Clone, Copy, Debug, PartialEq, Eq, Structural)]
pub struct LineSettings {
    /// Symbols per second.
    pub baud_rate: u32,
    /// Data bits per character.
    pub data_bits: u8,
    /// Parity checking.
    pub parity: Parity,
    /// Stop bits per character.
    pub stop_bits: u8,
    /// Flow control.
    pub flow_control: FlowControl,
    /// Seconds after which a read gives up.
    pub timeout_secs: u64,
    /// Whether the port is locked against other programs once it is open.
    pub exclusive: bool,
}

/// The settings of every session: 115200 baud, eight data bits, no parity,
/// one stop bit, no flow control, reads that give up after ten seconds, and a
/// port that other programs may open as well.
pub open spec fn session_settings() -> LineSettings {
    LineSettings {
        baud_rate: 115200,
        data_bits: 8,
        parity: Parity::Off,
        stop_bits: 1,
        flow_control: FlowControl::Off,
        timeout_secs: 10,
        exclusive: false,
    }
}

impl LineSettings {
    /// The settings of every session.
    pub fn fixed() -> (settings: Self)
        ensures
            settings == session_settings(),
    {
        LineSettings {
            baud_rate: 115200,
            data_bits: 8,
            parity: Parity::Off,
            stop_bits: 1,
            flow_control: FlowControl::Off,
            timeout_secs: 10,
            exclusive: false,
        }
    }
}

/// Where the path of the device comes from.
#[derive(Clone, Debug, PartialEq, Eq)]
pub enum PortChoice {
    /// The path was given.
    Given(String),
    /// The device is to be found without asking.
    Discover,
    /// The user is to be asked.
    Ask,
}

/// Decides where the path of the device comes from: a path that was given
/// is taken; without one the device is looked for if `auto` is set, and the
/// user is asked if it is not.
pub fn choose_port(given: Option<String>, auto: bool) -> (choice: PortChoice)
    ensures
        match given {
            Some(path) => choice matches PortChoice::Given(taken) && taken@ == path@,
            None => if auto {
                choice is Discover
            } else {
                choice is Ask
            },
        },
{
    match given {
        Some(path) => PortChoice::Given(path),
        None => if auto {
            PortChoice::Discover
        } else {
            PortChoice::Ask
        },
    }
}

/// What is written to the device when the session opens.
pub open spec fn welcome_text() -> Seq<char> {
    "welcome\r\n"@
}

/// The text to write to the device right after it is opened: the welcome
/// line, unless it is switched off.
pub fn opening_write(no_welcome: bool) -> (text: Option<String>)
    ensures
        no_welcome ==> text is None,
        !no_welcome ==> (text matches Some(line) && line@ == welcome_text()),
{
    if no_welcome {
        None
    } else {
        Some(String::from_str("welcome\r\n"))
    }
}

} // verus!
