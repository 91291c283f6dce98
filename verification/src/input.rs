//! The line-oriented input side: what to forward when the line editor
//! returns, and how a line from the input channel is read. Editing the line
//! and waiting on the channel are not part of this crate.

use crate::interrupt::{fires, recorded, InterruptHandler};
use crate::monitor::{ControlMessage, ControlValue};
use crate::text::{trim, trimmed};
use vstd::prelude::*;
use vstd::string::*;

verus! {

/// How a call of the line editor ended.
#[derive(Clone, Debug, PartialEq, Eq)]
pub enum Readline {
    /// The user submitted a line.
    Line(String),
    /// The user interrupted the editor.
    Interrupted,
    /// The editor failed in another way.
    Failed,
}

/// What the receiver is to do after a call of the line editor.
#[derive(Clone, Debug, PartialEq, Eq)]
pub struct Forwarding {
    /// The line to add to the editor's persistent history, if any.
    pub remember: Option<String>,
    /// Messages to put on the input channel, in this order.
    pub messages: Vec<ControlMessage>,
    /// Whether the editor's error is to be handed to the log.
    pub report: bool,
}

/// Mathematical model of a [`Forwarding`].
#[verifier::ext_equal]
pub struct ForwardingValue {
    pub remember: Option<Seq<char>>,
    pub messages: Seq<ControlValue>,
    pub report: bool,
}

impl View for Forwarding {
    type V = ForwardingValue;

    open spec fn view(&self) -> ForwardingValue {
        ForwardingValue {
            remember: match self.remember {
                Some(line) => Some(line@),
                None => None,
            },
            messages: Seq::new(self.messages@.len(), |i: int| self.messages@[i]@),
            report: self.report,
        }
    }
}

/// Mathematical model of a [`Readline`].
#[verifier::ext_equal]
pub enum ReadlineValue {
    Line(Seq<char>),
    Interrupted,
    Failed,
}

impl View for Readline {
    type V = ReadlineValue;

    open spec fn view(&self) -> ReadlineValue {
        match self {
            Readline::Line(line) => ReadlineValue::Line(line@),
            Readline::Interrupted => ReadlineValue::Interrupted,
            Readline::Failed => ReadlineValue::Failed,
        }
    }
}

/// What is forwarded after a call of the line editor. A submitted line is
/// remembered and sent as it is. An interrupt sends a stop request, followed
/// by an exit request if `fired` says that it is the hard-exit condition. A
/// failure sends nothing and goes to the log.
pub open spec fn forwarding_of(outcome: ReadlineValue, fired: bool) -> ForwardingValue {
    match outcome {
        ReadlineValue::Line(line) => ForwardingValue {
            remember: Some(line),
            messages: seq![ControlValue::Raw(line)],
            report: false,
        },
        ReadlineValue::Interrupted => ForwardingValue {
            remember: None,
            messages: if fired {
                seq![ControlValue::Stop, ControlValue::Exit]
            } else {
                seq![ControlValue::Stop]
            },
            report: false,
        },
        ReadlineValue::Failed => ForwardingValue {
            remember: None,
            messages: Seq::empty(),
            report: true,
        },
    }
}

/// Decides what to forward after a call of the line editor that ended in
/// `outcome`, where `fired` tells whether an interrupt is the hard-exit
/// condition.
pub fn forward(outcome: Readline, fired: bool) -> (forwarding: Forwarding)
    ensures
        forwarding@ == forwarding_of(outcome@, fired),
{
    let mut messages: Vec<ControlMessage> = Vec::new();
    let forwarding = match outcome {
        Readline::Line(line) => {
            let remember = line.clone();
            messages.push(ControlMessage::Raw(line));
            Forwarding { remember: Some(remember), messages, report: false }
        },
        Readline::Interrupted => {
            messages.push(ControlMessage::Stop);
            if fired {
                messages.push(ControlMessage::Exit);
            }
            Forwarding { remember: None, messages, report: false }
        },
        Readline::Failed => Forwarding { remember: None, messages, report: true },
    };
    assert(forwarding@.messages =~= forwarding_of(outcome@, fired).messages);
    forwarding
}

/// Decides what to forward after one call of the line editor. An interrupt
/// is recorded in `tracker` at the present time, so for it the contract holds
/// for some reading of the tracker's clock; a line and a failure leave the
/// tracker as it was.
pub fn receiver(outcome: Readline, tracker: &mut InterruptHandler) -> (forwarding: Forwarding)
    requires
        old(tracker).wf(),
    ensures
        final(tracker).wf(),
        outcome is Interrupted ==> exists|now: u128|
            {
                &&& forwarding@ == forwarding_of(outcome@, fires(old(tracker)@, now))
                &&& final(tracker)@ == #[trigger] recorded(old(tracker)@, now)
            },
        !(outcome is Interrupted) ==> {
            &&& forwarding@ == forwarding_of(outcome@, false)
            &&& final(tracker)@ == old(tracker)@
        },
{
    let fired = match outcome {
        Readline::Interrupted => tracker.interrupted(),
        _ => false,
    };
    forward(outcome, fired)
}

/// Reads what came from the input channel: a line is returned without the
/// white space around it, and a closed channel gives nothing.
pub fn read_line(received: Option<String>) -> (line: Option<String>)
    ensures
        match received {
            Some(text) => line matches Some(inner) && inner@ == trimmed(text@),
            None => line is None,
        },
{
    match received {
        Some(text) => Some(String::from_str(trim(text.as_str()))),
        None => None,
    }
}

} // verus!
