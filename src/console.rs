//! The interactive session: notifications in, one command at a time out.
use vstd::prelude::*;
use vstd::utf8::{decode_utf8, encode_utf8, valid_utf8};
use crate::addr::Addr;
use crate::error::Error;
use crate::frames::{frames_of, split_frames};
use crate::scan::RadioEvent;

verus! {

/// A notification payload as it is shown.
#[derive(Clone, Debug, PartialEq, Eq)]
pub enum Rendered {
    /// The payload read as UTF-8 text.
    Text(String),
    /// The payload is not UTF-8; it is shown as a hexadecimal dump.
    Undecodable(Vec<u8>),
}

/// Whether `r` is how the payload `p` is shown: nothing for an empty payload,
/// its text when it is UTF-8, else its bytes.
pub open spec fn renders(p: Seq<u8>, r: Option<Rendered>) -> bool {
    if p.len() == 0 {
        r is None
    } else if valid_utf8(p) {
        r matches Some(Rendered::Text(s)) && s@ == decode_utf8(p)
    } else {
        r matches Some(Rendered::Undecodable(v)) && v@ == p
    }
}

/// Relies on `String::from_utf8`: it accepts exactly the UTF-8 byte
/// sequences, keeping their characters, and hands the bytes back otherwise.
#[verifier::external_body]
fn utf8_string(bytes: Vec<u8>) -> (r: Result<String, Vec<u8>>)
    ensures
        match r {
            Ok(s) => valid_utf8(bytes@) && s@ == decode_utf8(bytes@),
            Err(v) => !valid_utf8(bytes@) && v@ == bytes@,
        },
{
    match String::from_utf8(bytes) {
        Ok(s) => Ok(s),
        Err(e) => Err(e.into_bytes()),
    }
}

/// How a notification payload is shown, if at all.
pub fn render_notification(payload: Vec<u8>) -> (r: Option<Rendered>)
    ensures
        renders(payload@, r),
{
    if payload.len() == 0 {
        return None;
    }
    match utf8_string(payload) {
        Ok(s) => Some(Rendered::Text(s)),
        Err(v) => Some(Rendered::Undecodable(v)),
    }
}

/// The command that ends a session.
pub open spec fn is_quit(s: Seq<char>) -> bool {
    s == "quit"@
}

/// Whether the user may submit `s`: an AT command or `quit`.
pub open spec fn command_ok(s: Seq<char>) -> bool {
    (s.len() >= 2 && s[0] == 'A' && s[1] == 'T') || is_quit(s)
}

/// Whether `s` is the command that ends a session.
pub fn quit_requested(s: &str) -> (r: bool)
    ensures
        r == is_quit(s@),
{
    let a: String = s.to_owned();
    let b: String = "quit".to_owned();
    a == b
}

/// Whether the input source may hand `s` to the session.
pub fn is_command(s: &str) -> (r: bool)
    ensures
        r == command_ok(s@),
{
    broadcast use vstd::string::axiom_spec_iter, vstd::string::next_postcondition;

    let mut it = s.chars();
    let c0 = it.next();
    let c1 = it.next();
    let at = c0 == Some('A') && c1 == Some('T');
    at || quit_requested(s)
}

/// Why a session ended without a failure.
#[derive(Clone, Copy, Debug, PartialEq, Eq, Structural)]
pub enum EndReason {
    /// The device was lost or disconnected.
    DeviceLost,
    /// The user typed `quit`.
    UserQuit,
    /// The user interrupted the console.
    Cancelled,
}

/// What reaches the session loop.
#[derive(Clone, Debug, PartialEq, Eq)]
pub enum SessionInput {
    /// An event of the radio.
    Radio(RadioEvent),
    /// The adapter's event stream closed.
    StreamEnded,
    /// The user interrupted the console.
    Cancelled,
    /// The input source published a command.
    Command(String),
    /// The input source failed to read from the terminal.
    InputFailed,
    /// The input source went away.
    InputClosed,
    /// The device sent a notification.
    Notification(Vec<u8>),
    /// Every frame of the last command was written and the pause is over.
    Sent,
}

/// What the session loop does next.
#[derive(Clone, Debug, PartialEq, Eq)]
pub enum SessionStep {
    /// Nothing.
    Idle,
    /// Print a notification.
    Show(Rendered),
    /// Write these frames in order, one write each, pause, then report `Sent`.
    Send(Vec<Vec<u8>>),
    /// Let the input source prompt for the next command.
    GoAhead,
    /// End the session, asking the device to disconnect first if `disconnect`.
    End { disconnect: bool, reason: EndReason },
    /// End the session with this failure.
    Fail(Error),
}

/// The part of a step that matters for turn-taking.
#[derive(Clone, Copy, Debug, PartialEq, Eq, Structural)]
pub enum StepKind {
    Send,
    GoAhead,
    Other,
}

/// The state of a session with a connected device.
#[derive(Clone, Copy, Debug, PartialEq, Eq, Structural)]
pub struct Session {
    /// The connected device.
    pub device: Addr,
    /// A command's frames are out and `Sent` has not come yet.
    pub awaiting_sent: bool,
    /// The session is over; every further input is ignored.
    pub ended: bool,
}

/// Whether `ev` tells that the device at `device` is gone.
pub open spec fn is_loss_of(ev: RadioEvent, device: Addr) -> bool {
    match ev {
        RadioEvent::Lost(a) => a == device,
        RadioEvent::Disconnected(a) => a == device,
        _ => false,
    }
}

/// The session after `input`.
pub open spec fn session_after(s: Session, input: SessionInput) -> Session {
    if s.ended {
        s
    } else {
        match input {
            SessionInput::Radio(ev) => if is_loss_of(ev, s.device) {
                Session { ended: true, ..s }
            } else {
                s
            },
            SessionInput::Command(c) => if s.awaiting_sent || is_quit(c@) {
                Session { ended: true, ..s }
            } else {
                Session { awaiting_sent: true, ..s }
            },
            SessionInput::Notification(_) => s,
            SessionInput::Sent => Session { awaiting_sent: false, ..s },
            _ => Session { ended: true, ..s },
        }
    }
}

/// Whether `input` makes the session send frames or give the go-ahead.
pub open spec fn step_kind(s: Session, input: SessionInput) -> StepKind {
    if s.ended {
        StepKind::Other
    } else {
        match input {
            SessionInput::Command(c) => if s.awaiting_sent || is_quit(c@) {
                StepKind::Other
            } else {
                StepKind::Send
            },
            SessionInput::Sent => if s.awaiting_sent {
                StepKind::GoAhead
            } else {
                StepKind::Other
            },
            _ => StepKind::Other,
        }
    }
}

impl Session {
    /// A session with `device`, ready for the first command.
    pub fn new(device: Addr) -> (r: Session)
        ensures
            r == (Session { device, awaiting_sent: false, ended: false }),
    {
        Session { device, awaiting_sent: false, ended: false }
    }

    /// Takes in one input and says what to do.
    pub fn step(&mut self, input: SessionInput) -> (r: SessionStep)
        ensures
            *final(self) == session_after(*old(self), input),
            (r is Send) <==> step_kind(*old(self), input) == StepKind::Send,
            (r is GoAhead) <==> step_kind(*old(self), input) == StepKind::GoAhead,
            old(self).ended ==> r == SessionStep::Idle,
            !old(self).ended ==> match input {
                SessionInput::Radio(ev) => if is_loss_of(ev, old(self).device) {
                    r == (SessionStep::End { disconnect: false, reason: EndReason::DeviceLost })
                } else {
                    r == SessionStep::Idle
                },
                SessionInput::StreamEnded => r == SessionStep::Fail(Error::AdapterStopped),
                SessionInput::Cancelled => r == (SessionStep::End {
                    disconnect: true,
                    reason: EndReason::Cancelled,
                }),
                SessionInput::Command(c) => if old(self).awaiting_sent {
                    r == SessionStep::Fail(Error::OutOfTurn)
                } else if is_quit(c@) {
                    r == (SessionStep::End { disconnect: true, reason: EndReason::UserQuit })
                } else {
                    r matches SessionStep::Send(f) && f.deep_view() == frames_of(encode_utf8(c@))
                },
                SessionInput::InputFailed => r == SessionStep::Fail(Error::Terminal),
                SessionInput::InputClosed => r == SessionStep::Fail(Error::Unknown),
                SessionInput::Notification(p) => match r {
                    SessionStep::Show(x) => renders(p@, Some(x)),
                    SessionStep::Idle => renders(p@, None),
                    _ => false,
                },
                SessionInput::Sent => if old(self).awaiting_sent {
                    r == SessionStep::GoAhead
                } else {
                    r == SessionStep::Idle
                },
            },
    {
        if self.ended {
            return SessionStep::Idle;
        }
        match input {
            SessionInput::Radio(ev) => {
                let lost = match ev {
                    RadioEvent::Lost(a) => a == self.device,
                    RadioEvent::Disconnected(a) => a == self.device,
                    _ => false,
                };
                if lost {
                    self.ended = true;
                    SessionStep::End { disconnect: false, reason: EndReason::DeviceLost }
                } else {
                    SessionStep::Idle
                }
            },
            SessionInput::StreamEnded => {
                self.ended = true;
                SessionStep::Fail(Error::AdapterStopped)
            },
            SessionInput::Cancelled => {
                self.ended = true;
                SessionStep::End { disconnect: true, reason: EndReason::Cancelled }
            },
            SessionInput::Command(c) => {
                if self.awaiting_sent {
                    self.ended = true;
                    SessionStep::Fail(Error::OutOfTurn)
                } else if quit_requested(c.as_str()) {
                    self.ended = true;
                    SessionStep::End { disconnect: true, reason: EndReason::UserQuit }
                } else {
                    self.awaiting_sent = true;
                    SessionStep::Send(split_frames(c.as_str().as_bytes()))
                }
            },
            SessionInput::InputFailed => {
                self.ended = true;
                SessionStep::Fail(Error::Terminal)
            },
            SessionInput::InputClosed => {
                self.ended = true;
                SessionStep::Fail(Error::Unknown)
            },
            SessionInput::Notification(p) => match render_notification(p) {
                Some(x) => SessionStep::Show(x),
                None => SessionStep::Idle,
            },
            SessionInput::Sent => {
                if self.awaiting_sent {
                    self.awaiting_sent = false;
                    SessionStep::GoAhead
                } else {
                    SessionStep::Idle
                }
            },
        }
    }
}

/// The session once it has taken in `inputs`.
pub open spec fn session_run(s: Session, inputs: Seq<SessionInput>) -> Session
    decreases inputs.len(),
{
    if inputs.len() == 0 {
        s
    } else {
        session_run(session_after(s, inputs[0]), inputs.drop_first())
    }
}

/// The kinds of the steps taken for `inputs`, in order.
pub open spec fn session_kinds(s: Session, inputs: Seq<SessionInput>) -> Seq<StepKind>
    decreases inputs.len(),
{
    if inputs.len() == 0 {
        seq![]
    } else {
        seq![step_kind(s, inputs[0])] + session_kinds(session_after(s, inputs[0]), inputs.drop_first())
    }
}

/// Whether sends and go-aheads in `ks` strictly alternate, given whether a
/// send is already outstanding: no send while one is outstanding, and no
/// go-ahead without one.
pub open spec fn turns_alternate(ks: Seq<StepKind>, outstanding: bool) -> bool
    decreases ks.len(),
{
    if ks.len() == 0 {
        true
    } else {
        match ks[0] {
            StepKind::Send => !outstanding && turns_alternate(ks.drop_first(), true),
            StepKind::GoAhead => outstanding && turns_alternate(ks.drop_first(), false),
            StepKind::Other => turns_alternate(ks.drop_first(), outstanding),
        }
    }
}

/// Turn-taking: whatever the order in which commands, radio events,
/// notifications and cancellation arrive, the frames of a second command are
/// never sent before the go-ahead for the previous one.
pub proof fn lemma_turn_taking(s: Session, inputs: Seq<SessionInput>)
    ensures
        turns_alternate(session_kinds(s, inputs), s.awaiting_sent),
    decreases inputs.len(),
{
    if inputs.len() > 0 {
        let s2 = session_after(s, inputs[0]);
        lemma_turn_taking(s2, inputs.drop_first());
        let ks = session_kinds(s, inputs);
        assert(ks[0] == step_kind(s, inputs[0]));
        assert(ks.drop_first() =~= session_kinds(s2, inputs.drop_first()));
        match step_kind(s, inputs[0]) {
            StepKind::Send => assert(!s.awaiting_sent && s2.awaiting_sent),
            StepKind::GoAhead => assert(s.awaiting_sent && !s2.awaiting_sent),
            StepKind::Other => assert(s2.awaiting_sent == s.awaiting_sent),
        }
    }
}

} // verus!
