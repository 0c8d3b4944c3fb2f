//! The session as a state machine: each event that reaches the client is
//! answered with the next state and the effects to carry out, in order.
//!
//! The program around this library performs the effects and reports what
//! happened as further events. Two loops feed the machine, one reading the
//! operator's input and one reading from the peer, and so does the interrupt
//! handler. They share one `Liveness`.

use crate::line::{
    exit_token, frame_line, is_exit_token, line_terminator, strip_terminator, without_terminator,
};
use vstd::prelude::*;

verus! {

/// Whether the session goes on. It starts as `Running`; once `Stopped`, it
/// stays so, and the transport has been closed.
#[derive(Clone, Copy, Debug, PartialEq, Eq, Structural)]
pub enum Liveness {
    Running,
    Stopped,
}

/// Something the operator is told about the session.
#[derive(Clone, Copy, Debug, PartialEq, Eq, Structural)]
pub enum Notice {
    /// The connection to the peer stands.
    Connected,
    /// The peer went away.
    Disconnected,
    /// A line could not be sent.
    SendFailed,
}

/// Something that happened and that the session has to react to.
#[derive(Clone, Debug, PartialEq, Eq)]
pub enum Event {
    /// The connection was opened.
    Started,
    /// The operator entered a line, given as it was read.
    Typed(String),
    /// The operator's input ended or could not be read.
    InputEnded,
    /// The last transmission went out.
    Written,
    /// The last transmission failed.
    WriteFailed,
    /// A line arrived from the peer, given without its terminator.
    Received(String),
    /// The peer closed the connection, or reading from it failed.
    PeerGone,
    /// An interrupt signal arrived.
    Interrupted,
}

/// An `Event` as contracts see it.
pub enum EventView {
    Started,
    Typed(Seq<char>),
    InputEnded,
    Written,
    WriteFailed,
    Received(Seq<char>),
    PeerGone,
    Interrupted,
}

impl View for Event {
    type V = EventView;

    open spec fn view(&self) -> EventView {
        match self {
            Event::Started => EventView::Started,
            Event::Typed(line) => EventView::Typed(line@),
            Event::InputEnded => EventView::InputEnded,
            Event::Written => EventView::Written,
            Event::WriteFailed => EventView::WriteFailed,
            Event::Received(line) => EventView::Received(line@),
            Event::PeerGone => EventView::PeerGone,
            Event::Interrupted => EventView::Interrupted,
        }
    }
}

/// One thing for the surrounding program to do.
#[derive(Clone, Debug, PartialEq, Eq)]
pub enum Effect {
    /// Show the operator's prompt.
    Prompt,
    /// Write this text to the peer, as it stands.
    Transmit(String),
    /// Show this line from the peer.
    Render(String),
    /// Tell the operator.
    Announce(Notice),
    /// Close the connection in both directions.
    CloseTransport,
    /// End the whole process at once.
    ExitProcess,
    /// Leave the loop that reported the event.
    LeaveLoop,
}

/// An `Effect` as contracts see it.
pub enum EffectView {
    Prompt,
    Transmit(Seq<char>),
    Render(Seq<char>),
    Announce(Notice),
    CloseTransport,
    ExitProcess,
    LeaveLoop,
}

impl View for Effect {
    type V = EffectView;

    open spec fn view(&self) -> EffectView {
        match self {
            Effect::Prompt => EffectView::Prompt,
            Effect::Transmit(text) => EffectView::Transmit(text@),
            Effect::Render(line) => EffectView::Render(line@),
            Effect::Announce(notice) => EffectView::Announce(*notice),
            Effect::CloseTransport => EffectView::CloseTransport,
            Effect::ExitProcess => EffectView::ExitProcess,
            Effect::LeaveLoop => EffectView::LeaveLoop,
        }
    }
}

impl DeepView for Effect {
    type V = EffectView;

    open spec fn deep_view(&self) -> EffectView {
        self@
    }
}

/// What a running session does with the operator's text, taken without its
/// line terminator: nothing for an empty text, shutdown for the exit token,
/// and otherwise one transmission of the text as it stands and a line
/// terminator.
pub open spec fn text_outcome(text: Seq<char>) -> (Liveness, Seq<EffectView>) {
    if text.len() == 0 {
        (Liveness::Running, seq![EffectView::Prompt])
    } else if text == exit_token() {
        (Liveness::Stopped, seq![EffectView::CloseTransport, EffectView::LeaveLoop])
    } else {
        (Liveness::Running, seq![EffectView::Transmit(text.push(line_terminator()))])
    }
}

/// The answer of a running session to `event`.
pub open spec fn running_outcome(event: EventView) -> (Liveness, Seq<EffectView>) {
    match event {
        EventView::Started => (
            Liveness::Running,
            seq![EffectView::Announce(Notice::Connected), EffectView::Prompt],
        ),
        EventView::Typed(line) => text_outcome(without_terminator(line)),
        EventView::InputEnded => (
            Liveness::Stopped,
            seq![EffectView::CloseTransport, EffectView::LeaveLoop],
        ),
        EventView::Written => (Liveness::Running, seq![EffectView::Prompt]),
        EventView::WriteFailed => (
            Liveness::Stopped,
            seq![
                EffectView::Announce(Notice::SendFailed),
                EffectView::CloseTransport,
                EffectView::LeaveLoop,
            ],
        ),
        EventView::Received(line) => (
            Liveness::Running,
            seq![EffectView::Render(line), EffectView::Prompt],
        ),
        EventView::PeerGone => (
            Liveness::Stopped,
            seq![
                EffectView::Announce(Notice::Disconnected),
                EffectView::CloseTransport,
                EffectView::ExitProcess,
            ],
        ),
        EventView::Interrupted => (
            Liveness::Stopped,
            seq![EffectView::CloseTransport, EffectView::ExitProcess],
        ),
    }
}

/// The effects with which a stopped session answers `event`. The transport
/// is closed already: nothing is sent, shown or closed any more. An
/// interrupt, or the end of the peer's stream, still ends the process.
pub open spec fn stopped_effects(event: EventView) -> Seq<EffectView> {
    match event {
        EventView::Interrupted | EventView::PeerGone => seq![EffectView::ExitProcess],
        EventView::WriteFailed => seq![
            EffectView::Announce(Notice::SendFailed),
            EffectView::LeaveLoop,
        ],
        _ => seq![EffectView::LeaveLoop],
    }
}

/// The state after `event` and the effects it calls for, in the order in
/// which they are to be carried out.
pub open spec fn transition(state: Liveness, event: EventView) -> (Liveness, Seq<EffectView>) {
    match state {
        Liveness::Running => running_outcome(event),
        Liveness::Stopped => (Liveness::Stopped, stopped_effects(event)),
    }
}

/// How often `effects` closes the transport.
pub open spec fn closes(effects: Seq<EffectView>) -> nat
    decreases effects.len(),
{
    if effects.len() == 0 {
        0
    } else {
        closes(effects.drop_last()) + if effects.last() is CloseTransport {
            1nat
        } else {
            0nat
        }
    }
}

/// The texts that `effects` writes to the peer, in order.
pub open spec fn transmissions(effects: Seq<EffectView>) -> Seq<Seq<char>>
    decreases effects.len(),
{
    if effects.len() == 0 {
        Seq::empty()
    } else {
        match effects.last() {
            EffectView::Transmit(text) => transmissions(effects.drop_last()).push(text),
            _ => transmissions(effects.drop_last()),
        }
    }
}

impl Event {
    /// The event that one attempt to read a line from the operator amounts
    /// to. `read` is the number of bytes that came in, or `None` if reading
    /// failed; `line` holds what came in. No bytes means that the input is at
    /// its end.
    pub fn operator_read(read: Option<usize>, line: String) -> (event: Event)
        ensures
            event@ == match read {
                Some(n) if n > 0 => EventView::Typed(line@),
                _ => EventView::InputEnded,
            },
    {
        match read {
            Some(n) if n > 0 => Event::Typed(line),
            _ => Event::InputEnded,
        }
    }

    /// The event that one attempt to read a line from the peer amounts to.
    /// `line` is the line that came, or `None` if the stream is at its end or
    /// reading failed.
    pub fn peer_read(line: Option<String>) -> (event: Event)
        ensures
            event@ == match line {
                Some(text) => EventView::Received(text@),
                None => EventView::PeerGone,
            },
    {
        match line {
            Some(text) => Event::Received(text),
            None => Event::PeerGone,
        }
    }
}

impl Liveness {
    /// Whether the loops are to go on.
    pub fn is_running(&self) -> (running: bool)
        ensures
            running == (*self == Liveness::Running),
    {
        match self {
            Liveness::Running => true,
            Liveness::Stopped => false,
        }
    }
}

/// What a running session does with `text`, the operator's line without its
/// line terminator.
pub fn handle_text(text: &str) -> (out: (Liveness, Vec<Effect>))
    ensures
        (out.0, out.1.deep_view()) == text_outcome(text@),
{
    let mut effects: Vec<Effect> = Vec::new();
    let next = if text.is_empty() {
        effects.push(Effect::Prompt);
        Liveness::Running
    } else if is_exit_token(text) {
        effects.push(Effect::CloseTransport);
        effects.push(Effect::LeaveLoop);
        Liveness::Stopped
    } else {
        effects.push(Effect::Transmit(frame_line(text)));
        Liveness::Running
    };
    assert(effects.deep_view() =~= text_outcome(text@).1);
    (next, effects)
}

/// Reacts to `event`: returns the state after it and the effects to carry
/// out, in order.
pub fn step(state: Liveness, event: Event) -> (out: (Liveness, Vec<Effect>))
    ensures
        (out.0, out.1.deep_view()) == transition(state, event@),
{
    let mut effects: Vec<Effect> = Vec::new();
    let next = match state {
        Liveness::Stopped => {
            match event {
                Event::Interrupted | Event::PeerGone => {
                    effects.push(Effect::ExitProcess);
                },
                Event::WriteFailed => {
                    effects.push(Effect::Announce(Notice::SendFailed));
                    effects.push(Effect::LeaveLoop);
                },
                _ => {
                    effects.push(Effect::LeaveLoop);
                },
            }
            Liveness::Stopped
        },
        Liveness::Running => {
            match event {
                Event::Started => {
                    effects.push(Effect::Announce(Notice::Connected));
                    effects.push(Effect::Prompt);
                    Liveness::Running
                },
                Event::Typed(line) => {
                    return handle_text(strip_terminator(line.as_str()));
                },
                Event::InputEnded => {
                    effects.push(Effect::CloseTransport);
                    effects.push(Effect::LeaveLoop);
                    Liveness::Stopped
                },
                Event::Written => {
                    effects.push(Effect::Prompt);
                    Liveness::Running
                },
                Event::WriteFailed => {
                    effects.push(Effect::Announce(Notice::SendFailed));
                    effects.push(Effect::CloseTransport);
                    effects.push(Effect::LeaveLoop);
                    Liveness::Stopped
                },
                Event::Received(line) => {
                    effects.push(Effect::Render(line));
                    effects.push(Effect::Prompt);
                    Liveness::Running
                },
                Event::PeerGone => {
                    effects.push(Effect::Announce(Notice::Disconnected));
                    effects.push(Effect::CloseTransport);
                    effects.push(Effect::ExitProcess);
                    Liveness::Stopped
                },
                Event::Interrupted => {
                    effects.push(Effect::CloseTransport);
                    effects.push(Effect::ExitProcess);
                    Liveness::Stopped
                },
            }
        },
    };
    assert(effects.deep_view() =~= transition(state, event@).1);
    (next, effects)
}

/// A line that is neither empty nor the exit token is written to the peer
/// exactly once: the line as it was typed, white space and all, then a line
/// terminator. The session goes on.
pub proof fn lemma_line_is_sent_once(line: Seq<char>)
    requires
        without_terminator(line).len() > 0,
        without_terminator(line) != exit_token(),
    ensures
        transition(Liveness::Running, EventView::Typed(line)) == (
            Liveness::Running,
            seq![EffectView::Transmit(without_terminator(line).push(line_terminator()))],
        ),
        transmissions(transition(Liveness::Running, EventView::Typed(line)).1) == seq![
            without_terminator(line).push(line_terminator()),
        ],
{
    reveal_with_fuel(transmissions, 2);
    let text = without_terminator(line).push(line_terminator());
    assert(seq![EffectView::Transmit(text)].drop_last() =~= Seq::<EffectView>::empty());
    assert(transmissions(seq![EffectView::Transmit(text)]) =~= seq![text]);
}

/// The exit token is never sent to the peer. It stops the session at once:
/// the transport is closed and the input loop is left.
pub proof fn lemma_exit_token_is_not_sent(line: Seq<char>)
    requires
        without_terminator(line) == exit_token(),
    ensures
        transition(Liveness::Running, EventView::Typed(line)) == (
            Liveness::Stopped,
            seq![EffectView::CloseTransport, EffectView::LeaveLoop],
        ),
        transmissions(transition(Liveness::Running, EventView::Typed(line)).1).len() == 0,
{
    reveal_with_fuel(transmissions, 3);
}

/// An empty line, with or without its terminator, is not sent and does not
/// end the session: the operator is prompted again.
pub proof fn lemma_empty_line_is_ignored(line: Seq<char>)
    requires
        without_terminator(line).len() == 0,
    ensures
        transition(Liveness::Running, EventView::Typed(line)) == (
            Liveness::Running,
            seq![EffectView::Prompt],
        ),
        transmissions(transition(Liveness::Running, EventView::Typed(line)).1).len() == 0,
        closes(transition(Liveness::Running, EventView::Typed(line)).1) == 0,
{
    reveal_with_fuel(transmissions, 2);
    reveal_with_fuel(closes, 2);
}

/// When the peer is gone the whole process ends with the very event that
/// reports it, whatever the state. A session that was still running tells
/// the operator and closes the transport first.
pub proof fn lemma_peer_gone_ends_process(state: Liveness)
    ensures
        transition(state, EventView::PeerGone).0 == Liveness::Stopped,
        transition(state, EventView::PeerGone).1.last() == EffectView::ExitProcess,
        transition(Liveness::Running, EventView::PeerGone).1 == seq![
            EffectView::Announce(Notice::Disconnected),
            EffectView::CloseTransport,
            EffectView::ExitProcess,
        ],
{
}

} // verus!
