//! Whole sessions: what holds of the effects of any sequence of events.

use crate::line::{exit_token, line_terminator, without_terminator};
use crate::session::{closes, transition, transmissions, EffectView, EventView, Liveness};
use vstd::prelude::*;

verus! {

/// The state that `events`, taken in order from `state`, lead to, and all
/// the effects they call for.
pub open spec fn run(state: Liveness, events: Seq<EventView>) -> (Liveness, Seq<EffectView>)
    decreases events.len(),
{
    if events.len() == 0 {
        (state, Seq::empty())
    } else {
        let (next, first) = transition(state, events.first());
        let (last, rest) = run(next, events.drop_first());
        (last, first + rest)
    }
}

/// Counting closes over two stretches of effects is counting each and
/// adding up.
pub proof fn lemma_closes_add(a: Seq<EffectView>, b: Seq<EffectView>)
    ensures
        closes(a + b) == closes(a) + closes(b),
    decreases b.len(),
{
    if b.len() == 0 {
        assert(a + b =~= a);
    } else {
        lemma_closes_add(a, b.drop_last());
        assert((a + b).drop_last() =~= a + b.drop_last());
    }
}

/// The transmissions of two stretches of effects are those of the first,
/// then those of the second.
pub proof fn lemma_transmissions_add(a: Seq<EffectView>, b: Seq<EffectView>)
    ensures
        transmissions(a + b) == transmissions(a) + transmissions(b),
    decreases b.len(),
{
    if b.len() == 0 {
        assert(a + b =~= a);
        assert(transmissions(a) + transmissions(b) =~= transmissions(a));
    } else {
        lemma_transmissions_add(a, b.drop_last());
        assert((a + b).drop_last() =~= a + b.drop_last());
        assert(transmissions(a + b) =~= transmissions(a) + transmissions(b));
    }
}

/// One event closes the transport exactly when it stops a running session,
/// and sends something only if the session was running.
pub proof fn lemma_step_closes(state: Liveness, event: EventView)
    ensures
        closes(transition(state, event).1) == if state == Liveness::Running && transition(
            state,
            event,
        ).0 == Liveness::Stopped {
            1nat
        } else {
            0nat
        },
        state == Liveness::Stopped ==> transition(state, event).0 == Liveness::Stopped,
        state == Liveness::Stopped ==> transmissions(transition(state, event).1).len() == 0,
{
    reveal_with_fuel(closes, 4);
    reveal_with_fuel(transmissions, 4);
}

/// A stopped session stays stopped whatever happens, and neither closes the
/// transport again nor sends anything.
pub proof fn lemma_stopped_is_final(events: Seq<EventView>)
    ensures
        run(Liveness::Stopped, events).0 == Liveness::Stopped,
        closes(run(Liveness::Stopped, events).1) == 0,
        transmissions(run(Liveness::Stopped, events).1).len() == 0,
    decreases events.len(),
{
    if events.len() > 0 {
        let first = transition(Liveness::Stopped, events.first()).1;
        let rest = run(Liveness::Stopped, events.drop_first()).1;
        lemma_step_closes(Liveness::Stopped, events.first());
        lemma_stopped_is_final(events.drop_first());
        lemma_closes_add(first, rest);
        lemma_transmissions_add(first, rest);
    }
}

/// Over a whole session the transport is closed at most once: not at all
/// while the session runs, and exactly once by the time it has stopped.
pub proof fn lemma_closed_exactly_once(events: Seq<EventView>)
    ensures
        closes(run(Liveness::Running, events).1) == if run(Liveness::Running, events).0
            == Liveness::Stopped {
            1nat
        } else {
            0nat
        },
    decreases events.len(),
{
    if events.len() > 0 {
        let (next, first) = transition(Liveness::Running, events.first());
        let rest = run(next, events.drop_first()).1;
        lemma_step_closes(Liveness::Running, events.first());
        lemma_closes_add(first, rest);
        match next {
            Liveness::Running => lemma_closed_exactly_once(events.drop_first()),
            Liveness::Stopped => lemma_stopped_is_final(events.drop_first()),
        }
    }
}

/// Running `before` and then `after` is running them one after the other.
pub proof fn lemma_run_add(state: Liveness, before: Seq<EventView>, after: Seq<EventView>)
    ensures
        run(state, before + after) == {
            let (middle, first) = run(state, before);
            let (last, rest) = run(middle, after);
            (last, first + rest)
        },
    decreases before.len(),
{
    let (middle, first) = run(state, before);
    let (last, rest) = run(middle, after);
    if before.len() == 0 {
        assert(before + after =~= after);
        assert(first + rest =~= rest);
    } else {
        let (next, head) = transition(state, before.first());
        lemma_run_add(next, before.drop_first(), after);
        assert((before + after).drop_first() =~= before.drop_first() + after);
        assert((before + after).first() == before.first());
        let tail = run(next, before.drop_first()).1;
        assert(head + (tail + rest) =~= (head + tail) + rest);
    }
}

/// An interrupt, whenever it comes, stops the session and ends the process,
/// and from then on the transport has been closed exactly once: by the
/// interrupt if the session was still running, and by whatever stopped it
/// before if not. Further interrupts, like any other event, close nothing.
pub proof fn lemma_interrupt_ends_session(before: Seq<EventView>, after: Seq<EventView>)
    ensures
        forall|state: Liveness|
            (#[trigger] transition(state, EventView::Interrupted)).0 == Liveness::Stopped
                && transition(state, EventView::Interrupted).1.last() == EffectView::ExitProcess,
        run(Liveness::Running, before.push(EventView::Interrupted) + after).0 == Liveness::Stopped,
        closes(run(Liveness::Running, before.push(EventView::Interrupted) + after).1) == 1,
{
    let until = before.push(EventView::Interrupted);
    assert(until =~= before + seq![EventView::Interrupted]);
    let middle = run(Liveness::Running, before).0;
    lemma_run_add(Liveness::Running, before, seq![EventView::Interrupted]);
    assert(run(middle, seq![EventView::Interrupted]).0 == Liveness::Stopped) by {
        reveal_with_fuel(run, 2);
    }
    lemma_run_add(Liveness::Running, until, after);
    lemma_stopped_is_final(after);
    lemma_closed_exactly_once(until + after);
}

/// The events of a session in which the operator enters `lines`, one after
/// the other, and every write succeeds: each line is typed, and each one
/// that is not empty is then reported as written.
pub open spec fn typed_session(lines: Seq<Seq<char>>) -> Seq<EventView>
    decreases lines.len(),
{
    if lines.len() == 0 {
        Seq::empty()
    } else {
        let typed = if without_terminator(lines.first()).len() == 0 {
            seq![EventView::Typed(lines.first())]
        } else {
            seq![EventView::Typed(lines.first()), EventView::Written]
        };
        typed + typed_session(lines.drop_first())
    }
}

/// What the peer is to get for `lines`: each line that is not empty, as it
/// was typed and with one line terminator, in the order of typing.
pub open spec fn expected_wire(lines: Seq<Seq<char>>) -> Seq<Seq<char>>
    decreases lines.len(),
{
    if lines.len() == 0 {
        Seq::empty()
    } else {
        let text = without_terminator(lines.first());
        let sent = if text.len() == 0 {
            Seq::empty()
        } else {
            seq![text.push(line_terminator())]
        };
        sent + expected_wire(lines.drop_first())
    }
}

/// As long as the operator does not type the exit token and nothing fails,
/// the session goes on, and what is written to the peer is exactly the lines
/// typed: each one that is not empty once, unchanged, with its terminator,
/// in order, and nothing else.
pub proof fn lemma_session_wire(lines: Seq<Seq<char>>)
    requires
        forall|i: int|
            0 <= i < lines.len() ==> without_terminator(#[trigger] lines[i]) != exit_token(),
    ensures
        run(Liveness::Running, typed_session(lines)).0 == Liveness::Running,
        transmissions(run(Liveness::Running, typed_session(lines)).1) == expected_wire(lines),
        closes(run(Liveness::Running, typed_session(lines)).1) == 0,
    decreases lines.len(),
{
    if lines.len() == 0 {
        assert(transmissions(Seq::<EffectView>::empty()) =~= expected_wire(lines));
    } else {
        let line = lines.first();
        let text = without_terminator(line);
        let others = lines.drop_first();
        assert(text != exit_token()) by {
            assert(lines[0] == line);
        }
        assert forall|i: int| 0 <= i < others.len() implies without_terminator(
            #[trigger] others[i],
        ) != exit_token() by {
            assert(others[i] == lines[i + 1]);
        }
        lemma_session_wire(others);
        let typed = if text.len() == 0 {
            seq![EventView::Typed(line)]
        } else {
            seq![EventView::Typed(line), EventView::Written]
        };
        let sent = if text.len() == 0 {
            Seq::<Seq<char>>::empty()
        } else {
            seq![text.push(line_terminator())]
        };
        let first = run(Liveness::Running, typed);
        assert(first.0 == Liveness::Running && transmissions(first.1) == sent) by {
            lemma_typed_line(line);
        }
        lemma_run_add(Liveness::Running, typed, typed_session(others));
        lemma_transmissions_add(first.1, run(Liveness::Running, typed_session(others)).1);
        lemma_closed_exactly_once(typed_session(lines));
    }
}

/// One line that is not the exit token, typed into a running session and
/// written where there is something to write, leaves the session running
/// with that one transmission, or with none if the line is empty.
proof fn lemma_typed_line(line: Seq<char>)
    requires
        without_terminator(line) != exit_token(),
    ensures
        without_terminator(line).len() == 0 ==> {
            let out = run(Liveness::Running, seq![EventView::Typed(line)]);
            out.0 == Liveness::Running && transmissions(out.1) == Seq::<Seq<char>>::empty()
        },
        without_terminator(line).len() > 0 ==> {
            let out = run(Liveness::Running, seq![EventView::Typed(line), EventView::Written]);
            out.0 == Liveness::Running && transmissions(out.1) == seq![
                without_terminator(line).push(line_terminator()),
            ]
        },
{
    let text = without_terminator(line);
    if text.len() == 0 {
        let events = seq![EventView::Typed(line)];
        assert(events.drop_first() =~= Seq::<EventView>::empty());
        reveal_with_fuel(run, 2);
        let effects = run(Liveness::Running, events).1;
        assert(effects =~= seq![EffectView::Prompt]);
        reveal_with_fuel(transmissions, 2);
        assert(transmissions(effects) =~= Seq::<Seq<char>>::empty());
    } else {
        let events = seq![EventView::Typed(line), EventView::Written];
        assert(events.drop_first() =~= seq![EventView::Written]);
        assert(events.drop_first().drop_first() =~= Seq::<EventView>::empty());
        reveal_with_fuel(run, 3);
        let effects = run(Liveness::Running, events).1;
        let wire = EffectView::Transmit(text.push(line_terminator()));
        assert(effects =~= seq![wire, EffectView::Prompt]);
        assert(effects.drop_last() =~= seq![wire]);
        assert(effects.drop_last().drop_last() =~= Seq::<EffectView>::empty());
        reveal_with_fuel(transmissions, 3);
        assert(transmissions(effects) =~= seq![text.push(line_terminator())]);
    }
}

/// A session in which the operator types `lines` and then the exit token,
/// with no failure and no interrupt: the peer gets exactly the lines typed
/// before the token, the token itself is never written, and the session ends
/// stopped with the transport closed once.
pub proof fn lemma_session_until_exit(lines: Seq<Seq<char>>, last: Seq<char>)
    requires
        forall|i: int|
            0 <= i < lines.len() ==> without_terminator(#[trigger] lines[i]) != exit_token(),
        without_terminator(last) == exit_token(),
    ensures
        run(Liveness::Running, typed_session(lines).push(EventView::Typed(last))).0
            == Liveness::Stopped,
        transmissions(
            run(Liveness::Running, typed_session(lines).push(EventView::Typed(last))).1,
        ) == expected_wire(lines),
        closes(run(Liveness::Running, typed_session(lines).push(EventView::Typed(last))).1) == 1,
{
    let before = typed_session(lines);
    let exit = seq![EventView::Typed(last)];
    assert(before.push(EventView::Typed(last)) =~= before + exit);
    lemma_session_wire(lines);
    lemma_run_add(Liveness::Running, before, exit);
    let end = run(Liveness::Running, exit);
    assert(exit.drop_first() =~= Seq::<EventView>::empty());
    reveal_with_fuel(run, 2);
    assert(end.1 =~= seq![EffectView::CloseTransport, EffectView::LeaveLoop]);
    assert(end.0 == Liveness::Stopped);
    reveal_with_fuel(transmissions, 3);
    assert(transmissions(end.1) =~= Seq::<Seq<char>>::empty());
    lemma_transmissions_add(run(Liveness::Running, before).1, end.1);
    assert(expected_wire(lines) + Seq::<Seq<char>>::empty() =~= expected_wire(lines));
    lemma_closed_exactly_once(before + exit);
}

} // verus!
