//! What holds of the supervisor's operations and of the output bridge,
//! whatever the session and the helper's output are.

use crate::bridge::{
    discovery,
    event_step,
    line_step,
    ActionView,
    BridgeView,
    Channel,
    HostEventView,
    ProcessEventView,
};
use crate::error::ErrorView;
use crate::pattern::extracted;
use crate::session::{idle_session, orderly, well_formed, with_url, SessionView};
use crate::supervisor::{
    after_kill,
    replace_step,
    restart_step,
    spawn_step,
    start_decision,
    start_step,
    stop_step,
    StartStepView,
    StopStepView,
};
use vstd::prelude::*;

verus! {

/// A start for the port of the owned process, whose address is cached, ends
/// at once with that address, asks for no process to be spawned and leaves
/// the session as it is. So does the same start when it is made again.
pub proof fn law_start_is_idempotent(session: SessionView, port: u16)
    requires
        session.process is Some,
        session.port == Some(port),
        session.url is Some,
    ensures
        start_step(session, port) == (session, StartStepView::Done(Ok(session.url->0))),
        start_step(start_step(session, port).0, port) == start_step(session, port),
{
}

/// A start for another port than the one that the owned process is bound to
/// asks first for that process to be terminated, and changes nothing yet.
/// Once the process is terminated the slot is empty, the new port is recorded
/// and a helper for it is to be spawned; the process that is spawned then
/// becomes the owned one. Where the old process could not be terminated, it
/// stays the owned one under its own port and the start is refused.
pub proof fn law_port_change_replaces_process(
    session: SessionView,
    pid: u32,
    port: u16,
    new_pid: u32,
)
    requires
        well_formed(session),
        session.process == Some(pid),
        session.port != Some(port),
    ensures
        start_step(session, port) == (session, StartStepView::Kill { pid, port }),
        replace_step(session, pid, port, true) == (
            SessionView { process: None, url: None, port: Some(port) },
            StartStepView::Spawn { port },
        ),
        spawn_step(replace_step(session, pid, port, true).0, port, Ok(new_pid)) == (
            SessionView { process: Some(new_pid), url: None, port: Some(port) },
            StartStepView::Await { pid: new_pid },
        ),
        replace_step(session, pid, port, false) == (
            session,
            StartStepView::Done(Err(ErrorView::AlreadyRunning)),
        ),
{
}

/// A stop with no process owned succeeds at once and asks for nothing.
pub proof fn law_stop_without_process_succeeds(session: SessionView)
    requires
        session.process is None,
    ensures
        stop_step(session) == StopStepView::Done(Ok(())),
{
}

/// A stop terminates the owned process; once that has succeeded nothing is
/// owned, cached or configured, and where it failed the session is as it
/// was.
pub proof fn law_stop_clears_or_keeps(session: SessionView, pid: u32)
    requires
        session.process == Some(pid),
    ensures
        stop_step(session) == (StopStepView::Kill { pid }),
        after_kill(session, pid, true) == idle_session(),
        after_kill(session, pid, false) == session,
{
}

/// A restart with no port configured fails with `NoPortConfigured`, asks for
/// no process to be spawned and leaves the session as it is.
pub proof fn law_restart_needs_port(session: SessionView)
    requires
        session.port is None,
    ensures
        restart_step(session) == (
            session,
            StartStepView::Done(Err(ErrorView::NoPortConfigured)),
        ),
{
}

/// A restart with a port configured is a stop followed by a start for that
/// port: the owned process is to be terminated and the start goes on from
/// what the session is then; with no process owned the start goes on at
/// once.
pub proof fn law_restart_is_stop_then_start(session: SessionView, port: u16, killed: bool)
    requires
        well_formed(session),
        session.port == Some(port),
    ensures
        session.process is None ==> restart_step(session) == start_step(session, port),
        session.process is Some ==> {
            let pid = session.process->0;
            &&& restart_step(session) == (session, StartStepView::Kill { pid, port })
            &&& replace_step(session, pid, port, killed) == start_step(
                after_kill(session, pid, killed),
                port,
            )
        },
{
}

/// Every step of every operation keeps the session in order: it stays well
/// formed, a process that is owned is never replaced by another without
/// having been released first, and the port is not changed under it.
pub proof fn law_steps_keep_order(
    session: SessionView,
    pid: u32,
    port: u16,
    killed: bool,
    spawned: Result<u32, ErrorView>,
    url: Seq<char>,
)
    requires
        well_formed(session),
    ensures
        orderly(session, start_step(session, port).0),
        orderly(session, start_decision(session, port).0),
        orderly(session, restart_step(session).0),
        orderly(session, after_kill(session, pid, killed)),
        orderly(session, replace_step(session, pid, port, killed).0),
        orderly(session, spawn_step(session, port, spawned).0),
        orderly(session, with_url(session, pid, url)),
{
}

/// One step of some operation on the session, with what the outside work
/// gave: steps of several operations may follow one another in any order.
pub enum Move {
    /// The first step of a start for `port`.
    Start { port: u16 },
    /// The first step of a restart.
    Restart,
    /// A stop is resumed after the attempt to terminate `pid`.
    Stopped { pid: u32, killed: bool },
    /// A start or restart is resumed after the attempt to terminate `pid`.
    Replaced { pid: u32, port: u16, killed: bool },
    /// A start or restart is resumed after the attempt to spawn a helper.
    Spawned { port: u16, spawned: Result<u32, ErrorView> },
    /// The bridge of `pid` has found the address `url`.
    Found { pid: u32, url: Seq<char> },
}

/// The session after one step.
pub open spec fn after_move(session: SessionView, step: Move) -> SessionView {
    match step {
        Move::Start { port } => start_step(session, port).0,
        Move::Restart => restart_step(session).0,
        Move::Stopped { pid, killed } => after_kill(session, pid, killed),
        Move::Replaced { pid, port, killed } => replace_step(session, pid, port, killed).0,
        Move::Spawned { port, spawned } => spawn_step(session, port, spawned).0,
        Move::Found { pid, url } => with_url(session, pid, url),
    }
}

/// The session after all of `steps`, in order.
pub open spec fn after_moves(session: SessionView, steps: Seq<Move>) -> SessionView
    decreases steps.len(),
{
    if steps.len() == 0 {
        session
    } else {
        after_move(after_moves(session, steps.drop_last()), steps.last())
    }
}

proof fn lemma_moves_keep_well_formed(session: SessionView, steps: Seq<Move>)
    requires
        well_formed(session),
    ensures
        well_formed(after_moves(session, steps)),
    decreases steps.len(),
{
    if steps.len() > 0 {
        lemma_moves_keep_well_formed(session, steps.drop_last());
    }
}

/// However the steps of starts, stops and restarts from several callers
/// follow one another, and whatever comes of the outside work, the session
/// stays in order at every step: at no point does a process take the slot
/// of another that was not released first.
pub proof fn law_interleaved_steps_keep_order(session: SessionView, steps: Seq<Move>, at: int)
    requires
        well_formed(session),
        0 <= at < steps.len(),
    ensures
        well_formed(after_moves(session, steps)),
        orderly(after_moves(session, steps.take(at)), after_moves(session, steps.take(at + 1))),
{
    lemma_moves_keep_well_formed(session, steps);
    lemma_moves_keep_well_formed(session, steps.take(at));
    assert(steps.take(at + 1).drop_last() =~= steps.take(at));
    assert(steps.take(at + 1).last() == steps[at]);
}

/// A process is to be spawned only while none is owned and after the port
/// that it targets has been recorded, and a process that was spawned is
/// stored only in an empty slot.
pub proof fn law_spawn_needs_empty_slot(
    session: SessionView,
    pid: u32,
    port: u16,
    killed: bool,
    new_pid: u32,
)
    ensures
        start_step(session, port).1 is Spawn ==> {
            &&& start_step(session, port).0.process is None
            &&& start_step(session, port).0.port == Some(port)
            &&& start_step(session, port).1 == StartStepView::Spawn { port }
        },
        restart_step(session).1 is Spawn ==> {
            &&& restart_step(session).0.process is None
            &&& restart_step(session).0.port == session.port
            &&& restart_step(session).1 == StartStepView::Spawn { port: session.port->0 }
        },
        replace_step(session, pid, port, killed).1 is Spawn ==> {
            &&& replace_step(session, pid, port, killed).0.process is None
            &&& replace_step(session, pid, port, killed).0.port == Some(port)
            &&& replace_step(session, pid, port, killed).1 == StartStepView::Spawn { port }
        },
        session.process is Some ==> spawn_step(session, port, Ok(new_pid)).0 == session,
{
}

/// The address of a process is cached once: a second address for the same
/// process changes nothing.
pub proof fn law_cache_is_written_once(
    session: SessionView,
    pid: u32,
    first: Seq<char>,
    second: Seq<char>,
)
    ensures
        with_url(with_url(session, pid, first), pid, second) == with_url(session, pid, first),
{
}

/// Of two lines that both announce an address, the first is published and
/// its address is cached, announced and delivered; the second is published
/// and nothing else is done with it.
pub proof fn law_first_match_wins(
    bridge: BridgeView,
    first_channel: Channel,
    first: Seq<char>,
    second_channel: Channel,
    second: Seq<char>,
)
    requires
        !bridge.matched,
        extracted(bridge.pattern, first) is Some,
        extracted(bridge.pattern, second) is Some,
    ensures
        ({
            let (after_first, first_actions) = line_step(bridge, first_channel, first);
            let (after_second, second_actions) = line_step(after_first, second_channel, second);
            &&& first_actions == discovery(
                first_channel,
                first,
                extracted(bridge.pattern, first)->0,
            )
            &&& second_actions == seq![
                ActionView::Publish(HostEventView::Line(second_channel, second)),
            ]
            &&& after_first.matched
            &&& after_second == after_first
        }),
{
}

/// Every line is published, first of all that is done with it, whether or
/// not an address was found before.
pub proof fn law_every_line_is_published(bridge: BridgeView, channel: Channel, line: Seq<char>)
    ensures
        line_step(bridge, channel, line).1.len() >= 1,
        line_step(bridge, channel, line).1[0] == ActionView::Publish(
            HostEventView::Line(channel, line),
        ),
{
}

/// The number of addresses that `actions` delivers to a waiting start.
pub open spec fn signals(actions: Seq<ActionView>) -> nat
    decreases actions.len(),
{
    if actions.len() == 0 {
        0
    } else {
        let rest = signals(actions.drop_last());
        if actions.last() is Signal {
            rest + 1
        } else {
            rest
        }
    }
}

/// The bridge after all of `events`, in order, and all that was to be done.
pub open spec fn run(bridge: BridgeView, events: Seq<ProcessEventView>) -> (
    BridgeView,
    Seq<ActionView>,
)
    decreases events.len(),
{
    if events.len() == 0 {
        (bridge, Seq::empty())
    } else {
        let (before_last, earlier) = run(bridge, events.drop_last());
        let (after, last) = event_step(before_last, events.last());
        (after, earlier + last)
    }
}

proof fn lemma_signals_add(left: Seq<ActionView>, right: Seq<ActionView>)
    ensures
        signals(left + right) == signals(left) + signals(right),
    decreases right.len(),
{
    if right.len() == 0 {
        assert(left + right =~= left);
    } else {
        lemma_signals_add(left, right.drop_last());
        assert((left + right).drop_last() =~= left + right.drop_last());
        assert((left + right).last() == right.last());
    }
}

proof fn lemma_signals_of_step(bridge: BridgeView, event: ProcessEventView)
    ensures
        signals(event_step(bridge, event).1) == (if !bridge.matched && event_step(
            bridge,
            event,
        ).0.matched {
            1nat
        } else {
            0nat
        }),
        bridge.matched ==> event_step(bridge, event).0.matched,
{
    let actions = event_step(bridge, event).1;
    reveal_with_fuel(signals, 5);
    if actions.len() == 4 {
        assert(actions.drop_last().len() == 3);
        assert(actions.drop_last().drop_last().len() == 2);
        assert(actions.drop_last().drop_last().drop_last().len() == 1);
        assert(actions.drop_last().drop_last().drop_last().drop_last().len() == 0);
    } else if actions.len() == 1 {
        assert(actions.drop_last().len() == 0);
    }
}

/// Over all the output of one helper process, an address is delivered to the
/// waiting start at most once: once if some line announced one, and never
/// again after that.
pub proof fn law_address_is_delivered_once(bridge: BridgeView, events: Seq<ProcessEventView>)
    ensures
        signals(run(bridge, events).1) == (if !bridge.matched && run(bridge, events).0.matched {
            1nat
        } else {
            0nat
        }),
        bridge.matched ==> run(bridge, events).0.matched,
    decreases events.len(),
{
    if events.len() > 0 {
        let (before_last, earlier) = run(bridge, events.drop_last());
        let (after, last) = event_step(before_last, events.last());
        law_address_is_delivered_once(bridge, events.drop_last());
        lemma_signals_of_step(before_last, events.last());
        lemma_signals_add(earlier, last);
    }
}

} // verus!
