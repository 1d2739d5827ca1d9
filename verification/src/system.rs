//! The orchestrator together with the tasks it has handed out, and what can
//! be said of every way their steps interleave.
//!
//! A `Handle` move stands for one call of `Capturer::handle`, its `delivered`
//! for the channel's answer to the announcement. A `Finish` move stands for
//! the last step of `DownloadTask::run`. The log holds, in order, the notices
//! that the contracts of those two functions say are handed to
//! `EventSender::send`: `started_notice` of the item for an accepted
//! download, `finished_notice` of the task for a task that is over. Each of
//! the two contracts states that its call `realises` its move.

use vstd::prelude::*;
use vstd::multiset::Multiset;
use crate::channel::{handed_over, EventSender};
use crate::item::CaptureItemView;
use crate::model::{
    effects, finished_notice, started_notice, step, task_for, Effect, MachineView, StateView,
    TaskView,
};
use crate::task::DownloadOutcome;
use crate::protocol::{CommandView, EventView, PlaybackConfig};

verus! {

/// The orchestrator, the events put on its channel so far, oldest first, and
/// the items of the tasks that were handed out and have not reported yet.
pub struct SystemView {
    pub machine: MachineView,
    pub log: Seq<EventView>,
    pub in_flight: Multiset<CaptureItemView>,
}

/// One step of the system.
pub enum Move {
    /// The control thread handles `event`; `delivered` is the channel's
    /// answer, should the event lead to an announcement.
    Handle { event: EventView, delivered: bool },
    /// `task` reports as over, having ended with `outcome`.
    Finish { task: TaskView, outcome: DownloadOutcome },
}

/// The events among `fx`, in order.
pub open spec fn notices(fx: Seq<Effect>) -> Seq<EventView>
    decreases fx.len(),
{
    if fx.len() == 0 {
        Seq::empty()
    } else {
        match fx.last() {
            Effect::Announce(event) => notices(fx.drop_last()).push(event),
            Effect::Spawn(_) => notices(fx.drop_last()),
        }
    }
}

/// The items of the tasks among `fx`.
pub open spec fn launches(fx: Seq<Effect>) -> Multiset<CaptureItemView>
    decreases fx.len(),
{
    if fx.len() == 0 {
        Multiset::empty()
    } else {
        match fx.last() {
            Effect::Announce(_) => launches(fx.drop_last()),
            Effect::Spawn(task) => launches(fx.drop_last()).insert(task.item),
        }
    }
}

/// A system in which nothing has happened yet.
pub open spec fn fresh(machine: MachineView) -> SystemView {
    SystemView { machine, log: Seq::empty(), in_flight: Multiset::empty() }
}

/// Whether `mv` can happen in `sys`: the control thread can always handle an
/// event; only a task that is in flight can report.
pub open spec fn can_move(sys: SystemView, mv: Move) -> bool {
    match mv {
        Move::Handle { .. } => true,
        Move::Finish { task, .. } => sys.in_flight.count(task.item) > 0,
    }
}

/// The system after `mv`.
pub open spec fn advance(sys: SystemView, mv: Move) -> SystemView {
    match mv {
        Move::Handle { event, delivered } => {
            let fx = effects(sys.machine, event, delivered);
            SystemView {
                machine: step(sys.machine, event, delivered),
                log: sys.log + notices(fx),
                in_flight: sys.in_flight.add(launches(fx)),
            }
        },
        Move::Finish { task, .. } => SystemView {
            machine: sys.machine,
            log: sys.log.push(finished_notice(task)),
            in_flight: sys.in_flight.remove(task.item),
        },
    }
}

/// Whether a call realises `mv` on the channel behind `sender`: every notice
/// that the move adds to the log of `sys` was handed to `sender`, and the
/// channel took it.
pub open spec fn realises(sender: EventSender, sys: SystemView, mv: Move) -> bool {
    forall|i: int|
        sys.log.len() <= i < advance(sys, mv).log.len() ==> handed_over(
            sender,
            #[trigger] advance(sys, mv).log[i],
            true,
        )
}

/// The system after `moves`, taken in order.
pub open spec fn after(sys: SystemView, moves: Seq<Move>) -> SystemView
    decreases moves.len(),
{
    if moves.len() == 0 {
        sys
    } else {
        advance(after(sys, moves.drop_last()), moves.last())
    }
}

/// Whether each of `moves` can happen when its turn comes.
pub open spec fn admissible(sys: SystemView, moves: Seq<Move>) -> bool
    decreases moves.len(),
{
    moves.len() == 0 || (admissible(sys, moves.drop_last()) && can_move(
        after(sys, moves.drop_last()),
        moves.last(),
    ))
}

/// How often `event` occurs in `log`.
pub open spec fn occurrences(log: Seq<EventView>, event: EventView) -> nat
    decreases log.len(),
{
    if log.len() == 0 {
        0
    } else {
        occurrences(log.drop_last(), event) + if log.last() == event {
            1nat
        } else {
            0nat
        }
    }
}

/// How often `moves` has the control thread handle a `Download` of `item`.
pub open spec fn requests(moves: Seq<Move>, item: CaptureItemView) -> nat
    decreases moves.len(),
{
    if moves.len() == 0 {
        0
    } else {
        requests(moves.drop_last(), item) + if moves.last() matches Move::Handle { event, .. }
            && event == EventView::Command(CommandView::Download { item }) {
            1nat
        } else {
            0nat
        }
    }
}

/// Whether the channel takes every announcement tried in `moves`.
pub open spec fn channel_holds(moves: Seq<Move>) -> bool {
    forall|i: int|
        0 <= i < moves.len() ==> (#[trigger] moves[i] matches Move::Handle { delivered, .. }
            ==> delivered)
}

/// Announcements of `item` that no completion notice and no task in flight
/// accounts for.
pub open spec fn unaccounted(sys: SystemView, item: CaptureItemView) -> int {
    occurrences(sys.log, EventView::Downloading { item }) - occurrences(
        sys.log,
        EventView::Downloaded { item },
    ) - sys.in_flight.count(item)
}

proof fn lemma_occurrences_push(log: Seq<EventView>, last: EventView, event: EventView)
    ensures
        occurrences(log.push(last), event) == occurrences(log, event) + if last == event {
            1nat
        } else {
            0nat
        },
{
    assert(log.push(last).drop_last() =~= log);
}

proof fn lemma_accepted_effects(machine: MachineView, item: CaptureItemView)
    ensures
        notices(
            seq![Effect::Announce(started_notice(item)), Effect::Spawn(task_for(machine, item))],
        ) == seq![started_notice(item)],
        launches(
            seq![Effect::Announce(started_notice(item)), Effect::Spawn(task_for(machine, item))],
        ) == Multiset::<CaptureItemView>::empty().insert(item),
{
    reveal_with_fuel(notices, 3);
    reveal_with_fuel(launches, 3);
}

/// What handling an event adds to the system: an accepted download adds its
/// announcement to the log and its item to those in flight; nothing else adds
/// anything. The log thus gains exactly the notice that `Capturer::handle`
/// hands to the channel, and gains it exactly when the channel took it.
pub proof fn lemma_handle_adds(sys: SystemView, event: EventView, delivered: bool)
    ensures
        ({
            let next = advance(sys, Move::Handle { event, delivered });
            match event {
                EventView::Command(CommandView::Download { item }) if !(sys.machine.state
                    is Invalid) && delivered => {
                    &&& next.log == sys.log.push(started_notice(item))
                    &&& next.in_flight == sys.in_flight.insert(item)
                },
                _ => next.log == sys.log && next.in_flight == sys.in_flight,
            }
        }),
{
    if let EventView::Command(CommandView::Download { item }) = event {
        lemma_accepted_effects(sys.machine, item);
    }
}

/// No step of the system changes the account of an item: an accepted download
/// adds one announcement and one task in flight, a report takes one task out
/// of flight and adds one completion notice.
pub proof fn lemma_move_keeps_account(sys: SystemView, mv: Move, item: CaptureItemView)
    requires
        can_move(sys, mv),
    ensures
        unaccounted(advance(sys, mv), item) == unaccounted(sys, item),
{
    let announced = EventView::Downloading { item };
    let reported = EventView::Downloaded { item };
    match mv {
        Move::Handle { event, delivered } => {
            lemma_handle_adds(sys, event, delivered);
            match event {
                EventView::Command(CommandView::Download { item: wanted }) => {
                    if !(sys.machine.state is Invalid) && delivered {
                        lemma_occurrences_push(sys.log, started_notice(wanted), announced);
                        lemma_occurrences_push(sys.log, started_notice(wanted), reported);
                    }
                },
                _ => {},
            }
        },
        Move::Finish { task, .. } => {
            lemma_occurrences_push(sys.log, finished_notice(task), announced);
            lemma_occurrences_push(sys.log, finished_notice(task), reported);
        },
    }
}

/// Whatever the interleaving, every announcement of an item is matched by
/// exactly one task in flight or exactly one completion notice: the number of
/// `Downloading` events for the item equals the number of its `Downloaded`
/// events plus the number of its tasks still running.
pub proof fn law_announcements_are_accounted_for(
    machine: MachineView,
    moves: Seq<Move>,
    item: CaptureItemView,
)
    requires
        admissible(fresh(machine), moves),
    ensures
        occurrences(after(fresh(machine), moves).log, EventView::Downloading { item })
            == occurrences(after(fresh(machine), moves).log, EventView::Downloaded { item })
            + after(fresh(machine), moves).in_flight.count(item),
    decreases moves.len(),
{
    if moves.len() > 0 {
        law_announcements_are_accounted_for(machine, moves.drop_last(), item);
        lemma_move_keeps_account(after(fresh(machine), moves.drop_last()), moves.last(), item);
    }
}

/// While the channel holds, an orchestrator that has not failed does not fail,
/// and each `Download` command it handles puts exactly one `Downloading` event
/// for its item on the channel.
pub proof fn law_each_request_is_announced_once(
    machine: MachineView,
    moves: Seq<Move>,
    item: CaptureItemView,
)
    requires
        !(machine.state is Invalid),
        channel_holds(moves),
    ensures
        !(after(fresh(machine), moves).machine.state is Invalid),
        occurrences(after(fresh(machine), moves).log, EventView::Downloading { item })
            == requests(moves, item),
    decreases moves.len(),
{
    if moves.len() > 0 {
        let earlier = moves.drop_last();
        law_each_request_is_announced_once(machine, earlier, item);
        let before = after(fresh(machine), earlier);
        let announced = EventView::Downloading { item };
        match moves.last() {
            Move::Handle { event, delivered } => {
                lemma_handle_adds(before, event, delivered);
                match event {
                    EventView::Command(CommandView::Download { item: wanted }) => {
                        lemma_occurrences_push(before.log, started_notice(wanted), announced);
                    },
                    _ => {},
                }
            },
            Move::Finish { task, .. } => {
                lemma_occurrences_push(before.log, finished_notice(task), announced);
            },
        }
    }
}

/// The last move adds at most one event to the log and takes none away.
proof fn lemma_log_grows(sys: SystemView, moves: Seq<Move>)
    requires
        moves.len() > 0,
    ensures
        after(sys, moves.drop_last()).log.len() <= after(sys, moves).log.len() <= after(
            sys,
            moves.drop_last(),
        ).log.len() + 1,
        after(sys, moves).log.take(after(sys, moves.drop_last()).log.len() as int) == after(
            sys,
            moves.drop_last(),
        ).log,
{
    if let Move::Handle { event, delivered } = moves.last() {
        lemma_handle_adds(after(sys, moves.drop_last()), event, delivered);
    }
}

/// The log only grows: what was on the channel after the first `done` moves
/// is still there, in the same places, after all of them.
pub proof fn law_log_only_grows(sys: SystemView, moves: Seq<Move>, done: int)
    requires
        0 <= done <= moves.len(),
    ensures
        after(sys, moves.take(done)).log.len() <= after(sys, moves).log.len(),
        after(sys, moves).log.take(after(sys, moves.take(done)).log.len() as int) == after(
            sys,
            moves.take(done),
        ).log,
    decreases moves.len(),
{
    let log = after(sys, moves).log;
    if done == moves.len() {
        assert(moves.take(done) =~= moves);
    } else {
        let earlier = after(sys, moves.drop_last()).log;
        let first = after(sys, moves.take(done)).log;
        assert(moves.drop_last().take(done) =~= moves.take(done));
        law_log_only_grows(sys, moves.drop_last(), done);
        lemma_log_grows(sys, moves);
        assert(log.take(first.len() as int) =~= log.take(earlier.len() as int).take(
            first.len() as int,
        ));
    }
}

/// Where every move is realised by a call, the log holds nothing but notices
/// that were handed to the channel and taken by it.
pub proof fn law_log_holds_what_the_channel_took(
    sender: EventSender,
    sys: SystemView,
    moves: Seq<Move>,
)
    requires
        forall|i: int| 0 <= i < sys.log.len() ==> handed_over(sender, #[trigger] sys.log[i], true),
        forall|k: int|
            0 <= k < moves.len() ==> realises(sender, after(sys, moves.take(k)), #[trigger] moves[k]),
    ensures
        forall|i: int|
            0 <= i < after(sys, moves).log.len() ==> handed_over(
                sender,
                #[trigger] after(sys, moves).log[i],
                true,
            ),
    decreases moves.len(),
{
    if moves.len() > 0 {
        let earlier = moves.drop_last();
        let before = after(sys, earlier);
        let log = after(sys, moves).log;
        assert forall|k: int| 0 <= k < earlier.len() implies realises(
            sender,
            after(sys, earlier.take(k)),
            #[trigger] earlier[k],
        ) by {
            assert(earlier.take(k) =~= moves.take(k));
        }
        law_log_holds_what_the_channel_took(sender, sys, earlier);
        lemma_log_grows(sys, moves);
        assert forall|i: int| 0 <= i < log.len() implies handed_over(sender, #[trigger] log[i], true) by {
            if i < before.log.len() {
                // The entry was there before the last move.
                assert(log[i] == log.take(before.log.len() as int)[i]);
            } else {
                // The entry is the one the last move added.
                assert(realises(sender, before, moves.last()));
            }
        }
    }
}

/// At no moment has the channel seen more completion notices for an item than
/// announcements of it: in every prefix of the log, the `Downloaded` events
/// for the item are at most as many as its `Downloading` events.
pub proof fn law_no_report_before_its_announcement(
    machine: MachineView,
    moves: Seq<Move>,
    item: CaptureItemView,
    seen: int,
)
    requires
        admissible(fresh(machine), moves),
        0 <= seen <= after(fresh(machine), moves).log.len(),
    ensures
        occurrences(after(fresh(machine), moves).log.take(seen), EventView::Downloaded { item })
            <= occurrences(
            after(fresh(machine), moves).log.take(seen),
            EventView::Downloading { item },
        ),
    decreases moves.len(),
{
    if moves.len() > 0 {
        let log = after(fresh(machine), moves).log;
        let earlier = after(fresh(machine), moves.drop_last()).log;
        lemma_log_grows(fresh(machine), moves);
        if seen <= earlier.len() {
            // What had been seen by then was already there before the last move.
            assert(log.take(seen) =~= earlier.take(seen));
            law_no_report_before_its_announcement(machine, moves.drop_last(), item, seen);
        } else {
            // The last move added the one event that completes the log.
            assert(log.take(seen) =~= log);
            law_announcements_are_accounted_for(machine, moves, item);
        }
    }
}

/// Once no task for an item is in flight, the channel has seen exactly one
/// completion notice for each `Download` command of the item, provided the
/// channel held and the orchestrator had not failed at the outset.
pub proof fn law_each_request_is_reported_once(
    machine: MachineView,
    moves: Seq<Move>,
    item: CaptureItemView,
)
    requires
        !(machine.state is Invalid),
        channel_holds(moves),
        admissible(fresh(machine), moves),
        after(fresh(machine), moves).in_flight.count(item) == 0,
    ensures
        occurrences(after(fresh(machine), moves).log, EventView::Downloaded { item }) == requests(
            moves,
            item,
        ),
{
    law_announcements_are_accounted_for(machine, moves, item);
    law_each_request_is_announced_once(machine, moves, item);
}

/// A second download does not wait for the first. When two `Download`
/// commands are handled back to back, both are accepted, and the first two
/// events on the channel are their announcements, in the order of the
/// commands: whatever happens afterwards, and however long the tasks take, no
/// completion notice comes before either announcement.
pub proof fn law_downloads_do_not_wait(
    machine: MachineView,
    first: CaptureItemView,
    second: CaptureItemView,
    moves: Seq<Move>,
)
    requires
        !(machine.state is Invalid),
        moves.len() >= 2,
        moves[0] == (Move::Handle {
            event: EventView::Command(CommandView::Download { item: first }),
            delivered: true,
        }),
        moves[1] == (Move::Handle {
            event: EventView::Command(CommandView::Download { item: second }),
            delivered: true,
        }),
    ensures
        after(fresh(machine), moves).log.len() >= 2,
        after(fresh(machine), moves).log.take(2) == seq![
            EventView::Downloading { item: first },
            EventView::Downloading { item: second },
        ],
        after(fresh(machine), moves.take(2)).in_flight == Multiset::<CaptureItemView>::empty().insert(
            first,
        ).insert(second),
        after(fresh(machine), moves.take(2)).machine.state == (StateView::Downloading {
            item: second,
        }),
{
    let start = fresh(machine);
    let middle = advance(start, moves[0]);
    reveal_with_fuel(after, 3);
    lemma_handle_adds(start, EventView::Command(CommandView::Download { item: first }), true);
    lemma_handle_adds(middle, EventView::Command(CommandView::Download { item: second }), true);
    assert(after(start, moves.take(2)).log =~= seq![
        EventView::Downloading { item: first },
        EventView::Downloading { item: second },
    ]);
    law_log_only_grows(start, moves, 2);
}

/// A task reports the same way however it ended: a failed resolution puts the
/// same completion notice on the channel as a stored stream, and takes the
/// task out of flight all the same.
pub proof fn law_failure_is_reported_like_success(
    sys: SystemView,
    task: TaskView,
    outcome: DownloadOutcome,
)
    ensures
        advance(sys, Move::Finish { task, outcome }).log == sys.log.push(
            EventView::Downloaded { item: task.item },
        ),
        advance(sys, Move::Finish { task, outcome }) == advance(
            sys,
            Move::Finish { task, outcome: DownloadOutcome::Stored },
        ),
{
}

/// The configuration in force after `moves`: that of the last `Configure`
/// command handled, or `initial` if there was none.
pub open spec fn configured(initial: PlaybackConfig, moves: Seq<Move>) -> PlaybackConfig
    decreases moves.len(),
{
    if moves.len() == 0 {
        initial
    } else {
        match moves.last() {
            Move::Handle { event: EventView::Command(CommandView::Configure { config }), .. } => config,
            _ => configured(initial, moves.drop_last()),
        }
    }
}

/// Only a `Configure` command changes the configuration, and the last one
/// handled decides it, whatever else happened before or since.
pub proof fn law_last_configure_wins(sys: SystemView, moves: Seq<Move>)
    ensures
        after(sys, moves).machine.config == configured(sys.machine.config, moves),
    decreases moves.len(),
{
    if moves.len() > 0 {
        law_last_configure_wins(sys, moves.drop_last());
    }
}

/// Handling the same `Configure` command any number of times, with nothing
/// but `Configure` commands handled, leaves the orchestrator as handling it
/// once does: the configuration is the one given, and the tracked state, the
/// channel and the tasks in flight are untouched.
pub proof fn law_configure_is_idempotent(sys: SystemView, config: PlaybackConfig, moves: Seq<Move>)
    requires
        moves.len() > 0,
        forall|i: int|
            0 <= i < moves.len() ==> #[trigger] moves[i] matches Move::Handle {
                event: EventView::Command(CommandView::Configure { .. }),
                ..
            },
        moves.last() matches Move::Handle {
            event: EventView::Command(CommandView::Configure { config: last }),
            ..
        } && last == config,
    ensures
        after(sys, moves) == (SystemView {
            machine: MachineView { state: sys.machine.state, config },
            log: sys.log,
            in_flight: sys.in_flight,
        }),
    decreases moves.len(),
{
    let earlier = moves.drop_last();
    if earlier.len() > 0 {
        let previous = earlier.last()->Handle_event->Command_0->Configure_config;
        law_configure_is_idempotent(sys, previous, earlier);
    }
    if let Move::Handle { event, delivered } = moves.last() {
        lemma_handle_adds(after(sys, earlier), event, delivered);
    }
}

/// A download runs with the configuration in force when it is accepted: after
/// a `Configure` command, the task of the next download carries the new
/// configuration, not the one the orchestrator was built with.
pub proof fn law_task_takes_configuration_in_force(
    machine: MachineView,
    config: PlaybackConfig,
    item: CaptureItemView,
)
    requires
        !(machine.state is Invalid),
    ensures
        ({
            let reconfigured = step(
                machine,
                EventView::Command(CommandView::Configure { config }),
                true,
            );
            effects(reconfigured, EventView::Command(CommandView::Download { item }), true)
                == seq![
                Effect::Announce(EventView::Downloading { item }),
                Effect::Spawn(TaskView { item, config }),
            ]
        }),
{
}

} // verus!
