//! The orchestrator as a transition system over mathematical values.
//!
//! The executable code is specified against these functions, and the laws of
//! the protocol are proved about them.

use vstd::prelude::*;
use crate::item::CaptureItemView;
use crate::protocol::{CommandView, EventView, PlaybackConfig};

verus! {

/// What the orchestrator tracks: that no download was accepted yet, the
/// download accepted last, or the terminal state entered when the event
/// channel failed.
pub enum StateView {
    Idle,
    Downloading { item: CaptureItemView },
    Invalid,
}

/// The orchestrator's own data: the tracked state and the configuration that
/// the next download will run with.
pub struct MachineView {
    pub state: StateView,
    pub config: PlaybackConfig,
}

/// One unit of background work: the item to fetch and the configuration
/// snapshot taken when the download was accepted.
pub struct TaskView {
    pub item: CaptureItemView,
    pub config: PlaybackConfig,
}

/// Something the orchestrator does besides changing its own data.
pub enum Effect {
    /// An event is put on the channel.
    Announce(EventView),
    /// A task is handed out to run in the background.
    Spawn(TaskView),
}

/// The event announced when a download of `item` is accepted.
pub open spec fn started_notice(item: CaptureItemView) -> EventView {
    EventView::Downloading { item }
}

/// The event a task reports when it is over, whatever became of it.
pub open spec fn finished_notice(task: TaskView) -> EventView {
    EventView::Downloaded { item: task.item }
}

/// The task that a download of `item` accepted in `machine` runs as.
pub open spec fn task_for(machine: MachineView, item: CaptureItemView) -> TaskView {
    TaskView { item, config: machine.config }
}

/// Whether `event` makes the orchestrator try to announce a download: it is a
/// `Download` command and the orchestrator has not failed.
pub open spec fn attempts_download(machine: MachineView, event: EventView) -> bool {
    event matches EventView::Command(CommandView::Download { .. }) && !(machine.state is Invalid)
}

/// The orchestrator's data after `event`. `delivered` tells whether the
/// channel took the announcement; it matters only when
/// `attempts_download(machine, event)`.
///
/// An accepted download replaces whatever was tracked before. Notices that
/// come back from the channel change nothing: the tracked state names the
/// download accepted last, not the downloads still running.
pub open spec fn step(machine: MachineView, event: EventView, delivered: bool) -> MachineView {
    match event {
        EventView::Command(CommandView::Download { item }) => {
            if machine.state is Invalid {
                machine
            } else if delivered {
                MachineView { state: StateView::Downloading { item }, config: machine.config }
            } else {
                MachineView { state: StateView::Invalid, config: machine.config }
            }
        },
        EventView::Command(CommandView::Configure { config }) => {
            MachineView { state: machine.state, config }
        },
        EventView::Downloading { .. } => machine,
        EventView::Downloaded { .. } => machine,
    }
}

/// What the orchestrator does on `event`, in order: an accepted download is
/// announced first and its task handed out second; nothing else has effects.
pub open spec fn effects(machine: MachineView, event: EventView, delivered: bool) -> Seq<Effect> {
    match event {
        EventView::Command(CommandView::Download { item }) => {
            if !(machine.state is Invalid) && delivered {
                seq![
                    Effect::Announce(started_notice(item)),
                    Effect::Spawn(task_for(machine, item)),
                ]
            } else {
                Seq::empty()
            }
        },
        _ => Seq::empty(),
    }
}

} // verus!
