//! Commands accepted by the orchestrator and events observed on its channel.

use vstd::prelude::*;
use crate::item::{CaptureItem, CaptureItemView};

verus! {

/// Configuration snapshot handed to the item loader. A download keeps the
/// snapshot that was in force when it was accepted.
#[derive(Clone, Copy, Debug, PartialEq, Eq, Structural)]
pub struct PlaybackConfig {
    pub bitrate: usize,
}

/// External request to the orchestrator.
#[derive(Debug)]
pub enum CapturerCommand {
    Download { item: CaptureItem },
    Configure { config: PlaybackConfig },
}

/// Occurrence on the event channel.
#[derive(Debug)]
pub enum CapturerEvent {
    Command(CapturerCommand),
    Downloading { item: CaptureItem },
    Downloaded { item: CaptureItem },
}

/// Mathematical value of a [`CapturerCommand`].
pub enum CommandView {
    Download { item: CaptureItemView },
    Configure { config: PlaybackConfig },
}

/// Mathematical value of a [`CapturerEvent`].
pub enum EventView {
    Command(CommandView),
    Downloading { item: CaptureItemView },
    Downloaded { item: CaptureItemView },
}

impl View for CapturerCommand {
    type V = CommandView;

    open spec fn view(&self) -> CommandView {
        match self {
            CapturerCommand::Download { item } => CommandView::Download { item: item@ },
            CapturerCommand::Configure { config } => CommandView::Configure { config: *config },
        }
    }
}

impl View for CapturerEvent {
    type V = EventView;

    open spec fn view(&self) -> EventView {
        match self {
            CapturerEvent::Command(cmd) => EventView::Command(cmd@),
            CapturerEvent::Downloading { item } => EventView::Downloading { item: item@ },
            CapturerEvent::Downloaded { item } => EventView::Downloaded { item: item@ },
        }
    }
}

impl PartialEq for CapturerCommand {
    /// Two commands are equal when they are of one kind and carry equal
    /// values.
    fn eq(&self, other: &Self) -> (equal: bool) {
        match (self, other) {
            (CapturerCommand::Download { item: a }, CapturerCommand::Download { item: b }) => a == b,
            (
                CapturerCommand::Configure { config: a },
                CapturerCommand::Configure { config: b },
            ) => a == b,
            _ => false,
        }
    }
}

impl Eq for CapturerCommand {

}

impl vstd::std_specs::cmp::PartialEqSpecImpl for CapturerCommand {
    open spec fn obeys_eq_spec() -> bool {
        true
    }

    open spec fn eq_spec(&self, other: &Self) -> bool {
        self@ == other@
    }
}

impl PartialEq for CapturerEvent {
    /// Two events are equal when they are of one kind and carry equal values.
    fn eq(&self, other: &Self) -> (equal: bool) {
        match (self, other) {
            (CapturerEvent::Command(a), CapturerEvent::Command(b)) => a == b,
            (CapturerEvent::Downloading { item: a }, CapturerEvent::Downloading { item: b }) => a
                == b,
            (CapturerEvent::Downloaded { item: a }, CapturerEvent::Downloaded { item: b }) => a == b,
            _ => false,
        }
    }
}

impl Eq for CapturerEvent {

}

impl vstd::std_specs::cmp::PartialEqSpecImpl for CapturerEvent {
    open spec fn obeys_eq_spec() -> bool {
        true
    }

    open spec fn eq_spec(&self, other: &Self) -> bool {
        self@ == other@
    }
}

} // verus!
