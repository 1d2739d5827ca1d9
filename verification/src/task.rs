//! The background work of one download: resolve, store, report.

use vstd::prelude::*;
use crate::channel::{handed_over, EventSender};
use crate::item::{artifact_name, CaptureItem, CaptureItemView, LoadError};
use crate::model::{finished_notice, TaskView};
use crate::protocol::{CapturerEvent, PlaybackConfig};
use crate::system::{realises, Move, SystemView};

verus! {

/// One download, ready to run in the background. It owns a copy of every
/// handle it needs and the configuration in force when it was accepted.
pub struct DownloadTask<S, N, C, D> {
    pub item: CaptureItem,
    pub session: S,
    pub cdn: N,
    pub cache: C,
    pub config: PlaybackConfig,
    pub destination_dir: D,
    pub event_sender: EventSender,
}

impl<S, N, C, D> View for DownloadTask<S, N, C, D> {
    type V = TaskView;

    open spec fn view(&self) -> TaskView {
        TaskView { item: self.item@, config: self.config }
    }
}

/// Why an artifact could not be written.
#[derive(Clone, Copy, Debug, PartialEq, Eq, Structural)]
pub enum WriteError {
    /// The artifact could not be created.
    CannotCreate,
    /// The destination ran out of room.
    NoSpace,
    /// Copying the stream failed part-way.
    Interrupted,
}

/// How a task ended.
#[derive(Clone, Copy, Debug, PartialEq, Eq, Structural)]
pub enum DownloadOutcome {
    /// The stream was copied to the destination.
    Stored,
    /// The item could not be resolved; nothing was written.
    LoadFailed(LoadError),
    /// The item was resolved but the artifact could not be written.
    WriteFailed(WriteError),
}

/// The outcome of a task whose item resolved, from the sink's answer.
pub open spec fn stored_outcome(written: Result<(), WriteError>) -> DownloadOutcome {
    match written {
        Ok(()) => DownloadOutcome::Stored,
        Err(reason) => DownloadOutcome::WriteFailed(reason),
    }
}

/// What a task reports to whoever ran it.
#[derive(Clone, Copy, Debug, PartialEq, Eq, Structural)]
pub struct DownloadReport {
    /// How the download ended.
    pub outcome: DownloadOutcome,
    /// Whether the channel took the completion notice.
    pub notified: bool,
}

/// How a task ends, given the item loader's answer: a failed resolution is
/// the outcome as it stands; a stream is handed to the sink once, whole and
/// under the item's artifact name, and the sink's answer decides.
pub open spec fn task_outcome<D, W: FnOnce(&D, &String, Vec<u8>) -> Result<(), WriteError>>(
    sink: W,
    destination_dir: D,
    item: CaptureItemView,
    answer: Result<Vec<u8>, LoadError>,
    outcome: DownloadOutcome,
) -> bool {
    match answer {
        Err(reason) => outcome == DownloadOutcome::LoadFailed(reason),
        Ok(bytes) => exists|name: String, data: Vec<u8>, written: Result<(), WriteError>|
            {
                &&& name@ == artifact_name(item)
                &&& data@ == bytes@
                &&& #[trigger] call_ensures(sink, (&destination_dir, &name, data), written)
                &&& outcome == stored_outcome(written)
            },
    }
}

impl<S, N, C, D> DownloadTask<S, N, C, D> {
    /// Runs the download to its end. The item loader is asked once; if it
    /// yields a stream, the sink is asked once to store it, and must accept
    /// any stream the loader can yield; if it yields none, the sink is left
    /// alone. Whatever came of either, the completion notice is then handed
    /// to the channel, and `notified` tells whether the channel took it.
    pub fn run<L, W>(self, loader: L, sink: W) -> (report: DownloadReport) where
        L: FnOnce(&String, &S, N, C, &PlaybackConfig) -> Result<Vec<u8>, LoadError>,
        W: FnOnce(&D, &String, Vec<u8>) -> Result<(), WriteError>,

        requires
            call_requires(
                loader,
                (&self.item.item_id, &self.session, self.cdn, self.cache, &self.config),
            ),
            forall|answer: Result<Vec<u8>, LoadError>, name: String, data: Vec<u8>|
                {
                    &&& #[trigger] call_ensures(
                        loader,
                        (&self.item.item_id, &self.session, self.cdn, self.cache, &self.config),
                        answer,
                    )
                    &&& answer matches Ok(bytes)
                    &&& data@ == bytes@
                    &&& name@ == artifact_name(self.item@)
                } ==> #[trigger] call_requires(sink, (&self.destination_dir, &name, data)),
        ensures
            exists|answer: Result<Vec<u8>, LoadError>|
                {
                    &&& #[trigger] call_ensures(
                        loader,
                        (&self.item.item_id, &self.session, self.cdn, self.cache, &self.config),
                        answer,
                    )
                    &&& task_outcome(sink, self.destination_dir, self.item@, answer, report.outcome)
                },
            handed_over(self.event_sender, finished_notice(self@), report.notified),
            report.notified ==> forall|sys: SystemView| #[trigger]
                realises(
                    self.event_sender,
                    sys,
                    Move::Finish { task: self@, outcome: report.outcome },
                ),
    {
        let DownloadTask { item, session, cdn, cache, config, destination_dir, event_sender } = self;
        let outcome = match item.load(&session, cdn, cache, &config, loader) {
            Ok(stream) => {
                let name = item.file_name();
                match sink(&destination_dir, &name, stream.into_source()) {
                    Ok(()) => DownloadOutcome::Stored,
                    Err(reason) => DownloadOutcome::WriteFailed(reason),
                }
            },
            Err(reason) => DownloadOutcome::LoadFailed(reason),
        };
        let notified = event_sender.send(CapturerEvent::Downloaded { item }).is_ok();
        DownloadReport { outcome, notified }
    }
}

} // verus!
