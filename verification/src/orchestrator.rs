//! The orchestrator: it owns the configuration, the collaborator handles and
//! the event channel, and turns each accepted download into a task.

use vstd::prelude::*;
use crossbeam_channel::{Receiver, Sender};
use crate::channel::{handed_over, open_event_channel, share_receiver, share_sender, EventSender};
use crate::item::CaptureItem;
use crate::model::{
    attempts_download, effects, started_notice, step, task_for, Effect, MachineView, StateView,
};
use crate::protocol::{CapturerCommand, CapturerEvent, CommandView, EventView, PlaybackConfig};
use crate::system::{lemma_handle_adds, realises, Move, SystemView};
use crate::task::DownloadTask;

verus! {

/// What the orchestrator tracks about downloads.
#[derive(Debug)]
pub enum CapturerState {
    /// No download was accepted yet.
    Idle,
    /// The download accepted last.
    Downloading { item: CaptureItem },
    /// The event channel failed; downloads are no longer accepted.
    Invalid,
}

impl View for CapturerState {
    type V = StateView;

    open spec fn view(&self) -> StateView {
        match self {
            CapturerState::Idle => StateView::Idle,
            CapturerState::Downloading { item } => StateView::Downloading { item: item@ },
            CapturerState::Invalid => StateView::Invalid,
        }
    }
}

impl PartialEq for CapturerState {
    /// Two states are equal when they are of one kind and track equal items.
    fn eq(&self, other: &Self) -> (equal: bool) {
        match (self, other) {
            (CapturerState::Idle, CapturerState::Idle) => true,
            (CapturerState::Downloading { item: a }, CapturerState::Downloading { item: b }) => a
                == b,
            (CapturerState::Invalid, CapturerState::Invalid) => true,
            _ => false,
        }
    }
}

impl Eq for CapturerState {

}

impl vstd::std_specs::cmp::PartialEqSpecImpl for CapturerState {
    open spec fn obeys_eq_spec() -> bool {
        true
    }

    open spec fn eq_spec(&self, other: &Self) -> bool {
        self@ == other@
    }
}

/// The collaborator handles, the destination and the channel ends that an
/// orchestrator was built with. They never change.
pub struct Wiring<S, N, C, D> {
    pub session: S,
    pub cdn: N,
    pub cache: C,
    pub destination_dir: D,
    pub event_sender: EventSender,
    pub event_receiver: Receiver<CapturerEvent>,
}

/// Whether `task` carries clones of the handles in `wiring` and reports to its
/// channel.
pub open spec fn outfitted<S: Clone, N: Clone, C: Clone, D: Clone>(
    task: DownloadTask<S, N, C, D>,
    wiring: Wiring<S, N, C, D>,
) -> bool {
    &&& cloned(wiring.session, task.session)
    &&& cloned(wiring.cdn, task.cdn)
    &&& cloned(wiring.cache, task.cache)
    &&& cloned(wiring.destination_dir, task.destination_dir)
    &&& task.event_sender == wiring.event_sender
}

/// Single point of control of the capture subsystem.
pub struct Capturer<S, N, C, D> {
    state: CapturerState,
    session: S,
    cdn: N,
    cache: C,
    config: PlaybackConfig,
    destination_dir: D,
    event_sender: EventSender,
    event_receiver: Receiver<CapturerEvent>,
}

impl<S, N, C, D> View for Capturer<S, N, C, D> {
    type V = MachineView;

    closed spec fn view(&self) -> MachineView {
        MachineView { state: self.state@, config: self.config }
    }
}

impl<S: Clone, N: Clone, C: Clone, D: Clone> Capturer<S, N, C, D> {
    /// The handles and channel ends the orchestrator was built with.
    pub closed spec fn wiring(&self) -> Wiring<S, N, C, D> {
        Wiring {
            session: self.session,
            cdn: self.cdn,
            cache: self.cache,
            destination_dir: self.destination_dir,
            event_sender: self.event_sender,
            event_receiver: self.event_receiver,
        }
    }

    /// Builds an idle orchestrator around the handles given, with an event
    /// channel of its own.
    pub fn new(session: S, cdn: N, cache: C, config: PlaybackConfig, destination_dir: D) -> (capturer:
        Self)
        ensures
            capturer@ == (MachineView { state: StateView::Idle, config }),
            capturer.wiring().session == session,
            capturer.wiring().cdn == cdn,
            capturer.wiring().cache == cache,
            capturer.wiring().destination_dir == destination_dir,
    {
        let (event_sender, event_receiver) = open_event_channel();
        Capturer {
            state: CapturerState::Idle,
            session,
            cdn,
            cache,
            config,
            destination_dir,
            event_sender,
            event_receiver,
        }
    }

    /// A handle on the sending end of the orchestrator's channel.
    pub fn event_sender(&self) -> (handle: Sender<CapturerEvent>)
        ensures
            handle == self.wiring().event_sender.raw(),
    {
        self.event_sender.sender()
    }

    /// A handle on the receiving end of the orchestrator's channel.
    pub fn event_receiver(&self) -> (handle: Receiver<CapturerEvent>)
        ensures
            handle == self.wiring().event_receiver,
    {
        share_receiver(&self.event_receiver)
    }

    /// The tracked state.
    pub fn state(&self) -> (state: &CapturerState)
        ensures
            state@ == self@.state,
    {
        &self.state
    }

    /// The configuration that the next download will run with.
    pub fn config(&self) -> (config: PlaybackConfig)
        ensures
            config == self@.config,
    {
        self.config
    }

    /// Reacts to one event. A `Download` command is announced on the channel
    /// first: the `Downloading` notice of its item is handed to the
    /// orchestrator's own sender. If the channel took the notice, the download
    /// is tracked and answered with the task to run in the background; if it
    /// did not, the orchestrator becomes `Invalid`. Nothing else hands out a
    /// task, and an orchestrator that is `Invalid` announces nothing.
    pub fn handle(&mut self, event: CapturerEvent) -> (spawned: Option<DownloadTask<S, N, C, D>>)
        ensures
            final(self)@ == step(old(self)@, event@, spawned is Some),
            final(self).wiring() == old(self).wiring(),
            spawned is Some ==> attempts_download(old(self)@, event@),
            event@ matches EventView::Command(CommandView::Download { item }) ==> old(self)@.state
                is Invalid || handed_over(
                old(self).wiring().event_sender,
                started_notice(item),
                spawned is Some,
            ),
            spawned matches Some(task) ==> {
                &&& effects(old(self)@, event@, true) == seq![
                    Effect::Announce(started_notice(task@.item)),
                    Effect::Spawn(task@),
                ]
                &&& outfitted(task, old(self).wiring())
            },
            forall|sys: SystemView|
                sys.machine == old(self)@ ==> #[trigger] realises(
                    old(self).wiring().event_sender,
                    sys,
                    Move::Handle { event: event@, delivered: spawned is Some },
                ),
    {
        let ghost seen = event@;
        let spawned = match event {
            CapturerEvent::Command(cmd) => self.handle_command(cmd),
            CapturerEvent::Downloaded { item } => {
                self.handle_downloaded(item);
                None
            },
            CapturerEvent::Downloading { .. } => None,
        };
        proof {
            assert forall|sys: SystemView| sys.machine == old(self)@ implies #[trigger] realises(
                old(self).wiring().event_sender,
                sys,
                Move::Handle { event: seen, delivered: spawned is Some },
            ) by {
                lemma_handle_adds(sys, seen, spawned is Some);
            }
        }
        spawned
    }

    /// Carries out one command.
    fn handle_command(&mut self, cmd: CapturerCommand) -> (spawned: Option<DownloadTask<S, N, C, D>>)
        ensures
            final(self)@ == step(old(self)@, EventView::Command(cmd@), spawned is Some),
            final(self).wiring() == old(self).wiring(),
            spawned is Some ==> cmd is Download && !(old(self)@.state is Invalid),
            cmd matches CapturerCommand::Download { item } ==> old(self)@.state is Invalid
                || handed_over(
                old(self).wiring().event_sender,
                started_notice(item@),
                spawned is Some,
            ),
            spawned matches Some(task) ==> {
                &&& cmd matches CapturerCommand::Download { item }
                &&& task@ == task_for(old(self)@, item@)
                &&& outfitted(task, old(self).wiring())
            },
    {
        match cmd {
            CapturerCommand::Download { item } => self.download(item),
            CapturerCommand::Configure { config } => {
                self.configure(config);
                None
            },
        }
    }

    /// Announces the download of `item` on the channel, then settles it by
    /// the channel's answer. An orchestrator that has failed announces
    /// nothing.
    fn download(&mut self, item: CaptureItem) -> (spawned: Option<DownloadTask<S, N, C, D>>)
        ensures
            final(self)@ == step(
                old(self)@,
                EventView::Command(CommandView::Download { item: item@ }),
                spawned is Some,
            ),
            final(self).wiring() == old(self).wiring(),
            spawned is Some ==> !(old(self)@.state is Invalid),
            !(old(self)@.state is Invalid) ==> handed_over(
                old(self).wiring().event_sender,
                started_notice(item@),
                spawned is Some,
            ),
            spawned matches Some(task) ==> {
                &&& task@ == task_for(old(self)@, item@)
                &&& outfitted(task, old(self).wiring())
            },
    {
        if let CapturerState::Invalid = &self.state {
            return None;
        }
        let notice = CapturerEvent::Downloading { item: item.clone() };
        let delivered = self.event_sender.send(notice).is_ok();
        self.register(item, delivered)
    }

    /// Settles a download once its announcement has been tried, as `handle`
    /// does with the channel's answer: with `delivered` the download is
    /// tracked and its task handed out, without it the orchestrator becomes
    /// `Invalid`. An orchestrator that is `Invalid` already stays as it is.
    pub fn register(&mut self, item: CaptureItem, delivered: bool) -> (spawned: Option<
        DownloadTask<S, N, C, D>,
    >)
        ensures
            final(self)@ == step(
                old(self)@,
                EventView::Command(CommandView::Download { item: item@ }),
                delivered,
            ),
            final(self).wiring() == old(self).wiring(),
            spawned is Some <==> delivered && !(old(self)@.state is Invalid),
            spawned matches Some(task) ==> {
                &&& task@ == task_for(old(self)@, item@)
                &&& outfitted(task, old(self).wiring())
            },
    {
        if let CapturerState::Invalid = &self.state {
            return None;
        }
        if !delivered {
            self.state = CapturerState::Invalid;
            return None;
        }
        self.state = CapturerState::Downloading { item: item.clone() };
        Some(
            DownloadTask {
                item,
                session: self.session.clone(),
                cdn: self.cdn.clone(),
                cache: self.cache.clone(),
                config: self.config,
                destination_dir: self.destination_dir.clone(),
                event_sender: share_sender(&self.event_sender),
            },
        )
    }

    /// Takes note that the download of `item` is over. Nothing is kept per
    /// item, so there is nothing to release.
    fn handle_downloaded(&mut self, item: CaptureItem)
        ensures
            final(self)@ == step(old(self)@, EventView::Downloaded { item: item@ }, false),
            final(self).wiring() == old(self).wiring(),
    {
    }

    /// Replaces the configuration for the downloads accepted from now on.
    fn configure(&mut self, config: PlaybackConfig)
        ensures
            final(self)@ == (MachineView { state: old(self)@.state, config }),
            final(self).wiring() == old(self).wiring(),
    {
        self.config = config;
    }
}

} // verus!
