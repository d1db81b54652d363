//! The audio command protocol: the bounded command queue the caller fills
//! without ever blocking, and the worker's state machine that turns each
//! command into at most one playback action.
//!
//! The host owns the actual playback engine and the worker loop; this
//! module decides, for every command, what the worker must do and what play
//! state it is in afterwards.

use vstd::prelude::*;

verus! {

/// The optional path of an alarm clip to load in place of the built-in one.
pub type Param = Option<String>;

/// Volume of a fully audible alarm, in hundredths of full scale.
pub const VOLUME_FULL: u32 = 100;

/// Volume of a muted alarm.
pub const VOLUME_SILENT: u32 = 0;

/// How many commands the queue holds before further ones are dropped.
pub const QUEUE_CAPACITY: usize = 5;

/// One message from the caller to the audio worker. Created by the caller,
/// moved into the queue, consumed exactly once by the worker.
#[derive(Debug, Clone, PartialEq, Eq)]
pub enum AudioCommand {
    /// Play the loaded clip from wherever it stands.
    Start,
    /// Pause and rewind to the beginning, if anything is playing.
    Stop,
    /// Load another clip, or the built-in one for `None`.
    ChangeSource(Param),
    /// Set the playback volume, in hundredths of full scale.
    ChangeVolume(u32),
}

/// What offering `cmd` to a queue holding `items` under `capacity` leaves
/// behind: appended while there is room, dropped otherwise.
pub open spec fn offered_spec(
    items: Seq<AudioCommand>,
    capacity: int,
    cmd: AudioCommand,
) -> Seq<AudioCommand> {
    if items.len() < capacity {
        items.push(cmd)
    } else {
        items
    }
}

/// A bounded first-in-first-out command queue. Filling it never blocks:
/// a command offered to a full queue is dropped.
pub struct CommandQueue {
    items: Vec<AudioCommand>,
    capacity: usize,
}

impl CommandQueue {
    /// The commands waiting, oldest first.
    pub closed spec fn view_spec(self) -> Seq<AudioCommand> {
        self.items@
    }

    /// The bound the queue was made with.
    pub closed spec fn capacity_spec(self) -> int {
        self.capacity as int
    }

    /// The queue never holds more than its capacity.
    pub open spec fn wf(self) -> bool {
        self.view_spec().len() <= self.capacity_spec()
    }

    /// What offering `cmd` leaves in the queue: appended while there is
    /// room, dropped otherwise.
    pub open spec fn offer_spec(self, cmd: AudioCommand) -> Seq<AudioCommand> {
        offered_spec(self.view_spec(), self.capacity_spec(), cmd)
    }

    /// An empty queue bounded by `capacity`.
    pub fn new(capacity: usize) -> (q: CommandQueue)
        ensures
            q.view_spec() == Seq::<AudioCommand>::empty(),
            q.capacity_spec() == capacity,
            q.wf(),
    {
        CommandQueue { items: Vec::new(), capacity }
    }

    pub fn len(&self) -> (n: usize)
        ensures
            n == self.view_spec().len(),
    {
        self.items.len()
    }

    /// Offers `cmd` to the queue and returns whether it was taken. A full
    /// queue drops the command and stays exactly as it was; the caller is
    /// never made to wait.
    pub fn try_send(&mut self, cmd: AudioCommand) -> (accepted: bool)
        ensures
            final(self).view_spec() == old(self).offer_spec(cmd),
            final(self).capacity_spec() == old(self).capacity_spec(),
            accepted == (old(self).view_spec().len() < old(self).capacity_spec()),
            !accepted ==> final(self).view_spec() == old(self).view_spec(),
            old(self).wf() ==> final(self).wf(),
    {
        if self.items.len() < self.capacity {
            self.items.push(cmd);
            true
        } else {
            false
        }
    }

    /// Takes the oldest waiting command, if any: the worker's side of the
    /// queue, preserving submission order.
    pub fn pop_front(&mut self) -> (cmd: Option<AudioCommand>)
        ensures
            final(self).capacity_spec() == old(self).capacity_spec(),
            old(self).view_spec().len() == 0 ==> cmd is None && *final(self) == *old(self),
            old(self).view_spec().len() > 0 ==> cmd == Some(old(self).view_spec()[0])
                && final(self).view_spec() == old(self).view_spec().drop_first(),
            old(self).wf() ==> final(self).wf(),
    {
        if self.items.len() == 0 {
            None
        } else {
            let cmd = self.items.remove(0);
            proof {
                assert(old(self).view_spec().drop_first() =~= old(self).view_spec().remove(0));
            }
            Some(cmd)
        }
    }
}

/// The caller's handle on the audio worker: it turns the public operations
/// into commands and queues them, never blocking and never failing.
pub struct Controller {
    /// The commands awaiting the worker.
    pub queue: CommandQueue,
    /// The clip the worker is to load before its first command.
    pub initial_source: Param,
}

impl Controller {
    /// A controller whose worker will first load `path` (or the built-in
    /// clip for `None`) and whose queue is empty.
    pub fn new(path: Param) -> (c: Controller)
        ensures
            c.queue.view_spec() == Seq::<AudioCommand>::empty(),
            c.queue.capacity_spec() == QUEUE_CAPACITY,
            c.queue.wf(),
            c.initial_source == path,
    {
        Controller { queue: CommandQueue::new(QUEUE_CAPACITY), initial_source: path }
    }

    /// Requests playback; dropped silently if the queue is full.
    pub fn start(&mut self)
        ensures
            final(self).queue.view_spec() == old(self).queue.offer_spec(AudioCommand::Start),
            final(self).queue.capacity_spec() == old(self).queue.capacity_spec(),
            final(self).initial_source == old(self).initial_source,
            old(self).queue.wf() ==> final(self).queue.wf(),
    {
        self.queue.try_send(AudioCommand::Start);
    }

    /// Requests that any playing alarm be paused and rewound; dropped
    /// silently if the queue is full.
    pub fn stop(&mut self)
        ensures
            final(self).queue.view_spec() == old(self).queue.offer_spec(AudioCommand::Stop),
            final(self).queue.capacity_spec() == old(self).queue.capacity_spec(),
            final(self).initial_source == old(self).initial_source,
            old(self).queue.wf() ==> final(self).queue.wf(),
    {
        self.queue.try_send(AudioCommand::Stop);
    }

    /// Requests that the worker load another clip; dropped silently if the
    /// queue is full.
    pub fn update(&mut self, path: Param)
        ensures
            final(self).queue.view_spec() == old(self).queue.offer_spec(
                AudioCommand::ChangeSource(path),
            ),
            final(self).queue.capacity_spec() == old(self).queue.capacity_spec(),
            final(self).initial_source == old(self).initial_source,
            old(self).queue.wf() ==> final(self).queue.wf(),
    {
        self.queue.try_send(AudioCommand::ChangeSource(path));
    }

    /// Requests volume zero; dropped silently if the queue is full.
    pub fn mute(&mut self)
        ensures
            final(self).queue.view_spec() == old(self).queue.offer_spec(
                AudioCommand::ChangeVolume(VOLUME_SILENT),
            ),
            final(self).queue.capacity_spec() == old(self).queue.capacity_spec(),
            final(self).initial_source == old(self).initial_source,
            old(self).queue.wf() ==> final(self).queue.wf(),
    {
        self.queue.try_send(AudioCommand::ChangeVolume(VOLUME_SILENT));
    }

    /// Requests full volume; dropped silently if the queue is full.
    pub fn unmute(&mut self)
        ensures
            final(self).queue.view_spec() == old(self).queue.offer_spec(
                AudioCommand::ChangeVolume(VOLUME_FULL),
            ),
            final(self).queue.capacity_spec() == old(self).queue.capacity_spec(),
            final(self).initial_source == old(self).initial_source,
            old(self).queue.wf() ==> final(self).queue.wf(),
    {
        self.queue.try_send(AudioCommand::ChangeVolume(VOLUME_FULL));
    }
}

/// What the worker must do with its playback engine for one command.
#[derive(Debug, Clone, PartialEq, Eq)]
pub enum WorkerAction {
    /// Nothing: the command needed no playback call at all.
    NoOp,
    /// Ask the engine to play the loaded clip.
    Play,
    /// Pause the engine and seek back to the start of the clip.
    PauseAndRewind,
    /// Load the given clip, or the built-in one for `None`.
    Load(Param),
    /// Set the engine volume, in hundredths of full scale.
    SetVolume(u32),
}

/// The worker's play state: the one bit that decides whether a `Stop`
/// needs a playback call.
#[derive(Clone, Copy, Debug, PartialEq, Eq, Structural)]
pub struct WorkerState {
    pub playing: bool,
}

impl WorkerState {
    /// A worker that has not started playing.
    pub fn new() -> (w: WorkerState)
        ensures
            !w.playing,
    {
        WorkerState { playing: false }
    }

    /// Decides what one command does: `Start` always plays (playing again
    /// while already playing is harmless); `Stop` pauses and rewinds only
    /// if something is playing, and otherwise does nothing at all; source
    /// and volume changes apply immediately and leave the play state
    /// alone.
    pub fn step(&self, cmd: AudioCommand) -> (r: (WorkerState, WorkerAction))
        ensures
            cmd == AudioCommand::Start ==> r == (WorkerState { playing: true }, WorkerAction::Play),
            cmd == AudioCommand::Stop && !self.playing ==> r == (*self, WorkerAction::NoOp),
            cmd == AudioCommand::Stop && self.playing ==> r == (
                WorkerState { playing: false },
                WorkerAction::PauseAndRewind,
            ),
            cmd matches AudioCommand::ChangeSource(p) ==> r == (*self, WorkerAction::Load(p)),
            cmd matches AudioCommand::ChangeVolume(v) ==> r == (*self, WorkerAction::SetVolume(v)),
            r.0.playing == match cmd {
                AudioCommand::Start => true,
                AudioCommand::Stop => false,
                _ => self.playing,
            },
    {
        match cmd {
            AudioCommand::Start => (WorkerState { playing: true }, WorkerAction::Play),
            AudioCommand::Stop => {
                if self.playing {
                    (WorkerState { playing: false }, WorkerAction::PauseAndRewind)
                } else {
                    (*self, WorkerAction::NoOp)
                }
            },
            AudioCommand::ChangeSource(p) => (*self, WorkerAction::Load(p)),
            AudioCommand::ChangeVolume(v) => (*self, WorkerAction::SetVolume(v)),
        }
    }
}

} // verus!
