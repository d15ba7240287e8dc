//! The multi-sink playback manager: every `Play` opens a fresh device sink
//! under a new numeric id, and pause, stop and resume act on whichever sink
//! played last. The device work itself is handed back to the caller as an
//! ordered list of [`DeviceAction`] values.

use vstd::prelude::*;
use std::collections::VecDeque;

verus! {

/// The commands the multi-sink manager understands; `Play` carries the raw
/// encoded audio bytes.
pub enum PlaybackCommand {
    Play(Vec<u8>),
    Pause,
    Stop,
    Resume,
}

/// The mathematical value of a multi-sink [`PlaybackCommand`].
pub enum DeviceCommandView {
    Play(Seq<u8>),
    Pause,
    Stop,
    Resume,
}

impl View for PlaybackCommand {
    type V = DeviceCommandView;

    open spec fn view(&self) -> DeviceCommandView {
        match self {
            PlaybackCommand::Play(b) => DeviceCommandView::Play(b@),
            PlaybackCommand::Pause => DeviceCommandView::Pause,
            PlaybackCommand::Stop => DeviceCommandView::Stop,
            PlaybackCommand::Resume => DeviceCommandView::Resume,
        }
    }
}

/// One step of device work the manager asks its caller to perform on the
/// sink with the given id.
#[derive(Debug, PartialEq, Eq)]
pub enum DeviceAction {
    /// Open the default output device and register a fresh sink and its
    /// stream under this id.
    OpenSink(usize),
    /// Decode these audio bytes into a playable source and append it to
    /// this sink.
    Append(usize, Vec<u8>),
    /// Pause this sink.
    PauseSink(usize),
    /// Stop this sink.
    StopSink(usize),
    /// Resume this sink.
    ResumeSink(usize),
}

/// The mathematical value of a [`DeviceAction`].
pub enum DeviceActionView {
    OpenSink(int),
    Append(int, Seq<u8>),
    PauseSink(int),
    StopSink(int),
    ResumeSink(int),
}

impl View for DeviceAction {
    type V = DeviceActionView;

    open spec fn view(&self) -> DeviceActionView {
        match self {
            DeviceAction::OpenSink(id) => DeviceActionView::OpenSink(*id as int),
            DeviceAction::Append(id, b) => DeviceActionView::Append(*id as int, b@),
            DeviceAction::PauseSink(id) => DeviceActionView::PauseSink(*id as int),
            DeviceAction::StopSink(id) => DeviceActionView::StopSink(*id as int),
            DeviceAction::ResumeSink(id) => DeviceActionView::ResumeSink(*id as int),
        }
    }
}

/// Owns the ids of the open sinks, a FIFO queue of pending commands, and
/// the id of the sink that played last. The sink and stream handles
/// registered under those ids live with the device layer; `sinks` lists the
/// ids the manager has handed out, and `current_sink` points at the one that
/// pause, stop and resume act on.
pub struct AudioPlaybackManager {
    pub next_id: usize,
    pub sinks: Vec<usize>,
    pub command_queue: VecDeque<PlaybackCommand>,
    pub is_idle: bool,
    pub current_sink: Option<usize>,
}

/// The mathematical state of an [`AudioPlaybackManager`].
pub struct DeviceView {
    pub next_id: int,
    pub sinks: Seq<int>,
    pub queue: Seq<DeviceCommandView>,
    pub is_idle: bool,
    pub current_sink: Option<int>,
}

/// A multi-sink command queue as its sequence of command values.
pub open spec fn device_queue_view(q: Seq<PlaybackCommand>) -> Seq<DeviceCommandView> {
    q.map_values(|c: PlaybackCommand| c@)
}

/// An action list as its sequence of action values.
pub open spec fn actions_view(v: Seq<DeviceAction>) -> Seq<DeviceActionView> {
    v.map_values(|a: DeviceAction| a@)
}

/// A sequence of sink ids as mathematical integers.
pub open spec fn ids_view(v: Seq<usize>) -> Seq<int> {
    v.map_values(|i: usize| i as int)
}

impl View for AudioPlaybackManager {
    type V = DeviceView;

    open spec fn view(&self) -> DeviceView {
        DeviceView {
            next_id: self.next_id as int,
            sinks: ids_view(self.sinks@),
            queue: device_queue_view(self.command_queue@),
            is_idle: self.is_idle,
            current_sink: match self.current_sink {
                Some(id) => Some(id as int),
                None => None,
            },
        }
    }
}

/// The actions that pause, stop or resume direct at the current sink: one
/// action on its id when a current sink is set and its id is registered,
/// nothing otherwise.
pub open spec fn current_sink_action(m: DeviceView, cmd: DeviceCommandView) -> Seq<
    DeviceActionView,
> {
    match m.current_sink {
        Some(id) => if m.sinks.contains(id) {
            match cmd {
                DeviceCommandView::Pause => seq![DeviceActionView::PauseSink(id)],
                DeviceCommandView::Stop => seq![DeviceActionView::StopSink(id)],
                DeviceCommandView::Resume => seq![DeviceActionView::ResumeSink(id)],
                DeviceCommandView::Play(_) => Seq::<DeviceActionView>::empty(),
            }
        } else {
            Seq::<DeviceActionView>::empty()
        },
        None => Seq::<DeviceActionView>::empty(),
    }
}

/// One command against the device state: `Play` registers a fresh sink id,
/// points `current_sink` at it and asks for the sink to be opened and fed;
/// `Stop` forgets the current sink after stopping it; `Pause` and `Resume`
/// act on the current sink and change nothing.
pub open spec fn device_step(m: DeviceView, cmd: DeviceCommandView) -> (DeviceView, Seq<
    DeviceActionView,
>) {
    match cmd {
        DeviceCommandView::Play(b) => (
            DeviceView {
                next_id: m.next_id + 1,
                sinks: m.sinks.push(m.next_id),
                current_sink: Some(m.next_id),
                ..m
            },
            seq![DeviceActionView::OpenSink(m.next_id), DeviceActionView::Append(m.next_id, b)],
        ),
        DeviceCommandView::Stop => (
            DeviceView { current_sink: None, ..m },
            current_sink_action(m, cmd),
        ),
        _ => (m, current_sink_action(m, cmd)),
    }
}

/// A queue never holds a negative number of `Play` commands.
proof fn lemma_count_plays_nonneg(q: Seq<DeviceCommandView>)
    ensures
        count_plays(q) >= 0,
    decreases q.len(),
{
    if q.len() > 0 {
        lemma_count_plays_nonneg(q.drop_first());
    }
}

/// How many `Play` commands a queue holds; each one consumes a fresh id.
pub open spec fn count_plays(q: Seq<DeviceCommandView>) -> int
    decreases q.len(),
{
    if q.len() == 0 {
        0
    } else {
        (match q[0] {
            DeviceCommandView::Play(_) => 1int,
            _ => 0int,
        }) + count_plays(q.drop_first())
    }
}

/// The drain loop of the multi-sink manager: every pending command is
/// executed, in submission order, with no deferral.
pub open spec fn device_drain(m: DeviceView) -> (DeviceView, Seq<DeviceActionView>)
    decreases m.queue.len(),
{
    if m.queue.len() == 0 {
        (m, Seq::<DeviceActionView>::empty())
    } else {
        let stepped = device_step(m, m.queue[0]);
        let rest = device_drain(DeviceView { queue: m.queue.drop_first(), ..stepped.0 });
        (rest.0, stepped.1 + rest.1)
    }
}

/// Whether a slice of sink ids holds the given id.
fn has_id(v: &Vec<usize>, id: usize) -> (found: bool)
    ensures
        found == ids_view(v@).contains(id as int),
{
    let mut i: usize = 0;
    while i < v.len()
        invariant
            i <= v.len(),
            forall|j: int| 0 <= j < i ==> ids_view(v@)[j] != id as int,
        decreases v.len() - i,
    {
        if v[i] == id {
            proof {
                assert(ids_view(v@)[i as int] == id as int);
            }
            return true;
        }
        i += 1;
    }
    false
}

impl AudioPlaybackManager {
    /// A fresh manager: no sinks, no pending commands, the worker idle.
    pub fn new() -> (m: AudioPlaybackManager)
        ensures
            m@ == (DeviceView {
                next_id: 0,
                sinks: Seq::<int>::empty(),
                queue: Seq::<DeviceCommandView>::empty(),
                is_idle: true,
                current_sink: None,
            }),
    {
        let m = AudioPlaybackManager {
            next_id: 0,
            sinks: Vec::new(),
            command_queue: VecDeque::new(),
            is_idle: true,
            current_sink: None,
        };
        proof {
            assert(m@.sinks =~= Seq::<int>::empty());
            assert(m@.queue =~= Seq::<DeviceCommandView>::empty());
        }
        m
    }

    /// Register a fresh sink id for these audio bytes: the new id becomes
    /// the current sink, and the caller is asked to open a sink under it and
    /// append the decoded audio to it.
    pub fn play_audio(&mut self, audio_data: Vec<u8>) -> (r: (usize, Vec<DeviceAction>))
        requires
            old(self).next_id < usize::MAX,
        ensures
            r.0 == old(self).next_id,
            final(self)@ == device_step(old(self)@, DeviceCommandView::Play(audio_data@)).0,
            actions_view(r.1@) == device_step(
                old(self)@,
                DeviceCommandView::Play(audio_data@),
            ).1,
    {
        let ghost bv = audio_data@;
        let id = self.next_id;
        let mut actions: Vec<DeviceAction> = Vec::new();
        actions.push(DeviceAction::OpenSink(id));
        actions.push(DeviceAction::Append(id, audio_data));
        self.sinks.push(id);
        self.current_sink = Some(id);
        self.next_id = self.next_id + 1;
        proof {
            assert(self@.sinks =~= old(self)@.sinks.push(id as int));
            assert(actions_view(actions@) =~= device_step(
                old(self)@,
                DeviceCommandView::Play(bv),
            ).1);
        }
        (id, actions)
    }

    /// Execute one command against the device state, as [`device_step`]
    /// says, and hand back the device work it calls for.
    pub fn handle_command(&mut self, command: PlaybackCommand) -> (actions: Vec<DeviceAction>)
        requires
            command@ is Play ==> old(self).next_id < usize::MAX,
        ensures
            final(self)@ == device_step(old(self)@, command@).0,
            actions_view(actions@) == device_step(old(self)@, command@).1,
    {
        let ghost cv = command@;
        match command {
            PlaybackCommand::Play(audio_data) => {
                let r = self.play_audio(audio_data);
                r.1
            },
            PlaybackCommand::Pause => {
                let mut actions: Vec<DeviceAction> = Vec::new();
                match self.current_sink {
                    Some(id) => {
                        if has_id(&self.sinks, id) {
                            actions.push(DeviceAction::PauseSink(id));
                        }
                    },
                    None => {},
                }
                proof {
                    assert(actions_view(actions@) =~= current_sink_action(old(self)@, cv));
                }
                actions
            },
            PlaybackCommand::Stop => {
                let mut actions: Vec<DeviceAction> = Vec::new();
                match self.current_sink {
                    Some(id) => {
                        if has_id(&self.sinks, id) {
                            actions.push(DeviceAction::StopSink(id));
                        }
                    },
                    None => {},
                }
                self.current_sink = None;
                proof {
                    assert(actions_view(actions@) =~= current_sink_action(old(self)@, cv));
                }
                actions
            },
            PlaybackCommand::Resume => {
                let mut actions: Vec<DeviceAction> = Vec::new();
                match self.current_sink {
                    Some(id) => {
                        if has_id(&self.sinks, id) {
                            actions.push(DeviceAction::ResumeSink(id));
                        }
                    },
                    None => {},
                }
                proof {
                    assert(actions_view(actions@) =~= current_sink_action(old(self)@, cv));
                }
                actions
            },
        }
    }

    /// Drain the pending queue: execute every command in submission order
    /// and hand back all the device work, in order, as [`device_drain`]
    /// says.
    pub fn start_processing_commands(&mut self) -> (actions: Vec<DeviceAction>)
        requires
            old(self).next_id + count_plays(old(self)@.queue) <= usize::MAX,
        ensures
            final(self)@ == device_drain(old(self)@).0,
            actions_view(actions@) == device_drain(old(self)@).1,
    {
        let ghost m0 = self@;
        let mut actions: Vec<DeviceAction> = Vec::new();
        loop
            invariant_except_break
                device_drain(self@).0 == device_drain(m0).0,
                actions_view(actions@) + device_drain(self@).1 == device_drain(m0).1,
                self.next_id + count_plays(self@.queue) <= usize::MAX,
            ensures
                self@ == device_drain(m0).0,
                actions_view(actions@) == device_drain(m0).1,
            decreases self.command_queue@.len(),
        {
            let ghost mh = self@;
            let ghost a0 = actions@;
            let popped = self.command_queue.pop_front();
            match popped {
                None => {
                    proof {
                        assert(actions_view(actions@) + device_drain(self@).1 =~= actions_view(
                            actions@,
                        ));
                    }
                    break ;
                },
                Some(cmd) => {
                    let ghost cmdv = cmd@;
                    proof {
                        assert(cmdv == mh.queue[0]);
                        assert(self@.queue =~= mh.queue.drop_first());
                        assert(count_plays(mh.queue) == (match cmdv {
                            DeviceCommandView::Play(_) => 1int,
                            _ => 0int,
                        }) + count_plays(mh.queue.drop_first()));
                        lemma_count_plays_nonneg(mh.queue.drop_first());
                    }
                    let mut stepped = self.handle_command(cmd);
                    actions.append(&mut stepped);
                    proof {
                        let ms = DeviceView {
                            queue: mh.queue.drop_first(),
                            ..device_step(mh, cmdv).0
                        };
                        assert(self@ == ms);
                        assert(device_drain(mh).1 == device_step(mh, cmdv).1 + device_drain(
                            ms,
                        ).1);
                        assert(actions_view(actions@) =~= actions_view(a0) + device_step(
                            mh,
                            cmdv,
                        ).1);
                        assert(actions_view(actions@) + device_drain(self@).1 =~= actions_view(a0)
                            + (device_step(mh, cmdv).1 + device_drain(ms).1));
                    }
                },
            }
        }
        actions
    }
}

} // verus!
