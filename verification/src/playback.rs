//! The playback command sequencer: a FIFO queue of playback commands drained
//! strictly in submission order against a single audio sink, kept in sync
//! with a "now playing" notification stream.
//!
//! The manager decides everything; the device work itself (opening a sink,
//! feeding it decoded audio, pausing it) is handed back to the caller as a
//! sequence of [`SinkEffect`] values to perform, in order.

use vstd::prelude::*;
use std::collections::VecDeque;
use crate::codec::base64_decoding;
use crate::codec::decode_base64;

verus! {

/// One unit of speech: the sentence text together with its synthesized
/// audio, carried as a base64-encoded byte string.
pub struct AudioEntry {
    pub text_content: String,
    pub audio_data: String,
}

/// The mathematical value of an [`AudioEntry`]: both fields as character
/// sequences.
pub struct AudioEntryView {
    pub text_content: Seq<char>,
    pub audio_data: Seq<char>,
}

impl View for AudioEntry {
    type V = AudioEntryView;

    open spec fn view(&self) -> AudioEntryView {
        AudioEntryView { text_content: self.text_content@, audio_data: self.audio_data@ }
    }
}

/// The closed set of commands the sequencer understands. A `Pause` carries
/// the sentence that was playing at pause time; that very sentence is handed
/// back on the next `Resume`.
pub enum PlaybackCommand {
    Play(AudioEntry),
    Pause(String),
    Stop,
    Resume,
    Clear,
}

/// The mathematical value of a [`PlaybackCommand`].
pub enum CommandView {
    Play(AudioEntryView),
    Pause(Seq<char>),
    Stop,
    Resume,
    Clear,
}

impl View for PlaybackCommand {
    type V = CommandView;

    open spec fn view(&self) -> CommandView {
        match self {
            PlaybackCommand::Play(e) => CommandView::Play(e@),
            PlaybackCommand::Pause(s) => CommandView::Pause(s@),
            PlaybackCommand::Stop => CommandView::Stop,
            PlaybackCommand::Resume => CommandView::Resume,
            PlaybackCommand::Clear => CommandView::Clear,
        }
    }
}

/// One step of device or observer work that the sequencer asks its caller to
/// perform. Effects come out in exactly the order they must happen.
#[derive(Debug, PartialEq, Eq)]
pub enum SinkEffect {
    /// Send this sentence on the notification channel (best effort; the
    /// empty sentence means nothing is playing).
    Notify(String),
    /// The sentence retrieved from the stash on `Resume`, for observers to
    /// restore their state from.
    RestoreSentence(String),
    /// Open the default output device and hold a fresh sink.
    MakeSink,
    /// Decode these audio bytes into a playable source and append it to the
    /// sink.
    AppendAudio(Vec<u8>),
    /// Block until the sink has drained what was appended.
    WaitUntilEnd,
    /// Suspend consumption on the sink without destroying it.
    PauseSink,
    /// Resume consumption on the sink.
    ResumeSink,
    /// Destroy the sink, halting any in-flight playback.
    StopSink,
    /// Drop whatever the sink has buffered but keep the sink.
    ClearSink,
}

/// The mathematical value of a [`SinkEffect`].
pub enum EffectView {
    Notify(Seq<char>),
    RestoreSentence(Seq<char>),
    MakeSink,
    AppendAudio(Seq<u8>),
    WaitUntilEnd,
    PauseSink,
    ResumeSink,
    StopSink,
    ClearSink,
}

impl View for SinkEffect {
    type V = EffectView;

    open spec fn view(&self) -> EffectView {
        match self {
            SinkEffect::Notify(s) => EffectView::Notify(s@),
            SinkEffect::RestoreSentence(s) => EffectView::RestoreSentence(s@),
            SinkEffect::MakeSink => EffectView::MakeSink,
            SinkEffect::AppendAudio(b) => EffectView::AppendAudio(b@),
            SinkEffect::WaitUntilEnd => EffectView::WaitUntilEnd,
            SinkEffect::PauseSink => EffectView::PauseSink,
            SinkEffect::ResumeSink => EffectView::ResumeSink,
            SinkEffect::StopSink => EffectView::StopSink,
            SinkEffect::ClearSink => EffectView::ClearSink,
        }
    }
}

/// The sole owner of the pending-command queue and the sink state.
///
/// `sink_present` says whether a live sink is held (`Stop` destroys it; the
/// next `Play` makes a fresh one). `sink_empty` is true iff nothing is
/// currently playing on the sink. `sentence_stash` is the one-slot channel
/// that ferries the paused sentence from a `Pause` to the next `Resume`.
/// `is_idle` is the reentrancy gate around the drain loop, read and written
/// by the worker that owns the manager.
pub struct PlaybackManager {
    pub command_queue: VecDeque<PlaybackCommand>,
    pub sink_present: bool,
    pub sink_empty: bool,
    pub sentence_stash: Option<String>,
    pub is_idle: bool,
}

/// The mathematical state of a [`PlaybackManager`].
pub struct ManagerView {
    pub queue: Seq<CommandView>,
    pub sink_present: bool,
    pub sink_empty: bool,
    pub stash: Option<Seq<char>>,
    pub is_idle: bool,
}

/// A command queue as its sequence of command values.
pub open spec fn queue_view(q: Seq<PlaybackCommand>) -> Seq<CommandView> {
    q.map_values(|c: PlaybackCommand| c@)
}

/// An effect list as its sequence of effect values.
pub open spec fn effects_view(v: Seq<SinkEffect>) -> Seq<EffectView> {
    v.map_values(|e: SinkEffect| e@)
}

impl View for PlaybackManager {
    type V = ManagerView;

    open spec fn view(&self) -> ManagerView {
        ManagerView {
            queue: queue_view(self.command_queue@),
            sink_present: self.sink_present,
            sink_empty: self.sink_empty,
            stash: match self.sentence_stash {
                Some(s) => Some(s@),
                None => None,
            },
            is_idle: self.is_idle,
        }
    }
}

/// The error a single command can fail with. A failed command is skipped;
/// it never aborts the sequencer.
#[derive(Debug, Clone, Copy, PartialEq, Eq)]
pub enum PlaybackError {
    /// The audio payload of a `Play` was not decodable base64.
    AudioDecode,
}

/// The sink effects of one `Play`: a fresh sink is made when none is held,
/// then the decoded audio is appended and the sink drained to the end. A
/// payload that does not decode leaves the sink untouched.
pub open spec fn play_effects(m: ManagerView, e: AudioEntryView) -> Seq<EffectView> {
    match base64_decoding(e.audio_data) {
        Some(b) => (if m.sink_present {
            Seq::<EffectView>::empty()
        } else {
            seq![EffectView::MakeSink]
        }) + seq![EffectView::AppendAudio(b), EffectView::WaitUntilEnd],
        None => Seq::<EffectView>::empty(),
    }
}

/// The sentence a `Resume` retrieves: the stashed one, or the empty sentence
/// when nothing was stashed.
pub open spec fn stashed_or_empty(m: ManagerView) -> Seq<char> {
    match m.stash {
        Some(s) => s,
        None => Seq::<char>::empty(),
    }
}

/// The sink-directed effects of one command against the given state.
pub open spec fn command_sink_effects(m: ManagerView, cmd: CommandView) -> Seq<EffectView> {
    match cmd {
        CommandView::Play(e) => play_effects(m, e),
        CommandView::Pause(_) => if m.sink_present {
            seq![EffectView::PauseSink]
        } else {
            Seq::<EffectView>::empty()
        },
        CommandView::Stop => if m.sink_present {
            seq![EffectView::StopSink]
        } else {
            Seq::<EffectView>::empty()
        },
        CommandView::Resume => if m.sink_present {
            seq![EffectView::ResumeSink]
        } else {
            Seq::<EffectView>::empty()
        },
        CommandView::Clear => if m.sink_present {
            seq![EffectView::ClearSink]
        } else {
            Seq::<EffectView>::empty()
        },
    }
}

/// How one command changes the sink state. A `Play` whose payload decodes
/// leaves a live, drained sink behind; `Stop` destroys the sink and halts
/// playback; everything else leaves the sink state alone.
pub open spec fn command_sink_state(m: ManagerView, cmd: CommandView) -> ManagerView {
    match cmd {
        CommandView::Play(e) => match base64_decoding(e.audio_data) {
            Some(_) => ManagerView { sink_present: true, sink_empty: true, ..m },
            None => m,
        },
        CommandView::Stop => ManagerView { sink_present: false, sink_empty: true, ..m },
        _ => m,
    }
}

/// All effects of executing one command in the sequencer: the notification
/// comes first (the command's sentence for `Play`, the empty sentence for
/// `Pause` and `Stop`), a `Resume` reports the retrieved sentence, and the
/// sink effects follow.
pub open spec fn step_effects(m: ManagerView, cmd: CommandView) -> Seq<EffectView> {
    match cmd {
        CommandView::Play(e) => seq![EffectView::Notify(e.text_content)] + play_effects(m, e),
        CommandView::Pause(_) => seq![EffectView::Notify(Seq::<char>::empty())]
            + command_sink_effects(m, cmd),
        CommandView::Stop => seq![EffectView::Notify(Seq::<char>::empty())]
            + command_sink_effects(m, cmd),
        CommandView::Resume => seq![EffectView::RestoreSentence(stashed_or_empty(m))]
            + command_sink_effects(m, cmd),
        CommandView::Clear => command_sink_effects(m, cmd),
    }
}

/// The manager state after executing the command at the head of the queue:
/// the command is removed, `Pause` overwrites the stash with its sentence,
/// `Resume` empties the stash, and the sink state changes as
/// [`command_sink_state`] says.
pub open spec fn step_state(m: ManagerView, cmd: CommandView) -> ManagerView {
    let m1 = command_sink_state(m, cmd);
    let m2 = match cmd {
        CommandView::Pause(s) => ManagerView { stash: Some(s), ..m1 },
        CommandView::Resume => ManagerView { stash: None, ..m1 },
        _ => m1,
    };
    ManagerView { queue: m.queue.drop_first(), ..m2 }
}

/// Whether the command at the head of the queue must wait: a `Play` that
/// finds the sink busy is deferred, and the whole queue stalls behind it.
pub open spec fn deferred(m: ManagerView, cmd: CommandView) -> bool {
    &&& cmd is Play
    &&& !m.sink_empty
}

/// The sentence a `Play` announces; the empty sentence for anything else.
pub open spec fn announced_text(cmd: CommandView) -> Seq<char> {
    match cmd {
        CommandView::Play(e) => e.text_content,
        _ => Seq::<char>::empty(),
    }
}

/// The drain loop: commands are executed from the front of the queue in
/// submission order. A `Play` that finds the sink busy still announces its
/// sentence, but stays at the head of the queue and stops the drain; nothing
/// behind it runs until a later pass.
pub open spec fn drain(m: ManagerView) -> (ManagerView, Seq<EffectView>)
    decreases m.queue.len(),
{
    if m.queue.len() == 0 {
        (m, Seq::<EffectView>::empty())
    } else {
        let cmd = m.queue[0];
        if deferred(m, cmd) {
            (m, seq![EffectView::Notify(announced_text(cmd))])
        } else {
            let rest = drain(step_state(m, cmd));
            (rest.0, step_effects(m, cmd) + rest.1)
        }
    }
}

impl PlaybackManager {
    /// A fresh manager: empty queue, a live drained sink, nothing stashed,
    /// the sequencer idle.
    pub fn new() -> (m: PlaybackManager)
        ensures
            m@ == (ManagerView {
                queue: Seq::<CommandView>::empty(),
                sink_present: true,
                sink_empty: true,
                stash: None,
                is_idle: true,
            }),
    {
        let m = PlaybackManager {
            command_queue: VecDeque::new(),
            sink_present: true,
            sink_empty: true,
            sentence_stash: None,
            is_idle: true,
        };
        proof {
            assert(m@.queue =~= Seq::<CommandView>::empty());
        }
        m
    }

    /// Append one command at the tail of the pending queue. Always succeeds;
    /// nothing else changes.
    pub fn submit(&mut self, command: PlaybackCommand)
        ensures
            final(self)@ == (ManagerView {
                queue: old(self)@.queue.push(command@),
                ..old(self)@
            }),
    {
        let ghost cv = command@;
        self.command_queue.push_back(command);
        proof {
            assert(self@.queue =~= old(self)@.queue.push(cv));
        }
    }

    /// Execute one command against the sink state alone: the queue, the
    /// stash and the notifications are the sequencer's business, not this
    /// function's. Returns the sink effects to perform, in order, or
    /// [`PlaybackError::AudioDecode`] — exactly when the command is a `Play`
    /// whose payload is not decodable base64 — in which case nothing
    /// changes and nothing is to be done.
    pub fn handle_command(&mut self, command: PlaybackCommand) -> (r: Result<
        Vec<SinkEffect>,
        PlaybackError,
    >)
        ensures
            match r {
                Ok(fx) => {
                    &&& final(self)@ == command_sink_state(old(self)@, command@)
                    &&& effects_view(fx@) == command_sink_effects(old(self)@, command@)
                    &&& match command@ {
                        CommandView::Play(e) => base64_decoding(e.audio_data) is Some,
                        _ => true,
                    }
                },
                Err(e) => {
                    &&& e == PlaybackError::AudioDecode
                    &&& final(self)@ == old(self)@
                    &&& match command@ {
                        CommandView::Play(en) => base64_decoding(en.audio_data) is None,
                        _ => false,
                    }
                },
            },
    {
        let ghost cv = command@;
        let mut fx: Vec<SinkEffect> = Vec::new();
        match command {
            PlaybackCommand::Play(entry) => {
                match decode_base64(&entry.audio_data) {
                    Ok(bytes) => {
                        if !self.sink_present {
                            fx.push(SinkEffect::MakeSink);
                            self.sink_present = true;
                        }
                        fx.push(SinkEffect::AppendAudio(bytes));
                        self.sink_empty = false;
                        fx.push(SinkEffect::WaitUntilEnd);
                        self.sink_empty = true;
                        proof {
                            assert(effects_view(fx@) =~= command_sink_effects(old(self)@, cv));
                        }
                        Ok(fx)
                    },
                    Err(_) => Err(PlaybackError::AudioDecode),
                }
            },
            PlaybackCommand::Pause(_) => {
                if self.sink_present {
                    fx.push(SinkEffect::PauseSink);
                }
                proof {
                    assert(effects_view(fx@) =~= command_sink_effects(old(self)@, cv));
                }
                Ok(fx)
            },
            PlaybackCommand::Stop => {
                if self.sink_present {
                    fx.push(SinkEffect::StopSink);
                }
                self.sink_present = false;
                self.sink_empty = true;
                proof {
                    assert(effects_view(fx@) =~= command_sink_effects(old(self)@, cv));
                }
                Ok(fx)
            },
            PlaybackCommand::Resume => {
                if self.sink_present {
                    fx.push(SinkEffect::ResumeSink);
                }
                proof {
                    assert(effects_view(fx@) =~= command_sink_effects(old(self)@, cv));
                }
                Ok(fx)
            },
            PlaybackCommand::Clear => {
                if self.sink_present {
                    fx.push(SinkEffect::ClearSink);
                }
                proof {
                    assert(effects_view(fx@) =~= command_sink_effects(old(self)@, cv));
                }
                Ok(fx)
            },
        }
    }

    /// Drain the pending queue: execute the commands in submission order and
    /// return all effects for the device layer to perform, in order. A
    /// `Play` that finds the sink busy announces its sentence, is put back
    /// at the head of the queue, and the drain stops there; a `Play` whose
    /// payload does not decode is skipped and the drain goes on. The whole
    /// run is exactly what [`drain`] says of the starting state.
    pub fn process_command_queue(&mut self) -> (effects: Vec<SinkEffect>)
        ensures
            final(self)@ == drain(old(self)@).0,
            effects_view(effects@) == drain(old(self)@).1,
    {
        let ghost m0 = self@;
        let mut effects: Vec<SinkEffect> = Vec::new();
        loop
            invariant_except_break
                drain(self@).0 == drain(m0).0,
                effects_view(effects@) + drain(self@).1 == drain(m0).1,
            ensures
                self@ == drain(m0).0,
                effects_view(effects@) == drain(m0).1,
            decreases self.command_queue@.len(),
        {
            let ghost mh = self@;
            let ghost e0 = effects@;
            let popped = self.command_queue.pop_front();
            match popped {
                None => {
                    proof {
                        assert(effects_view(effects@) + drain(self@).1 =~= effects_view(
                            effects@,
                        ));
                    }
                    break ;
                },
                Some(cmd) => {
                    let ghost cmdv = cmd@;
                    proof {
                        assert(cmdv == mh.queue[0]);
                        assert(self@.queue =~= mh.queue.drop_first());
                    }
                    match cmd {
                        PlaybackCommand::Play(entry) => {
                            let ghost ev = entry@;
                            let text = entry.text_content.clone();
                            effects.push(SinkEffect::Notify(text));
                            if self.sink_empty {
                                let ghost mp = self@;
                                match self.handle_command(PlaybackCommand::Play(entry)) {
                                    Ok(mut fx) => {
                                        proof {
                                            assert(command_sink_effects(mp, cmdv)
                                                == command_sink_effects(mh, cmdv));
                                        }
                                        effects.append(&mut fx);
                                    },
                                    Err(_) => {},
                                }
                                proof {
                                    assert(self@ == step_state(mh, cmdv));
                                    assert(effects_view(effects@) =~= effects_view(e0)
                                        + step_effects(mh, cmdv));
                                }
                            } else {
                                self.command_queue.push_front(PlaybackCommand::Play(entry));
                                proof {
                                    assert(self@.queue =~= mh.queue);
                                    assert(self@ == mh);
                                    assert(deferred(mh, cmdv));
                                    assert(effects_view(effects@) =~= effects_view(e0) + seq![
                                        EffectView::Notify(announced_text(cmdv)),
                                    ]);
                                    assert(effects_view(effects@) == drain(m0).1);
                                }
                                break ;
                            }
                        },
                        PlaybackCommand::Pause(s) => {
                            let ghost sv = s@;
                            self.sentence_stash = Some(s.clone());
                            effects.push(SinkEffect::Notify(String::new()));
                            let ghost mp = self@;
                            match self.handle_command(PlaybackCommand::Pause(s)) {
                                Ok(mut fx) => {
                                    proof {
                                        assert(command_sink_effects(mp, cmdv)
                                            == command_sink_effects(mh, cmdv));
                                    }
                                    effects.append(&mut fx);
                                },
                                Err(_) => {},
                            }
                            proof {
                                assert(self@ == step_state(mh, cmdv));
                                assert(effects_view(effects@) =~= effects_view(e0) + step_effects(
                                    mh,
                                    cmdv,
                                ));
                            }
                        },
                        PlaybackCommand::Stop => {
                            effects.push(SinkEffect::Notify(String::new()));
                            let ghost mp = self@;
                            match self.handle_command(PlaybackCommand::Stop) {
                                Ok(mut fx) => {
                                    proof {
                                        assert(command_sink_effects(mp, cmdv)
                                            == command_sink_effects(mh, cmdv));
                                    }
                                    effects.append(&mut fx);
                                },
                                Err(_) => {},
                            }
                            proof {
                                assert(self@ == step_state(mh, cmdv));
                                assert(effects_view(effects@) =~= effects_view(e0) + step_effects(
                                    mh,
                                    cmdv,
                                ));
                            }
                        },
                        PlaybackCommand::Resume => {
                            let sentence: String = match &self.sentence_stash {
                                Some(s) => s.clone(),
                                None => String::new(),
                            };
                            self.sentence_stash = None;
                            effects.push(SinkEffect::RestoreSentence(sentence));
                            let ghost mp = self@;
                            match self.handle_command(PlaybackCommand::Resume) {
                                Ok(mut fx) => {
                                    proof {
                                        assert(command_sink_effects(mp, cmdv)
                                            == command_sink_effects(mh, cmdv));
                                    }
                                    effects.append(&mut fx);
                                },
                                Err(_) => {},
                            }
                            proof {
                                assert(self@ == step_state(mh, cmdv));
                                assert(effects_view(effects@) =~= effects_view(e0) + step_effects(
                                    mh,
                                    cmdv,
                                ));
                            }
                        },
                        PlaybackCommand::Clear => {
                            let ghost mp = self@;
                            match self.handle_command(PlaybackCommand::Clear) {
                                Ok(mut fx) => {
                                    proof {
                                        assert(command_sink_effects(mp, cmdv)
                                            == command_sink_effects(mh, cmdv));
                                    }
                                    effects.append(&mut fx);
                                },
                                Err(_) => {},
                            }
                            proof {
                                assert(self@ == step_state(mh, cmdv));
                                assert(effects_view(effects@) =~= effects_view(e0) + step_effects(
                                    mh,
                                    cmdv,
                                ));
                            }
                        },
                    }
                    proof {
                        let ms = step_state(mh, cmdv);
                        assert(drain(mh).0 == drain(ms).0);
                        assert(drain(mh).1 == step_effects(mh, cmdv) + drain(ms).1);
                        assert(effects_view(effects@) + drain(self@).1 =~= effects_view(e0) + (
                        step_effects(mh, cmdv) + drain(ms).1));
                        assert(effects_view(e0) + (step_effects(mh, cmdv) + drain(ms).1)
                            =~= effects_view(e0) + drain(mh).1);
                    }
                },
            }
        }
        effects
    }
}

} // verus!
