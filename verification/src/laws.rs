//! The laws of the sequencer, proved of [`drain`] for every starting state:
//! ordering, the pause/resume round trip, recovery after `Stop`, the
//! announcement discipline, and that one bad payload never blocks the queue.

use vstd::prelude::*;
use crate::codec::base64_decoding;
use crate::playback::AudioEntryView;
use crate::playback::CommandView;
use crate::playback::EffectView;
use crate::playback::ManagerView;
use crate::playback::announced_text;
use crate::playback::deferred;
use crate::playback::drain;
use crate::playback::play_effects;
use crate::playback::stashed_or_empty;
use crate::playback::step_effects;
use crate::playback::step_state;

verus! {

/// Execution order equals submission order: the drain consumes commands
/// strictly from the front of the queue, so what remains afterwards is a
/// suffix of the submitted queue — and it is nonempty only because a `Play`
/// at its head found the sink busy and was deferred, holding everything
/// behind it in place rather than being reordered past it.
pub proof fn lemma_execution_follows_submission(m: ManagerView)
    ensures
        drain(m).0.queue.len() <= m.queue.len(),
        drain(m).0.queue == m.queue.skip(m.queue.len() - drain(m).0.queue.len()),
        drain(m).0.queue.len() > 0 ==> drain(m).0.queue[0] is Play && !drain(m).0.sink_empty,
    decreases m.queue.len(),
{
    if m.queue.len() == 0 {
        assert(drain(m).0.queue =~= m.queue.skip(0));
    } else {
        let cmd = m.queue[0];
        if deferred(m, cmd) {
            assert(drain(m).0.queue =~= m.queue.skip(0));
        } else {
            let ms = step_state(m, cmd);
            lemma_execution_follows_submission(ms);
            let k = ms.queue.len() - drain(ms).0.queue.len();
            assert(ms.queue.skip(k) =~= m.queue.skip(k + 1));
        }
    }
}

/// A `Pause(s)` followed immediately by a `Resume` hands `s` back: the
/// sentence ferried through the stash survives the round trip whatever was
/// stashed before.
pub proof fn lemma_pause_resume_round_trip(m: ManagerView, s: Seq<char>)
    requires
        m.queue.len() >= 2,
        m.queue[0] == CommandView::Pause(s),
        m.queue[1] == CommandView::Resume,
    ensures
        ({
            let i: int = if m.sink_present { 2 } else { 1 };
            drain(m).1[i] == EffectView::RestoreSentence(s)
        }),
{
    let m1 = step_state(m, m.queue[0]);
    assert(m1.queue[0] == CommandView::Resume);
    assert(m1.stash == Some(s));
    assert(stashed_or_empty(m1) == s);
    let a = step_effects(m, m.queue[0]);
    let b = step_effects(m1, m1.queue[0]);
    assert(a.len() == if m.sink_present { 2int } else { 1int });
    assert(b[0] == EffectView::RestoreSentence(s));
    reveal_with_fuel(drain, 2);
    assert(m1.queue.len() >= 1);
    assert(drain(m1).1 == b + drain(step_state(m1, m1.queue[0])).1);
    assert(drain(m).1 == a + (b + drain(step_state(m1, m1.queue[0])).1));
}

/// A `Resume` with nothing stashed yields the empty sentence — it reports
/// at once rather than stalling the queue forever.
pub proof fn lemma_resume_without_pause(m: ManagerView)
    requires
        m.queue.len() >= 1,
        m.queue[0] == CommandView::Resume,
        m.stash is None,
    ensures
        drain(m).1[0] == EffectView::RestoreSentence(Seq::<char>::empty()),
{
    assert(stashed_or_empty(m) == Seq::<char>::empty());
    assert(step_effects(m, m.queue[0])[0] == EffectView::RestoreSentence(
        Seq::<char>::empty(),
    ));
}

/// After `Stop` the sink handle is gone, and a `Play` right behind it still
/// goes through: with a decodable payload it succeeds by constructing a
/// fresh sink, and either way the whole queue is executed — the manager is
/// never left in a half-stopped, unusable state.
pub proof fn lemma_stop_then_play(m: ManagerView, e: AudioEntryView)
    requires
        m.queue == seq![CommandView::Stop, CommandView::Play(e)],
    ensures
        !step_state(m, CommandView::Stop).sink_present,
        drain(m).0.queue.len() == 0,
        base64_decoding(e.audio_data) is Some ==> drain(m).1.contains(EffectView::MakeSink)
            && drain(m).0.sink_present,
{
    reveal_with_fuel(drain, 3);
    let m1 = step_state(m, m.queue[0]);
    assert(m1.queue[0] == CommandView::Play(e));
    assert(m1.sink_empty);
    assert(!m1.sink_present);
    let m2 = step_state(m1, m1.queue[0]);
    assert(m2.queue.len() == 0);
    assert(drain(m2).1 == Seq::<EffectView>::empty());
    assert(drain(m1).1 == step_effects(m1, m1.queue[0]) + drain(m2).1);
    assert(drain(m).1 == step_effects(m, m.queue[0]) + (step_effects(m1, m1.queue[0]) + Seq::<
        EffectView,
    >::empty()));
    if base64_decoding(e.audio_data) is Some {
        let a = step_effects(m, m.queue[0]);
        let b = step_effects(m1, m1.queue[0]);
        assert(b[1] == EffectView::MakeSink);
        assert(drain(m).1[a.len() as int + 1] == EffectView::MakeSink);
    }
}

/// A `Play` at the head of the queue announces its sentence on the
/// notification channel before anything else happens — whether the sink is
/// busy, absent, or the payload later fails to decode.
pub proof fn lemma_play_announces_first(m: ManagerView, e: AudioEntryView)
    requires
        m.queue.len() >= 1,
        m.queue[0] == CommandView::Play(e),
    ensures
        drain(m).1.len() >= 1,
        drain(m).1[0] == EffectView::Notify(e.text_content),
{
    if deferred(m, m.queue[0]) {
        assert(announced_text(m.queue[0]) == e.text_content);
    } else {
        assert(step_effects(m, m.queue[0])[0] == EffectView::Notify(e.text_content));
    }
}

/// Two `Play`s back to back with the sink drained never overlap: every
/// effect of the second — its announcement included — comes strictly after
/// the first has been appended and drained to the end.
pub proof fn lemma_plays_do_not_overlap(m: ManagerView, e1: AudioEntryView, e2: AudioEntryView)
    requires
        m.queue == seq![CommandView::Play(e1), CommandView::Play(e2)],
        m.sink_empty,
    ensures
        drain(m).1 == seq![EffectView::Notify(e1.text_content)] + play_effects(m, e1) + seq![
            EffectView::Notify(e2.text_content),
        ] + play_effects(step_state(m, m.queue[0]), e2),
        (m.sink_present && base64_decoding(e1.audio_data) is Some && base64_decoding(
            e2.audio_data,
        ) is Some) ==> drain(m).1 == seq![
            EffectView::Notify(e1.text_content),
            EffectView::AppendAudio(base64_decoding(e1.audio_data)->0),
            EffectView::WaitUntilEnd,
            EffectView::Notify(e2.text_content),
            EffectView::AppendAudio(base64_decoding(e2.audio_data)->0),
            EffectView::WaitUntilEnd,
        ],
{
    reveal_with_fuel(drain, 3);
    let m1 = step_state(m, m.queue[0]);
    assert(m1.queue[0] == CommandView::Play(e2));
    assert(m1.sink_empty);
    let m2 = step_state(m1, m1.queue[0]);
    assert(m2.queue.len() == 0);
    assert(drain(m2).1 == Seq::<EffectView>::empty());
    assert(drain(m1).1 == step_effects(m1, m1.queue[0]) + drain(m2).1);
    assert(drain(m).1 == step_effects(m, m.queue[0]) + (step_effects(m1, m1.queue[0]) + Seq::<
        EffectView,
    >::empty()));
    assert(drain(m).1 =~= seq![EffectView::Notify(e1.text_content)] + play_effects(m, e1) + seq![
        EffectView::Notify(e2.text_content),
    ] + play_effects(m1, e2));
    if m.sink_present && base64_decoding(e1.audio_data) is Some && base64_decoding(
        e2.audio_data,
    ) is Some {
        assert(m1.sink_present);
        assert(drain(m).1 =~= seq![
            EffectView::Notify(e1.text_content),
            EffectView::AppendAudio(base64_decoding(e1.audio_data)->0),
            EffectView::WaitUntilEnd,
            EffectView::Notify(e2.text_content),
            EffectView::AppendAudio(base64_decoding(e2.audio_data)->0),
            EffectView::WaitUntilEnd,
        ]);
    }
}

/// A malformed payload in one `Play` does not keep a well-formed `Play`
/// queued right behind it from executing: the second still has its audio
/// appended.
pub proof fn lemma_bad_payload_does_not_block(
    m: ManagerView,
    e1: AudioEntryView,
    e2: AudioEntryView,
)
    requires
        m.queue == seq![CommandView::Play(e1), CommandView::Play(e2)],
        m.sink_empty,
    ensures
        base64_decoding(e2.audio_data) is Some ==> drain(m).1.contains(EffectView::AppendAudio(
            base64_decoding(e2.audio_data)->0,
        )),
{
    reveal_with_fuel(drain, 3);
    let m1 = step_state(m, m.queue[0]);
    assert(m1.queue[0] == CommandView::Play(e2));
    assert(m1.sink_empty);
    if base64_decoding(e2.audio_data) is Some {
        let m2 = step_state(m1, m1.queue[0]);
        assert(m2.queue.len() == 0);
        let a = step_effects(m, m.queue[0]);
        let b = step_effects(m1, m1.queue[0]);
        let fx = drain(m).1;
        assert(drain(m2).1 == Seq::<EffectView>::empty());
        assert(drain(m1).1 == b + drain(m2).1);
        assert(fx == a + (b + Seq::<EffectView>::empty()));
        let j: int = b.len() - 2;
        assert(b[j] == EffectView::AppendAudio(base64_decoding(e2.audio_data)->0));
        assert(fx[a.len() as int + j] == EffectView::AppendAudio(base64_decoding(e2.audio_data)->0));
    }
}

} // verus!
