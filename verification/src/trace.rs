//! What a whole run of the poller does: the effects of any sequence of
//! signals, and what holds of the entries among them.

use vstd::prelude::*;
use crate::poller::EffectView;
use crate::poller::Phase;
use crate::poller::PollerView;
use crate::poller::ReadOutcomeView;
use crate::poller::Request;
use crate::poller::SignalView;
use crate::text::utf8_lossy;

verus! {

/// The poller after it took `signals`, one after the other, from `start`.
pub open spec fn state_after(start: PollerView, signals: Seq<SignalView>) -> PollerView
    decreases signals.len(),
{
    if signals.len() == 0 {
        start
    } else {
        state_after(start, signals.drop_last()).step(signals.last()).0
    }
}

/// The effects of those steps, one for each signal.
pub open spec fn effects_of(start: PollerView, signals: Seq<SignalView>) -> Seq<EffectView>
    decreases signals.len(),
{
    if signals.len() == 0 {
        Seq::empty()
    } else {
        effects_of(start, signals.drop_last()).push(
            state_after(start, signals.drop_last()).step(signals.last()).1,
        )
    }
}

/// The entries that `effects` hand to the consumer, in their order.
pub open spec fn emitted(effects: Seq<EffectView>) -> Seq<Seq<char>>
    decreases effects.len(),
{
    if effects.len() == 0 {
        Seq::empty()
    } else {
        match effects.last() {
            EffectView::Capture { entry, persist } => emitted(effects.drop_last()).push(entry),
            _ => emitted(effects.drop_last()),
        }
    }
}

/// The entries that `effects` hand to the store, in their order.
pub open spec fn persisted(effects: Seq<EffectView>) -> Seq<Seq<char>>
    decreases effects.len(),
{
    if effects.len() == 0 {
        Seq::empty()
    } else {
        match effects.last() {
            EffectView::Capture { entry, persist } => if persist {
                persisted(effects.drop_last()).push(entry)
            } else {
                persisted(effects.drop_last())
            },
            _ => persisted(effects.drop_last()),
        }
    }
}

/// The texts that the poller read from the clipboard on the way: one for
/// each reading that it was waiting for and that came back with contents.
pub open spec fn texts_read(start: PollerView, signals: Seq<SignalView>) -> Seq<Seq<char>>
    decreases signals.len(),
{
    if signals.len() == 0 {
        Seq::empty()
    } else {
        let earlier = texts_read(start, signals.drop_last());
        match signals.last() {
            SignalView::Read(ReadOutcomeView::Contents(bytes)) => if state_after(
                start,
                signals.drop_last(),
            ).phase == Phase::Reading {
                earlier.push(utf8_lossy(bytes))
            } else {
                earlier
            },
            _ => earlier,
        }
    }
}

/// The latest of `texts`, or `before` where there is none.
pub open spec fn latest(before: Option<Seq<char>>, texts: Seq<Seq<char>>) -> Option<Seq<char>> {
    if texts.len() == 0 {
        before
    } else {
        Some(texts.last())
    }
}

/// `texts` without repeats: a text stays exactly if it differs from the one
/// just before it, the first one from `before`.
pub open spec fn collapse(before: Option<Seq<char>>, texts: Seq<Seq<char>>) -> Seq<Seq<char>>
    decreases texts.len(),
{
    if texts.len() == 0 {
        Seq::empty()
    } else if latest(before, texts.drop_last()) == Some(texts.last()) {
        collapse(before, texts.drop_last())
    } else {
        collapse(before, texts.drop_last()).push(texts.last())
    }
}

/// No signal wakes the poller, and every sample of the switch finds private
/// mode on.
pub open spec fn suspended(signals: Seq<SignalView>) -> bool {
    forall|i: int|
        0 <= i < signals.len() ==> match #[trigger] signals[i] {
            SignalView::Gate(private_mode) => private_mode,
            SignalView::Wake => false,
            _ => true,
        }
}

/// Every sample of the switch finds private mode on.
pub open spec fn private_throughout(signals: Seq<SignalView>) -> bool {
    forall|i: int|
        0 <= i < signals.len() ==> match #[trigger] signals[i] {
            SignalView::Gate(private_mode) => private_mode,
            _ => true,
        }
}

/// How many of `signals` are wake notifications.
pub open spec fn wakes(signals: Seq<SignalView>) -> nat
    decreases signals.len(),
{
    if signals.len() == 0 {
        0
    } else if signals.last() is Wake {
        wakes(signals.drop_last()) + 1
    } else {
        wakes(signals.drop_last())
    }
}

/// How many readings a poller in this phase has under way: one if it is
/// past the sample of the switch, none if it is before it.
pub open spec fn in_flight(phase: Phase) -> nat {
    match phase {
        Phase::Idle => 0,
        Phase::Parked => 0,
        Phase::Ticking => 1,
        Phase::Reading => 1,
    }
}

/// The poller remembers the text that it read last.
proof fn lemma_last_is_latest_read(start: PollerView, signals: Seq<SignalView>)
    ensures
        state_after(start, signals).last == latest(start.last, texts_read(start, signals)),
    decreases signals.len(),
{
    if signals.len() > 0 {
        lemma_last_is_latest_read(start, signals.drop_last());
    }
}

/// Deduplication: whatever the signals, the entries emitted are the texts
/// read, with every run of equal texts collapsed into its first.
pub proof fn lemma_emitted_collapses_reads(start: PollerView, signals: Seq<SignalView>)
    ensures
        emitted(effects_of(start, signals)) == collapse(start.last, texts_read(start, signals)),
    decreases signals.len(),
{
    if signals.len() > 0 {
        let earlier = signals.drop_last();
        lemma_emitted_collapses_reads(start, earlier);
        lemma_last_is_latest_read(start, earlier);
        let effects = effects_of(start, signals);
        assert(effects.drop_last() == effects_of(start, earlier));
        let texts = texts_read(start, signals);
        if texts.len() > texts_read(start, earlier).len() {
            assert(texts.drop_last() == texts_read(start, earlier));
        }
    }
}

/// No entry is emitted twice in a row: each differs from the one emitted
/// before it, and the first from what the poller had captured at the start.
/// The poller remembers the entry that it emitted last.
pub proof fn lemma_emitted_never_repeats(start: PollerView, signals: Seq<SignalView>)
    ensures
        forall|i: int|
            0 < i < emitted(effects_of(start, signals)).len() ==> emitted(
                effects_of(start, signals),
            )[i - 1] != #[trigger] emitted(effects_of(start, signals))[i],
        emitted(effects_of(start, signals)).len() > 0 ==> start.last != Some(
            emitted(effects_of(start, signals))[0],
        ),
        state_after(start, signals).last == latest(
            start.last,
            emitted(effects_of(start, signals)),
        ),
    decreases signals.len(),
{
    if signals.len() > 0 {
        let earlier = signals.drop_last();
        lemma_emitted_never_repeats(start, earlier);
        assert(effects_of(start, signals).drop_last() == effects_of(start, earlier));
    }
}

/// Ordering: the store is handed the emitted entries, in the order of their
/// emission, where the poller persists; and nothing where it does not.
pub proof fn lemma_persisted_follows_emitted(start: PollerView, signals: Seq<SignalView>)
    ensures
        state_after(start, signals).persist == start.persist,
        persisted(effects_of(start, signals)) == if start.persist {
            emitted(effects_of(start, signals))
        } else {
            Seq::empty()
        },
    decreases signals.len(),
{
    if signals.len() > 0 {
        let earlier = signals.drop_last();
        lemma_persisted_follows_emitted(start, earlier);
        let effects = effects_of(start, signals);
        assert(effects.drop_last() == effects_of(start, earlier));
    }
}

/// Suspension: a poller that is idle or parked, is not woken and finds
/// private mode on whenever it samples the switch, never asks for a reading,
/// has nothing for the shell to do, and keeps what it had captured, however
/// many ticks pass and whatever the clipboard holds.
pub proof fn lemma_suspended_emits_nothing(start: PollerView, signals: Seq<SignalView>)
    requires
        start.phase == Phase::Idle || start.phase == Phase::Parked,
        suspended(signals),
    ensures
        state_after(start, signals).phase == Phase::Idle || state_after(start, signals).phase
            == Phase::Parked,
        state_after(start, signals).last == start.last,
        effects_of(start, signals).len() == signals.len(),
        forall|i: int|
            0 <= i < signals.len() ==> #[trigger] effects_of(start, signals)[i]
                == EffectView::Nothing,
        emitted(effects_of(start, signals)) == Seq::<Seq<char>>::empty(),
    decreases signals.len(),
{
    if signals.len() > 0 {
        let earlier = signals.drop_last();
        lemma_suspended_emits_nothing(start, earlier);
        assert(effects_of(start, signals).drop_last() == effects_of(start, earlier));
    }
}

/// While private mode is on, the poller reads only when it is woken: the
/// entries that it emits are no more than the wake notifications among the
/// signals, and one more where a reading was under way at the start.
pub proof fn lemma_private_mode_emits_only_when_woken(
    start: PollerView,
    signals: Seq<SignalView>,
)
    requires
        private_throughout(signals),
    ensures
        emitted(effects_of(start, signals)).len() + in_flight(state_after(start, signals).phase)
            <= wakes(signals) + in_flight(start.phase),
    decreases signals.len(),
{
    if signals.len() > 0 {
        let earlier = signals.drop_last();
        lemma_private_mode_emits_only_when_woken(start, earlier);
        assert(effects_of(start, signals).drop_last() == effects_of(start, earlier));
    }
}

/// Resumption: an idle poller that finds private mode off asks for a reading
/// as soon as one tick has passed.
pub proof fn lemma_active_reads_after_one_tick(start: PollerView)
    requires
        start.phase == Phase::Idle,
    ensures
        start.step(SignalView::Gate(false)).0.request() == Request::Tick,
        start.step(SignalView::Gate(false)).0.step(SignalView::Tick).0.request() == Request::Read,
        state_after(start, seq![SignalView::Gate(false), SignalView::Tick]).request()
            == Request::Read,
{
    reveal_with_fuel(state_after, 3);
}

} // verus!
