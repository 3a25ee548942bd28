//! What holds of the ways a batch is decoded.
//!
//! A request joins a batch the way the batch is decoded, drafts are never made from a state that
//! has fallen behind, what is counted and published is what was done, and what a window cost is
//! reported when it ends.
use vstd::prelude::*;

use crate::hybrid_mode::{HybridStage, HybridView};
use crate::lookup_mode::{LookupModeView, LookupStage};
use crate::lookup_window::{
    HybridDraftSource, PromptLookupWindowDecision, WindowEffect, WindowFactsView,
};
use crate::mode_types::{
    MidAdmitKind, ModeAction, ModeEffect, ModeEvent, ModeFactsView, ModeTurnView, NeuralFacts,
};
use crate::modes::{ModeChoice, ModeView};
use crate::neural_mode::{NeuralStage, SchedulerActorMtp};
use crate::prompt_lookup::PromptLookupCostAction;
use crate::speculative::{NeuralExactAction, NeuralExactSource};

verus! {

/// A count after one more, held at the largest count.
pub open spec fn and_one(count: u64) -> int {
    if count < u64::MAX {
        count + 1
    } else {
        u64::MAX as int
    }
}

/// A request joins a batch the way the batch is decoded: with draft state where the batch has some,
/// and plainly where it has none. A draft head is only joined once it is known that the longer
/// batch can be verified; otherwise the drafts are retired first, and then the request joins
/// plainly. What was measured of the batch before no longer counts.
pub proof fn lemma_joining_matches_the_batch(s: SchedulerActorMtp, event: ModeEvent, f: NeuralFacts)
    ensures
        s.mid_begun(f).1.action == match (f.stats, s.source) {
            (None, _) => ModeAction::BeginMid { kind: MidAdmitKind::Generic },
            (Some(_), NeuralExactSource::Gemma4Assistant) => ModeAction::BeginMid {
                kind: MidAdmitKind::Draft,
            },
            (Some(_), NeuralExactSource::QwenMtp) => ModeAction::AskRollingVerify,
        },
        s.mid_begun(f).0.exact_episode is None,
        s.stage == NeuralStage::MidVerifying ==> s.after_event(
            ModeEvent::Eligible { eligible: true },
            f,
        ).1.action == (ModeAction::BeginMid { kind: MidAdmitKind::Draft }),
        s.stage == NeuralStage::MidVerifying ==> s.after_event(
            ModeEvent::Eligible { eligible: false },
            f,
        ).1.action == ModeAction::Retire,
        s.stage == NeuralStage::MidRetiring ==> s.after_event(ModeEvent::Done, f).1.action == (
        ModeAction::BeginMid { kind: MidAdmitKind::Generic }),
        s.stage.awaits(event) && s.after_event(event, f).1.action == (ModeAction::BeginMid {
            kind: MidAdmitKind::Generic,
        }) ==> s.stage == NeuralStage::MidRetiring,
        s.stage.awaits(event) && s.after_event(event, f).1.action == (ModeAction::BeginMid {
            kind: MidAdmitKind::Draft,
        }) ==> event == (ModeEvent::Eligible { eligible: true }),
{
}

/// A request joins the running rows the way it was begun, and the drafts that it joined with are
/// read.
pub proof fn lemma_joined_the_way_it_began(s: SchedulerActorMtp, kind: MidAdmitKind, ok: bool, f: NeuralFacts)
    ensures
        ({
            let (begun, turn) = s.finalizing(kind);
            let (after, done) = begun.after_event(ModeEvent::Finalized { ok }, f);
            &&& turn.action == (ModeAction::FinalizeMid { kind })
            &&& turn.effects.len() == 0
            &&& done.action == ModeAction::Done
            &&& after.stage == NeuralStage::Idle
            &&& done.effects == if kind == MidAdmitKind::Draft {
                seq![ModeEffect::StoreNeuralStats]
            } else {
                Seq::<ModeEffect>::empty()
            }
        }),
{
}

/// A fresh batch is prefilled with drafts exactly where it is fit for them, the cost controller of
/// a measured batch does not want it ordinary, and a draft head can verify them.
pub proof fn lemma_fit_batches_are_drafted(
    s: SchedulerActorMtp,
    answer: NeuralExactAction,
    eligible: bool,
    f: NeuralFacts,
)
    ensures
        ({
            let measured = s.qualified && f.exact_regime is Some;
            let begun = s.prefill_begun(f).1.action;
            let direct = if !f.fresh_eligible {
                ModeAction::Prefill
            } else if s.source == NeuralExactSource::QwenMtp {
                ModeAction::AskFreshVerify
            } else {
                ModeAction::PrefillDraft
            };
            &&& measured ==> begun == (ModeAction::AskExactAction { regime: f.exact_regime->0 })
            &&& !measured ==> begun == direct
            &&& s.stage == NeuralStage::PrefillAsking ==> s.after_event(
                ModeEvent::ExactAction(answer),
                f,
            ).1.action == if answer == NeuralExactAction::Exact {
                direct
            } else {
                ModeAction::Prefill
            }
            &&& s.stage is PrefillVerifying ==> s.after_event(
                ModeEvent::Eligible { eligible },
                f,
            ).1.action == if eligible {
                ModeAction::PrefillDraft
            } else {
                ModeAction::Prefill
            }
        }),
{
}

/// A batch is stepped with drafts exactly where it has draft state and its cost controller does not
/// want it ordinary. A draft head is asked about before each window; where it cannot be verified,
/// its drafts are read and retired, and without draft state the step is plain. A draft head makes
/// no drafts ahead while a request waits to join.
pub proof fn lemma_drafted_batches_are_stepped_with_drafts(
    s: SchedulerActorMtp,
    pending: bool,
    eligible: bool,
    f: NeuralFacts,
)
    ensures
        ({
            let exact = match s.exact_episode {
                Some(episode) => episode.action == NeuralExactAction::Exact,
                None => true,
            };
            let head = s.source == NeuralExactSource::QwenMtp;
            let step = |waiting: bool|
                if exact && f.stats is Some {
                    ModeAction::StepDraft { postfill: !head || !waiting }
                } else {
                    ModeAction::StepPlain
                };
            let begun = s.step_begun(pending, f).1.action;
            &&& head && exact && f.stats is Some && f.at_boundary ==> begun
                == ModeAction::AskNextWindowVerify
            &&& !(head && exact && f.stats is Some && f.at_boundary) ==> begun == step(pending)
            &&& s.stage matches NeuralStage::StepVerifying { admission_pending } ==> {
                let (after, turn) = s.after_event(ModeEvent::Eligible { eligible }, f);
                if eligible {
                    turn.action == step(admission_pending)
                } else {
                    &&& turn.action == ModeAction::Retire
                    &&& turn.effects == seq![ModeEffect::StoreNeuralStats]
                    &&& after.after_event(ModeEvent::Done, f).1.action == step(admission_pending)
                }
            }
        }),
{
}

/// Prefills, prefills without drafts and drafted steps are counted exactly when they are asked for.
pub proof fn lemma_neural_work_is_counted(
    s: SchedulerActorMtp,
    pending: bool,
    kind: MidAdmitKind,
    event: ModeEvent,
    f: NeuralFacts,
)
    requires
        s.stage.awaits(event),
    ensures
        counted_as_asked(s.prefill_begun(f).1),
        counted_as_asked(s.step_begun(pending, f).1),
        counted_as_asked(s.mid_begun(f).1),
        counted_as_asked(s.finalizing(kind).1),
        counted_as_asked(s.after_event(event, f).1),
{
    assert(seq![ModeEffect::CountPrefill][0] == ModeEffect::CountPrefill);
    assert(seq![ModeEffect::CountPrefillFallback][0] == ModeEffect::CountPrefillFallback);
    assert(seq![ModeEffect::CountStep][0] == ModeEffect::CountStep);
}

/// Whether a turn of a drafted mode counts what it asks for, and nothing else.
pub open spec fn counted_as_asked(turn: ModeTurnView) -> bool {
    &&& turn.effects.contains(ModeEffect::CountPrefill) == (turn.action == ModeAction::PrefillDraft)
    &&& turn.effects.contains(ModeEffect::CountPrefillFallback) == (turn.action
        == ModeAction::Prefill)
    &&& turn.effects.contains(ModeEffect::CountStep) == (turn.action is StepDraft)
}

/// The draft statistics are read after every prefill and step that drafted, and after no other.
/// Either ends the operation.
pub proof fn lemma_drafted_work_is_read(
    s: SchedulerActorMtp,
    events: usize,
    elapsed_ns: u64,
    f: NeuralFacts,
)
    requires
        s.stage is Prefilling || s.stage is Stepping,
    ensures
        ({
            let (after, turn) = s.after_event(ModeEvent::Stepped { events, elapsed_ns }, f);
            let drafted = match s.stage {
                NeuralStage::Prefilling { drafted, .. } => drafted,
                NeuralStage::Stepping { drafted } => drafted,
                _ => false,
            };
            &&& turn.action == ModeAction::Done
            &&& after.stage == NeuralStage::Idle
            &&& turn.effects.contains(ModeEffect::StoreNeuralStats) == drafted
        }),
{
    let turn = s.after_event(ModeEvent::Stepped { events, elapsed_ns }, f).1;
    let drafted = match s.stage {
        NeuralStage::Prefilling { drafted, .. } => drafted,
        NeuralStage::Stepping { drafted } => drafted,
        _ => false,
    };
    if drafted {
        assert(turn.effects[0] == ModeEffect::StoreNeuralStats);
    }
}

/// Where the cost of a batch is measured, its prefill begins an episode with the regime and the
/// decision that the prefill was asked for, the tokens and the time that it took, and the statistics
/// from before it. An episode that goes on adds up time and tokens.
pub proof fn lemma_measured_batch_is_followed(
    s: SchedulerActorMtp,
    events: usize,
    elapsed_ns: u64,
    f: NeuralFacts,
)
    requires
        !f.finished,
    ensures
        ({
            let after = s.after_event(ModeEvent::Stepped { events, elapsed_ns }, f).0;
            &&& s.stage matches NeuralStage::Prefilling { action, regime, stats_before, .. }
                ==> s.qualified ==> (regime matches Some(regime) ==> (
            after.exact_episode matches Some(episode) && {
                &&& episode.regime == regime
                &&& episode.action == action
                &&& episode.elapsed_ns == elapsed_ns
                &&& episode.committed_tokens == events
                &&& episode.stats_before == stats_before
            }))
            &&& s.stage is Stepping ==> match (s.exact_episode, after.exact_episode) {
                (Some(before), Some(episode)) => {
                    &&& episode.regime == before.regime
                    &&& episode.action == before.action
                    &&& episode.stats_before == before.stats_before
                    &&& before.elapsed_ns + elapsed_ns <= u64::MAX ==> episode.elapsed_ns
                        == before.elapsed_ns + elapsed_ns
                    &&& before.committed_tokens + events <= usize::MAX
                        ==> episode.committed_tokens == before.committed_tokens + events
                },
                (None, None) => true,
                _ => false,
            }
        }),
{
}

/// In a hybrid with a native draft head, no request joins while the draft state has fallen behind:
/// before anything else, the state is rebuilt. The rebuild is counted, what the lookup windows cost
/// is recorded, and only then is the draft head asked about or the request begun.
pub proof fn lemma_joining_rebuilds_stale_drafts(s: HybridView, nanos: u128, f: ModeFactsView)
    requires
        s.neural.source == NeuralExactSource::QwenMtp,
        s.neural_dirty,
    ensures
        ({
            let (begun, turn) = s.mid_begun(true, f);
            let (after, next) = begun.after_event(ModeEvent::Rebased { nanos }, f);
            &&& turn.action == ModeAction::Rebase
            &&& turn.effects.len() == 0
            &&& begun.neural_dirty
            &&& !after.neural_dirty
            &&& after.lookup_episode is None
            &&& after.measured_cycle is None
            &&& after.current_source == Some(HybridDraftSource::Neural)
            &&& after.stats.neural_rebases == and_one(s.stats.neural_rebases)
            &&& next.action == if f.neural.stats is Some {
                ModeAction::AskRollingVerify
            } else {
                ModeAction::BeginMid { kind: MidAdmitKind::Generic }
            }
            &&& next.transition is Some == s.lookup_episode is Some
            &&& s.lookup_episode matches Some(episode) ==> {
                &&& next.effects.len() > 0 && next.effects[0] == ModeEffect::RecordTransition
                &&& next.transition->0.regimes == episode.regimes
                &&& next.transition->0.committed_tokens == episode.committed_tokens
                &&& nanos <= u64::MAX ==> next.transition->0.elapsed_ns == nanos
            }
        }),
{
}

/// With a draft state that is up to date, or with a separate draft model, a greedy request joins a
/// hybrid as it joins a batch with neural drafts alone. Others are refused.
pub proof fn lemma_hybrid_is_joined_like_its_drafts(s: HybridView, f: ModeFactsView)
    requires
        s.neural.source != NeuralExactSource::QwenMtp || !s.neural_dirty,
    ensures
        s.mid_begun(true, f).1.action == match (f.neural.stats, s.neural.source) {
            (None, _) => ModeAction::BeginMid { kind: MidAdmitKind::Generic },
            (Some(_), NeuralExactSource::Gemma4Assistant) => ModeAction::BeginMid {
                kind: MidAdmitKind::Draft,
            },
            (Some(_), NeuralExactSource::QwenMtp) => ModeAction::AskRollingVerify,
        },
        s.mid_begun(false, f).1.action == ModeAction::Refuse,
{
}

/// A request that joined a hybrid is put into the lookup index, and then the batch begins anew: with
/// neural drafts that are up to date, nothing measured, and nothing learned of the batch before. A
/// separate draft model that has fallen behind is rebuilt first. One that could not join changes
/// nothing.
pub proof fn lemma_joined_hybrid_begins_anew(s: HybridView, nanos: u128, f: ModeFactsView)
    ensures
        s.stage == HybridStage::Finalizing ==> s.after_event(
            ModeEvent::Finalized { ok: true },
            f,
        ).1.action == ModeAction::RegisterLookup,
        s.stage == HybridStage::Finalizing ==> s.after_event(
            ModeEvent::Finalized { ok: false },
            f,
        ).1.action == ModeAction::Done,
        s.stage == HybridStage::Registering ==> {
            let (after, turn) = s.after_event(ModeEvent::Done, f);
            if s.neural.source == NeuralExactSource::Gemma4Assistant && s.neural_dirty {
                let (rebuilt, done) = after.after_event(ModeEvent::Rebased { nanos }, f);
                &&& turn.action == ModeAction::Rebase
                &&& anew(rebuilt)
                &&& !rebuilt.neural_dirty
                &&& rebuilt.stats.neural_rebases == and_one(s.stats.neural_rebases)
                &&& done.action == ModeAction::Done
            } else {
                &&& turn.action == ModeAction::Done
                &&& anew(after)
                &&& after.neural_dirty == s.neural_dirty
            }
        },
        s.stage == HybridStage::Initializing ==> {
            let (after, turn) = s.after_event(ModeEvent::Done, f);
            &&& turn.action == ModeAction::Done
            &&& anew(after)
            &&& !after.neural_dirty
        },
{
}

/// Whether nothing is known of the batch yet but that it has neural drafts.
pub open spec fn anew(s: HybridView) -> bool {
    &&& s.current_source == Some(HybridDraftSource::Neural)
    &&& s.measured_cycle is None
    &&& s.lookup_episode is None
    &&& s.window.query_hint is None
    &&& s.window.miss_query_hint is None
    &&& s.stage == HybridStage::Idle
}

/// A hybrid batch that has no draft state is stepped without drafts. A native draft head is asked
/// about before each window, and where it cannot be verified, its drafts are read and retired and
/// the step is ordinary. Within a window the step goes on with the source of the window.
pub proof fn lemma_hybrid_steps_with_what_it_has(s: HybridView, pending: bool, f: ModeFactsView)
    ensures
        ({
            let head = s.neural.source == NeuralExactSource::QwenMtp;
            let begun = s.step_begun(pending, f).1;
            let source = match s.current_source {
                Some(source) => source,
                None => HybridDraftSource::Neural,
            };
            let ended = match source {
                HybridDraftSource::Neural => f.neural.at_boundary,
                HybridDraftSource::PromptLookup => f.lookup_boundary,
            };
            &&& f.neural.stats is None ==> begun.action == if head {
                ModeAction::StepLookupOrdinary
            } else {
                ModeAction::StepPlain
            }
            &&& f.neural.stats is Some && head && f.neural.at_boundary ==> begun.action
                == ModeAction::AskNextWindowVerify
            &&& f.neural.stats is Some && !(head && f.neural.at_boundary) && (
            s.measured_cycle is Some || !ended) ==> {
                &&& begun.action == match (source, s.neural.source) {
                    (HybridDraftSource::Neural, _) => ModeAction::StepDraft { postfill: false },
                    (
                        HybridDraftSource::PromptLookup,
                        NeuralExactSource::QwenMtp,
                    ) => ModeAction::StepLookupWithVerify,
                    (
                        HybridDraftSource::PromptLookup,
                        NeuralExactSource::Gemma4Assistant,
                    ) => ModeAction::StepLookupWindow,
                }
                &&& begun.effects == seq![ModeEffect::CountStep]
            }
            &&& s.stage is NextVerifying ==> {
                let (after, turn) = s.after_event(ModeEvent::Eligible { eligible: false }, f);
                &&& turn.action == ModeAction::Retire
                &&& turn.effects == seq![ModeEffect::StoreNeuralStats]
                &&& after.after_event(ModeEvent::Done, f).1.action
                    == ModeAction::StepLookupOrdinary
            }
        }),
{
    let begun = s.step_begun(pending, f).1;
    if begun.effects.len() == 1 {
        assert(begun.effects =~= seq![begun.effects[0]]);
    }
}

/// While a request waits to join, no lookup window begins: the next window is neural, with its
/// state rebuilt first if it has fallen behind.
pub proof fn lemma_waiting_request_gets_a_neural_window(s: HybridView, f: ModeFactsView)
    requires
        f.neural.stats is Some,
        s.neural.source == NeuralExactSource::QwenMtp ==> !f.neural.at_boundary,
        s.measured_cycle is None,
        match s.current_source {
            Some(HybridDraftSource::PromptLookup) => f.lookup_boundary,
            _ => f.neural.at_boundary,
        },
    ensures
        s.step_begun(true, f).1.action == if s.neural_dirty {
            ModeAction::Rebase
        } else {
            ModeAction::StepDraft { postfill: false }
        },
{
}

/// Which window follows from a choice. A lookup window runs on lookup drafts and leaves the draft
/// state alone; one that the native head verifies on its canonical target, and every neural one,
/// needs a draft state that is up to date, so that one which has fallen behind is rebuilt first.
pub proof fn lemma_chosen_window_is_run(
    s: HybridView,
    decision: PromptLookupWindowDecision,
    fx: Seq<ModeEffect>,
    f: ModeFactsView,
)
    ensures
        ({
            let (after, turn) = s.decided(decision, fx, f);
            let lookup = decision.action == PromptLookupCostAction::Lookup;
            let head = s.neural.source == NeuralExactSource::QwenMtp;
            let action = turn.action;
            &&& !lookup && s.neural_dirty ==> action == ModeAction::Rebase
            &&& !lookup && !s.neural_dirty ==> action == (ModeAction::StepDraft { postfill: false })
            &&& lookup && !head ==> action == ModeAction::StepLookupWindow
            &&& lookup && head ==> action == ModeAction::StepLookupWithVerify || action
                == ModeAction::StepDraftObserving || action == ModeAction::Rebase
            &&& action == ModeAction::Rebase ==> s.neural_dirty
            &&& action == ModeAction::StepDraftObserving ==> !s.neural_dirty
            &&& after.current_source == Some(
                if lookup && !(after.stage matches HybridStage::Stepping { canonical, .. }
                    && canonical) && !(after.stage matches HybridStage::Rebasing { canonical, .. }
                    && canonical) {
                    HybridDraftSource::PromptLookup
                } else {
                    HybridDraftSource::Neural
                },
            )
            &&& !lookup ==> turn.effects.contains(ModeEffect::Window(WindowEffect::Discard))
            &&& after.stats.lookup_miss_fallbacks == if !lookup && decision.fallback_to_baseline {
                and_one(s.stats.lookup_miss_fallbacks)
            } else {
                s.stats.lookup_miss_fallbacks as int
            }
            &&& after.stats.source_switches == if s.current_source is Some && s.current_source
                != after.current_source {
                and_one(s.stats.source_switches)
            } else {
                s.stats.source_switches as int
            }
        }),
{
    let turn = s.decided(decision, fx, f).1;
    if decision.action != PromptLookupCostAction::Lookup {
        assert(turn.effects[fx.len() as int] == ModeEffect::Window(WindowEffect::Discard));
    }
}

/// A rebuild before a window brings the draft state up to date, is counted, settles the cost of the
/// lookup windows before it, and is followed by the window that was chosen.
pub proof fn lemma_rebuilt_drafts_run_the_window(s: HybridView, nanos: u128, f: ModeFactsView)
    requires
        s.stage is Rebasing,
    ensures
        ({
            let (after, turn) = s.after_event(ModeEvent::Rebased { nanos }, f);
            &&& !after.neural_dirty
            &&& after.lookup_episode is None
            &&& after.stats.neural_rebases == and_one(s.stats.neural_rebases)
            &&& turn.transition is Some == s.lookup_episode is Some
            &&& s.lookup_episode is Some ==> turn.effects[0] == ModeEffect::RecordTransition
            &&& s.stage matches HybridStage::Rebasing { source, canonical, .. } ==> turn.action
                == match source {
                HybridDraftSource::Neural => ModeAction::StepDraft { postfill: false },
                HybridDraftSource::PromptLookup => if canonical {
                    ModeAction::StepDraftObserving
                } else if s.neural.source == NeuralExactSource::QwenMtp {
                    ModeAction::StepLookupWithVerify
                } else {
                    ModeAction::StepLookupWindow
                },
            }
        }),
{
}

/// After a neural step the lookup index is brought up to date with what was decoded, before the step
/// counts as done. A lookup window that could not be run falls back to a neural one.
pub proof fn lemma_neural_steps_feed_the_index(s: HybridView, events: usize, elapsed_ns: u64, f: ModeFactsView)
    ensures
        s.stage matches HybridStage::Stepping { source, .. } && source == HybridDraftSource::Neural
            ==> s.after_event(ModeEvent::Stepped { events, elapsed_ns }, f).1.action
            == ModeAction::CommitLookup,
        s.stage == HybridStage::FallbackStepping ==> s.after_event(
            ModeEvent::Stepped { events, elapsed_ns },
            f,
        ).1.action == ModeAction::CommitLookup,
        s.stage is Stepping ==> s.after_event(ModeEvent::FallbackToNeural, f).1.action == (
        ModeAction::StepDraft { postfill: false }),
{
}

/// What a step does to a hybrid, however it came out. At the end of a window exactly one window is
/// counted, of the source that drafted it; a lookup window leaves the neural state behind, and
/// nothing else does; a window that fell back, or that was verified on the canonical target, leaves
/// it up to date. Where the window was measured, its cost is reported then, with all of its time and
/// tokens, and not before.
pub open spec fn step_settled(
    s: HybridView,
    after: HybridView,
    turn: ModeTurnView,
    source: HybridDraftSource,
    stale: bool,
    events: usize,
    elapsed_ns: u64,
    f: ModeFactsView,
) -> bool {
    let ended = match source {
        HybridDraftSource::Neural => f.neural.at_boundary,
        HybridDraftSource::PromptLookup => f.lookup_boundary,
    };
    &&& turn.action == ModeAction::Done
    &&& after.stage == HybridStage::Idle
    &&& turn.effects.len() >= 2
    &&& turn.effects[turn.effects.len() - 2] == ModeEffect::PublishLookup
    &&& turn.effects.last() == ModeEffect::PublishHybrid(after.stats)
    &&& turn.effects.contains(ModeEffect::StoreNeuralStats) == (source == HybridDraftSource::Neural)
    &&& after.stats.neural_windows == if ended && source == HybridDraftSource::Neural {
        and_one(s.stats.neural_windows)
    } else {
        s.stats.neural_windows as int
    }
    &&& after.stats.lookup_windows == if ended && source == HybridDraftSource::PromptLookup {
        and_one(s.stats.lookup_windows)
    } else {
        s.stats.lookup_windows as int
    }
    &&& after.neural_dirty == (stale || (ended && source == HybridDraftSource::PromptLookup))
    &&& ended ==> after.measured_cycle is None
    &&& !ended ==> after.measured_cycle is Some == s.measured_cycle is Some
    &&& match s.measured_cycle {
        None => no_sample(turn.effects),
        Some(cycle) => if ended {
            exists|i: int|
                0 <= i < turn.effects.len() && (
                #[trigger] turn.effects[i] matches ModeEffect::LookupSample(sample) && {
                    &&& sample.regime == cycle.regime
                    &&& sample.action == cycle.action
                    &&& cycle.elapsed_ns + elapsed_ns <= u64::MAX ==> sample.elapsed_ns
                        == cycle.elapsed_ns + elapsed_ns
                    &&& cycle.committed_tokens + events <= usize::MAX ==> sample.committed_tokens
                        == cycle.committed_tokens + events
                    &&& sample.adaptive == (s.neural.source != NeuralExactSource::QwenMtp)
                })
        } else {
            &&& no_sample(turn.effects)
            &&& after.measured_cycle matches Some(longer) && {
                &&& longer.regime == cycle.regime
                &&& longer.action == cycle.action
                &&& longer.stats_before == cycle.stats_before
                &&& cycle.elapsed_ns + elapsed_ns <= u64::MAX ==> longer.elapsed_ns
                    == cycle.elapsed_ns + elapsed_ns
                &&& cycle.committed_tokens + events <= usize::MAX ==> longer.committed_tokens
                    == cycle.committed_tokens + events
            }
        },
    }
}

pub open spec fn no_sample(effects: Seq<ModeEffect>) -> bool {
    forall|i: int| 0 <= i < effects.len() ==> !(#[trigger] effects[i] is LookupSample)
}

proof fn lemma_finished(
    s: HybridView,
    attempted: HybridDraftSource,
    source: HybridDraftSource,
    events: usize,
    elapsed_ns: u64,
    f: ModeFactsView,
)
    ensures
        ({
            let fx = if source == HybridDraftSource::Neural {
                seq![ModeEffect::StoreNeuralStats]
            } else {
                Seq::empty()
            };
            let (after, turn) = s.finished(attempted, source, events, elapsed_ns, fx, f);
            &&& step_settled(s, after, turn, source, s.neural_dirty, events, elapsed_ns, f)
            &&& after.current_source == s.current_source
        }),
{
    let fx = if source == HybridDraftSource::Neural {
        seq![ModeEffect::StoreNeuralStats]
    } else {
        Seq::empty()
    };
    let turn = s.finished(attempted, source, events, elapsed_ns, fx, f).1;
    if source == HybridDraftSource::Neural {
        assert(turn.effects[0] == ModeEffect::StoreNeuralStats);
    }
    let at = fx.len() as int;
    if s.measured_cycle is Some && HybridView::boundary(source, f) {
        assert(turn.effects[at] is LookupSample);
    }
}

/// The step of a window is settled as its source has it: see `step_settled`.
pub proof fn lemma_step_is_settled(s: HybridView, event: ModeEvent, f: ModeFactsView)
    ensures
        match (s.stage, event) {
            (
                HybridStage::Stepping { source: HybridDraftSource::PromptLookup, canonical },
                ModeEvent::Stepped { events, elapsed_ns },
            ) => {
                let (after, turn) = s.after_event(event, f);
                if canonical {
                    step_settled(
                        s,
                        after,
                        turn,
                        HybridDraftSource::Neural,
                        false,
                        events,
                        elapsed_ns,
                        f,
                    )
                } else {
                    step_settled(
                        s,
                        after,
                        turn,
                        HybridDraftSource::PromptLookup,
                        s.neural_dirty,
                        events,
                        elapsed_ns,
                        f,
                    )
                }
            },
            (
                HybridStage::Stepping { .. },
                ModeEvent::LookupStepped { events, elapsed_ns, .. },
            ) => {
                let (after, turn) = s.after_event(event, f);
                step_settled(
                    s,
                    after,
                    turn,
                    HybridDraftSource::PromptLookup,
                    s.neural_dirty,
                    events,
                    elapsed_ns,
                    f,
                )
            },
            (
                HybridStage::Committing { attempted, events },
                ModeEvent::Committed { elapsed_ns },
            ) => {
                let (after, turn) = s.after_event(event, f);
                &&& step_settled(
                    s,
                    after,
                    turn,
                    HybridDraftSource::Neural,
                    s.neural_dirty && attempted == HybridDraftSource::Neural,
                    events,
                    elapsed_ns,
                    f,
                )
                &&& attempted == HybridDraftSource::PromptLookup ==> after.current_source == Some(
                    HybridDraftSource::Neural,
                )
            },
            _ => true,
        },
{
    let lookup = HybridDraftSource::PromptLookup;
    let neural = HybridDraftSource::Neural;
    match (s.stage, event) {
        (HybridStage::Stepping { .. }, ModeEvent::Stepped { events, elapsed_ns }) => {
            let canonical = HybridView { neural_dirty: false, lookup_window_canonical: true, ..s };
            lemma_finished(canonical, lookup, neural, events, elapsed_ns, f);
            lemma_finished(s, lookup, lookup, events, elapsed_ns, f);
        },
        (
            HybridStage::Stepping { .. },
            ModeEvent::LookupStepped { events, elapsed_ns, canonical },
        ) => {
            let s1 = HybridView {
                lookup_window_canonical: s.lookup_window_canonical || canonical,
                ..s
            };
            lemma_finished(s1, lookup, lookup, events, elapsed_ns, f);
        },
        (HybridStage::Committing { attempted, events }, ModeEvent::Committed { elapsed_ns }) => {
            let fell_back = HybridView {
                stats: crate::hybrid_mode::switch_counted(
                    s.stats,
                    s.current_source != Some(neural),
                ),
                current_source: Some(neural),
                neural_dirty: false,
                lookup_window_canonical: false,
                ..s
            };
            lemma_finished(fell_back, lookup, neural, events, elapsed_ns, f);
            lemma_finished(s, neural, neural, events, elapsed_ns, f);
        },
        _ => {},
    }
}

/// Lookup alone: a batch that was prefilled, or that a request joined, begins with an ordinary window
/// and nothing learned; a request that joined is put into the index; one that could not changes
/// nothing.
pub proof fn lemma_lookup_batch_begins_anew(s: LookupModeView, event: ModeEvent, f: ModeFactsView)
    ensures
        s.stage == LookupStage::Finalizing ==> s.after_event(
            ModeEvent::Finalized { ok: true },
            f,
        ).1.action == ModeAction::RegisterLookup,
        s.stage == LookupStage::Finalizing ==> s.after_event(
            ModeEvent::Finalized { ok: false },
            f,
        ).1.action == ModeAction::Done,
        s.stage == LookupStage::Prefilling || s.stage == LookupStage::Registering ==> {
            let (after, turn) = s.after_event(event, f);
            &&& turn.action == ModeAction::Done
            &&& turn.effects == seq![ModeEffect::PublishLookup]
            &&& after.stage == LookupStage::Idle
            &&& after.defer_speculation_once
            &&& after.measured_cycle is None
            &&& after.window.query_hint is None
            &&& after.window.miss_query_hint is None
            &&& after.step_begun(false, f.window).1.action == ModeAction::StepLookupOrdinary
        },
{
}

/// Lookup alone: the step follows the choice of its window, one that is being measured goes on, and
/// what a window cost is reported when it ends, with all of its time and tokens. Whatever happened is
/// published.
pub proof fn lemma_lookup_step_is_settled(
    s: LookupModeView,
    decision: PromptLookupWindowDecision,
    events: usize,
    elapsed_ns: u64,
    f: ModeFactsView,
)
    requires
        s.stage == (LookupStage::Stepping { decision }),
        elapsed_ns + decision.proposal_elapsed_ns <= u64::MAX,
    ensures
        ({
            let (after, turn) = s.after_event(ModeEvent::Stepped { events, elapsed_ns }, f);
            let lookup = decision.action == PromptLookupCostAction::Lookup;
            &&& turn.action == ModeAction::Done
            &&& after.stage == LookupStage::Idle
            &&& turn.effects.last() == ModeEffect::PublishLookup
            &&& decision.regime is None ==> turn.effects.len() == 1 && after.measured_cycle
                == s.measured_cycle
            &&& decision.regime matches Some(regime) ==> {
                &&& !lookup ==> {
                    &&& turn.effects.len() == 2
                    &&& after.measured_cycle == s.measured_cycle
                    &&& turn.effects[0] matches ModeEffect::LookupSample(sample) && {
                        &&& sample.regime == regime
                        &&& sample.action == PromptLookupCostAction::Ordinary
                        &&& sample.elapsed_ns == elapsed_ns + decision.proposal_elapsed_ns
                        &&& sample.committed_tokens == events
                        &&& sample.adaptive
                    }
                }
                &&& lookup && f.lookup_boundary ==> {
                    let before_ns = match s.measured_cycle {
                        Some(cycle) => cycle.elapsed_ns as int,
                        None => 0,
                    };
                    let before_tokens = match s.measured_cycle {
                        Some(cycle) => cycle.committed_tokens as int,
                        None => 0,
                    };
                    let spent = before_ns + elapsed_ns + decision.proposal_elapsed_ns;
                    &&& turn.effects.len() == 2
                    &&& after.measured_cycle is None
                    &&& turn.effects[0] matches ModeEffect::LookupSample(sample) && {
                        &&& sample.regime == match s.measured_cycle {
                            Some(cycle) => cycle.regime,
                            None => regime,
                        }
                        &&& sample.action == PromptLookupCostAction::Lookup
                        &&& spent <= u64::MAX ==> sample.elapsed_ns == spent
                        &&& before_tokens + events <= usize::MAX ==> sample.committed_tokens
                            == before_tokens + events
                        &&& sample.adaptive
                    }
                }
                &&& lookup && !f.lookup_boundary ==> turn.effects.len() == 1
                    && after.measured_cycle is Some
            }
        }),
{
}

/// Lookup alone: what is chosen is what is run, and a window that is being measured goes on whatever
/// else is pending.
pub proof fn lemma_lookup_runs_what_is_chosen(s: LookupModeView, pending: bool, f: WindowFactsView)
    ensures
        ({
            let (after, turn) = s.step_begun(pending, f);
            &&& s.measured_cycle is Some ==> turn.action == ModeAction::StepLookup
            &&& s.measured_cycle is None && (pending || s.defer_speculation_once) ==> turn.action
                == ModeAction::StepLookupOrdinary
            &&& turn.action == ModeAction::StepLookup ==> (
            after.stage matches LookupStage::Stepping { decision } && decision.action
                == PromptLookupCostAction::Lookup)
            &&& turn.action == ModeAction::StepLookupOrdinary ==> (
            after.stage matches LookupStage::Stepping { decision } && decision.action
                == PromptLookupCostAction::Ordinary)
            &&& turn.action is Window ==> after.stage == LookupStage::Selecting
        }),
{
}

/// Without drafts nothing is asked for but the work itself, and each choice of a mode gets the
/// decoding and the admission that it stands for.
pub proof fn lemma_modes_are_what_was_chosen(
    choice: ModeChoice,
    pending: bool,
    kind: MidAdmitKind,
    event: ModeEvent,
    f: ModeFactsView,
)
    ensures
        match choice {
            ModeChoice::NoMtp => ModeView::fresh(choice) == ModeView::NoMtp,
            ModeChoice::LookupControl => ModeView::fresh(choice) == ModeView::NoMtp,
            ModeChoice::PromptLookup { cfg } => ModeView::fresh(choice) matches
                ModeView::PromptLookup(mode) && mode.cfg == cfg && mode.window.max_draft_tokens
                == cfg.max_draft_tokens,
            ModeChoice::Neural { source, draft_tokens } => ModeView::fresh(choice) matches
                ModeView::Neural(mode) && mode.source == source && mode.cfg.max_draft_tokens
                == draft_tokens && mode.qualified,
            ModeChoice::Hybrid { source, draft_tokens, cfg } => ModeView::fresh(choice) matches
                ModeView::Hybrid(mode) && mode.neural.source == source
                && mode.neural.cfg.max_draft_tokens == draft_tokens && !mode.neural.qualified
                && mode.window.max_draft_tokens == cfg.max_draft_tokens && !mode.neural_dirty,
        },
        ModeView::NoMtp.prefill_begun(f).1.action == ModeAction::Prefill,
        ModeView::NoMtp.step_begun(pending, f).1.action == ModeAction::StepPlain,
        ModeView::NoMtp.mid_begun(pending, f).1.action == (ModeAction::BeginMid {
            kind: MidAdmitKind::Generic,
        }),
        ModeView::NoMtp.finalizing(kind).1.action == (ModeAction::FinalizeMid {
            kind: MidAdmitKind::Generic,
        }),
        ModeView::NoMtp.after_event(event, f).1.action == ModeAction::Done,
        ModeView::NoMtp.after_event(event, f).1.effects.len() == 0,
        ModeView::NoMtp.lets_in(f),
{
}

/// When a request may enter a running batch: between lookup windows where there is lookup, and
/// between the windows of a native draft head where that has drafts. A separate draft model alone
/// takes requests at any time. A hybrid takes none while a window is being measured.
pub proof fn lemma_requests_enter_between_windows(mode: ModeView, f: ModeFactsView)
    ensures
        match mode {
            ModeView::NoMtp => mode.lets_in(f),
            ModeView::PromptLookup(_) => mode.lets_in(f) == f.lookup_boundary,
            ModeView::Neural(s) => mode.lets_in(f) == (s.source
                == NeuralExactSource::Gemma4Assistant || f.neural.stats is None
                || f.neural.at_boundary),
            ModeView::Hybrid(s) => {
                &&& mode.lets_in(f) ==> s.measured_cycle is None && f.lookup_boundary
                &&& s.measured_cycle is None && f.lookup_boundary && f.neural.at_boundary
                    ==> mode.lets_in(f)
                &&& s.measured_cycle is None && f.lookup_boundary && !f.neural.at_boundary
                    ==> mode.lets_in(f) == (s.neural.source == NeuralExactSource::QwenMtp
                    && f.neural.stats is None)
            },
        },
{
}

} // verus!
