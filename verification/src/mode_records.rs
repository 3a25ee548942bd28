//! What the ways of decoding remember and report: the measured batch, the measured window, the
//! lookup windows in a row, and the choice that is being made.
use vstd::prelude::*;

use crate::admission::AdaptiveAdmissionPolicy;
use crate::hybrid_mode::{HybridStage, HybridView};
use crate::lookup_mode::{LookupModeView, LookupStage};
use crate::lookup_window::{
    EpisodeView, HybridDraftSource, PromptLookupMeasuredCycle, PromptLookupWindowDecision,
    WindowAction, WindowEffect, WindowEvent, WindowOptions, WindowTurnView, WindowView,
};
use crate::mode_types::{
    MidAdmitKind, ModeAction, ModeEffect, ModeEvent, ModeFactsView, ModeTurnView,
    NeuralExactSample, NeuralFacts, TransitionView,
};
use crate::modes::{ModeChoice, ModeView};
use crate::neural_mode::{NeuralExactMeasuredEpisode, NeuralStage, SchedulerActorMtp};
use crate::prompt_lookup::{PromptLookupCostAction, PromptLookupProposalSource, PromptLookupStats};
use crate::speculative::{MtpSpeculativeStats, NeuralExactSource};

verus! {

/// What the prefill of a batch with neural drafts is remembered for: whether it drafts, and, for the
/// measurement of its cost, the regime and the statistics from before it. A step is remembered for
/// whether it drafts.
pub proof fn lemma_neural_work_is_remembered(
    s: SchedulerActorMtp,
    pending: bool,
    event: ModeEvent,
    f: NeuralFacts,
)
    requires
        s.stage.awaits(event),
    ensures
        remembered(s.prefill_begun(f), f),
        remembered(s.step_begun(pending, f), f),
        remembered(s.after_event(event, f), f),
        s.prefill_begun(f).0.exact_episode is None,
        s.step_begun(pending, f).0.exact_episode == s.exact_episode,
        s.stage matches NeuralStage::PrefillVerifying { action } ==> (
        s.after_event(event, f).0.stage matches NeuralStage::Prefilling { action: kept, .. } && kept
            == action),
        s.stage == NeuralStage::PrefillAsking ==> (event matches ModeEvent::ExactAction(answer)
            && match s.after_event(event, f).0.stage {
            NeuralStage::PrefillVerifying { action } => action == answer,
            NeuralStage::Prefilling { action, .. } => action == answer,
            _ => false,
        }),
{
}

/// Whether what a turn asks for is what its stage remembers.
pub open spec fn remembered(r: (SchedulerActorMtp, ModeTurnView), f: NeuralFacts) -> bool {
    &&& (r.1.action == ModeAction::PrefillDraft || r.1.action == ModeAction::Prefill) == (r.0.stage
        is Prefilling)
    &&& r.0.stage matches NeuralStage::Prefilling { drafted, regime, stats_before, .. } ==> {
        &&& drafted == (r.1.action == ModeAction::PrefillDraft)
        &&& regime == f.exact_regime
        &&& f.stats matches Some(stats) ==> stats_before == stats
        &&& f.stats is None ==> stats_before == MtpSpeculativeStats::zero()
    }
    &&& (r.1.action is StepDraft || r.1.action == ModeAction::StepPlain) == (r.0.stage is Stepping)
    &&& r.0.stage matches NeuralStage::Stepping { drafted } ==> drafted == (r.1.action is StepDraft)
}

/// Whether a sample reports a batch that ended: its regime and decision, all of its time and tokens,
/// and what its drafts did since it began.
pub open spec fn reports_batch(
    sample: NeuralExactSample,
    episode: NeuralExactMeasuredEpisode,
    elapsed: int,
    tokens: int,
    f: NeuralFacts,
) -> bool {
    let before = episode.stats_before;
    let grown = |now: usize, then: usize| vstd::math::max(now - then, 0);
    &&& sample.regime == episode.regime
    &&& sample.action == episode.action
    &&& elapsed <= u64::MAX ==> sample.elapsed_ns == elapsed
    &&& tokens <= usize::MAX ==> sample.committed_tokens == tokens
    &&& f.stats matches Some(now) ==> {
        &&& sample.counters.drafted_tokens == grown(now.drafted_tokens, before.drafted_tokens)
        &&& sample.counters.accepted_tokens == grown(
            now.accepted_draft_tokens,
            before.accepted_draft_tokens,
        )
        &&& sample.counters.exact_windows == grown(
            now.exact_sampling_windows,
            before.exact_sampling_windows,
        )
        &&& sample.counters.residual_corrections == grown(
            now.exact_residual_corrections,
            before.exact_residual_corrections,
        )
    }
    &&& f.stats is None ==> sample.counters.drafted_tokens == 0 && sample.counters.accepted_tokens
        == 0 && sample.counters.exact_windows == 0 && sample.counters.residual_corrections == 0
}

/// The cost of a measured batch is reported exactly when the batch ends, and then it is measured no
/// more: after its last step, or after its prefill if that ended it already. Where a cost controller
/// decides, its figures are published then and after every prefill.
pub proof fn lemma_measured_batch_is_reported(
    s: SchedulerActorMtp,
    events: usize,
    elapsed_ns: u64,
    f: NeuralFacts,
)
    requires
        s.stage is Prefilling || s.stage is Stepping,
    ensures
        ({
            let (after, turn) = s.after_event(ModeEvent::Stepped { events, elapsed_ns }, f);
            let measured = s.qualified && match s.stage {
                NeuralStage::Prefilling { regime, .. } => regime is Some,
                _ => s.exact_episode is Some,
            };
            &&& f.finished && s.stage is Stepping ==> after.exact_episode is None
            &&& f.finished && s.stage is Prefilling && measured ==> after.exact_episode is None
            &&& turn.effects.contains(ModeEffect::PublishExact) == (s.qualified && (f.finished
                || s.stage is Prefilling))
            &&& !(f.finished && measured) ==> forall|i: int|
                0 <= i < turn.effects.len() ==> !(#[trigger] turn.effects[i] is ExactSample)
            &&& f.finished && measured ==> exists|i: int|
                0 <= i < turn.effects.len() && (
                #[trigger] turn.effects[i] matches ModeEffect::ExactSample(sample) && match s.stage {
                    NeuralStage::Prefilling { action, regime, stats_before, .. } => reports_batch(
                        sample,
                        NeuralExactMeasuredEpisode {
                            regime: regime->0,
                            action,
                            elapsed_ns,
                            committed_tokens: events,
                            stats_before,
                        },
                        elapsed_ns as int,
                        events as int,
                        f,
                    ),
                    _ => reports_batch(
                        sample,
                        s.exact_episode->0,
                        s.exact_episode->0.elapsed_ns + elapsed_ns,
                        s.exact_episode->0.committed_tokens + events,
                        f,
                    ),
                })
        }),
{
    let turn = s.after_event(ModeEvent::Stepped { events, elapsed_ns }, f).1;
    let drafted = match s.stage {
        NeuralStage::Prefilling { drafted, .. } => drafted,
        NeuralStage::Stepping { drafted } => drafted,
        _ => false,
    };
    let at: int = if drafted {
        1
    } else {
        0
    };
    let measured = s.qualified && match s.stage {
        NeuralStage::Prefilling { regime, .. } => regime is Some,
        _ => s.exact_episode is Some,
    };
    if f.finished && measured {
        assert(turn.effects[at] is ExactSample);
        assert(turn.effects[at + 1] == ModeEffect::PublishExact);
    }
    if s.qualified && (f.finished || s.stage is Prefilling) {
        assert(turn.effects.last() == ModeEffect::PublishExact);
        assert(turn.effects.contains(turn.effects.last()));
    }
}

/// The cycle that a window begins to be measured in: its regime, or that of the batch where it has
/// none; its decision and the time that its proposal took; and the statistics from before it. Without
/// a regime nothing is measured.
pub open spec fn cycle_begins(
    cycle: Option<PromptLookupMeasuredCycle>,
    decision: Option<PromptLookupWindowDecision>,
    f: ModeFactsView,
) -> bool {
    let regime = match decision {
        Some(decision) if decision.regime is Some => decision.regime,
        _ => f.window.base_regime,
    };
    match (regime, cycle) {
        (None, None) => true,
        (Some(regime), Some(cycle)) => {
            &&& cycle.regime == regime
            &&& cycle.committed_tokens == 0
            &&& match decision {
                Some(decision) => cycle.action == decision.action && cycle.elapsed_ns
                    == decision.proposal_elapsed_ns && cycle.stats_before == decision.stats_before,
                None => {
                    &&& cycle.action == PromptLookupCostAction::Ordinary
                    &&& cycle.elapsed_ns == 0
                    &&& f.window.stats matches Some(stats) ==> cycle.stats_before == stats
                    &&& f.window.stats is None ==> cycle.stats_before == PromptLookupStats::zero()
                },
            }
        },
        _ => false,
    }
}

/// What follows a choice in a hybrid. A native head verifies a lookup window on its canonical target
/// exactly where the draft comes from one source; such a window, and every neural one, is run on a
/// draft state that is up to date. A window that runs begins to be measured, unless one is being
/// measured already. The row of lookup windows ends with the first neural window after it.
pub proof fn lemma_hybrid_follows_the_choice(
    s: HybridView,
    decision: PromptLookupWindowDecision,
    fx: Seq<ModeEffect>,
    f: ModeFactsView,
)
    ensures
        ({
            let (after, turn) = s.decided(decision, fx, f);
            let lookup = decision.action == PromptLookupCostAction::Lookup;
            let head = s.neural.source == NeuralExactSource::QwenMtp;
            let single = decision.regime matches Some(regime) && (regime.proposal_source == Some(
                PromptLookupProposalSource::Local,
            ) || regime.proposal_source == Some(PromptLookupProposalSource::Shared));
            let canonical = head && lookup && single;
            let rebuilds = s.neural_dirty && (!lookup || canonical);
            let row_ends = head && !lookup && s.current_source == Some(
                HybridDraftSource::PromptLookup,
            ) && !s.neural_dirty;
            &&& head && lookup ==> turn.action == if !canonical {
                ModeAction::StepLookupWithVerify
            } else if s.neural_dirty {
                ModeAction::Rebase
            } else {
                ModeAction::StepDraftObserving
            }
            &&& rebuilds ==> {
                &&& after.stage == (HybridStage::Rebasing {
                    source: if lookup {
                        HybridDraftSource::PromptLookup
                    } else {
                        HybridDraftSource::Neural
                    },
                    canonical,
                    decision,
                })
                &&& after.measured_cycle == s.measured_cycle
                &&& after.lookup_episode == s.lookup_episode
                &&& turn.transition is None
            }
            &&& !rebuilds ==> {
                &&& turn.effects.last() == ModeEffect::CountStep
                &&& s.measured_cycle is Some ==> after.measured_cycle == s.measured_cycle
                &&& s.measured_cycle is None ==> cycle_begins(
                    after.measured_cycle,
                    Some(decision),
                    f,
                )
                &&& row_ends ==> after.lookup_episode is None && ends_row(
                    s.lookup_episode,
                    0,
                    turn.transition,
                )
                &&& !row_ends ==> after.lookup_episode == s.lookup_episode && turn.transition
                    is None
            }
            &&& after.neural_dirty == s.neural_dirty
        }),
{
}

/// Whether a transition reports the end of a row of lookup windows: the regimes they ran in, the
/// tokens they committed, and the time it took to go back to neural drafts.
pub open spec fn ends_row(
    episode: Option<EpisodeView>,
    elapsed: int,
    transition: Option<TransitionView>,
) -> bool {
    match (episode, transition) {
        (None, None) => true,
        (Some(episode), Some(transition)) => {
            &&& transition.regimes == episode.regimes
            &&& transition.committed_tokens == episode.committed_tokens
            &&& transition.elapsed_ns == vstd::math::min(elapsed, u64::MAX as int)
        },
        _ => false,
    }
}

/// A rebuild of the draft state is counted with its time, in whole microseconds, and reports the end
/// of the row of lookup windows, wherever it happens.
pub proof fn lemma_rebuild_is_counted_with_its_time(s: HybridView, nanos: u128, f: ModeFactsView)
    requires
        s.stage is Rebasing || s.stage == HybridStage::MidRebasing || s.stage
            == HybridStage::FinalRebasing,
    ensures
        ({
            let (after, turn) = s.after_event(ModeEvent::Rebased { nanos }, f);
            let us = vstd::math::min(nanos as int / 1000, u64::MAX as int);
            &&& after.stats.neural_rebase_us == vstd::math::min(
                s.stats.neural_rebase_us + us,
                u64::MAX as int,
            )
            &&& after.stats.neural_rebases == vstd::math::min(
                s.stats.neural_rebases + 1,
                u64::MAX as int,
            )
            &&& !after.neural_dirty
            &&& after.lookup_episode is None
            &&& ends_row(s.lookup_episode, nanos as int, turn.transition)
            &&& turn.effects.contains(ModeEffect::RecordTransition) == s.lookup_episode is Some
            &&& s.stage matches HybridStage::Rebasing { decision, .. } ==> (s.measured_cycle is None
                ==> cycle_begins(after.measured_cycle, Some(decision), f))
        }),
{
    let turn = s.after_event(ModeEvent::Rebased { nanos }, f).1;
    if s.lookup_episode is Some {
        assert(turn.effects[0] == ModeEffect::RecordTransition);
    }
    if turn.effects.contains(ModeEffect::RecordTransition) && s.lookup_episode is None {
        let i = choose|i: int|
            0 <= i < turn.effects.len() && turn.effects[i] == ModeEffect::RecordTransition;
        assert(turn.effects[i] == ModeEffect::RecordTransition);
    }
}

/// A lookup window that ends and was drafted by lookup adds its regime and its tokens to the row of
/// lookup windows; no other step does. Its sample tells what changed in the statistics since it
/// began.
pub proof fn lemma_lookup_windows_make_a_row(s: HybridView, event: ModeEvent, f: ModeFactsView)
    ensures
        match (s.stage, event) {
            (
                HybridStage::Stepping { source: HybridDraftSource::PromptLookup, canonical },
                ModeEvent::Stepped { events, elapsed_ns },
            ) => row_after(
                s,
                !canonical && f.lookup_boundary,
                events,
                s.after_event(event, f),
                f,
            ),
            (
                HybridStage::Stepping { .. },
                ModeEvent::LookupStepped { events, elapsed_ns, canonical },
            ) => {
                &&& row_after(s, f.lookup_boundary, events, s.after_event(event, f), f)
                &&& s.after_event(event, f).0.lookup_window_canonical == if f.lookup_boundary
                    && s.neural.source == NeuralExactSource::QwenMtp {
                    false
                } else {
                    s.lookup_window_canonical || canonical
                }
            },
            (HybridStage::Committing { attempted, events }, ModeEvent::Committed { .. }) => {
                let after = s.after_event(event, f).0;
                &&& row_after(s, false, events, s.after_event(event, f), f)
                &&& attempted == HybridDraftSource::PromptLookup ==> after.stats.source_switches
                    == if s.current_source == Some(HybridDraftSource::Neural) {
                    s.stats.source_switches as int
                } else {
                    vstd::math::min(s.stats.source_switches + 1, u64::MAX as int)
                }
                &&& attempted == HybridDraftSource::Neural ==> after.stats.source_switches
                    == s.stats.source_switches && after.current_source == s.current_source
            },
            _ => true,
        },
{
}

/// The row of lookup windows after a step, and the change of statistics in its sample.
pub open spec fn row_after(
    s: HybridView,
    lookup_ended: bool,
    events: usize,
    r: (HybridView, ModeTurnView),
    f: ModeFactsView,
) -> bool {
    &&& if lookup_ended && s.measured_cycle is Some {
        let cycle = s.measured_cycle->0;
        let before = match s.lookup_episode {
            Some(episode) => episode,
            None => EpisodeView::fresh(),
        };
        r.0.lookup_episode matches Some(row) && {
            &&& row.regimes == if before.regimes.contains(cycle.regime) {
                before.regimes
            } else {
                before.regimes.push(cycle.regime)
            }
            &&& before.committed_tokens + cycle.committed_tokens + events <= usize::MAX
                ==> row.committed_tokens == before.committed_tokens + cycle.committed_tokens
                + events
        }
    } else {
        r.0.lookup_episode == s.lookup_episode
    }
    &&& forall|i: int|
        0 <= i < r.1.effects.len() ==> ((
        #[trigger] r.1.effects[i]) matches ModeEffect::LookupSample(sample) ==> sample.delta == (
        match f.window.stats {
            Some(stats) => stats,
            None => PromptLookupStats::zero(),
        }).since(s.measured_cycle->0.stats_before))
}

/// Whether `effects` are those of a window choice, each passed on in its place.
pub open spec fn passed_on(effects: Seq<ModeEffect>, choice: Seq<WindowEffect>) -> bool {
    &&& effects.len() >= choice.len()
    &&& forall|i: int|
        0 <= i < choice.len() ==> #[trigger] effects[i] == ModeEffect::Window(choice[i])
}

/// Between windows a hybrid chooses the next one over the text of all requests, in the shape of a
/// native draft head if it has one, and without lookup while a request waits to join. Whatever the
/// choice asks for is passed on, and its answers are passed back.
pub proof fn lemma_hybrid_passes_its_choice_on(
    s: HybridView,
    pending: bool,
    event: WindowEvent,
    f: ModeFactsView,
)
    ensures
        ({
            let head = s.neural.source == NeuralExactSource::QwenMtp;
            let options = WindowOptions {
                allow_cross_request: true,
                capture_accepted_hidden: head,
                match_mtp_verify_shape: head,
                force_ordinary: pending,
            };
            let ended = match s.current_source {
                Some(HybridDraftSource::PromptLookup) => f.lookup_boundary,
                _ => f.neural.at_boundary,
            };
            let chooses = f.neural.stats is Some && s.measured_cycle is None && ended;
            &&& chooses && !(head && f.neural.at_boundary) ==> follows(
                s,
                s.window.begun(options, f.window),
                f,
                s.step_begun(pending, f),
            )
            &&& s.stage == (HybridStage::NextVerifying { admission_pending: pending })
                && s.measured_cycle is None && ended ==> follows(
                s,
                s.window.begun(options, f.window),
                f,
                s.after_event(ModeEvent::Eligible { eligible: true }, f),
            )
            &&& s.stage == HybridStage::Selecting ==> follows(
                s,
                s.window.after_event(event, f.window),
                f,
                s.after_event(ModeEvent::Window(event), f),
            )
        }),
{
}

/// A hybrid does what the choice of a window came to.
pub open spec fn follows(
    s: HybridView,
    choice: (WindowView, WindowTurnView),
    f: ModeFactsView,
    r: (HybridView, ModeTurnView),
) -> bool {
    &&& r.0.window == choice.0
    &&& passed_on(r.1.effects, choice.1.effects)
    &&& match choice.1.action {
        WindowAction::Decided(decision) => exists|fx: Seq<ModeEffect>|
            {
                &&& r == #[trigger] (HybridView { window: choice.0, ..s }).decided(decision, fx, f)
                &&& fx.len() == choice.1.effects.len()
            },
        action => {
            &&& r.1.action == ModeAction::Window(action)
            &&& r.0.stage == HybridStage::Selecting
            &&& r.1.effects.len() == choice.1.effects.len()
        },
    }
}

/// A hybrid is prefilled as its drafts are. Then its prompts are indexed, where it has draft state or
/// a native head; a separate draft model without state stays without lookup. Joining and joining the
/// rows are passed on to the drafts as well.
pub proof fn lemma_hybrid_is_prefilled_like_its_drafts(
    s: HybridView,
    event: ModeEvent,
    kind: MidAdmitKind,
    f: ModeFactsView,
)
    ensures
        prefills_like(s, s.neural.prefill_begun(f.neural), f, s.prefill_begun(f)),
        s.stage == HybridStage::Prefilling ==> prefills_like(
            s,
            s.neural.after_event(event, f.neural),
            f,
            s.after_event(event, f),
        ),
        s.stage == HybridStage::MidBeginning ==> {
            let inner = s.neural.after_event(event, f.neural);
            let r = s.after_event(event, f);
            &&& r.0.neural == inner.0
            &&& r.1.action == inner.1.action
            &&& r.1.effects == inner.1.effects
            &&& r.1.transition is None
        },
        s.finalizing(kind).1.action == (ModeAction::FinalizeMid { kind }),
        s.finalizing(kind).0.stage == HybridStage::Finalizing,
        s.finalizing(kind).0.neural.stage == (NeuralStage::Finalizing { kind }),
        s.stage == HybridStage::Finalizing ==> s.after_event(
            ModeEvent::Finalized { ok: true },
            f,
        ).1.effects == s.neural.after_event(ModeEvent::Finalized { ok: true }, f.neural).1.effects,
{
    if s.stage == HybridStage::MidBeginning {
        let inner = s.neural.after_event(event, f.neural);
        assert(Seq::<ModeEffect>::empty() + inner.1.effects =~= inner.1.effects);
    }
}

/// A hybrid asks for what its drafts ask for, and indexes the prompts once these are done.
pub open spec fn prefills_like(
    s: HybridView,
    inner: (SchedulerActorMtp, ModeTurnView),
    f: ModeFactsView,
    r: (HybridView, ModeTurnView),
) -> bool {
    &&& r.0.neural == inner.0
    &&& r.1.effects == inner.1.effects
    &&& inner.1.action != ModeAction::Done ==> r.1.action == inner.1.action && r.0.stage
        == HybridStage::Prefilling
    &&& inner.1.action == ModeAction::Done ==> r.1.action == if s.neural.source
        == NeuralExactSource::QwenMtp || f.neural.stats is Some {
        ModeAction::InitializeLookup
    } else {
        ModeAction::Done
    }
}

/// Lookup alone: a window that is being measured goes on as it began, with its own regime and
/// statistics; and a window that has not ended is measured on. The sample at its end tells what
/// changed in the statistics since it began.
pub proof fn lemma_lookup_window_is_measured_to_its_end(
    s: LookupModeView,
    pending: bool,
    decision: PromptLookupWindowDecision,
    events: usize,
    elapsed_ns: u64,
    f: ModeFactsView,
)
    ensures
        s.measured_cycle matches Some(cycle) ==> (
        s.step_begun(pending, f.window).0.stage matches LookupStage::Stepping { decision } && {
            &&& decision.regime == Some(cycle.regime)
            &&& decision.proposal_elapsed_ns == 0
            &&& decision.stats_before == cycle.stats_before
            &&& !decision.fallback_to_baseline
            &&& s.step_begun(pending, f.window).1.effects.len() == 0
        }),
        s.stage == (LookupStage::Stepping { decision }) ==> {
            let (after, turn) = s.after_event(ModeEvent::Stepped { events, elapsed_ns }, f);
            let spent = elapsed_ns + decision.proposal_elapsed_ns;
            let now = match f.window.stats {
                Some(stats) => stats,
                None => PromptLookupStats::zero(),
            };
            let lookup = decision.action == PromptLookupCostAction::Lookup;
            &&& decision.regime is Some && lookup && !f.lookup_boundary && spent <= u64::MAX ==> (
            after.measured_cycle matches Some(cycle) && match s.measured_cycle {
                None => {
                    &&& cycle.regime == decision.regime->0
                    &&& cycle.action == PromptLookupCostAction::Lookup
                    &&& cycle.elapsed_ns == spent
                    &&& cycle.committed_tokens == events
                    &&& cycle.stats_before == decision.stats_before
                },
                Some(before) => {
                    &&& cycle.regime == before.regime
                    &&& cycle.stats_before == before.stats_before
                    &&& before.elapsed_ns + spent <= u64::MAX ==> cycle.elapsed_ns
                        == before.elapsed_ns + spent
                    &&& before.committed_tokens + events <= usize::MAX ==> cycle.committed_tokens
                        == before.committed_tokens + events
                },
            })
            &&& decision.regime is Some && (!lookup || f.lookup_boundary) ==> (
            turn.effects[0] matches ModeEffect::LookupSample(sample) && sample.delta == now.since(
                match s.measured_cycle {
                    Some(cycle) if lookup => cycle.stats_before,
                    _ => decision.stats_before,
                },
            ))
        },
{
}

/// Lookup alone chooses its windows over the text of all requests and adapts their width; the window
/// after a change of the batch, and any while a request waits to join, is ordinary. Whatever the
/// choice asks for is passed on, and its answers are passed back.
pub proof fn lemma_lookup_passes_its_choice_on(
    s: LookupModeView,
    pending: bool,
    event: WindowEvent,
    f: ModeFactsView,
)
    ensures
        s.measured_cycle is None ==> {
            let options = WindowOptions {
                allow_cross_request: true,
                capture_accepted_hidden: false,
                match_mtp_verify_shape: false,
                force_ordinary: s.defer_speculation_once || pending,
            };
            &&& lookup_follows(s.window.begun(options, f.window), s.step_begun(pending, f.window))
            &&& !s.step_begun(pending, f.window).0.defer_speculation_once
        },
        s.stage == LookupStage::Selecting ==> lookup_follows(
            s.window.after_event(event, f.window),
            s.after_event(ModeEvent::Window(event), f),
        ),
{
}

/// Lookup alone does what the choice of a window came to.
pub open spec fn lookup_follows(
    choice: (WindowView, WindowTurnView),
    r: (LookupModeView, ModeTurnView),
) -> bool {
    &&& r.0.window == choice.0
    &&& r.1.effects.len() == choice.1.effects.len()
    &&& passed_on(r.1.effects, choice.1.effects)
    &&& match choice.1.action {
        WindowAction::Decided(decision) => {
            &&& r.0.stage == (LookupStage::Stepping { decision })
            &&& r.1.action == if decision.action == PromptLookupCostAction::Lookup {
                ModeAction::StepLookup
            } else {
                ModeAction::StepLookupOrdinary
            }
        },
        action => r.1.action == ModeAction::Window(action) && r.0.stage == LookupStage::Selecting,
    }
}

/// Each mode is prefilled, joined and finalized in its own way: lookup alone indexes the prompts as
/// it prefills and takes requests without drafts; drafts and hybrids see to it themselves.
pub proof fn lemma_each_mode_does_its_own(
    mode: ModeView,
    flag: bool,
    kind: MidAdmitKind,
    event: ModeEvent,
    f: ModeFactsView,
)
    ensures
        match mode {
            ModeView::NoMtp => true,
            ModeView::PromptLookup(s) => {
                let generic = MidAdmitKind::Generic;
                &&& mode.prefill_begun(f).1.action == ModeAction::PrefillLookup
                &&& mode.prefill_begun(f).0 matches ModeView::PromptLookup(after) && after.stage
                    == LookupStage::Prefilling && after.window == s.window
                &&& mode.mid_begun(flag, f).1.action == (ModeAction::BeginMid { kind: generic })
                &&& mode.finalizing(kind).1.action == (ModeAction::FinalizeMid { kind: generic })
                &&& mode.finalizing(kind).0 matches ModeView::PromptLookup(after) && after.stage
                    == LookupStage::Finalizing
                &&& mode.step_begun(flag, f).1 == s.step_begun(flag, f.window).1
                &&& mode.after_event(event, f).1 == s.after_event(event, f).1
            },
            ModeView::Neural(s) => {
                &&& mode.prefill_begun(f).1 == s.prefill_begun(f.neural).1
                &&& mode.step_begun(flag, f).1 == s.step_begun(flag, f.neural).1
                &&& mode.mid_begun(flag, f).1 == s.mid_begun(f.neural).1
                &&& mode.finalizing(kind).1 == s.finalizing(kind).1
                &&& mode.after_event(event, f).1 == s.after_event(event, f.neural).1
            },
            ModeView::Hybrid(s) => {
                &&& mode.prefill_begun(f).1 == s.prefill_begun(f).1
                &&& mode.step_begun(flag, f).1 == s.step_begun(flag, f).1
                &&& mode.mid_begun(flag, f).1 == s.mid_begun(flag, f).1
                &&& mode.finalizing(kind).1 == s.finalizing(kind).1
                &&& mode.after_event(event, f).1 == s.after_event(event, f).1
            },
        },
{
}

/// Each choice of a mode brings its own rules of admission: none without drafts, those of lookup also
/// where lookup is only watched, and those of the draft model wherever there is one. A choice with
/// drafts needs a draft of at least one token.
pub proof fn lemma_choice_brings_its_admission(choice: ModeChoice)
    ensures
        match choice {
            ModeChoice::NoMtp => choice.policy() == AdaptiveAdmissionPolicy::Disabled
                && choice.valid(),
            ModeChoice::LookupControl => choice.policy() == AdaptiveAdmissionPolicy::PromptLookup
                && choice.valid(),
            ModeChoice::PromptLookup { .. } => choice.policy()
                == AdaptiveAdmissionPolicy::PromptLookup && choice.valid(),
            ModeChoice::Neural { source, draft_tokens } => choice.policy() == (
            if source == NeuralExactSource::QwenMtp {
                AdaptiveAdmissionPolicy::QwenMtp
            } else {
                AdaptiveAdmissionPolicy::Gemma4Drafter
            }) && (choice.valid() <==> draft_tokens >= 1),
            ModeChoice::Hybrid { source, draft_tokens, .. } => choice.policy() == (
            if source == NeuralExactSource::QwenMtp {
                AdaptiveAdmissionPolicy::QwenMtp
            } else {
                AdaptiveAdmissionPolicy::Gemma4Drafter
            }) && (choice.valid() <==> draft_tokens >= 1),
        },
{
}

/// Whether a lookup window left the batch on the draft head's own target is remembered of the window
/// that runs: it is set by a step that says so and stays set while the window goes on. A draft head
/// forgets it when a lookup window is chosen or ends, when the window falls back to its own drafts,
/// and when the batch changes.
pub proof fn lemma_window_on_its_own_target_is_remembered(
    s: HybridView,
    event: ModeEvent,
    decision: PromptLookupWindowDecision,
    fx: Seq<ModeEffect>,
    f: ModeFactsView,
)
    ensures
        ({
            let after = s.after_event(event, f).0;
            let head = s.neural.source == NeuralExactSource::QwenMtp;
            match (s.stage, event) {
                (
                    HybridStage::Stepping { source: HybridDraftSource::PromptLookup, canonical },
                    ModeEvent::Stepped { .. },
                ) => after.lookup_window_canonical == (canonical || (s.lookup_window_canonical
                    && !(head && f.lookup_boundary))),
                (
                    HybridStage::Committing { attempted, .. },
                    ModeEvent::Committed { .. },
                ) => after.lookup_window_canonical == (s.lookup_window_canonical && attempted
                    == HybridDraftSource::Neural),
                _ => true,
            }
        }),
        ({
            let head = s.neural.source == NeuralExactSource::QwenMtp;
            &&& s.decided(decision, fx, f).0.lookup_window_canonical == (s.lookup_window_canonical
                && !(head && decision.action == PromptLookupCostAction::Lookup))
            &&& s.begun_anew().lookup_window_canonical == (s.lookup_window_canonical && !head)
            &&& s.mid_neural(None, f).0.lookup_window_canonical == (s.lookup_window_canonical
                && !head)
        }),
{
}

} // verus!
