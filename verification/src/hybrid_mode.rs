//! Decoding with neural drafts and prompt lookup, window by window whichever pays.
use vstd::prelude::*;

use crate::admission::{duration_ns, duration_us};
use crate::lookup_window::{
    qwen_hybrid_uses_canonical_target, EpisodeView, HybridDraftSource, PromptLookupEpisode,
    PromptLookupMeasuredCycle, PromptLookupWindow, PromptLookupWindowDecision, WindowAction,
    WindowEffect, WindowOptions, WindowTurn, WindowTurnView, WindowView,
};
use crate::mode_types::{
    LookupTransition, MidAdmitKind, ModeAction, ModeEffect, ModeEvent, ModeFacts, ModeFactsView,
    ModeTurn, ModeTurnView, PromptLookupSample, TransitionView,
};
use crate::neural_mode::{NeuralStage, SchedulerActorMtp};
use crate::prompt_lookup::{
    PromptLookupConfig, PromptLookupCostAction, PromptLookupHybridStats,
    PromptLookupQualificationRegime,
};
use crate::speculative::{MtpSpeculativeConfig, NeuralExactSource};

verus! {

/// What the mode is waiting for.
#[derive(Clone, Copy, Debug, PartialEq, Eq, Structural)]
#[allow(inconsistent_fields)]
pub enum HybridStage {
    Idle,
    /// Decoding without any drafts.
    PlainStepping { published: bool },
    NextVerifying { admission_pending: bool },
    Retiring,
    Selecting,
    Rebasing {
        source: HybridDraftSource,
        canonical: bool,
        decision: PromptLookupWindowDecision,
    },
    Stepping { source: HybridDraftSource, canonical: bool },
    FallbackStepping,
    Committing { attempted: HybridDraftSource, events: usize },
    Prefilling,
    Initializing,
    MidRebasing,
    MidBeginning,
    Finalizing,
    Registering,
    FinalRebasing,
}

/// A batch that is decoded with both.
#[derive(Debug)]
pub struct SchedulerActorPromptLookupHybrid {
    neural: SchedulerActorMtp,
    window: PromptLookupWindow,
    current_source: Option<HybridDraftSource>,
    neural_dirty: bool,
    lookup_window_canonical: bool,
    measured_cycle: Option<PromptLookupMeasuredCycle>,
    lookup_episode: Option<PromptLookupEpisode>,
    stats: PromptLookupHybridStats,
    stage: HybridStage,
}

#[verifier::ext_equal]
pub struct HybridView {
    pub neural: SchedulerActorMtp,
    pub window: WindowView,
    /// What drafted the last window.
    pub current_source: Option<HybridDraftSource>,
    /// Whether the neural draft state has fallen behind.
    pub neural_dirty: bool,
    pub lookup_window_canonical: bool,
    pub measured_cycle: Option<PromptLookupMeasuredCycle>,
    pub lookup_episode: Option<EpisodeView>,
    pub stats: PromptLookupHybridStats,
    pub stage: HybridStage,
}

impl View for SchedulerActorPromptLookupHybrid {
    type V = HybridView;

    closed spec fn view(&self) -> HybridView {
        HybridView {
            neural: self.neural,
            window: self.window@,
            current_source: self.current_source,
            neural_dirty: self.neural_dirty,
            lookup_window_canonical: self.lookup_window_canonical,
            measured_cycle: self.measured_cycle,
            lookup_episode: crate::lookup_window::seen(self.lookup_episode),
            stats: self.stats,
            stage: self.stage,
        }
    }
}

/// One more window of a source.
pub open spec fn window_counted(stats: PromptLookupHybridStats, source: HybridDraftSource) -> PromptLookupHybridStats {
    match source {
        HybridDraftSource::Neural => PromptLookupHybridStats {
            neural_windows: crate::prompt_lookup::summed(stats.neural_windows, 1),
            ..stats
        },
        HybridDraftSource::PromptLookup => PromptLookupHybridStats {
            lookup_windows: crate::prompt_lookup::summed(stats.lookup_windows, 1),
            ..stats
        },
    }
}

/// One more switch between sources, if there was one.
pub open spec fn switch_counted(stats: PromptLookupHybridStats, switched: bool) -> PromptLookupHybridStats {
    PromptLookupHybridStats {
        source_switches: if switched {
            crate::prompt_lookup::summed(stats.source_switches, 1)
        } else {
            stats.source_switches
        },
        ..stats
    }
}

/// One more window that fell back to neural drafts, if it did.
pub open spec fn fallback_counted(stats: PromptLookupHybridStats, fell_back: bool) -> PromptLookupHybridStats {
    PromptLookupHybridStats {
        lookup_miss_fallbacks: if fell_back {
            crate::prompt_lookup::summed(stats.lookup_miss_fallbacks, 1)
        } else {
            stats.lookup_miss_fallbacks
        },
        ..stats
    }
}

/// Nanoseconds, held at what 64 bits can hold.
pub open spec fn held_ns(nanos: u128) -> u64 {
    if nanos <= u64::MAX {
        nanos as u64
    } else {
        u64::MAX
    }
}

/// Whole microseconds, held at what 64 bits can hold.
pub open spec fn held_us(nanos: u128) -> u64 {
    if nanos / 1000 <= u64::MAX {
        (nanos / 1000) as u64
    } else {
        u64::MAX
    }
}

/// One more time that the draft state was rebuilt.
pub open spec fn rebase_counted(stats: PromptLookupHybridStats, nanos: u128) -> PromptLookupHybridStats {
    PromptLookupHybridStats {
        neural_rebases: crate::prompt_lookup::summed(stats.neural_rebases, 1),
        neural_rebase_us: crate::prompt_lookup::summed(stats.neural_rebase_us, held_us(nanos)),
        ..stats
    }
}

/// The end of an episode, if there is one.
pub open spec fn ended(episode: Option<EpisodeView>, elapsed_ns: u64) -> Option<TransitionView> {
    match episode {
        Some(episode) => Some(
            TransitionView {
                regimes: episode.regimes,
                elapsed_ns,
                committed_tokens: episode.committed_tokens,
            },
        ),
        None => None,
    }
}

/// The effects, and then the record of the transition if there is one.
pub open spec fn recording(fx: Seq<ModeEffect>, transition: Option<TransitionView>) -> Seq<
    ModeEffect,
> {
    if transition is Some {
        fx.push(ModeEffect::RecordTransition)
    } else {
        fx
    }
}

fn record(fx: Vec<ModeEffect>, transition: &Option<LookupTransition>) -> (r: Vec<ModeEffect>)
    ensures
        r@ == recording(fx@, crate::lookup_window::seen(*transition)),
{
    let mut fx: Vec<ModeEffect> = fx;
    if transition.is_some() {
        fx.push(ModeEffect::RecordTransition);
    }
    fx
}

fn end_episode(episode: Option<PromptLookupEpisode>, elapsed_ns: u64) -> (transition: Option<
    LookupTransition,
>)
    ensures
        crate::lookup_window::seen(transition) == ended(
            crate::lookup_window::seen(episode),
            elapsed_ns,
        ),
{
    match episode {
        Some(episode) => Some(
            LookupTransition {
                regimes: episode.regimes,
                elapsed_ns,
                committed_tokens: episode.committed_tokens,
            },
        ),
        None => None,
    }
}

impl HybridView {
    pub open spec fn native(self) -> bool {
        self.neural.source == NeuralExactSource::QwenMtp
    }

    pub open spec fn fresh(neural: SchedulerActorMtp, cfg: PromptLookupConfig) -> HybridView {
        HybridView {
            neural,
            window: WindowView::fresh(cfg.max_draft_tokens),
            current_source: None,
            neural_dirty: false,
            lookup_window_canonical: false,
            measured_cycle: None,
            lookup_episode: None,
            stats: PromptLookupHybridStats::zero(),
            stage: HybridStage::Idle,
        }
    }

    pub open spec fn go(
        self,
        stage: HybridStage,
        fx: Seq<ModeEffect>,
        transition: Option<TransitionView>,
        action: ModeAction,
    ) -> (HybridView, ModeTurnView) {
        (HybridView { stage, ..self }, ModeTurnView { effects: fx, transition, action })
    }

    /// The operation is complete, and what it did is published once it is recorded.
    pub open spec fn done(self, fx: Seq<ModeEffect>, transition: Option<TransitionView>) -> (
        HybridView,
        ModeTurnView,
    ) {
        self.go(
            HybridStage::Idle,
            recording(fx, transition).push(ModeEffect::PublishLookup).push(
                ModeEffect::PublishHybrid(self.stats),
            ),
            transition,
            ModeAction::Done,
        )
    }

    /// Whether a request may enter the running batch now.
    pub open spec fn lets_in(self, f: ModeFactsView) -> bool {
        &&& self.measured_cycle is None
        &&& f.neural.at_boundary || (self.native() && f.neural.stats is None)
        &&& f.lookup_boundary
    }

    /// One decode step.
    pub open spec fn step_begun(self, admission_pending: bool, f: ModeFactsView) -> (
        HybridView,
        ModeTurnView,
    ) {
        if f.neural.stats is None {
            if self.native() {
                self.stepping_plain()
            } else {
                self.go(
                    HybridStage::PlainStepping { published: false },
                    Seq::empty(),
                    None,
                    ModeAction::StepPlain,
                )
            }
        } else if self.native() && f.neural.at_boundary {
            self.go(
                HybridStage::NextVerifying { admission_pending },
                Seq::empty(),
                None,
                ModeAction::AskNextWindowVerify,
            )
        } else {
            self.choosing(admission_pending, f)
        }
    }

    pub open spec fn stepping_plain(self) -> (HybridView, ModeTurnView) {
        self.go(
            HybridStage::PlainStepping { published: true },
            Seq::empty(),
            None,
            ModeAction::StepLookupOrdinary,
        )
    }

    pub open spec fn source(self) -> HybridDraftSource {
        match self.current_source {
            Some(source) => source,
            None => HybridDraftSource::Neural,
        }
    }

    /// Whether a window of the source has just ended.
    pub open spec fn boundary(source: HybridDraftSource, f: ModeFactsView) -> bool {
        match source {
            HybridDraftSource::Neural => f.neural.at_boundary,
            HybridDraftSource::PromptLookup => f.lookup_boundary,
        }
    }

    pub open spec fn options(self, admission_pending: bool) -> WindowOptions {
        WindowOptions {
            allow_cross_request: true,
            capture_accepted_hidden: self.native(),
            match_mtp_verify_shape: self.native(),
            force_ordinary: admission_pending,
        }
    }

    /// Between windows the next one is chosen; within one its source goes on.
    pub open spec fn choosing(self, admission_pending: bool, f: ModeFactsView) -> (
        HybridView,
        ModeTurnView,
    ) {
        if self.measured_cycle is None && Self::boundary(self.source(), f) {
            self.selected(self.window.begun(self.options(admission_pending), f.window), f)
        } else {
            self.running(self.source(), false, None, Seq::empty(), None, f)
        }
    }

    /// The choice of a window got this far.
    pub open spec fn selected(self, r: (WindowView, WindowTurnView), f: ModeFactsView) -> (
        HybridView,
        ModeTurnView,
    ) {
        let s = HybridView { window: r.0, ..self };
        let fx = crate::mode_types::windowed(r.1.effects);
        match r.1.action {
            WindowAction::Decided(decision) => s.decided(decision, fx, f),
            action => s.go(HybridStage::Selecting, fx, None, ModeAction::Window(action)),
        }
    }

    /// The next window is chosen. Neural drafts that have fallen behind are rebuilt first.
    pub open spec fn decided(
        self,
        decision: PromptLookupWindowDecision,
        fx: Seq<ModeEffect>,
        f: ModeFactsView,
    ) -> (HybridView, ModeTurnView) {
        let lookup = decision.action == PromptLookupCostAction::Lookup;
        let source = if lookup {
            HybridDraftSource::PromptLookup
        } else {
            HybridDraftSource::Neural
        };
        let fx = if lookup { fx } else { fx.push(ModeEffect::Window(WindowEffect::Discard)) };
        let canonical = self.native() && crate::lookup_window::on_canonical_target(
            source,
            decision.regime,
        );
        let kept = if canonical { HybridDraftSource::Neural } else { source };
        let switched = self.current_source matches Some(previous) && previous != kept;
        let ends = self.native() && !lookup && self.current_source == Some(
            HybridDraftSource::PromptLookup,
        ) && !self.neural_dirty;
        let s = HybridView {
            current_source: Some(kept),
            lookup_window_canonical: if self.native() && lookup {
                false
            } else {
                self.lookup_window_canonical
            },
            lookup_episode: if ends { None } else { self.lookup_episode },
            stats: switch_counted(
                fallback_counted(self.stats, !lookup && decision.fallback_to_baseline),
                switched,
            ),
            ..self
        };
        let transition = if ends { ended(self.lookup_episode, 0) } else { None };
        if (!lookup || canonical) && self.neural_dirty {
            s.go(
                HybridStage::Rebasing { source, canonical, decision },
                fx,
                None,
                ModeAction::Rebase,
            )
        } else {
            s.running(source, canonical, Some(decision), fx, transition, f)
        }
    }

    /// The neural drafts are up to date again.
    pub open spec fn rebased(self, nanos: u128) -> HybridView {
        HybridView {
            stats: rebase_counted(self.stats, nanos),
            lookup_episode: None,
            neural_dirty: false,
            ..self
        }
    }

    /// The cycle that a window is measured in.
    pub open spec fn cycle(
        self,
        decision: Option<PromptLookupWindowDecision>,
        f: ModeFactsView,
    ) -> Option<PromptLookupMeasuredCycle> {
        if self.measured_cycle is Some {
            self.measured_cycle
        } else {
            let begun = |regime: PromptLookupQualificationRegime|
                PromptLookupMeasuredCycle {
                    regime,
                    action: match decision {
                        Some(decision) => decision.action,
                        None => PromptLookupCostAction::Ordinary,
                    },
                    elapsed_ns: match decision {
                        Some(decision) => decision.proposal_elapsed_ns,
                        None => 0,
                    },
                    committed_tokens: 0,
                    stats_before: match decision {
                        Some(decision) => decision.stats_before,
                        None => f.window.stats_now(),
                    },
                };
            match (decision, f.window.base_regime) {
                (Some(decision), _) if decision.regime is Some => Some(begun(decision.regime->0)),
                (_, Some(regime)) => Some(begun(regime)),
                _ => None,
            }
        }
    }

    pub open spec fn running(
        self,
        source: HybridDraftSource,
        canonical: bool,
        decision: Option<PromptLookupWindowDecision>,
        fx: Seq<ModeEffect>,
        transition: Option<TransitionView>,
        f: ModeFactsView,
    ) -> (HybridView, ModeTurnView) {
        (HybridView { measured_cycle: self.cycle(decision, f), ..self }).go(
            HybridStage::Stepping { source, canonical },
            recording(fx, transition).push(ModeEffect::CountStep),
            transition,
            match source {
                HybridDraftSource::Neural => ModeAction::StepDraft { postfill: false },
                HybridDraftSource::PromptLookup => if canonical {
                    ModeAction::StepDraftObserving
                } else if self.native() {
                    ModeAction::StepLookupWithVerify
                } else {
                    ModeAction::StepLookupWindow
                },
            },
        )
    }

    /// The step is done; at the end of its window, what the window cost is reported.
    pub open spec fn finished(
        self,
        attempted: HybridDraftSource,
        source: HybridDraftSource,
        events: usize,
        elapsed_ns: u64,
        fx: Seq<ModeEffect>,
        f: ModeFactsView,
    ) -> (HybridView, ModeTurnView) {
        let cycle = match self.measured_cycle {
            Some(cycle) => Some(cycle.with(elapsed_ns, events)),
            None => None,
        };
        if !Self::boundary(source, f) {
            (HybridView { measured_cycle: cycle, ..self }).done(fx, None)
        } else {
            let lookup = source == HybridDraftSource::PromptLookup;
            let s = HybridView {
                stats: window_counted(self.stats, source),
                neural_dirty: self.neural_dirty || lookup,
                lookup_window_canonical: if self.native() && lookup {
                    false
                } else {
                    self.lookup_window_canonical
                },
                measured_cycle: None,
                ..self
            };
            match cycle {
                None => s.done(fx, None),
                Some(cycle) => (HybridView {
                    lookup_episode: if lookup && attempted == source {
                        Some(
                            (match self.lookup_episode {
                                Some(episode) => episode,
                                None => EpisodeView::fresh(),
                            }).with(cycle.regime, cycle.committed_tokens),
                        )
                    } else {
                        self.lookup_episode
                    },
                    ..s
                }).done(
                    fx.push(
                        ModeEffect::LookupSample(
                            PromptLookupSample {
                                regime: cycle.regime,
                                action: cycle.action,
                                elapsed_ns: cycle.elapsed_ns,
                                committed_tokens: cycle.committed_tokens,
                                delta: f.window.stats_now().since(cycle.stats_before),
                                adaptive: !self.native(),
                            },
                        ),
                    ),
                    None,
                ),
            }
        }
    }

    /// A step came out.
    pub open spec fn stepped(self, event: ModeEvent, f: ModeFactsView) -> (HybridView, ModeTurnView) {
        match (self.stage, event) {
            (HybridStage::PlainStepping { published }, _) => if published {
                self.done(Seq::empty(), None)
            } else {
                self.go(HybridStage::Idle, Seq::empty(), None, ModeAction::Done)
            },
            (
                HybridStage::Stepping { source: HybridDraftSource::Neural, .. },
                ModeEvent::Stepped { events, .. },
            ) => self.go(
                HybridStage::Committing { attempted: HybridDraftSource::Neural, events },
                Seq::empty(),
                None,
                ModeAction::CommitLookup,
            ),
            (
                HybridStage::Stepping { source: HybridDraftSource::PromptLookup, canonical },
                ModeEvent::Stepped { events, elapsed_ns },
            ) => if canonical {
                (HybridView {
                    neural_dirty: false,
                    lookup_window_canonical: true,
                    ..self
                }).finished(
                    HybridDraftSource::PromptLookup,
                    HybridDraftSource::Neural,
                    events,
                    elapsed_ns,
                    seq![ModeEffect::StoreNeuralStats],
                    f,
                )
            } else {
                self.finished(
                    HybridDraftSource::PromptLookup,
                    HybridDraftSource::PromptLookup,
                    events,
                    elapsed_ns,
                    Seq::empty(),
                    f,
                )
            },
            (
                HybridStage::Stepping { .. },
                ModeEvent::LookupStepped { events, elapsed_ns, canonical },
            ) => (HybridView {
                lookup_window_canonical: self.lookup_window_canonical || canonical,
                ..self
            }).finished(
                HybridDraftSource::PromptLookup,
                HybridDraftSource::PromptLookup,
                events,
                elapsed_ns,
                Seq::empty(),
                f,
            ),
            (HybridStage::Stepping { .. }, ModeEvent::FallbackToNeural) => self.go(
                HybridStage::FallbackStepping,
                Seq::empty(),
                None,
                ModeAction::StepDraft { postfill: false },
            ),
            (HybridStage::FallbackStepping, ModeEvent::Stepped { events, .. }) => self.go(
                HybridStage::Committing { attempted: HybridDraftSource::PromptLookup, events },
                Seq::empty(),
                None,
                ModeAction::CommitLookup,
            ),
            (
                HybridStage::Committing { attempted: HybridDraftSource::Neural, events },
                ModeEvent::Committed { elapsed_ns },
            ) => self.finished(
                HybridDraftSource::Neural,
                HybridDraftSource::Neural,
                events,
                elapsed_ns,
                seq![ModeEffect::StoreNeuralStats],
                f,
            ),
            (
                HybridStage::Committing { attempted: HybridDraftSource::PromptLookup, events },
                ModeEvent::Committed { elapsed_ns },
            ) => (HybridView {
                stats: switch_counted(
                    self.stats,
                    self.current_source != Some(HybridDraftSource::Neural),
                ),
                current_source: Some(HybridDraftSource::Neural),
                neural_dirty: false,
                lookup_window_canonical: false,
                ..self
            }).finished(
                HybridDraftSource::PromptLookup,
                HybridDraftSource::Neural,
                events,
                elapsed_ns,
                seq![ModeEffect::StoreNeuralStats],
                f,
            ),
            _ => self.go(HybridStage::Idle, Seq::empty(), None, ModeAction::Done),
        }
    }

    /// A fresh batch is prefilled with neural drafts.
    pub open spec fn prefill_begun(self, f: ModeFactsView) -> (HybridView, ModeTurnView) {
        self.prefilling(self.neural.prefill_begun(f.neural), f)
    }

    pub open spec fn prefilling(self, r: (SchedulerActorMtp, ModeTurnView), f: ModeFactsView) -> (
        HybridView,
        ModeTurnView,
    ) {
        let s = HybridView { neural: r.0, ..self };
        if r.1.action != ModeAction::Done {
            s.go(HybridStage::Prefilling, r.1.effects, None, r.1.action)
        } else if self.native() || f.neural.stats is Some {
            s.go(HybridStage::Initializing, r.1.effects, None, ModeAction::InitializeLookup)
        } else {
            s.go(HybridStage::Idle, r.1.effects, None, ModeAction::Done)
        }
    }

    /// The batch has changed: it begins with neural drafts that are up to date.
    pub open spec fn begun_anew(self) -> HybridView {
        HybridView {
            current_source: Some(HybridDraftSource::Neural),
            lookup_window_canonical: if self.native() {
                false
            } else {
                self.lookup_window_canonical
            },
            measured_cycle: None,
            lookup_episode: None,
            window: self.window.forgetting(),
            ..self
        }
    }

    /// A request is to enter the running batch.
    pub open spec fn mid_begun(self, pipelinable: bool, f: ModeFactsView) -> (
        HybridView,
        ModeTurnView,
    ) {
        if !pipelinable {
            self.go(HybridStage::Idle, Seq::empty(), None, ModeAction::Refuse)
        } else if self.native() && self.neural_dirty {
            self.go(HybridStage::MidRebasing, Seq::empty(), None, ModeAction::Rebase)
        } else {
            self.mid_neural(None, f)
        }
    }

    pub open spec fn mid_neural(self, transition: Option<TransitionView>, f: ModeFactsView) -> (
        HybridView,
        ModeTurnView,
    ) {
        let s = if self.native() {
            HybridView {
                current_source: Some(HybridDraftSource::Neural),
                lookup_window_canonical: false,
                measured_cycle: None,
                ..self
            }
        } else {
            self
        };
        s.mid_beginning(self.neural.mid_begun(f.neural), transition)
    }

    pub open spec fn mid_beginning(
        self,
        r: (SchedulerActorMtp, ModeTurnView),
        transition: Option<TransitionView>,
    ) -> (HybridView, ModeTurnView) {
        (HybridView { neural: r.0, ..self }).go(
            if r.0.stage == NeuralStage::Idle {
                HybridStage::Idle
            } else {
                HybridStage::MidBeginning
            },
            recording(Seq::empty(), transition) + r.1.effects,
            transition,
            r.1.action,
        )
    }

    pub open spec fn finalizing(self, kind: MidAdmitKind) -> (HybridView, ModeTurnView) {
        let r = self.neural.finalizing(kind);
        (HybridView { neural: r.0, ..self }).go(
            HybridStage::Finalizing,
            r.1.effects,
            None,
            r.1.action,
        )
    }

    /// The admitted request is in the index: the batch begins anew.
    pub open spec fn registered(self) -> (HybridView, ModeTurnView) {
        if !self.native() && self.neural_dirty {
            self.go(HybridStage::FinalRebasing, Seq::empty(), None, ModeAction::Rebase)
        } else {
            self.begun_anew().done(Seq::empty(), None)
        }
    }

    /// What follows the outcome of an action.
    pub open spec fn after_event(self, event: ModeEvent, f: ModeFactsView) -> (
        HybridView,
        ModeTurnView,
    ) {
        match (self.stage, event) {
            (HybridStage::NextVerifying { admission_pending }, ModeEvent::Eligible { eligible }) => {
                if eligible {
                    self.choosing(admission_pending, f)
                } else {
                    self.go(
                        HybridStage::Retiring,
                        seq![ModeEffect::StoreNeuralStats],
                        None,
                        ModeAction::Retire,
                    )
                }
            },
            (HybridStage::Retiring, ModeEvent::Done) => self.stepping_plain(),
            (HybridStage::Selecting, ModeEvent::Window(event)) => self.selected(
                self.window.after_event(event, f.window),
                f,
            ),
            (
                HybridStage::Rebasing { source, canonical, decision },
                ModeEvent::Rebased { nanos },
            ) => self.rebased(nanos).running(
                source,
                canonical,
                Some(decision),
                Seq::empty(),
                ended(self.lookup_episode, held_ns(nanos)),
                f,
            ),
            (HybridStage::Prefilling, _) => self.prefilling(
                self.neural.after_event(event, f.neural),
                f,
            ),
            (HybridStage::Initializing, ModeEvent::Done) => (HybridView {
                neural_dirty: false,
                ..self.begun_anew()
            }).done(Seq::empty(), None),
            (HybridStage::MidRebasing, ModeEvent::Rebased { nanos }) => self.rebased(
                nanos,
            ).mid_neural(ended(self.lookup_episode, held_ns(nanos)), f),
            (HybridStage::MidBeginning, _) => self.mid_beginning(
                self.neural.after_event(event, f.neural),
                None,
            ),
            (HybridStage::Finalizing, ModeEvent::Finalized { ok }) => {
                let r = self.neural.after_event(event, f.neural);
                (HybridView { neural: r.0, ..self }).go(
                    if ok { HybridStage::Registering } else { HybridStage::Idle },
                    r.1.effects,
                    None,
                    if ok { ModeAction::RegisterLookup } else { ModeAction::Done },
                )
            },
            (HybridStage::Registering, ModeEvent::Done) => self.registered(),
            (HybridStage::FinalRebasing, ModeEvent::Rebased { nanos }) => self.rebased(
                nanos,
            ).begun_anew().done(Seq::empty(), ended(self.lookup_episode, held_ns(nanos))),
            _ => self.stepped(event, f),
        }
    }

    /// Whether `event` is an outcome of what is being waited for.
    pub open spec fn awaits(self, event: ModeEvent) -> bool {
        match self.stage {
            HybridStage::Idle => false,
            HybridStage::PlainStepping { .. } => event is Stepped,
            HybridStage::NextVerifying { .. } => event is Eligible,
            HybridStage::Retiring => event is Done,
            HybridStage::Selecting => event matches ModeEvent::Window(event)
                && self.window.stage.awaits(event),
            HybridStage::Rebasing { .. } => event is Rebased,
            HybridStage::Stepping { source, canonical } => if source
                == HybridDraftSource::PromptLookup && !canonical && self.native() {
                event is LookupStepped || event is FallbackToNeural
            } else {
                event is Stepped
            },
            HybridStage::FallbackStepping => event is Stepped,
            HybridStage::Committing { .. } => event is Committed,
            HybridStage::Prefilling => self.neural.stage.awaits(event),
            HybridStage::Initializing => event is Done,
            HybridStage::MidRebasing => event is Rebased,
            HybridStage::MidBeginning => self.neural.stage.awaits(event),
            HybridStage::Finalizing => event is Finalized && self.neural.stage.awaits(event),
            HybridStage::Registering => event is Done,
            HybridStage::FinalRebasing => event is Rebased,
        }
    }
}

impl SchedulerActorPromptLookupHybrid {
    pub fn new(source: NeuralExactSource, draft_tokens: usize, cfg: PromptLookupConfig) -> (mode:
        Self)
        requires
            draft_tokens > 0,
        ensures
            mode@ == HybridView::fresh(
                SchedulerActorMtp {
                    source,
                    cfg: MtpSpeculativeConfig { max_draft_tokens: draft_tokens },
                    qualified: false,
                    exact_episode: None,
                    stage: NeuralStage::Idle,
                },
                cfg,
            ),
    {
        SchedulerActorPromptLookupHybrid {
            neural: SchedulerActorMtp::new(source, draft_tokens),
            window: PromptLookupWindow::new(cfg.max_draft_tokens),
            current_source: None,
            neural_dirty: false,
            lookup_window_canonical: false,
            measured_cycle: None,
            lookup_episode: None,
            stats: PromptLookupHybridStats::default(),
            stage: HybridStage::Idle,
        }
    }

    pub fn stage(&self) -> (stage: HybridStage)
        ensures
            stage == self@.stage,
    {
        self.stage
    }

    pub fn stats(&self) -> (stats: PromptLookupHybridStats)
        ensures
            stats == self@.stats,
    {
        self.stats
    }

    fn native(&self) -> (r: bool)
        ensures
            r == self@.native(),
    {
        self.neural.source == NeuralExactSource::QwenMtp
    }

    pub fn can_start_rolling_mid_admit(&self, f: &ModeFacts) -> (r: bool)
        ensures
            r == self@.lets_in(f@),
    {
        self.measured_cycle.is_none() && (f.neural.at_boundary || (self.native()
            && f.neural.stats.is_none())) && f.lookup_boundary
    }

    fn go(
        &mut self,
        stage: HybridStage,
        fx: Vec<ModeEffect>,
        transition: Option<LookupTransition>,
        action: ModeAction,
    ) -> (turn: ModeTurn)
        ensures
            final(self)@ == old(self)@.go(
                stage,
                fx@,
                crate::lookup_window::seen(transition),
                action,
            ).0,
            turn@ == old(self)@.go(stage, fx@, crate::lookup_window::seen(transition), action).1,
    {
        self.stage = stage;
        ModeTurn { effects: fx, transition, action }
    }

    fn done(&mut self, fx: Vec<ModeEffect>, transition: Option<LookupTransition>) -> (turn: ModeTurn)
        ensures
            final(self)@ == old(self)@.done(fx@, crate::lookup_window::seen(transition)).0,
            turn@ == old(self)@.done(fx@, crate::lookup_window::seen(transition)).1,
    {
        let mut fx: Vec<ModeEffect> = record(fx, &transition);
        fx.push(ModeEffect::PublishLookup);
        fx.push(ModeEffect::PublishHybrid(self.stats));
        self.go(HybridStage::Idle, fx, transition, ModeAction::Done)
    }

    /// Begins a decode step.
    pub fn step(&mut self, admission_pending: bool, f: &ModeFacts) -> (turn: ModeTurn)
        ensures
            final(self)@ == old(self)@.step_begun(admission_pending, f@).0,
            turn@ == old(self)@.step_begun(admission_pending, f@).1,
    {
        if f.neural.stats.is_none() {
            if self.native() {
                self.step_plain()
            } else {
                self.go(
                    HybridStage::PlainStepping { published: false },
                    Vec::new(),
                    None,
                    ModeAction::StepPlain,
                )
            }
        } else if self.native() && f.neural.at_boundary {
            self.go(
                HybridStage::NextVerifying { admission_pending },
                Vec::new(),
                None,
                ModeAction::AskNextWindowVerify,
            )
        } else {
            self.choose_window(admission_pending, f)
        }
    }

    fn step_plain(&mut self) -> (turn: ModeTurn)
        ensures
            final(self)@ == old(self)@.stepping_plain().0,
            turn@ == old(self)@.stepping_plain().1,
    {
        self.go(
            HybridStage::PlainStepping { published: true },
            Vec::new(),
            None,
            ModeAction::StepLookupOrdinary,
        )
    }

    fn at_boundary(source: HybridDraftSource, f: &ModeFacts) -> (r: bool)
        ensures
            r == HybridView::boundary(source, f@),
    {
        match source {
            HybridDraftSource::Neural => f.neural.at_boundary,
            HybridDraftSource::PromptLookup => f.lookup_boundary,
        }
    }

    fn choose_window(&mut self, admission_pending: bool, f: &ModeFacts) -> (turn: ModeTurn)
        ensures
            final(self)@ == old(self)@.choosing(admission_pending, f@).0,
            turn@ == old(self)@.choosing(admission_pending, f@).1,
    {
        let source: HybridDraftSource = match self.current_source {
            Some(source) => source,
            None => HybridDraftSource::Neural,
        };
        if self.measured_cycle.is_none() && Self::at_boundary(source, f) {
            let options: WindowOptions = WindowOptions {
                allow_cross_request: true,
                capture_accepted_hidden: self.native(),
                match_mtp_verify_shape: self.native(),
                force_ordinary: admission_pending,
            };
            let turn: WindowTurn = self.window.select_prepared_window(options, &f.window);
            self.select(turn, f)
        } else {
            self.run(source, false, None, Vec::new(), None, f)
        }
    }

    fn select(&mut self, turn: WindowTurn, f: &ModeFacts) -> (r: ModeTurn)
        ensures
            final(self)@ == old(self)@.selected((old(self)@.window, turn@), f@).0,
            r@ == old(self)@.selected((old(self)@.window, turn@), f@).1,
    {
        let fx: Vec<ModeEffect> = crate::mode_types::as_mode_effects(&turn.effects);
        match turn.action {
            WindowAction::Decided(decision) => self.decide(decision, fx, f),
            action => self.go(HybridStage::Selecting, fx, None, ModeAction::Window(action)),
        }
    }

    fn decide(&mut self, decision: PromptLookupWindowDecision, fx: Vec<ModeEffect>, f: &ModeFacts) -> (turn:
        ModeTurn)
        ensures
            final(self)@ == old(self)@.decided(decision, fx@, f@).0,
            turn@ == old(self)@.decided(decision, fx@, f@).1,
    {
        let mut fx: Vec<ModeEffect> = fx;
        let native: bool = self.native();
        let lookup: bool = decision.action == PromptLookupCostAction::Lookup;
        let source: HybridDraftSource = if lookup {
            HybridDraftSource::PromptLookup
        } else {
            HybridDraftSource::Neural
        };
        if !lookup {
            if decision.fallback_to_baseline {
                self.stats.lookup_miss_fallbacks = self.stats.lookup_miss_fallbacks.saturating_add(1);
            }
            fx.push(ModeEffect::Window(WindowEffect::Discard));
        }
        let canonical: bool = native && qwen_hybrid_uses_canonical_target(source, decision.regime);
        let kept: HybridDraftSource = if canonical {
            HybridDraftSource::Neural
        } else {
            source
        };
        let previous: Option<HybridDraftSource> = self.current_source;
        if let Some(previous) = previous {
            if previous != kept {
                self.stats.source_switches = self.stats.source_switches.saturating_add(1);
            }
        }
        self.current_source = Some(kept);
        let mut transition: Option<LookupTransition> = None;
        if native {
            if lookup {
                self.lookup_window_canonical = false;
            } else if previous == Some(HybridDraftSource::PromptLookup) && !self.neural_dirty {
                transition = end_episode(self.lookup_episode.take(), 0);
            }
        }
        if (!lookup || canonical) && self.neural_dirty {
            self.go(
                HybridStage::Rebasing { source, canonical, decision },
                fx,
                None,
                ModeAction::Rebase,
            )
        } else {
            self.run(source, canonical, Some(decision), fx, transition, f)
        }
    }

    fn rebase(&mut self, nanos: u128) -> (transition: Option<LookupTransition>)
        ensures
            final(self)@ == old(self)@.rebased(nanos),
            crate::lookup_window::seen(transition) == ended(
                old(self)@.lookup_episode,
                held_ns(nanos),
            ),
    {
        self.stats.neural_rebases = self.stats.neural_rebases.saturating_add(1);
        self.stats.neural_rebase_us = self.stats.neural_rebase_us.saturating_add(duration_us(nanos));
        self.neural_dirty = false;
        end_episode(self.lookup_episode.take(), duration_ns(nanos))
    }

    fn run(
        &mut self,
        source: HybridDraftSource,
        canonical: bool,
        decision: Option<PromptLookupWindowDecision>,
        fx: Vec<ModeEffect>,
        transition: Option<LookupTransition>,
        f: &ModeFacts,
    ) -> (turn: ModeTurn)
        ensures
            final(self)@ == old(self)@.running(
                source,
                canonical,
                decision,
                fx@,
                crate::lookup_window::seen(transition),
                f@,
            ).0,
            turn@ == old(self)@.running(
                source,
                canonical,
                decision,
                fx@,
                crate::lookup_window::seen(transition),
                f@,
            ).1,
    {
        let mut fx: Vec<ModeEffect> = record(fx, &transition);
        if self.measured_cycle.is_none() {
            let regime: Option<PromptLookupQualificationRegime> = match decision {
                Some(decision) => match decision.regime {
                    Some(regime) => Some(regime),
                    None => f.window.base_regime,
                },
                None => f.window.base_regime,
            };
            if let Some(regime) = regime {
                self.measured_cycle = Some(
                    match decision {
                        Some(decision) => PromptLookupMeasuredCycle {
                            regime,
                            action: decision.action,
                            elapsed_ns: decision.proposal_elapsed_ns,
                            committed_tokens: 0,
                            stats_before: decision.stats_before,
                        },
                        None => PromptLookupMeasuredCycle {
                            regime,
                            action: PromptLookupCostAction::Ordinary,
                            elapsed_ns: 0,
                            committed_tokens: 0,
                            stats_before: f.window.stats_or_zero(),
                        },
                    },
                );
            }
        }
        fx.push(ModeEffect::CountStep);
        let action: ModeAction = match source {
            HybridDraftSource::Neural => ModeAction::StepDraft { postfill: false },
            HybridDraftSource::PromptLookup => if canonical {
                ModeAction::StepDraftObserving
            } else if self.native() {
                ModeAction::StepLookupWithVerify
            } else {
                ModeAction::StepLookupWindow
            },
        };
        self.go(HybridStage::Stepping { source, canonical }, fx, transition, action)
    }

    fn finish(
        &mut self,
        attempted: HybridDraftSource,
        source: HybridDraftSource,
        events: usize,
        elapsed_ns: u64,
        fx: Vec<ModeEffect>,
        f: &ModeFacts,
    ) -> (turn: ModeTurn)
        ensures
            final(self)@ == old(self)@.finished(attempted, source, events, elapsed_ns, fx@, f@).0,
            turn@ == old(self)@.finished(attempted, source, events, elapsed_ns, fx@, f@).1,
    {
        let mut fx: Vec<ModeEffect> = fx;
        let cycle: Option<PromptLookupMeasuredCycle> = match self.measured_cycle {
            Some(cycle) => Some(cycle.plus(elapsed_ns, events)),
            None => None,
        };
        if !Self::at_boundary(source, f) {
            self.measured_cycle = cycle;
            return self.done(fx, None);
        }
        match source {
            HybridDraftSource::Neural => {
                self.stats.neural_windows = self.stats.neural_windows.saturating_add(1);
            },
            HybridDraftSource::PromptLookup => {
                self.stats.lookup_windows = self.stats.lookup_windows.saturating_add(1);
                self.neural_dirty = true;
                if self.native() {
                    self.lookup_window_canonical = false;
                }
            },
        }
        self.measured_cycle = None;
        if let Some(cycle) = cycle {
            let adaptive: bool = !self.native();
            fx.push(
                ModeEffect::LookupSample(
                    PromptLookupSample {
                        regime: cycle.regime,
                        action: cycle.action,
                        elapsed_ns: cycle.elapsed_ns,
                        committed_tokens: cycle.committed_tokens,
                        delta: f.window.stats_or_zero().saturating_delta_since(cycle.stats_before),
                        adaptive,
                    },
                ),
            );
            if attempted == HybridDraftSource::PromptLookup && source
                == HybridDraftSource::PromptLookup {
                let mut episode: PromptLookupEpisode = match self.lookup_episode.take() {
                    Some(episode) => episode,
                    None => PromptLookupEpisode::new(),
                };
                episode.record(cycle.regime, cycle.committed_tokens);
                self.lookup_episode = Some(episode);
            }
        }
        self.done(fx, None)
    }

    fn step_done(&mut self, event: ModeEvent, f: &ModeFacts) -> (turn: ModeTurn)
        ensures
            final(self)@ == old(self)@.stepped(event, f@).0,
            turn@ == old(self)@.stepped(event, f@).1,
    {
        let mut fx: Vec<ModeEffect> = Vec::new();
        let lookup: HybridDraftSource = HybridDraftSource::PromptLookup;
        let neural: HybridDraftSource = HybridDraftSource::Neural;
        match (self.stage, event) {
            (HybridStage::PlainStepping { published }, _) => {
                if published {
                    self.done(fx, None)
                } else {
                    self.go(HybridStage::Idle, fx, None, ModeAction::Done)
                }
            },
            (HybridStage::Stepping { source, canonical }, ModeEvent::Stepped { events, elapsed_ns }) => {
                match source {
                    HybridDraftSource::Neural => self.go(
                        HybridStage::Committing { attempted: neural, events },
                        fx,
                        None,
                        ModeAction::CommitLookup,
                    ),
                    HybridDraftSource::PromptLookup => {
                        if canonical {
                            self.neural_dirty = false;
                            self.lookup_window_canonical = true;
                            fx.push(ModeEffect::StoreNeuralStats);
                            self.finish(lookup, neural, events, elapsed_ns, fx, f)
                        } else {
                            self.finish(lookup, lookup, events, elapsed_ns, fx, f)
                        }
                    },
                }
            },
            (
                HybridStage::Stepping { .. },
                ModeEvent::LookupStepped { events, elapsed_ns, canonical },
            ) => {
                self.lookup_window_canonical = self.lookup_window_canonical || canonical;
                self.finish(lookup, lookup, events, elapsed_ns, fx, f)
            },
            (HybridStage::Stepping { .. }, ModeEvent::FallbackToNeural) => self.go(
                HybridStage::FallbackStepping,
                fx,
                None,
                ModeAction::StepDraft { postfill: false },
            ),
            (HybridStage::FallbackStepping, ModeEvent::Stepped { events, .. }) => self.go(
                HybridStage::Committing { attempted: lookup, events },
                fx,
                None,
                ModeAction::CommitLookup,
            ),
            (HybridStage::Committing { attempted, events }, ModeEvent::Committed { elapsed_ns }) => {
                fx.push(ModeEffect::StoreNeuralStats);
                if attempted == lookup {
                    if self.current_source != Some(neural) {
                        self.stats.source_switches = self.stats.source_switches.saturating_add(1);
                    }
                    self.current_source = Some(neural);
                    self.neural_dirty = false;
                    self.lookup_window_canonical = false;
                }
                self.finish(attempted, neural, events, elapsed_ns, fx, f)
            },
            _ => self.go(HybridStage::Idle, fx, None, ModeAction::Done),
        }
    }

    /// Begins to prefill a fresh batch.
    pub fn prefill_admitted(&mut self, f: &ModeFacts) -> (turn: ModeTurn)
        ensures
            final(self)@ == old(self)@.prefill_begun(f@).0,
            turn@ == old(self)@.prefill_begun(f@).1,
    {
        let turn: ModeTurn = self.neural.prefill_admitted(f.neural);
        self.prefill(turn, f)
    }

    fn prefill(&mut self, turn: ModeTurn, f: &ModeFacts) -> (r: ModeTurn)
        ensures
            final(self)@ == old(self)@.prefilling((old(self)@.neural, turn@), f@).0,
            r@ == old(self)@.prefilling((old(self)@.neural, turn@), f@).1,
    {
        if turn.action != ModeAction::Done {
            self.go(HybridStage::Prefilling, turn.effects, None, turn.action)
        } else if self.native() || f.neural.stats.is_some() {
            self.go(HybridStage::Initializing, turn.effects, None, ModeAction::InitializeLookup)
        } else {
            self.go(HybridStage::Idle, turn.effects, None, ModeAction::Done)
        }
    }

    fn begin_anew(&mut self)
        ensures
            final(self)@ == old(self)@.begun_anew(),
    {
        self.current_source = Some(HybridDraftSource::Neural);
        if self.native() {
            self.lookup_window_canonical = false;
        }
        self.measured_cycle = None;
        self.lookup_episode = None;
        self.window.forget();
    }

    /// Begins to let a request into the running batch. Only greedy requests can be served.
    pub fn begin_mid_admit(&mut self, pipelinable: bool, f: &ModeFacts) -> (turn: ModeTurn)
        ensures
            final(self)@ == old(self)@.mid_begun(pipelinable, f@).0,
            turn@ == old(self)@.mid_begun(pipelinable, f@).1,
    {
        if !pipelinable {
            self.go(HybridStage::Idle, Vec::new(), None, ModeAction::Refuse)
        } else if self.native() && self.neural_dirty {
            self.go(HybridStage::MidRebasing, Vec::new(), None, ModeAction::Rebase)
        } else {
            self.begin_mid_neural(None, f)
        }
    }

    fn begin_mid_neural(&mut self, transition: Option<LookupTransition>, f: &ModeFacts) -> (turn:
        ModeTurn)
        ensures
            final(self)@ == old(self)@.mid_neural(crate::lookup_window::seen(transition), f@).0,
            turn@ == old(self)@.mid_neural(crate::lookup_window::seen(transition), f@).1,
    {
        if self.native() {
            self.current_source = Some(HybridDraftSource::Neural);
            self.lookup_window_canonical = false;
            self.measured_cycle = None;
        }
        let turn: ModeTurn = self.neural.begin_mid_admit(f.neural);
        self.mid_begin(turn, transition)
    }

    fn mid_begin(&mut self, turn: ModeTurn, transition: Option<LookupTransition>) -> (r: ModeTurn)
        ensures
            final(self)@ == old(self)@.mid_beginning(
                (old(self)@.neural, turn@),
                crate::lookup_window::seen(transition),
            ).0,
            r@ == old(self)@.mid_beginning(
                (old(self)@.neural, turn@),
                crate::lookup_window::seen(transition),
            ).1,
    {
        let stage: HybridStage = if self.neural.stage == NeuralStage::Idle {
            HybridStage::Idle
        } else {
            HybridStage::MidBeginning
        };
        let mut fx: Vec<ModeEffect> = record(Vec::new(), &transition);
        let mut effects: Vec<ModeEffect> = turn.effects;
        fx.append(&mut effects);
        self.go(stage, fx, transition, turn.action)
    }

    /// Lets the request join the running rows once its prompt is prefilled.
    pub fn finalize_mid_admit(&mut self, kind: MidAdmitKind) -> (turn: ModeTurn)
        ensures
            final(self)@ == old(self)@.finalizing(kind).0,
            turn@ == old(self)@.finalizing(kind).1,
    {
        let turn: ModeTurn = self.neural.finalize_mid_admit(kind);
        self.go(HybridStage::Finalizing, turn.effects, None, turn.action)
    }

    /// Goes on after the outcome of the last action.
    pub fn resume(&mut self, event: ModeEvent, f: &ModeFacts) -> (turn: ModeTurn)
        requires
            old(self)@.awaits(event),
        ensures
            final(self)@ == old(self)@.after_event(event, f@).0,
            turn@ == old(self)@.after_event(event, f@).1,
    {
        let mut fx: Vec<ModeEffect> = Vec::new();
        match (self.stage, event) {
            (HybridStage::NextVerifying { admission_pending }, ModeEvent::Eligible { eligible }) => {
                if eligible {
                    self.choose_window(admission_pending, f)
                } else {
                    fx.push(ModeEffect::StoreNeuralStats);
                    self.go(HybridStage::Retiring, fx, None, ModeAction::Retire)
                }
            },
            (HybridStage::Retiring, ModeEvent::Done) => self.step_plain(),
            (HybridStage::Selecting, ModeEvent::Window(event)) => {
                let turn: WindowTurn = self.window.resume(event, &f.window);
                self.select(turn, f)
            },
            (
                HybridStage::Rebasing { source, canonical, decision },
                ModeEvent::Rebased { nanos },
            ) => {
                let transition: Option<LookupTransition> = self.rebase(nanos);
                self.run(source, canonical, Some(decision), fx, transition, f)
            },
            (HybridStage::Prefilling, _) => {
                let turn: ModeTurn = self.neural.resume(event, f.neural);
                self.prefill(turn, f)
            },
            (HybridStage::Initializing, ModeEvent::Done) => {
                self.begin_anew();
                self.neural_dirty = false;
                self.done(fx, None)
            },
            (HybridStage::MidRebasing, ModeEvent::Rebased { nanos }) => {
                let transition: Option<LookupTransition> = self.rebase(nanos);
                self.begin_mid_neural(transition, f)
            },
            (HybridStage::MidBeginning, _) => {
                let turn: ModeTurn = self.neural.resume(event, f.neural);
                self.mid_begin(turn, None)
            },
            (HybridStage::Finalizing, ModeEvent::Finalized { ok }) => {
                let turn: ModeTurn = self.neural.resume(event, f.neural);
                if ok {
                    self.go(
                        HybridStage::Registering,
                        turn.effects,
                        None,
                        ModeAction::RegisterLookup,
                    )
                } else {
                    self.go(HybridStage::Idle, turn.effects, None, ModeAction::Done)
                }
            },
            (HybridStage::Registering, ModeEvent::Done) => {
                if !self.native() && self.neural_dirty {
                    self.go(HybridStage::FinalRebasing, fx, None, ModeAction::Rebase)
                } else {
                    self.begin_anew();
                    self.done(fx, None)
                }
            },
            (HybridStage::FinalRebasing, ModeEvent::Rebased { nanos }) => {
                let transition: Option<LookupTransition> = self.rebase(nanos);
                self.begin_anew();
                self.done(fx, transition)
            },
            _ => self.step_done(event, f),
        }
    }
}

/// Neural drafts are never made from a state that has fallen behind: before a neural window, the
/// state is rebuilt if lookup windows ran since.
pub proof fn lemma_stale_drafts_are_rebuilt(
    s: HybridView,
    decision: PromptLookupWindowDecision,
    fx: Seq<ModeEffect>,
    f: ModeFactsView,
)
    requires
        s.neural_dirty,
        decision.action == PromptLookupCostAction::Ordinary,
    ensures
        s.decided(decision, fx, f).1.action == ModeAction::Rebase,
{
}

/// A lookup window that ran to its end leaves the neural state behind, and is part of the episode
/// whose cost is settled when neural drafts take over again.
pub proof fn lemma_lookup_window_joins_the_episode(
    s: HybridView,
    cycle: PromptLookupMeasuredCycle,
    events: usize,
    elapsed_ns: u64,
    fx: Seq<ModeEffect>,
    f: ModeFactsView,
)
    requires
        s.measured_cycle == Some(cycle),
        f.lookup_boundary,
    ensures
        ({
            let lookup = HybridDraftSource::PromptLookup;
            let after = s.finished(lookup, lookup, events, elapsed_ns, fx, f).0;
            &&& after.neural_dirty
            &&& after.measured_cycle is None
            &&& after.lookup_episode matches Some(episode) && episode.regimes.contains(cycle.regime)
        }),
{
    let lookup = HybridDraftSource::PromptLookup;
    let before = match s.lookup_episode {
        Some(episode) => episode,
        None => EpisodeView::fresh(),
    };
    let total = cycle.with(elapsed_ns, events);
    if !before.regimes.contains(cycle.regime) {
        let after = before.with(total.regime, total.committed_tokens);
        assert(after.regimes[before.regimes.len() as int] == cycle.regime);
    }
}

/// What a row of lookup windows cost is recorded before any figures that it bears on are published:
/// when a request has joined the batch and the draft state was rebuilt for it.
pub proof fn lemma_transition_is_recorded_before_it_is_published(
    s: HybridView,
    nanos: u128,
    f: ModeFactsView,
)
    requires
        s.stage == HybridStage::FinalRebasing,
    ensures
        ({
            let turn = s.after_event(ModeEvent::Rebased { nanos }, f).1;
            &&& turn.transition == ended(s.lookup_episode, held_ns(nanos))
            &&& s.lookup_episode is Some ==> turn.effects == seq![
                ModeEffect::RecordTransition,
                ModeEffect::PublishLookup,
                ModeEffect::PublishHybrid(rebase_counted(s.stats, nanos)),
            ]
        }),
{
    let turn = s.after_event(ModeEvent::Rebased { nanos }, f).1;
    if s.lookup_episode is Some {
        assert(turn.effects =~= seq![
            ModeEffect::RecordTransition,
            ModeEffect::PublishLookup,
            ModeEffect::PublishHybrid(rebase_counted(s.stats, nanos)),
        ]);
    }
}

/// While a window is being measured, or in the middle of one, nobody is let into the batch.
pub proof fn lemma_nobody_enters_within_a_window(s: HybridView, f: ModeFactsView)
    requires
        s.measured_cycle is Some || !f.lookup_boundary || (f.neural.stats is Some
            && !f.neural.at_boundary),
    ensures
        !s.lets_in(f),
{
}

/// A request that is not greedy is refused and changes nothing.
pub proof fn lemma_sampled_request_is_refused(s: HybridView, f: ModeFactsView)
    ensures
        s.mid_begun(false, f).1.action == ModeAction::Refuse,
        s.mid_begun(false, f).0 == (HybridView { stage: HybridStage::Idle, ..s }),
{
}

} // verus!
