//! The way a batch is decoded, whichever it is.
use vstd::prelude::*;

use crate::admission::AdaptiveAdmissionPolicy;
use crate::counters::SchedulerActorMtpCounters;
use crate::hybrid_mode::{HybridView, SchedulerActorPromptLookupHybrid};
use crate::lookup_mode::{LookupModeView, LookupStage, SchedulerActorPromptLookup};
use crate::mode_types::{
    MidAdmitKind, ModeAction, ModeEffect, ModeEvent, ModeFacts, ModeFactsView, ModeTurn,
    ModeTurnView,
};
use crate::neural_mode::{NeuralStage, SchedulerActorMtp};
use crate::prompt_lookup::{
    PromptLookupConfig, PromptLookupQualificationStats, PromptLookupStats,
};
use crate::speculative::{
    MtpSpeculativeConfig, MtpSpeculativeStats, NeuralExactQualificationStats, NeuralExactSource,
};

verus! {

/// How an actor is asked to decode.
#[derive(Clone, Copy, Debug, PartialEq, Eq, Structural)]
#[allow(inconsistent_fields)]
pub enum ModeChoice {
    NoMtp,
    /// Without drafts, but with the admission of prompt lookup, to measure lookup against.
    LookupControl,
    PromptLookup { cfg: PromptLookupConfig },
    /// Neural drafts; a cost controller decides on sampled requests.
    Neural { source: NeuralExactSource, draft_tokens: usize },
    Hybrid { source: NeuralExactSource, draft_tokens: usize, cfg: PromptLookupConfig },
}

impl ModeChoice {
    /// Whether the choice can be built.
    pub open spec fn valid(self) -> bool {
        match self {
            ModeChoice::Neural { draft_tokens, .. } => draft_tokens > 0,
            ModeChoice::Hybrid { draft_tokens, .. } => draft_tokens > 0,
            _ => true,
        }
    }

    /// How admission adapts to it.
    pub open spec fn policy(self) -> AdaptiveAdmissionPolicy {
        match self {
            ModeChoice::NoMtp => AdaptiveAdmissionPolicy::Disabled,
            ModeChoice::LookupControl => AdaptiveAdmissionPolicy::PromptLookup,
            ModeChoice::PromptLookup { .. } => AdaptiveAdmissionPolicy::PromptLookup,
            ModeChoice::Neural { source, .. } => neural_policy(source),
            ModeChoice::Hybrid { source, .. } => neural_policy(source),
        }
    }

    pub fn admission_policy(self) -> (policy: AdaptiveAdmissionPolicy)
        ensures
            policy == self.policy(),
    {
        match self {
            ModeChoice::NoMtp => AdaptiveAdmissionPolicy::disabled(),
            ModeChoice::LookupControl => AdaptiveAdmissionPolicy::prompt_lookup(),
            ModeChoice::PromptLookup { .. } => AdaptiveAdmissionPolicy::prompt_lookup(),
            ModeChoice::Neural { source, .. } => policy_of_source(source),
            ModeChoice::Hybrid { source, .. } => policy_of_source(source),
        }
    }
}

pub open spec fn neural_policy(source: NeuralExactSource) -> AdaptiveAdmissionPolicy {
    match source {
        NeuralExactSource::QwenMtp => AdaptiveAdmissionPolicy::QwenMtp,
        NeuralExactSource::Gemma4Assistant => AdaptiveAdmissionPolicy::Gemma4Drafter,
    }
}

fn policy_of_source(source: NeuralExactSource) -> (policy: AdaptiveAdmissionPolicy)
    ensures
        policy == neural_policy(source),
{
    match source {
        NeuralExactSource::QwenMtp => AdaptiveAdmissionPolicy::qwen_mtp(),
        NeuralExactSource::Gemma4Assistant => AdaptiveAdmissionPolicy::gemma4_drafter(),
    }
}

/// The mode of an actor.
#[derive(Debug)]
pub enum SchedulerActorMode {
    NoMtp,
    PromptLookup(SchedulerActorPromptLookup),
    Neural(SchedulerActorMtp),
    Hybrid(SchedulerActorPromptLookupHybrid),
}

#[verifier::ext_equal]
pub enum ModeView {
    NoMtp,
    PromptLookup(LookupModeView),
    Neural(SchedulerActorMtp),
    Hybrid(HybridView),
}

impl View for SchedulerActorMode {
    type V = ModeView;

    open spec fn view(&self) -> ModeView {
        match self {
            SchedulerActorMode::NoMtp => ModeView::NoMtp,
            SchedulerActorMode::PromptLookup(mode) => ModeView::PromptLookup(mode@),
            SchedulerActorMode::Neural(mode) => ModeView::Neural(*mode),
            SchedulerActorMode::Hybrid(mode) => ModeView::Hybrid(mode@),
        }
    }
}

/// A turn with nothing but an action.
pub open spec fn plainly(action: ModeAction) -> ModeTurnView {
    ModeTurnView { effects: Seq::empty(), transition: None, action }
}

fn plain_turn(action: ModeAction) -> (turn: ModeTurn)
    ensures
        turn@ == plainly(action),
{
    ModeTurn { effects: Vec::new(), transition: None, action }
}

pub open spec fn of_lookup(r: (LookupModeView, ModeTurnView)) -> (ModeView, ModeTurnView) {
    (ModeView::PromptLookup(r.0), r.1)
}

pub open spec fn of_neural(r: (SchedulerActorMtp, ModeTurnView)) -> (ModeView, ModeTurnView) {
    (ModeView::Neural(r.0), r.1)
}

pub open spec fn of_hybrid(r: (HybridView, ModeTurnView)) -> (ModeView, ModeTurnView) {
    (ModeView::Hybrid(r.0), r.1)
}

impl ModeView {
    /// What a choice is built into.
    pub open spec fn fresh(choice: ModeChoice) -> ModeView {
        match choice {
            ModeChoice::NoMtp => ModeView::NoMtp,
            ModeChoice::LookupControl => ModeView::NoMtp,
            ModeChoice::PromptLookup { cfg } => ModeView::PromptLookup(LookupModeView::fresh(cfg)),
            ModeChoice::Neural { source, draft_tokens } => ModeView::Neural(
                SchedulerActorMtp {
                    source,
                    cfg: MtpSpeculativeConfig { max_draft_tokens: draft_tokens },
                    qualified: true,
                    exact_episode: None,
                    stage: NeuralStage::Idle,
                },
            ),
            ModeChoice::Hybrid { source, draft_tokens, cfg } => ModeView::Hybrid(
                HybridView::fresh(
                    SchedulerActorMtp {
                        source,
                        cfg: MtpSpeculativeConfig { max_draft_tokens: draft_tokens },
                        qualified: false,
                        exact_episode: None,
                        stage: NeuralStage::Idle,
                    },
                    cfg,
                ),
            ),
        }
    }

    /// Whether a request may enter the running batch now.
    pub open spec fn lets_in(self, f: ModeFactsView) -> bool {
        match self {
            ModeView::NoMtp => true,
            ModeView::PromptLookup(_) => f.lookup_boundary,
            ModeView::Neural(mode) => mode.lets_in(f.neural),
            ModeView::Hybrid(mode) => mode.lets_in(f),
        }
    }

    pub open spec fn prefill_begun(self, f: ModeFactsView) -> (ModeView, ModeTurnView) {
        match self {
            ModeView::NoMtp => (self, plainly(ModeAction::Prefill)),
            ModeView::PromptLookup(mode) => of_lookup(
                mode.go(LookupStage::Prefilling, Seq::empty(), ModeAction::PrefillLookup),
            ),
            ModeView::Neural(mode) => of_neural(mode.prefill_begun(f.neural)),
            ModeView::Hybrid(mode) => of_hybrid(mode.prefill_begun(f)),
        }
    }

    pub open spec fn step_begun(self, admission_pending: bool, f: ModeFactsView) -> (
        ModeView,
        ModeTurnView,
    ) {
        match self {
            ModeView::NoMtp => (self, plainly(ModeAction::StepPlain)),
            ModeView::PromptLookup(mode) => of_lookup(mode.step_begun(admission_pending, f.window)),
            ModeView::Neural(mode) => of_neural(mode.step_begun(admission_pending, f.neural)),
            ModeView::Hybrid(mode) => of_hybrid(mode.step_begun(admission_pending, f)),
        }
    }

    pub open spec fn mid_begun(self, pipelinable: bool, f: ModeFactsView) -> (
        ModeView,
        ModeTurnView,
    ) {
        let generic = ModeAction::BeginMid { kind: MidAdmitKind::Generic };
        match self {
            ModeView::NoMtp => (self, plainly(generic)),
            ModeView::PromptLookup(mode) => of_lookup(
                mode.go(LookupStage::Idle, Seq::empty(), generic),
            ),
            ModeView::Neural(mode) => of_neural(mode.mid_begun(f.neural)),
            ModeView::Hybrid(mode) => of_hybrid(mode.mid_begun(pipelinable, f)),
        }
    }

    pub open spec fn finalizing(self, kind: MidAdmitKind) -> (ModeView, ModeTurnView) {
        let generic = ModeAction::FinalizeMid { kind: MidAdmitKind::Generic };
        match self {
            ModeView::NoMtp => (self, plainly(generic)),
            ModeView::PromptLookup(mode) => of_lookup(
                mode.go(LookupStage::Finalizing, Seq::empty(), generic),
            ),
            ModeView::Neural(mode) => of_neural(mode.finalizing(kind)),
            ModeView::Hybrid(mode) => of_hybrid(mode.finalizing(kind)),
        }
    }

    pub open spec fn awaits(self, event: ModeEvent) -> bool {
        match self {
            ModeView::NoMtp => true,
            ModeView::PromptLookup(mode) => mode.awaits(event),
            ModeView::Neural(mode) => mode.stage.awaits(event),
            ModeView::Hybrid(mode) => mode.awaits(event),
        }
    }

    pub open spec fn after_event(self, event: ModeEvent, f: ModeFactsView) -> (
        ModeView,
        ModeTurnView,
    ) {
        match self {
            ModeView::NoMtp => (self, plainly(ModeAction::Done)),
            ModeView::PromptLookup(mode) => of_lookup(mode.after_event(event, f)),
            ModeView::Neural(mode) => of_neural(mode.after_event(event, f.neural)),
            ModeView::Hybrid(mode) => of_hybrid(mode.after_event(event, f)),
        }
    }
}

impl SchedulerActorMode {
    pub fn new(choice: ModeChoice) -> (mode: Self)
        requires
            choice.valid(),
        ensures
            mode@ == ModeView::fresh(choice),
    {
        match choice {
            ModeChoice::NoMtp => SchedulerActorMode::NoMtp,
            ModeChoice::LookupControl => SchedulerActorMode::NoMtp,
            ModeChoice::PromptLookup { cfg } => SchedulerActorMode::PromptLookup(
                SchedulerActorPromptLookup::new(cfg),
            ),
            ModeChoice::Neural { source, draft_tokens } => SchedulerActorMode::Neural(
                SchedulerActorMtp::new_with_exact_qualification(source, draft_tokens),
            ),
            ModeChoice::Hybrid { source, draft_tokens, cfg } => SchedulerActorMode::Hybrid(
                SchedulerActorPromptLookupHybrid::new(source, draft_tokens, cfg),
            ),
        }
    }

    pub fn can_start_rolling_mid_admit(&self, f: &ModeFacts) -> (r: bool)
        ensures
            r == self@.lets_in(f@),
    {
        match self {
            SchedulerActorMode::NoMtp => true,
            SchedulerActorMode::PromptLookup(_) => f.lookup_boundary,
            SchedulerActorMode::Neural(mode) => mode.can_start_rolling_mid_admit(f.neural),
            SchedulerActorMode::Hybrid(mode) => mode.can_start_rolling_mid_admit(f),
        }
    }

    /// Begins to prefill a fresh batch.
    pub fn prefill_admitted(&mut self, f: &ModeFacts) -> (turn: ModeTurn)
        ensures
            final(self)@ == old(self)@.prefill_begun(f@).0,
            turn@ == old(self)@.prefill_begun(f@).1,
    {
        match self {
            SchedulerActorMode::NoMtp => plain_turn(ModeAction::Prefill),
            SchedulerActorMode::PromptLookup(mode) => mode.prefill_admitted(),
            SchedulerActorMode::Neural(mode) => mode.prefill_admitted(f.neural),
            SchedulerActorMode::Hybrid(mode) => mode.prefill_admitted(f),
        }
    }

    /// Begins a decode step.
    pub fn step(&mut self, admission_pending: bool, f: &ModeFacts) -> (turn: ModeTurn)
        ensures
            final(self)@ == old(self)@.step_begun(admission_pending, f@).0,
            turn@ == old(self)@.step_begun(admission_pending, f@).1,
    {
        match self {
            SchedulerActorMode::NoMtp => plain_turn(ModeAction::StepPlain),
            SchedulerActorMode::PromptLookup(mode) => mode.step(admission_pending, &f.window),
            SchedulerActorMode::Neural(mode) => mode.step(admission_pending, f.neural),
            SchedulerActorMode::Hybrid(mode) => mode.step(admission_pending, f),
        }
    }

    /// Begins to let a request into the running batch.
    pub fn begin_mid_admit(&mut self, pipelinable: bool, f: &ModeFacts) -> (turn: ModeTurn)
        ensures
            final(self)@ == old(self)@.mid_begun(pipelinable, f@).0,
            turn@ == old(self)@.mid_begun(pipelinable, f@).1,
    {
        match self {
            SchedulerActorMode::NoMtp => plain_turn(
                ModeAction::BeginMid { kind: MidAdmitKind::Generic },
            ),
            SchedulerActorMode::PromptLookup(mode) => mode.begin_mid_admit(),
            SchedulerActorMode::Neural(mode) => mode.begin_mid_admit(f.neural),
            SchedulerActorMode::Hybrid(mode) => mode.begin_mid_admit(pipelinable, f),
        }
    }

    /// Lets the request join the running rows once its prompt is prefilled.
    pub fn finalize_mid_admit(&mut self, kind: MidAdmitKind) -> (turn: ModeTurn)
        ensures
            final(self)@ == old(self)@.finalizing(kind).0,
            turn@ == old(self)@.finalizing(kind).1,
    {
        match self {
            SchedulerActorMode::NoMtp => plain_turn(
                ModeAction::FinalizeMid { kind: MidAdmitKind::Generic },
            ),
            SchedulerActorMode::PromptLookup(mode) => mode.finalize_mid_admit(),
            SchedulerActorMode::Neural(mode) => mode.finalize_mid_admit(kind),
            SchedulerActorMode::Hybrid(mode) => mode.finalize_mid_admit(kind),
        }
    }

    /// Goes on after the outcome of the last action.
    pub fn resume(&mut self, event: ModeEvent, f: &ModeFacts) -> (turn: ModeTurn)
        requires
            old(self)@.awaits(event),
        ensures
            final(self)@ == old(self)@.after_event(event, f@).0,
            turn@ == old(self)@.after_event(event, f@).1,
    {
        match self {
            SchedulerActorMode::NoMtp => plain_turn(ModeAction::Done),
            SchedulerActorMode::PromptLookup(mode) => mode.resume(event, f),
            SchedulerActorMode::Neural(mode) => mode.resume(event, f.neural),
            SchedulerActorMode::Hybrid(mode) => mode.resume(event, f),
        }
    }
}

impl ModeView {
    /// A search that found nothing puts the next off, in whatever mode searches are made.
    pub open spec fn patient(self) -> bool {
        match self {
            ModeView::PromptLookup(mode) => mode.window.patient(),
            ModeView::Hybrid(mode) => mode.window.patient(),
            _ => true,
        }
    }
}

proof fn lemma_patient_lookup(
    s: LookupModeView,
    flag: bool,
    kind: MidAdmitKind,
    event: ModeEvent,
    f: ModeFactsView,
)
    requires
        s.window.patient(),
    ensures
        ModeView::PromptLookup(s).prefill_begun(f).0.patient(),
        ModeView::PromptLookup(s).step_begun(flag, f).0.patient(),
        ModeView::PromptLookup(s).mid_begun(flag, f).0.patient(),
        ModeView::PromptLookup(s).finalizing(kind).0.patient(),
        ModeView::PromptLookup(s).after_event(event, f).0.patient(),
{
}

#[verifier::rlimit(30)]
proof fn lemma_patient_hybrid(
    s: HybridView,
    flag: bool,
    kind: MidAdmitKind,
    f: ModeFactsView,
)
    requires
        s.window.patient(),
    ensures
        ModeView::Hybrid(s).prefill_begun(f).0.patient(),
        ModeView::Hybrid(s).step_begun(flag, f).0.patient(),
        ModeView::Hybrid(s).mid_begun(flag, f).0.patient(),
        ModeView::Hybrid(s).finalizing(kind).0.patient(),
{
}

#[verifier::rlimit(60)]
proof fn lemma_patient_hybrid_event(s: HybridView, event: ModeEvent, f: ModeFactsView)
    requires
        s.window.patient(),
    ensures
        s.after_event(event, f).0.window.patient(),
{
}

/// Whatever a mode is asked and told, a search that found nothing puts the next off.
pub proof fn lemma_mode_stays_patient(
    s: ModeView,
    choice: ModeChoice,
    flag: bool,
    kind: MidAdmitKind,
    event: ModeEvent,
    f: ModeFactsView,
)
    requires
        s.patient(),
    ensures
        ModeView::fresh(choice).patient(),
        s.prefill_begun(f).0.patient(),
        s.step_begun(flag, f).0.patient(),
        s.mid_begun(flag, f).0.patient(),
        s.finalizing(kind).0.patient(),
        s.after_event(event, f).0.patient(),
{
    match s {
        ModeView::PromptLookup(mode) => {
            lemma_patient_lookup(mode, flag, kind, event, f);
        },
        ModeView::Hybrid(mode) => {
            lemma_patient_hybrid(mode, flag, kind, f);
            lemma_patient_hybrid_event(mode, event, f);
        },
        _ => {},
    }
}

/// What is read when a mode's effects are published.
#[derive(Clone, Copy, Debug, PartialEq, Eq, Structural)]
pub struct CounterReadings {
    pub neural: Option<MtpSpeculativeStats>,
    pub lookup: Option<PromptLookupStats>,
    pub qualification: PromptLookupQualificationStats,
    pub exact: NeuralExactQualificationStats,
}

impl SchedulerActorMtpCounters {
    /// The counters after an effect of a mode. Effects for the cost controllers and the scheduler
    /// leave them alone.
    pub open spec fn after_effect(self, effect: ModeEffect, readings: CounterReadings) -> SchedulerActorMtpCounters {
        match effect {
            ModeEffect::CountPrefill => SchedulerActorMtpCounters {
                counts: crate::counters::MtpCounts {
                    mtp_prefill_count: crate::counters::wrapped_sum(
                        self.counts.mtp_prefill_count,
                        1,
                    ),
                    ..self.counts
                },
                ..self
            },
            ModeEffect::CountPrefillFallback => SchedulerActorMtpCounters {
                counts: crate::counters::MtpCounts {
                    mtp_prefill_fallback_count: crate::counters::wrapped_sum(
                        self.counts.mtp_prefill_fallback_count,
                        1,
                    ),
                    ..self.counts
                },
                ..self
            },
            ModeEffect::CountStep => SchedulerActorMtpCounters {
                counts: crate::counters::MtpCounts {
                    mtp_step_count: crate::counters::wrapped_sum(self.counts.mtp_step_count, 1),
                    ..self.counts
                },
                ..self
            },
            ModeEffect::StoreNeuralStats => self.stored_stats(readings.neural),
            ModeEffect::PublishLookup => SchedulerActorMtpCounters {
                prompt_lookup_published_stats: Some(
                    crate::counters::record_or_zero(
                        self.stored_prompt_lookup_stats(
                            readings.lookup,
                        ).prompt_lookup_published_stats,
                    ).with_qualification(readings.qualification),
                ),
                ..self.stored_prompt_lookup_stats(readings.lookup)
            },
            ModeEffect::PublishHybrid(stats) => SchedulerActorMtpCounters {
                prompt_lookup_published_stats: Some(
                    crate::counters::record_or_zero(
                        self.prompt_lookup_published_stats,
                    ).with_hybrid(stats),
                ),
                ..self
            },
            ModeEffect::PublishExact => SchedulerActorMtpCounters {
                neural_exact_qualification_stats: readings.exact,
                ..self
            },
            _ => self,
        }
    }

    /// Publishes an effect of a mode.
    pub fn apply(&mut self, effect: ModeEffect, readings: &CounterReadings)
        ensures
            *final(self) == old(self).after_effect(effect, *readings),
    {
        match effect {
            ModeEffect::CountPrefill => self.count_prefill(),
            ModeEffect::CountPrefillFallback => self.count_prefill_fallback(),
            ModeEffect::CountStep => self.count_step(),
            ModeEffect::StoreNeuralStats => self.store_stats(readings.neural),
            ModeEffect::PublishLookup => {
                self.store_prompt_lookup_stats_with_qualification(
                    readings.lookup,
                    readings.qualification,
                )
            },
            ModeEffect::PublishHybrid(stats) => self.store_prompt_lookup_hybrid_stats(stats),
            ModeEffect::PublishExact => {
                self.store_neural_exact_qualification_stats(readings.exact)
            },
            _ => {},
        }
    }
}

} // verus!
