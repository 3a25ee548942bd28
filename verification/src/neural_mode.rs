//! Decoding with neural drafts: a native draft head, or a separate draft model.
use vstd::prelude::*;

use crate::mode_types::{
    MidAdmitKind, ModeAction, ModeEffect, ModeEvent, ModeTurn, ModeTurnView, NeuralExactSample,
    NeuralFacts,
};
use crate::speculative::{
    MtpSpeculativeConfig, MtpSpeculativeStats, NeuralExactAction, NeuralExactRegime,
    NeuralExactSampleCounters, NeuralExactSource,
};

verus! {

/// A batch whose cost is being measured.
#[derive(Clone, Copy, Debug, PartialEq, Eq, Structural)]
pub struct NeuralExactMeasuredEpisode {
    pub regime: NeuralExactRegime,
    pub action: NeuralExactAction,
    pub elapsed_ns: u64,
    pub committed_tokens: usize,
    pub stats_before: MtpSpeculativeStats,
}

/// What the mode is waiting for.
#[derive(Clone, Copy, Debug, PartialEq, Eq, Structural)]
#[allow(inconsistent_fields)]
pub enum NeuralStage {
    Idle,
    PrefillAsking,
    PrefillVerifying { action: NeuralExactAction },
    Prefilling {
        action: NeuralExactAction,
        drafted: bool,
        regime: Option<NeuralExactRegime>,
        stats_before: MtpSpeculativeStats,
    },
    StepVerifying { admission_pending: bool },
    StepRetiring { admission_pending: bool },
    Stepping { drafted: bool },
    MidVerifying,
    MidRetiring,
    Finalizing { kind: MidAdmitKind },
}

impl NeuralStage {
    /// Whether `event` is an outcome of what is being waited for.
    pub open spec fn awaits(self, event: ModeEvent) -> bool {
        match self {
            NeuralStage::Idle => false,
            NeuralStage::PrefillAsking => event is ExactAction,
            NeuralStage::PrefillVerifying { .. } => event is Eligible,
            NeuralStage::Prefilling { .. } => event is Stepped,
            NeuralStage::StepVerifying { .. } => event is Eligible,
            NeuralStage::StepRetiring { .. } => event is Done,
            NeuralStage::Stepping { .. } => event is Stepped,
            NeuralStage::MidVerifying => event is Eligible,
            NeuralStage::MidRetiring => event is Done,
            NeuralStage::Finalizing { .. } => event is Finalized,
        }
    }
}

/// A batch that is decoded with neural drafts where they can be verified.
#[derive(Clone, Copy, Debug, PartialEq, Eq, Structural)]
pub struct SchedulerActorMtp {
    /// Which draft model there is.
    pub source: NeuralExactSource,
    pub cfg: MtpSpeculativeConfig,
    /// Whether a cost controller decides if sampled requests are verified exactly.
    pub qualified: bool,
    pub exact_episode: Option<NeuralExactMeasuredEpisode>,
    pub stage: NeuralStage,
}

/// What a batch drafted since `before`, as the cost controller counts it.
pub open spec fn sample_counters(
    stats_after: Option<MtpSpeculativeStats>,
    before: MtpSpeculativeStats,
) -> NeuralExactSampleCounters {
    let delta = match stats_after {
        Some(stats) => stats.since(before),
        None => MtpSpeculativeStats::zero(),
    };
    NeuralExactSampleCounters {
        drafted_tokens: delta.drafted_tokens as u64,
        accepted_tokens: delta.accepted_draft_tokens as u64,
        exact_windows: delta.exact_sampling_windows as u64,
        residual_corrections: delta.exact_residual_corrections as u64,
    }
}

impl NeuralExactMeasuredEpisode {
    pub open spec fn sample(self, stats_after: Option<MtpSpeculativeStats>) -> NeuralExactSample {
        NeuralExactSample {
            regime: self.regime,
            action: self.action,
            elapsed_ns: self.elapsed_ns,
            committed_tokens: self.committed_tokens,
            counters: sample_counters(stats_after, self.stats_before),
        }
    }

    /// The episode with another step in it.
    pub open spec fn with(self, elapsed_ns: u64, tokens: usize) -> NeuralExactMeasuredEpisode {
        NeuralExactMeasuredEpisode {
            elapsed_ns: crate::prompt_lookup::summed(self.elapsed_ns, elapsed_ns),
            committed_tokens: crate::lookup_window::capped_sum(self.committed_tokens, tokens),
            ..self
        }
    }

    /// The sample that the episode ends with.
    pub fn finish(self, stats_after: Option<MtpSpeculativeStats>) -> (sample: NeuralExactSample)
        ensures
            sample == self.sample(stats_after),
    {
        let delta: MtpSpeculativeStats = match stats_after {
            Some(stats) => stats.saturating_delta_since(self.stats_before),
            None => MtpSpeculativeStats::default(),
        };
        NeuralExactSample {
            regime: self.regime,
            action: self.action,
            elapsed_ns: self.elapsed_ns,
            committed_tokens: self.committed_tokens,
            counters: NeuralExactSampleCounters {
                drafted_tokens: delta.drafted_tokens as u64,
                accepted_tokens: delta.accepted_draft_tokens as u64,
                exact_windows: delta.exact_sampling_windows as u64,
                residual_corrections: delta.exact_residual_corrections as u64,
            },
        }
    }
}

/// The end of an episode is reported to the cost controller, if there is one.
pub fn finish_neural_exact_episode(
    episode: &mut Option<NeuralExactMeasuredEpisode>,
    qualified: bool,
    stats_after: Option<MtpSpeculativeStats>,
) -> (sample: Option<NeuralExactSample>)
    ensures
        *final(episode) == None::<NeuralExactMeasuredEpisode>,
        sample == match *old(episode) {
            Some(episode) if qualified => Some(episode.sample(stats_after)),
            _ => None,
        },
{
    match episode.take() {
        Some(episode) => if qualified {
            Some(episode.finish(stats_after))
        } else {
            None
        },
        None => None,
    }
}

/// One effect if it is due.
pub open spec fn only_if(due: bool, effect: ModeEffect) -> Seq<ModeEffect> {
    if due {
        seq![effect]
    } else {
        Seq::empty()
    }
}

impl SchedulerActorMtp {
    pub open spec fn go(self, stage: NeuralStage, fx: Seq<ModeEffect>, action: ModeAction) -> (
        SchedulerActorMtp,
        ModeTurnView,
    ) {
        (SchedulerActorMtp { stage, ..self }, ModeTurnView { effects: fx, transition: None, action })
    }

    /// Whether a request may enter the running batch now.
    pub open spec fn lets_in(self, f: NeuralFacts) -> bool {
        self.source == NeuralExactSource::Gemma4Assistant || f.stats is None || f.at_boundary
    }

    /// A fresh batch is to be prefilled.
    pub open spec fn prefill_begun(self, f: NeuralFacts) -> (SchedulerActorMtp, ModeTurnView) {
        let s = SchedulerActorMtp { exact_episode: None, ..self };
        match f.exact_regime {
            Some(regime) if self.qualified => s.go(
                NeuralStage::PrefillAsking,
                Seq::empty(),
                ModeAction::AskExactAction { regime },
            ),
            _ => s.prefill_judged(NeuralExactAction::Exact, f),
        }
    }

    /// Drafts are only used where the batch is fit for them; a draft head has to be verifiable too.
    pub open spec fn prefill_judged(self, action: NeuralExactAction, f: NeuralFacts) -> (
        SchedulerActorMtp,
        ModeTurnView,
    ) {
        if action == NeuralExactAction::Exact && f.fresh_eligible {
            match self.source {
                NeuralExactSource::QwenMtp => self.go(
                    NeuralStage::PrefillVerifying { action },
                    Seq::empty(),
                    ModeAction::AskFreshVerify,
                ),
                NeuralExactSource::Gemma4Assistant => self.prefilling(action, true, f),
            }
        } else {
            self.prefilling(action, false, f)
        }
    }

    pub open spec fn prefilling(self, action: NeuralExactAction, drafted: bool, f: NeuralFacts) -> (
        SchedulerActorMtp,
        ModeTurnView,
    ) {
        self.go(
            NeuralStage::Prefilling {
                action,
                drafted,
                regime: f.exact_regime,
                stats_before: f.stats_now(),
            },
            seq![
                if drafted {
                    ModeEffect::CountPrefill
                } else {
                    ModeEffect::CountPrefillFallback
                },
            ],
            if drafted {
                ModeAction::PrefillDraft
            } else {
                ModeAction::Prefill
            },
        )
    }

    /// The end of the measured batch.
    pub open spec fn finished(self) -> SchedulerActorMtp {
        SchedulerActorMtp { exact_episode: None, ..self }
    }

    pub open spec fn finish_effects(self, f: NeuralFacts) -> Seq<ModeEffect> {
        match self.exact_episode {
            Some(episode) if self.qualified => seq![
                ModeEffect::ExactSample(episode.sample(f.stats)),
                ModeEffect::PublishExact,
            ],
            _ => only_if(self.qualified, ModeEffect::PublishExact),
        }
    }

    /// The batch was prefilled. Where its regime is measured, an episode begins.
    pub open spec fn prefilled(self, events: usize, elapsed_ns: u64, f: NeuralFacts) -> (
        SchedulerActorMtp,
        ModeTurnView,
    ) {
        match self.stage {
            NeuralStage::Prefilling { action, drafted, regime, stats_before } => {
                let fx = only_if(drafted, ModeEffect::StoreNeuralStats);
                let published = only_if(self.qualified, ModeEffect::PublishExact);
                match regime {
                    Some(regime) if self.qualified => {
                        let s = SchedulerActorMtp {
                            exact_episode: Some(
                                NeuralExactMeasuredEpisode {
                                    regime,
                                    action,
                                    elapsed_ns,
                                    committed_tokens: events,
                                    stats_before,
                                },
                            ),
                            ..self
                        };
                        if f.finished {
                            s.finished().go(
                                NeuralStage::Idle,
                                fx + s.finish_effects(f) + published,
                                ModeAction::Done,
                            )
                        } else {
                            s.go(NeuralStage::Idle, fx + published, ModeAction::Done)
                        }
                    },
                    _ => self.go(NeuralStage::Idle, fx + published, ModeAction::Done),
                }
            },
            _ => self.go(NeuralStage::Idle, Seq::empty(), ModeAction::Done),
        }
    }

    /// What the batch is decoded with.
    pub open spec fn action(self) -> NeuralExactAction {
        match self.exact_episode {
            Some(episode) => episode.action,
            None => NeuralExactAction::Exact,
        }
    }

    /// One decode step. Between windows, a draft head first has to be verifiable for the next one.
    pub open spec fn step_begun(self, admission_pending: bool, f: NeuralFacts) -> (
        SchedulerActorMtp,
        ModeTurnView,
    ) {
        if self.source == NeuralExactSource::QwenMtp && self.action() == NeuralExactAction::Exact
            && f.stats is Some && f.at_boundary {
            self.go(
                NeuralStage::StepVerifying { admission_pending },
                Seq::empty(),
                ModeAction::AskNextWindowVerify,
            )
        } else {
            self.stepping(admission_pending, f)
        }
    }

    pub open spec fn stepping(self, admission_pending: bool, f: NeuralFacts) -> (
        SchedulerActorMtp,
        ModeTurnView,
    ) {
        if self.action() == NeuralExactAction::Exact && f.stats is Some {
            self.go(
                NeuralStage::Stepping { drafted: true },
                seq![ModeEffect::CountStep],
                ModeAction::StepDraft {
                    postfill: !(self.source == NeuralExactSource::QwenMtp && admission_pending),
                },
            )
        } else {
            self.go(NeuralStage::Stepping { drafted: false }, Seq::empty(), ModeAction::StepPlain)
        }
    }

    /// The step is done.
    pub open spec fn stepped(self, events: usize, elapsed_ns: u64, f: NeuralFacts) -> (
        SchedulerActorMtp,
        ModeTurnView,
    ) {
        let fx = only_if(
            self.stage == (NeuralStage::Stepping { drafted: true }),
            ModeEffect::StoreNeuralStats,
        );
        let s = SchedulerActorMtp {
            exact_episode: match self.exact_episode {
                Some(episode) => Some(episode.with(elapsed_ns, events)),
                None => None,
            },
            ..self
        };
        if f.finished {
            s.finished().go(NeuralStage::Idle, fx + s.finish_effects(f), ModeAction::Done)
        } else {
            s.go(NeuralStage::Idle, fx, ModeAction::Done)
        }
    }

    /// A request is to enter the running batch. What was measured of it no longer counts.
    pub open spec fn mid_begun(self, f: NeuralFacts) -> (SchedulerActorMtp, ModeTurnView) {
        let s = SchedulerActorMtp { exact_episode: None, ..self };
        if f.stats is Some {
            match self.source {
                NeuralExactSource::QwenMtp => s.go(
                    NeuralStage::MidVerifying,
                    Seq::empty(),
                    ModeAction::AskRollingVerify,
                ),
                NeuralExactSource::Gemma4Assistant => s.go(
                    NeuralStage::Idle,
                    Seq::empty(),
                    ModeAction::BeginMid { kind: MidAdmitKind::Draft },
                ),
            }
        } else {
            s.go(
                NeuralStage::Idle,
                Seq::empty(),
                ModeAction::BeginMid { kind: MidAdmitKind::Generic },
            )
        }
    }

    pub open spec fn finalizing(self, kind: MidAdmitKind) -> (SchedulerActorMtp, ModeTurnView) {
        self.go(
            NeuralStage::Finalizing { kind },
            Seq::empty(),
            ModeAction::FinalizeMid { kind },
        )
    }

    /// What follows the outcome of an action.
    pub open spec fn after_event(self, event: ModeEvent, f: NeuralFacts) -> (
        SchedulerActorMtp,
        ModeTurnView,
    ) {
        match (self.stage, event) {
            (NeuralStage::PrefillAsking, ModeEvent::ExactAction(action)) => self.prefill_judged(
                action,
                f,
            ),
            (NeuralStage::PrefillVerifying { action }, ModeEvent::Eligible { eligible }) => {
                self.prefilling(action, eligible, f)
            },
            (NeuralStage::Prefilling { .. }, ModeEvent::Stepped { events, elapsed_ns }) => {
                self.prefilled(events, elapsed_ns, f)
            },
            (NeuralStage::StepVerifying { admission_pending }, ModeEvent::Eligible { eligible }) => {
                if eligible {
                    self.stepping(admission_pending, f)
                } else {
                    self.go(
                        NeuralStage::StepRetiring { admission_pending },
                        seq![ModeEffect::StoreNeuralStats],
                        ModeAction::Retire,
                    )
                }
            },
            (NeuralStage::StepRetiring { admission_pending }, ModeEvent::Done) => self.stepping(
                admission_pending,
                f,
            ),
            (NeuralStage::Stepping { .. }, ModeEvent::Stepped { events, elapsed_ns }) => {
                self.stepped(events, elapsed_ns, f)
            },
            (NeuralStage::MidVerifying, ModeEvent::Eligible { eligible }) => if eligible {
                self.go(
                    NeuralStage::Idle,
                    Seq::empty(),
                    ModeAction::BeginMid { kind: MidAdmitKind::Draft },
                )
            } else {
                self.go(NeuralStage::MidRetiring, Seq::empty(), ModeAction::Retire)
            },
            (NeuralStage::MidRetiring, ModeEvent::Done) => self.go(
                NeuralStage::Idle,
                Seq::empty(),
                ModeAction::BeginMid { kind: MidAdmitKind::Generic },
            ),
            (NeuralStage::Finalizing { kind }, ModeEvent::Finalized { .. }) => self.go(
                NeuralStage::Idle,
                only_if(kind == MidAdmitKind::Draft, ModeEffect::StoreNeuralStats),
                ModeAction::Done,
            ),
            _ => self.go(NeuralStage::Idle, Seq::empty(), ModeAction::Done),
        }
    }

    pub fn new(source: NeuralExactSource, draft_tokens: usize) -> (mode: Self)
        requires
            draft_tokens > 0,
        ensures
            mode == (SchedulerActorMtp {
                source,
                cfg: MtpSpeculativeConfig { max_draft_tokens: draft_tokens },
                qualified: false,
                exact_episode: None,
                stage: NeuralStage::Idle,
            }),
    {
        SchedulerActorMtp {
            source,
            cfg: MtpSpeculativeConfig { max_draft_tokens: draft_tokens },
            qualified: false,
            exact_episode: None,
            stage: NeuralStage::Idle,
        }
    }

    pub fn new_with_exact_qualification(source: NeuralExactSource, draft_tokens: usize) -> (mode:
        Self)
        requires
            draft_tokens > 0,
        ensures
            mode == (SchedulerActorMtp {
                source,
                cfg: MtpSpeculativeConfig { max_draft_tokens: draft_tokens },
                qualified: true,
                exact_episode: None,
                stage: NeuralStage::Idle,
            }),
    {
        SchedulerActorMtp { qualified: true, ..SchedulerActorMtp::new(source, draft_tokens) }
    }

    pub fn can_start_rolling_mid_admit(&self, f: NeuralFacts) -> (r: bool)
        ensures
            r == self.lets_in(f),
    {
        self.source == NeuralExactSource::Gemma4Assistant || f.stats.is_none() || f.at_boundary
    }

    fn at(&mut self, stage: NeuralStage, fx: Vec<ModeEffect>, action: ModeAction) -> (turn: ModeTurn)
        ensures
            *final(self) == old(self).go(stage, fx@, action).0,
            turn@ == old(self).go(stage, fx@, action).1,
    {
        self.stage = stage;
        ModeTurn { effects: fx, transition: None, action }
    }

    /// Begins to prefill a fresh batch.
    pub fn prefill_admitted(&mut self, f: NeuralFacts) -> (turn: ModeTurn)
        ensures
            *final(self) == old(self).prefill_begun(f).0,
            turn@ == old(self).prefill_begun(f).1,
    {
        self.exact_episode = None;
        if self.qualified {
            if let Some(regime) = f.exact_regime {
                return self.at(
                    NeuralStage::PrefillAsking,
                    Vec::new(),
                    ModeAction::AskExactAction { regime },
                );
            }
        }
        self.judge_prefill(NeuralExactAction::Exact, f)
    }

    fn judge_prefill(&mut self, action: NeuralExactAction, f: NeuralFacts) -> (turn: ModeTurn)
        ensures
            *final(self) == old(self).prefill_judged(action, f).0,
            turn@ == old(self).prefill_judged(action, f).1,
    {
        if action == NeuralExactAction::Exact && f.fresh_eligible {
            match self.source {
                NeuralExactSource::QwenMtp => self.at(
                    NeuralStage::PrefillVerifying { action },
                    Vec::new(),
                    ModeAction::AskFreshVerify,
                ),
                NeuralExactSource::Gemma4Assistant => self.prefill(action, true, f),
            }
        } else {
            self.prefill(action, false, f)
        }
    }

    fn prefill(&mut self, action: NeuralExactAction, drafted: bool, f: NeuralFacts) -> (turn:
        ModeTurn)
        ensures
            *final(self) == old(self).prefilling(action, drafted, f).0,
            turn@ == old(self).prefilling(action, drafted, f).1,
    {
        let stats_before: MtpSpeculativeStats = match f.stats {
            Some(stats) => stats,
            None => MtpSpeculativeStats::default(),
        };
        let mut fx: Vec<ModeEffect> = Vec::new();
        if drafted {
            fx.push(ModeEffect::CountPrefill);
        } else {
            fx.push(ModeEffect::CountPrefillFallback);
        }
        self.at(
            NeuralStage::Prefilling { action, drafted, regime: f.exact_regime, stats_before },
            fx,
            if drafted {
                ModeAction::PrefillDraft
            } else {
                ModeAction::Prefill
            },
        )
    }

    fn finish_exact_episode(&mut self, f: NeuralFacts, fx: &mut Vec<ModeEffect>)
        ensures
            *final(self) == old(self).finished(),
            final(fx)@ == old(fx)@ + old(self).finish_effects(f),
    {
        let sample: Option<NeuralExactSample> = finish_neural_exact_episode(
            &mut self.exact_episode,
            self.qualified,
            f.stats,
        );
        if let Some(sample) = sample {
            fx.push(ModeEffect::ExactSample(sample));
        }
        if self.qualified {
            fx.push(ModeEffect::PublishExact);
        }
        assert(fx@ =~= old(fx)@ + old(self).finish_effects(f));
    }

    fn prefill_done(&mut self, events: usize, elapsed_ns: u64, f: NeuralFacts) -> (turn: ModeTurn)
        ensures
            *final(self) == old(self).prefilled(events, elapsed_ns, f).0,
            turn@ == old(self).prefilled(events, elapsed_ns, f).1,
    {
        let mut fx: Vec<ModeEffect> = Vec::new();
        if let NeuralStage::Prefilling { action, drafted, regime, stats_before } = self.stage {
            if drafted {
                fx.push(ModeEffect::StoreNeuralStats);
            }
            assert(fx@ =~= only_if(drafted, ModeEffect::StoreNeuralStats));
            if self.qualified {
                if let Some(regime) = regime {
                    self.exact_episode = Some(
                        NeuralExactMeasuredEpisode {
                            regime,
                            action,
                            elapsed_ns,
                            committed_tokens: events,
                            stats_before,
                        },
                    );
                    if f.finished {
                        self.finish_exact_episode(f, &mut fx);
                    }
                }
                fx.push(ModeEffect::PublishExact);
            }
        }
        assert(fx@ =~= old(self).prefilled(events, elapsed_ns, f).1.effects);
        self.at(NeuralStage::Idle, fx, ModeAction::Done)
    }

    /// Begins a decode step.
    pub fn step(&mut self, admission_pending: bool, f: NeuralFacts) -> (turn: ModeTurn)
        ensures
            *final(self) == old(self).step_begun(admission_pending, f).0,
            turn@ == old(self).step_begun(admission_pending, f).1,
    {
        if self.source == NeuralExactSource::QwenMtp && self.exact() && f.stats.is_some()
            && f.at_boundary {
            self.at(
                NeuralStage::StepVerifying { admission_pending },
                Vec::new(),
                ModeAction::AskNextWindowVerify,
            )
        } else {
            self.run_step(admission_pending, f)
        }
    }

    fn exact(&self) -> (r: bool)
        ensures
            r == (self.action() == NeuralExactAction::Exact),
    {
        match self.exact_episode {
            Some(episode) => episode.action == NeuralExactAction::Exact,
            None => true,
        }
    }

    fn run_step(&mut self, admission_pending: bool, f: NeuralFacts) -> (turn: ModeTurn)
        ensures
            *final(self) == old(self).stepping(admission_pending, f).0,
            turn@ == old(self).stepping(admission_pending, f).1,
    {
        let mut fx: Vec<ModeEffect> = Vec::new();
        if self.exact() && f.stats.is_some() {
            fx.push(ModeEffect::CountStep);
            let postfill: bool = !(self.source == NeuralExactSource::QwenMtp && admission_pending);
            self.at(NeuralStage::Stepping { drafted: true }, fx, ModeAction::StepDraft { postfill })
        } else {
            self.at(NeuralStage::Stepping { drafted: false }, fx, ModeAction::StepPlain)
        }
    }

    fn step_done(&mut self, events: usize, elapsed_ns: u64, f: NeuralFacts) -> (turn: ModeTurn)
        ensures
            *final(self) == old(self).stepped(events, elapsed_ns, f).0,
            turn@ == old(self).stepped(events, elapsed_ns, f).1,
    {
        let mut fx: Vec<ModeEffect> = Vec::new();
        if self.stage == (NeuralStage::Stepping { drafted: true }) {
            fx.push(ModeEffect::StoreNeuralStats);
        }
        assert(fx@ =~= only_if(
            self.stage == (NeuralStage::Stepping { drafted: true }),
            ModeEffect::StoreNeuralStats,
        ));
        if let Some(episode) = self.exact_episode {
            self.exact_episode = Some(
                NeuralExactMeasuredEpisode {
                    elapsed_ns: episode.elapsed_ns.saturating_add(elapsed_ns),
                    committed_tokens: episode.committed_tokens.saturating_add(events),
                    ..episode
                },
            );
        }
        if f.finished {
            self.finish_exact_episode(f, &mut fx);
        }
        self.at(NeuralStage::Idle, fx, ModeAction::Done)
    }

    /// Begins to let a request into the running batch.
    pub fn begin_mid_admit(&mut self, f: NeuralFacts) -> (turn: ModeTurn)
        ensures
            *final(self) == old(self).mid_begun(f).0,
            turn@ == old(self).mid_begun(f).1,
    {
        self.exact_episode = None;
        if f.stats.is_some() {
            match self.source {
                NeuralExactSource::QwenMtp => self.at(
                    NeuralStage::MidVerifying,
                    Vec::new(),
                    ModeAction::AskRollingVerify,
                ),
                NeuralExactSource::Gemma4Assistant => self.at(
                    NeuralStage::Idle,
                    Vec::new(),
                    ModeAction::BeginMid { kind: MidAdmitKind::Draft },
                ),
            }
        } else {
            self.at(
                NeuralStage::Idle,
                Vec::new(),
                ModeAction::BeginMid { kind: MidAdmitKind::Generic },
            )
        }
    }

    /// Lets the request join the running rows once its prompt is prefilled.
    pub fn finalize_mid_admit(&mut self, kind: MidAdmitKind) -> (turn: ModeTurn)
        ensures
            *final(self) == old(self).finalizing(kind).0,
            turn@ == old(self).finalizing(kind).1,
    {
        self.at(NeuralStage::Finalizing { kind }, Vec::new(), ModeAction::FinalizeMid { kind })
    }

    /// Goes on after the outcome of the last action.
    pub fn resume(&mut self, event: ModeEvent, f: NeuralFacts) -> (turn: ModeTurn)
        requires
            old(self).stage.awaits(event),
        ensures
            *final(self) == old(self).after_event(event, f).0,
            turn@ == old(self).after_event(event, f).1,
    {
        let mut fx: Vec<ModeEffect> = Vec::new();
        match (self.stage, event) {
            (NeuralStage::PrefillAsking, ModeEvent::ExactAction(action)) => {
                self.judge_prefill(action, f)
            },
            (NeuralStage::PrefillVerifying { action }, ModeEvent::Eligible { eligible }) => {
                self.prefill(action, eligible, f)
            },
            (NeuralStage::Prefilling { .. }, ModeEvent::Stepped { events, elapsed_ns }) => {
                self.prefill_done(events, elapsed_ns, f)
            },
            (NeuralStage::StepVerifying { admission_pending }, ModeEvent::Eligible { eligible }) => {
                if eligible {
                    self.run_step(admission_pending, f)
                } else {
                    fx.push(ModeEffect::StoreNeuralStats);
                    self.at(
                        NeuralStage::StepRetiring { admission_pending },
                        fx,
                        ModeAction::Retire,
                    )
                }
            },
            (NeuralStage::StepRetiring { admission_pending }, ModeEvent::Done) => {
                self.run_step(admission_pending, f)
            },
            (NeuralStage::Stepping { .. }, ModeEvent::Stepped { events, elapsed_ns }) => {
                self.step_done(events, elapsed_ns, f)
            },
            (NeuralStage::MidVerifying, ModeEvent::Eligible { eligible }) => {
                if eligible {
                    self.at(
                        NeuralStage::Idle,
                        fx,
                        ModeAction::BeginMid { kind: MidAdmitKind::Draft },
                    )
                } else {
                    self.at(NeuralStage::MidRetiring, fx, ModeAction::Retire)
                }
            },
            (NeuralStage::MidRetiring, ModeEvent::Done) => self.at(
                NeuralStage::Idle,
                fx,
                ModeAction::BeginMid { kind: MidAdmitKind::Generic },
            ),
            (NeuralStage::Finalizing { kind }, ModeEvent::Finalized { .. }) => {
                if kind == MidAdmitKind::Draft {
                    fx.push(ModeEffect::StoreNeuralStats);
                }
                assert(fx@ =~= only_if(
                    kind == MidAdmitKind::Draft,
                    ModeEffect::StoreNeuralStats,
                ));
                self.at(NeuralStage::Idle, fx, ModeAction::Done)
            },
            _ => self.at(NeuralStage::Idle, fx, ModeAction::Done),
        }
    }
}

/// Neural drafts are never used for a batch that is not fit for them, nor by a draft head that
/// cannot be verified.
pub proof fn lemma_drafts_need_a_fit_batch(s: SchedulerActorMtp, f: NeuralFacts, event: ModeEvent)
    requires
        !f.fresh_eligible,
    ensures
        s.prefill_begun(f).1.action != ModeAction::PrefillDraft,
        s.stage == NeuralStage::PrefillAsking ==> s.after_event(event, f).1.action
            != ModeAction::PrefillDraft,
        s.stage is PrefillVerifying && event == (ModeEvent::Eligible { eligible: false })
            ==> s.after_event(event, f).1.action != ModeAction::PrefillDraft,
{
}

/// A batch whose cost controller chose ordinary decoding is decoded without drafts to its end.
pub proof fn lemma_ordinary_batch_stays_ordinary(
    s: SchedulerActorMtp,
    admission_pending: bool,
    f: NeuralFacts,
)
    requires
        s.action() == NeuralExactAction::Ordinary,
    ensures
        s.step_begun(admission_pending, f).1.action == ModeAction::StepPlain,
{
}

/// The cost of a measured batch is reported once, at its end, with all of its tokens.
pub proof fn lemma_episode_is_reported_at_its_end(
    s: SchedulerActorMtp,
    episode: NeuralExactMeasuredEpisode,
    events: usize,
    elapsed_ns: u64,
    f: NeuralFacts,
)
    requires
        s.qualified,
        s.exact_episode == Some(episode),
        s.stage is Stepping,
    ensures
        ({
            let (after, turn) = s.stepped(events, elapsed_ns, f);
            let last = episode.with(elapsed_ns, events);
            if f.finished {
                &&& after.exact_episode is None
                &&& turn.effects.contains(ModeEffect::ExactSample(last.sample(f.stats)))
            } else {
                &&& after.exact_episode == Some(last)
                &&& forall|i: int|
                    0 <= i < turn.effects.len() ==> !(#[trigger] turn.effects[i] is ExactSample)
            }
        }),
{
    if f.finished {
        let last = episode.with(elapsed_ns, events);
        let turn = s.stepped(events, elapsed_ns, f).1;
        let fx = only_if(
            s.stage == (NeuralStage::Stepping { drafted: true }),
            ModeEffect::StoreNeuralStats,
        );
        assert(turn.effects[fx.len() as int] == ModeEffect::ExactSample(last.sample(f.stats)));
    }
}

} // verus!
