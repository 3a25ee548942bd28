//! The ways a batch is decoded: plainly, with neural drafts, with lookup drafts, or with both.
use ironmlx::admission::{AdaptiveAdmissionPolicy, RequestId};
use ironmlx::counters::SchedulerActorMtpCounters;
use ironmlx::hybrid_mode::SchedulerActorPromptLookupHybrid;
use ironmlx::lookup_mode::SchedulerActorPromptLookup;
use ironmlx::lookup_window::{WindowAction, WindowEvent, WindowFacts};
use ironmlx::mode_types::{
    MidAdmitKind, ModeAction, ModeEffect, ModeEvent, ModeFacts, ModeTurn, NeuralFacts,
};
use ironmlx::modes::{CounterReadings, ModeChoice, SchedulerActorMode};
use ironmlx::neural_mode::{
    finish_neural_exact_episode, NeuralExactMeasuredEpisode, SchedulerActorMtp,
};
use ironmlx::prompt_lookup::{
    PromptLookupConfig, PromptLookupCostAction, PromptLookupDraftLimits,
    PromptLookupProposalSource, PromptLookupQualificationRegime, PromptLookupQualificationStats,
    PromptLookupStats, Sampler,
};
use ironmlx::speculative::{
    MtpSpeculativeStats, NeuralExactAction, NeuralExactQualificationStats, NeuralExactRegime,
    NeuralExactSource,
};

/// A batch of one request that decodes one token at a time and drafts one token ahead.
struct Batch {
    stats: Option<MtpSpeculativeStats>,
    sampled: bool,
    eligible: bool,
    verifiable: bool,
    pays: NeuralExactAction,
    lookup_pays: PromptLookupCostAction,
    lookup_found: bool,
    exact_regime: Option<NeuralExactRegime>,
    finished: bool,
    progress: usize,
    actions: Vec<ModeAction>,
    counters: SchedulerActorMtpCounters,
}

impl Batch {
    fn new() -> Self {
        Batch {
            stats: None,
            sampled: false,
            eligible: true,
            verifiable: true,
            pays: NeuralExactAction::Exact,
            lookup_pays: PromptLookupCostAction::Ordinary,
            lookup_found: false,
            exact_regime: None,
            finished: false,
            progress: 6,
            actions: Vec::new(),
            counters: SchedulerActorMtpCounters::new(),
        }
    }

    fn neural(&self) -> NeuralFacts {
        NeuralFacts {
            exact_regime: self.exact_regime,
            stats: self.stats,
            fresh_eligible: self.eligible,
            at_boundary: true,
            finished: self.finished,
        }
    }

    fn facts(&self) -> ModeFacts {
        ModeFacts {
            window: WindowFacts {
                stats: Some(PromptLookupStats::default()),
                base_regime: Some(PromptLookupQualificationRegime::new(1, 5, Sampler::Greedy)),
                adaptive_limits: PromptLookupDraftLimits::uniform(3),
                model_cap: 8,
                request_progress: vec![(RequestId(1), self.progress)],
                active_requests: vec![RequestId(1)],
                shared_availability_epoch: None,
            },
            neural: self.neural(),
            lookup_boundary: true,
        }
    }

    fn draft(&mut self) {
        let mut stats = self.stats.unwrap_or_default();
        stats.windows += 1;
        stats.drafted_tokens += 1;
        if self.sampled {
            stats.exact_sampling_windows += 1;
        }
        self.stats = Some(stats);
    }

    fn publish(&mut self, turn: &ModeTurn) {
        let readings = CounterReadings {
            neural: self.stats,
            lookup: Some(PromptLookupStats::default()),
            qualification: PromptLookupQualificationStats::default(),
            exact: NeuralExactQualificationStats::default(),
        };
        for effect in &turn.effects {
            self.counters.apply(*effect, &readings);
        }
    }

    /// The outcome of an action, or nothing where the operation ends with it.
    fn perform(&mut self, action: ModeAction) -> Option<ModeEvent> {
        self.actions.push(action);
        match action {
            ModeAction::Done | ModeAction::Refuse | ModeAction::BeginMid { .. } => None,
            ModeAction::Window(action) => Some(ModeEvent::Window(match action {
                WindowAction::Decided(_) => unreachable!("a decided window is run"),
                WindowAction::AskCostAction { .. } => WindowEvent::CostAction(self.lookup_pays),
                WindowAction::Prepare { .. } | WindowAction::Align => WindowEvent::Drafts {
                    found: self.lookup_found,
                },
                WindowAction::ReadProposal => WindowEvent::Proposal {
                    regime: Some(
                        PromptLookupQualificationRegime::new(1, 5, Sampler::Greedy)
                            .with_proposal(PromptLookupProposalSource::Local, 3),
                    ),
                    elapsed_ns: 5,
                },
                WindowAction::AskVerify { .. } => WindowEvent::Verify { eligible: true },
            })),
            ModeAction::AskExactAction { .. } => Some(ModeEvent::ExactAction(self.pays)),
            ModeAction::AskFreshVerify
            | ModeAction::AskNextWindowVerify
            | ModeAction::AskRollingVerify => Some(ModeEvent::Eligible {
                eligible: self.verifiable,
            }),
            ModeAction::PrefillDraft | ModeAction::StepDraft { .. } => {
                self.draft();
                Some(ModeEvent::Stepped {
                    events: 1,
                    elapsed_ns: 100,
                })
            }
            ModeAction::StepDraftObserving => {
                self.draft();
                Some(ModeEvent::Stepped {
                    events: 1,
                    elapsed_ns: 100,
                })
            }
            ModeAction::StepLookupWindow | ModeAction::StepLookupWithVerify => {
                Some(ModeEvent::LookupStepped {
                    events: 3,
                    elapsed_ns: 100,
                    canonical: false,
                })
            }
            ModeAction::Prefill
            | ModeAction::PrefillLookup
            | ModeAction::StepPlain
            | ModeAction::StepLookupOrdinary
            | ModeAction::StepLookup => Some(ModeEvent::Stepped {
                events: 1,
                elapsed_ns: 100,
            }),
            ModeAction::CommitLookup => Some(ModeEvent::Committed { elapsed_ns: 120 }),
            ModeAction::Rebase => Some(ModeEvent::Rebased { nanos: 2_000 }),
            ModeAction::Retire => {
                self.stats = None;
                Some(ModeEvent::Done)
            }
            ModeAction::InitializeLookup
            | ModeAction::RegisterLookup => Some(ModeEvent::Done),
            ModeAction::FinalizeMid { .. } => Some(ModeEvent::Finalized { ok: true }),
        }
    }

    fn run(&mut self, mode: &mut SchedulerActorMode, turn: ModeTurn) -> ModeAction {
        let mut turn = turn;
        loop {
            self.publish(&turn);
            match self.perform(turn.action) {
                None => return turn.action,
                Some(event) => {
                    let facts = self.facts();
                    turn = mode.resume(event, &facts);
                }
            }
        }
    }

    fn prefill(&mut self, mode: &mut SchedulerActorMode) {
        self.actions.clear();
        let facts = self.facts();
        let turn = mode.prefill_admitted(&facts);
        self.run(mode, turn);
    }

    fn step(&mut self, mode: &mut SchedulerActorMode) {
        self.actions.clear();
        self.progress += 2;
        let facts = self.facts();
        let turn = mode.step(false, &facts);
        self.run(mode, turn);
    }
}

fn mtp_mode() -> SchedulerActorMode {
    SchedulerActorMode::Neural(SchedulerActorMtp::new(NeuralExactSource::QwenMtp, 1))
}

fn lookup_config() -> PromptLookupConfig {
    PromptLookupConfig {
        min_ngram: 2,
        max_ngram: 3,
        max_draft_tokens: 3,
        history_window_tokens: 64,
        max_index_entries: 128,
        cross_request: false,
    }
}

#[test]
fn actor_mtp_mode_prefill_and_step_use_mtp_for_eligible_request() {
    let mut batch = Batch::new();
    let mut mode = mtp_mode();

    batch.prefill(&mut mode);
    assert_eq!(batch.counters.counts.mtp_prefill_count, 1);
    assert_eq!(batch.counters.counts.mtp_prefill_fallback_count, 0);
    assert!(batch.stats.is_some());

    batch.step(&mut mode);
    assert_eq!(batch.counters.counts.mtp_step_count, 1);
    let drafted = batch.counters.counts.mtp_drafted_tokens;
    let accepted = batch.counters.counts.mtp_accepted_draft_tokens;
    assert!(
        drafted >= 1,
        "eligible request must draft at least one token"
    );
    assert!(
        accepted <= drafted,
        "accepted draft tokens cannot exceed drafted tokens"
    );
}

#[test]
fn actor_mtp_mode_prefill_uses_mtp_for_eligible_vl_request() {
    let mut batch = Batch::new();
    let mut mode = mtp_mode();

    batch.prefill(&mut mode);

    assert_eq!(batch.counters.counts.mtp_prefill_count, 1);
    assert_eq!(batch.counters.counts.mtp_prefill_fallback_count, 0);
    assert!(batch.stats.is_some());
}

#[test]
fn actor_mtp_mode_prefill_uses_exact_mtp_for_sampled_b1_request() {
    let mut batch = Batch::new();
    batch.sampled = true;
    let mut mode = mtp_mode();

    batch.prefill(&mut mode);

    assert_eq!(batch.counters.counts.mtp_prefill_count, 1);
    assert_eq!(batch.counters.counts.mtp_prefill_fallback_count, 0);
    assert!(batch.counters.counts.mtp_drafted_tokens > 0);
    assert!(batch.counters.counts.mtp_exact_sampling_windows > 0);
    assert!(batch.stats.is_some());
}

#[test]
fn an_unfit_batch_is_decoded_without_drafts() {
    let mut batch = Batch::new();
    batch.eligible = false;
    let mut mode = mtp_mode();
    batch.prefill(&mut mode);
    assert_eq!(batch.counters.counts.mtp_prefill_fallback_count, 1);
    assert_eq!(batch.actions, vec![ModeAction::Prefill, ModeAction::Done]);
    batch.step(&mut mode);
    assert_eq!(batch.actions, vec![ModeAction::StepPlain, ModeAction::Done]);
    assert_eq!(batch.counters.counts.mtp_step_count, 0);
}

#[test]
fn a_window_that_cannot_be_verified_retires_the_drafts() {
    let mut batch = Batch::new();
    let mut mode = mtp_mode();
    batch.prefill(&mut mode);
    batch.verifiable = false;
    batch.step(&mut mode);
    assert_eq!(
        batch.actions,
        vec![
            ModeAction::AskNextWindowVerify,
            ModeAction::Retire,
            ModeAction::StepPlain,
            ModeAction::Done,
        ]
    );
    assert!(batch.stats.is_none());
}

#[test]
fn a_measured_batch_is_reported_at_its_end() {
    let mut batch = Batch::new();
    batch.exact_regime = Some(NeuralExactRegime {
        source: NeuralExactSource::Gemma4Assistant,
        key: 9,
    });
    let mut mode = SchedulerActorMtp::new_with_exact_qualification(
        NeuralExactSource::Gemma4Assistant,
        2,
    );
    let turn = mode.prefill_admitted(batch.neural());
    assert!(matches!(turn.action, ModeAction::AskExactAction { .. }));
    let turn = mode.resume(
        ModeEvent::ExactAction(NeuralExactAction::Exact),
        batch.neural(),
    );
    assert_eq!(turn.action, ModeAction::PrefillDraft);
    batch.draft();
    mode.resume(
        ModeEvent::Stepped {
            events: 1,
            elapsed_ns: 40,
        },
        batch.neural(),
    );
    let turn = mode.step(false, batch.neural());
    assert_eq!(turn.action, ModeAction::StepDraft { postfill: true });
    batch.draft();
    batch.finished = true;
    let turn = mode.resume(
        ModeEvent::Stepped {
            events: 2,
            elapsed_ns: 60,
        },
        batch.neural(),
    );
    let sample = turn.effects.iter().find_map(|effect| match effect {
        ModeEffect::ExactSample(sample) => Some(*sample),
        _ => None,
    });
    let sample = sample.expect("the batch has ended");
    assert_eq!(sample.elapsed_ns, 100);
    assert_eq!(sample.committed_tokens, 3);
    assert_eq!(sample.counters.drafted_tokens, 2);
}

#[test]
fn an_episode_is_taken_once() {
    let episode = NeuralExactMeasuredEpisode {
        regime: NeuralExactRegime {
            source: NeuralExactSource::QwenMtp,
            key: 1,
        },
        action: NeuralExactAction::Exact,
        elapsed_ns: 7,
        committed_tokens: 2,
        stats_before: MtpSpeculativeStats::default(),
    };
    let mut slot = Some(episode);
    let sample = finish_neural_exact_episode(&mut slot, true, None).expect("qualified");
    assert_eq!(sample.elapsed_ns, 7);
    assert!(slot.is_none());
    assert_eq!(finish_neural_exact_episode(&mut slot, true, None), None);
    let mut slot = Some(episode);
    assert_eq!(finish_neural_exact_episode(&mut slot, false, None), None);
    assert!(slot.is_none());
}

#[test]
fn requests_enter_a_drafted_batch_between_windows() {
    let batch = Batch::new();
    let mut facts = batch.neural();
    facts.at_boundary = false;
    facts.stats = Some(MtpSpeculativeStats::default());
    let native = SchedulerActorMtp::new(NeuralExactSource::QwenMtp, 1);
    assert!(!native.can_start_rolling_mid_admit(facts));
    let drafter = SchedulerActorMtp::new(NeuralExactSource::Gemma4Assistant, 1);
    assert!(drafter.can_start_rolling_mid_admit(facts));
    facts.stats = None;
    assert!(native.can_start_rolling_mid_admit(facts));
}

#[test]
fn a_mid_batch_admission_is_verified_before_it_begins() {
    let mut batch = Batch::new();
    let mut mode = mtp_mode();
    batch.prefill(&mut mode);
    let facts = batch.facts();
    let turn = mode.begin_mid_admit(true, &facts);
    assert_eq!(turn.action, ModeAction::AskRollingVerify);
    let turn = mode.resume(ModeEvent::Eligible { eligible: true }, &facts);
    assert_eq!(
        turn.action,
        ModeAction::BeginMid {
            kind: MidAdmitKind::Draft
        }
    );
    let turn = mode.finalize_mid_admit(MidAdmitKind::Draft);
    assert_eq!(
        turn.action,
        ModeAction::FinalizeMid {
            kind: MidAdmitKind::Draft
        }
    );
    let turn = mode.resume(ModeEvent::Finalized { ok: false }, &facts);
    assert_eq!(turn.action, ModeAction::Done);
    assert_eq!(turn.effects, vec![ModeEffect::StoreNeuralStats]);
}

#[test]
fn the_first_window_of_a_lookup_batch_is_ordinary() {
    let mut batch = Batch::new();
    batch.lookup_found = true;
    batch.lookup_pays = PromptLookupCostAction::Lookup;
    let mut mode =
        SchedulerActorMode::PromptLookup(SchedulerActorPromptLookup::new(lookup_config()));
    batch.prefill(&mut mode);
    assert_eq!(
        batch.actions,
        vec![ModeAction::PrefillLookup, ModeAction::Done]
    );
    batch.step(&mut mode);
    assert_eq!(
        batch.actions,
        vec![ModeAction::StepLookupOrdinary, ModeAction::Done]
    );
    batch.step(&mut mode);
    assert!(batch.actions.contains(&ModeAction::StepLookup));
}

#[test]
fn admission_pressure_keeps_lookup_windows_out() {
    let batch = Batch::new();
    let mut mode = SchedulerActorPromptLookup::new(lookup_config());
    let turn = mode.step(true, &batch.facts().window);
    assert_eq!(turn.action, ModeAction::StepLookupOrdinary);
}

#[test]
fn a_hybrid_uses_lookup_where_it_pays_and_rebuilds_its_drafts_after() {
    let mut batch = Batch::new();
    let mut mode = SchedulerActorMode::Hybrid(SchedulerActorPromptLookupHybrid::new(
        NeuralExactSource::Gemma4Assistant,
        2,
        lookup_config(),
    ));
    batch.prefill(&mut mode);
    assert!(batch.actions.contains(&ModeAction::PrefillDraft));
    assert!(batch.actions.contains(&ModeAction::InitializeLookup));
    batch.step(&mut mode);
    batch.lookup_found = true;
    batch.lookup_pays = PromptLookupCostAction::Lookup;
    let mut looked_up = false;
    for _ in 0..4 {
        batch.step(&mut mode);
        looked_up |= batch.actions.contains(&ModeAction::StepLookupWindow)
            || batch.actions.contains(&ModeAction::StepLookupWithVerify);
    }
    assert!(looked_up, "a paying lookup window is run");
    batch.lookup_found = false;
    let mut rebased = false;
    for _ in 0..4 {
        batch.step(&mut mode);
        rebased |= batch.actions.contains(&ModeAction::Rebase);
    }
    assert!(rebased, "stale drafts are rebuilt");
    let SchedulerActorMode::Hybrid(hybrid) = &mode else {
        panic!("the mode does not change");
    };
    assert!(hybrid.stats().lookup_windows > 0);
    assert!(hybrid.stats().neural_rebases > 0);
    assert!(hybrid.stats().neural_windows > 0);
}

#[test]
fn a_transition_is_recorded_before_the_figures_are_published() {
    let mut batch = Batch::new();
    let mut mode = SchedulerActorMode::Hybrid(SchedulerActorPromptLookupHybrid::new(
        NeuralExactSource::Gemma4Assistant,
        2,
        lookup_config(),
    ));
    batch.prefill(&mut mode);
    batch.step(&mut mode);
    batch.lookup_found = true;
    batch.lookup_pays = PromptLookupCostAction::Lookup;
    for _ in 0..3 {
        batch.step(&mut mode);
    }
    let facts = batch.facts();
    let turn = mode.begin_mid_admit(true, &facts);
    let ModeAction::BeginMid { kind } = batch.run(&mut mode, turn) else {
        panic!("the request is let in");
    };
    let mut turn = mode.finalize_mid_admit(kind);
    while turn.action != ModeAction::Rebase {
        let event = batch.perform(turn.action).expect("the admission goes on");
        turn = mode.resume(event, &facts);
    }
    let turn = mode.resume(ModeEvent::Rebased { nanos: 2_000 }, &facts);
    assert_eq!(turn.action, ModeAction::Done);
    assert_eq!(turn.effects.len(), 3);
    assert_eq!(turn.effects[0], ModeEffect::RecordTransition);
    assert_eq!(turn.effects[1], ModeEffect::PublishLookup);
    assert!(matches!(turn.effects[2], ModeEffect::PublishHybrid(_)));
    let transition = turn.transition.expect("lookup windows were run");
    assert_eq!(transition.elapsed_ns, 2_000);
    assert!(transition.committed_tokens > 0);
}

#[test]
fn a_hybrid_refuses_sampled_requests() {
    let batch = Batch::new();
    let mut mode = SchedulerActorPromptLookupHybrid::new(
        NeuralExactSource::QwenMtp,
        1,
        lookup_config(),
    );
    let turn = mode.begin_mid_admit(false, &batch.facts());
    assert_eq!(turn.action, ModeAction::Refuse);
}

#[test]
fn each_choice_has_its_admission_policy() {
    assert_eq!(
        ModeChoice::NoMtp.admission_policy(),
        AdaptiveAdmissionPolicy::disabled()
    );
    assert_eq!(
        ModeChoice::LookupControl.admission_policy(),
        AdaptiveAdmissionPolicy::prompt_lookup()
    );
    assert_eq!(
        ModeChoice::PromptLookup {
            cfg: lookup_config()
        }
        .admission_policy(),
        AdaptiveAdmissionPolicy::prompt_lookup()
    );
    assert_eq!(
        ModeChoice::Neural {
            source: NeuralExactSource::QwenMtp,
            draft_tokens: 1
        }
        .admission_policy(),
        AdaptiveAdmissionPolicy::qwen_mtp()
    );
    assert_eq!(
        ModeChoice::Hybrid {
            source: NeuralExactSource::Gemma4Assistant,
            draft_tokens: 1,
            cfg: lookup_config()
        }
        .admission_policy(),
        AdaptiveAdmissionPolicy::gemma4_drafter()
    );
}

#[test]
fn plain_decoding_needs_nothing_else() {
    let mut batch = Batch::new();
    let mut mode = SchedulerActorMode::new(ModeChoice::LookupControl);
    assert!(matches!(mode, SchedulerActorMode::NoMtp));
    assert!(mode.can_start_rolling_mid_admit(&batch.facts()));
    batch.prefill(&mut mode);
    assert_eq!(batch.actions, vec![ModeAction::Prefill, ModeAction::Done]);
    batch.step(&mut mode);
    assert_eq!(batch.actions, vec![ModeAction::StepPlain, ModeAction::Done]);
}
