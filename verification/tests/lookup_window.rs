//! How the next decode window is chosen when drafts come from text that was seen before.
use ironmlx::admission::RequestId;
use ironmlx::lookup_window::{
    prompt_lookup_admission_forces_ordinary, qwen_hybrid_uses_canonical_target, HybridDraftSource,
    PromptLookupEpisode, PromptLookupMissQueryHint, PromptLookupMissQueryScope,
    PromptLookupQueryHint, PromptLookupQueryScope, PromptLookupWindow, PromptLookupWindowDecision,
    WindowAction, WindowEffect, WindowEvent, WindowFacts, WindowOptions, WindowTurn,
};
use ironmlx::prompt_lookup::{
    PromptLookupCostAction, PromptLookupDraftLimits, PromptLookupProposalSource,
    PromptLookupQualificationRegime, PromptLookupStats, Sampler,
};

#[test]
fn prompt_lookup_admission_pressure_only_blocks_new_windows() {
    assert!(prompt_lookup_admission_forces_ordinary(false, true));
    assert!(!prompt_lookup_admission_forces_ordinary(true, true));
    assert!(!prompt_lookup_admission_forces_ordinary(false, false));
}

#[test]
fn qwen_hybrid_routes_certified_lookup_to_canonical_target() {
    let base = PromptLookupQualificationRegime::new(2, 1024, Sampler::Greedy);
    assert!(qwen_hybrid_uses_canonical_target(
        HybridDraftSource::PromptLookup,
        Some(base.with_proposal(PromptLookupProposalSource::Shared, 3)),
    ));
    assert!(qwen_hybrid_uses_canonical_target(
        HybridDraftSource::PromptLookup,
        Some(base.with_proposal(PromptLookupProposalSource::Local, 3)),
    ));
    assert!(!qwen_hybrid_uses_canonical_target(
        HybridDraftSource::Neural,
        Some(base.with_proposal(PromptLookupProposalSource::Shared, 3)),
    ));
    assert!(!qwen_hybrid_uses_canonical_target(
        HybridDraftSource::PromptLookup,
        Some(base.with_proposal(PromptLookupProposalSource::Mixed, 3)),
    ));
}

#[test]
fn prompt_lookup_query_hint_is_bound_to_base_regime_and_request_owners() {
    let base = PromptLookupQualificationRegime::new(2, 1024, Sampler::Greedy);
    let scope = PromptLookupQueryScope {
        base_regime: base,
        owners: vec![RequestId(11), RequestId(12)],
        draft_limits: PromptLookupDraftLimits::uniform(4),
    };
    let proposal_regime = base.with_proposal(PromptLookupProposalSource::Shared, 4);
    let hint = PromptLookupQueryHint {
        scope: scope.clone(),
        proposal_regime,
    };

    assert_eq!(hint.proposal_regime_for(&scope), Some(proposal_regime));
    assert_eq!(
        hint.proposal_regime_for(&PromptLookupQueryScope {
            base_regime: PromptLookupQualificationRegime::new(2, 8193, Sampler::Greedy),
            owners: scope.owners.clone(),
            draft_limits: scope.draft_limits,
        }),
        None
    );
    assert_eq!(
        hint.proposal_regime_for(&PromptLookupQueryScope {
            base_regime: base,
            owners: vec![RequestId(11), RequestId(13)],
            draft_limits: scope.draft_limits,
        }),
        None
    );
    assert_eq!(
        hint.proposal_regime_for(&PromptLookupQueryScope {
            base_regime: base,
            owners: scope.owners.clone(),
            draft_limits: PromptLookupDraftLimits::new(3, 4),
        }),
        None
    );
}

#[test]
fn prompt_lookup_miss_query_hint_uses_bounded_progress_and_invalidates_identity() {
    let base = PromptLookupQualificationRegime::new(2, 1024, Sampler::Greedy);
    let scope = PromptLookupMissQueryScope {
        base_regime: base,
        request_progress: vec![(RequestId(11), 100), (RequestId(12), 200)],
        allow_cross_request: true,
        shared_availability_epoch: Some(3),
    };
    let first = PromptLookupMissQueryHint::after_miss(scope.clone(), None);
    assert_eq!(first.reprobe_after_tokens, 2);

    let mut progressed = scope.clone();
    progressed.request_progress[0].1 += 1;
    assert!(first.should_skip(&progressed));
    progressed.request_progress[0].1 += 1;
    assert!(!first.should_skip(&progressed));

    let second = PromptLookupMissQueryHint::after_miss(progressed.clone(), Some(&first));
    assert_eq!(second.reprobe_after_tokens, 4);
    progressed.request_progress[1].1 += 3;
    assert!(second.should_skip(&progressed));
    progressed.request_progress[1].1 += 1;
    assert!(!second.should_skip(&progressed));

    let third = PromptLookupMissQueryHint::after_miss(progressed.clone(), Some(&second));
    assert_eq!(third.reprobe_after_tokens, 8);
    let capped = PromptLookupMissQueryHint::after_miss(progressed.clone(), Some(&third));
    assert_eq!(capped.reprobe_after_tokens, 8);

    let mut changed_epoch = progressed.clone();
    changed_epoch.shared_availability_epoch = Some(4);
    assert!(!capped.identity_matches(&changed_epoch));
    assert!(!capped.should_skip(&changed_epoch));

    let mut changed_owner = progressed;
    changed_owner.request_progress[1].0 = RequestId(13);
    assert!(!capped.identity_matches(&changed_owner));
    assert!(!capped.should_skip(&changed_owner));
}

fn plain_options() -> WindowOptions {
    WindowOptions {
        allow_cross_request: false,
        capture_accepted_hidden: false,
        match_mtp_verify_shape: false,
        force_ordinary: false,
    }
}

fn facts() -> WindowFacts {
    WindowFacts {
        stats: Some(PromptLookupStats::default()),
        base_regime: Some(PromptLookupQualificationRegime::new(1, 5, Sampler::Greedy)),
        adaptive_limits: PromptLookupDraftLimits::uniform(3),
        model_cap: 8,
        request_progress: vec![(RequestId(1), 6)],
        active_requests: vec![RequestId(1)],
        shared_availability_epoch: None,
    }
}

/// A cost controller and an index that answer what they are set to, and count what they are asked.
struct Answers {
    found: bool,
    pays: PromptLookupCostAction,
    verifiable: bool,
    proposal: Option<PromptLookupQualificationRegime>,
    queries: u64,
    query_gate_skips: u64,
    miss_query_gate_skips: u64,
    miss_query_reprobes: u64,
    discards: u64,
    ineligible: u64,
}

impl Answers {
    fn new(found: bool, pays: PromptLookupCostAction) -> Self {
        let base = PromptLookupQualificationRegime::new(1, 5, Sampler::Greedy);
        Answers {
            found,
            pays,
            verifiable: true,
            proposal: Some(base.with_proposal(PromptLookupProposalSource::Local, 3)),
            queries: 0,
            query_gate_skips: 0,
            miss_query_gate_skips: 0,
            miss_query_reprobes: 0,
            discards: 0,
            ineligible: 0,
        }
    }

    fn take_in(&mut self, turn: &WindowTurn) {
        for effect in &turn.effects {
            match effect {
                WindowEffect::Discard => self.discards += 1,
                WindowEffect::QueryGateSkip => self.query_gate_skips += 1,
                WindowEffect::MissQueryGateSkip => self.miss_query_gate_skips += 1,
                WindowEffect::MissQueryReprobe => self.miss_query_reprobes += 1,
                WindowEffect::LookupIneligible { .. } => self.ineligible += 1,
            }
        }
    }

    fn decide(
        &mut self,
        window: &mut PromptLookupWindow,
        options: WindowOptions,
        facts: &WindowFacts,
    ) -> PromptLookupWindowDecision {
        let mut turn = window.select_prepared_window(options, facts);
        loop {
            self.take_in(&turn);
            let event = match turn.action {
                WindowAction::Decided(decision) => return decision,
                WindowAction::AskCostAction { .. } => WindowEvent::CostAction(self.pays),
                WindowAction::Prepare { .. } => {
                    self.queries += 1;
                    WindowEvent::Drafts { found: self.found }
                }
                WindowAction::Align => WindowEvent::Drafts { found: self.found },
                WindowAction::ReadProposal => WindowEvent::Proposal {
                    regime: self.proposal,
                    elapsed_ns: 10,
                },
                WindowAction::AskVerify { .. } => WindowEvent::Verify {
                    eligible: self.verifiable,
                },
            };
            turn = window.resume(event, facts);
        }
    }
}

#[test]
fn prompt_lookup_miss_query_gate_skips_repeated_actor_query() {
    let mut window = PromptLookupWindow::new(3);
    let mut answers = Answers::new(false, PromptLookupCostAction::Ordinary);

    let first = answers.decide(&mut window, plain_options(), &facts());
    assert_eq!(first.action, PromptLookupCostAction::Ordinary);
    assert!(first.fallback_to_baseline);
    assert_eq!(answers.queries, 1);

    let second = answers.decide(&mut window, plain_options(), &facts());
    assert_eq!(second.action, PromptLookupCostAction::Ordinary);
    assert!(second.fallback_to_baseline);
    assert_eq!(answers.queries, 1);
    assert_eq!(answers.miss_query_gate_skips, 1);
    assert_eq!(answers.miss_query_reprobes, 0);
}

#[test]
fn prompt_lookup_query_gate_skips_repeated_baseline_proposal_search() {
    let mut window = PromptLookupWindow::new(3);
    let mut answers = Answers::new(true, PromptLookupCostAction::Ordinary);

    let first = answers.decide(&mut window, plain_options(), &facts());
    assert_eq!(first.action, PromptLookupCostAction::Ordinary);
    assert!(first
        .regime
        .is_some_and(|regime| regime.proposal_source == Some(PromptLookupProposalSource::Local)));
    assert_eq!(answers.queries, 1);

    let second = answers.decide(&mut window, plain_options(), &facts());
    assert_eq!(second.action, PromptLookupCostAction::Ordinary);
    assert_eq!(answers.queries, 1);
    assert_eq!(answers.query_gate_skips, 1);

    answers.pays = PromptLookupCostAction::Lookup;
    let probe = answers.decide(&mut window, plain_options(), &facts());
    assert_eq!(probe.action, PromptLookupCostAction::Lookup);
    assert_eq!(answers.queries, 2);
}

#[test]
fn a_search_right_after_a_miss_is_spared() {
    let mut window = PromptLookupWindow::new(3);
    let mut answers = Answers::new(false, PromptLookupCostAction::Lookup);
    let mut facts = facts();
    answers.decide(&mut window, plain_options(), &facts);
    facts.request_progress[0].1 += 1;
    let spared = answers.decide(&mut window, plain_options(), &facts);
    assert_eq!(spared.action, PromptLookupCostAction::Ordinary);
    assert_eq!(spared.proposal_elapsed_ns, 0);
    assert!(spared.fallback_to_baseline);
    assert_eq!(answers.queries, 1);
    assert_eq!(answers.miss_query_gate_skips, 1);
}

#[test]
fn progress_brings_the_search_back() {
    let mut window = PromptLookupWindow::new(3);
    let mut answers = Answers::new(false, PromptLookupCostAction::Ordinary);
    let mut facts = facts();
    answers.decide(&mut window, plain_options(), &facts);
    facts.request_progress[0].1 += 2;
    answers.decide(&mut window, plain_options(), &facts);
    assert_eq!(answers.queries, 2);
    assert_eq!(answers.miss_query_reprobes, 1);
}

#[test]
fn a_forced_window_is_ordinary_and_searches_nothing() {
    let mut window = PromptLookupWindow::new(3);
    let mut answers = Answers::new(true, PromptLookupCostAction::Lookup);
    let mut options = plain_options();
    options.force_ordinary = true;
    let decision = answers.decide(&mut window, options, &facts());
    assert_eq!(decision.action, PromptLookupCostAction::Ordinary);
    assert_eq!(answers.queries, 0);
}

#[test]
fn an_unverifiable_proposal_is_dropped_and_reported() {
    let mut window = PromptLookupWindow::new(3);
    let mut answers = Answers::new(true, PromptLookupCostAction::Lookup);
    answers.verifiable = false;
    let decision = answers.decide(&mut window, plain_options(), &facts());
    assert_eq!(decision.action, PromptLookupCostAction::Ordinary);
    assert_eq!(answers.ineligible, 1);
    assert!(answers.discards > 0);
}

#[test]
fn a_lookup_window_keeps_its_drafts() {
    let mut window = PromptLookupWindow::new(3);
    let mut answers = Answers::new(true, PromptLookupCostAction::Lookup);
    let decision = answers.decide(&mut window, plain_options(), &facts());
    assert_eq!(decision.action, PromptLookupCostAction::Lookup);
    assert_eq!(decision.proposal_elapsed_ns, 10);
    assert!(!decision.fallback_to_baseline);
}

#[test]
fn hints_can_be_forgotten() {
    let mut window = PromptLookupWindow::new(3);
    let mut answers = Answers::new(false, PromptLookupCostAction::Ordinary);
    answers.decide(&mut window, plain_options(), &facts());
    window.forget();
    answers.decide(&mut window, plain_options(), &facts());
    assert_eq!(answers.queries, 2);
    assert_eq!(answers.miss_query_gate_skips, 0);
}

#[test]
fn an_episode_lists_a_regime_once() {
    let base = PromptLookupQualificationRegime::new(1, 5, Sampler::Greedy);
    let other = base.with_proposal(PromptLookupProposalSource::Shared, 2);
    let mut episode = PromptLookupEpisode::new();
    episode.record(base, 3);
    episode.record(other, 4);
    episode.record(base, 5);
    assert_eq!(episode.regimes, vec![base, other]);
    assert_eq!(episode.committed_tokens, 12);
}

#[test]
fn draft_limits_are_capped_by_the_model() {
    let limits = PromptLookupDraftLimits::new(5, 2).capped(3);
    assert_eq!(limits, PromptLookupDraftLimits::new(3, 2));
}
