//! Decoding with prompt lookup alone.
use vstd::prelude::*;

use crate::lookup_window::{
    prompt_lookup_admission_forces_ordinary, PromptLookupMeasuredCycle, PromptLookupWindow,
    PromptLookupWindowDecision, WindowAction, WindowFacts, WindowFactsView, WindowOptions,
    WindowTurn, WindowTurnView, WindowView,
};
use crate::mode_types::{
    MidAdmitKind, ModeAction, ModeEffect, ModeEvent, ModeFacts, ModeFactsView, ModeTurn,
    ModeTurnView, PromptLookupSample,
};
use crate::prompt_lookup::{PromptLookupConfig, PromptLookupCostAction};

verus! {

/// What the mode is waiting for.
#[derive(Clone, Copy, Debug, PartialEq, Eq, Structural)]
pub enum LookupStage {
    Idle,
    Selecting,
    Stepping { decision: PromptLookupWindowDecision },
    Prefilling,
    Finalizing,
    Registering,
}

/// A batch that is decoded with prompt lookup where it pays.
#[derive(Debug)]
pub struct SchedulerActorPromptLookup {
    cfg: PromptLookupConfig,
    defer_speculation_once: bool,
    measured_cycle: Option<PromptLookupMeasuredCycle>,
    window: PromptLookupWindow,
    stage: LookupStage,
}

#[verifier::ext_equal]
pub struct LookupModeView {
    pub cfg: PromptLookupConfig,
    /// Whether the next window has to be ordinary.
    pub defer_speculation_once: bool,
    pub measured_cycle: Option<PromptLookupMeasuredCycle>,
    pub window: WindowView,
    pub stage: LookupStage,
}

impl View for SchedulerActorPromptLookup {
    type V = LookupModeView;

    closed spec fn view(&self) -> LookupModeView {
        LookupModeView {
            cfg: self.cfg,
            defer_speculation_once: self.defer_speculation_once,
            measured_cycle: self.measured_cycle,
            window: self.window@,
            stage: self.stage,
        }
    }
}

/// The options of a window for lookup alone.
pub open spec fn lookup_options(force_ordinary: bool) -> WindowOptions {
    WindowOptions {
        allow_cross_request: true,
        capture_accepted_hidden: false,
        match_mtp_verify_shape: false,
        force_ordinary,
    }
}

impl PromptLookupMeasuredCycle {
    /// The cycle with another step in it.
    pub open spec fn with(self, elapsed_ns: u64, tokens: usize) -> PromptLookupMeasuredCycle {
        PromptLookupMeasuredCycle {
            elapsed_ns: crate::prompt_lookup::summed(self.elapsed_ns, elapsed_ns),
            committed_tokens: crate::lookup_window::capped_sum(self.committed_tokens, tokens),
            ..self
        }
    }

    pub fn plus(self, elapsed_ns: u64, tokens: usize) -> (cycle: Self)
        ensures
            cycle == self.with(elapsed_ns, tokens),
    {
        PromptLookupMeasuredCycle {
            elapsed_ns: self.elapsed_ns.saturating_add(elapsed_ns),
            committed_tokens: self.committed_tokens.saturating_add(tokens),
            ..self
        }
    }
}

impl LookupModeView {
    pub open spec fn fresh(cfg: PromptLookupConfig) -> LookupModeView {
        LookupModeView {
            cfg,
            defer_speculation_once: false,
            measured_cycle: None,
            window: WindowView::fresh(cfg.max_draft_tokens),
            stage: LookupStage::Idle,
        }
    }

    /// The batch has changed: nothing that was measured or learned holds, and the next window is
    /// ordinary.
    pub open spec fn batch_changed(self) -> LookupModeView {
        LookupModeView {
            defer_speculation_once: true,
            measured_cycle: None,
            window: self.window.forgetting(),
            ..self
        }
    }

    pub open spec fn go(self, stage: LookupStage, fx: Seq<ModeEffect>, action: ModeAction) -> (
        LookupModeView,
        ModeTurnView,
    ) {
        (LookupModeView { stage, ..self }, ModeTurnView { effects: fx, transition: None, action })
    }

    /// One decode step. A window that is being measured goes on.
    pub open spec fn step_begun(self, admission_pending: bool, f: WindowFactsView) -> (
        LookupModeView,
        ModeTurnView,
    ) {
        match self.measured_cycle {
            Some(cycle) => self.running(
                PromptLookupWindowDecision {
                    action: PromptLookupCostAction::Lookup,
                    regime: Some(cycle.regime),
                    proposal_elapsed_ns: 0,
                    stats_before: cycle.stats_before,
                    fallback_to_baseline: false,
                },
                Seq::empty(),
            ),
            None => (LookupModeView { defer_speculation_once: false, ..self }).selected(
                self.window.begun(
                    lookup_options(self.defer_speculation_once || admission_pending),
                    f,
                ),
            ),
        }
    }

    /// The choice of a window got this far.
    pub open spec fn selected(self, r: (WindowView, WindowTurnView)) -> (
        LookupModeView,
        ModeTurnView,
    ) {
        let s = LookupModeView { window: r.0, ..self };
        let fx = crate::mode_types::windowed(r.1.effects);
        match r.1.action {
            WindowAction::Decided(decision) => s.running(decision, fx),
            action => s.go(LookupStage::Selecting, fx, ModeAction::Window(action)),
        }
    }

    pub open spec fn running(self, decision: PromptLookupWindowDecision, fx: Seq<ModeEffect>) -> (
        LookupModeView,
        ModeTurnView,
    ) {
        self.go(
            LookupStage::Stepping { decision },
            fx,
            match decision.action {
                PromptLookupCostAction::Ordinary => ModeAction::StepLookupOrdinary,
                PromptLookupCostAction::Lookup => ModeAction::StepLookup,
            },
        )
    }

    /// The step is done. What it cost is reported at the end of its window.
    pub open spec fn stepped(
        self,
        events: usize,
        elapsed_ns: u64,
        at_boundary: bool,
        f: WindowFactsView,
    ) -> (LookupModeView, ModeTurnView) {
        match self.stage {
            LookupStage::Stepping { decision } => {
                let elapsed = crate::prompt_lookup::summed(
                    elapsed_ns,
                    decision.proposal_elapsed_ns,
                );
                match decision.regime {
                    None => self.go(
                        LookupStage::Idle,
                        seq![ModeEffect::PublishLookup],
                        ModeAction::Done,
                    ),
                    Some(regime) => match decision.action {
                        PromptLookupCostAction::Ordinary => self.go(
                            LookupStage::Idle,
                            seq![
                                ModeEffect::LookupSample(
                                    PromptLookupSample {
                                        regime,
                                        action: PromptLookupCostAction::Ordinary,
                                        elapsed_ns: elapsed,
                                        committed_tokens: events,
                                        delta: f.stats_now().since(decision.stats_before),
                                        adaptive: true,
                                    },
                                ),
                                ModeEffect::PublishLookup,
                            ],
                            ModeAction::Done,
                        ),
                        PromptLookupCostAction::Lookup => {
                            let begun = match self.measured_cycle {
                                Some(cycle) => cycle,
                                None => PromptLookupMeasuredCycle {
                                    regime,
                                    action: PromptLookupCostAction::Lookup,
                                    elapsed_ns: 0,
                                    committed_tokens: 0,
                                    stats_before: decision.stats_before,
                                },
                            };
                            let cycle = begun.with(elapsed, events);
                            if at_boundary {
                                (LookupModeView { measured_cycle: None, ..self }).go(
                                    LookupStage::Idle,
                                    seq![
                                        ModeEffect::LookupSample(
                                            PromptLookupSample {
                                                regime: cycle.regime,
                                                action: PromptLookupCostAction::Lookup,
                                                elapsed_ns: cycle.elapsed_ns,
                                                committed_tokens: cycle.committed_tokens,
                                                delta: f.stats_now().since(cycle.stats_before),
                                                adaptive: true,
                                            },
                                        ),
                                        ModeEffect::PublishLookup,
                                    ],
                                    ModeAction::Done,
                                )
                            } else {
                                (LookupModeView { measured_cycle: Some(cycle), ..self }).go(
                                    LookupStage::Idle,
                                    seq![ModeEffect::PublishLookup],
                                    ModeAction::Done,
                                )
                            }
                        },
                    },
                }
            },
            _ => self.go(LookupStage::Idle, Seq::empty(), ModeAction::Done),
        }
    }

    /// The batch was prefilled or has a new request in its index.
    pub open spec fn begun_anew(self) -> (LookupModeView, ModeTurnView) {
        self.batch_changed().go(
            LookupStage::Idle,
            seq![ModeEffect::PublishLookup],
            ModeAction::Done,
        )
    }

    /// What follows the outcome of an action.
    pub open spec fn after_event(self, event: ModeEvent, f: ModeFactsView) -> (
        LookupModeView,
        ModeTurnView,
    ) {
        match (self.stage, event) {
            (LookupStage::Selecting, ModeEvent::Window(event)) => self.selected(
                self.window.after_event(event, f.window),
            ),
            (LookupStage::Stepping { .. }, ModeEvent::Stepped { events, elapsed_ns }) => {
                self.stepped(events, elapsed_ns, f.lookup_boundary, f.window)
            },
            (LookupStage::Finalizing, ModeEvent::Finalized { ok: true }) => self.go(
                LookupStage::Registering,
                Seq::empty(),
                ModeAction::RegisterLookup,
            ),
            (LookupStage::Finalizing, _) => self.go(
                LookupStage::Idle,
                Seq::empty(),
                ModeAction::Done,
            ),
            _ => self.begun_anew(),
        }
    }

    /// Whether `event` is an outcome of what is being waited for.
    pub open spec fn awaits(self, event: ModeEvent) -> bool {
        match self.stage {
            LookupStage::Idle => false,
            LookupStage::Selecting => event matches ModeEvent::Window(event)
                && self.window.stage.awaits(event),
            LookupStage::Stepping { .. } => event is Stepped,
            LookupStage::Prefilling => event is Stepped,
            LookupStage::Finalizing => event is Finalized,
            LookupStage::Registering => event is Done,
        }
    }
}

impl SchedulerActorPromptLookup {
    pub fn new(cfg: PromptLookupConfig) -> (mode: Self)
        ensures
            mode@ == LookupModeView::fresh(cfg),
    {
        SchedulerActorPromptLookup {
            cfg,
            defer_speculation_once: false,
            measured_cycle: None,
            window: PromptLookupWindow::new(cfg.max_draft_tokens),
            stage: LookupStage::Idle,
        }
    }

    pub fn stage(&self) -> (stage: LookupStage)
        ensures
            stage == self@.stage,
    {
        self.stage
    }

    /// Begins to prefill a fresh batch.
    pub fn prefill_admitted(&mut self) -> (turn: ModeTurn)
        ensures
            final(self)@ == old(self)@.go(
                LookupStage::Prefilling,
                Seq::empty(),
                ModeAction::PrefillLookup,
            ).0,
            turn@ == old(self)@.go(
                LookupStage::Prefilling,
                Seq::empty(),
                ModeAction::PrefillLookup,
            ).1,
    {
        self.go(LookupStage::Prefilling, Vec::new(), ModeAction::PrefillLookup)
    }

    /// Lets a request into the running batch.
    pub fn begin_mid_admit(&mut self) -> (turn: ModeTurn)
        ensures
            final(self)@ == old(self)@.go(
                LookupStage::Idle,
                Seq::empty(),
                ModeAction::BeginMid { kind: MidAdmitKind::Generic },
            ).0,
            turn@ == old(self)@.go(
                LookupStage::Idle,
                Seq::empty(),
                ModeAction::BeginMid { kind: MidAdmitKind::Generic },
            ).1,
    {
        self.go(
            LookupStage::Idle,
            Vec::new(),
            ModeAction::BeginMid { kind: MidAdmitKind::Generic },
        )
    }

    /// Lets the request join the running rows once its prompt is prefilled.
    pub fn finalize_mid_admit(&mut self) -> (turn: ModeTurn)
        ensures
            final(self)@ == old(self)@.go(
                LookupStage::Finalizing,
                Seq::empty(),
                ModeAction::FinalizeMid { kind: MidAdmitKind::Generic },
            ).0,
            turn@ == old(self)@.go(
                LookupStage::Finalizing,
                Seq::empty(),
                ModeAction::FinalizeMid { kind: MidAdmitKind::Generic },
            ).1,
    {
        self.go(
            LookupStage::Finalizing,
            Vec::new(),
            ModeAction::FinalizeMid { kind: MidAdmitKind::Generic },
        )
    }

    fn begin_anew(&mut self) -> (turn: ModeTurn)
        ensures
            final(self)@ == old(self)@.begun_anew().0,
            turn@ == old(self)@.begun_anew().1,
    {
        self.defer_speculation_once = true;
        self.measured_cycle = None;
        self.window.forget();
        let mut fx: Vec<ModeEffect> = Vec::new();
        fx.push(ModeEffect::PublishLookup);
        self.go(LookupStage::Idle, fx, ModeAction::Done)
    }

    fn go(&mut self, stage: LookupStage, fx: Vec<ModeEffect>, action: ModeAction) -> (turn: ModeTurn)
        ensures
            final(self)@ == old(self)@.go(stage, fx@, action).0,
            turn@ == old(self)@.go(stage, fx@, action).1,
    {
        self.stage = stage;
        ModeTurn { effects: fx, transition: None, action }
    }

    fn run(&mut self, decision: PromptLookupWindowDecision, fx: Vec<ModeEffect>) -> (turn: ModeTurn)
        ensures
            final(self)@ == old(self)@.running(decision, fx@).0,
            turn@ == old(self)@.running(decision, fx@).1,
    {
        let action: ModeAction = match decision.action {
            PromptLookupCostAction::Ordinary => ModeAction::StepLookupOrdinary,
            PromptLookupCostAction::Lookup => ModeAction::StepLookup,
        };
        self.go(LookupStage::Stepping { decision }, fx, action)
    }

    fn select(&mut self, turn: WindowTurn) -> (r: ModeTurn)
        ensures
            final(self)@ == old(self)@.selected((old(self)@.window, turn@)).0,
            r@ == old(self)@.selected((old(self)@.window, turn@)).1,
    {
        let fx: Vec<ModeEffect> = crate::mode_types::as_mode_effects(&turn.effects);
        match turn.action {
            WindowAction::Decided(decision) => self.run(decision, fx),
            action => self.go(LookupStage::Selecting, fx, ModeAction::Window(action)),
        }
    }

    /// Begins a decode step.
    pub fn step(&mut self, admission_pending: bool, f: &WindowFacts) -> (turn: ModeTurn)
        ensures
            final(self)@ == old(self)@.step_begun(admission_pending, f@).0,
            turn@ == old(self)@.step_begun(admission_pending, f@).1,
    {
        match self.measured_cycle {
            Some(cycle) => {
                let decision: PromptLookupWindowDecision = PromptLookupWindowDecision {
                    action: PromptLookupCostAction::Lookup,
                    regime: Some(cycle.regime),
                    proposal_elapsed_ns: 0,
                    stats_before: cycle.stats_before,
                    fallback_to_baseline: false,
                };
                self.run(decision, Vec::new())
            },
            None => {
                let force_ordinary: bool = if self.defer_speculation_once {
                    self.defer_speculation_once = false;
                    true
                } else {
                    prompt_lookup_admission_forces_ordinary(false, admission_pending)
                };
                let options: WindowOptions = WindowOptions {
                    allow_cross_request: true,
                    capture_accepted_hidden: false,
                    match_mtp_verify_shape: false,
                    force_ordinary,
                };
                let turn: WindowTurn = self.window.select_prepared_window(options, f);
                self.select(turn)
            },
        }
    }

    /// Goes on after the outcome of the last action.
    pub fn resume(&mut self, event: ModeEvent, f: &ModeFacts) -> (turn: ModeTurn)
        requires
            old(self)@.awaits(event),
        ensures
            final(self)@ == old(self)@.after_event(event, f@).0,
            turn@ == old(self)@.after_event(event, f@).1,
    {
        match (self.stage, event) {
            (LookupStage::Selecting, ModeEvent::Window(event)) => {
                let turn: WindowTurn = self.window.resume(event, &f.window);
                self.select(turn)
            },
            (LookupStage::Stepping { .. }, ModeEvent::Stepped { events, elapsed_ns }) => {
                self.step_done(events, elapsed_ns, f.lookup_boundary, &f.window)
            },
            (LookupStage::Finalizing, ModeEvent::Finalized { ok: true }) => {
                self.go(LookupStage::Registering, Vec::new(), ModeAction::RegisterLookup)
            },
            (LookupStage::Finalizing, _) => {
                self.go(LookupStage::Idle, Vec::new(), ModeAction::Done)
            },
            _ => self.begin_anew(),
        }
    }

    fn step_done(&mut self, events: usize, elapsed_ns: u64, at_boundary: bool, f: &WindowFacts) -> (turn:
        ModeTurn)
        requires
            old(self)@.stage is Stepping,
        ensures
            final(self)@ == old(self)@.stepped(events, elapsed_ns, at_boundary, f@).0,
            turn@ == old(self)@.stepped(events, elapsed_ns, at_boundary, f@).1,
    {
        let mut fx: Vec<ModeEffect> = Vec::new();
        if let LookupStage::Stepping { decision } = self.stage {
            let elapsed: u64 = elapsed_ns.saturating_add(decision.proposal_elapsed_ns);
            if let Some(regime) = decision.regime {
                match decision.action {
                    PromptLookupCostAction::Ordinary => {
                        fx.push(
                            ModeEffect::LookupSample(
                                PromptLookupSample {
                                    regime,
                                    action: PromptLookupCostAction::Ordinary,
                                    elapsed_ns: elapsed,
                                    committed_tokens: events,
                                    delta: f.stats_or_zero().saturating_delta_since(
                                        decision.stats_before,
                                    ),
                                    adaptive: true,
                                },
                            ),
                        );
                    },
                    PromptLookupCostAction::Lookup => {
                        let begun: PromptLookupMeasuredCycle = match self.measured_cycle {
                            Some(cycle) => cycle,
                            None => PromptLookupMeasuredCycle {
                                regime,
                                action: PromptLookupCostAction::Lookup,
                                elapsed_ns: 0,
                                committed_tokens: 0,
                                stats_before: decision.stats_before,
                            },
                        };
                        let cycle: PromptLookupMeasuredCycle = begun.plus(elapsed, events);
                        if at_boundary {
                            self.measured_cycle = None;
                            fx.push(
                                ModeEffect::LookupSample(
                                    PromptLookupSample {
                                        regime: cycle.regime,
                                        action: PromptLookupCostAction::Lookup,
                                        elapsed_ns: cycle.elapsed_ns,
                                        committed_tokens: cycle.committed_tokens,
                                        delta: f.stats_or_zero().saturating_delta_since(
                                            cycle.stats_before,
                                        ),
                                        adaptive: true,
                                    },
                                ),
                            );
                        } else {
                            self.measured_cycle = Some(cycle);
                        }
                    },
                }
            }
            fx.push(ModeEffect::PublishLookup);
        }
        assert(fx@ =~= old(self)@.stepped(events, elapsed_ns, at_boundary, f@).1.effects);
        self.go(LookupStage::Idle, fx, ModeAction::Done)
    }
}

/// After the batch has changed, the next window is ordinary whatever the hints said before, and
/// the one after that is free again.
pub proof fn lemma_first_window_of_a_batch_is_ordinary(
    s: LookupModeView,
    admission_pending: bool,
    f: WindowFactsView,
)
    ensures
        s.batch_changed().step_begun(admission_pending, f).1.action
            == ModeAction::StepLookupOrdinary,
        !s.batch_changed().step_begun(admission_pending, f).0.defer_speculation_once,
{
}

/// Pending admission never begins a lookup window, and never cuts one short that is measured.
pub proof fn lemma_admission_only_blocks_new_windows(s: LookupModeView, f: WindowFactsView)
    ensures
        s.measured_cycle is None ==> s.step_begun(true, f).1.action
            == ModeAction::StepLookupOrdinary,
        s.measured_cycle is Some ==> s.step_begun(true, f).1.action == ModeAction::StepLookup,
{
}

} // verus!
