//! The vocabulary of the ways a batch is decoded: what a mode is told, what it asks for, and what
//! it reports.
use vstd::prelude::*;

use crate::lookup_window::{WindowAction, WindowEffect, WindowEvent, WindowFacts, WindowFactsView};
use crate::prompt_lookup::{
    PromptLookupCostAction, PromptLookupHybridStats, PromptLookupQualificationRegime,
    PromptLookupStats,
};
use crate::speculative::{
    MtpSpeculativeStats, NeuralExactAction, NeuralExactRegime, NeuralExactSampleCounters,
};

verus! {

/// The measured cost of a window, for the cost controller.
#[derive(Clone, Copy, Debug, PartialEq, Eq, Structural)]
pub struct PromptLookupSample {
    pub regime: PromptLookupQualificationRegime,
    pub action: PromptLookupCostAction,
    pub elapsed_ns: u64,
    pub committed_tokens: usize,
    pub delta: PromptLookupStats,
    /// Whether the draft width may be adapted to it.
    pub adaptive: bool,
}

/// The measured cost of a batch with neural drafts, for the cost controller.
#[derive(Clone, Copy, Debug, PartialEq, Eq, Structural)]
pub struct NeuralExactSample {
    pub regime: NeuralExactRegime,
    pub action: NeuralExactAction,
    pub elapsed_ns: u64,
    pub committed_tokens: usize,
    pub counters: NeuralExactSampleCounters,
}

/// How a mid-batch admission is prefilled.
#[derive(Clone, Copy, Debug, PartialEq, Eq, Structural)]
pub enum MidAdmitKind {
    Generic,
    /// With the draft model's own cache.
    Draft,
}

/// Work whose outcome is not waited for, in order.
#[derive(Clone, Copy, Debug, PartialEq, Eq, Structural)]
pub enum ModeEffect {
    Window(WindowEffect),
    LookupSample(PromptLookupSample),
    /// Hand the transition that the turn holds to the cost controller.
    RecordTransition,
    ExactSample(NeuralExactSample),
    /// Take a reading of the prompt lookup statistics.
    PublishLookup,
    PublishHybrid(PromptLookupHybridStats),
    /// Publish the figures of exact qualification.
    PublishExact,
    /// Take a reading of the neural draft statistics.
    StoreNeuralStats,
    CountPrefill,
    CountPrefillFallback,
    CountStep,
}

/// What is asked for next.
#[derive(Clone, Copy, Debug, PartialEq, Eq, Structural)]
pub enum ModeAction {
    /// The operation is complete.
    Done,
    /// The request cannot be served in this mode.
    Refuse,
    Window(WindowAction),
    /// Decode one step without drafts.
    StepPlain,
    /// The same, with the lookup index kept up to date.
    StepLookupOrdinary,
    /// Decode one step of a lookup window.
    StepLookup,
    /// Decode a whole lookup window.
    StepLookupWindow,
    /// Decode a lookup window that the draft head verifies.
    StepLookupWithVerify,
    /// Decode with neural drafts; `postfill` lets the next drafts be made ahead.
    StepDraft { postfill: bool },
    /// Decode with neural drafts while the prepared lookup window is only watched.
    StepDraftObserving,
    /// Bring the lookup index up to date with what was decoded.
    CommitLookup,
    AskExactAction { regime: NeuralExactRegime },
    /// Ask whether a fresh batch can be verified exactly.
    AskFreshVerify,
    /// Ask whether the next window can be verified exactly.
    AskNextWindowVerify,
    /// Ask whether the batch can be verified exactly with the request in it.
    AskRollingVerify,
    /// Go on without neural drafts.
    Retire,
    /// Rebuild the draft state from what was decoded.
    Rebase,
    Prefill,
    PrefillDraft,
    /// Prefill and index the prompts of the batch.
    PrefillLookup,
    /// Index the prompts of the batch.
    InitializeLookup,
    BeginMid { kind: MidAdmitKind },
    FinalizeMid { kind: MidAdmitKind },
    /// Index the prompt of the admitted request.
    RegisterLookup,
}

/// The outcome of an action.
#[derive(Clone, Copy, Debug, PartialEq, Eq, Structural)]
pub enum ModeEvent {
    Done,
    Window(WindowEvent),
    ExactAction(NeuralExactAction),
    Eligible { eligible: bool },
    /// Tokens came out, this long after the step began.
    Stepped { events: usize, elapsed_ns: u64 },
    /// The same for a lookup window; `canonical` if all of it was accepted on the canonical target.
    LookupStepped { events: usize, elapsed_ns: u64, canonical: bool },
    /// The lookup window could not be run.
    FallbackToNeural,
    /// The lookup index is up to date, this long after the step began.
    Committed { elapsed_ns: u64 },
    Rebased { nanos: u128 },
    /// The admitted request joined the running rows, or could not.
    Finalized { ok: bool },
}

/// What is known of the neural drafts when an event is handled.
#[derive(Clone, Copy, Debug, PartialEq, Eq, Structural)]
pub struct NeuralFacts {
    /// The regime of a fresh batch that qualification is measured in.
    pub exact_regime: Option<NeuralExactRegime>,
    /// Absent while the batch is decoded without neural drafts.
    pub stats: Option<MtpSpeculativeStats>,
    pub fresh_eligible: bool,
    pub at_boundary: bool,
    pub finished: bool,
}

impl NeuralFacts {
    pub open spec fn stats_now(self) -> MtpSpeculativeStats {
        match self.stats {
            Some(stats) => stats,
            None => MtpSpeculativeStats::zero(),
        }
    }
}

/// What is known of the batch when an event is handled.
#[derive(Debug)]
pub struct ModeFacts {
    pub window: WindowFacts,
    pub neural: NeuralFacts,
    /// Whether no lookup window is being decoded.
    pub lookup_boundary: bool,
}

#[verifier::ext_equal]
pub struct ModeFactsView {
    pub window: WindowFactsView,
    pub neural: NeuralFacts,
    pub lookup_boundary: bool,
}

impl View for ModeFacts {
    type V = ModeFactsView;

    open spec fn view(&self) -> ModeFactsView {
        ModeFactsView {
            window: self.window@,
            neural: self.neural,
            lookup_boundary: self.lookup_boundary,
        }
    }
}

/// The end of a row of lookup windows, for the cost controller.
#[derive(Debug)]
pub struct LookupTransition {
    pub regimes: Vec<PromptLookupQualificationRegime>,
    pub elapsed_ns: u64,
    pub committed_tokens: usize,
}

#[verifier::ext_equal]
pub struct TransitionView {
    pub regimes: Seq<PromptLookupQualificationRegime>,
    pub elapsed_ns: u64,
    pub committed_tokens: usize,
}

impl View for LookupTransition {
    type V = TransitionView;

    open spec fn view(&self) -> TransitionView {
        TransitionView {
            regimes: self.regimes@,
            elapsed_ns: self.elapsed_ns,
            committed_tokens: self.committed_tokens,
        }
    }
}

/// What to do: the effects in order, then the action. The transition is what `RecordTransition`
/// stands for among the effects.
#[derive(Debug)]
pub struct ModeTurn {
    pub effects: Vec<ModeEffect>,
    pub transition: Option<LookupTransition>,
    pub action: ModeAction,
}

#[verifier::ext_equal]
pub struct ModeTurnView {
    pub effects: Seq<ModeEffect>,
    pub transition: Option<TransitionView>,
    pub action: ModeAction,
}

impl View for ModeTurn {
    type V = ModeTurnView;

    open spec fn view(&self) -> ModeTurnView {
        ModeTurnView {
            effects: self.effects@,
            transition: crate::lookup_window::seen(self.transition),
            action: self.action,
        }
    }
}

/// The effects of a window choice, as effects of the mode that made it.
pub open spec fn windowed(effects: Seq<WindowEffect>) -> Seq<ModeEffect> {
    effects.map_values(|effect: WindowEffect| ModeEffect::Window(effect))
}

pub(crate) fn as_mode_effects(effects: &Vec<WindowEffect>) -> (r: Vec<ModeEffect>)
    ensures
        r@ == windowed(effects@),
{
    let mut r: Vec<ModeEffect> = Vec::new();
    let mut i: usize = 0;
    while i < effects.len()
        invariant
            i <= effects.len(),
            r@ == windowed(effects@.take(i as int)),
        decreases effects.len() - i,
    {
        r.push(ModeEffect::Window(effects[i]));
        i += 1;
        assert(r@ =~= windowed(effects@.take(i as int)));
    }
    assert(effects@.take(i as int) =~= effects@);
    r
}

} // verus!
