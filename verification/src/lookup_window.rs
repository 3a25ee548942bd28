//! Whether the next decode window runs on prompt lookup.
//!
//! A search for a draft costs time, so two hints spare searches that would not pay: one remembers
//! what the last search proposed, the other that it proposed nothing. The cost controller, the
//! index and the scheduler are asked through actions; what they answer comes back as events.
use vstd::prelude::*;

use crate::admission::RequestId;
use crate::prompt_lookup::{
    PromptLookupCostAction, PromptLookupDraftLimits, PromptLookupProposalSource,
    PromptLookupQualificationRegime, PromptLookupStats,
};

verus! {

/// Tokens that a request gains before a search that found nothing is tried again.
pub const PROMPT_LOOKUP_MISS_INITIAL_REPROBE_TOKENS: usize = 2;

/// The most tokens that such a search is put off for.
pub const PROMPT_LOOKUP_MISS_MAX_REPROBE_TOKENS: usize = 8;

/// What a proposal belongs to: the regime, the requests and the draft limits it was made for.
#[derive(Clone, Debug)]
pub struct PromptLookupQueryScope {
    pub base_regime: PromptLookupQualificationRegime,
    pub owners: Vec<RequestId>,
    pub draft_limits: PromptLookupDraftLimits,
}

#[verifier::ext_equal]
pub struct QueryScopeView {
    pub base_regime: PromptLookupQualificationRegime,
    pub owners: Seq<RequestId>,
    pub draft_limits: PromptLookupDraftLimits,
}

impl View for PromptLookupQueryScope {
    type V = QueryScopeView;

    open spec fn view(&self) -> QueryScopeView {
        QueryScopeView {
            base_regime: self.base_regime,
            owners: self.owners@,
            draft_limits: self.draft_limits,
        }
    }
}

fn same_requests(left: &Vec<RequestId>, right: &Vec<RequestId>) -> (r: bool)
    ensures
        r == (left@ == right@),
{
    if left.len() != right.len() {
        return false;
    }
    let mut i: usize = 0;
    while i < left.len()
        invariant
            i <= left.len(),
            left.len() == right.len(),
            forall|j: int| 0 <= j < i ==> left@[j] == right@[j],
        decreases left.len() - i,
    {
        if left[i].0 != right[i].0 {
            assert(left@[i as int] != right@[i as int]);
            return false;
        }
        i += 1;
    }
    assert(left@ =~= right@);
    true
}

/// What the last search proposed.
#[derive(Clone, Debug)]
pub struct PromptLookupQueryHint {
    pub scope: PromptLookupQueryScope,
    pub proposal_regime: PromptLookupQualificationRegime,
}

#[verifier::ext_equal]
pub struct QueryHintView {
    pub scope: QueryScopeView,
    pub proposal_regime: PromptLookupQualificationRegime,
}

impl View for PromptLookupQueryHint {
    type V = QueryHintView;

    open spec fn view(&self) -> QueryHintView {
        QueryHintView { scope: self.scope@, proposal_regime: self.proposal_regime }
    }
}

impl QueryHintView {
    /// The regime that a search in this scope can be expected to propose.
    pub open spec fn regime_for(self, scope: QueryScopeView) -> Option<
        PromptLookupQualificationRegime,
    > {
        if self.scope == scope {
            Some(self.proposal_regime)
        } else {
            None
        }
    }
}

impl PromptLookupQueryHint {
    /// The hint holds for exactly the scope it was made in.
    pub fn proposal_regime_for(&self, scope: &PromptLookupQueryScope) -> (regime: Option<
        PromptLookupQualificationRegime,
    >)
        ensures
            regime == self@.regime_for(scope@),
    {
        if self.scope.base_regime == scope.base_regime && self.scope.draft_limits
            == scope.draft_limits && same_requests(&self.scope.owners, &scope.owners) {
            assert(self.scope@ =~= scope@);
            Some(self.proposal_regime)
        } else {
            None
        }
    }
}

/// What a search without a result belongs to, with how far each request had come.
#[derive(Clone, Debug)]
pub struct PromptLookupMissQueryScope {
    pub base_regime: PromptLookupQualificationRegime,
    pub request_progress: Vec<(RequestId, usize)>,
    pub allow_cross_request: bool,
    pub shared_availability_epoch: Option<u64>,
}

#[verifier::ext_equal]
pub struct MissScopeView {
    pub base_regime: PromptLookupQualificationRegime,
    pub request_progress: Seq<(RequestId, usize)>,
    pub allow_cross_request: bool,
    pub shared_availability_epoch: Option<u64>,
}

impl View for PromptLookupMissQueryScope {
    type V = MissScopeView;

    open spec fn view(&self) -> MissScopeView {
        MissScopeView {
            base_regime: self.base_regime,
            request_progress: self.request_progress@,
            allow_cross_request: self.allow_cross_request,
            shared_availability_epoch: self.shared_availability_epoch,
        }
    }
}

/// The last search found nothing, and when the next one is worth it.
#[derive(Clone, Debug)]
pub struct PromptLookupMissQueryHint {
    pub scope: PromptLookupMissQueryScope,
    pub reprobe_after_tokens: usize,
}

#[verifier::ext_equal]
pub struct MissHintView {
    pub scope: MissScopeView,
    pub reprobe_after_tokens: usize,
}

impl View for PromptLookupMissQueryHint {
    type V = MissHintView;

    open spec fn view(&self) -> MissHintView {
        MissHintView { scope: self.scope@, reprobe_after_tokens: self.reprobe_after_tokens }
    }
}

impl MissHintView {
    /// Whether `scope` is the one that the hint is about, at the same point or later.
    pub open spec fn continues(self, scope: MissScopeView) -> bool {
        &&& self.scope.base_regime == scope.base_regime
        &&& self.scope.allow_cross_request == scope.allow_cross_request
        &&& self.scope.shared_availability_epoch == scope.shared_availability_epoch
        &&& self.scope.request_progress.len() == scope.request_progress.len()
        &&& forall|i: int|
            #![trigger scope.request_progress[i]]
            0 <= i < scope.request_progress.len() ==> self.scope.request_progress[i].0
                == scope.request_progress[i].0 && self.scope.request_progress[i].1
                <= scope.request_progress[i].1
    }

    /// Whether no request has come far enough since for another search.
    pub open spec fn skips(self, scope: MissScopeView) -> bool {
        &&& self.continues(scope)
        &&& forall|i: int|
            #![trigger scope.request_progress[i]]
            0 <= i < scope.request_progress.len() ==> scope.request_progress[i].1
                - self.scope.request_progress[i].1 < self.reprobe_after_tokens
    }

    /// The hint after another search in `scope` found nothing. Each one in a row puts the next off
    /// for twice as long.
    pub open spec fn after(scope: MissScopeView, previous: Option<MissHintView>) -> MissHintView {
        MissHintView {
            scope,
            reprobe_after_tokens: match previous {
                Some(hint) if hint.continues(scope) => if hint.reprobe_after_tokens * 2
                    < PROMPT_LOOKUP_MISS_MAX_REPROBE_TOKENS {
                    (hint.reprobe_after_tokens * 2) as usize
                } else {
                    PROMPT_LOOKUP_MISS_MAX_REPROBE_TOKENS
                },
                _ => PROMPT_LOOKUP_MISS_INITIAL_REPROBE_TOKENS,
            },
        }
    }
}

impl PromptLookupMissQueryHint {
    pub fn identity_matches(&self, scope: &PromptLookupMissQueryScope) -> (r: bool)
        ensures
            r == self@.continues(scope@),
    {
        if !(self.scope.base_regime == scope.base_regime && self.scope.allow_cross_request
            == scope.allow_cross_request && self.scope.shared_availability_epoch
            == scope.shared_availability_epoch && self.scope.request_progress.len()
            == scope.request_progress.len()) {
            return false;
        }
        let mut i: usize = 0;
        while i < scope.request_progress.len()
            invariant
                i <= scope.request_progress.len(),
                self.scope.request_progress.len() == scope.request_progress.len(),
                forall|j: int|
                    #![trigger scope.request_progress@[j]]
                    0 <= j < i ==> self.scope.request_progress@[j].0
                        == scope.request_progress@[j].0 && self.scope.request_progress@[j].1
                        <= scope.request_progress@[j].1,
            decreases scope.request_progress.len() - i,
        {
            let before: (RequestId, usize) = self.scope.request_progress[i];
            let now: (RequestId, usize) = scope.request_progress[i];
            if before.0.0 != now.0.0 || now.1 < before.1 {
                assert(scope@.request_progress[i as int] == now);
                return false;
            }
            i += 1;
        }
        true
    }

    pub fn should_skip(&self, scope: &PromptLookupMissQueryScope) -> (r: bool)
        ensures
            r == self@.skips(scope@),
    {
        if !self.identity_matches(scope) {
            return false;
        }
        let mut i: usize = 0;
        while i < scope.request_progress.len()
            invariant
                i <= scope.request_progress.len(),
                self@.continues(scope@),
                forall|j: int|
                    #![trigger scope.request_progress@[j]]
                    0 <= j < i ==> scope.request_progress@[j].1 - self.scope.request_progress@[j].1
                        < self.reprobe_after_tokens,
            decreases scope.request_progress.len() - i,
        {
            let before: (RequestId, usize) = self.scope.request_progress[i];
            let now: (RequestId, usize) = scope.request_progress[i];
            assert(scope@.request_progress[i as int] == now);
            if now.1 - before.1 >= self.reprobe_after_tokens {
                return false;
            }
            i += 1;
        }
        true
    }

    pub fn after_miss(
        scope: PromptLookupMissQueryScope,
        previous: Option<&PromptLookupMissQueryHint>,
    ) -> (hint: Self)
        ensures
            hint@ == MissHintView::after(
                scope@,
                match previous {
                    Some(hint) => Some(hint@),
                    None => None,
                },
            ),
    {
        let reprobe_after_tokens: usize = match previous {
            Some(hint) => if hint.identity_matches(&scope) {
                match hint.reprobe_after_tokens.checked_mul(2) {
                    Some(doubled) => if doubled < PROMPT_LOOKUP_MISS_MAX_REPROBE_TOKENS {
                        doubled
                    } else {
                        PROMPT_LOOKUP_MISS_MAX_REPROBE_TOKENS
                    },
                    None => PROMPT_LOOKUP_MISS_MAX_REPROBE_TOKENS,
                }
            } else {
                PROMPT_LOOKUP_MISS_INITIAL_REPROBE_TOKENS
            },
            None => PROMPT_LOOKUP_MISS_INITIAL_REPROBE_TOKENS,
        };
        PromptLookupMissQueryHint { scope, reprobe_after_tokens }
    }
}

/// However many searches in a row found nothing, the next is put off for at least the initial and
/// at most the largest number of tokens.
pub proof fn lemma_search_is_put_off_within_bounds(
    scope: MissScopeView,
    previous: Option<MissHintView>,
)
    requires
        previous matches Some(hint) ==> hint.reprobe_after_tokens
            >= PROMPT_LOOKUP_MISS_INITIAL_REPROBE_TOKENS,
    ensures
        PROMPT_LOOKUP_MISS_INITIAL_REPROBE_TOKENS <= MissHintView::after(
            scope,
            previous,
        ).reprobe_after_tokens <= PROMPT_LOOKUP_MISS_MAX_REPROBE_TOKENS,
{
}

/// Once some request has gained the largest number of tokens, a search is never put off, nor when
/// the scope has changed.
pub proof fn lemma_progress_brings_the_search_back(
    scope: MissScopeView,
    previous: Option<MissHintView>,
    later: MissScopeView,
    i: int,
)
    requires
        0 <= i < later.request_progress.len(),
        later.request_progress.len() == scope.request_progress.len(),
        later.request_progress[i].1 - scope.request_progress[i].1
            >= PROMPT_LOOKUP_MISS_MAX_REPROBE_TOKENS,
    ensures
        !MissHintView::after(scope, previous).skips(later),
{
    let hint = MissHintView::after(scope, previous);
    if hint.skips(later) {
        assert(later.request_progress[i].1 - hint.scope.request_progress[i].1
            < hint.reprobe_after_tokens);
    }
}

/// Pending admission keeps a new window ordinary; one that is being measured runs to its end.
pub fn prompt_lookup_admission_forces_ordinary(
    measured_cycle_active: bool,
    admission_pending: bool,
) -> (r: bool)
    ensures
        r == (admission_pending && !measured_cycle_active),
{
    admission_pending && !measured_cycle_active
}

/// What drafts the tokens of a window.
#[derive(Clone, Copy, Debug, PartialEq, Eq, Structural)]
pub enum HybridDraftSource {
    Neural,
    PromptLookup,
}

/// Whether a lookup window with this proposal is verified on the canonical target.
pub open spec fn on_canonical_target(
    source: HybridDraftSource,
    regime: Option<PromptLookupQualificationRegime>,
) -> bool {
    &&& source == HybridDraftSource::PromptLookup
    &&& regime matches Some(regime) && (regime.proposal_source == Some(
        PromptLookupProposalSource::Local,
    ) || regime.proposal_source == Some(PromptLookupProposalSource::Shared))
}

pub fn qwen_hybrid_uses_canonical_target(
    source: HybridDraftSource,
    regime: Option<PromptLookupQualificationRegime>,
) -> (r: bool)
    ensures
        r == on_canonical_target(source, regime),
{
    match (source, regime) {
        (HybridDraftSource::PromptLookup, Some(regime)) => match regime.proposal_source {
            Some(PromptLookupProposalSource::Local) => true,
            Some(PromptLookupProposalSource::Shared) => true,
            _ => false,
        },
        _ => false,
    }
}

/// A window whose cost is being measured.
#[derive(Clone, Copy, Debug, PartialEq, Eq, Structural)]
pub struct PromptLookupMeasuredCycle {
    pub regime: PromptLookupQualificationRegime,
    pub action: PromptLookupCostAction,
    pub elapsed_ns: u64,
    pub committed_tokens: usize,
    pub stats_before: PromptLookupStats,
}

/// What the next window runs on.
#[derive(Clone, Copy, Debug, PartialEq, Eq, Structural)]
pub struct PromptLookupWindowDecision {
    pub action: PromptLookupCostAction,
    pub regime: Option<PromptLookupQualificationRegime>,
    pub proposal_elapsed_ns: u64,
    pub stats_before: PromptLookupStats,
    pub fallback_to_baseline: bool,
}

impl PromptLookupWindowDecision {
    /// A lookup window has a regime and is no fallback; an ordinary one took no time to propose.
    pub open spec fn consistent(self) -> bool {
        match self.action {
            PromptLookupCostAction::Lookup => self.regime is Some && !self.fallback_to_baseline,
            PromptLookupCostAction::Ordinary => self.proposal_elapsed_ns == 0,
        }
    }
}

/// Lookup windows in a row: the regimes they ran in and the tokens they committed.
#[derive(Clone, Debug)]
pub struct PromptLookupEpisode {
    pub regimes: Vec<PromptLookupQualificationRegime>,
    pub committed_tokens: usize,
}

#[verifier::ext_equal]
pub struct EpisodeView {
    pub regimes: Seq<PromptLookupQualificationRegime>,
    pub committed_tokens: usize,
}

impl View for PromptLookupEpisode {
    type V = EpisodeView;

    open spec fn view(&self) -> EpisodeView {
        EpisodeView { regimes: self.regimes@, committed_tokens: self.committed_tokens }
    }
}

/// A sum that is held at the largest count.
pub open spec fn capped_sum(left: usize, right: usize) -> usize {
    if left + right <= usize::MAX {
        (left + right) as usize
    } else {
        usize::MAX
    }
}

impl EpisodeView {
    pub open spec fn fresh() -> EpisodeView {
        EpisodeView { regimes: Seq::empty(), committed_tokens: 0 }
    }

    /// The episode with one more window. A regime is listed once, where it first came up.
    pub open spec fn with(self, regime: PromptLookupQualificationRegime, tokens: usize) -> EpisodeView {
        EpisodeView {
            regimes: if self.regimes.contains(regime) {
                self.regimes
            } else {
                self.regimes.push(regime)
            },
            committed_tokens: capped_sum(self.committed_tokens, tokens),
        }
    }
}

impl PromptLookupEpisode {
    pub fn new() -> (episode: Self)
        ensures
            episode@ == EpisodeView::fresh(),
    {
        PromptLookupEpisode { regimes: Vec::new(), committed_tokens: 0 }
    }

    pub fn record(&mut self, regime: PromptLookupQualificationRegime, committed_tokens: usize)
        ensures
            final(self)@ == old(self)@.with(regime, committed_tokens),
    {
        let mut i: usize = 0;
        let mut known: bool = false;
        while i < self.regimes.len()
            invariant
                i <= self.regimes.len(),
                *self == *old(self),
                known == exists|j: int| 0 <= j < i && #[trigger] self.regimes@[j] == regime,
            decreases self.regimes.len() - i,
        {
            if self.regimes[i] == regime {
                known = true;
            }
            i += 1;
        }
        assert(known == self.regimes@.contains(regime));
        if !known {
            self.regimes.push(regime);
        }
        self.committed_tokens = self.committed_tokens.saturating_add(committed_tokens);
    }
}

/// An episode never lists a regime twice.
pub proof fn lemma_episode_lists_a_regime_once(
    episode: EpisodeView,
    regime: PromptLookupQualificationRegime,
    tokens: usize,
)
    requires
        episode.regimes.no_duplicates(),
    ensures
        episode.with(regime, tokens).regimes.no_duplicates(),
        episode.with(regime, tokens).regimes.contains(regime),
{
    let after = episode.with(regime, tokens).regimes;
    if !episode.regimes.contains(regime) {
        assert(after[episode.regimes.len() as int] == regime);
    }
}

/// What kind of window is asked for.
#[derive(Clone, Copy, Debug, PartialEq, Eq, Structural)]
pub struct WindowOptions {
    /// Whether drafts may come from other requests' text.
    pub allow_cross_request: bool,
    /// Whether the hidden states of accepted tokens are kept.
    pub capture_accepted_hidden: bool,
    /// Whether drafts have to fit the shape that a draft head is verified in.
    pub match_mtp_verify_shape: bool,
    /// Whether lookup is out of the question.
    pub force_ordinary: bool,
}

/// What is known of the batch when a window is chosen.
#[derive(Clone, Debug)]
pub struct WindowFacts {
    pub stats: Option<PromptLookupStats>,
    pub base_regime: Option<PromptLookupQualificationRegime>,
    /// The cost controller's draft limits for the base regime.
    pub adaptive_limits: PromptLookupDraftLimits,
    /// The most draft tokens that the model takes.
    pub model_cap: usize,
    pub request_progress: Vec<(RequestId, usize)>,
    pub active_requests: Vec<RequestId>,
    /// Changes whenever other requests' text is added or removed.
    pub shared_availability_epoch: Option<u64>,
}

#[verifier::ext_equal]
pub struct WindowFactsView {
    pub stats: Option<PromptLookupStats>,
    pub base_regime: Option<PromptLookupQualificationRegime>,
    pub adaptive_limits: PromptLookupDraftLimits,
    pub model_cap: usize,
    pub request_progress: Seq<(RequestId, usize)>,
    pub active_requests: Seq<RequestId>,
    pub shared_availability_epoch: Option<u64>,
}

impl View for WindowFacts {
    type V = WindowFactsView;

    open spec fn view(&self) -> WindowFactsView {
        WindowFactsView {
            stats: self.stats,
            base_regime: self.base_regime,
            adaptive_limits: self.adaptive_limits,
            model_cap: self.model_cap,
            request_progress: self.request_progress@,
            active_requests: self.active_requests@,
            shared_availability_epoch: self.shared_availability_epoch,
        }
    }
}

impl WindowFactsView {
    /// The statistics, or none yet.
    pub open spec fn stats_now(self) -> PromptLookupStats {
        match self.stats {
            Some(stats) => stats,
            None => PromptLookupStats::zero(),
        }
    }

    /// The draft limits of the window: the controller's where it may adapt them, and never more
    /// than the model takes.
    pub open spec fn limits(self, max_draft_tokens: usize, match_mtp_verify_shape: bool) -> PromptLookupDraftLimits {
        (if match_mtp_verify_shape || self.base_regime is None {
            PromptLookupDraftLimits { local: max_draft_tokens, shared: max_draft_tokens }
        } else {
            self.adaptive_limits
        }).at_most(self.model_cap)
    }

    pub open spec fn miss_scope(self, allow_cross_request: bool) -> Option<MissScopeView> {
        match self.base_regime {
            Some(base_regime) if self.request_progress.len() > 0 => Some(
                MissScopeView {
                    base_regime,
                    request_progress: self.request_progress,
                    allow_cross_request,
                    shared_availability_epoch: if allow_cross_request {
                        self.shared_availability_epoch
                    } else {
                        None
                    },
                },
            ),
            _ => None,
        }
    }

    pub open spec fn query_scope(self, draft_limits: PromptLookupDraftLimits) -> Option<
        QueryScopeView,
    > {
        match self.base_regime {
            Some(base_regime) => Some(
                QueryScopeView {
                    base_regime,
                    owners: if self.request_progress.len() > 0 {
                        self.request_progress.map_values(|p: (RequestId, usize)| p.0)
                    } else {
                        self.active_requests
                    },
                    draft_limits,
                },
            ),
            None => None,
        }
    }
}

impl WindowFacts {
    pub fn stats_or_zero(&self) -> (stats: PromptLookupStats)
        ensures
            stats == self@.stats_now(),
    {
        match self.stats {
            Some(stats) => stats,
            None => PromptLookupStats::default(),
        }
    }

    fn draft_limits(&self, max_draft_tokens: usize, match_mtp_verify_shape: bool) -> (limits:
        PromptLookupDraftLimits)
        ensures
            limits == self@.limits(max_draft_tokens, match_mtp_verify_shape),
    {
        let limits: PromptLookupDraftLimits = if match_mtp_verify_shape || self.base_regime.is_none() {
            PromptLookupDraftLimits::uniform(max_draft_tokens)
        } else {
            self.adaptive_limits
        };
        limits.capped(self.model_cap)
    }

    fn miss_query_scope(&self, allow_cross_request: bool) -> (scope: Option<
        PromptLookupMissQueryScope,
    >)
        ensures
            scope is Some == self@.miss_scope(allow_cross_request) is Some,
            scope matches Some(scope) ==> self@.miss_scope(allow_cross_request) == Some(scope@),
    {
        match self.base_regime {
            None => None,
            Some(base_regime) => {
                if self.request_progress.len() == 0 {
                    return None;
                }
                let shared_availability_epoch: Option<u64> = if allow_cross_request {
                    self.shared_availability_epoch
                } else {
                    None
                };
                let mut request_progress: Vec<(RequestId, usize)> = Vec::new();
                let mut i: usize = 0;
                while i < self.request_progress.len()
                    invariant
                        i <= self.request_progress.len(),
                        request_progress@ == self.request_progress@.take(i as int),
                    decreases self.request_progress.len() - i,
                {
                    request_progress.push(self.request_progress[i]);
                    i += 1;
                    assert(request_progress@ =~= self.request_progress@.take(i as int));
                }
                assert(request_progress@ =~= self.request_progress@);
                let scope: PromptLookupMissQueryScope = PromptLookupMissQueryScope {
                    base_regime,
                    request_progress,
                    allow_cross_request,
                    shared_availability_epoch,
                };
                Some(scope)
            },
        }
    }

    fn query_scope(&self, draft_limits: PromptLookupDraftLimits) -> (scope: Option<
        PromptLookupQueryScope,
    >)
        ensures
            scope is Some == self@.query_scope(draft_limits) is Some,
            scope matches Some(scope) ==> self@.query_scope(draft_limits) == Some(scope@),
    {
        match self.base_regime {
            None => None,
            Some(base_regime) => {
                let mut owners: Vec<RequestId> = Vec::new();
                let mut i: usize = 0;
                if self.request_progress.len() > 0 {
                    while i < self.request_progress.len()
                        invariant
                            i <= self.request_progress.len(),
                            owners@ == self.request_progress@.take(i as int).map_values(
                                |p: (RequestId, usize)| p.0,
                            ),
                        decreases self.request_progress.len() - i,
                    {
                        owners.push(self.request_progress[i].0);
                        i += 1;
                        assert(owners@ =~= self.request_progress@.take(i as int).map_values(
                            |p: (RequestId, usize)| p.0,
                        ));
                    }
                    assert(self.request_progress@.take(i as int) =~= self.request_progress@);
                } else {
                    while i < self.active_requests.len()
                        invariant
                            i <= self.active_requests.len(),
                            owners@ == self.active_requests@.take(i as int),
                        decreases self.active_requests.len() - i,
                    {
                        owners.push(self.active_requests[i]);
                        i += 1;
                        assert(owners@ =~= self.active_requests@.take(i as int));
                    }
                    assert(owners@ =~= self.active_requests@);
                }
                Some(PromptLookupQueryScope { base_regime, owners, draft_limits })
            },
        }
    }
}

/// Work for the cost controller and the scheduler whose outcome is not waited for.
#[derive(Clone, Copy, Debug, PartialEq, Eq, Structural)]
pub enum WindowEffect {
    /// Drop what was prepared for a lookup window.
    Discard,
    /// A search was spared because its proposal would not be used.
    QueryGateSkip,
    /// A search was spared because it would find nothing.
    MissQueryGateSkip,
    /// A search that found nothing is tried again.
    MissQueryReprobe,
    /// A proposal could not be verified; `adaptive` if its width may be adapted.
    LookupIneligible { regime: PromptLookupQualificationRegime, adaptive: bool },
}

/// What is asked for next.
#[derive(Clone, Copy, Debug, PartialEq, Eq, Structural)]
pub enum WindowAction {
    /// The choice is made.
    Decided(PromptLookupWindowDecision),
    /// Ask the cost controller what pays in this regime.
    AskCostAction { regime: PromptLookupQualificationRegime },
    /// Search for drafts.
    Prepare { allow_cross_request: bool, draft_limits: PromptLookupDraftLimits },
    /// Cut the drafts to the shape that a draft head is verified in.
    Align,
    /// Tell what was proposed and how long that took.
    ReadProposal,
    /// Ask the scheduler whether the drafts can be verified.
    AskVerify { capture_accepted_hidden: bool },
}

/// The outcome of an action.
#[derive(Clone, Copy, Debug, PartialEq, Eq, Structural)]
pub enum WindowEvent {
    CostAction(PromptLookupCostAction),
    Drafts { found: bool },
    Proposal { regime: Option<PromptLookupQualificationRegime>, elapsed_ns: u64 },
    Verify { eligible: bool },
}

/// What the choice is waiting for.
#[derive(Clone, Copy, Debug, PartialEq, Eq, Structural)]
#[allow(inconsistent_fields)]
pub enum WindowStage {
    Idle,
    Hinted { regime: PromptLookupQualificationRegime },
    Preparing,
    Aligning,
    Proposing { found: bool },
    Verifying { regime: PromptLookupQualificationRegime, elapsed_ns: u64 },
    Judging { regime: PromptLookupQualificationRegime, elapsed_ns: u64 },
}

impl WindowStage {
    /// Whether `event` is an outcome of what is being waited for.
    pub open spec fn awaits(self, event: WindowEvent) -> bool {
        match self {
            WindowStage::Idle => false,
            WindowStage::Hinted { .. } => event is CostAction,
            WindowStage::Preparing => event is Drafts,
            WindowStage::Aligning => event is Drafts,
            WindowStage::Proposing { .. } => event is Proposal,
            WindowStage::Verifying { .. } => event is Verify,
            WindowStage::Judging { .. } => event is CostAction,
        }
    }
}

#[derive(Debug)]
pub struct WindowTurn {
    pub effects: Vec<WindowEffect>,
    pub action: WindowAction,
}

#[verifier::ext_equal]
pub struct WindowTurnView {
    pub effects: Seq<WindowEffect>,
    pub action: WindowAction,
}

impl View for WindowTurn {
    type V = WindowTurnView;

    open spec fn view(&self) -> WindowTurnView {
        WindowTurnView { effects: self.effects@, action: self.action }
    }
}

/// The choice of windows, with the hints it keeps from one to the next.
#[derive(Debug)]
pub struct PromptLookupWindow {
    max_draft_tokens: usize,
    query_hint: Option<PromptLookupQueryHint>,
    miss_query_hint: Option<PromptLookupMissQueryHint>,
    options: WindowOptions,
    stats_before: PromptLookupStats,
    base_regime: Option<PromptLookupQualificationRegime>,
    draft_limits: PromptLookupDraftLimits,
    query_scope: Option<PromptLookupQueryScope>,
    miss_scope: Option<PromptLookupMissQueryScope>,
    stage: WindowStage,
}

#[verifier::ext_equal]
pub struct WindowView {
    pub max_draft_tokens: usize,
    pub query_hint: Option<QueryHintView>,
    pub miss_query_hint: Option<MissHintView>,
    pub options: WindowOptions,
    pub stats_before: PromptLookupStats,
    pub base_regime: Option<PromptLookupQualificationRegime>,
    pub draft_limits: PromptLookupDraftLimits,
    pub query_scope: Option<QueryScopeView>,
    pub miss_scope: Option<MissScopeView>,
    pub stage: WindowStage,
}

/// The model of a value that may be absent.
pub open spec fn seen<T: View>(value: Option<T>) -> Option<T::V> {
    match value {
        Some(value) => Some(value@),
        None => None,
    }
}

impl View for PromptLookupWindow {
    type V = WindowView;

    closed spec fn view(&self) -> WindowView {
        WindowView {
            max_draft_tokens: self.max_draft_tokens,
            query_hint: seen(self.query_hint),
            miss_query_hint: seen(self.miss_query_hint),
            options: self.options,
            stats_before: self.stats_before,
            base_regime: self.base_regime,
            draft_limits: self.draft_limits,
            query_scope: seen(self.query_scope),
            miss_scope: seen(self.miss_scope),
            stage: self.stage,
        }
    }
}

impl WindowView {
    /// Before the first choice.
    pub open spec fn fresh(max_draft_tokens: usize) -> WindowView {
        WindowView {
            max_draft_tokens,
            query_hint: None,
            miss_query_hint: None,
            options: WindowOptions {
                allow_cross_request: false,
                capture_accepted_hidden: false,
                match_mtp_verify_shape: false,
                force_ordinary: false,
            },
            stats_before: PromptLookupStats::zero(),
            base_regime: None,
            draft_limits: PromptLookupDraftLimits { local: 0, shared: 0 },
            query_scope: None,
            miss_scope: None,
            stage: WindowStage::Idle,
        }
    }

    /// A search that found nothing puts the next off for some tokens, but not for ever.
    pub open spec fn patient(self) -> bool {
        self.miss_query_hint matches Some(hint) ==> PROMPT_LOOKUP_MISS_INITIAL_REPROBE_TOKENS
            <= hint.reprobe_after_tokens <= PROMPT_LOOKUP_MISS_MAX_REPROBE_TOKENS
    }

    /// The batch has changed: what was learned of it no longer holds.
    pub open spec fn forgetting(self) -> WindowView {
        WindowView { query_hint: None, miss_query_hint: None, ..self }
    }

    pub open spec fn go(self, stage: WindowStage, fx: Seq<WindowEffect>, action: WindowAction) -> (
        WindowView,
        WindowTurnView,
    ) {
        (WindowView { stage, ..self }, WindowTurnView { effects: fx, action })
    }

    /// The window runs without lookup.
    pub open spec fn ordinary(
        self,
        fx: Seq<WindowEffect>,
        regime: Option<PromptLookupQualificationRegime>,
        fallback_to_baseline: bool,
    ) -> (WindowView, WindowTurnView) {
        self.go(
            WindowStage::Idle,
            fx.push(WindowEffect::Discard),
            WindowAction::Decided(
                PromptLookupWindowDecision {
                    action: PromptLookupCostAction::Ordinary,
                    regime,
                    proposal_elapsed_ns: 0,
                    stats_before: self.stats_before,
                    fallback_to_baseline,
                },
            ),
        )
    }

    /// The regime that a search can be expected to propose.
    pub open spec fn hinted(self, scope: Option<QueryScopeView>) -> Option<
        PromptLookupQualificationRegime,
    > {
        match (self.query_hint, scope) {
            (Some(hint), Some(scope)) => hint.regime_for(scope),
            _ => None,
        }
    }

    /// A window is to be chosen.
    pub open spec fn begun(self, options: WindowOptions, f: WindowFactsView) -> (
        WindowView,
        WindowTurnView,
    ) {
        let draft_limits = f.limits(self.max_draft_tokens, options.match_mtp_verify_shape);
        let query_scope = f.query_scope(draft_limits);
        let hinted = self.hinted(query_scope);
        let s = WindowView {
            query_hint: if hinted is Some { self.query_hint } else { None },
            options,
            stats_before: f.stats_now(),
            base_regime: f.base_regime,
            draft_limits,
            query_scope,
            miss_scope: f.miss_scope(options.allow_cross_request),
            ..self
        };
        if options.force_ordinary {
            s.ordinary(Seq::empty(), f.base_regime, false)
        } else {
            match hinted {
                Some(regime) => s.go(
                    WindowStage::Hinted { regime },
                    Seq::empty(),
                    WindowAction::AskCostAction { regime },
                ),
                None => s.searching(),
            }
        }
    }

    /// A search is made unless it would find nothing again.
    pub open spec fn searching(self) -> (WindowView, WindowTurnView) {
        let prepare = WindowAction::Prepare {
            allow_cross_request: self.options.allow_cross_request,
            draft_limits: self.draft_limits,
        };
        match (self.miss_query_hint, self.miss_scope) {
            (Some(hint), Some(scope)) => if hint.skips(scope) {
                self.ordinary(seq![WindowEffect::MissQueryGateSkip], self.base_regime, true)
            } else if hint.continues(scope) {
                self.go(WindowStage::Preparing, seq![WindowEffect::MissQueryReprobe], prepare)
            } else {
                (WindowView { miss_query_hint: None, ..self }).go(
                    WindowStage::Preparing,
                    Seq::empty(),
                    prepare,
                )
            },
            _ => (WindowView { miss_query_hint: None, ..self }).go(
                WindowStage::Preparing,
                Seq::empty(),
                prepare,
            ),
        }
    }

    /// The search proposed something, or it did not.
    pub open spec fn proposed(
        self,
        regime: Option<PromptLookupQualificationRegime>,
        elapsed_ns: u64,
        f: WindowFactsView,
    ) -> (WindowView, WindowTurnView) {
        match regime {
            None => {
                let now = WindowFactsView { base_regime: self.base_regime, ..f };
                (WindowView {
                    query_hint: None,
                    miss_query_hint: match now.miss_scope(self.options.allow_cross_request) {
                        Some(scope) => Some(MissHintView::after(scope, self.miss_query_hint)),
                        None => None,
                    },
                    ..self
                }).ordinary(Seq::empty(), self.base_regime, true)
            },
            Some(regime) => (WindowView {
                miss_query_hint: None,
                query_hint: match self.query_scope {
                    Some(scope) => Some(QueryHintView { scope, proposal_regime: regime }),
                    None => None,
                },
                query_scope: None,
                ..self
            }).go(
                WindowStage::Verifying { regime, elapsed_ns },
                Seq::empty(),
                WindowAction::AskVerify {
                    capture_accepted_hidden: self.options.capture_accepted_hidden,
                },
            ),
        }
    }

    /// What follows the outcome of an action.
    pub open spec fn after_event(self, event: WindowEvent, f: WindowFactsView) -> (
        WindowView,
        WindowTurnView,
    ) {
        match (self.stage, event) {
            (
                WindowStage::Hinted { regime },
                WindowEvent::CostAction(PromptLookupCostAction::Ordinary),
            ) => self.ordinary(seq![WindowEffect::QueryGateSkip], Some(regime), false),
            (
                WindowStage::Hinted { .. },
                WindowEvent::CostAction(PromptLookupCostAction::Lookup),
            ) => self.searching(),
            (WindowStage::Preparing, WindowEvent::Drafts { found }) => if found
                && self.options.match_mtp_verify_shape {
                self.go(WindowStage::Aligning, Seq::empty(), WindowAction::Align)
            } else {
                self.go(
                    WindowStage::Proposing { found },
                    Seq::empty(),
                    WindowAction::ReadProposal,
                )
            },
            (WindowStage::Aligning, WindowEvent::Drafts { found }) => self.go(
                WindowStage::Proposing { found },
                Seq::empty(),
                WindowAction::ReadProposal,
            ),
            (WindowStage::Proposing { found }, WindowEvent::Proposal { regime, elapsed_ns }) => {
                self.proposed(if found { regime } else { None }, elapsed_ns, f)
            },
            (WindowStage::Verifying { regime, elapsed_ns }, WindowEvent::Verify { eligible }) => {
                if eligible {
                    self.go(
                        WindowStage::Judging { regime, elapsed_ns },
                        Seq::empty(),
                        WindowAction::AskCostAction { regime },
                    )
                } else {
                    self.ordinary(
                        seq![
                            WindowEffect::LookupIneligible {
                                regime,
                                adaptive: !self.options.match_mtp_verify_shape,
                            },
                        ],
                        Some(regime),
                        true,
                    )
                }
            },
            (
                WindowStage::Judging { regime, .. },
                WindowEvent::CostAction(PromptLookupCostAction::Ordinary),
            ) => self.ordinary(Seq::empty(), Some(regime), false),
            (
                WindowStage::Judging { regime, elapsed_ns },
                WindowEvent::CostAction(PromptLookupCostAction::Lookup),
            ) => self.go(
                WindowStage::Idle,
                Seq::empty(),
                WindowAction::Decided(
                    PromptLookupWindowDecision {
                        action: PromptLookupCostAction::Lookup,
                        regime: Some(regime),
                        proposal_elapsed_ns: elapsed_ns,
                        stats_before: self.stats_before,
                        fallback_to_baseline: false,
                    },
                ),
            ),
            _ => self.ordinary(Seq::empty(), self.base_regime, false),
        }
    }
}

impl PromptLookupWindow {
    pub fn new(max_draft_tokens: usize) -> (window: Self)
        ensures
            window@ == WindowView::fresh(max_draft_tokens),
    {
        PromptLookupWindow {
            max_draft_tokens,
            query_hint: None,
            miss_query_hint: None,
            options: WindowOptions {
                allow_cross_request: false,
                capture_accepted_hidden: false,
                match_mtp_verify_shape: false,
                force_ordinary: false,
            },
            stats_before: PromptLookupStats::default(),
            base_regime: None,
            draft_limits: PromptLookupDraftLimits { local: 0, shared: 0 },
            query_scope: None,
            miss_scope: None,
            stage: WindowStage::Idle,
        }
    }

    /// The batch has changed: what was learned of it no longer holds.
    pub fn forget(&mut self)
        ensures
            final(self)@ == old(self)@.forgetting(),
    {
        self.query_hint = None;
        self.miss_query_hint = None;
    }

    pub fn stage(&self) -> (stage: WindowStage)
        ensures
            stage == self@.stage,
    {
        self.stage
    }

    fn go(&mut self, stage: WindowStage, fx: Vec<WindowEffect>, action: WindowAction) -> (turn:
        WindowTurn)
        ensures
            final(self)@ == old(self)@.go(stage, fx@, action).0,
            turn@ == old(self)@.go(stage, fx@, action).1,
    {
        self.stage = stage;
        WindowTurn { effects: fx, action }
    }

    fn ordinary(
        &mut self,
        fx: Vec<WindowEffect>,
        regime: Option<PromptLookupQualificationRegime>,
        fallback_to_baseline: bool,
    ) -> (turn: WindowTurn)
        ensures
            final(self)@ == old(self)@.ordinary(fx@, regime, fallback_to_baseline).0,
            turn@ == old(self)@.ordinary(fx@, regime, fallback_to_baseline).1,
    {
        let mut fx: Vec<WindowEffect> = fx;
        fx.push(WindowEffect::Discard);
        let decision: PromptLookupWindowDecision = PromptLookupWindowDecision {
            action: PromptLookupCostAction::Ordinary,
            regime,
            proposal_elapsed_ns: 0,
            stats_before: self.stats_before,
            fallback_to_baseline,
        };
        self.go(WindowStage::Idle, fx, WindowAction::Decided(decision))
    }

    /// Begins to choose a window.
    pub fn select_prepared_window(&mut self, options: WindowOptions, f: &WindowFacts) -> (turn:
        WindowTurn)
        ensures
            final(self)@ == old(self)@.begun(options, f@).0,
            turn@ == old(self)@.begun(options, f@).1,
    {
        let draft_limits: PromptLookupDraftLimits = f.draft_limits(
            self.max_draft_tokens,
            options.match_mtp_verify_shape,
        );
        let query_scope: Option<PromptLookupQueryScope> = f.query_scope(draft_limits);
        let hinted: Option<PromptLookupQualificationRegime> = match &self.query_hint {
            Some(hint) => match &query_scope {
                Some(scope) => hint.proposal_regime_for(scope),
                None => None,
            },
            None => None,
        };
        if hinted.is_none() {
            self.query_hint = None;
        }
        self.options = options;
        self.stats_before = f.stats_or_zero();
        self.base_regime = f.base_regime;
        self.draft_limits = draft_limits;
        self.query_scope = query_scope;
        self.miss_scope = f.miss_query_scope(options.allow_cross_request);
        if options.force_ordinary {
            return self.ordinary(Vec::new(), f.base_regime, false);
        }
        match hinted {
            Some(regime) => self.go(
                WindowStage::Hinted { regime },
                Vec::new(),
                WindowAction::AskCostAction { regime },
            ),
            None => self.search(),
        }
    }

    fn search(&mut self) -> (turn: WindowTurn)
        ensures
            final(self)@ == old(self)@.searching().0,
            turn@ == old(self)@.searching().1,
    {
        let prepare: WindowAction = WindowAction::Prepare {
            allow_cross_request: self.options.allow_cross_request,
            draft_limits: self.draft_limits,
        };
        let mut fx: Vec<WindowEffect> = Vec::new();
        let (skips, continues): (bool, bool) = match &self.miss_query_hint {
            Some(hint) => match &self.miss_scope {
                Some(scope) => (hint.should_skip(scope), hint.identity_matches(scope)),
                None => (false, false),
            },
            None => (false, false),
        };
        if skips {
            fx.push(WindowEffect::MissQueryGateSkip);
            let base_regime: Option<PromptLookupQualificationRegime> = self.base_regime;
            return self.ordinary(fx, base_regime, true);
        }
        if continues {
            fx.push(WindowEffect::MissQueryReprobe);
        } else {
            self.miss_query_hint = None;
        }
        self.go(WindowStage::Preparing, fx, prepare)
    }

    fn propose(
        &mut self,
        regime: Option<PromptLookupQualificationRegime>,
        elapsed_ns: u64,
        f: &WindowFacts,
    ) -> (turn: WindowTurn)
        ensures
            final(self)@ == old(self)@.proposed(regime, elapsed_ns, f@).0,
            turn@ == old(self)@.proposed(regime, elapsed_ns, f@).1,
    {
        match regime {
            None => {
                let now: WindowFacts = WindowFacts {
                    base_regime: self.base_regime,
                    stats: f.stats,
                    adaptive_limits: f.adaptive_limits,
                    model_cap: f.model_cap,
                    request_progress: copied_progress(&f.request_progress),
                    active_requests: Vec::new(),
                    shared_availability_epoch: f.shared_availability_epoch,
                };
                let scope: Option<PromptLookupMissQueryScope> = now.miss_query_scope(
                    self.options.allow_cross_request,
                );
                let hint: Option<PromptLookupMissQueryHint> = match scope {
                    Some(scope) => Some(
                        PromptLookupMissQueryHint::after_miss(scope, self.miss_query_hint.as_ref()),
                    ),
                    None => None,
                };
                self.query_hint = None;
                self.miss_query_hint = hint;
                let base_regime: Option<PromptLookupQualificationRegime> = self.base_regime;
                self.ordinary(Vec::new(), base_regime, true)
            },
            Some(regime) => {
                self.miss_query_hint = None;
                self.query_hint = match self.query_scope.take() {
                    Some(scope) => Some(PromptLookupQueryHint { scope, proposal_regime: regime }),
                    None => None,
                };
                let capture_accepted_hidden: bool = self.options.capture_accepted_hidden;
                self.go(
                    WindowStage::Verifying { regime, elapsed_ns },
                    Vec::new(),
                    WindowAction::AskVerify { capture_accepted_hidden },
                )
            },
        }
    }

    /// Goes on after the outcome of the last action.
    pub fn resume(&mut self, event: WindowEvent, f: &WindowFacts) -> (turn: WindowTurn)
        requires
            old(self)@.stage.awaits(event),
        ensures
            final(self)@ == old(self)@.after_event(event, f@).0,
            turn@ == old(self)@.after_event(event, f@).1,
    {
        let mut fx: Vec<WindowEffect> = Vec::new();
        let base_regime: Option<PromptLookupQualificationRegime> = self.base_regime;
        match (self.stage, event) {
            (WindowStage::Hinted { regime }, WindowEvent::CostAction(action)) => match action {
                PromptLookupCostAction::Ordinary => {
                    fx.push(WindowEffect::QueryGateSkip);
                    self.ordinary(fx, Some(regime), false)
                },
                PromptLookupCostAction::Lookup => self.search(),
            },
            (WindowStage::Preparing, WindowEvent::Drafts { found }) => {
                if found && self.options.match_mtp_verify_shape {
                    self.go(WindowStage::Aligning, fx, WindowAction::Align)
                } else {
                    self.go(WindowStage::Proposing { found }, fx, WindowAction::ReadProposal)
                }
            },
            (WindowStage::Aligning, WindowEvent::Drafts { found }) => {
                self.go(WindowStage::Proposing { found }, fx, WindowAction::ReadProposal)
            },
            (WindowStage::Proposing { found }, WindowEvent::Proposal { regime, elapsed_ns }) => {
                self.propose(
                    if found {
                        regime
                    } else {
                        None
                    },
                    elapsed_ns,
                    f,
                )
            },
            (WindowStage::Verifying { regime, elapsed_ns }, WindowEvent::Verify { eligible }) => {
                if eligible {
                    self.go(
                        WindowStage::Judging { regime, elapsed_ns },
                        fx,
                        WindowAction::AskCostAction { regime },
                    )
                } else {
                    let adaptive: bool = !self.options.match_mtp_verify_shape;
                    fx.push(WindowEffect::LookupIneligible { regime, adaptive });
                    self.ordinary(fx, Some(regime), true)
                }
            },
            (WindowStage::Judging { regime, elapsed_ns }, WindowEvent::CostAction(action)) => {
                match action {
                    PromptLookupCostAction::Ordinary => self.ordinary(fx, Some(regime), false),
                    PromptLookupCostAction::Lookup => {
                        let decision: PromptLookupWindowDecision = PromptLookupWindowDecision {
                            action,
                            regime: Some(regime),
                            proposal_elapsed_ns: elapsed_ns,
                            stats_before: self.stats_before,
                            fallback_to_baseline: false,
                        };
                        self.go(WindowStage::Idle, fx, WindowAction::Decided(decision))
                    },
                }
            },
            _ => self.ordinary(fx, base_regime, false),
        }
    }
}

fn copied_progress(progress: &Vec<(RequestId, usize)>) -> (r: Vec<(RequestId, usize)>)
    ensures
        r@ == progress@,
{
    let mut r: Vec<(RequestId, usize)> = Vec::new();
    let mut i: usize = 0;
    while i < progress.len()
        invariant
            i <= progress.len(),
            r@ == progress@.take(i as int),
        decreases progress.len() - i,
    {
        r.push(progress[i]);
        i += 1;
        assert(r@ =~= progress@.take(i as int));
    }
    assert(r@ =~= progress@);
    r
}

/// A window that is forced to be ordinary asks for nothing and searches for nothing.
pub proof fn lemma_forced_window_is_ordinary(
    s: WindowView,
    options: WindowOptions,
    f: WindowFactsView,
)
    requires
        options.force_ordinary,
    ensures
        s.begun(options, f).1.action matches WindowAction::Decided(decision) && decision.action
            == PromptLookupCostAction::Ordinary && !decision.fallback_to_baseline,
        s.begun(options, f).1.effects == seq![WindowEffect::Discard],
{
    assert(s.begun(options, f).1.effects =~= seq![WindowEffect::Discard]);
}

/// A lookup window is only chosen once its drafts were found, can be verified, and pay.
pub proof fn lemma_lookup_is_chosen_last(s: WindowView, event: WindowEvent, f: WindowFactsView)
    requires
        s.stage.awaits(event),
        s.after_event(event, f).1.action matches WindowAction::Decided(decision)
            && decision.action == PromptLookupCostAction::Lookup,
    ensures
        s.stage is Judging,
        event == WindowEvent::CostAction(PromptLookupCostAction::Lookup),
{
}

/// What was prepared is dropped whenever the window runs without lookup.
pub proof fn lemma_ordinary_window_drops_its_drafts(
    s: WindowView,
    event: WindowEvent,
    f: WindowFactsView,
)
    requires
        s.stage.awaits(event),
        s.after_event(event, f).1.action matches WindowAction::Decided(decision)
            && decision.action == PromptLookupCostAction::Ordinary,
    ensures
        s.after_event(event, f).1.effects.len() > 0,
        s.after_event(event, f).1.effects.last() == WindowEffect::Discard,
{
}

/// Whatever is chosen and whatever happens, a search that found nothing puts the next off for at
/// least the initial and at most the largest number of tokens.
pub proof fn lemma_choice_stays_patient(
    s: WindowView,
    options: WindowOptions,
    event: WindowEvent,
    f: WindowFactsView,
    max_draft_tokens: usize,
)
    ensures
        WindowView::fresh(max_draft_tokens).patient(),
        s.forgetting().patient(),
        s.patient() ==> s.begun(options, f).0.patient(),
        s.patient() ==> s.after_event(event, f).0.patient(),
{
}

/// A search right after one that found nothing is spared: as long as the scope is the same and no
/// request has gained as many tokens as the initial delay, an unforced window is ordinary at once,
/// falls back to the baseline, and searches for nothing.
pub proof fn lemma_search_after_a_miss_is_spared(
    s: WindowView,
    elapsed_ns: u64,
    f: WindowFactsView,
    options: WindowOptions,
    later: WindowFactsView,
)
    requires
        s.patient(),
        !options.force_ordinary,
        options.allow_cross_request == s.options.allow_cross_request,
        s.base_regime is Some,
        later.base_regime == s.base_regime,
        f.request_progress.len() > 0,
        later.request_progress.len() == f.request_progress.len(),
        options.allow_cross_request ==> later.shared_availability_epoch
            == f.shared_availability_epoch,
        forall|i: int|
            #![trigger later.request_progress[i]]
            0 <= i < f.request_progress.len() ==> later.request_progress[i].0
                == f.request_progress[i].0 && 0 <= later.request_progress[i].1
                - f.request_progress[i].1 < PROMPT_LOOKUP_MISS_INITIAL_REPROBE_TOKENS,
    ensures
        ({
            let missed = s.proposed(None, elapsed_ns, f).0;
            let turn = missed.begun(options, later).1;
            &&& missed.patient()
            &&& turn.action == WindowAction::Decided(
                PromptLookupWindowDecision {
                    action: PromptLookupCostAction::Ordinary,
                    regime: later.base_regime,
                    proposal_elapsed_ns: 0,
                    stats_before: later.stats_now(),
                    fallback_to_baseline: true,
                },
            )
            &&& turn.effects == seq![WindowEffect::MissQueryGateSkip, WindowEffect::Discard]
        }),
{
    let missed = s.proposed(None, elapsed_ns, f).0;
    let hint = missed.miss_query_hint->0;
    let scope = later.miss_scope(options.allow_cross_request)->0;
    assert(hint.scope.request_progress == f.request_progress);
    assert(scope.request_progress == later.request_progress);
    assert(hint.skips(scope));
    assert(missed.begun(options, later).1.effects =~= seq![
        WindowEffect::MissQueryGateSkip,
        WindowEffect::Discard,
    ]);
}

/// A lookup window has a regime and is no fallback, and an ordinary one took no time to propose.
pub proof fn lemma_decision_is_consistent(
    s: WindowView,
    options: WindowOptions,
    event: WindowEvent,
    f: WindowFactsView,
)
    ensures
        s.begun(options, f).1.action matches WindowAction::Decided(decision)
            ==> decision.consistent(),
        s.after_event(event, f).1.action matches WindowAction::Decided(decision)
            ==> decision.consistent(),
{
}

/// An outcome that a choice is told, with what is known beside it.
pub struct WindowAnswer {
    pub event: WindowEvent,
    pub f: WindowFactsView,
}

impl WindowView {
    /// A window is chosen: the state and the turn after the answers so far.
    pub open spec fn chosen(
        self,
        options: WindowOptions,
        f: WindowFactsView,
        answers: Seq<WindowAnswer>,
    ) -> (WindowView, WindowTurnView)
        decreases answers.len(),
    {
        if answers.len() == 0 {
            self.begun(options, f)
        } else {
            self.chosen(options, f, answers.drop_last()).0.after_event(
                answers.last().event,
                answers.last().f,
            )
        }
    }

    /// Whether each answer is an outcome of what was asked for before it.
    pub open spec fn hears(
        self,
        options: WindowOptions,
        f: WindowFactsView,
        answers: Seq<WindowAnswer>,
    ) -> bool
        decreases answers.len(),
    {
        answers.len() == 0 || (self.hears(options, f, answers.drop_last()) && self.chosen(
            options,
            f,
            answers.drop_last(),
        ).0.stage.awaits(answers.last().event))
    }

    /// How many searches the choice has asked for.
    pub open spec fn searches(
        self,
        options: WindowOptions,
        f: WindowFactsView,
        answers: Seq<WindowAnswer>,
    ) -> nat
        decreases answers.len(),
    {
        let asked: nat = if self.chosen(options, f, answers).1.action is Prepare {
            1
        } else {
            0
        };
        if answers.len() == 0 {
            asked
        } else {
            self.searches(options, f, answers.drop_last()) + asked
        }
    }

    /// Whether the choice has just ended because its search found nothing.
    pub open spec fn missed(
        self,
        options: WindowOptions,
        f: WindowFactsView,
        answers: Seq<WindowAnswer>,
    ) -> bool {
        &&& answers.len() > 0
        &&& self.hears(options, f, answers)
        &&& match (
            self.chosen(options, f, answers.drop_last()).0.stage,
            answers.last().event,
        ) {
            (WindowStage::Proposing { found }, WindowEvent::Proposal { regime, .. }) => !found
                || regime is None,
            _ => false,
        }
    }
}

/// Where a choice stands: it has decided and waits for nothing, or it goes on under the options and
/// the regime that it began with.
proof fn lemma_choice_in_progress(
    s: WindowView,
    options: WindowOptions,
    f: WindowFactsView,
    answers: Seq<WindowAnswer>,
)
    requires
        s.hears(options, f, answers),
    ensures
        ({
            let r = s.chosen(options, f, answers);
            &&& r.0.options == options
            &&& r.0.base_regime == f.base_regime
            &&& s.patient() ==> r.0.patient()
            &&& r.1.action is Decided <==> r.0.stage == WindowStage::Idle
            &&& r.1.action is Prepare ==> r.0.stage == WindowStage::Preparing
            &&& options.force_ordinary ==> answers.len() == 0
        }),
    decreases answers.len(),
{
    if answers.len() > 0 {
        lemma_choice_in_progress(s, options, f, answers.drop_last());
    }
}

/// Once a window is chosen: a lookup window has a regime and does not fall back; an ordinary one
/// spent nothing on a proposal, and whatever was prepared for it is dropped. A window that is forced
/// to be ordinary asks for nothing at all, searches for nothing and does not fall back. No choice
/// searches twice.
pub proof fn lemma_chosen_window(
    s: WindowView,
    options: WindowOptions,
    f: WindowFactsView,
    answers: Seq<WindowAnswer>,
)
    requires
        s.hears(options, f, answers),
    ensures
        s.chosen(options, f, answers).1.action matches WindowAction::Decided(decision) ==> {
            &&& decision.action == PromptLookupCostAction::Lookup ==> decision.regime is Some
                && !decision.fallback_to_baseline
            &&& decision.action == PromptLookupCostAction::Ordinary ==> {
                &&& decision.proposal_elapsed_ns == 0
                &&& s.chosen(options, f, answers).1.effects.len() > 0
                &&& s.chosen(options, f, answers).1.effects.last() == WindowEffect::Discard
            }
        },
        options.force_ordinary ==> {
            &&& answers.len() == 0
            &&& s.chosen(options, f, answers).1.action matches WindowAction::Decided(decision)
                && decision.action == PromptLookupCostAction::Ordinary
                && !decision.fallback_to_baseline
            &&& s.searches(options, f, answers) == 0
        },
        s.searches(options, f, answers) <= 1,
{
    lemma_choice_in_progress(s, options, f, answers);
    lemma_searches_once(s, options, f, answers);
}

proof fn lemma_searches_once(
    s: WindowView,
    options: WindowOptions,
    f: WindowFactsView,
    answers: Seq<WindowAnswer>,
)
    requires
        s.hears(options, f, answers),
    ensures
        s.searches(options, f, answers) <= 1,
        s.chosen(options, f, answers).0.stage is Hinted ==> s.searches(options, f, answers) == 0,
    decreases answers.len(),
{
    if answers.len() > 0 {
        lemma_searches_once(s, options, f, answers.drop_last());
    }
}

/// A choice right after one whose search found nothing, in the same scope and before any request
/// has gained as many tokens as the initial delay, is spared the search: unless it is forced, the
/// window is ordinary at once and falls back to the baseline, and nothing is searched for.
pub proof fn lemma_repeated_choice_is_spared(
    s: WindowView,
    options: WindowOptions,
    f: WindowFactsView,
    answers: Seq<WindowAnswer>,
    next: WindowOptions,
    later: WindowFactsView,
)
    requires
        s.patient(),
        s.missed(options, f, answers),
        !next.force_ordinary,
        next.allow_cross_request == options.allow_cross_request,
        f.base_regime is Some,
        later.base_regime == f.base_regime,
        ({
            let then = answers.last().f;
            &&& then.request_progress.len() > 0
            &&& later.request_progress.len() == then.request_progress.len()
            &&& next.allow_cross_request ==> later.shared_availability_epoch
                == then.shared_availability_epoch
            &&& forall|i: int|
                #![trigger later.request_progress[i]]
                0 <= i < then.request_progress.len() ==> later.request_progress[i].0
                    == then.request_progress[i].0 && 0 <= later.request_progress[i].1
                    - then.request_progress[i].1 < PROMPT_LOOKUP_MISS_INITIAL_REPROBE_TOKENS
        }),
    ensures
        ({
            let missed = s.chosen(options, f, answers);
            let again = missed.0.chosen(next, later, Seq::empty());
            &&& missed.1.action matches WindowAction::Decided(decision) && decision.action
                == PromptLookupCostAction::Ordinary && decision.fallback_to_baseline
            &&& again.1.action matches WindowAction::Decided(decision) && decision.action
                == PromptLookupCostAction::Ordinary && decision.fallback_to_baseline
                && decision.proposal_elapsed_ns == 0
            &&& again.1.effects == seq![WindowEffect::MissQueryGateSkip, WindowEffect::Discard]
            &&& missed.0.searches(next, later, Seq::empty()) == 0
        }),
{
    let front = answers.drop_last();
    lemma_choice_in_progress(s, options, f, front);
    let before = s.chosen(options, f, front).0;
    let then = answers.last().f;
    match answers.last().event {
        WindowEvent::Proposal { elapsed_ns, .. } => {
            lemma_search_after_a_miss_is_spared(before, elapsed_ns, then, next, later);
        },
        _ => {},
    }
}

} // verus!
