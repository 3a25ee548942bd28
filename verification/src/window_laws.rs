//! How the next window is chosen, step by step: when a search is spared, when it is made, and what
//! its outcome leads to.
use vstd::prelude::*;

use crate::lookup_window::{
    EpisodeView, HybridDraftSource, MissHintView, QueryHintView, WindowAction, WindowEffect,
    WindowEvent, WindowFactsView, WindowOptions, WindowStage, WindowTurnView, WindowView,
};
use crate::prompt_lookup::{
    PromptLookupCostAction, PromptLookupDraftLimits, PromptLookupProposalSource,
    PromptLookupQualificationRegime, PromptLookupStats,
};

verus! {

/// The window is decided: it runs without lookup, and what was prepared is dropped.
pub open spec fn runs_ordinary(
    s: WindowView,
    turn: WindowTurnView,
    before: Seq<WindowEffect>,
    regime: Option<PromptLookupQualificationRegime>,
    fallback: bool,
) -> bool {
    &&& turn.effects == before.push(WindowEffect::Discard)
    &&& turn.action matches WindowAction::Decided(decision) && {
        &&& decision.action == PromptLookupCostAction::Ordinary
        &&& decision.regime == regime
        &&& decision.proposal_elapsed_ns == 0
        &&& decision.fallback_to_baseline == fallback
        &&& decision.stats_before == s.stats_before
    }
}

/// Whether a search that found nothing was made in the present circumstances: in the same regime,
/// over the same text, and for the same requests, none of which has gone back since.
pub open spec fn miss_stands(
    hint: MissHintView,
    regime: PromptLookupQualificationRegime,
    cross: bool,
    f: WindowFactsView,
) -> bool {
    let then = hint.scope.request_progress;
    &&& hint.scope.base_regime == regime
    &&& hint.scope.allow_cross_request == cross
    &&& hint.scope.shared_availability_epoch == if cross {
        f.shared_availability_epoch
    } else {
        None
    }
    &&& then.len() == f.request_progress.len()
    &&& then.len() > 0
    &&& forall|i: int|
        #![trigger f.request_progress[i]]
        0 <= i < then.len() ==> f.request_progress[i].0 == then[i].0 && f.request_progress[i].1
            >= then[i].1
}

/// Whether some request has gained as many tokens since as the next search is put off for.
pub open spec fn has_gained(hint: MissHintView, f: WindowFactsView) -> bool {
    exists|i: int|
        #![trigger f.request_progress[i]]
        0 <= i < f.request_progress.len() && f.request_progress[i].1
            - hint.scope.request_progress[i].1 >= hint.reprobe_after_tokens
}

/// A search is made, unless one in the present circumstances found nothing and nobody has come far
/// enough since: then the window falls back to the baseline.
pub open spec fn searches_or_spares(
    s: WindowView,
    options: WindowOptions,
    f: WindowFactsView,
    after: WindowView,
    turn: WindowTurnView,
) -> bool {
    let prepare = WindowAction::Prepare {
        allow_cross_request: options.allow_cross_request,
        draft_limits: after.draft_limits,
    };
    match (s.miss_query_hint, f.base_regime) {
        (Some(hint), Some(regime)) if miss_stands(hint, regime, options.allow_cross_request, f) => {
            if has_gained(hint, f) {
                turn.action == prepare && turn.effects == seq![WindowEffect::MissQueryReprobe]
                    && after.miss_query_hint == Some(hint)
            } else {
                runs_ordinary(
                    after,
                    turn,
                    seq![WindowEffect::MissQueryGateSkip],
                    Some(regime),
                    true,
                ) && after.miss_query_hint == Some(hint)
            }
        },
        _ => turn.action == prepare && turn.effects.len() == 0 && after.miss_query_hint is None,
    }
}

/// Whether the last proposal was made in the present circumstances: in the same regime, within the
/// same limits, and for the same requests.
pub open spec fn proposal_stands(
    hint: QueryHintView,
    limits: PromptLookupDraftLimits,
    f: WindowFactsView,
) -> bool {
    &&& f.base_regime == Some(hint.scope.base_regime)
    &&& hint.scope.draft_limits == limits
    &&& if f.request_progress.len() > 0 {
        &&& hint.scope.owners.len() == f.request_progress.len()
        &&& forall|i: int|
            #![trigger f.request_progress[i]]
            0 <= i < f.request_progress.len() ==> hint.scope.owners[i] == f.request_progress[i].0
    } else {
        hint.scope.owners == f.active_requests
    }
}

proof fn lemma_searching(s: WindowView, options: WindowOptions, f: WindowFactsView, t: WindowView)
    requires
        t.options == options,
        t.base_regime == f.base_regime,
        t.miss_scope == f.miss_scope(options.allow_cross_request),
        t.miss_query_hint == s.miss_query_hint,
    ensures
        searches_or_spares(s, options, f, t.searching().0, t.searching().1),
{
    let (after, turn) = t.searching();
    if let (Some(hint), Some(regime)) = (s.miss_query_hint, f.base_regime) {
        if f.request_progress.len() > 0 {
            let scope = f.miss_scope(options.allow_cross_request)->0;
            assert(scope.request_progress == f.request_progress);
            assert(hint.continues(scope) == miss_stands(
                hint,
                regime,
                options.allow_cross_request,
                f,
            ));
            if hint.continues(scope) {
                if has_gained(hint, f) {
                    let i = choose|i: int|
                        #![trigger f.request_progress[i]]
                        0 <= i < f.request_progress.len() && f.request_progress[i].1
                            - hint.scope.request_progress[i].1 >= hint.reprobe_after_tokens;
                    assert(scope.request_progress[i] == f.request_progress[i]);
                    assert(!hint.skips(scope));
                } else {
                    assert(hint.skips(scope));
                    assert(turn.effects =~= seq![WindowEffect::MissQueryGateSkip].push(
                        WindowEffect::Discard,
                    ));
                }
            }
        }
    }
}

/// A window is chosen anew each time. Drafts are held to what the model takes, and to what the cost
/// controller allows where that may adapt them. A window that is forced runs without lookup; where
/// the last proposal still stands the cost controller is asked before anything is searched for; else
/// a search is made or spared.
pub proof fn lemma_choice_begins(s: WindowView, options: WindowOptions, f: WindowFactsView)
    ensures
        ({
            let (after, turn) = s.begun(options, f);
            let adapts = !options.match_mtp_verify_shape && f.base_regime is Some;
            &&& after.draft_limits.local == vstd::math::min(
                (if adapts {
                    f.adaptive_limits.local
                } else {
                    s.max_draft_tokens
                }) as int,
                f.model_cap as int,
            )
            &&& after.draft_limits.shared == vstd::math::min(
                (if adapts {
                    f.adaptive_limits.shared
                } else {
                    s.max_draft_tokens
                }) as int,
                f.model_cap as int,
            )
            &&& f.stats matches Some(stats) ==> after.stats_before == stats
            &&& f.stats is None ==> after.stats_before == PromptLookupStats::zero()
            &&& after.max_draft_tokens == s.max_draft_tokens
            &&& if options.force_ordinary {
                runs_ordinary(after, turn, Seq::empty(), f.base_regime, false)
                    && after.miss_query_hint == s.miss_query_hint
            } else {
                match s.query_hint {
                    Some(hint) if proposal_stands(hint, after.draft_limits, f) => {
                        &&& turn.action == (WindowAction::AskCostAction {
                            regime: hint.proposal_regime,
                        })
                        &&& turn.effects.len() == 0
                        &&& after.query_hint == Some(hint)
                        &&& after.miss_query_hint == s.miss_query_hint
                    },
                    _ => after.query_hint is None && searches_or_spares(
                        s,
                        options,
                        f,
                        after,
                        turn,
                    ),
                }
            }
        }),
{
    let limits = f.limits(s.max_draft_tokens, options.match_mtp_verify_shape);
    let hinted = s.hinted(f.query_scope(limits));
    let t = WindowView {
        query_hint: if hinted is Some {
            s.query_hint
        } else {
            None
        },
        options,
        stats_before: f.stats_now(),
        base_regime: f.base_regime,
        draft_limits: limits,
        query_scope: f.query_scope(limits),
        miss_scope: f.miss_scope(options.allow_cross_request),
        ..s
    };
    lemma_searching(s, options, f, t);
    if let (Some(hint), Some(scope)) = (s.query_hint, f.query_scope(limits)) {
        if proposal_stands(hint, limits, f) {
            assert(hint.scope.owners =~= scope.owners);
            assert(hint.scope =~= scope);
        }
        if hint.scope == scope && f.request_progress.len() > 0 {
            assert forall|i: int|
                #![trigger f.request_progress[i]]
                0 <= i < f.request_progress.len() implies hint.scope.owners[i]
                == f.request_progress[i].0 by {}
        }
    }
}

/// What each outcome leads to. A proposal that would not pay is not searched for. Drafts that were
/// found are cut to a draft head's shape where that is asked for, and then told. A proposal is
/// verified, judged by its cost, and run only if it can be verified and pays. Without one the window
/// falls back to the baseline, and so it does where it cannot be verified.
pub proof fn lemma_outcome_of_a_search(s: WindowView, event: WindowEvent, f: WindowFactsView)
    requires
        s.stage.awaits(event),
    ensures
        ({
            let (after, turn) = s.after_event(event, f);
            match (s.stage, event) {
                (WindowStage::Hinted { regime }, WindowEvent::CostAction(action)) => action
                    == PromptLookupCostAction::Ordinary ==> runs_ordinary(
                    s,
                    turn,
                    seq![WindowEffect::QueryGateSkip],
                    Some(regime),
                    false,
                ) && after.query_hint == s.query_hint && after.miss_query_hint
                    == s.miss_query_hint,
                (WindowStage::Preparing, WindowEvent::Drafts { found }) => {
                    &&& turn.effects.len() == 0
                    &&& if found && s.options.match_mtp_verify_shape {
                        turn.action == WindowAction::Align && after.stage == WindowStage::Aligning
                    } else {
                        turn.action == WindowAction::ReadProposal && after.stage == (
                        WindowStage::Proposing { found })
                    }
                },
                (WindowStage::Aligning, WindowEvent::Drafts { found }) => turn.effects.len() == 0
                    && turn.action == WindowAction::ReadProposal && after.stage == (
                WindowStage::Proposing { found }),
                (
                    WindowStage::Proposing { found },
                    WindowEvent::Proposal { regime, elapsed_ns },
                ) => match regime {
                    Some(regime) if found => {
                        &&& turn.effects.len() == 0
                        &&& turn.action == (WindowAction::AskVerify {
                            capture_accepted_hidden: s.options.capture_accepted_hidden,
                        })
                        &&& after.stage == (WindowStage::Verifying { regime, elapsed_ns })
                        &&& after.miss_query_hint is None
                        &&& s.query_scope matches Some(scope) ==> after.query_hint == Some(
                            QueryHintView { scope, proposal_regime: regime },
                        )
                    },
                    _ => runs_ordinary(s, turn, Seq::empty(), s.base_regime, true)
                        && after.query_hint is None && missed(s, f, after.miss_query_hint),
                },
                (
                    WindowStage::Verifying { regime, elapsed_ns },
                    WindowEvent::Verify { eligible },
                ) => {
                    &&& eligible ==> turn.effects.len() == 0 && turn.action == (
                    WindowAction::AskCostAction { regime }) && after.stage == (
                    WindowStage::Judging { regime, elapsed_ns })
                    &&& !eligible ==> runs_ordinary(
                        s,
                        turn,
                        seq![
                            WindowEffect::LookupIneligible {
                                regime,
                                adaptive: !s.options.match_mtp_verify_shape,
                            },
                        ],
                        Some(regime),
                        true,
                    )
                },
                (WindowStage::Judging { regime, elapsed_ns }, WindowEvent::CostAction(action)) => {
                    &&& action == PromptLookupCostAction::Ordinary ==> runs_ordinary(
                        s,
                        turn,
                        Seq::empty(),
                        Some(regime),
                        false,
                    )
                    &&& action == PromptLookupCostAction::Lookup ==> {
                        &&& turn.effects.len() == 0
                        &&& turn.action matches WindowAction::Decided(decision) && {
                            &&& decision.action == PromptLookupCostAction::Lookup
                            &&& decision.regime == Some(regime)
                            &&& decision.proposal_elapsed_ns == elapsed_ns
                            &&& decision.stats_before == s.stats_before
                            &&& !decision.fallback_to_baseline
                        }
                    }
                },
                _ => true,
            }
        }),
{
    let previous = s.miss_query_hint;
    let now = WindowFactsView { base_regime: s.base_regime, ..f };
    if let (Some(hint), Some(scope)) = (previous, now.miss_scope(s.options.allow_cross_request)) {
        assert(scope.request_progress == f.request_progress);
        assert(hint.continues(scope) == miss_stands(
            hint,
            s.base_regime->0,
            s.options.allow_cross_request,
            f,
        ));
    }
}

/// What is remembered of a search that found nothing: where every request stood, and that the next
/// search waits for two tokens, or for twice as many as before if this was not the first in a row,
/// but never for more than eight.
pub open spec fn missed(s: WindowView, f: WindowFactsView, hint: Option<MissHintView>) -> bool {
    match s.base_regime {
        Some(regime) if f.request_progress.len() > 0 => hint matches Some(hint) && {
            &&& hint.scope.base_regime == regime
            &&& hint.scope.request_progress == f.request_progress
            &&& hint.scope.allow_cross_request == s.options.allow_cross_request
            &&& hint.scope.shared_availability_epoch == if s.options.allow_cross_request {
                f.shared_availability_epoch
            } else {
                None
            }
            &&& hint.reprobe_after_tokens == match s.miss_query_hint {
                Some(previous) if miss_stands(
                    previous,
                    regime,
                    s.options.allow_cross_request,
                    f,
                ) => vstd::math::min(2 * previous.reprobe_after_tokens, 8),
                _ => 2,
            }
        },
        _ => hint is None,
    }
}

/// A proposal that would pay is searched for as if nothing had been proposed before.
pub proof fn lemma_paying_proposal_is_searched_for(
    s: WindowView,
    options: WindowOptions,
    f: WindowFactsView,
    g: WindowFactsView,
    regime: PromptLookupQualificationRegime,
)
    requires
        s.begun(options, f).0.stage == (WindowStage::Hinted { regime }),
    ensures
        ({
            let waiting = s.begun(options, f).0;
            let (after, turn) = waiting.after_event(
                WindowEvent::CostAction(PromptLookupCostAction::Lookup),
                g,
            );
            searches_or_spares(s, options, f, after, turn)
        }),
{
    lemma_searching(s, options, f, s.begun(options, f).0);
}

/// A new batch begins with nothing learned, and keeps everything else.
pub proof fn lemma_new_batch_has_learned_nothing(s: WindowView, max_draft_tokens: usize)
    ensures
        s.forgetting().query_hint is None,
        s.forgetting().miss_query_hint is None,
        s.forgetting() == (WindowView {
            query_hint: s.forgetting().query_hint,
            miss_query_hint: s.forgetting().miss_query_hint,
            ..s
        }),
        WindowView::fresh(max_draft_tokens).query_hint is None,
        WindowView::fresh(max_draft_tokens).miss_query_hint is None,
        WindowView::fresh(max_draft_tokens).max_draft_tokens == max_draft_tokens,
        WindowView::fresh(max_draft_tokens).stage == WindowStage::Idle,
{
}

/// A lookup window is verified on the canonical target exactly where its draft comes from one source,
/// the request's own text or that of others; neural drafts never are.
pub proof fn lemma_canonical_target_is_for_one_source(regime: PromptLookupQualificationRegime)
    ensures
        !crate::lookup_window::on_canonical_target(HybridDraftSource::Neural, Some(regime)),
        !crate::lookup_window::on_canonical_target(HybridDraftSource::PromptLookup, None),
        crate::lookup_window::on_canonical_target(HybridDraftSource::PromptLookup, Some(regime))
            <==> regime.proposal_source is Some && regime.proposal_source != Some(
            PromptLookupProposalSource::Mixed,
        ),
{
    match regime.proposal_source {
        Some(PromptLookupProposalSource::Local) => {},
        Some(PromptLookupProposalSource::Shared) => {},
        Some(PromptLookupProposalSource::Mixed) => {},
        None => {},
    }
}

/// An episode commits the tokens of all its windows and knows every regime that one of them ran in.
pub proof fn lemma_episode_commits_all_its_tokens(
    episode: EpisodeView,
    regime: PromptLookupQualificationRegime,
    tokens: usize,
    known: PromptLookupQualificationRegime,
)
    ensures
        ({
            let after = episode.with(regime, tokens);
            &&& after.committed_tokens == vstd::math::min(
                episode.committed_tokens + tokens,
                usize::MAX as int,
            )
            &&& after.regimes.contains(known) <==> known == regime || episode.regimes.contains(
                known,
            )
            &&& forall|i: int|
                0 <= i < episode.regimes.len() ==> after.regimes[i] == #[trigger] episode.regimes[i]
        }),
        EpisodeView::fresh().committed_tokens == 0,
        EpisodeView::fresh().regimes.len() == 0,
{
    let after = episode.with(regime, tokens);
    if !episode.regimes.contains(regime) {
        assert(after.regimes[episode.regimes.len() as int] == regime);
        if episode.regimes.contains(known) {
            let i = choose|i: int| 0 <= i < episode.regimes.len() && episode.regimes[i] == known;
            assert(after.regimes[i] == known);
        }
        if after.regimes.contains(known) && known != regime {
            let i = choose|i: int| 0 <= i < after.regimes.len() && after.regimes[i] == known;
            assert(episode.regimes[i] == known);
        }
    }
}

} // verus!
