//! Handling one observed event: from (path, operation, metadata) to the
//! planned actions, and the seeding of the initially watched paths.

use vstd::prelude::*;

use crate::matcher::{match_count, models_of, select, MatchOutcome};
use crate::pattern::{pattern_matches, Operation, Pattern};
use crate::task::{conduct_tasks, task_plan, DispatchPlan};

verus! {

/// What handling one observed event came to. The first three cases carry out
/// no task and are surfaced so the caller can log them; only a single,
/// unambiguous match is dispatched.
pub enum ProcessOutcome {
    /// The path's metadata could not be fetched (the file vanished between
    /// the event and the fetch, say): dispatch is skipped entirely for this
    /// event and the loop proceeds.
    MetadataFailure,
    /// No rule applies to the observed pair.
    NoMatch,
    /// Several rules apply at once: a configuration defect; no safe default
    /// action exists, so none is taken.
    AmbiguousMatch,
    /// Exactly one rule applies: the actions its task list planned.
    Dispatched(DispatchPlan),
}

/// Handle one observed event against the rule set. The caller fetches the
/// path's metadata first and passes the permission bits, or nothing where
/// the fetch failed; the current state of the path is whatever the caller
/// fetched, and is not re-read here.
pub fn process(
    patterns: &Vec<Pattern>,
    path: &str,
    op: Operation,
    metadata: Option<u32>,
) -> (r: ProcessOutcome)
    ensures
        r is MetadataFailure <==> metadata is None,
        metadata is Some ==> ({
            let models = models_of(patterns@);
            let n = match_count(models, path@, op);
            &&& (r is NoMatch <==> n == 0)
            &&& (r is Dispatched <==> n == 1)
            &&& (r is AmbiguousMatch <==> n >= 2)
            &&& (r matches ProcessOutcome::Dispatched(plan) ==> (exists|i: int|
                0 <= i < models.len() && pattern_matches(#[trigger] models[i], path@, op)
                    && (forall|j: int|
                    0 <= j < models.len() && j != i ==> !pattern_matches(
                        #[trigger] models[j],
                        path@,
                        op,
                    )) && plan@ == task_plan(
                    models[i].tasks,
                    path@,
                    metadata->Some_0,
                    models[i].mask,
                )))
        }),
{
    match metadata {
        None => ProcessOutcome::MetadataFailure,
        Some(mode) => match select(patterns, path, op) {
            MatchOutcome::NoMatch => ProcessOutcome::NoMatch,
            MatchOutcome::SingleMatch(i) => {
                let plan = conduct_tasks(&patterns[i], path, mode);
                proof {
                    assert(models_of(patterns@)[i as int] == patterns@[i as int]@);
                }
                ProcessOutcome::Dispatched(plan)
            },
            MatchOutcome::AmbiguousMatch => ProcessOutcome::AmbiguousMatch,
        },
    }
}

/// The paths to watch from the start: the configured roots, kept as given.
/// Seeding further watches from the rule table is left to later rescans,
/// which discover watch targets as events arrive.
pub fn scan_watch_paths(paths: &Vec<String>, patterns: &Vec<Pattern>) -> (r: Vec<String>)
    ensures
        r@ == paths@,
{
    let _ = patterns;
    let mut r: Vec<String> = Vec::new();
    let mut i: usize = 0;
    while i < paths.len()
        invariant
            0 <= i <= paths@.len(),
            r@ == paths@.take(i as int),
        decreases paths@.len() - i,
    {
        r.push(paths[i].clone());
        proof {
            assert(paths@.take(i + 1).drop_last() =~= paths@.take(i as int));
            assert(r@ =~= paths@.take(i + 1));
        }
        i = i + 1;
    }
    proof {
        assert(paths@.take(paths@.len() as int) =~= paths@);
    }
    r
}

} // verus!
