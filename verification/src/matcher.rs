//! Selecting the rule that applies to an observed (path, operation) pair.

use vstd::prelude::*;

use crate::pattern::{pattern_matches, Operation, Pattern, PatternModel};

verus! {

/// The view of a rule set: the models of its patterns, in order.
pub open spec fn models_of(rules: Seq<Pattern>) -> Seq<PatternModel> {
    rules.map_values(|p: Pattern| p@)
}

/// How many rules of the set match the observed (path, operation) pair.
pub open spec fn match_count(rules: Seq<PatternModel>, path: Seq<char>, op: Operation) -> nat
    decreases rules.len(),
{
    if rules.len() == 0 {
        0
    } else {
        match_count(rules.drop_last(), path, op) + if pattern_matches(
            rules.last(),
            path,
            op,
        ) {
            1nat
        } else {
            0nat
        }
    }
}

/// The matcher's classification of an observed (path, operation) pair: no
/// rule applies, exactly the rule at the carried index applies, or several
/// rules apply at once. Overlapping rules are a configuration defect, so the
/// ambiguous case is surfaced instead of being resolved by an implicit
/// first-match policy.
#[derive(Clone, Copy, Debug, PartialEq, Eq, Structural)]
pub enum MatchOutcome {
    NoMatch,
    SingleMatch(usize),
    AmbiguousMatch,
}

/// No rule matches exactly when the match count is zero.
pub proof fn lemma_match_count_zero(rules: Seq<PatternModel>, path: Seq<char>, op: Operation)
    ensures
        match_count(rules, path, op) == 0 <==> (forall|i: int|
            0 <= i < rules.len() ==> !pattern_matches(#[trigger] rules[i], path, op)),
    decreases rules.len(),
{
    if rules.len() > 0 {
        let prefix = rules.drop_last();
        lemma_match_count_zero(prefix, path, op);
        assert(rules.last() == rules[rules.len() - 1]);
        if match_count(rules, path, op) == 0 {
            assert forall|i: int| 0 <= i < rules.len() implies !pattern_matches(
                #[trigger] rules[i],
                path,
                op,
            ) by {
                if i < rules.len() - 1 {
                    assert(!pattern_matches(prefix[i], path, op));
                    assert(prefix[i] == rules[i]);
                }
            }
        }
        if forall|i: int| 0 <= i < rules.len() ==> !pattern_matches(#[trigger] rules[i], path, op) {
            assert forall|i: int| 0 <= i < prefix.len() implies !pattern_matches(
                #[trigger] prefix[i],
                path,
                op,
            ) by {
                assert(prefix[i] == rules[i]);
            }
            assert(match_count(prefix, path, op) == 0);
        }
    }
}

/// A rule set whose match count is one has exactly one matching rule: any
/// rule known to match is the only one.
proof fn lemma_single_match_unique(
    rules: Seq<PatternModel>,
    path: Seq<char>,
    op: Operation,
    i: int,
)
    requires
        match_count(rules, path, op) == 1,
        0 <= i < rules.len(),
        pattern_matches(rules[i], path, op),
    ensures
        forall|j: int|
            0 <= j < rules.len() && j != i ==> !pattern_matches(#[trigger] rules[j], path, op),
    decreases rules.len(),
{
    let prefix = rules.drop_last();
    assert(forall|j: int| 0 <= j < prefix.len() ==> #[trigger] prefix[j] == rules[j]);
    assert(rules.last() == rules[rules.len() - 1]);
    if pattern_matches(rules.last(), path, op) {
        lemma_match_count_zero(prefix, path, op);
        if i < rules.len() - 1 {
            assert(!pattern_matches(prefix[i], path, op));
            assert(prefix[i] == rules[i]);
        }
        assert(i == rules.len() - 1);
    } else {
        lemma_single_match_unique(prefix, path, op, i);
    }
    assert forall|j: int| 0 <= j < rules.len() && j != i implies !pattern_matches(
        #[trigger] rules[j],
        path,
        op,
    ) by {
        if j < rules.len() - 1 {
            assert(!pattern_matches(prefix[j], path, op));
            assert(prefix[j] == rules[j]);
        }
    }
}

/// In a rule set whose patterns never overlap on the given pair, the match
/// count is at most one: the matcher can only answer that no rule or exactly
/// one rule applies, never that the pair is ambiguous.
pub proof fn lemma_disjoint_rules_never_ambiguous(
    rules: Seq<PatternModel>,
    path: Seq<char>,
    op: Operation,
)
    requires
        forall|i: int, j: int|
            0 <= i < rules.len() && 0 <= j < rules.len() && i != j ==> !(pattern_matches(
                #[trigger] rules[i],
                path,
                op,
            ) && pattern_matches(#[trigger] rules[j], path, op)),
    ensures
        match_count(rules, path, op) <= 1,
    decreases rules.len(),
{
    if rules.len() > 0 {
        let prefix = rules.drop_last();
        assert(forall|i: int| 0 <= i < prefix.len() ==> #[trigger] prefix[i] == rules[i]);
        lemma_disjoint_rules_never_ambiguous(prefix, path, op);
        if pattern_matches(rules.last(), path, op) {
            assert(pattern_matches(rules[rules.len() - 1], path, op));
            assert forall|i: int| 0 <= i < prefix.len() implies !pattern_matches(
                #[trigger] prefix[i],
                path,
                op,
            ) by {
                assert(prefix[i] == rules[i]);
            }
            lemma_match_count_zero(prefix, path, op);
        }
    }
}

/// Filter the rule set for the patterns that match the observed pair and
/// classify the outcome by their number. On a single match the carried index
/// is the matching rule's position in the set.
pub fn select(rules: &Vec<Pattern>, path: &str, op: Operation) -> (r: MatchOutcome)
    ensures
        r is NoMatch <==> match_count(models_of(rules@), path@, op) == 0,
        r is SingleMatch <==> match_count(models_of(rules@), path@, op) == 1,
        r is AmbiguousMatch <==> match_count(models_of(rules@), path@, op) >= 2,
        r matches MatchOutcome::SingleMatch(i) ==> 0 <= i < rules@.len() && pattern_matches(
            models_of(rules@)[i as int],
            path@,
            op,
        ) && (forall|j: int|
            0 <= j < rules@.len() && j != i ==> !pattern_matches(
                #[trigger] models_of(rules@)[j],
                path@,
                op,
            )),
{
    let ghost models = models_of(rules@);
    let mut count: usize = 0;
    let mut idx: usize = 0;
    let mut j: usize = 0;
    while j < rules.len()
        invariant
            0 <= j <= rules.len(),
            models == models_of(rules@),
            models.len() == rules@.len(),
            count == match_count(models.take(j as int), path@, op),
            count <= j,
            count >= 1 ==> 0 <= idx < j && pattern_matches(models[idx as int], path@, op),
        decreases rules.len() - j,
    {
        let m = rules[j].is_match(path, op);
        proof {
            assert(models.take(j + 1).drop_last() =~= models.take(j as int));
            assert(models.take(j + 1).last() == models[j as int]);
        }
        if m {
            if count == 0 {
                idx = j;
            }
            count = count + 1;
        }
        j = j + 1;
    }
    proof {
        assert(models.take(rules@.len() as int) =~= models);
        if count == 1 {
            lemma_single_match_unique(models, path@, op, idx as int);
        }
    }
    if count == 0 {
        MatchOutcome::NoMatch
    } else if count == 1 {
        MatchOutcome::SingleMatch(idx)
    } else {
        MatchOutcome::AmbiguousMatch
    }
}

} // verus!
