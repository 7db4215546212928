//! The registry of watched paths and the rescanner's selection of new watch
//! targets.

use vstd::prelude::*;

use crate::matcher::models_of;
use crate::pattern::{pattern_source, regex_match, Pattern, PatternModel};

verus! {

/// The set of canonical paths currently subscribed to change notifications.
/// In-memory only: a restart re-derives it from the configured roots. The
/// registry records the subscriptions; establishing them with the operating
/// system is the caller's part.
pub struct Registry {
    paths: Vec<String>,
}

impl View for Registry {
    type V = Set<Seq<char>>;

    closed spec fn view(&self) -> Set<Seq<char>> {
        self.paths@.map_values(|s: String| s@).to_set()
    }
}

impl Registry {
    /// The empty registry: nothing is watched yet.
    pub fn new() -> (r: Registry)
        ensures
            r@ == Set::<Seq<char>>::empty(),
    {
        let r = Registry { paths: Vec::new() };
        proof {
            assert(r@ =~= Set::<Seq<char>>::empty());
        }
        r
    }

    /// Whether the canonical path is already watched.
    pub fn contains(&self, path: &String) -> (r: bool)
        ensures
            r == self@.contains(path@),
    {
        let ghost views = self.paths@.map_values(|s: String| s@);
        let mut i: usize = 0;
        while i < self.paths.len()
            invariant
                0 <= i <= self.paths@.len(),
                views == self.paths@.map_values(|s: String| s@),
                forall|j: int| 0 <= j < i ==> #[trigger] views[j] != path@,
            decreases self.paths@.len() - i,
        {
            if self.paths[i] == *path {
                assert(views[i as int] == path@);
                return true;
            }
            i = i + 1;
        }
        proof {
            assert(forall|j: int| 0 <= j < views.len() ==> #[trigger] views[j] != path@);
            assert(!views.contains(path@));
        }
        false
    }

    /// Register a canonical path. Idempotent: a path already watched is left
    /// alone. The result says whether the path is newly watched, so that the
    /// caller subscribes it with the operating system, and logs the new
    /// watch, exactly once per distinct path.
    pub fn add_watch(&mut self, path: &String) -> (added: bool)
        ensures
            final(self)@ == old(self)@.insert(path@),
            added == !old(self)@.contains(path@),
    {
        if self.contains(path) {
            proof {
                assert(self@ =~= self@.insert(path@));
            }
            false
        } else {
            let ghost before = self.paths@.map_values(|s: String| s@);
            self.paths.push(path.clone());
            proof {
                assert(self.paths@.map_values(|s: String| s@) =~= before.push(path@));
                before.lemma_push_to_set_commute(path@);
            }
            true
        }
    }
}

/// Registering the same canonical path twice leaves the registry as one
/// registration does: the first one puts the path in the set, so the second
/// finds it there, changes nothing, and reports no new watch.
pub proof fn lemma_add_watch_idempotent(registry: Set<Seq<char>>, path: Seq<char>)
    ensures
        registry.insert(path).insert(path) == registry.insert(path),
        registry.insert(path).contains(path),
{
    assert(registry.insert(path).insert(path) =~= registry.insert(path));
}

/// Whether some rule's path expression matches the path, whatever operation
/// the rule listens for: would this path ever be relevant.
pub open spec fn structurally_relevant(rules: Seq<PatternModel>, path: Seq<char>) -> bool {
    exists|i: int| 0 <= i < rules.len() && regex_match(pattern_source(#[trigger] rules[i]), path)
}

/// The children worth watching, in listing order: those whose path matches
/// some rule's expression.
pub open spec fn relevant_children(
    rules: Seq<PatternModel>,
    children: Seq<Seq<char>>,
) -> Seq<Seq<char>>
    decreases children.len(),
{
    if children.len() == 0 {
        Seq::empty()
    } else {
        let rest = relevant_children(rules, children.drop_last());
        if structurally_relevant(rules, children.last()) {
            rest.push(children.last())
        } else {
            rest
        }
    }
}

/// The deciding half of a rescan: among the direct children of a rescanned
/// path, pick those matching some rule's path expression; each is to be
/// watched. Listing the children, one level and non-recursively, stays with
/// the caller, as does treating a failed listing as no children at all.
pub fn rescan(children: &Vec<String>, patterns: &Vec<Pattern>) -> (r: Vec<String>)
    ensures
        r@.map_values(|s: String| s@) == relevant_children(
            models_of(patterns@),
            children@.map_values(|s: String| s@),
        ),
{
    let ghost models = models_of(patterns@);
    let ghost kids = children@.map_values(|s: String| s@);
    let mut r: Vec<String> = Vec::new();
    let mut i: usize = 0;
    while i < children.len()
        invariant
            0 <= i <= children@.len(),
            models == models_of(patterns@),
            kids == children@.map_values(|s: String| s@),
            kids.len() == children@.len(),
            r@.map_values(|s: String| s@) == relevant_children(models, kids.take(i as int)),
        decreases children@.len() - i,
    {
        let ghost before = r@.map_values(|s: String| s@);
        let child = &children[i];
        let mut found = false;
        let mut k: usize = 0;
        while k < patterns.len()
            invariant
                0 <= k <= patterns@.len(),
                models == models_of(patterns@),
                models.len() == patterns@.len(),
                child@ == kids[i as int],
                found <==> (exists|t: int|
                    0 <= t < k && regex_match(pattern_source(#[trigger] models[t]), child@)),
            decreases patterns@.len() - k,
        {
            if patterns[k].is_path_match(child.as_str()) {
                found = true;
                proof {
                    assert(regex_match(pattern_source(models[k as int]), child@));
                }
            }
            k = k + 1;
        }
        proof {
            assert(found == structurally_relevant(models, kids[i as int]));
            assert(kids.take(i + 1).drop_last() =~= kids.take(i as int));
            assert(kids.take(i + 1).last() == kids[i as int]);
        }
        if found {
            r.push(child.clone());
            proof {
                assert(r@.map_values(|s: String| s@) =~= before.push(kids[i as int]));
            }
        }
        i = i + 1;
    }
    proof {
        assert(kids.take(children@.len() as int) =~= kids);
    }
    r
}

} // verus!
