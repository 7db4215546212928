//! The action vocabulary and the dispatcher that turns a matched pattern's
//! task list into a plan of concrete actions.

use vstd::prelude::*;

use crate::pattern::Pattern;

verus! {

/// A single action kind, carried out when a pattern matches an observed
/// event. The order of tasks within a pattern's task list is significant:
/// they run in declaration order.
#[derive(Clone, Copy, Debug, PartialEq, Eq, Structural)]
pub enum Task {
    /// Check that the observed permission bits stay within the pattern's mask.
    PermissionCheck,
    /// Subscribe the observed path to future change notifications.
    AddWatcher,
    /// List the observed path's direct children for further watch targets.
    Rescan,
}

/// Observed permission bits violate a mask when bits outside the mask are
/// set: adding the observed bits to the mask then changes it.
pub open spec fn permission_violation(mask: u32, mode: u32) -> bool {
    (mask | mode) != mask
}

/// Check the observed permission bits against the maximal allowed mask.
/// Detection only: a violation is reported, never corrected.
pub fn permission_check(mode: u32, permission_mask: u32) -> (violation: bool)
    ensures
        violation == permission_violation(permission_mask, mode),
{
    permission_mask | mode != permission_mask
}

/// A mask is violated exactly when some observed bit lies outside it.
pub proof fn lemma_violation_iff_extra_bits(mask: u32, mode: u32)
    ensures
        permission_violation(mask, mode) <==> mode & !mask != 0,
{
    assert((mask | mode != mask) <==> mode & !mask != 0) by (bit_vector);
}

/// A detected permission violation: the path whose bits were checked, the
/// bits observed on it, and the maximal bits the matched rule allows.
pub struct Violation {
    pub path: String,
    pub actual: u32,
    pub expected: u32,
}

/// The mathematical content of a violation report.
#[verifier::ext_equal]
pub struct ViolationModel {
    pub path: Seq<char>,
    pub actual: u32,
    pub expected: u32,
}

impl View for Violation {
    type V = ViolationModel;

    open spec fn view(&self) -> ViolationModel {
        ViolationModel { path: self.path@, actual: self.actual, expected: self.expected }
    }
}

/// Everything a matched pattern's task list asks the surrounding program to
/// do for one event: the violations to report, the paths to canonicalize and
/// watch, and the paths whose children to rescan, each in task order.
pub struct DispatchPlan {
    pub violations: Vec<Violation>,
    pub watch_requests: Vec<String>,
    pub rescan_requests: Vec<String>,
}

/// The mathematical content of a dispatch plan.
#[verifier::ext_equal]
pub struct PlanModel {
    pub violations: Seq<ViolationModel>,
    pub watches: Seq<Seq<char>>,
    pub rescans: Seq<Seq<char>>,
}

impl View for DispatchPlan {
    type V = PlanModel;

    open spec fn view(&self) -> PlanModel {
        PlanModel {
            violations: self.violations@.map_values(|v: Violation| v@),
            watches: self.watch_requests@.map_values(|s: String| s@),
            rescans: self.rescan_requests@.map_values(|s: String| s@),
        }
    }
}

/// The empty plan: nothing to report, watch or rescan.
pub open spec fn empty_plan() -> PlanModel {
    PlanModel { violations: Seq::empty(), watches: Seq::empty(), rescans: Seq::empty() }
}

/// The plan a task list produces for an observed path with the given
/// permission bits, under a rule's mask: each task appends its action, in
/// declaration order. A failing permission check appends a violation naming
/// the actual against the expected bits; a passing one appends nothing.
pub open spec fn task_plan(tasks: Seq<Task>, path: Seq<char>, mode: u32, mask: u32) -> PlanModel
    decreases tasks.len(),
{
    if tasks.len() == 0 {
        empty_plan()
    } else {
        let rest = task_plan(tasks.drop_last(), path, mode, mask);
        match tasks.last() {
            Task::PermissionCheck => if permission_violation(mask, mode) {
                PlanModel {
                    violations: rest.violations.push(
                        ViolationModel { path, actual: mode, expected: mask },
                    ),
                    ..rest
                }
            } else {
                rest
            },
            Task::AddWatcher => PlanModel { watches: rest.watches.push(path), ..rest },
            Task::Rescan => PlanModel { rescans: rest.rescans.push(path), ..rest },
        }
    }
}

/// Run a matched pattern's tasks, in order, against the observed path and
/// its permission bits. Each task only records what it asks for, so no task
/// can keep a later one from running; the caller carries the plan out and
/// handles each entry's failure on its own.
pub fn conduct_tasks(pattern: &Pattern, path: &str, mode: u32) -> (plan: DispatchPlan)
    ensures
        plan@ == task_plan(pattern@.tasks, path@, mode, pattern@.mask),
{
    let tasks = pattern.tasks();
    let mask = pattern.permission_mask();
    let mut violations: Vec<Violation> = Vec::new();
    let mut watch_requests: Vec<String> = Vec::new();
    let mut rescan_requests: Vec<String> = Vec::new();
    let mut i: usize = 0;
    while i < tasks.len()
        invariant
            0 <= i <= tasks@.len(),
            tasks@ == pattern@.tasks,
            mask == pattern@.mask,
            violations@.map_values(|v: Violation| v@) == task_plan(
                tasks@.take(i as int),
                path@,
                mode,
                mask,
            ).violations,
            watch_requests@.map_values(|s: String| s@) == task_plan(
                tasks@.take(i as int),
                path@,
                mode,
                mask,
            ).watches,
            rescan_requests@.map_values(|s: String| s@) == task_plan(
                tasks@.take(i as int),
                path@,
                mode,
                mask,
            ).rescans,
        decreases tasks@.len() - i,
    {
        proof {
            assert(tasks@.take(i + 1).drop_last() =~= tasks@.take(i as int));
            assert(tasks@.take(i + 1).last() == tasks@[i as int]);
        }
        let ghost before = task_plan(tasks@.take(i as int), path@, mode, mask);
        match tasks[i] {
            Task::PermissionCheck => {
                if permission_check(mode, mask) {
                    violations.push(
                        Violation { path: path.to_owned(), actual: mode, expected: mask },
                    );
                    proof {
                        assert(violations@.map_values(|v: Violation| v@) =~= before.violations.push(
                            ViolationModel { path: path@, actual: mode, expected: mask },
                        ));
                    }
                }
            },
            Task::AddWatcher => {
                watch_requests.push(path.to_owned());
                proof {
                    assert(watch_requests@.map_values(|s: String| s@) =~= before.watches.push(
                        path@,
                    ));
                }
            },
            Task::Rescan => {
                rescan_requests.push(path.to_owned());
                proof {
                    assert(rescan_requests@.map_values(|s: String| s@) =~= before.rescans.push(
                        path@,
                    ));
                }
            },
        }
        i = i + 1;
    }
    proof {
        assert(tasks@.take(tasks@.len() as int) =~= tasks@);
    }
    let plan = DispatchPlan { violations, watch_requests, rescan_requests };
    proof {
        assert(plan@ =~~= task_plan(pattern@.tasks, path@, mode, pattern@.mask));
    }
    plan
}

} // verus!
