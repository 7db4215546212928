use permswatcher::pattern::{Operation, Pattern};
use permswatcher::task::{conduct_tasks, permission_check, Task};

#[test]
fn permission_check_within_mask_is_clean() {
    assert!(!permission_check(0o750, 0o750));
    assert!(!permission_check(0o700, 0o750));
    assert!(!permission_check(0o000, 0o750));
}

#[test]
fn permission_check_reports_extra_bits() {
    assert!(permission_check(0o770, 0o750));
    assert!(permission_check(0o644, 0o600));
    assert!(permission_check(0o751, 0o750));
}

#[test]
fn failed_check_names_actual_and_expected() {
    let p = Pattern::new(
        String::from("USR authorized_keys file"),
        Operation::Chmod,
        String::from("/vsc[0-9]{3}/vsc[0-9]{5}/.ssh/authorized_keys$"),
        0o600,
        vec![Task::PermissionCheck],
        String::from("/home/gent"),
    )
    .expect("pattern must build");
    let path = "/home/gent/vsc100/vsc12345/.ssh/authorized_keys";
    let plan = conduct_tasks(&p, path, 0o644);
    assert_eq!(plan.violations.len(), 1);
    assert_eq!(plan.violations[0].path, path);
    assert_eq!(plan.violations[0].actual, 0o644);
    assert_eq!(plan.violations[0].expected, 0o600);
    assert!(plan.watch_requests.is_empty());
    assert!(plan.rescan_requests.is_empty());
}

#[test]
fn passing_check_reports_nothing() {
    let p = Pattern::new(
        String::from("USR authorized_keys file"),
        Operation::Chmod,
        String::from("/vsc[0-9]{3}/vsc[0-9]{5}/.ssh/authorized_keys$"),
        0o600,
        vec![Task::PermissionCheck],
        String::from("/home/gent"),
    )
    .expect("pattern must build");
    let plan = conduct_tasks(&p, "/home/gent/vsc100/vsc12345/.ssh/authorized_keys", 0o600);
    assert!(plan.violations.is_empty());
    assert!(plan.watch_requests.is_empty());
    assert!(plan.rescan_requests.is_empty());
}

#[test]
fn tasks_run_in_declaration_order() {
    let p = Pattern::new(
        String::from("USR grouping dir"),
        Operation::Create,
        String::from("/vsc[0-9]{3}$"),
        0o750,
        vec![Task::AddWatcher, Task::Rescan],
        String::from("/home/gent"),
    )
    .expect("pattern must build");
    let plan = conduct_tasks(&p, "/home/gent/vsc100", 0o750);
    assert!(plan.violations.is_empty());
    assert_eq!(plan.watch_requests, vec![String::from("/home/gent/vsc100")]);
    assert_eq!(plan.rescan_requests, vec![String::from("/home/gent/vsc100")]);
}

#[test]
fn one_failing_task_keeps_later_tasks_running() {
    let p = Pattern::new(
        String::from("check then watch"),
        Operation::Chmod,
        String::from("/vsc[0-9]{3}$"),
        0o750,
        vec![Task::PermissionCheck, Task::AddWatcher, Task::Rescan],
        String::from("/home/gent"),
    )
    .expect("pattern must build");
    let plan = conduct_tasks(&p, "/home/gent/vsc100", 0o777);
    assert_eq!(plan.violations.len(), 1);
    assert_eq!(plan.watch_requests.len(), 1);
    assert_eq!(plan.rescan_requests.len(), 1);
}
