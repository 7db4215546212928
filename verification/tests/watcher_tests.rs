use permswatcher::pattern::{Operation, Pattern};
use permswatcher::task::Task;
use permswatcher::watcher::{rescan, Registry};

fn rule_set() -> Vec<Pattern> {
    vec![
        Pattern::new(
            String::from("USR grouping dir"),
            Operation::Create,
            String::from("/vsc[0-9]{3}$"),
            0o750,
            vec![Task::AddWatcher, Task::Rescan],
            String::from("/home/gent"),
        )
        .expect("pattern must build"),
        Pattern::new(
            String::from("USR personal dir"),
            Operation::Create,
            String::from("/vsc[0-9]{3}/vsc[0-9]{5}$"),
            0o750,
            vec![Task::AddWatcher],
            String::from("/home/gent"),
        )
        .expect("pattern must build"),
    ]
}

#[test]
fn add_watch_is_idempotent() {
    let mut registry = Registry::new();
    let path = String::from("/home/gent/vsc100");
    assert!(!registry.contains(&path));
    assert!(registry.add_watch(&path));
    assert!(registry.contains(&path));
    assert!(!registry.add_watch(&path));
    assert!(registry.contains(&path));
}

#[test]
fn distinct_paths_are_both_watched() {
    let mut registry = Registry::new();
    let a = String::from("/home/gent/vsc100");
    let b = String::from("/home/gent/vsc101");
    assert!(registry.add_watch(&a));
    assert!(registry.add_watch(&b));
    assert!(registry.contains(&a));
    assert!(registry.contains(&b));
}

#[test]
fn rescan_keeps_children_matching_some_rule() {
    let patterns = rule_set();
    let children = vec![
        String::from("/home/gent/vsc100/vsc12345"),
        String::from("/home/gent/vsc100/README"),
        String::from("/home/gent/vsc100/vsc99999"),
    ];
    let to_watch = rescan(&children, &patterns);
    assert_eq!(
        to_watch,
        vec![
            String::from("/home/gent/vsc100/vsc12345"),
            String::from("/home/gent/vsc100/vsc99999"),
        ]
    );
}

#[test]
fn rescan_ignores_the_rules_operations() {
    // The rules listen for creation only, but a rescan asks whether the path
    // shape would ever be relevant.
    let patterns = rule_set();
    let children = vec![String::from("/home/gent/vsc123")];
    let to_watch = rescan(&children, &patterns);
    assert_eq!(to_watch, vec![String::from("/home/gent/vsc123")]);
}

#[test]
fn rescan_of_no_children_watches_nothing() {
    let patterns = rule_set();
    let children: Vec<String> = Vec::new();
    assert!(rescan(&children, &patterns).is_empty());
}
