use permswatcher::matcher::{select, MatchOutcome};
use permswatcher::pattern::predefined_patterns;
use permswatcher::pattern::{Operation, Pattern};
use permswatcher::task::Task;

#[test]
fn no_match_for_unconfigured_path() {
    let patterns = predefined_patterns().expect("predefined table must build");
    assert_eq!(select(&patterns, "/etc/passwd", Operation::Create), MatchOutcome::NoMatch);
}

#[test]
fn single_match_selects_the_rule() {
    let patterns = predefined_patterns().expect("predefined table must build");
    assert_eq!(
        select(&patterns, "/vulpix/home/gent/vsc123", Operation::Create),
        MatchOutcome::SingleMatch(0)
    );
    assert_eq!(
        select(&patterns, "/vulpix/home/gent/vsc123/vsc12345", Operation::Chmod),
        MatchOutcome::SingleMatch(1)
    );
    assert_eq!(
        select(&patterns, "/vulpix/home/gent/vsc123/vsc12345", Operation::Create),
        MatchOutcome::SingleMatch(2)
    );
    assert_eq!(
        select(
            &patterns,
            "/vulpix/home/gent/vsc123/vsc12345/.ssh/authorized_keys",
            Operation::Chmod
        ),
        MatchOutcome::SingleMatch(3)
    );
}

#[test]
fn predefined_rules_never_ambiguous() {
    let patterns = predefined_patterns().expect("predefined table must build");
    let paths = [
        "/vulpix/home/gent/vsc123",
        "/vulpix/home/gent/vsc123/vsc12345",
        "/vulpix/home/gent/vsc123/vsc12345/.ssh/authorized_keys",
        "/vulpix/home/gent",
        "/vulpix/home/gent/vsc123/other",
        "/somewhere/else",
    ];
    let ops = [
        Operation::Create,
        Operation::Chmod,
        Operation::Write,
        Operation::Remove,
        Operation::Rename,
        Operation::Other,
    ];
    for path in paths.iter() {
        for op in ops.iter() {
            let outcome = select(&patterns, path, *op);
            assert_ne!(outcome, MatchOutcome::AmbiguousMatch, "ambiguous for {path}");
        }
    }
}

#[test]
fn overlapping_rules_are_ambiguous() {
    let make = || {
        Pattern::new(
            String::from("duplicate"),
            Operation::Create,
            String::from("/vsc[0-9]{3}$"),
            0o750,
            vec![Task::AddWatcher],
            String::from("/home/gent"),
        )
        .expect("pattern must build")
    };
    let patterns = vec![make(), make()];
    assert_eq!(
        select(&patterns, "/home/gent/vsc100", Operation::Create),
        MatchOutcome::AmbiguousMatch
    );
}
