//! Rules: a pattern binds a filesystem-change operation and a path shape to
//! a permission expectation and an ordered list of tasks.

use vstd::prelude::*;

use crate::task::Task;

verus! {

/// The kind of filesystem change an observed event reports. Only creation
/// and permission change drive the predefined rules; the remaining kinds are
/// observed, never acted on.
#[derive(Clone, Copy, Debug, PartialEq, Eq, Structural)]
pub enum Operation {
    Create,
    Chmod,
    Write,
    Remove,
    Rename,
    Other,
}

/// The expression text a compiled regex holds: the string it was built from.
pub uninterp spec fn regex_pattern(re: regex::Regex) -> Seq<char>;

/// Whether compiling an expression succeeds. With the default configuration,
/// compilation succeeds or fails as a function of the expression text alone.
pub uninterp spec fn regex_compiles(pat: Seq<char>) -> bool;

/// Whether an expression matches somewhere in a text: a function of the
/// expression and the text alone.
pub uninterp spec fn regex_match(pat: Seq<char>, text: Seq<char>) -> bool;

#[verifier::external_type_specification]
#[verifier::external_body]
pub struct ExRegex(regex::Regex);

/// Relies on `regex::Regex::new`: with the default configuration it succeeds
/// or fails as a function of the expression text alone, and the compiled
/// value keeps that text as its pattern.
#[verifier::external_body]
fn regex_new(src: &str) -> (r: Option<regex::Regex>)
    ensures
        r is Some <==> regex_compiles(src@),
        r matches Some(re) ==> regex_pattern(re) == src@,
{
    regex::Regex::new(src).ok()
}

/// Relies on `regex::Regex::is_match`: whether there is a match anywhere in
/// the text, a function of the compiled expression and the text alone.
#[verifier::external_body]
fn regex_is_match(re: &regex::Regex, text: &str) -> (r: bool)
    ensures
        r == regex_match(regex_pattern(*re), text@),
{
    re.is_match(text)
}

/// The mathematical content of a pattern.
#[verifier::ext_equal]
pub struct PatternModel {
    /// Human-readable label, for diagnostics only.
    pub name: Seq<char>,
    /// The one change operation this rule reacts to.
    pub op: Operation,
    /// The base directory the path expression is anchored to.
    pub base: Seq<char>,
    /// The relative sub-pattern appended to the base.
    pub sub: Seq<char>,
    /// The maximal permission bit-set allowed by `PermissionCheck` tasks.
    pub mask: u32,
    /// The actions to carry out, in order, when the pattern matches.
    pub tasks: Seq<Task>,
}

/// The full expression a pattern's predicate is compiled from: the base
/// directory anchored at the start of the path, then the sub-pattern.
pub open spec fn pattern_source(m: PatternModel) -> Seq<char> {
    seq!['^'] + m.base + m.sub
}

/// An absolute path string: one that begins with the root separator.
pub open spec fn is_absolute(s: Seq<char>) -> bool {
    s.len() > 0 && s[0] == '/'
}

/// A pattern matches an observed (path, operation) pair iff the operation is
/// the one the pattern listens for and the anchored expression matches the
/// path string.
pub open spec fn pattern_matches(m: PatternModel, path: Seq<char>, op: Operation) -> bool {
    op == m.op && regex_match(pattern_source(m), path)
}

/// An immutable rule: a compiled path predicate anchored to an absolute base
/// directory, the operation it listens for, the permission mask it allows,
/// and the tasks to run on a match.
pub struct Pattern {
    name: String,
    op: Operation,
    regex: regex::Regex,
    base: String,
    sub: String,
    permission_mask: u32,
    tasks: Vec<Task>,
}

impl View for Pattern {
    type V = PatternModel;

    closed spec fn view(&self) -> PatternModel {
        PatternModel {
            name: self.name@,
            op: self.op,
            base: self.base@,
            sub: self.sub@,
            mask: self.permission_mask,
            tasks: self.tasks@,
        }
    }
}

impl Pattern {
    #[verifier::type_invariant]
    spec fn wf(self) -> bool {
        &&& regex_pattern(self.regex) == pattern_source(self.view())
        &&& is_absolute(self.base@)
    }

    /// Build a rule. The compiled expression is `^` + `base` + `pattern`, so
    /// it matches only path strings lexically under the base directory.
    /// Construction fails, and the rule set with it, when the base is not an
    /// absolute path or the expression does not compile.
    pub fn new(
        name: String,
        op: Operation,
        pattern: String,
        permission_mask: u32,
        tasks: Vec<Task>,
        base: String,
    ) -> (r: Option<Pattern>)
        ensures
            r is Some <==> is_absolute(base@) && regex_compiles(
                seq!['^'] + base@ + pattern@,
            ),
            r matches Some(p) ==> p@ == (PatternModel {
                name: name@,
                op,
                base: base@,
                sub: pattern@,
                mask: permission_mask,
                tasks: tasks@,
            }),
    {
        if base.as_str().unicode_len() == 0 {
            return None;
        }
        if base.as_str().get_char(0) != '/' {
            return None;
        }
        let src = String::from_str("^").concat(base.as_str()).concat(pattern.as_str());
        proof {
            reveal_strlit("^");
            assert(src@ =~= seq!['^'] + base@ + pattern@);
        }
        match regex_new(src.as_str()) {
            Some(re) => Some(Pattern {
                name,
                op,
                regex: re,
                base,
                sub: pattern,
                permission_mask,
                tasks,
            }),
            None => None,
        }
    }

    /// Whether this rule applies to the observed (path, operation) pair:
    /// the path must satisfy the anchored expression and the operation must
    /// equal the one configured.
    pub fn is_match(&self, path: &str, op: Operation) -> (r: bool)
        ensures
            r == pattern_matches(self@, path@, op),
    {
        proof {
            use_type_invariant(self);
        }
        regex_is_match(&self.regex, path) && op == self.op
    }

    /// Whether the path alone satisfies the anchored expression, whatever the
    /// operation: "would this path ever be relevant". Rescans use this to
    /// discover children worth watching.
    pub fn is_path_match(&self, path: &str) -> (r: bool)
        ensures
            r == regex_match(pattern_source(self@), path@),
    {
        proof {
            use_type_invariant(self);
        }
        regex_is_match(&self.regex, path)
    }

    /// The rule's diagnostic label.
    pub fn name(&self) -> (r: &String)
        ensures
            r@ == self@.name,
    {
        &self.name
    }

    /// The one operation this rule reacts to.
    pub fn operation(&self) -> (r: Operation)
        ensures
            r == self@.op,
    {
        self.op
    }

    /// The maximal permission bit-set this rule allows.
    pub fn permission_mask(&self) -> (r: u32)
        ensures
            r == self@.mask,
    {
        self.permission_mask
    }

    /// The tasks to run, in order, when this rule matches.
    pub fn tasks(&self) -> (r: &Vec<Task>)
        ensures
            r@ == self@.tasks,
    {
        &self.tasks
    }
}

/// The predefined rule table: the rules the watcher starts with when no
/// external configuration supplies any.
pub open spec fn predefined_models() -> Seq<PatternModel> {
    seq![
        PatternModel {
            name: "USR grouping dir"@,
            op: Operation::Create,
            base: "/vulpix/home/gent"@,
            sub: "/vsc[0-9]{3}$"@,
            mask: 0o750,
            tasks: seq![Task::AddWatcher, Task::Rescan],
        },
        PatternModel {
            name: "USR personal dir"@,
            op: Operation::Chmod,
            base: "/vulpix/home/gent"@,
            sub: "/vsc[0-9]{3}/vsc[0-9]{5}$"@,
            mask: 0o750,
            tasks: seq![Task::PermissionCheck],
        },
        PatternModel {
            name: "USR personal dir"@,
            op: Operation::Create,
            base: "/vulpix/home/gent"@,
            sub: "/vsc[0-9]{3}/vsc[0-9]{5}$"@,
            mask: 0o750,
            tasks: seq![Task::AddWatcher],
        },
        PatternModel {
            name: "USR authorized_keys file"@,
            op: Operation::Chmod,
            base: "/vulpix/home/gent"@,
            sub: "/vsc[0-9]{3}/vsc[0-9]{5}/.ssh/authorized_keys$"@,
            mask: 0o600,
            tasks: seq![Task::PermissionCheck],
        },
    ]
}

/// Build the predefined rule table. Fails, as a configuration error would,
/// only when one of the predefined expressions does not compile.
pub fn predefined_patterns() -> (r: Option<Vec<Pattern>>)
    ensures
        r matches Some(v) ==> v@.map_values(|p: Pattern| p@) == predefined_models(),
        r is Some <==> (forall|i: int|
            0 <= i < predefined_models().len() ==> regex_compiles(
                pattern_source(#[trigger] predefined_models()[i]),
            )),
{
    let base = "/vulpix/home/gent";
    proof {
        reveal_strlit("/vulpix/home/gent");
    }
    let p0 = Pattern::new(
        String::from_str("USR grouping dir"),
        Operation::Create,
        String::from_str("/vsc[0-9]{3}$"),
        0o750,
        vec![Task::AddWatcher, Task::Rescan],
        String::from_str(base),
    );
    let p1 = Pattern::new(
        String::from_str("USR personal dir"),
        Operation::Chmod,
        String::from_str("/vsc[0-9]{3}/vsc[0-9]{5}$"),
        0o750,
        vec![Task::PermissionCheck],
        String::from_str(base),
    );
    let p2 = Pattern::new(
        String::from_str("USR personal dir"),
        Operation::Create,
        String::from_str("/vsc[0-9]{3}/vsc[0-9]{5}$"),
        0o750,
        vec![Task::AddWatcher],
        String::from_str(base),
    );
    let p3 = Pattern::new(
        String::from_str("USR authorized_keys file"),
        Operation::Chmod,
        String::from_str("/vsc[0-9]{3}/vsc[0-9]{5}/.ssh/authorized_keys$"),
        0o600,
        vec![Task::PermissionCheck],
        String::from_str(base),
    );
    proof {
        assert(pattern_source(predefined_models()[0]) =~= seq!['^'] + "/vulpix/home/gent"@
            + "/vsc[0-9]{3}$"@);
        assert(pattern_source(predefined_models()[1]) =~= seq!['^'] + "/vulpix/home/gent"@
            + "/vsc[0-9]{3}/vsc[0-9]{5}$"@);
        assert(pattern_source(predefined_models()[2]) =~= seq!['^'] + "/vulpix/home/gent"@
            + "/vsc[0-9]{3}/vsc[0-9]{5}$"@);
        assert(pattern_source(predefined_models()[3]) =~= seq!['^'] + "/vulpix/home/gent"@
            + "/vsc[0-9]{3}/vsc[0-9]{5}/.ssh/authorized_keys$"@);
    }
    match (p0, p1, p2, p3) {
        (Some(q0), Some(q1), Some(q2), Some(q3)) => {
            let mut m: Vec<Pattern> = Vec::new();
            m.push(q0);
            m.push(q1);
            m.push(q2);
            m.push(q3);
            proof {
                assert(m@.map_values(|p: Pattern| p@) =~~= predefined_models());
            }
            Some(m)
        },
        _ => None,
    }
}

/// Changing only the operation of an otherwise matching (path, operation)
/// pair flips the match result: a pattern agrees with a pair iff both the
/// operation and the anchored path expression agree.
pub proof fn lemma_operation_discriminates(
    m: PatternModel,
    path: Seq<char>,
    op: Operation,
    other: Operation,
)
    requires
        pattern_matches(m, path, op),
        other != op,
    ensures
        !pattern_matches(m, path, other),
{
}

} // verus!
