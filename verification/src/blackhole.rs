//! The recording driver: it never touches the filesystem or spawns a
//! process.  Each capability call appends a human-readable description of
//! the would-be action to an in-memory log and always succeeds, so a
//! dry-run hands the whole log back to the caller.

use vstd::prelude::*;

use crate::domain;
use crate::domain::Error;
use crate::domain::ErrorSpec;

verus! {

/// The description a copy leaves in the log.
pub open spec fn spec_copy_message(from: Seq<char>, to: Seq<char>) -> Seq<char> {
    from + " -> "@ + to
}

/// How a boolean reads in a log message.
pub open spec fn spec_bool_text(b: bool) -> Seq<char> {
    if b {
        "true"@
    } else {
        "false"@
    }
}

/// The description a link leaves in the log.
pub open spec fn spec_link_message(from: Seq<char>, overwrite: bool, to: Seq<char>) -> Seq<char> {
    from + " -> (overwriting: "@ + spec_bool_text(overwrite) + ") "@ + to
}

/// Arguments listed in order, separated by a comma and a space.
pub open spec fn spec_args_list(args: Seq<Seq<char>>) -> Seq<char>
    decreases args.len(),
{
    if args.len() == 0 {
        Seq::<char>::empty()
    } else if args.len() == 1 {
        args[0]
    } else {
        args[0] + ", "@ + spec_args_list(args.skip(1))
    }
}

/// The description an exec leaves in the log.
pub open spec fn spec_exec_message(
    working_dir: Seq<char>,
    command: Seq<char>,
    args: Seq<Seq<char>>,
) -> Seq<char> {
    "in "@ + working_dir + " "@ + command + " ["@ + spec_args_list(args) + "]"@
}

/// The whole `(kind, message)` entry a copy appends.
pub open spec fn spec_copy_entry(from: Seq<char>, to: Seq<char>) -> (Seq<char>, Seq<char>) {
    ("copy"@, spec_copy_message(from, to))
}

/// The whole `(kind, message)` entry a link appends.
pub open spec fn spec_link_entry(from: Seq<char>, overwrite: bool, to: Seq<char>) -> (
    Seq<char>,
    Seq<char>,
) {
    ("link"@, spec_link_message(from, overwrite, to))
}

/// The whole `(kind, message)` entry an exec appends.
pub open spec fn spec_exec_entry(
    working_dir: Seq<char>,
    command: Seq<char>,
    args: Seq<Seq<char>>,
) -> (Seq<char>, Seq<char>) {
    ("exec"@, spec_exec_message(working_dir, command, args))
}

/// Appending one more argument extends the list with a separator, unless
/// the list was empty.
proof fn lemma_args_list_push(s: Seq<Seq<char>>, x: Seq<char>)
    ensures
        spec_args_list(s.push(x)) == if s.len() == 0 {
            x
        } else {
            spec_args_list(s) + ", "@ + x
        },
    decreases s.len(),
{
    let p = s.push(x);
    if s.len() == 0 {
        assert(p[0] == x);
    } else if s.len() == 1 {
        assert(p[0] == s[0]);
        assert(p.skip(1) =~= seq![x]);
        assert(spec_args_list(seq![x]) == x);
    } else {
        assert(p[0] == s[0]);
        assert(p.skip(1) =~= s.skip(1).push(x));
        lemma_args_list_push(s.skip(1), x);
        assert(spec_args_list(p) =~= spec_args_list(s) + ", "@ + x);
    }
}

/// Builds the copy description.
fn copy_message(from: &str, to: &str) -> (r: String)
    ensures
        r@ == spec_copy_message(from@, to@),
{
    let mut m = String::from_str(from);
    m.append(" -> ");
    m.append(to);
    m
}

/// Builds the link description.
fn link_message(from: &str, overwrite: bool, to: &str) -> (r: String)
    ensures
        r@ == spec_link_message(from@, overwrite, to@),
{
    let mut m = String::from_str(from);
    m.append(" -> (overwriting: ");
    if overwrite {
        m.append("true");
    } else {
        m.append("false");
    }
    m.append(") ");
    m.append(to);
    m
}

/// Builds the comma-separated argument list.
fn args_list(args: &Vec<String>) -> (r: String)
    ensures
        r@ == spec_args_list(args.deep_view()),
{
    let mut out = String::new();
    let n = args.len();
    let mut i: usize = 0;
    while i < n
        invariant
            i <= n,
            n == args@.len(),
            out@ == spec_args_list(args.deep_view().take(i as int)),
        decreases n - i,
    {
        let a = &args[i];
        proof {
            assert(args.deep_view()[i as int] == args@[i as int]@);
        }
        if i > 0 {
            out.append(", ");
        }
        out.append(a.as_str());
        proof {
            lemma_args_list_push(args.deep_view().take(i as int), args.deep_view()[i as int]);
            assert(args.deep_view().take(i as int + 1) =~= args.deep_view().take(i as int).push(
                args.deep_view()[i as int],
            ));
            if i == 0 {
                assert(out@ =~= spec_args_list(args.deep_view().take(1)));
            }
        }
        i = i + 1;
    }
    proof {
        assert(args.deep_view().take(n as int) =~= args.deep_view());
    }
    out
}

/// Builds the exec description.
fn exec_message(working_dir: &str, command: &str, args: &Vec<String>) -> (r: String)
    ensures
        r@ == spec_exec_message(working_dir@, command@, args.deep_view()),
{
    let mut m = String::from_str("in ");
    m.append(working_dir);
    m.append(" ");
    m.append(command);
    m.append(" [");
    let list = args_list(args);
    m.append(list.as_str());
    m.append("]");
    m
}

/// The recording driver.  Its only state is the append-only log, which
/// grows across a whole run and is returned to the caller at the end.
#[derive(Debug, PartialEq, Eq, Clone)]
pub struct Driver {
    pub log: Vec<(String, String)>,
}

impl Driver {
    /// A fresh driver with an empty log.
    pub fn new() -> (r: Driver)
        ensures
            r.log.deep_view() == Seq::<(Seq<char>, Seq<char>)>::empty(),
    {
        let d = Driver { log: Vec::new() };
        proof {
            assert(d.log.deep_view() =~= Seq::<(Seq<char>, Seq<char>)>::empty());
        }
        d
    }

    /// Appends one `(kind, message)` entry.
    pub fn log(&mut self, kind: String, message: String)
        ensures
            final(self).log.deep_view() == old(self).log.deep_view().push((kind@, message@)),
    {
        self.log.push((kind, message));
        proof {
            assert(self.log.deep_view() =~= old(self).log.deep_view().push((kind@, message@)));
        }
    }
}

impl domain::Driver for Driver {
    open spec fn log_view(&self) -> Seq<(Seq<char>, Seq<char>)> {
        self.log.deep_view()
    }

    open spec fn step_copy(log: Seq<(Seq<char>, Seq<char>)>, from: Seq<char>, to: Seq<char>) -> Result<
        Seq<(Seq<char>, Seq<char>)>,
        ErrorSpec,
    > {
        Ok(log.push(spec_copy_entry(from, to)))
    }

    open spec fn step_link(
        log: Seq<(Seq<char>, Seq<char>)>,
        from: Seq<char>,
        to: Seq<char>,
        overwrite: bool,
    ) -> Result<Seq<(Seq<char>, Seq<char>)>, ErrorSpec> {
        Ok(log.push(spec_link_entry(from, overwrite, to)))
    }

    open spec fn step_exec(
        log: Seq<(Seq<char>, Seq<char>)>,
        working_dir: Seq<char>,
        command: Seq<char>,
        args: Seq<Seq<char>>,
    ) -> Result<Seq<(Seq<char>, Seq<char>)>, ErrorSpec> {
        Ok(log.push(spec_exec_entry(working_dir, command, args)))
    }

    fn copy(self, from: &str, to: &str) -> (r: Result<Self, Error>) {
        let mut next = self;
        let message = copy_message(from, to);
        next.log("copy".to_owned(), message);
        Ok(next)
    }

    fn link(self, from: &str, to: &str, overwrite: bool) -> (r: Result<Self, Error>) {
        let mut next = self;
        let message = link_message(from, overwrite, to);
        next.log("link".to_owned(), message);
        Ok(next)
    }

    fn exec(self, working_dir: &str, command: &str, args: &Vec<String>) -> (r: Result<
        Self,
        Error,
    >) {
        let mut next = self;
        let message = exec_message(working_dir, command, args);
        next.log("exec".to_owned(), message);
        Ok(next)
    }
}

} // verus!
