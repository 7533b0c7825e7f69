//! The operation domain model: resolved paths, the closed set of requested
//! actions, the driver capability that applies them, and the error taxonomy.

use vstd::prelude::*;

use crate::paths::is_home_prefixed;
use crate::paths::lemma_resolve_absolute_result;
use crate::paths::spec_is_absolute;
use crate::paths::spec_join;
use crate::paths::spec_resolve;

verus! {

/// An absolute, canonical filesystem path, derived once from a raw string,
/// a home directory and a working directory.  Nothing downstream resolves
/// it any further.
#[derive(Clone, Debug, PartialEq, Eq)]
pub struct OperationPath {
    pub location: String,
}

impl OperationPath {
    /// The invariant that construction establishes: the location is absolute.
    pub open spec fn wf(&self) -> bool {
        spec_is_absolute(self.location@)
    }

    /// Resolves `location` against the working directory and the home
    /// directory: a `~/` prefix resolves the remainder against `home`, an
    /// absolute path stands unchanged, and anything else resolves against
    /// `working_dir`.
    pub fn new(working_dir: &str, home: &str, location: &str) -> (r: OperationPath)
        requires
            spec_is_absolute(working_dir@),
            spec_is_absolute(home@),
        ensures
            r.location@ == spec_resolve(working_dir@, home@, location@),
            r.wf(),
    {
        let resolved = if is_home_prefixed(location) {
            let rest = location.substring_char(2, location.unicode_len());
            Self::canonical_path(home, rest)
        } else {
            Self::canonical_path(working_dir, location)
        };
        proof {
            lemma_resolve_absolute_result(working_dir@, home@, location@);
        }
        OperationPath { location: resolved }
    }

    /// A path that is already absolute stands unchanged; a relative one is
    /// joined onto the given base directory.
    pub fn canonical_path(working_dir: &str, from: &str) -> (r: String)
        ensures
            r@ == spec_join(working_dir@, from@),
    {
        crate::paths::canonical_path(working_dir, from)
    }
}

/// One requested action, with every path already resolved: the operation
/// carries no unresolved home or working-directory context.
#[derive(Clone, Debug, PartialEq, Eq)]
pub enum Operation {
    Copy { from: OperationPath, to: OperationPath },
    Link { from: OperationPath, to: OperationPath, overwrite: bool },
    Exec { working_dir: String, command: String, args: Vec<String> },
}

impl Operation {
    /// A copy operation whose source and destination are both resolved
    /// against the given directories.
    pub fn new_copy(home: &str, current_dir: &str, to: &str, from: &str) -> (r: Operation)
        requires
            spec_is_absolute(current_dir@),
            spec_is_absolute(home@),
        ensures
            r matches Operation::Copy { from: f, to: t }
                && f.location@ == spec_resolve(current_dir@, home@, from@)
                && t.location@ == spec_resolve(current_dir@, home@, to@),
    {
        Operation::Copy {
            from: OperationPath::new(current_dir, home, from),
            to: OperationPath::new(current_dir, home, to),
        }
    }

    /// A link operation whose source and destination are both resolved
    /// against the given directories.
    pub fn new_link(home: &str, current_dir: &str, to: &str, from: &str, overwrite: bool) -> (r:
        Operation)
        requires
            spec_is_absolute(current_dir@),
            spec_is_absolute(home@),
        ensures
            r matches Operation::Link { from: f, to: t, overwrite: o }
                && f.location@ == spec_resolve(current_dir@, home@, from@)
                && t.location@ == spec_resolve(current_dir@, home@, to@)
                && o == overwrite,
    {
        Operation::Link {
            from: OperationPath::new(current_dir, home, from),
            to: OperationPath::new(current_dir, home, to),
            overwrite,
        }
    }

    /// An exec operation that runs `command` with `args` in the current
    /// directory.
    pub fn new_exec(current_dir: &str, command: String, args: Vec<String>) -> (r: Operation)
        ensures
            r matches Operation::Exec { working_dir: w, command: c, args: a }
                && w@ == current_dir@
                && c == command
                && a == args,
    {
        Operation::Exec { working_dir: current_dir.to_owned(), command, args }
    }
}

/// A command description kept alongside the operation set.
#[derive(Clone, Debug, PartialEq, Eq)]
pub struct OperationCommand {
    pub run: String,
    pub shell: String,
}

/// The two ways a run can be carried out: against the real filesystem, or
/// into an in-memory log.
pub enum DriverTypes {
    Blackhole,
    Io,
}

/// What a failed capability call reports: enough context to render a
/// precise message without re-deriving it.
#[derive(Clone, Debug, PartialEq, Eq)]
pub enum Error {
    Copy { from: String, to: String, cause: String },
    Link { from: String, to: String, cause: String },
    Exec { command: String, args: Vec<String>, working_dir: String, cause: String },
}

/// The mathematical shape of an `Error`, over character sequences.
pub enum ErrorSpec {
    Copy { from: Seq<char>, to: Seq<char>, cause: Seq<char> },
    Link { from: Seq<char>, to: Seq<char>, cause: Seq<char> },
    Exec { command: Seq<char>, args: Seq<Seq<char>>, working_dir: Seq<char>, cause: Seq<char> },
}

impl View for Error {
    type V = ErrorSpec;

    open spec fn view(&self) -> ErrorSpec {
        match self {
            Error::Copy { from, to, cause } => ErrorSpec::Copy {
                from: from@,
                to: to@,
                cause: cause@,
            },
            Error::Link { from, to, cause } => ErrorSpec::Link {
                from: from@,
                to: to@,
                cause: cause@,
            },
            Error::Exec { command, args, working_dir, cause } => ErrorSpec::Exec {
                command: command@,
                args: args.deep_view(),
                working_dir: working_dir@,
                cause: cause@,
            },
        }
    }
}

/// The capability that turns operations into effects.  Each call consumes
/// the driver and hands back its successor, so a run threads one owned
/// driver value through a sequence of calls.
///
/// A driver's observable state is its log view (empty for a driver that
/// records nothing), and each of its step functions says what one
/// capability call does to that state: the new log on success, or the
/// error it reports.  The defaults describe a driver with no observable
/// state at all; a verified driver whose calls leave a trace, or fail,
/// overrides them.  An unverified driver stands outside these
/// descriptions altogether: nothing is claimed or checked about it.
pub trait Driver: Sized {
    /// The ordered log of `(kind, message)` entries this driver has
    /// accumulated.  A driver that records nothing has an empty log
    /// throughout, which the default says.
    open spec fn log_view(&self) -> Seq<(Seq<char>, Seq<char>)> {
        Seq::<(Seq<char>, Seq<char>)>::empty()
    }

    /// What a copy of `from` to `to` does to a log in state `log`.  The
    /// default describes a driver that records nothing.
    open spec fn step_copy(
        log: Seq<(Seq<char>, Seq<char>)>,
        from: Seq<char>,
        to: Seq<char>,
    ) -> Result<Seq<(Seq<char>, Seq<char>)>, ErrorSpec> {
        Ok(log)
    }

    /// What linking `from` to `to` does to a log in state `log`.  The
    /// default describes a driver that records nothing.
    open spec fn step_link(
        log: Seq<(Seq<char>, Seq<char>)>,
        from: Seq<char>,
        to: Seq<char>,
        overwrite: bool,
    ) -> Result<Seq<(Seq<char>, Seq<char>)>, ErrorSpec> {
        Ok(log)
    }

    /// What running `command` with `args` in `working_dir` does to a log in
    /// state `log`.  The default describes a driver that records nothing.
    open spec fn step_exec(
        log: Seq<(Seq<char>, Seq<char>)>,
        working_dir: Seq<char>,
        command: Seq<char>,
        args: Seq<Seq<char>>,
    ) -> Result<Seq<(Seq<char>, Seq<char>)>, ErrorSpec> {
        Ok(log)
    }

    /// Duplicate the contents of `from` into `to`.
    fn copy(self, from: &str, to: &str) -> (r: Result<Self, Error>)
        ensures
            match Self::step_copy(self.log_view(), from@, to@) {
                Ok(entries) => r matches Ok(d) && d.log_view() == entries,
                Err(e) => r matches Err(f) && f@ == e,
            },
    ;

    /// Create a symbolic link at `to` pointing at `from`; `overwrite`
    /// controls whether a plain file already at `to` may be deleted first.
    fn link(self, from: &str, to: &str, overwrite: bool) -> (r: Result<Self, Error>)
        ensures
            match Self::step_link(self.log_view(), from@, to@, overwrite) {
                Ok(entries) => r matches Ok(d) && d.log_view() == entries,
                Err(e) => r matches Err(f) && f@ == e,
            },
    ;

    /// Run `command` with `args` in `working_dir`.
    fn exec(self, working_dir: &str, command: &str, args: &Vec<String>) -> (r: Result<Self, Error>)
        ensures
            match Self::step_exec(self.log_view(), working_dir@, command@, args.deep_view()) {
                Ok(entries) => r matches Ok(d) && d.log_view() == entries,
                Err(e) => r matches Err(f) && f@ == e,
            },
    ;
}

} // verus!
