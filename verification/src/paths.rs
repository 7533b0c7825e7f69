//! Path resolution: pure string arithmetic that turns a raw, user-supplied
//! path into an absolute one, given a home directory and a working directory.
//! No filesystem is consulted; resolution succeeds for paths that do not
//! exist yet.

use vstd::prelude::*;

verus! {

/// A path is absolute when it begins with the separator.
pub open spec fn spec_is_absolute(s: Seq<char>) -> bool {
    s.len() > 0 && s[0] == '/'
}

/// Joining `path` onto `base`: an absolute `path` stands on its own, and
/// otherwise exactly one separator is placed between the two parts.
pub open spec fn spec_join(base: Seq<char>, path: Seq<char>) -> Seq<char> {
    if spec_is_absolute(path) {
        path
    } else if base.len() > 0 && base[base.len() - 1] == '/' {
        base + path
    } else {
        base + "/"@ + path
    }
}

/// A raw path that asks to be resolved against the home directory.
pub open spec fn spec_home_prefixed(s: Seq<char>) -> bool {
    s.len() >= 2 && s[0] == '~' && s[1] == '/'
}

/// The full resolution rule, first match wins: a `~/` prefix resolves the
/// remainder against `home`; an absolute path stands unchanged; anything
/// else resolves against `working_dir`.
pub open spec fn spec_resolve(working_dir: Seq<char>, home: Seq<char>, raw: Seq<char>) -> Seq<char> {
    if spec_home_prefixed(raw) {
        spec_join(home, raw.skip(2))
    } else {
        spec_join(working_dir, raw)
    }
}

/// Resolution yields an absolute path whenever both directories are absolute.
pub proof fn lemma_resolve_absolute_result(working_dir: Seq<char>, home: Seq<char>, raw: Seq<char>)
    requires
        spec_is_absolute(working_dir),
        spec_is_absolute(home),
    ensures
        spec_is_absolute(spec_resolve(working_dir, home, raw)),
{
}

/// For every raw path with a `~/` prefix, resolution joins the remainder
/// onto the home directory; the working directory plays no part.
pub proof fn lemma_resolve_home(working_dir: Seq<char>, home: Seq<char>, raw: Seq<char>)
    requires
        spec_home_prefixed(raw),
    ensures
        spec_resolve(working_dir, home, raw) == spec_join(home, raw.skip(2)),
{
}

/// For every absolute raw path, resolution returns it unchanged, whatever
/// the working directory and home directory are.
pub proof fn lemma_resolve_absolute(working_dir: Seq<char>, home: Seq<char>, raw: Seq<char>)
    requires
        spec_is_absolute(raw),
    ensures
        spec_resolve(working_dir, home, raw) == raw,
{
}

/// For every relative raw path without a `~/` prefix, resolution joins it
/// onto the working directory.
pub proof fn lemma_resolve_relative(working_dir: Seq<char>, home: Seq<char>, raw: Seq<char>)
    requires
        !spec_is_absolute(raw),
        !spec_home_prefixed(raw),
    ensures
        spec_resolve(working_dir, home, raw) == spec_join(working_dir, raw),
{
}

/// Whether `s` begins with the separator.
pub fn is_absolute(s: &str) -> (r: bool)
    ensures
        r == spec_is_absolute(s@),
{
    if s.unicode_len() == 0 {
        false
    } else {
        s.get_char(0) == '/'
    }
}

/// Whether `s` begins with the literal prefix `~/`.
pub fn is_home_prefixed(s: &str) -> (r: bool)
    ensures
        r == spec_home_prefixed(s@),
{
    if s.unicode_len() < 2 {
        false
    } else {
        s.get_char(0) == '~' && s.get_char(1) == '/'
    }
}

/// A path that is already absolute stands unchanged; a relative one is
/// joined onto the working directory.
pub fn canonical_path(working_dir: &str, from: &str) -> (r: String)
    ensures
        r@ == spec_join(working_dir@, from@),
{
    if is_absolute(from) {
        from.to_owned()
    } else {
        let mut joined = String::from_str(working_dir);
        let base_len = working_dir.unicode_len();
        if base_len == 0 || working_dir.get_char(base_len - 1) != '/' {
            joined.append("/");
        }
        joined.append(from);
        joined
    }
}

/// The canonical form of a copy source: relative sources live in the
/// working directory.
pub fn canonical_from(working_dir: &str, from: &str) -> (r: String)
    ensures
        r@ == spec_join(working_dir@, from@),
{
    canonical_path(working_dir, from)
}

/// The canonical form of a destination: a `~/` prefix is traded for the
/// home directory before the result is grounded in the working directory.
pub fn canonical_to(home_dir: &str, working_dir: &str, to: &str) -> (r: String)
    ensures
        r@ == (if spec_home_prefixed(to@) {
            spec_join(working_dir@, spec_join(home_dir@, to@.skip(2)))
        } else {
            spec_join(working_dir@, to@)
        }),
{
    if is_home_prefixed(to) {
        let rest = to.substring_char(2, to.unicode_len());
        let in_home = canonical_path(home_dir, rest);
        canonical_path(working_dir, in_home.as_str())
    } else {
        canonical_path(working_dir, to)
    }
}

} // verus!
