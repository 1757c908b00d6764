//! Expansion of a leading `~` in a user-supplied path.
use vstd::prelude::*;

verus! {

/// A path carries the home marker when it is `~` alone or starts with `~/`.
pub open spec fn has_home_marker(p: Seq<char>) -> bool {
    p == seq!['~'] || (p.len() >= 2 && p[0] == '~' && p[1] == '/')
}

/// What expanding `p` gives when the home directory is `home`
/// (`None`: the platform could not tell).
pub open spec fn expanded(p: Seq<char>, home: Option<Seq<char>>) -> Option<Seq<char>> {
    if !has_home_marker(p) {
        Some(p)
    } else {
        match home {
            None => None,
            Some(h) => if p.len() == 1 {
                Some(h)
            } else if h.len() > 0 && h.last() == '/' {
                // home already ends in a separator (the root does): add none
                Some(h + p.subrange(2, p.len() as int))
            } else {
                Some(h + seq!['/'] + p.subrange(2, p.len() as int))
            },
        }
    }
}

/// A path without the home marker expands to itself, whatever the home
/// directory.
pub proof fn lemma_unmarked_is_identity(p: Seq<char>, home: Option<Seq<char>>)
    requires
        !has_home_marker(p),
    ensures
        expanded(p, home) == Some(p),
{
}

/// The bare marker expands to exactly the home directory.
pub proof fn lemma_bare_marker_is_home(h: Seq<char>)
    ensures
        expanded("~"@, Some(h)) == Some(h),
{
    reveal_strlit("~");
    assert("~"@ =~= seq!['~']);
}

/// `~/rest` expands to the home directory, a separator and `rest`; when the
/// home directory already ends in a separator (the root does), to the home
/// directory and `rest`, with no doubled separator.
pub proof fn lemma_marker_with_rest(rest: Seq<char>, h: Seq<char>)
    ensures
        (h.len() == 0 || h.last() != '/') ==> expanded(seq!['~', '/'] + rest, Some(h)) == Some(
            h + seq!['/'] + rest,
        ),
        (h.len() > 0 && h.last() == '/') ==> expanded(seq!['~', '/'] + rest, Some(h)) == Some(
            h + rest,
        ),
        expanded(seq!['~', '/'] + rest, Some(seq!['/'])) == Some(seq!['/'] + rest),
{
    let p = seq!['~', '/'] + rest;
    assert(p[0] == '~' && p[1] == '/');
    assert(p.subrange(2, p.len() as int) =~= rest);
    assert(seq!['/'].last() == '/');
}

/// An optional string, as chars.
pub open spec fn opt_chars(o: Option<String>) -> Option<Seq<char>> {
    match o {
        Some(s) => Some(s@),
        None => None,
    }
}

/// Relies on dirs::home_dir, which reads the environment (`$HOME`, or the
/// password database): nothing is stated of its answer.
#[verifier::external_body]
pub(crate) fn platform_home_dir() -> (r: Option<String>) {
    dirs::home_dir().map(|h| h.to_string_lossy().into_owned())
}

fn ends_with_separator(h: &str) -> (r: bool)
    ensures
        r == (h@.len() > 0 && h@.last() == '/'),
{
    let n = h.unicode_len();
    n > 0 && h.get_char(n - 1) == '/'
}

/// Expands `p` against the given home directory.
pub fn expand_tilde_with_home(p: &str, home: Option<&str>) -> (r: Option<String>)
    ensures
        opt_chars(r) == expanded(
            p@,
            match home {
                Some(h) => Some(h@),
                None => None,
            },
        ),
{
    let n = p.unicode_len();
    let marked = n >= 1 && p.get_char(0) == '~' && (n == 1 || p.get_char(1) == '/');
    proof {
        if n == 1 && p@[0] == '~' {
            assert(p@ =~= seq!['~']);
        }
    }
    if !marked {
        return Some(String::from_str(p));
    }
    match home {
        None => None,
        Some(h) => {
            if n == 1 {
                Some(String::from_str(h))
            } else if ends_with_separator(h) {
                let rest = p.substring_char(2, n);
                let joined = String::from_str(h).concat(rest);
                Some(joined)
            } else {
                let rest = p.substring_char(2, n);
                let joined = String::from_str(h).concat("/").concat(rest);
                proof {
                    reveal_strlit("/");
                    assert(joined@ =~= h@ + seq!['/'] + p@.subrange(2, p@.len() as int));
                }
                Some(joined)
            }
        },
    }
}

/// Expands `p` against the current user's home directory. A path without the
/// marker comes back unchanged; otherwise the result is the expansion against
/// whatever home directory the platform reported.
pub fn expand_tilde(p: &str) -> (r: Option<String>)
    ensures
        !has_home_marker(p@) ==> opt_chars(r) == Some(p@),
        exists|home: Option<Seq<char>>| opt_chars(r) == #[trigger] expanded(p@, home),
{
    let home = platform_home_dir();
    let r = match &home {
        Some(h) => expand_tilde_with_home(p, Some(h.as_str())),
        None => expand_tilde_with_home(p, None),
    };
    r
}

} // verus!
