//! Conversion of relative paths to absolute ones, with the separator fixes
//! the Windows host needs.  The working directory is passed in, so the
//! computation itself is a pure function.

use vstd::prelude::*;
use vstd::string::*;
use crate::text;
use crate::version_config::Os;

verus! {

/// `s` with every backslash replaced by a forward slash.
pub open spec fn slashes_forward(s: Seq<char>) -> Seq<char> {
    s.map_values(
        |c: char|
            if c == '\\' {
                '/'
            } else {
                c
            },
    )
}

/// True when the path names a drive at its start (`C:`, `d:`, ...).
pub open spec fn has_drive_prefix(p: Seq<char>) -> bool {
    p.len() > 1 && p[1] == ':'
}

/// True when the path is absolute in the forward-slash sense.
pub open spec fn is_rooted(p: Seq<char>) -> bool {
    p.len() > 0 && p[0] == '/'
}

/// What `normalize_path_to_absolute` returns: the path made absolute against
/// `cwd`, with Windows separators normalized and a spurious leading slash in
/// front of a drive letter removed.
pub open spec fn normalize_spec(p: Seq<char>, cwd: Seq<char>, os: Os) -> Seq<char> {
    if os is Windows {
        if has_drive_prefix(p) {
            slashes_forward(p)
        } else {
            let joined = if is_rooted(p) {
                p
            } else {
                cwd + "/"@ + p
            };
            let fixed = if joined.len() > 2 && joined[0] == '/' && joined[2] == ':' {
                joined.skip(1)
            } else {
                joined
            };
            slashes_forward(fixed)
        }
    } else {
        if is_rooted(p) {
            p
        } else {
            cwd + "/"@ + p
        }
    }
}

/// Copies `s` into `out` replacing every backslash with a forward slash.
fn append_slashes_forward(out: &mut String, s: &str)
    ensures
        final(out)@ == old(out)@ + slashes_forward(s@),
{
    let slen = s.unicode_len();
    let mut i: usize = 0;
    while i < slen
        invariant
            slen == s@.len(),
            i <= slen,
            out@ == old(out)@ + slashes_forward(s@.take(i as int)),
        decreases slen - i,
    {
        if s.get_char(i) == '\\' {
            out.append("/");
            proof {
                reveal_strlit("/");
                assert("/"@ =~= seq!['/']);
            }
        } else {
            text::push_char_from(out, s, i);
        }
        proof {
            let m = if s@[i as int] == '\\' {
                '/'
            } else {
                s@[i as int]
            };
            assert(slashes_forward(s@.take(i + 1)) =~= slashes_forward(s@.take(i as int)) + seq![
                m
            ]);
            assert(out@ =~= old(out)@ + slashes_forward(s@.take(i + 1)));
        }
        i = i + 1;
    }
    proof {
        assert(s@.take(slen as int) =~= s@);
    }
}

/// Convert a relative path to an absolute path against the given working
/// directory, normalizing Windows separators.
pub fn normalize_path_to_absolute(relative_path: &str, cwd: &str, os: Os) -> (r: String)
    ensures
        r@ == normalize_spec(relative_path@, cwd@, os),
{
    let plen = relative_path.unicode_len();
    if os == Os::Windows {
        if plen > 1 && relative_path.get_char(1) == ':' {
            let mut out = String::new();
            append_slashes_forward(&mut out, relative_path);
            return out;
        }
        let joined: String = if plen > 0 && relative_path.get_char(0) == '/' {
            relative_path.to_owned()
        } else {
            text::concat3(cwd, "/", relative_path)
        };
        let jlen = joined.as_str().unicode_len();
        let fixed: String = if jlen > 2 && joined.as_str().get_char(0) == '/'
            && joined.as_str().get_char(2) == ':' {
            text::tail_from(joined.as_str(), 1)
        } else {
            joined
        };
        let mut out = String::new();
        append_slashes_forward(&mut out, fixed.as_str());
        out
    } else {
        if plen > 0 && relative_path.get_char(0) == '/' {
            relative_path.to_owned()
        } else {
            text::concat3(cwd, "/", relative_path)
        }
    }
}

} // verus!
