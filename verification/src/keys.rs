//! Canonical keys: the deterministic, filesystem-safe identifier derived
//! from a document title. The key doubles as the idempotency key, so it is
//! derived by one function and used identically everywhere.

use vstd::prelude::*;
use crate::text::{chars_of, string_from_chars, trim_chars, trim_spec};

verus! {

/// Characters a key may not contain: the filesystem-reserved punctuation
/// and the control characters.
pub open spec fn is_reserved_char(c: char) -> bool {
    ||| c == '<'
    ||| c == '>'
    ||| c == ':'
    ||| c == '"'
    ||| c == '/'
    ||| c == '\\'
    ||| c == '|'
    ||| c == '?'
    ||| c == '*'
    ||| (c as u32) < 0x20
}

/// Every reserved character replaced by an underscore.
pub open spec fn replace_reserved(s: Seq<char>) -> Seq<char> {
    s.map_values(|c: char| if is_reserved_char(c) { '_' } else { c })
}

/// A canonical key holds at most this many characters (code points).
pub const KEY_MAX_CHARS: usize = 200;

/// The canonical key of a title: reserved characters replaced, whitespace
/// trimmed, then truncated to at most `KEY_MAX_CHARS` characters.
pub open spec fn key_spec(title: Seq<char>) -> Seq<char> {
    let t = trim_spec(replace_reserved(title));
    if t.len() <= KEY_MAX_CHARS as int { t } else { t.subrange(0, KEY_MAX_CHARS as int) }
}

fn is_reserved(c: char) -> (r: bool)
    ensures
        r == is_reserved_char(c),
{
    c == '<' || c == '>' || c == ':' || c == '"' || c == '/' || c == '\\' || c == '|'
        || c == '?' || c == '*' || (c as u32) < 0x20
}

/// The canonical key of `name`, as a string.
pub fn sanitize_filename(name: &str) -> (r: String)
    ensures
        r@ == key_spec(name@),
        r@.len() <= KEY_MAX_CHARS as int,
{
    let cs = chars_of(name);
    let n = cs.len();
    let mut replaced: Vec<char> = Vec::new();
    let mut i: usize = 0;
    while i < n
        invariant
            i <= n,
            n == cs@.len(),
            cs@ == name@,
            replaced@ == replace_reserved(name@.subrange(0, i as int)),
        decreases n - i,
    {
        let c = cs[i];
        if is_reserved(c) {
            replaced.push('_');
        } else {
            replaced.push(c);
        }
        i = i + 1;
        proof {
            assert(replaced@ =~= replace_reserved(name@.subrange(0, i as int)));
        }
    }
    proof {
        assert(name@.subrange(0, n as int) =~= name@);
    }
    let mut trimmed = trim_chars(&replaced);
    proof {
        assert(trimmed@ == trim_spec(replace_reserved(name@)));
    }
    if trimmed.len() > KEY_MAX_CHARS {
        trimmed.truncate(KEY_MAX_CHARS);
    }
    string_from_chars(&trimmed)
}

/// Key determinism, collapse direction: two titles of the same length that
/// differ only at positions where both hold a reserved character sanitize
/// to the same canonical key.
pub proof fn lemma_key_collapse(a: Seq<char>, b: Seq<char>)
    requires
        a.len() == b.len(),
        forall|i: int|
            0 <= i < a.len() ==> a[i] == b[i] || (is_reserved_char(a[i]) && is_reserved_char(
                b[i],
            )),
    ensures
        key_spec(a) == key_spec(b),
{
    assert(replace_reserved(a) =~= replace_reserved(b));
}

/// Key truncation: when replacement and trimming leave more than
/// `KEY_MAX_CHARS` characters, the key holds exactly `KEY_MAX_CHARS` of
/// them, the first ones. (A longer title alone does not force this: a title
/// of 250 blanks trims to an empty key.)
pub proof fn lemma_key_truncates(title: Seq<char>)
    requires
        trim_spec(replace_reserved(title)).len() > KEY_MAX_CHARS as int,
    ensures
        key_spec(title).len() == KEY_MAX_CHARS as int,
        key_spec(title) == trim_spec(replace_reserved(title)).subrange(0, KEY_MAX_CHARS as int),
{
}

} // verus!
