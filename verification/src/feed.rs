//! The computational side of the discovery feed: pulling a document id
//! out of a listing link, and cleaning a listed title. The feed itself —
//! fetching and walking the source site's pages — is a collaborator
//! outside the library; it hands these functions plain strings.

use vstd::prelude::*;
use crate::text::{chars_of, string_from_chars, trim_chars, trim_spec};

verus! {

pub open spec fn is_digit_char(c: char) -> bool {
    0x30 <= (c as u32) && (c as u32) <= 0x39
}

fn is_digit(c: char) -> (r: bool)
    ensures
        r == is_digit_char(c),
{
    let n = c as u32;
    0x30 <= n && n <= 0x39
}

/// The length of the unbroken run of digits starting at `i`.
pub open spec fn digit_run_len(s: Seq<char>, i: int) -> int
    decreases s.len() - i,
{
    if i < 0 || i >= s.len() || !is_digit_char(s[i]) {
        0
    } else {
        1 + digit_run_len(s, i + 1)
    }
}

/// The document id that a listing link carries at position `p`, if the
/// link reads `/abs/` there followed by digits, a dot, and digits: the
/// two maximal digit runs around the first dot after `/abs/`.
pub open spec fn id_at(s: Seq<char>, p: int) -> Option<Seq<char>> {
    if 0 <= p && p + 5 <= s.len() && s.subrange(p, p + 5) == "/abs/"@ {
        let d1 = digit_run_len(s, p + 5);
        if d1 > 0 && p + 5 + d1 < s.len() && s[p + 5 + d1] == '.' {
            let d2 = digit_run_len(s, p + 5 + d1 + 1);
            if d2 > 0 {
                Some(s.subrange(p + 5, p + 5 + d1 + 1 + d2))
            } else {
                None
            }
        } else {
            None
        }
    } else {
        None
    }
}

/// The id of the leftmost such link part, scanning from position `p`.
pub open spec fn abs_id_from(s: Seq<char>, p: int) -> Option<Seq<char>>
    decreases s.len() - p,
{
    if p < 0 || p >= s.len() {
        None
    } else if id_at(s, p) is Some {
        id_at(s, p)
    } else {
        abs_id_from(s, p + 1)
    }
}

/// The document id in a listing link: the digits-dot-digits id after the
/// leftmost matching `/abs/`, or nothing.
pub open spec fn abs_id_spec(s: Seq<char>) -> Option<Seq<char>> {
    abs_id_from(s, 0)
}

fn digit_run(cs: &Vec<char>, from: usize) -> (r: usize)
    requires
        from <= cs@.len(),
    ensures
        r == digit_run_len(cs@, from as int),
        from + r <= cs@.len(),
{
    let n = cs.len();
    let mut i = from;
    while i < n && is_digit(cs[i])
        invariant
            from <= i <= n,
            n == cs@.len(),
            digit_run_len(cs@, from as int) == (i - from) + digit_run_len(cs@, i as int),
        decreases n - i,
    {
        i = i + 1;
    }
    proof {
        assert(digit_run_len(cs@, i as int) == 0);
    }
    i - from
}

fn id_at_exec(cs: &Vec<char>, p: usize) -> (r: Option<String>)
    requires
        p <= cs@.len(),
    ensures
        r is None <==> id_at(cs@, p as int) is None,
        r matches Some(s) ==> (id_at(cs@, p as int) matches Some(v) && s@ == v),
{
    let n = cs.len();
    proof {
        reveal_strlit("/abs/");
    }
    if n - p < 5 {
        return None;
    }
    if !(cs[p] == '/' && cs[p + 1] == 'a' && cs[p + 2] == 'b' && cs[p + 3] == 's' && cs[p + 4]
        == '/') {
        proof {
            assert(cs@.subrange(p as int, p + 5) != "/abs/"@) by {
                if cs@.subrange(p as int, p + 5) == "/abs/"@ {
                    assert(cs@[p as int] == "/abs/"@[0]);
                    assert(cs@[p + 1] == "/abs/"@[1]);
                    assert(cs@[p + 2] == "/abs/"@[2]);
                    assert(cs@[p + 3] == "/abs/"@[3]);
                    assert(cs@[p + 4] == "/abs/"@[4]);
                }
            }
        }
        return None;
    }
    proof {
        assert(cs@.subrange(p as int, p + 5) =~= "/abs/"@);
    }
    let d1 = digit_run(cs, p + 5);
    if d1 == 0 {
        return None;
    }
    let dot = p + 5 + d1;
    if dot >= n {
        return None;
    }
    if cs[dot] != '.' {
        return None;
    }
    let d2 = digit_run(cs, dot + 1);
    if d2 == 0 {
        return None;
    }
    let start = p + 5;
    let end = dot + 1 + d2;
    let mut id: Vec<char> = Vec::new();
    let mut i = start;
    while i < end
        invariant
            start <= i <= end <= n,
            n == cs@.len(),
            id@ == cs@.subrange(start as int, i as int),
        decreases end - i,
    {
        id.push(cs[i]);
        i = i + 1;
        proof {
            assert(id@ =~= cs@.subrange(start as int, i as int));
        }
    }
    Some(string_from_chars(&id))
}

/// The document id in a listing link, as the discovery feed reads it.
pub fn parse_abs_id(href: &str) -> (r: Option<String>)
    ensures
        r is None <==> abs_id_spec(href@) is None,
        r matches Some(s) ==> (abs_id_spec(href@) matches Some(v) && s@ == v),
{
    let cs = chars_of(href);
    let n = cs.len();
    let mut p: usize = 0;
    while p < n
        invariant
            p <= n,
            n == cs@.len(),
            cs@ == href@,
            abs_id_spec(href@) == abs_id_from(href@, p as int),
        decreases n - p,
    {
        let found = id_at_exec(&cs, p);
        match found {
            Some(s) => {
                return Some(s);
            },
            None => {},
        }
        p = p + 1;
    }
    None
}

/// The listed title with every `Title:` marker removed, scanning left to
/// right without overlap.
pub open spec fn strip_marker_spec(s: Seq<char>) -> Seq<char>
    decreases s.len(),
{
    if s.len() < 6 {
        s
    } else if s.subrange(0, 6) == "Title:"@ {
        strip_marker_spec(s.skip(6))
    } else {
        seq![s[0]] + strip_marker_spec(s.skip(1))
    }
}

/// A listed title as the pipeline takes it over: `Title:` markers
/// removed, whitespace trimmed.
pub open spec fn clean_title_spec(s: Seq<char>) -> Seq<char> {
    trim_spec(strip_marker_spec(s))
}

fn marker_at(cs: &Vec<char>, i: usize) -> (r: bool)
    requires
        i <= cs@.len(),
    ensures
        cs@.len() - i >= 6 ==> r == (cs@.skip(i as int).subrange(0, 6) == "Title:"@),
        cs@.len() - i < 6 ==> r == false,
{
    let n = cs.len();
    proof {
        reveal_strlit("Title:");
    }
    if n - i < 6 {
        return false;
    }
    let hit = cs[i] == 'T' && cs[i + 1] == 'i' && cs[i + 2] == 't' && cs[i + 3] == 'l' && cs[i + 4]
        == 'e' && cs[i + 5] == ':';
    proof {
        let t = cs@.skip(i as int).subrange(0, 6);
        assert(forall|k: int| 0 <= k < 6 ==> t[k] == cs@[i + k]);
        if hit {
            assert(t =~= "Title:"@);
        } else {
            if t == "Title:"@ {
                assert(t[0] == 'T' && t[1] == 'i' && t[2] == 't' && t[3] == 'l' && t[4] == 'e'
                    && t[5] == ':');
            }
        }
    }
    hit
}

/// The title a listed entry contributes: markers removed, then trimmed.
pub fn clean_title(title: &str) -> (r: String)
    ensures
        r@ == clean_title_spec(title@),
{
    let cs = chars_of(title);
    let n = cs.len();
    let mut out: Vec<char> = Vec::new();
    let mut i: usize = 0;
    proof {
        assert(cs@.skip(0) =~= cs@);
        assert(out@ + strip_marker_spec(cs@) =~= strip_marker_spec(cs@));
    }
    while i < n
        invariant
            i <= n,
            n == cs@.len(),
            cs@ == title@,
            out@ + strip_marker_spec(cs@.skip(i as int)) == strip_marker_spec(cs@),
        decreases n - i,
    {
        if marker_at(&cs, i) {
            proof {
                let rest = cs@.skip(i as int);
                assert(rest.len() >= 6);
                assert(strip_marker_spec(rest) == strip_marker_spec(rest.skip(6)));
                assert(rest.skip(6) =~= cs@.skip(i + 6));
            }
            i = i + 6;
        } else {
            proof {
                let rest = cs@.skip(i as int);
                if rest.len() >= 6 {
                    assert(strip_marker_spec(rest) == seq![rest[0]] + strip_marker_spec(
                        rest.skip(1),
                    ));
                } else {
                    assert(strip_marker_spec(rest) == rest);
                    assert(rest =~= seq![rest[0]] + rest.skip(1));
                    assert(strip_marker_spec(rest.skip(1)) == rest.skip(1));
                }
                assert(rest[0] == cs@[i as int]);
                assert(rest.skip(1) =~= cs@.skip(i + 1));
            }
            out.push(cs[i]);
            i = i + 1;
        }
    }
    proof {
        assert(cs@.skip(n as int) =~= Seq::<char>::empty());
        assert(strip_marker_spec(cs@.skip(n as int)) =~= Seq::<char>::empty());
        assert(out@ =~= strip_marker_spec(cs@));
    }
    let trimmed = trim_chars(&out);
    string_from_chars(&trimmed)
}

} // verus!
