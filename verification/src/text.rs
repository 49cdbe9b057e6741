//! Character-level helpers: hexadecimal rendering of byte strings, decimal
//! rendering of integers, string equality and substring search (exact and up
//! to ASCII case folding), removal of every occurrence of a pattern, and
//! JSON string escaping — each proved against a spec-level definition.

use vstd::prelude::*;

verus! {

/// The character for one digit value (0..=15), as a one-element sequence.
pub open spec fn digit_seq(d: int) -> Seq<char> {
    if d == 0 {
        seq!['0']
    } else if d == 1 {
        seq!['1']
    } else if d == 2 {
        seq!['2']
    } else if d == 3 {
        seq!['3']
    } else if d == 4 {
        seq!['4']
    } else if d == 5 {
        seq!['5']
    } else if d == 6 {
        seq!['6']
    } else if d == 7 {
        seq!['7']
    } else if d == 8 {
        seq!['8']
    } else if d == 9 {
        seq!['9']
    } else if d == 10 {
        seq!['a']
    } else if d == 11 {
        seq!['b']
    } else if d == 12 {
        seq!['c']
    } else if d == 13 {
        seq!['d']
    } else if d == 14 {
        seq!['e']
    } else if d == 15 {
        seq!['f']
    } else {
        Seq::empty()
    }
}

/// One digit value rendered as its one-character string.
pub fn digit_str(d: u64) -> (r: &'static str)
    requires
        d < 16,
    ensures
        r@ == digit_seq(d as int),
{
    if d == 0 {
        proof { reveal_strlit("0"); }
        "0"
    } else if d == 1 {
        proof { reveal_strlit("1"); }
        "1"
    } else if d == 2 {
        proof { reveal_strlit("2"); }
        "2"
    } else if d == 3 {
        proof { reveal_strlit("3"); }
        "3"
    } else if d == 4 {
        proof { reveal_strlit("4"); }
        "4"
    } else if d == 5 {
        proof { reveal_strlit("5"); }
        "5"
    } else if d == 6 {
        proof { reveal_strlit("6"); }
        "6"
    } else if d == 7 {
        proof { reveal_strlit("7"); }
        "7"
    } else if d == 8 {
        proof { reveal_strlit("8"); }
        "8"
    } else if d == 9 {
        proof { reveal_strlit("9"); }
        "9"
    } else if d == 10 {
        proof { reveal_strlit("a"); }
        "a"
    } else if d == 11 {
        proof { reveal_strlit("b"); }
        "b"
    } else if d == 12 {
        proof { reveal_strlit("c"); }
        "c"
    } else if d == 13 {
        proof { reveal_strlit("d"); }
        "d"
    } else if d == 14 {
        proof { reveal_strlit("e"); }
        "e"
    } else {
        proof { reveal_strlit("f"); }
        "f"
    }
}

/// A byte string rendered in lowercase hexadecimal, two digits per byte.
pub open spec fn hex_bytes_of(bs: Seq<u8>) -> Seq<char>
    decreases bs.len(),
{
    if bs.len() == 0 {
        Seq::empty()
    } else {
        hex_bytes_of(bs.drop_last()) + digit_seq(bs.last() as int / 16) + digit_seq(
            bs.last() as int % 16,
        )
    }
}

pub proof fn lemma_hex_bytes_len(bs: Seq<u8>)
    ensures
        hex_bytes_of(bs).len() == 2 * bs.len(),
    decreases bs.len(),
{
    if bs.len() > 0 {
        lemma_hex_bytes_len(bs.drop_last());
    }
}

pub fn bytes_to_hex(bs: &Vec<u8>) -> (r: String)
    ensures
        r@ == hex_bytes_of(bs@),
{
    let mut out = String::new();
    let mut i: usize = 0;
    proof {
        assert(bs@.take(0) =~= Seq::<u8>::empty());
    }
    while i < bs.len()
        invariant
            i <= bs@.len(),
            out@ == hex_bytes_of(bs@.take(i as int)),
        decreases bs@.len() - i,
    {
        let b = bs[i];
        proof {
            assert(bs@.take(i as int + 1).drop_last() =~= bs@.take(i as int));
            assert(bs@.take(i as int + 1).last() == bs@[i as int]);
        }
        out.append(digit_str((b / 16) as u64));
        out.append(digit_str((b % 16) as u64));
        i += 1;
    }
    proof {
        assert(bs@.take(bs@.len() as int) =~= bs@);
    }
    out
}

/// `n` rendered in decimal with no leading zeros (a single zero for 0).
pub open spec fn dec_of(n: u64) -> Seq<char>
    decreases n,
{
    if n < 10 {
        digit_seq(n as int)
    } else {
        dec_of((n / 10) as u64) + digit_seq((n % 10) as int)
    }
}

pub fn u64_to_dec(n: u64) -> (r: String)
    ensures
        r@ == dec_of(n),
    decreases n,
{
    if n < 10 {
        let mut s = String::new();
        s.append(digit_str(n));
        s
    } else {
        let mut s = u64_to_dec(n / 10);
        s.append(digit_str(n % 10));
        s
    }
}

/// Character-by-character string equality.
pub fn str_eq(a: &str, b: &str) -> (r: bool)
    ensures
        r == (a@ == b@),
{
    let al: usize = a.unicode_len();
    let bl: usize = b.unicode_len();
    if al != bl {
        return false;
    }
    let mut i: usize = 0;
    while i < al
        invariant
            al == a@.len(),
            al == b@.len(),
            i <= al,
            forall|k: int| 0 <= k < i ==> a@[k] == b@[k],
        decreases al - i,
    {
        if a.get_char(i) != b.get_char(i) {
            return false;
        }
        i += 1;
    }
    proof {
        assert(a@ =~= b@);
    }
    true
}

/// The needle occurs somewhere in the haystack as a contiguous run.
pub open spec fn contains_of(h: Seq<char>, n: Seq<char>) -> bool {
    exists|i: int| 0 <= i <= h.len() - n.len() && #[trigger] h.subrange(i, i + n.len() as int) == n
}

pub fn str_contains(h: &str, n: &str) -> (r: bool)
    ensures
        r == contains_of(h@, n@),
{
    let hl: usize = h.unicode_len();
    let nl: usize = n.unicode_len();
    if nl > hl {
        return false;
    }
    let mut i: usize = 0;
    while i <= hl - nl
        invariant
            nl <= hl,
            hl == h@.len(),
            nl == n@.len(),
            i <= hl - nl + 1,
            forall|k: int| 0 <= k < i ==> #[trigger] h@.subrange(k, k + nl as int) != n@,
        decreases hl - nl - i + 1,
    {
        let mut j: usize = 0;
        let mut m = true;
        while m && j < nl
            invariant
                i + nl <= hl,
                hl == h@.len(),
                nl == n@.len(),
                j <= nl,
                m ==> forall|k: int| 0 <= k < j ==> h@[i + k] == n@[k],
                !m ==> (j < nl && h@[i + j] != n@[j as int]),
            decreases nl - j + (if m { 1int } else { 0int }),
        {
            if h.get_char(i + j) != n.get_char(j) {
                m = false;
            } else {
                j += 1;
            }
        }
        if m {
            proof {
                assert(h@.subrange(i as int, i + nl as int) =~= n@);
            }
            return true;
        }
        proof {
            assert(h@.subrange(i as int, i + nl as int)[j as int] == h@[i + j]);
        }
        i += 1;
    }
    false
}

/// `b` is `a` after mapping a lower-case ASCII letter to its upper-case form
/// and leaving every other character alone.
pub open spec fn ascii_upper_eq(a: char, b: char) -> bool {
    a == b || (97 <= a as u32 && a as u32 <= 122 && (a as u32) - 32 == b as u32)
}

/// The needle matches at position `i` of the haystack up to ASCII case
/// folding of the haystack's characters.
pub open spec fn ci_match_at(h: Seq<char>, n: Seq<char>, i: int) -> bool {
    forall|j: int| 0 <= j < n.len() ==> #[trigger] ascii_upper_eq(h[i + j], n[j])
}

/// The needle occurs in the haystack up to ASCII case folding of the
/// haystack's characters.
pub open spec fn contains_ci_of(h: Seq<char>, n: Seq<char>) -> bool {
    exists|i: int| 0 <= i <= h.len() - n.len() && #[trigger] ci_match_at(h, n, i)
}

fn char_upper_eq(a: char, b: char) -> (r: bool)
    ensures
        r == ascii_upper_eq(a, b),
{
    a == b || (97 <= a as u32 && a as u32 <= 122 && (a as u32) - 32 == b as u32)
}

pub fn str_contains_ci(h: &str, n: &str) -> (r: bool)
    ensures
        r == contains_ci_of(h@, n@),
{
    let hl: usize = h.unicode_len();
    let nl: usize = n.unicode_len();
    if nl > hl {
        return false;
    }
    let mut i: usize = 0;
    while i <= hl - nl
        invariant
            nl <= hl,
            hl == h@.len(),
            nl == n@.len(),
            i <= hl - nl + 1,
            forall|k: int| 0 <= k < i ==> !ci_match_at(h@, n@, k),
        decreases hl - nl - i + 1,
    {
        let mut j: usize = 0;
        let mut m = true;
        while m && j < nl
            invariant
                i + nl <= hl,
                hl == h@.len(),
                nl == n@.len(),
                j <= nl,
                m ==> forall|k: int| 0 <= k < j ==> #[trigger] ascii_upper_eq(h@[i + k], n@[k]),
                !m ==> (j < nl && !ascii_upper_eq(h@[i + j], n@[j as int])),
            decreases nl - j + (if m { 1int } else { 0int }),
        {
            if !char_upper_eq(h.get_char(i + j), n.get_char(j)) {
                m = false;
            } else {
                j += 1;
            }
        }
        if m {
            proof {
                assert(ci_match_at(h@, n@, i as int));
            }
            return true;
        }
        proof {
            assert(!ci_match_at(h@, n@, i as int));
        }
        i += 1;
    }
    false
}

/// The text with every occurrence of `pat` removed, scanning left to right
/// without overlap; an empty `pat` removes nothing.
pub open spec fn remove_all_of(s: Seq<char>, pat: Seq<char>) -> Seq<char>
    decreases s.len(),
{
    if s.len() == 0 {
        Seq::empty()
    } else if 0 < pat.len() <= s.len() && s.subrange(0, pat.len() as int) == pat {
        remove_all_of(s.skip(pat.len() as int), pat)
    } else {
        seq![s[0]] + remove_all_of(s.skip(1), pat)
    }
}

pub fn remove_all(s: &str, pat: &str) -> (r: String)
    ensures
        r@ == remove_all_of(s@, pat@),
{
    let sl: usize = s.unicode_len();
    let pl: usize = pat.unicode_len();
    let mut out = String::new();
    let mut i: usize = 0;
    proof {
        assert(s@.skip(0) =~= s@);
        assert(Seq::<char>::empty() + remove_all_of(s@, pat@) =~= remove_all_of(s@, pat@));
    }
    while i < sl
        invariant
            sl == s@.len(),
            pl == pat@.len(),
            i <= sl,
            remove_all_of(s@, pat@) == out@ + remove_all_of(s@.skip(i as int), pat@),
        decreases sl - i,
    {
        let ghost rem = s@.skip(i as int);
        let ghost o0 = out@;
        if pl > 0 && pl <= sl - i && str_eq(s.substring_char(i, i + pl), pat) {
            proof {
                assert(rem.subrange(0, pl as int) =~= s@.subrange(i as int, i + pl as int));
                assert(rem.skip(pl as int) =~= s@.skip(i + pl));
            }
            i += pl;
        } else {
            proof {
                if pl > 0 && i + pl <= sl {
                    assert(rem.subrange(0, pl as int) =~= s@.subrange(i as int, i + pl as int));
                }
                assert(seq![rem[0]] =~= s@.subrange(i as int, i + 1));
                assert(rem.skip(1) =~= s@.skip(i as int + 1));
            }
            out.append(s.substring_char(i, i + 1));
            proof {
                assert(o0 + (seq![rem[0]] + remove_all_of(s@.skip(i as int + 1), pat@)) =~= out@
                    + remove_all_of(s@.skip(i as int + 1), pat@));
            }
            i += 1;
        }
    }
    proof {
        assert(s@.skip(sl as int) =~= Seq::<char>::empty());
    }
    out
}

/// One character under JSON string escaping: quote and backslash get a
/// backslash, the named control characters their short forms, other control
/// characters a `\u00XX` form, and everything else stands as itself.
pub open spec fn esc_char_of(c: char) -> Seq<char> {
    if c == '"' {
        seq!['\\', '"']
    } else if c == '\\' {
        seq!['\\', '\\']
    } else if c == '\n' {
        seq!['\\', 'n']
    } else if c == '\r' {
        seq!['\\', 'r']
    } else if c == '\t' {
        seq!['\\', 't']
    } else if c as u32 == 8 {
        seq!['\\', 'b']
    } else if c as u32 == 12 {
        seq!['\\', 'f']
    } else if (c as u32) < 32 {
        seq!['\\', 'u', '0', '0'] + digit_seq((c as u32 / 16) as int) + digit_seq(
            (c as u32 % 16) as int,
        )
    } else {
        seq![c]
    }
}

/// The text under JSON string escaping, character by character.
pub open spec fn json_escape_of(s: Seq<char>) -> Seq<char>
    decreases s.len(),
{
    if s.len() == 0 {
        Seq::empty()
    } else {
        json_escape_of(s.drop_last()) + esc_char_of(s.last())
    }
}

pub fn json_escape(s: &str) -> (r: String)
    ensures
        r@ == json_escape_of(s@),
{
    let sl: usize = s.unicode_len();
    let mut out = String::new();
    let mut i: usize = 0;
    while i < sl
        invariant
            sl == s@.len(),
            i <= sl,
            out@ == json_escape_of(s@.take(i as int)),
        decreases sl - i,
    {
        let c = s.get_char(i);
        let ghost o0 = out@;
        if c == '"' {
            proof { reveal_strlit("\\\""); }
            out.append("\\\"");
        } else if c == '\\' {
            proof { reveal_strlit("\\\\"); }
            out.append("\\\\");
        } else if c == '\n' {
            proof { reveal_strlit("\\n"); }
            out.append("\\n");
        } else if c == '\r' {
            proof { reveal_strlit("\\r"); }
            out.append("\\r");
        } else if c == '\t' {
            proof { reveal_strlit("\\t"); }
            out.append("\\t");
        } else if c as u32 == 8 {
            proof { reveal_strlit("\\b"); }
            out.append("\\b");
        } else if c as u32 == 12 {
            proof { reveal_strlit("\\f"); }
            out.append("\\f");
        } else if (c as u32) < 32 {
            proof { reveal_strlit("\\u00"); }
            out.append("\\u00");
            let code: u32 = c as u32;
            out.append(digit_str((code / 16) as u64));
            out.append(digit_str((code % 16) as u64));
        } else {
            out.append(s.substring_char(i, i + 1));
            proof {
                assert(s@.subrange(i as int, i as int + 1) =~= seq![s@[i as int]]);
            }
        }
        proof {
            assert(out@ =~= o0 + esc_char_of(s@[i as int]));
            assert(s@.take(i as int + 1).drop_last() =~= s@.take(i as int));
            assert(s@.take(i as int + 1).last() == s@[i as int]);
        }
        i += 1;
    }
    proof {
        assert(s@.take(sl as int) =~= s@);
    }
    out
}

} // verus!
