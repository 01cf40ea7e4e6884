//! Verified text helpers: string equality, decimal rendering of port
//! numbers, and splitting off the first dot-separated segment of a
//! routing name.
use vstd::prelude::*;
use vstd::string::StrSliceExecFns;
use vstd::string::StringExecFns;

verus! {

/// Equality of two string slices, stated over their character views.
pub fn str_eq(a: &str, b: &str) -> (r: bool)
    ensures
        r == (a@ == b@),
{
    let sa: String = a.to_owned();
    let sb: String = b.to_owned();
    sa == sb
}

/// The decimal digit character for `d`.
pub open spec fn spec_digit(d: int) -> char {
    if d == 0 {
        '0'
    } else if d == 1 {
        '1'
    } else if d == 2 {
        '2'
    } else if d == 3 {
        '3'
    } else if d == 4 {
        '4'
    } else if d == 5 {
        '5'
    } else if d == 6 {
        '6'
    } else if d == 7 {
        '7'
    } else if d == 8 {
        '8'
    } else {
        '9'
    }
}

/// The usual decimal rendering of `n`: no sign, no leading zero except
/// for `n == 0` itself.
pub open spec fn spec_dec(n: nat) -> Seq<char>
    decreases n,
{
    if n < 10 {
        seq![spec_digit(n as int)]
    } else {
        spec_dec(n / 10) + seq![spec_digit((n % 10) as int)]
    }
}

fn digit_str(d: u8) -> (r: &'static str)
    requires
        d < 10,
    ensures
        r@ == seq![spec_digit(d as int)],
{
    proof {
        reveal_strlit("0");
        reveal_strlit("1");
        reveal_strlit("2");
        reveal_strlit("3");
        reveal_strlit("4");
        reveal_strlit("5");
        reveal_strlit("6");
        reveal_strlit("7");
        reveal_strlit("8");
        reveal_strlit("9");
    }
    let r: &'static str = match d {
        0 => "0",
        1 => "1",
        2 => "2",
        3 => "3",
        4 => "4",
        5 => "5",
        6 => "6",
        7 => "7",
        8 => "8",
        _ => "9",
    };
    proof {
        assert(r@ =~= seq![spec_digit(d as int)]);
    }
    r
}

/// Renders `n` in decimal.
pub fn u16_to_string(n: u16) -> (r: String)
    ensures
        r@ == spec_dec(n as nat),
    decreases n,
{
    if n < 10 {
        let r = digit_str(n as u8).to_owned();
        proof {
            assert(r@ =~= spec_dec(n as nat));
        }
        r
    } else {
        let mut s = u16_to_string(n / 10);
        s.append(digit_str((n % 10) as u8));
        proof {
            assert(s@ =~= spec_dec(n as nat));
        }
        s
    }
}

/// How many characters stand before the first `'.'` of `s` (all of
/// them, if `s` holds no `'.'`).
pub open spec fn spec_seg_len(s: Seq<char>) -> nat
    decreases s.len(),
{
    if s.len() == 0 {
        0
    } else if s[0] == '.' {
        0
    } else {
        1 + spec_seg_len(s.drop_first())
    }
}

/// The first dot-separated segment of `s`.
pub open spec fn spec_first_segment(s: Seq<char>) -> Seq<char> {
    s.take(spec_seg_len(s) as int)
}

proof fn lemma_seg_len_at(s: Seq<char>, i: int)
    requires
        0 <= i <= s.len(),
        forall|j: int| 0 <= j < i ==> s[j] != '.',
        i == s.len() || s[i] == '.',
    ensures
        spec_seg_len(s) == i,
    decreases s.len(),
{
    if s.len() == 0 {
    } else if s[0] == '.' {
        assert(i == 0);
    } else {
        assert(i >= 1);
        let t = s.drop_first();
        assert(forall|j: int| 0 <= j < i - 1 ==> t[j] == s[j + 1] && t[j] != '.');
        lemma_seg_len_at(t, i - 1);
    }
}

/// The first segment never reaches past the end of the text.
pub proof fn lemma_seg_len_le(s: Seq<char>)
    ensures
        spec_seg_len(s) <= s.len(),
    decreases s.len(),
{
    if s.len() == 0 || s[0] == '.' {
    } else {
        lemma_seg_len_le(s.drop_first());
    }
}

/// Appending text that starts with a `'.'` does not change the first
/// segment: the added dot ends it where `s` itself ended.
pub proof fn lemma_first_segment_append_dotted(s: Seq<char>, t: Seq<char>)
    requires
        t.len() > 0,
        t[0] == '.',
    ensures
        spec_seg_len(s + t) == spec_seg_len(s),
        spec_first_segment(s + t) == spec_first_segment(s),
    decreases s.len(),
{
    if s.len() == 0 {
        assert(s + t =~= t);
    } else if s[0] == '.' {
        assert((s + t)[0] == '.');
    } else {
        assert((s + t)[0] == s[0]);
        assert((s + t).drop_first() =~= s.drop_first() + t);
        lemma_first_segment_append_dotted(s.drop_first(), t);
    }
    lemma_seg_len_le(s);
    assert(spec_first_segment(s + t) =~= spec_first_segment(s));
}

/// The characters of `s` before its first `'.'`.
pub fn first_segment(s: &str) -> (r: String)
    ensures
        r@ == spec_first_segment(s@),
{
    let len = s.unicode_len();
    let mut i: usize = 0;
    while i < len && s.get_char(i) != '.'
        invariant
            i <= len,
            len == s@.len(),
            forall|j: int| 0 <= j < i ==> s@[j] != '.',
        decreases len - i,
    {
        i = i + 1;
    }
    proof {
        lemma_seg_len_at(s@, i as int);
    }
    let seg = s.substring_char(0, i);
    proof {
        assert(seg@ =~= spec_first_segment(s@));
    }
    seg.to_owned()
}

} // verus!
