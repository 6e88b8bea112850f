//! Verified text building blocks: decimal rendering, prefix matching and
//! path segmentation, shared by the routing and translation layers.

use vstd::prelude::*;

verus! {

/// Relies on `String::push`: appends exactly one character at the end of
/// the string.
#[verifier::external_body]
pub fn string_push(s: &mut String, c: char)
    ensures
        final(s)@ == old(s)@.push(c),
{
    s.push(c);
}

/// The character for a single decimal digit.
pub open spec fn digit_char(d: nat) -> char {
    ((48 + d) as u8) as char
}

/// The decimal rendering of a natural number, most significant digit
/// first, with no leading zeros (except for zero itself).
pub open spec fn dec_digits(n: nat) -> Seq<char>
    decreases n,
{
    if n < 10 {
        seq![digit_char(n)]
    } else {
        dec_digits(n / 10).push(digit_char(n % 10))
    }
}

fn digit_to_char(d: u64) -> (c: char)
    requires
        d < 10,
    ensures
        c == digit_char(d as nat),
{
    (48 + d as u8) as char
}

/// Renders a number in decimal, exactly as `dec_digits` describes.
pub fn u64_to_string(n: u64) -> (s: String)
    ensures
        s@ == dec_digits(n as nat),
    decreases n,
{
    if n < 10 {
        let mut s = String::new();
        string_push(&mut s, digit_to_char(n));
        s
    } else {
        let mut s = u64_to_string(n / 10);
        string_push(&mut s, digit_to_char(n % 10));
        s
    }
}

/// True when the characters of `p` start the characters of `s`.
pub fn starts_with_str(s: &str, p: &str) -> (r: bool)
    ensures
        r == p@.is_prefix_of(s@),
{
    let s_len = s.unicode_len();
    let p_len = p.unicode_len();
    if p_len > s_len {
        assert(!p@.is_prefix_of(s@));
        return false;
    }
    let mut i: usize = 0;
    while i < p_len
        invariant
            i <= p_len <= s_len,
            s_len == s@.len(),
            p_len == p@.len(),
            forall|j: int| 0 <= j < i ==> s@[j] == p@[j],
        decreases p_len - i,
    {
        if s.get_char(i) != p.get_char(i) {
            assert(!p@.is_prefix_of(s@));
            return false;
        }
        i += 1;
    }
    assert(p@.is_prefix_of(s@)) by {
        assert(s@.subrange(0, p@.len() as int) =~= p@);
    }
    true
}

/// Strips `p` off the front of `s`; `None` when `p` does not start `s`.
pub fn strip_prefix_str(s: &str, p: &str) -> (r: Option<String>)
    ensures
        match r {
            Some(rest) => p@.is_prefix_of(s@) && rest@ == s@.skip(p@.len() as int),
            None => !p@.is_prefix_of(s@),
        },
{
    if starts_with_str(s, p) {
        let rest = s.substring_char(p.unicode_len(), s.unicode_len());
        assert(rest@ =~= s@.skip(p@.len() as int));
        Some(rest.to_owned())
    } else {
        None
    }
}

/// True when both strings hold the same characters.
pub fn str_eq(a: &str, b: &str) -> (r: bool)
    ensures
        r == (a@ == b@),
{
    let a_len = a.unicode_len();
    let b_len = b.unicode_len();
    if a_len != b_len {
        return false;
    }
    let mut i: usize = 0;
    while i < a_len
        invariant
            i <= a_len,
            a_len == a@.len(),
            a_len == b@.len(),
            forall|j: int| 0 <= j < i ==> a@[j] == b@[j],
        decreases a_len - i,
    {
        if a.get_char(i) != b.get_char(i) {
            return false;
        }
        i += 1;
    }
    assert(a@ =~= b@);
    true
}

/// The number of characters before the first `/` (the whole sequence when
/// it holds none).
pub open spec fn segment_len(s: Seq<char>) -> int
    decreases s.len(),
{
    if s.len() == 0 {
        0
    } else if s[0] == '/' {
        0
    } else {
        1 + segment_len(s.drop_first())
    }
}

proof fn lemma_segment_len(s: Seq<char>)
    ensures
        0 <= segment_len(s) <= s.len(),
        forall|j: int| 0 <= j < segment_len(s) ==> s[j] != '/',
        segment_len(s) < s.len() ==> s[segment_len(s)] == '/',
    decreases s.len(),
{
    if s.len() != 0 && s[0] != '/' {
        lemma_segment_len(s.drop_first());
        assert forall|j: int| 0 <= j < segment_len(s) implies s[j] != '/' by {
            if j > 0 {
                assert(s.drop_first()[j - 1] == s[j]);
            }
        }
    }
}

/// The non-empty `/`-separated parts of a path remainder, in order.
pub open spec fn split_segments(s: Seq<char>) -> Seq<Seq<char>>
    decreases s.len(),
    via split_segments_decreases
{
    if s.len() == 0 {
        Seq::empty()
    } else if s[0] == '/' {
        split_segments(s.drop_first())
    } else {
        seq![s.take(segment_len(s))] + split_segments(s.skip(segment_len(s)))
    }
}

#[via_fn]
proof fn split_segments_decreases(s: Seq<char>) {
    if s.len() != 0 && s[0] != '/' {
        lemma_segment_len(s.drop_first());
    }
}

/// Splits a path remainder into its non-empty `/`-separated segments.
pub fn split_path_segments(s: &str) -> (v: Vec<String>)
    ensures
        v@.map_values(|x: String| x@) == split_segments(s@),
    decreases s@.len(),
{
    let len = s.unicode_len();
    if len == 0 {
        let v: Vec<String> = Vec::new();
        assert(v@.map_values(|x: String| x@) =~= split_segments(s@));
        v
    } else if s.get_char(0) == '/' {
        let rest = s.substring_char(1, len);
        assert(rest@ =~= s@.drop_first());
        split_path_segments(rest)
    } else {
        proof {
            lemma_segment_len(s@);
        }
        let mut k: usize = 0;
        while k < len && s.get_char(k) != '/'
            invariant
                k <= len,
                len == s@.len(),
                forall|j: int| 0 <= j < k ==> s@[j] != '/',
            decreases len - k,
        {
            k += 1;
        }
        assert(k == segment_len(s@)) by {
            lemma_segment_len(s@);
        }
        let seg = s.substring_char(0, k).to_owned();
        let rest = s.substring_char(k, len);
        assert(seg@ =~= s@.take(segment_len(s@)));
        assert(rest@ =~= s@.skip(segment_len(s@)));
        let mut v = split_path_segments(rest);
        v.insert(0, seg);
        assert(v@.map_values(|x: String| x@) =~= split_segments(s@));
        v
    }
}

/// The parts joined with `:` between them.
pub open spec fn joined_with_colons(parts: Seq<Seq<char>>) -> Seq<char>
    decreases parts.len(),
{
    if parts.len() == 0 {
        Seq::empty()
    } else if parts.len() == 1 {
        parts[0]
    } else {
        joined_with_colons(parts.drop_last()) + seq![':'] + parts.last()
    }
}

/// Joins the parts with `:` between them.
pub fn join_with_colons(parts: &Vec<String>) -> (s: String)
    ensures
        s@ == joined_with_colons(parts@.map_values(|x: String| x@)),
{
    let ghost views = parts@.map_values(|x: String| x@);
    let mut s = String::new();
    let mut i: usize = 0;
    while i < parts.len()
        invariant
            i <= parts@.len(),
            views == parts@.map_values(|x: String| x@),
            s@ == joined_with_colons(views.take(i as int)),
        decreases parts@.len() - i,
    {
        if i > 0 {
            string_push(&mut s, ':');
        }
        s.append(parts[i].as_str());
        assert(views.take(i + 1).drop_last() =~= views.take(i as int));
        assert(views.take(i + 1).last() == views[i as int]);
        i += 1;
    }
    assert(views.take(parts@.len() as int) =~= views);
    s
}

} // verus!
