//! A sort key under which problem ids order as people read them: numbers by value,
//! letters without regard to case.

use vstd::prelude::*;
use vstd::string::*;
use vstd::utf8::*;
use crate::text::{all_digits, from_chars_range, is_digit, to_chars};

verus! {

/// The width to which a run of digits is padded with zeros.
pub const PAD: usize = 20;

/// The lower-case form of an ASCII capital; any other character as it is.
pub open spec fn lower_ascii(c: char) -> char {
    if 'A' <= c <= 'Z' {
        ((c as u32) + 32) as char
    } else {
        c
    }
}

pub open spec fn zeros(n: nat) -> Seq<char> {
    Seq::new(n, |i: int| '0')
}

/// The key of one run of characters: a run of digits is padded on the left with
/// zeros up to `PAD` bytes, any other run is put in lower case.
pub open spec fn segment_key(run: Seq<char>, digits: bool) -> Seq<char> {
    if digits {
        if encode_utf8(run).len() < PAD {
            zeros((PAD - encode_utf8(run).len()) as nat) + run
        } else {
            run
        }
    } else {
        run.map_values(|c: char| lower_ascii(c))
    }
}

/// The key of the text from `start` on, when the characters from `start` up to `i`
/// are known to be of one kind, digits or others. A run ends where the kind changes.
pub open spec fn key_from(s: Seq<char>, start: int, i: int) -> Seq<char>
    decreases s.len() - i,
{
    if i >= s.len() {
        if 0 <= start < s.len() {
            segment_key(s.subrange(start, s.len() as int), is_digit(s[start]))
        } else {
            Seq::empty()
        }
    } else if 0 <= start < i && is_digit(s[i]) != is_digit(s[start]) {
        segment_key(s.subrange(start, i), is_digit(s[start])) + key_from(s, i, i + 1)
    } else {
        key_from(s, start, i + 1)
    }
}

/// The sort key of a text: the keys of its runs of digits and of other characters,
/// one after the other.
pub open spec fn natural_key(s: Seq<char>) -> Seq<char> {
    key_from(s, 0, 0)
}

fn to_lower_ascii(c: char) -> (r: char)
    ensures
        r == lower_ascii(c),
{
    if c >= 'A' && c <= 'Z' {
        let code: u32 = c as u32;
        let lowered: u8 = (code + 32) as u8;
        lowered as char
    } else {
        c
    }
}

/// Appends the key of one run to a sort key.
pub fn flush_segment(out: &mut String, buf: &str, is_digit: bool)
    ensures
        final(out)@ == old(out)@ + segment_key(buf@, is_digit),
{
    let ghost before = out@;
    if is_digit {
        let len = buf.as_bytes().len();
        if len < PAD {
            let mut k: usize = 0;
            while k < PAD - len
                invariant
                    len < PAD,
                    k <= PAD - len,
                    out@ == before + zeros(k as nat),
                decreases PAD - len - k,
            {
                out.push('0');
                k += 1;
            }
        }
        out.append(buf);
    } else {
        let ghost lowered = buf@.map_values(|c: char| lower_ascii(c));
        for c in it: buf.chars()
            invariant
                it.seq() == buf@,
                lowered == buf@.map_values(|c: char| lower_ascii(c)),
                out@ == before + lowered.take(it.index() as int),
        {
            out.push(to_lower_ascii(c));
        }
    }
}

fn digit(c: char) -> (r: bool)
    ensures
        r == is_digit(c),
{
    c >= '0' && c <= '9'
}

/// Computes the sort key of a text.
pub fn natural_sort_key(s: &str) -> (r: String)
    ensures
        r@ == natural_key(s@),
{
    let v = to_chars(s);
    let mut out = String::new();
    let mut start: usize = 0;
    let mut i: usize = 0;
    while i < v.len()
        invariant
            v@ == s@,
            start <= i <= v.len(),
            i > 0 ==> start < i,
            natural_key(s@) == out@ + key_from(s@, start as int, i as int),
        decreases v.len() - i,
    {
        if start < i && digit(v[i]) != digit(v[start]) {
            let run = from_chars_range(&v, start, i);
            flush_segment(&mut out, run.as_str(), digit(v[start]));
            start = i;
        }
        i += 1;
    }
    if start < v.len() {
        let run = from_chars_range(&v, start, v.len());
        flush_segment(&mut out, run.as_str(), digit(v[start]));
    }
    out
}

proof fn lemma_single_run(s: Seq<char>, i: int)
    requires
        s.len() > 0,
        0 <= i <= s.len(),
        forall|k: int| 0 <= k < s.len() ==> is_digit(#[trigger] s[k]) == is_digit(s[0]),
    ensures
        key_from(s, 0, i) == segment_key(s, is_digit(s[0])),
    decreases s.len() - i,
{
    if i >= s.len() {
        assert(s.subrange(0, s.len() as int) =~= s);
    } else {
        lemma_single_run(s, i + 1);
    }
}

/// The key of a number of fewer than `PAD` digits is the number, padded on the left
/// with zeros to `PAD` digits.
pub proof fn law_number_is_padded(s: Seq<char>)
    requires
        0 < s.len() < PAD,
        all_digits(s),
    ensures
        natural_key(s) == zeros((PAD - s.len()) as nat) + s,
{
    lemma_single_run(s, 0);
    is_ascii_chars_encode_utf8(s);
}

/// The key of a text without digits is the text with its ASCII capitals in lower case.
pub proof fn law_letters_are_lowered(s: Seq<char>)
    requires
        forall|k: int| 0 <= k < s.len() ==> !is_digit(#[trigger] s[k]),
    ensures
        natural_key(s) == s.map_values(|c: char| lower_ascii(c)),
{
    if s.len() == 0 {
    } else {
        lemma_single_run(s, 0);
    }
}

proof fn lemma_key_of_tail(s: Seq<char>, n: int, start: int, i: int)
    requires
        0 <= n <= s.len(),
        0 <= start <= i,
    ensures
        key_from(s, start + n, i + n) == key_from(s.skip(n), start, i),
    decreases s.len() - n - i,
{
    let t = s.skip(n);
    if i >= t.len() {
        if start < t.len() {
            assert(s.subrange(start + n, s.len() as int) =~= t.subrange(start, t.len() as int));
        }
    } else {
        if start < i && is_digit(t[i]) != is_digit(t[start]) {
            assert(s.subrange(start + n, i + n) =~= t.subrange(start, i));
            lemma_key_of_tail(s, n, i, i + 1);
        } else {
            lemma_key_of_tail(s, n, start, i + 1);
        }
    }
}

proof fn lemma_first_run(a: Seq<char>, b: Seq<char>, i: int)
    requires
        a.len() > 0,
        0 <= i <= a.len(),
        forall|k: int| 0 <= k < a.len() ==> is_digit(#[trigger] a[k]) == is_digit(a[0]),
        b.len() > 0 ==> is_digit(b[0]) != is_digit(a[0]),
    ensures
        key_from(a + b, 0, i) == segment_key(a, is_digit(a[0])) + natural_key(b),
    decreases a.len() - i,
{
    let s = a + b;
    if i < a.len() {
        assert(s[i] == a[i]);
        lemma_first_run(a, b, i + 1);
    } else if b.len() == 0 {
        assert(s =~= a);
        assert(s.subrange(0, s.len() as int) =~= a);
        assert(segment_key(a, is_digit(a[0])) + natural_key(b) =~= segment_key(
            a,
            is_digit(a[0]),
        ));
    } else {
        assert(s[i] == b[0]);
        assert(s.subrange(0, i) =~= a);
        assert(s.skip(i) =~= b);
        lemma_key_of_tail(s, i, 0, 1);
    }
}

/// The key of a text is built run by run: where a text begins with a run of one
/// kind, digits or others, that the next character does not continue, its key is the
/// key of the run, and then the key of the rest.
pub proof fn law_key_is_built_run_by_run(run: Seq<char>, rest: Seq<char>)
    requires
        run.len() > 0,
        forall|k: int| 0 <= k < run.len() ==> is_digit(#[trigger] run[k]) == is_digit(run[0]),
        rest.len() > 0 ==> is_digit(rest[0]) != is_digit(run[0]),
    ensures
        natural_key(run + rest) == segment_key(run, is_digit(run[0])) + natural_key(rest),
        natural_key(Seq::<char>::empty()) == Seq::<char>::empty(),
{
    lemma_first_run(run, rest, 0);
}

} // verus!
