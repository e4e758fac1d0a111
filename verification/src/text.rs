//! Text helpers. Strings are modelled by their sequence of characters.

use vstd::prelude::*;
use vstd::string::*;
use vstd::utf8::{encode_utf8, encode_utf8_decode_utf8};

verus! {

/// `String::push` appends the character to the end of the string.
pub assume_specification[ String::push ](s: &mut String, c: char)
    ensures
        final(s)@ == old(s)@.push(c),
;

/// What `str::trim` leaves of a text: the text without leading and trailing whitespace,
/// whitespace being the Unicode property `White_Space`.
pub uninterp spec fn trimmed(s: Seq<char>) -> Seq<char>;

/// What `str::to_lowercase` makes of a text, by the Unicode lowercase mapping.
pub uninterp spec fn lowercased(s: Seq<char>) -> Seq<char>;

/// What `str::to_uppercase` makes of a text, by the Unicode uppercase mapping.
pub uninterp spec fn uppercased(s: Seq<char>) -> Seq<char>;

/// `str::trim` returns the slice named by [`trimmed`].
pub assume_specification[ str::trim ](s: &str) -> (r: &str)
    ensures
        r@ == trimmed(s@),
;

/// `str::to_lowercase` returns the text named by [`lowercased`].
pub assume_specification[ str::to_lowercase ](s: &str) -> (r: String)
    ensures
        r@ == lowercased(s@),
;

/// `str::to_uppercase` returns the text named by [`uppercased`].
pub assume_specification[ str::to_uppercase ](s: &str) -> (r: String)
    ensures
        r@ == uppercased(s@),
;

pub open spec fn is_digit(c: char) -> bool {
    '0' <= c <= '9'
}

pub open spec fn all_digits(s: Seq<char>) -> bool {
    forall|i: int| 0 <= i < s.len() ==> is_digit(#[trigger] s[i])
}

/// The characters of a text, one element each.
pub fn to_chars(s: &str) -> (r: Vec<char>)
    ensures
        r@ == s@,
{
    let mut out: Vec<char> = Vec::new();
    for c in it: s.chars()
        invariant
            out@ == s@.take(it.index() as int),
            it.seq() == s@,
    {
        out.push(c);
    }
    out
}

/// The text made of the given characters.
pub fn from_chars(v: &Vec<char>) -> (r: String)
    ensures
        r@ == v@,
{
    let mut out = String::new();
    let mut i: usize = 0;
    while i < v.len()
        invariant
            i <= v.len(),
            out@ == v@.take(i as int),
        decreases v.len() - i,
    {
        out.push(v[i]);
        i += 1;
    }
    out
}

/// The text made of the characters `v[from..to]`.
pub fn from_chars_range(v: &Vec<char>, from: usize, to: usize) -> (r: String)
    requires
        from <= to <= v.len(),
    ensures
        r@ == v@.subrange(from as int, to as int),
{
    let mut out = String::new();
    let mut i: usize = from;
    while i < to
        invariant
            from <= i <= to <= v.len(),
            out@ == v@.subrange(from as int, i as int),
        decreases to - i,
    {
        out.push(v[i]);
        i += 1;
    }
    out
}

/// Whether two texts hold the same characters. The texts are compared by their bytes:
/// two texts are the same exactly when their UTF-8 encodings are.
pub fn str_eq(a: &str, b: &str) -> (r: bool)
    ensures
        r == (a@ == b@),
{
    let x = a.as_bytes();
    let y = b.as_bytes();
    proof {
        encode_utf8_decode_utf8(a@);
        encode_utf8_decode_utf8(b@);
    }
    if x.len() != y.len() {
        return false;
    }
    let mut i: usize = 0;
    while i < x.len()
        invariant
            x@ == encode_utf8(a@),
            y@ == encode_utf8(b@),
            x@.len() == y@.len(),
            i <= x@.len(),
            forall|k: int| 0 <= k < i ==> x@[k] == y@[k],
        decreases x.len() - i,
    {
        if x[i] != y[i] {
            return false;
        }
        i += 1;
    }
    assert(x@ =~= y@);
    true
}

/// The two texts one after the other.
pub fn join(a: &str, b: &str) -> (r: String)
    ensures
        r@ == a@ + b@,
{
    let s = a.to_owned();
    s.concat(b)
}

/// An owned copy of every text of the list, in order.
pub fn clone_texts(v: &Vec<String>) -> (r: Vec<String>)
    ensures
        r@ == v@,
{
    let mut out: Vec<String> = Vec::new();
    let mut i: usize = 0;
    while i < v.len()
        invariant
            i <= v.len(),
            out@ == v@.take(i as int),
        decreases v.len() - i,
    {
        out.push(v[i].clone());
        i += 1;
    }
    out
}

/// The character sequences of a list of texts.
pub open spec fn texts(v: Seq<String>) -> Seq<Seq<char>> {
    Seq::new(v.len(), |i: int| v[i]@)
}

/// The sequences of a list that grew by one text are those of the list, and the
/// sequence of the new text.
pub proof fn lemma_texts_push(v: Seq<String>, s: String)
    ensures
        texts(v.push(s)) == texts(v).push(s@),
{
}

/// The view of an optional text.
pub open spec fn opt_text(o: Option<String>) -> Option<Seq<char>> {
    match o {
        Some(s) => Some(s@),
        None => None,
    }
}

/// The place of the first occurrence of a character in a text, or the length of the
/// text if the character does not occur.
pub open spec fn index_of(s: Seq<char>, c: char) -> int
    decreases s.len(),
{
    if s.len() == 0 {
        0
    } else if s[0] == c {
        0
    } else {
        1 + index_of(s.skip(1), c)
    }
}

/// Finds the first occurrence of a character.
pub fn find_char(v: &Vec<char>, c: char) -> (r: usize)
    ensures
        r == index_of(v@, c),
        r <= v.len(),
{
    let mut i: usize = 0;
    assert(v@.skip(0) =~= v@);
    while i < v.len()
        invariant
            i <= v.len(),
            index_of(v@, c) == i + index_of(v@.skip(i as int), c),
        decreases v.len() - i,
    {
        if v[i] == c {
            return i;
        }
        assert(v@.skip(i as int).skip(1) =~= v@.skip(i + 1));
        i += 1;
    }
    i
}

/// The pieces one after the other, with the separator between them.
pub open spec fn joined(pieces: Seq<Seq<char>>, sep: Seq<char>) -> Seq<char>
    decreases pieces.len(),
{
    if pieces.len() == 0 {
        Seq::empty()
    } else if pieces.len() == 1 {
        pieces[0]
    } else {
        joined(pieces.drop_last(), sep) + sep + pieces.last()
    }
}

/// The pieces of the text from `start` on, cut at every separator, when no separator
/// stands between `start` and `i`.
pub open spec fn pieces_from(s: Seq<char>, sep: char, start: int, i: int) -> Seq<Seq<char>>
    decreases s.len() - i,
{
    if i >= s.len() || start < 0 || start > i {
        seq![s.subrange(start, s.len() as int)]
    } else if s[i] == sep {
        seq![s.subrange(start, i)] + pieces_from(s, sep, i + 1, i + 1)
    } else {
        pieces_from(s, sep, start, i + 1)
    }
}

/// The pieces of a text cut at every separator. A text without a separator is one
/// piece, and so is the empty text.
pub open spec fn split_on(s: Seq<char>, sep: char) -> Seq<Seq<char>> {
    pieces_from(s, sep, 0, 0)
}

/// The pieces of a text cut at every separator, each without surrounding whitespace.
pub open spec fn trimmed_pieces(s: Seq<char>, sep: char) -> Seq<Seq<char>> {
    split_on(s, sep).map_values(|piece: Seq<char>| trimmed(piece))
}

/// The pieces of a list given with commas, each without surrounding whitespace.
pub open spec fn comma_list(s: Seq<char>) -> Seq<Seq<char>> {
    trimmed_pieces(s, ',')
}

proof fn lemma_joined_front(first: Seq<char>, rest: Seq<Seq<char>>, sep: Seq<char>)
    requires
        rest.len() > 0,
    ensures
        joined(seq![first] + rest, sep) == first + sep + joined(rest, sep),
    decreases rest.len(),
{
    let all = seq![first] + rest;
    assert(all.drop_last() =~= seq![first] + rest.drop_last());
    assert(all.last() == rest.last());
    if rest.len() == 1 {
        assert(all.drop_last() =~= seq![first]);
        assert(joined(all.drop_last(), sep) == first);
        assert(joined(rest, sep) == rest[0]);
        assert(joined(all, sep) == joined(all.drop_last(), sep) + sep + all.last());
    } else {
        lemma_joined_front(first, rest.drop_last(), sep);
        assert(joined(all, sep) =~= first + sep + joined(rest, sep));
    }
}

/// Whether a character does not occur in a text.
pub open spec fn free_of(s: Seq<char>, c: char) -> bool {
    forall|k: int| 0 <= k < s.len() ==> s[k] != c
}

proof fn lemma_pieces(s: Seq<char>, sep: char, start: int, i: int)
    requires
        0 <= start <= i <= s.len(),
        forall|k: int| start <= k < i ==> s[k] != sep,
    ensures
        pieces_from(s, sep, start, i).len() >= 1,
        joined(pieces_from(s, sep, start, i), seq![sep]) == s.subrange(start, s.len() as int),
        forall|p: int|
            0 <= p < pieces_from(s, sep, start, i).len() ==> free_of(
                #[trigger] pieces_from(s, sep, start, i)[p],
                sep,
            ),
    decreases s.len() - i,
{
    if i >= s.len() {
    } else if s[i] == sep {
        let rest = pieces_from(s, sep, i + 1, i + 1);
        lemma_pieces(s, sep, i + 1, i + 1);
        lemma_joined_front(s.subrange(start, i), rest, seq![sep]);
        assert(s.subrange(start, i) + seq![sep] + s.subrange(i + 1, s.len() as int)
            =~= s.subrange(start, s.len() as int));
        let all = pieces_from(s, sep, start, i);
        assert forall|p: int| 0 <= p < all.len() implies free_of(#[trigger] all[p], sep) by {
            if p > 0 {
                assert(all[p] == rest[p - 1]);
            }
        }
    } else {
        lemma_pieces(s, sep, start, i + 1);
    }
}

/// Cutting a text at a separator loses nothing and leaves the separator in no piece:
/// the pieces, put together again with the separator between them, are the text.
pub proof fn law_pieces_make_the_text(s: Seq<char>, sep: char)
    ensures
        split_on(s, sep).len() >= 1,
        joined(split_on(s, sep), seq![sep]) == s,
        forall|p: int|
            0 <= p < split_on(s, sep).len() ==> free_of(#[trigger] split_on(s, sep)[p], sep),
{
    lemma_pieces(s, sep, 0, 0);
    assert(s.subrange(0, s.len() as int) =~= s);
}

/// Cuts a text at every separator and trims each piece.
pub fn split_trimmed(s: &str, sep: char) -> (r: Vec<String>)
    ensures
        texts(r@) == trimmed_pieces(s@, sep),
        r@.len() >= 1,
{
    let v = to_chars(s);
    let mut out: Vec<String> = Vec::new();
    let mut start: usize = 0;
    let mut i: usize = 0;
    let ghost trim = |piece: Seq<char>| trimmed(piece);
    while i < v.len()
        invariant
            v@ == s@,
            start <= i <= v.len(),
            trim == |piece: Seq<char>| trimmed(piece),
            trimmed_pieces(s@, sep) == texts(out@) + pieces_from(
                s@,
                sep,
                start as int,
                i as int,
            ).map_values(trim),
        decreases v.len() - i,
    {
        if v[i] == sep {
            let piece = from_chars_range(&v, start, i);
            let ghost before = out@;
            out.push(piece.as_str().trim().to_owned());
            proof {
                lemma_texts_push(before, out@.last());
            }
            start = i + 1;
        }
        i += 1;
    }
    let piece = from_chars_range(&v, start, v.len());
    let ghost before = out@;
    out.push(piece.as_str().trim().to_owned());
    proof {
        lemma_texts_push(before, out@.last());
    }
    out
}

/// Reads a list given with commas: cuts the text at every comma and trims each piece.
pub fn parse_comma_list(s: &str) -> (r: Vec<String>)
    ensures
        texts(r@) == comma_list(s@),
        r@.len() >= 1,
{
    split_trimmed(s, ',')
}

/// The decimal digit for a value below ten.
pub open spec fn digit_char(d: nat) -> char
    recommends
        d < 10,
{
    ((d + 48) as u8) as char
}

/// The decimal numeral of a natural number, without sign or leading zeros.
pub open spec fn decimal(n: nat) -> Seq<char>
    decreases n,
{
    if n < 10 {
        seq![digit_char(n)]
    } else {
        decimal(n / 10).push(digit_char(n % 10))
    }
}

/// Writes a number as its decimal numeral.
pub fn decimal_string(n: u64) -> (r: String)
    ensures
        r@ == decimal(n as nat),
{
    let mut rev: Vec<char> = Vec::new();
    let mut rest: u64 = n;
    // rev holds the low digits of n, lowest first; rest is what remains above them.
    while rest >= 10
        invariant
            decimal(n as nat) == decimal(rest as nat) + rev@.reverse(),
        decreases rest,
    {
        let d: u8 = (rest % 10) as u8;
        let c: char = (d + 48) as char;
        let ghost before = rev@;
        let ghost prev = rest;
        rev.push(c);
        rest = rest / 10;
        assert(decimal(rest as nat) + rev@.reverse() =~= decimal(prev as nat) + before.reverse());
    }
    let d: u8 = rest as u8;
    let mut out = String::new();
    out.push((d + 48) as char);
    let mut i: usize = rev.len();
    while i > 0
        invariant
            i <= rev.len(),
            out@ == decimal(rest as nat) + rev@.reverse().take(rev.len() - i),
        decreases i,
    {
        i -= 1;
        out.push(rev[i]);
    }
    out
}

} // verus!
