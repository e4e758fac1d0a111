//! Reading a stored embedding. The numbers of an embedding are binary32; they are
//! held by their bit patterns.

use vstd::prelude::*;
use vstd::slice::*;
use crate::similar::EmbedFailure;

verus! {

/// The number of elements of every embedding.
pub const EMBEDDING_DIM: usize = 768;

/// The 32-bit number whose bytes, lowest first, are the four given.
pub open spec fn le_word(b0: u8, b1: u8, b2: u8, b3: u8) -> u32 {
    (b0 + b1 * 0x100 + b2 * 0x1_0000 + b3 * 0x100_0000) as u32
}

/// Whether a blob holds packed numbers: its length is a multiple of four and not zero.
pub open spec fn is_packed(raw: Seq<u8>) -> bool {
    raw.len() > 0 && raw.len() % 4 == 0
}

/// The numbers packed in a blob, four bytes each, lowest byte first.
pub open spec fn unpacked(raw: Seq<u8>) -> Seq<u32> {
    Seq::new(
        raw.len() / 4,
        |i: int| le_word(raw[4 * i], raw[4 * i + 1], raw[4 * i + 2], raw[4 * i + 3]),
    )
}

/// Why a blob gives no embedding.
#[derive(Debug, Clone, Copy, PartialEq, Eq, Structural)]
pub enum DecodeError {
    /// The blob holds neither packed numbers nor the text of a list of numbers.
    Unreadable,
    /// The blob holds a list of numbers of the wrong length.
    WrongDimension { found: usize },
}

/// The numbers of a blob before their count is checked: the packed numbers where
/// the blob is packed, else what the reading of the blob as text gave.
pub open spec fn blob_values(raw: Seq<u8>, text_reading: Option<Seq<u32>>) -> Option<Seq<u32>> {
    if is_packed(raw) {
        Some(unpacked(raw))
    } else {
        text_reading
    }
}

/// The embedding of a blob: its numbers, if there are exactly `EMBEDDING_DIM`.
pub open spec fn decoded(raw: Seq<u8>, text_reading: Option<Seq<u32>>) -> Result<
    Seq<u32>,
    DecodeError,
> {
    match blob_values(raw, text_reading) {
        None => Err(DecodeError::Unreadable),
        Some(v) => if v.len() == EMBEDDING_DIM {
            Ok(v)
        } else {
            Err(DecodeError::WrongDimension { found: v.len() as usize })
        },
    }
}

/// Whether the blob has to be read as text, because it is not packed.
pub fn needs_text_reading(raw: &[u8]) -> (r: bool)
    ensures
        r == !is_packed(raw@),
{
    !(raw.len() > 0 && raw.len() % 4 == 0)
}

/// Unpacks the numbers of a blob whose length is a multiple of four.
pub fn unpack(raw: &[u8]) -> (r: Vec<u32>)
    requires
        raw@.len() % 4 == 0,
    ensures
        r@ == unpacked(raw@),
{
    let len = raw.len();
    let n = len / 4;
    let mut out: Vec<u32> = Vec::new();
    let mut i: usize = 0;
    while i < n
        invariant
            len == raw@.len(),
            n == len / 4,
            raw@.len() % 4 == 0,
            i <= n,
            out@.len() == i,
            forall|k: int| 0 <= k < i ==> out@[k] == #[trigger] unpacked(raw@)[k],
        decreases n - i,
    {
        let b0 = raw[4 * i] as u32;
        let b1 = raw[4 * i + 1] as u32;
        let b2 = raw[4 * i + 2] as u32;
        let b3 = raw[4 * i + 3] as u32;
        out.push(b0 + b1 * 0x100 + b2 * 0x1_0000 + b3 * 0x100_0000);
        i += 1;
    }
    out
}

/// Decodes a stored embedding. `text_reading` is what reading the blob as the text
/// of a list of numbers gave; it counts only for a blob that is not packed.
/// An embedding that is handed out has `EMBEDDING_DIM` elements.
pub fn decode_embedding(raw: &[u8], text_reading: Option<Vec<u32>>) -> (r: Result<
    Vec<u32>,
    DecodeError,
>)
    ensures
        match r {
            Ok(v) => decoded(
                raw@,
                match text_reading {
                    Some(t) => Some(t@),
                    None => None,
                },
            ) == Ok::<Seq<u32>, DecodeError>(v@) && v@.len() == EMBEDDING_DIM,
            Err(e) => decoded(
                raw@,
                match text_reading {
                    Some(t) => Some(t@),
                    None => None,
                },
            ) == Err::<Seq<u32>, DecodeError>(e),
        },
{
    let values = if needs_text_reading(raw) {
        text_reading
    } else {
        Some(unpack(raw))
    };
    match values {
        None => Err(DecodeError::Unreadable),
        Some(v) => {
            if v.len() == EMBEDDING_DIM {
                Ok(v)
            } else {
                Err(DecodeError::WrongDimension { found: v.len() })
            }
        },
    }
}

/// Accepts the embedding that the embedder wrote for a query: a list of exactly
/// `EMBEDDING_DIM` numbers. Anything else is a malformed answer of the embedder.
pub fn accept_query_embedding(values: Option<Vec<u32>>) -> (r: Result<Vec<u32>, EmbedFailure>)
    ensures
        match r {
            Ok(v) => values == Some(v) && v@.len() == EMBEDDING_DIM,
            Err(e) => e == EmbedFailure::InvalidFormat && !(values matches Some(v) && v@.len()
                == EMBEDDING_DIM),
        },
{
    match values {
        Some(v) => {
            if v.len() == EMBEDDING_DIM {
                Ok(v)
            } else {
                Err(EmbedFailure::InvalidFormat)
            }
        },
        None => Err(EmbedFailure::InvalidFormat),
    }
}

} // verus!
