//! Byte-level classification of the lines of an OBJ file.

use vstd::prelude::*;
use vstd::utf8::encode_utf8;

use crate::error::Attribute;

verus! {

/// What a line declares, judged by its first bytes alone.
#[derive(Clone, Copy, Debug, PartialEq, Eq)]
pub enum LineKind {
    /// `v x y z`, `vt s t` or `vn x y z`: one declaration of an attribute.
    Declaration(Attribute),
    /// `f ...`: a face.
    Face,
    /// Anything else: objects, groups, comments, blank lines.
    Other,
}

/// A byte that may precede the leading token of a line: a space or a
/// backslash.
pub open spec fn is_blank(byte: u8) -> bool {
    byte == 0x20 || byte == 0x5c
}

/// The number of blanks in front of the leading token. The last byte of a
/// line is never skipped, so the result indexes into every non-empty line.
pub open spec fn leading_blanks(bytes: Seq<u8>) -> nat
    decreases bytes.len(),
{
    if bytes.len() <= 1 || !is_blank(bytes[0]) {
        0
    } else {
        1 + leading_blanks(bytes.skip(1))
    }
}

/// The kind of the line made of `bytes`.
pub open spec fn line_kind(bytes: Seq<u8>) -> LineKind {
    let i = leading_blanks(bytes) as int;
    if i >= bytes.len() {
        LineKind::Other
    } else if bytes[i] == 0x66 {
        LineKind::Face
    } else if bytes[i] == 0x76 && i + 1 < bytes.len() {
        if bytes[i + 1] == 0x20 {
            LineKind::Declaration(Attribute::Position)
        } else if bytes[i + 1] == 0x74 {
            LineKind::Declaration(Attribute::TexCoord)
        } else if bytes[i + 1] == 0x6e {
            LineKind::Declaration(Attribute::Normal)
        } else {
            LineKind::Other
        }
    } else {
        LineKind::Other
    }
}

/// The kind of a line of text, which is the kind of its UTF-8 bytes.
pub open spec fn text_kind(line: Seq<char>) -> LineKind {
    line_kind(encode_utf8(line))
}

/// The number of `/` bytes in `bytes`.
pub open spec fn count_slashes(bytes: Seq<u8>) -> nat
    decreases bytes.len(),
{
    if bytes.len() == 0 {
        0
    } else {
        count_slashes(bytes.drop_last()) + if bytes.last() == 0x2f {
            1nat
        } else {
            0nat
        }
    }
}

/// `leading_blanks` is the only index that has blanks alone before it and
/// either stands at a byte that is no blank or at the last byte.
pub proof fn lemma_leading_blanks(bytes: Seq<u8>)
    ensures
        bytes.len() == 0 ==> leading_blanks(bytes) == 0,
        bytes.len() > 0 ==> leading_blanks(bytes) < bytes.len(),
        forall|j: int| 0 <= j < leading_blanks(bytes) ==> is_blank(#[trigger] bytes[j]),
        leading_blanks(bytes) + 1 < bytes.len() ==> !is_blank(bytes[leading_blanks(bytes) as int]),
    decreases bytes.len(),
{
    if bytes.len() <= 1 || !is_blank(bytes[0]) {
    } else {
        let rest = bytes.skip(1);
        lemma_leading_blanks(rest);
        assert forall|j: int| 0 <= j < leading_blanks(bytes) implies is_blank(
            #[trigger] bytes[j],
        ) by {
            if j > 0 {
                assert(bytes[j] == rest[j - 1]);
            }
        }
        assert(rest[leading_blanks(rest) as int] == bytes[leading_blanks(bytes) as int]);
    }
}

/// Skips the blanks in front of the leading token of a line and returns the
/// index at which the token starts.
pub fn skip_spaces(bytes: &[u8]) -> (index: usize)
    ensures
        index == leading_blanks(bytes@),
        bytes@.len() == 0 ==> index == 0,
        bytes@.len() > 0 ==> index < bytes@.len(),
        forall|j: int| 0 <= j < index ==> is_blank(#[trigger] bytes@[j]),
        index + 1 < bytes@.len() ==> !is_blank(bytes@[index as int]),
{
    let len = bytes.len();
    let mut index: usize = 0;
    proof {
        assert(bytes@.skip(0) =~= bytes@);
    }
    while index + 1 < len && (bytes[index] == 0x20 || bytes[index] == 0x5c)
        invariant
            len == bytes@.len(),
            index <= len,
            len > 0 ==> index < len,
            leading_blanks(bytes@) == index + leading_blanks(bytes@.skip(index as int)),
        decreases len - index,
    {
        proof {
            assert(bytes@.skip(index as int).skip(1) =~= bytes@.skip(index + 1));
        }
        index += 1;
    }
    proof {
        lemma_leading_blanks(bytes@);
    }
    index
}

/// Classifies a line by its leading token.
pub fn classify_line(bytes: &[u8]) -> (kind: LineKind)
    ensures
        kind == line_kind(bytes@),
{
    let i = skip_spaces(bytes);
    if i >= bytes.len() {
        LineKind::Other
    } else if bytes[i] == 0x66 {
        LineKind::Face
    } else if bytes[i] == 0x76 && i + 1 < bytes.len() {
        let next = bytes[i + 1];
        if next == 0x20 {
            LineKind::Declaration(Attribute::Position)
        } else if next == 0x74 {
            LineKind::Declaration(Attribute::TexCoord)
        } else if next == 0x6e {
            LineKind::Declaration(Attribute::Normal)
        } else {
            LineKind::Other
        }
    } else {
        LineKind::Other
    }
}

/// Counts the `/` bytes of a line.
pub fn slash_count(bytes: &[u8]) -> (count: usize)
    ensures
        count == count_slashes(bytes@),
{
    let mut count: usize = 0;
    let mut j: usize = 0;
    while j < bytes.len()
        invariant
            j <= bytes@.len(),
            count <= j,
            count == count_slashes(bytes@.take(j as int)),
        decreases bytes@.len() - j,
    {
        proof {
            assert(bytes@.take(j + 1).drop_last() =~= bytes@.take(j as int));
        }
        if bytes[j] == 0x2f {
            count += 1;
        }
        j += 1;
    }
    proof {
        assert(bytes@.take(j as int) =~= bytes@);
    }
    count
}

} // verus!
