//! Formatted scanning of a line, done by the `scan_fmt` crate.

use vstd::prelude::*;

use crate::error::Attribute;

verus! {

/// The tokens that `scan_fmt` extracts from `line` when it scans the line
/// against `format`, in the order of the placeholders that they stand for.
/// Scanning stops at the first place where line and format disagree, so there
/// may be fewer tokens than placeholders.
pub uninterp spec fn scanned(line: Seq<char>, format: Seq<char>) -> Seq<Seq<char>>;

/// A format whose only placeholders are `{}`: every opening brace is followed
/// at once by a closing one.
pub open spec fn plain_format(format: Seq<char>) -> bool {
    forall|i: int|
        0 <= i < format.len() && #[trigger] format[i] == '{' ==> i + 1 < format.len() && format[i
            + 1] == '}'
}

/// Calls `scan_fmt::parse::scan` and collects the tokens that it yields.
///
/// The contract is not proved. It claims that the tokens are a function of
/// the line and the format alone, and gives that function the name
/// `scanned`. Formats with typed, pattern or regular-expression placeholders
/// are left out, because the scanner can index past the end of its input on
/// some of them; with `{}` alone it returns for every line.
#[verifier::external_body]
pub(crate) fn scan(line: &str, format: &str) -> (tokens: Vec<String>)
    requires
        plain_format(format@),
    ensures
        tokens.deep_view() == scanned(line@, format@),
{
    scan_fmt::parse::scan(line, format).collect()
}

/// The format of a declaration of `attribute`.
pub open spec fn attribute_format(attribute: Attribute) -> Seq<char> {
    match attribute {
        Attribute::Position => "v {} {} {}"@,
        Attribute::TexCoord => "vt {} {}"@,
        Attribute::Normal => "vn {} {} {}"@,
    }
}

/// The format of a face whose corners name position, texture coordinate and
/// normal.
pub open spec fn vtn_format() -> Seq<char> {
    "f {}/{}/{} {}/{}/{} {}/{}/{}"@
}

/// The format of a face whose corners name position and normal.
pub open spec fn vn_format() -> Seq<char> {
    "f {}//{} {}//{} {}//{}"@
}

/// Scans a line as a declaration of `attribute`.
pub fn scan_attribute(line: &str, attribute: Attribute) -> (tokens: Vec<String>)
    ensures
        tokens.deep_view() == scanned(line@, attribute_format(attribute)),
{
    match attribute {
        Attribute::Position => {
            proof {
                reveal_strlit("v {} {} {}");
            }
            scan(line, "v {} {} {}")
        },
        Attribute::TexCoord => {
            proof {
                reveal_strlit("vt {} {}");
            }
            scan(line, "vt {} {}")
        },
        Attribute::Normal => {
            proof {
                reveal_strlit("vn {} {} {}");
            }
            scan(line, "vn {} {} {}")
        },
    }
}

/// Scans a line as a face with texture coordinates.
pub fn scan_vtn(line: &str) -> (tokens: Vec<String>)
    ensures
        tokens.deep_view() == scanned(line@, vtn_format()),
{
    proof {
        reveal_strlit("f {}/{}/{} {}/{}/{} {}/{}/{}");
    }
    scan(line, "f {}/{}/{} {}/{}/{} {}/{}/{}")
}

/// Scans a line as a face without texture coordinates.
pub fn scan_vn(line: &str) -> (tokens: Vec<String>)
    ensures
        tokens.deep_view() == scanned(line@, vn_format()),
{
    proof {
        reveal_strlit("f {}//{} {}//{} {}//{}");
    }
    scan(line, "f {}//{} {}//{} {}//{}")
}

} // verus!
