use obj_mesh::error::Attribute;
use obj_mesh::line::{classify_line, skip_spaces, slash_count, LineKind};

#[test]
fn skip_spaces_stops_at_the_leading_token() {
    assert_eq!(skip_spaces(b"v 1 2 3"), 0);
    assert_eq!(skip_spaces(b"   v 1 2 3"), 3);
    assert_eq!(skip_spaces(b" \\ \\f 1//1"), 4);
    assert_eq!(skip_spaces(b"\tv 1 2 3"), 0);
}

#[test]
fn skip_spaces_never_passes_the_last_byte() {
    assert_eq!(skip_spaces(b""), 0);
    assert_eq!(skip_spaces(b" "), 0);
    assert_eq!(skip_spaces(b"\\"), 0);
    assert_eq!(skip_spaces(b"    "), 3);
    assert_eq!(skip_spaces(b"        \\"), 8);
    assert_eq!(skip_spaces(b"   v"), 3);
}

#[test]
fn lines_are_classified_by_their_leading_token() {
    assert_eq!(classify_line(b"v 1 2 3"), LineKind::Declaration(Attribute::Position));
    assert_eq!(classify_line(b"   v  0.0  0.0  0.0    \\"), LineKind::Declaration(Attribute::Position));
    assert_eq!(classify_line(b"vt 0.5 0.5"), LineKind::Declaration(Attribute::TexCoord));
    assert_eq!(classify_line(b"  vn 0 0 1"), LineKind::Declaration(Attribute::Normal));
    assert_eq!(classify_line(b"f 1//1 2//2 3//3"), LineKind::Face);
    assert_eq!(classify_line(b"\\ f"), LineKind::Face);
    assert_eq!(classify_line(b"f"), LineKind::Face);
    assert_eq!(classify_line(b"vtx"), LineKind::Declaration(Attribute::TexCoord));
}

#[test]
fn other_lines_are_of_no_kind() {
    for line in ["", " ", "    ", "\\", "# v 1 2 3", "o object1", "g cube", "s 1", "v", "   v", "vp 1 2",
        "v\t1 2 3", "V 1 2 3", "F 1//1 1//1 1//1", "usemtl f", "mtllib v n"] {
        assert_eq!(classify_line(line.as_bytes()), LineKind::Other, "{:?}", line);
    }
}

#[test]
fn slashes_are_counted_over_the_whole_line() {
    assert_eq!(slash_count(b""), 0);
    assert_eq!(slash_count(b"f 1 2 3"), 0);
    assert_eq!(slash_count(b"f 1//2 7//2 5//2"), 6);
    assert_eq!(slash_count(b"f 1/1/1 2/2/2 3/3/3"), 6);
    assert_eq!(slash_count(b"f 1/1/1 2/2/2 3/3/3 4/4/4"), 8);
    assert_eq!(slash_count(b"//////"), 6);
    assert_eq!(slash_count(b"\\ \\ f 1/2"), 1);
}
