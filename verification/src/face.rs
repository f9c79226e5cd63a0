//! Faces: reading the indices of a triangle and expanding it into vertices.

use vstd::prelude::*;
use vstd::utf8::encode_utf8;

use crate::error::{Attribute, ObjError};
use crate::index::{index_value, parse_index};
use crate::line::{count_slashes, slash_count};
use crate::scan::{scan_vn, scan_vtn, scanned, vn_format, vtn_format};
use crate::vertex_data::{Declared, SortedVertexData, UnsortedVertexData, Vertices};

verus! {

/// One corner of a face: the indices, counted from 1, of its position, of
/// its texture coordinate if the face names one, and of its normal.
#[derive(Clone, Copy, Debug, PartialEq, Eq)]
pub struct Corner {
    pub position: u32,
    pub tex_coord: Option<u32>,
    pub normal: u32,
}

/// The three corners of a triangular face, in the order of the face line.
#[derive(Clone, Copy, Debug, PartialEq, Eq)]
pub struct Triangle {
    pub a: Corner,
    pub b: Corner,
    pub c: Corner,
}

/// The nine indices of a face with texture coordinates, as far as they were
/// read: position, texture coordinate and normal of each corner in turn.
pub type VtnIndices = (
    Option<u32>,
    Option<u32>,
    Option<u32>,
    Option<u32>,
    Option<u32>,
    Option<u32>,
    Option<u32>,
    Option<u32>,
    Option<u32>,
);

/// The six indices of a face without texture coordinates, as far as they
/// were read: position and normal of each corner in turn.
pub type VnIndices = (Option<u32>, Option<u32>, Option<u32>, Option<u32>, Option<u32>, Option<u32>);

/// The index that token `k` denotes, if there is such a token and it is a
/// decimal index.
pub open spec fn token_index(tokens: Seq<Seq<char>>, k: int) -> Option<u32> {
    if 0 <= k < tokens.len() {
        index_value(encode_utf8(tokens[k]))
    } else {
        None
    }
}

/// The indices that the tokens of a face with texture coordinates denote.
pub open spec fn vtn_indices(tokens: Seq<Seq<char>>) -> VtnIndices {
    (
        token_index(tokens, 0),
        token_index(tokens, 1),
        token_index(tokens, 2),
        token_index(tokens, 3),
        token_index(tokens, 4),
        token_index(tokens, 5),
        token_index(tokens, 6),
        token_index(tokens, 7),
        token_index(tokens, 8),
    )
}

/// The indices that the tokens of a face without texture coordinates denote.
pub open spec fn vn_indices(tokens: Seq<Seq<char>>) -> VnIndices {
    (
        token_index(tokens, 0),
        token_index(tokens, 1),
        token_index(tokens, 2),
        token_index(tokens, 3),
        token_index(tokens, 4),
        token_index(tokens, 5),
    )
}

/// The triangle of nine indices, if all of them were read.
pub open spec fn vtn_triangle(indices: VtnIndices) -> Option<Triangle> {
    match indices {
        (
            Some(vp0),
            Some(vt0),
            Some(vn0),
            Some(vp1),
            Some(vt1),
            Some(vn1),
            Some(vp2),
            Some(vt2),
            Some(vn2),
        ) => Some(
            Triangle {
                a: Corner { position: vp0, tex_coord: Some(vt0), normal: vn0 },
                b: Corner { position: vp1, tex_coord: Some(vt1), normal: vn1 },
                c: Corner { position: vp2, tex_coord: Some(vt2), normal: vn2 },
            },
        ),
        _ => None,
    }
}

/// The triangle of six indices, if all of them were read.
pub open spec fn vn_triangle(indices: VnIndices) -> Option<Triangle> {
    match indices {
        (Some(vp0), Some(vn0), Some(vp1), Some(vn1), Some(vp2), Some(vn2)) => Some(
            Triangle {
                a: Corner { position: vp0, tex_coord: None, normal: vn0 },
                b: Corner { position: vp1, tex_coord: None, normal: vn1 },
                c: Corner { position: vp2, tex_coord: None, normal: vn2 },
            },
        ),
        _ => None,
    }
}

/// The first index of a corner that names no declared attribute, with the
/// attribute it was meant for. The position is looked at first, then the
/// texture coordinate, then the normal.
pub open spec fn corner_fault(corner: Corner, store: Declared) -> Option<(Attribute, u32)> {
    if !store.holds(Attribute::Position, corner.position) {
        Some((Attribute::Position, corner.position))
    } else if corner.tex_coord is Some && !store.holds(
        Attribute::TexCoord,
        corner.tex_coord.unwrap(),
    ) {
        Some((Attribute::TexCoord, corner.tex_coord.unwrap()))
    } else if !store.holds(Attribute::Normal, corner.normal) {
        Some((Attribute::Normal, corner.normal))
    } else {
        None
    }
}

/// The first index of a triangle that names no declared attribute, corner
/// after corner.
pub open spec fn triangle_fault(triangle: Triangle, store: Declared) -> Option<(Attribute, u32)> {
    if corner_fault(triangle.a, store) is Some {
        corner_fault(triangle.a, store)
    } else if corner_fault(triangle.b, store) is Some {
        corner_fault(triangle.b, store)
    } else {
        corner_fault(triangle.c, store)
    }
}

/// `out` with one more vertex: copies of the attributes that `corner` names.
pub open spec fn with_corner(out: Vertices, corner: Corner, store: Declared) -> Vertices {
    Vertices {
        points: out.points + store.declaration(Attribute::Position, corner.position),
        tex_coords: match corner.tex_coord {
            Some(index) => out.tex_coords + store.declaration(Attribute::TexCoord, index),
            None => out.tex_coords,
        },
        normals: out.normals + store.declaration(Attribute::Normal, corner.normal),
    }
}

/// `out` with the three vertices of `triangle` appended in order.
pub open spec fn with_triangle(out: Vertices, triangle: Triangle, store: Declared) -> Vertices {
    with_corner(
        with_corner(with_corner(out, triangle.a, store), triangle.b, store),
        triangle.c,
        store,
    )
}

/// What a face on line `line` does to the vertices `out`. A face that read
/// under no grammar is a `MalformedFaceLine`; one with an index that names
/// no declared attribute is an `IndexOutOfRange` that tells the first such
/// index; any other face appends its three vertices.
pub open spec fn face_outcome(
    triangle: Option<Triangle>,
    store: Declared,
    out: Vertices,
    line: usize,
) -> Result<Vertices, ObjError> {
    match triangle {
        None => Err(ObjError::MalformedFaceLine { line }),
        Some(triangle) => match triangle_fault(triangle, store) {
            Some((attribute, index)) => Err(ObjError::IndexOutOfRange { line, attribute, index }),
            None => Ok(with_triangle(out, triangle, store)),
        },
    }
}

/// A step that changes the vertices from `before` to `after` and reports
/// `done` has the outcome `outcome`: on success the vertices are those of the
/// outcome, and on an error they are left as they were.
pub open spec fn carried_out(
    outcome: Result<Vertices, ObjError>,
    before: Vertices,
    done: Result<(), ObjError>,
    after: Vertices,
) -> bool {
    match outcome {
        Ok(vertices) => done == Ok::<(), ObjError>(()) && after == vertices,
        Err(e) => done == Err::<(), ObjError>(e) && after == before,
    }
}

/// Tells whether all nine indices of a face with texture coordinates were
/// read.
pub fn is_valid_vtn_triple(tuple: &VtnIndices) -> (valid: bool)
    ensures
        valid == vtn_triangle(*tuple) is Some,
{
    tuple.0.is_some() && tuple.1.is_some() && tuple.2.is_some() && tuple.3.is_some()
        && tuple.4.is_some() && tuple.5.is_some() && tuple.6.is_some() && tuple.7.is_some()
        && tuple.8.is_some()
}

/// Tells whether all six indices of a face without texture coordinates were
/// read.
pub fn is_valid_vn_triple(tuple: &VnIndices) -> (valid: bool)
    ensures
        valid == vn_triangle(*tuple) is Some,
{
    tuple.0.is_some() && tuple.1.is_some() && tuple.2.is_some() && tuple.3.is_some()
        && tuple.4.is_some() && tuple.5.is_some()
}

/// Reads token `k` as a decimal index.
pub fn read_index(tokens: &Vec<String>, k: usize) -> (index: Option<u32>)
    ensures
        index == token_index(tokens.deep_view(), k as int),
{
    if k < tokens.len() {
        parse_index(tokens[k].as_str().as_bytes())
    } else {
        None
    }
}

/// Looks for the first index of `corner` that names no declared attribute.
fn check_corner(corner: &Corner, store: &UnsortedVertexData) -> (fault: Option<(Attribute, u32)>)
    ensures
        fault == corner_fault(*corner, store@),
{
    if !store.holds(Attribute::Position, corner.position) {
        return Some((Attribute::Position, corner.position));
    }
    match corner.tex_coord {
        Some(index) => {
            if !store.holds(Attribute::TexCoord, index) {
                return Some((Attribute::TexCoord, index));
            }
        },
        None => {},
    }
    if !store.holds(Attribute::Normal, corner.normal) {
        return Some((Attribute::Normal, corner.normal));
    }
    None
}

/// Appends the vertex of `corner` to `out`.
fn push_corner(corner: &Corner, store: &UnsortedVertexData, out: &mut SortedVertexData)
    requires
        store@.wf(),
        corner_fault(*corner, store@) is None,
    ensures
        final(out)@ == with_corner(old(out)@, *corner, store@),
{
    store.copy_into(Attribute::Position, corner.position, &mut out.points);
    match corner.tex_coord {
        Some(index) => {
            store.copy_into(Attribute::TexCoord, index, &mut out.tex_coords);
        },
        None => {},
    }
    store.copy_into(Attribute::Normal, corner.normal, &mut out.normals);
}

/// Checks the indices of `triangle` against the declared attributes and
/// appends its three vertices to `out`.
pub fn expand_triangle(
    triangle: &Triangle,
    store: &UnsortedVertexData,
    out: &mut SortedVertexData,
    line: usize,
) -> (done: Result<(), ObjError>)
    requires
        store@.wf(),
    ensures
        carried_out(
            face_outcome(Some(*triangle), store@, old(out)@, line),
            old(out)@,
            done,
            final(out)@,
        ),
{
    let mut fault = check_corner(&triangle.a, store);
    if fault.is_none() {
        fault = check_corner(&triangle.b, store);
    }
    if fault.is_none() {
        fault = check_corner(&triangle.c, store);
    }
    match fault {
        Some((attribute, index)) => Err(ObjError::IndexOutOfRange { line, attribute, index }),
        None => {
            push_corner(&triangle.a, store, out);
            push_corner(&triangle.b, store, out);
            push_corner(&triangle.c, store, out);
            Ok(())
        },
    }
}

/// Expands a face with texture coordinates from the tokens of its line.
pub fn expand_vtn(
    tokens: &Vec<String>,
    store: &UnsortedVertexData,
    out: &mut SortedVertexData,
    line: usize,
) -> (done: Result<(), ObjError>)
    requires
        store@.wf(),
    ensures
        carried_out(
            face_outcome(
                vtn_triangle(vtn_indices(tokens.deep_view())),
                store@,
                old(out)@,
                line,
            ),
            old(out)@,
            done,
            final(out)@,
        ),
{
    let tuple: VtnIndices = (
        read_index(tokens, 0),
        read_index(tokens, 1),
        read_index(tokens, 2),
        read_index(tokens, 3),
        read_index(tokens, 4),
        read_index(tokens, 5),
        read_index(tokens, 6),
        read_index(tokens, 7),
        read_index(tokens, 8),
    );
    if !is_valid_vtn_triple(&tuple) {
        return Err(ObjError::MalformedFaceLine { line });
    }
    let (vp0, vt0, vn0, vp1, vt1, vn1, vp2, vt2, vn2) = tuple;
    let triangle = Triangle {
        a: Corner { position: vp0.unwrap(), tex_coord: vt0, normal: vn0.unwrap() },
        b: Corner { position: vp1.unwrap(), tex_coord: vt1, normal: vn1.unwrap() },
        c: Corner { position: vp2.unwrap(), tex_coord: vt2, normal: vn2.unwrap() },
    };
    expand_triangle(&triangle, store, out, line)
}

/// Expands a face without texture coordinates from the tokens of its line.
pub fn expand_vn(
    tokens: &Vec<String>,
    store: &UnsortedVertexData,
    out: &mut SortedVertexData,
    line: usize,
) -> (done: Result<(), ObjError>)
    requires
        store@.wf(),
    ensures
        carried_out(
            face_outcome(vn_triangle(vn_indices(tokens.deep_view())), store@, old(out)@, line),
            old(out)@,
            done,
            final(out)@,
        ),
{
    let tuple: VnIndices = (
        read_index(tokens, 0),
        read_index(tokens, 1),
        read_index(tokens, 2),
        read_index(tokens, 3),
        read_index(tokens, 4),
        read_index(tokens, 5),
    );
    if !is_valid_vn_triple(&tuple) {
        return Err(ObjError::MalformedFaceLine { line });
    }
    let (vp0, vn0, vp1, vn1, vp2, vn2) = tuple;
    let triangle = Triangle {
        a: Corner { position: vp0.unwrap(), tex_coord: None, normal: vn0.unwrap() },
        b: Corner { position: vp1.unwrap(), tex_coord: None, normal: vn1.unwrap() },
        c: Corner { position: vp2.unwrap(), tex_coord: None, normal: vn2.unwrap() },
    };
    expand_triangle(&triangle, store, out, line)
}

/// The triangle that a line holds under the grammar `p/t/n`.
pub open spec fn vtn_face(line: Seq<char>) -> Option<Triangle> {
    vtn_triangle(vtn_indices(scanned(line, vtn_format())))
}

/// The triangle that a line holds under the grammar `p//n`.
pub open spec fn vn_face(line: Seq<char>) -> Option<Triangle> {
    vn_triangle(vn_indices(scanned(line, vn_format())))
}

/// The triangle that a face line holds: the one under `p/t/n` if the line
/// reads under that grammar, else the one under `p//n`, if any.
#[verifier::opaque]
pub open spec fn face_of(line: Seq<char>) -> Option<Triangle> {
    if vtn_face(line) is Some {
        vtn_face(line)
    } else {
        vn_face(line)
    }
}

/// What the face line `text`, found on line `line`, does to the vertices
/// `out`. A line without exactly six slashes is an `UnsupportedTopology`,
/// whatever else it holds.
pub open spec fn face_line_outcome(
    text: Seq<char>,
    store: Declared,
    out: Vertices,
    line: usize,
) -> Result<Vertices, ObjError> {
    if count_slashes(encode_utf8(text)) != 6 {
        Err(ObjError::UnsupportedTopology { line })
    } else {
        face_outcome(face_of(text), store, out, line)
    }
}

/// Reads a face line under the grammar `p/t/n` and appends its vertices.
pub fn parse_vtn(
    line: &str,
    unsorted_vtn: &UnsortedVertexData,
    sorted_vtn: &mut SortedVertexData,
    number: usize,
) -> (done: Result<(), ObjError>)
    requires
        unsorted_vtn@.wf(),
    ensures
        carried_out(
            face_outcome(vtn_face(line@), unsorted_vtn@, old(sorted_vtn)@, number),
            old(sorted_vtn)@,
            done,
            final(sorted_vtn)@,
        ),
{
    let tokens = scan_vtn(line);
    expand_vtn(&tokens, unsorted_vtn, sorted_vtn, number)
}

/// Reads a face line under the grammar `p//n` and appends its vertices.
pub fn parse_vn(
    line: &str,
    unsorted_vtn: &UnsortedVertexData,
    sorted_vtn: &mut SortedVertexData,
    number: usize,
) -> (done: Result<(), ObjError>)
    requires
        unsorted_vtn@.wf(),
    ensures
        carried_out(
            face_outcome(vn_face(line@), unsorted_vtn@, old(sorted_vtn)@, number),
            old(sorted_vtn)@,
            done,
            final(sorted_vtn)@,
        ),
{
    let tokens = scan_vn(line);
    expand_vn(&tokens, unsorted_vtn, sorted_vtn, number)
}

/// Reads a face line and appends its three vertices. A line without exactly
/// six slashes is refused; any other is read under `p/t/n` first and, if it
/// does not read so, under `p//n`.
pub fn parse_face(
    line: &str,
    unsorted_vtn: &UnsortedVertexData,
    sorted_vtn: &mut SortedVertexData,
    number: usize,
) -> (done: Result<(), ObjError>)
    requires
        unsorted_vtn@.wf(),
    ensures
        carried_out(
            face_line_outcome(line@, unsorted_vtn@, old(sorted_vtn)@, number),
            old(sorted_vtn)@,
            done,
            final(sorted_vtn)@,
        ),
{
    proof {
        reveal(face_of);
    }
    if slash_count(line.as_bytes()) != 6 {
        return Err(ObjError::UnsupportedTopology { line: number });
    }
    match parse_vtn(line, unsorted_vtn, sorted_vtn, number) {
        Err(ObjError::MalformedFaceLine { .. }) => parse_vn(
            line,
            unsorted_vtn,
            sorted_vtn,
            number,
        ),
        done => done,
    }
}

impl Triangle {
    /// All three corners name a texture coordinate, or none does.
    pub open spec fn uniform(self) -> bool {
        self.a.tex_coord is Some == self.b.tex_coord is Some && self.b.tex_coord is Some
            == self.c.tex_coord is Some
    }
}

/// A triangle read from a face line names texture coordinates at all of its
/// corners if the line reads under `p/t/n`, and at none otherwise.
pub proof fn lemma_face_uniform(line: Seq<char>)
    ensures
        face_of(line) matches Some(triangle) ==> triangle.uniform() && (triangle.a.tex_coord
            is Some <==> vtn_face(line) is Some),
{
    reveal(face_of);
}

/// What an expanded face line adds: nine scalars of position and of normal,
/// and six of texture coordinate if the line reads under `p/t/n`, which it
/// only does where the file declares texture coordinates.
pub proof fn lemma_face_line_adds(text: Seq<char>, store: Declared, out: Vertices, line: usize)
    requires
        store.wf(),
        face_line_outcome(text, store, out, line) is Ok,
    ensures
        ({
            let after = face_line_outcome(text, store, out, line).unwrap();
            &&& after.points.len() == out.points.len() + 9
            &&& after.normals.len() == out.normals.len() + 9
            &&& vtn_face(text) is Some ==> after.tex_coords.len() == out.tex_coords.len() + 6
                && store.count(Attribute::TexCoord) > 0
            &&& vtn_face(text) is None ==> after.tex_coords == out.tex_coords
            &&& out.wf() ==> after.wf()
        }),
{
    lemma_face_uniform(text);
    let triangle = face_of(text).unwrap();
    lemma_with_triangle_shape(out, triangle, store);
    if vtn_face(text) is Some {
        assert(corner_fault(triangle.a, store) is None);
        assert(store.holds(Attribute::TexCoord, triangle.a.tex_coord.unwrap()));
    }
}

/// A slot that an index names holds as many scalars as its attribute has.
pub proof fn lemma_declaration_len(store: Declared, attribute: Attribute, index: u32)
    requires
        store.wf(),
        store.holds(attribute, index),
    ensures
        store.declaration(attribute, index).len() == attribute.arity(),
{
}

/// A face adds three vertices: nine scalars of position, nine of normal,
/// and six of texture coordinate if it names texture coordinates.
pub proof fn lemma_with_triangle_shape(out: Vertices, triangle: Triangle, store: Declared)
    requires
        store.wf(),
        triangle_fault(triangle, store) is None,
    ensures
        with_triangle(out, triangle, store).points.len() == out.points.len() + 9,
        with_triangle(out, triangle, store).normals.len() == out.normals.len() + 9,
        triangle.a.tex_coord is Some && triangle.uniform() ==> with_triangle(
            out,
            triangle,
            store,
        ).tex_coords.len() == out.tex_coords.len() + 6,
        triangle.a.tex_coord is None && triangle.uniform() ==> with_triangle(
            out,
            triangle,
            store,
        ).tex_coords == out.tex_coords,
        out.wf() && triangle.uniform() ==> with_triangle(out, triangle, store).wf(),
{
    lemma_declaration_len(store, Attribute::Position, triangle.a.position);
    lemma_declaration_len(store, Attribute::Position, triangle.b.position);
    lemma_declaration_len(store, Attribute::Position, triangle.c.position);
    lemma_declaration_len(store, Attribute::Normal, triangle.a.normal);
    lemma_declaration_len(store, Attribute::Normal, triangle.b.normal);
    lemma_declaration_len(store, Attribute::Normal, triangle.c.normal);
    if triangle.a.tex_coord is Some {
        lemma_declaration_len(store, Attribute::TexCoord, triangle.a.tex_coord.unwrap());
    }
    if triangle.b.tex_coord is Some {
        lemma_declaration_len(store, Attribute::TexCoord, triangle.b.tex_coord.unwrap());
    }
    if triangle.c.tex_coord is Some {
        lemma_declaration_len(store, Attribute::TexCoord, triangle.c.tex_coord.unwrap());
    }
}

/// An expanded face line leaves the vertices before it as they are.
pub proof fn lemma_face_line_appends(text: Seq<char>, store: Declared, out: Vertices, line: usize)
    requires
        face_line_outcome(text, store, out, line) is Ok,
    ensures
        ({
            let after = face_line_outcome(text, store, out, line).unwrap();
            &&& out.points.len() <= after.points.len()
            &&& after.points.take(out.points.len() as int) == out.points
            &&& out.tex_coords.len() <= after.tex_coords.len()
            &&& after.tex_coords.take(out.tex_coords.len() as int) == out.tex_coords
            &&& out.normals.len() <= after.normals.len()
            &&& after.normals.take(out.normals.len() as int) == out.normals
        }),
{
    let after = face_line_outcome(text, store, out, line).unwrap();
    assert(after.points.take(out.points.len() as int) =~= out.points);
    assert(after.tex_coords.take(out.tex_coords.len() as int) =~= out.tex_coords);
    assert(after.normals.take(out.normals.len() as int) =~= out.normals);
}

} // verus!
