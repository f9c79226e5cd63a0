//! What holds of every load, stated over the model of `obj_parser` and
//! proved from its definitions.

use vstd::prelude::*;
use vstd::utf8::encode_utf8;

use crate::error::{Attribute, ObjError};
use crate::face::{
    face_line_outcome, face_of, lemma_face_line_adds, lemma_face_line_appends, triangle_fault,
    vtn_face, Triangle,
};
use crate::line::{count_slashes, text_kind, LineKind};
use crate::mesh::ObjMesh;
use crate::obj_parser::{
    count_kind, cursors_at, fields_read, lemma_count_kind_prefix, lemma_run_prefix, load_recorded,
    load_result, loaded_as, run, step, table_read,
};
use crate::vertex_data::{write_fields, Declared};

verus! {

/// Once a line has failed, the lines after it change nothing: the load ends
/// with the error of the first line that fails.
pub proof fn lemma_error_is_final(
    lines: Seq<Seq<char>>,
    table: Seq<Seq<Option<u32>>>,
    n: nat,
    m: nat,
)
    requires
        n <= m,
        run(lines, table, n) is Err,
    ensures
        run(lines, table, m) == run(lines, table, n),
    decreases m,
{
    if n < m {
        lemma_error_is_final(lines, table, n, (m - 1) as nat);
    }
}

/// A load that got past `m` lines got past every `n` lines before.
pub proof fn lemma_ok_so_far(lines: Seq<Seq<char>>, table: Seq<Seq<Option<u32>>>, n: nat, m: nat)
    requires
        n <= m,
        run(lines, table, m) is Ok,
    ensures
        run(lines, table, n) is Ok,
{
    if run(lines, table, n) is Err {
        lemma_error_is_final(lines, table, n, m);
    }
}

/// Writing a declaration keeps the store well formed and moves the cursor of
/// its attribute alone, as long as a slot is free.
pub proof fn lemma_write_fields(
    store: Declared,
    attribute: Attribute,
    fields: Seq<Option<u32>>,
    line: usize,
)
    requires
        store.wf(),
        store.written(attribute) < store.count(attribute),
    ensures
        write_fields(store, attribute, fields, line) matches Ok(after) ==> {
            &&& after.wf()
            &&& forall|other: Attribute| #[trigger] after.count(other) == store.count(other)
            &&& forall|other: Attribute|
                #[trigger] after.written(other) == store.written(other) + if other == attribute {
                    1nat
                } else {
                    0nat
                }
        },
{
}

/// Between two lines the stores are well formed, and as many declarations
/// of each attribute are written as the lines read so far hold.
pub proof fn lemma_run_invariant(lines: Seq<Seq<char>>, table: Seq<Seq<Option<u32>>>, n: nat)
    requires
        n <= lines.len(),
    ensures
        run(lines, table, n) matches Ok(state) ==> {
            &&& state.declared.wf()
            &&& state.sorted.wf()
            &&& cursors_at(state.declared, lines, n as int)
        },
    decreases n,
{
    if n == 0 {
        assert(lines.take(0) =~= Seq::<Seq<char>>::empty());
    } else {
        lemma_run_invariant(lines, table, (n - 1) as nat);
        if let Ok(before) = run(lines, table, (n - 1) as nat) {
            let text = lines[n - 1];
            assert(lines.take(n as int).drop_last() =~= lines.take(n - 1));
            assert(lines.take(n as int).last() == text);
            lemma_count_kind_prefix(lines, LineKind::Declaration(Attribute::Position), n - 1);
            lemma_count_kind_prefix(lines, LineKind::Declaration(Attribute::TexCoord), n - 1);
            lemma_count_kind_prefix(lines, LineKind::Declaration(Attribute::Normal), n - 1);
            match text_kind(text) {
                LineKind::Declaration(attribute) => {
                    match attribute {
                        Attribute::Position => {},
                        Attribute::TexCoord => {},
                        Attribute::Normal => {},
                    }
                    lemma_write_fields(before.declared, attribute, table[n - 1], n as usize);
                },
                LineKind::Face => {
                    if face_line_outcome(text, before.declared, before.sorted, n as usize) is Ok {
                        lemma_face_line_adds(text, before.declared, before.sorted, n as usize);
                    }
                },
                LineKind::Other => {},
            }
        }
    }
}

/// Every face adds three vertices and nothing else does: after `n` lines
/// there are nine scalars of position for each face line among them.
pub proof fn lemma_run_vertex_count(lines: Seq<Seq<char>>, table: Seq<Seq<Option<u32>>>, n: nat)
    requires
        n <= lines.len(),
    ensures
        run(lines, table, n) matches Ok(state) ==> state.sorted.points.len() == 9 * count_kind(
            lines.take(n as int),
            LineKind::Face,
        ),
    decreases n,
{
    if n == 0 {
        assert(lines.take(0) =~= Seq::<Seq<char>>::empty());
    } else {
        lemma_run_vertex_count(lines, table, (n - 1) as nat);
        lemma_run_invariant(lines, table, (n - 1) as nat);
        assert(lines.take(n as int).drop_last() =~= lines.take(n - 1));
        assert(lines.take(n as int).last() == lines[n - 1]);
        if let Ok(before) = run(lines, table, (n - 1) as nat) {
            let text = lines[n - 1];
            if text_kind(text) == LineKind::Face && face_line_outcome(
                text,
                before.declared,
                before.sorted,
                n as usize,
            ) is Ok {
                lemma_face_line_adds(text, before.declared, before.sorted, n as usize);
            }
        }
    }
}

/// A loaded mesh has three vertices for every face line of its file: no
/// vertex is shared between faces.
pub proof fn lemma_three_vertices_a_face(lines: Seq<Seq<char>>, table: Seq<Seq<Option<u32>>>)
    requires
        table.len() == lines.len(),
        load_result(lines, table) is Ok,
    ensures
        load_result(lines, table).unwrap().point_count() == 3 * count_kind(lines, LineKind::Face),
{
    lemma_run_vertex_count(lines, table, lines.len());
    assert(lines.take(lines.len() as int) =~= lines);
}

/// `shorter` is what `longer` starts with.
pub open spec fn starts_with(longer: Seq<u32>, shorter: Seq<u32>) -> bool {
    shorter.len() <= longer.len() && longer.take(shorter.len() as int) == shorter
}

/// Vertices are only ever appended: what the first `n` lines expand to
/// stands unchanged at the front of what any `m` lines after them expand to.
pub proof fn lemma_vertices_only_grow(
    lines: Seq<Seq<char>>,
    table: Seq<Seq<Option<u32>>>,
    n: nat,
    m: nat,
)
    requires
        n <= m <= lines.len(),
        run(lines, table, m) is Ok,
    ensures
        run(lines, table, n) is Ok,
        starts_with(
            run(lines, table, m).unwrap().sorted.points,
            run(lines, table, n).unwrap().sorted.points,
        ),
        starts_with(
            run(lines, table, m).unwrap().sorted.tex_coords,
            run(lines, table, n).unwrap().sorted.tex_coords,
        ),
        starts_with(
            run(lines, table, m).unwrap().sorted.normals,
            run(lines, table, n).unwrap().sorted.normals,
        ),
    decreases m,
{
    lemma_ok_so_far(lines, table, n, m);
    let early = run(lines, table, n).unwrap().sorted;
    if n == m {
        assert(early.points.take(early.points.len() as int) =~= early.points);
        assert(early.tex_coords.take(early.tex_coords.len() as int) =~= early.tex_coords);
        assert(early.normals.take(early.normals.len() as int) =~= early.normals);
    } else {
        lemma_ok_so_far(lines, table, (m - 1) as nat, m);
        lemma_vertices_only_grow(lines, table, n, (m - 1) as nat);
        let before = run(lines, table, (m - 1) as nat).unwrap();
        let after = run(lines, table, m).unwrap();
        assert(starts_with(after.sorted.points, before.sorted.points) && starts_with(
            after.sorted.tex_coords,
            before.sorted.tex_coords,
        ) && starts_with(after.sorted.normals, before.sorted.normals)) by {
            let text = lines[m - 1];
            if text_kind(text) == LineKind::Face {
                lemma_face_line_appends(text, before.declared, before.sorted, m as usize);
            } else {
                assert(after.sorted == before.sorted);
                assert(before.sorted.points.take(before.sorted.points.len() as int)
                    =~= before.sorted.points);
                assert(before.sorted.tex_coords.take(before.sorted.tex_coords.len() as int)
                    =~= before.sorted.tex_coords);
                assert(before.sorted.normals.take(before.sorted.normals.len() as int)
                    =~= before.sorted.normals);
            }
        }
        assert(after.sorted.points.take(before.sorted.points.len() as int).take(
            early.points.len() as int,
        ) =~= after.sorted.points.take(early.points.len() as int));
        assert(after.sorted.tex_coords.take(before.sorted.tex_coords.len() as int).take(
            early.tex_coords.len() as int,
        ) =~= after.sorted.tex_coords.take(early.tex_coords.len() as int));
        assert(after.sorted.normals.take(before.sorted.normals.len() as int).take(
            early.normals.len() as int,
        ) =~= after.sorted.normals.take(early.normals.len() as int));
    }
}

/// Every face among the first `n` lines reads under the grammar `p/t/n`.
pub open spec fn faces_textured(lines: Seq<Seq<char>>, n: int) -> bool {
    forall|i: int|
        0 <= i < n && text_kind(#[trigger] lines[i]) == LineKind::Face ==> vtn_face(lines[i])
            is Some
}

/// No face among the first `n` lines reads under the grammar `p/t/n`.
pub open spec fn faces_untextured(lines: Seq<Seq<char>>, n: int) -> bool {
    forall|i: int|
        0 <= i < n && text_kind(#[trigger] lines[i]) == LineKind::Face ==> vtn_face(lines[i])
            is None
}

/// As long as all faces read so far are of one grammar, texture coordinates
/// are there for every vertex or for none. A file that declares no texture
/// coordinate has none in its vertices.
pub proof fn lemma_run_tex_coords(lines: Seq<Seq<char>>, table: Seq<Seq<Option<u32>>>, n: nat)
    requires
        n <= lines.len(),
    ensures
        run(lines, table, n) matches Ok(state) ==> {
            &&& faces_textured(lines, n as int) ==> 3 * state.sorted.tex_coords.len() == 2
                * state.sorted.points.len()
            &&& faces_untextured(lines, n as int) ==> state.sorted.tex_coords.len() == 0
            &&& count_kind(lines, LineKind::Declaration(Attribute::TexCoord)) == 0
                ==> state.sorted.tex_coords.len() == 0
        },
    decreases n,
{
    if n > 0 {
        lemma_run_tex_coords(lines, table, (n - 1) as nat);
        lemma_run_invariant(lines, table, (n - 1) as nat);
        if let Ok(before) = run(lines, table, (n - 1) as nat) {
            let text = lines[n - 1];
            assert(faces_textured(lines, n as int) ==> faces_textured(lines, n - 1));
            assert(faces_untextured(lines, n as int) ==> faces_untextured(lines, n - 1));
            if text_kind(text) == LineKind::Face && face_line_outcome(
                text,
                before.declared,
                before.sorted,
                n as usize,
            ) is Ok {
                lemma_face_line_adds(text, before.declared, before.sorted, n as usize);
            }
        }
    }
}

/// Whole triangles hold whole vertices.
proof fn lemma_shape_arithmetic(points: int, tex_coords: int)
    requires
        0 <= points,
        points % 9 == 0,
    ensures
        points == 3 * (points / 3),
        3 * tex_coords == 2 * points ==> tex_coords == 2 * (points / 3),
{
}

/// The shape of a loaded mesh: three scalars of position for every vertex,
/// and as many scalars of normal. Where the faces of the file are all of one
/// grammar, there are two scalars of texture coordinate for every vertex or
/// there is none at all.
///
/// A file that mixes the two grammars loads as well, but its vertices have
/// texture coordinates only where a face named them.
pub proof fn lemma_mesh_shape(lines: Seq<Seq<char>>, table: Seq<Seq<Option<u32>>>)
    requires
        table.len() == lines.len(),
        load_result(lines, table) is Ok,
        faces_textured(lines, lines.len() as int) || faces_untextured(lines, lines.len() as int),
    ensures
        ({
            let mesh = load_result(lines, table).unwrap();
            &&& mesh.points.len() == 3 * mesh.point_count()
            &&& mesh.tex_coords.len() == 0 || mesh.tex_coords.len() == 2 * mesh.point_count()
            &&& mesh.normals.len() == 0 || mesh.normals.len() == 3 * mesh.point_count()
        }),
{
    lemma_run_invariant(lines, table, lines.len());
    lemma_run_tex_coords(lines, table, lines.len());
    let state = run(lines, table, lines.len()).unwrap();
    let mesh = state.sorted;
    assert(load_result(lines, table) == Ok::<crate::vertex_data::Vertices, ObjError>(mesh));
    assert(mesh.wf());
    lemma_shape_arithmetic(mesh.points.len() as int, mesh.tex_coords.len() as int);
}

/// A file without `vt` lines loads into a mesh without texture coordinates.
pub proof fn lemma_no_tex_coords_declared(lines: Seq<Seq<char>>, table: Seq<Seq<Option<u32>>>)
    requires
        table.len() == lines.len(),
        load_result(lines, table) is Ok,
        count_kind(lines, LineKind::Declaration(Attribute::TexCoord)) == 0,
    ensures
        load_result(lines, table).unwrap().tex_coords.len() == 0,
{
    lemma_run_tex_coords(lines, table, lines.len());
}

/// A face line without exactly six slashes, a quad for one, ends the load
/// with `UnsupportedTopology` for that line, if no line before it failed.
pub proof fn lemma_unsupported_topology(
    lines: Seq<Seq<char>>,
    table: Seq<Seq<Option<u32>>>,
    i: int,
)
    requires
        0 <= i < table.len() <= lines.len(),
        run(lines, table, i as nat) is Ok,
        text_kind(lines[i]) == LineKind::Face,
        count_slashes(encode_utf8(lines[i])) != 6,
    ensures
        load_result(lines, table) == Err::<crate::vertex_data::Vertices, ObjError>(
            ObjError::UnsupportedTopology { line: (i + 1) as usize },
        ),
{
    let before = run(lines, table, i as nat).unwrap();
    let next = (i + 1) as nat;
    assert(run(lines, table, next) == step(before, lines[next - 1], table[next - 1], next as usize));
    assert(face_line_outcome(lines[i], before.declared, before.sorted, next as usize) is Err);
    lemma_error_is_final(lines, table, next, table.len());
}

/// `index` names no position of a file with `lines`: it is zero or greater
/// than the number of positions that the file declares.
pub open spec fn no_position(lines: Seq<Seq<char>>, index: u32) -> bool {
    index == 0 || index > count_kind(lines, LineKind::Declaration(Attribute::Position))
}

/// A face that refers to position zero, or to a position past the last one
/// that the file declares, ends the load with `IndexOutOfRange` for its
/// line, if no line before it failed.
pub proof fn lemma_index_out_of_range(lines: Seq<Seq<char>>, table: Seq<Seq<Option<u32>>>, i: int)
    requires
        0 <= i < table.len() <= lines.len(),
        run(lines, table, i as nat) is Ok,
        text_kind(lines[i]) == LineKind::Face,
        count_slashes(encode_utf8(lines[i])) == 6,
        face_of(lines[i]) matches Some(triangle) && (no_position(lines, triangle.a.position)
            || no_position(lines, triangle.b.position) || no_position(
            lines,
            triangle.c.position,
        )),
    ensures
        load_result(lines, table) matches Err(ObjError::IndexOutOfRange { line, .. }) && line == (i
            + 1) as usize,
{
    lemma_run_counts(lines, table, i as nat);
    let before = run(lines, table, i as nat).unwrap();
    let next = (i + 1) as nat;
    let triangle = face_of(lines[i]).unwrap();
    assert(run(lines, table, next) == step(before, lines[next - 1], table[next - 1], next as usize));
    lemma_position_fault(triangle, before.declared);
    let fault = triangle_fault(triangle, before.declared).unwrap();
    assert(face_line_outcome(lines[i], before.declared, before.sorted, next as usize) == Err::<
        crate::vertex_data::Vertices,
        ObjError,
    >(ObjError::IndexOutOfRange { line: next as usize, attribute: fault.0, index: fault.1 }));
    lemma_error_is_final(lines, table, next, table.len());
}

/// A triangle with a corner whose position is not declared has a fault.
proof fn lemma_position_fault(triangle: Triangle, store: Declared)
    requires
        !store.holds(Attribute::Position, triangle.a.position) || !store.holds(
            Attribute::Position,
            triangle.b.position,
        ) || !store.holds(Attribute::Position, triangle.c.position),
    ensures
        triangle_fault(triangle, store) is Some,
{
}

/// Between two lines the store has one slot of position for each position
/// that the file declares.
proof fn lemma_run_counts(lines: Seq<Seq<char>>, table: Seq<Seq<Option<u32>>>, n: nat)
    requires
        n <= lines.len(),
    ensures
        run(lines, table, n) matches Ok(state) ==> state.declared.count(Attribute::Position)
            == count_kind(lines, LineKind::Declaration(Attribute::Position)),
{
    lemma_run_invariant(lines, table, n);
}

/// `reader` gives tokens of one text one reading.
pub open spec fn single_valued<F: Fn(&str) -> Option<u32>>(reader: &F) -> bool {
    forall|first: &str, second: &str, a: Option<u32>, b: Option<u32>|
        first@ == second@ && #[trigger] reader.ensures((first,), a) && #[trigger] reader.ensures(
            (second,),
            b,
        ) ==> a == b
}

/// With a reader that gives a token one reading, the fields of a line can be
/// read in one way only.
pub proof fn lemma_fields_read_once<F: Fn(&str) -> Option<u32>>(
    reader: &F,
    text: Seq<char>,
    first: Seq<Option<u32>>,
    second: Seq<Option<u32>>,
)
    requires
        single_valued(reader),
        fields_read(reader, text, first),
        fields_read(reader, text, second),
    ensures
        first == second,
{
    assert(first.len() == second.len());
    assert forall|k: int| 0 <= k < first.len() implies first[k] == second[k] by {
        let a = first[k];
        let b = second[k];
        assert(a == b);
    }
    assert(first =~= second);
}

/// Loading is repeatable: with a reader that gives a token one reading, two
/// loads of the same lines end alike, in the same mesh or in the same error.
pub proof fn lemma_load_repeatable<F: Fn(&str) -> Option<u32>>(
    reader: &F,
    lines: Seq<Seq<char>>,
    first: Seq<Seq<Option<u32>>>,
    second: Seq<Seq<Option<u32>>>,
)
    requires
        single_valued(reader),
        table_read(reader, lines, first),
        table_read(reader, lines, second),
    ensures
        load_result(lines, first) == load_result(lines, second),
{
    let n = if first.len() <= second.len() {
        first.len()
    } else {
        second.len()
    };
    assert forall|i: int| 0 <= i < n implies first[i] == second[i] by {
        lemma_fields_read_once(reader, lines[i], first[i], second[i]);
    }
    lemma_run_prefix(lines, first, second, n);
    if first.len() < second.len() {
        lemma_error_is_final(lines, second, n, second.len());
    } else if second.len() < first.len() {
        lemma_error_is_final(lines, first, n, first.len());
    }
}

/// With a reader that gives a token one reading, what a load hands out is
/// what `load_result` gives for any table that records the load.
pub proof fn lemma_recorded_by_any<F: Fn(&str) -> Option<u32>>(
    reader: &F,
    lines: Seq<Seq<char>>,
    table: Seq<Seq<Option<u32>>>,
    loaded: Result<ObjMesh, ObjError>,
)
    requires
        load_recorded(reader, lines, table, loaded),
    ensures
        single_valued(reader) ==> forall|other: Seq<Seq<Option<u32>>>|
            table_read(reader, lines, other) ==> loaded_as(
                loaded,
                #[trigger] load_result(lines, other),
            ),
{
    if single_valued(reader) {
        assert forall|other: Seq<Seq<Option<u32>>>|
            table_read(reader, lines, other) implies loaded_as(
            loaded,
            #[trigger] load_result(lines, other),
        ) by {
            lemma_load_repeatable(reader, lines, table, other);
        }
    }
}

} // verus!
