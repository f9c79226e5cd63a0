//! The two passes of a load: counting the declarations, then reading them
//! and expanding the faces.

use vstd::prelude::*;

use crate::error::{Attribute, ObjError};
use crate::face::{face_line_outcome, lemma_face_line_adds, parse_face};
use crate::laws::{lemma_recorded_by_any, single_valued};
use crate::line::{classify_line, text_kind, LineKind};
use crate::mesh::ObjMesh;
use crate::scan::{attribute_format, scan_attribute, scanned};
use crate::vertex_data::{
    write_fields, Declared, SortedVertexData, UnsortedVertexData, Vertices,
};

verus! {

/// The number of lines of kind `kind` among `lines`.
pub open spec fn count_kind(lines: Seq<Seq<char>>, kind: LineKind) -> nat
    decreases lines.len(),
{
    if lines.len() == 0 {
        0
    } else {
        count_kind(lines.drop_last(), kind) + if text_kind(lines.last()) == kind {
            1nat
        } else {
            0nat
        }
    }
}

/// There are no more lines of one kind than lines, and a prefix holds no
/// more of them than the whole.
pub proof fn lemma_count_kind_prefix(lines: Seq<Seq<char>>, kind: LineKind, n: int)
    requires
        0 <= n <= lines.len(),
    ensures
        count_kind(lines.take(n), kind) <= count_kind(lines, kind),
        count_kind(lines.take(n), kind) <= n,
        n < lines.len() && text_kind(lines[n]) == kind ==> count_kind(lines.take(n), kind)
            < count_kind(lines, kind),
    decreases lines.len() - n,
{
    if n == lines.len() {
        assert(lines.take(n) =~= lines);
        lemma_count_kind_bound(lines, kind);
    } else {
        lemma_count_kind_bound(lines.take(n), kind);
        assert(lines.take(n + 1).drop_last() =~= lines.take(n));
        assert(lines.take(n + 1).last() == lines[n]);
        lemma_count_kind_prefix(lines, kind, n + 1);
    }
}

/// There are no more lines of one kind than lines.
pub proof fn lemma_count_kind_bound(lines: Seq<Seq<char>>, kind: LineKind)
    ensures
        count_kind(lines, kind) <= lines.len(),
    decreases lines.len(),
{
    if lines.len() > 0 {
        lemma_count_kind_bound(lines.drop_last(), kind);
    }
}

/// Counts the position, texture coordinate, normal and face lines of a file,
/// in that order.
pub fn count_vertices(lines: &Vec<String>) -> (counts: (usize, usize, usize, usize))
    ensures
        counts.0 == count_kind(lines.deep_view(), LineKind::Declaration(Attribute::Position)),
        counts.1 == count_kind(lines.deep_view(), LineKind::Declaration(Attribute::TexCoord)),
        counts.2 == count_kind(lines.deep_view(), LineKind::Declaration(Attribute::Normal)),
        counts.3 == count_kind(lines.deep_view(), LineKind::Face),
{
    let ghost text = lines.deep_view();
    let mut unsorted_vp_count: usize = 0;
    let mut unsorted_vt_count: usize = 0;
    let mut unsorted_vn_count: usize = 0;
    let mut face_count: usize = 0;
    let mut i: usize = 0;
    proof {
        assert(text.take(0) =~= Seq::<Seq<char>>::empty());
    }
    while i < lines.len()
        invariant
            i <= lines.len(),
            text == lines.deep_view(),
            unsorted_vp_count == count_kind(
                text.take(i as int),
                LineKind::Declaration(Attribute::Position),
            ),
            unsorted_vt_count == count_kind(
                text.take(i as int),
                LineKind::Declaration(Attribute::TexCoord),
            ),
            unsorted_vn_count == count_kind(
                text.take(i as int),
                LineKind::Declaration(Attribute::Normal),
            ),
            face_count == count_kind(text.take(i as int), LineKind::Face),
        decreases lines.len() - i,
    {
        proof {
            assert(text.take(i + 1).drop_last() =~= text.take(i as int));
            assert(text.take(i + 1).last() == text[i as int]);
            assert(text[i as int] == lines[i as int]@);
            lemma_count_kind_bound(text.take(i + 1), LineKind::Declaration(Attribute::Position));
            lemma_count_kind_bound(text.take(i + 1), LineKind::Declaration(Attribute::TexCoord));
            lemma_count_kind_bound(text.take(i + 1), LineKind::Declaration(Attribute::Normal));
            lemma_count_kind_bound(text.take(i + 1), LineKind::Face);
        }
        match classify_line(lines[i].as_str().as_bytes()) {
            LineKind::Declaration(Attribute::Position) => {
                unsorted_vp_count += 1;
            },
            LineKind::Declaration(Attribute::TexCoord) => {
                unsorted_vt_count += 1;
            },
            LineKind::Declaration(Attribute::Normal) => {
                unsorted_vn_count += 1;
            },
            LineKind::Face => {
                face_count += 1;
            },
            LineKind::Other => {},
        }
        i += 1;
    }
    proof {
        assert(text.take(i as int) =~= text);
    }
    (unsorted_vp_count, unsorted_vt_count, unsorted_vn_count, face_count)
}

/// What a load holds between two lines: the declarations read so far and
/// the vertices that the faces read so far expand to.
pub struct LoadState {
    pub declared: Declared,
    pub sorted: Vertices,
}

/// The state before the first line: a store with one zeroed slot for every
/// declaration of the file, and no vertex.
pub open spec fn initial_state(lines: Seq<Seq<char>>) -> LoadState {
    LoadState {
        declared: Declared::zeroed(
            count_kind(lines, LineKind::Declaration(Attribute::Position)),
            count_kind(lines, LineKind::Declaration(Attribute::TexCoord)),
            count_kind(lines, LineKind::Declaration(Attribute::Normal)),
        ),
        sorted: Vertices::empty(),
    }
}

/// What one line does to the state. `text` is the line, `line` its number
/// and `fields` what its scalar fields were read as, if it is a declaration.
/// A declaration is written into its store, a face is expanded, and any
/// other line changes nothing.
pub open spec fn step(
    state: LoadState,
    text: Seq<char>,
    fields: Seq<Option<u32>>,
    line: usize,
) -> Result<LoadState, ObjError> {
    match text_kind(text) {
        LineKind::Declaration(attribute) => match write_fields(
            state.declared,
            attribute,
            fields,
            line,
        ) {
            Ok(declared) => Ok(LoadState { declared, sorted: state.sorted }),
            Err(e) => Err(e),
        },
        LineKind::Face => match face_line_outcome(text, state.declared, state.sorted, line) {
            Ok(sorted) => Ok(LoadState { declared: state.declared, sorted }),
            Err(e) => Err(e),
        },
        LineKind::Other => Ok(state),
    }
}

/// The state after the first `n` lines, or the error of the first line that
/// fails. `table[i]` holds what the fields of line `i` were read as.
pub open spec fn run(lines: Seq<Seq<char>>, table: Seq<Seq<Option<u32>>>, n: nat) -> Result<
    LoadState,
    ObjError,
>
    decreases n,
{
    if n == 0 {
        Ok(initial_state(lines))
    } else {
        match run(lines, table, (n - 1) as nat) {
            Ok(state) => step(state, lines[n - 1], table[n - 1], n as usize),
            Err(e) => Err(e),
        }
    }
}

/// What loading `lines` gives when the fields of the declarations were read
/// as `table` says: the vertices after the last line that `table` covers, or
/// the error of the first line that fails.
pub open spec fn load_result(lines: Seq<Seq<char>>, table: Seq<Seq<Option<u32>>>) -> Result<
    Vertices,
    ObjError,
> {
    match run(lines, table, table.len()) {
        Ok(state) => Ok(state.sorted),
        Err(e) => Err(e),
    }
}

/// `bits` is something that `reader` may return for a token with the text
/// `token`.
pub open spec fn reads<F: Fn(&str) -> Option<u32>>(
    reader: &F,
    token: Seq<char>,
    bits: Option<u32>,
) -> bool {
    exists|t: &str| t@ == token && reader.ensures((t,), bits)
}

/// `field` is what field `k` of a declaration with the tokens `tokens` may
/// be read as: what `reader` returns for token `k`, or nothing if there is no
/// such token.
pub open spec fn field_read<F: Fn(&str) -> Option<u32>>(
    reader: &F,
    tokens: Seq<Seq<char>>,
    k: int,
    field: Option<u32>,
) -> bool {
    if k < tokens.len() {
        reads(reader, tokens[k], field)
    } else {
        field is None
    }
}

/// `fields` is what the fields of the line `text` may be read as. A
/// declaration has one field for each scalar of its attribute, read from the
/// tokens that scanning the line against the format of the attribute gives;
/// another line has none.
pub open spec fn fields_read<F: Fn(&str) -> Option<u32>>(
    reader: &F,
    text: Seq<char>,
    fields: Seq<Option<u32>>,
) -> bool {
    match text_kind(text) {
        LineKind::Declaration(attribute) => {
            &&& fields.len() == attribute.arity()
            &&& forall|k: int|
                0 <= k < fields.len() ==> field_read(
                    reader,
                    scanned(text, attribute_format(attribute)),
                    k,
                    #[trigger] fields[k],
                )
        },
        _ => fields.len() == 0,
    }
}

/// `table` records a whole load of `lines` with `reader`: it covers the
/// lines from the first one on, up to the last line or to the first that
/// fails, and each entry is what the fields of its line may be read as.
pub open spec fn table_read<F: Fn(&str) -> Option<u32>>(
    reader: &F,
    lines: Seq<Seq<char>>,
    table: Seq<Seq<Option<u32>>>,
) -> bool {
    &&& table.len() <= lines.len()
    &&& forall|i: int| 0 <= i < table.len() ==> fields_read(reader, lines[i], #[trigger] table[i])
    &&& table.len() == lines.len() || run(lines, table, table.len()) is Err
}

/// `loaded` is the mesh or the error that `outcome` asks for.
pub open spec fn loaded_as(
    loaded: Result<ObjMesh, ObjError>,
    outcome: Result<Vertices, ObjError>,
) -> bool {
    match outcome {
        Ok(vertices) => loaded matches Ok(mesh) && mesh@ == vertices && mesh.point_count
            == vertices.point_count(),
        Err(e) => loaded matches Err(error) && error == e,
    }
}

/// The state after `n` lines depends on no entry of the table past the
/// first `n`.
pub proof fn lemma_run_prefix(
    lines: Seq<Seq<char>>,
    first: Seq<Seq<Option<u32>>>,
    second: Seq<Seq<Option<u32>>>,
    n: nat,
)
    requires
        n <= first.len(),
        n <= second.len(),
        forall|i: int| 0 <= i < n ==> first[i] == second[i],
    ensures
        run(lines, first, n) == run(lines, second, n),
    decreases n,
{
    if n > 0 {
        lemma_run_prefix(lines, first, second, (n - 1) as nat);
    }
}

/// Reads the first `width` tokens of a declaration with `read_scalar`. A
/// field without a token is left unread.
pub fn read_fields<F: Fn(&str) -> Option<u32>>(
    tokens: &Vec<String>,
    width: usize,
    read_scalar: &F,
) -> (fields: Vec<Option<u32>>)
    requires
        forall|t: &str| read_scalar.requires((t,)),
    ensures
        fields@.len() == width,
        forall|k: int|
            0 <= k < width ==> field_read(
                read_scalar,
                tokens.deep_view(),
                k,
                #[trigger] fields@[k],
            ),
{
    let mut fields: Vec<Option<u32>> = Vec::new();
    let mut k: usize = 0;
    while k < width
        invariant
            k <= width,
            fields@.len() == k,
            forall|t: &str| read_scalar.requires((t,)),
            forall|j: int|
                0 <= j < k ==> field_read(
                    read_scalar,
                    tokens.deep_view(),
                    j,
                    #[trigger] fields@[j],
                ),
        decreases width - k,
    {
        let field = if k < tokens.len() {
            let token = tokens[k].as_str();
            let field = read_scalar(token);
            proof {
                assert(token@ == tokens.deep_view()[k as int]);
                assert(reads(read_scalar, tokens.deep_view()[k as int], field));
            }
            field
        } else {
            None
        };
        fields.push(field);
        k += 1;
    }
    fields
}

/// After `n` lines, as many declarations of `attribute` are written as
/// these lines hold, and the store has a slot for each one in the file.
pub open spec fn cursor_at(
    declared: Declared,
    lines: Seq<Seq<char>>,
    n: int,
    attribute: Attribute,
) -> bool {
    &&& declared.written(attribute) == count_kind(lines.take(n), LineKind::Declaration(attribute))
    &&& declared.count(attribute) == count_kind(lines, LineKind::Declaration(attribute))
}

/// After `n` lines, the cursor of every attribute stands where these lines
/// leave it.
pub open spec fn cursors_at(declared: Declared, lines: Seq<Seq<char>>, n: int) -> bool {
    &&& cursor_at(declared, lines, n, Attribute::Position)
    &&& cursor_at(declared, lines, n, Attribute::TexCoord)
    &&& cursor_at(declared, lines, n, Attribute::Normal)
}

/// The number of declarations of `attribute` that the line `text` adds.
pub open spec fn declares(text: Seq<char>, attribute: Attribute) -> nat {
    if text_kind(text) == LineKind::Declaration(attribute) {
        1
    } else {
        0
    }
}

/// Reads one line into the two stores. Returns what the line did and, for
/// the proof, what its fields were read as.
fn load_line<F: Fn(&str) -> Option<u32>>(
    line: &str,
    number: usize,
    unsorted_vtn: &mut UnsortedVertexData,
    sorted_vtn: &mut SortedVertexData,
    read_scalar: &F,
) -> (done: (Result<(), ObjError>, Ghost<Seq<Option<u32>>>))
    requires
        forall|t: &str| read_scalar.requires((t,)),
        old(unsorted_vtn)@.wf(),
        old(sorted_vtn)@.wf(),
        forall|attribute: Attribute|
            declares(line@, attribute) == 1 ==> old(unsorted_vtn)@.written(attribute) < old(
                unsorted_vtn,
            )@.count(attribute),
    ensures
        fields_read(read_scalar, line@, done.1@),
        final(unsorted_vtn)@.wf(),
        final(sorted_vtn)@.wf(),
        match step(
            LoadState { declared: old(unsorted_vtn)@, sorted: old(sorted_vtn)@ },
            line@,
            done.1@,
            number,
        ) {
            Ok(state) => {
                &&& done.0 == Ok::<(), ObjError>(())
                &&& final(unsorted_vtn)@ == state.declared
                &&& final(sorted_vtn)@ == state.sorted
            },
            Err(e) => done.0 == Err::<(), ObjError>(e),
        },
        forall|attribute: Attribute|
            #![trigger final(unsorted_vtn)@.count(attribute)]
            final(unsorted_vtn)@.count(attribute) == old(unsorted_vtn)@.count(attribute),
        done.0 is Ok ==> forall|attribute: Attribute|
            #![trigger final(unsorted_vtn)@.written(attribute)]
            final(unsorted_vtn)@.written(attribute) == old(unsorted_vtn)@.written(attribute)
                + declares(line@, attribute),
{
    match classify_line(line.as_bytes()) {
        LineKind::Declaration(attribute) => {
            let tokens = scan_attribute(line, attribute);
            let fields = read_fields(&tokens, attribute.width(), read_scalar);
            assert(declares(line@, attribute) == 1);
            let done = unsorted_vtn.write(attribute, &fields, number);
            (done, Ghost(fields@))
        },
        LineKind::Face => {
            proof {
                if face_line_outcome(line@, unsorted_vtn@, sorted_vtn@, number) is Ok {
                    lemma_face_line_adds(line@, unsorted_vtn@, sorted_vtn@, number);
                }
            }
            let done = parse_face(line, unsorted_vtn, sorted_vtn, number);
            (done, Ghost(Seq::empty()))
        },
        LineKind::Other => (Ok(()), Ghost(Seq::empty())),
    }
}

/// Before the first line, no declaration is written and the state is the
/// initial one.
proof fn lemma_start(lines: Seq<Seq<char>>, declared: Declared)
    requires
        declared == initial_state(lines).declared,
    ensures
        cursors_at(declared, lines, 0),
        run(lines, Seq::empty(), 0) == Ok::<LoadState, ObjError>(
            LoadState { declared, sorted: Vertices::empty() },
        ),
        Vertices::empty().wf(),
{
    assert(lines.take(0) =~= Seq::<Seq<char>>::empty());
}

/// A load that `table` records hands out `loaded`.
pub open spec fn load_recorded<F: Fn(&str) -> Option<u32>>(
    reader: &F,
    lines: Seq<Seq<char>>,
    table: Seq<Seq<Option<u32>>>,
    loaded: Result<ObjMesh, ObjError>,
) -> bool {
    table_read(reader, lines, table) && loaded_as(loaded, load_result(lines, table))
}

/// Loads a triangulated mesh from the lines of an OBJ file.
///
/// `read_scalar` reads a numeric token into the bit pattern of its value, or
/// tells that the token is no number. The declarations are counted first;
/// then every line is read in file order. The first line that fails ends the
/// load with its error, and no mesh is handed out.
///
/// What `read_scalar` returns is not known in advance, so the contract
/// speaks of a table that records what the fields of each line were read
/// as. There is such a table, made of values that `read_scalar` may return
/// for the tokens of the declarations, for which `load_result` gives what
/// the load hands out. Where `read_scalar` gives a token one reading, every
/// such table gives the same, so that loading the same lines again hands out
/// the same.
pub fn load_obj_mesh<F: Fn(&str) -> Option<u32>>(lines: &Vec<String>, read_scalar: &F) -> (loaded:
    Result<ObjMesh, ObjError>)
    requires
        forall|t: &str| read_scalar.requires((t,)),
    ensures
        exists|table: Seq<Seq<Option<u32>>>|
            load_recorded(read_scalar, lines.deep_view(), table, loaded),
        single_valued(read_scalar) ==> forall|table: Seq<Seq<Option<u32>>>|
            table_read(read_scalar, lines.deep_view(), table) ==> loaded_as(
                loaded,
                #[trigger] load_result(lines.deep_view(), table),
            ),
        loaded matches Ok(mesh) ==> mesh.wf(),
{
    let ghost text = lines.deep_view();
    let (unsorted_vp_count, unsorted_vt_count, unsorted_vn_count, _) = count_vertices(lines);
    let mut unsorted_vtn = UnsortedVertexData::new(
        unsorted_vp_count,
        unsorted_vt_count,
        unsorted_vn_count,
    );
    let mut sorted_vtn = SortedVertexData::new();
    let ghost mut table: Seq<Seq<Option<u32>>> = Seq::empty();
    let mut i: usize = 0;
    proof {
        lemma_start(text, unsorted_vtn@);
    }
    while i < lines.len()
        invariant
            i <= lines.len(),
            text == lines.deep_view(),
            forall|t: &str| read_scalar.requires((t,)),
            table.len() == i,
            forall|j: int| 0 <= j < i ==> fields_read(read_scalar, text[j], #[trigger] table[j]),
            run(text, table, i as nat) == Ok::<LoadState, ObjError>(
                LoadState { declared: unsorted_vtn@, sorted: sorted_vtn@ },
            ),
            unsorted_vtn@.wf(),
            sorted_vtn@.wf(),
            cursors_at(unsorted_vtn@, text, i as int),
        decreases lines.len() - i,
    {
        let line = lines[i].as_str();
        let ghost before = table;
        let ghost state = LoadState { declared: unsorted_vtn@, sorted: sorted_vtn@ };
        proof {
            assert(text[i as int] == line@);
            assert(text.take(i + 1).drop_last() =~= text.take(i as int));
            assert(text.take(i + 1).last() == text[i as int]);
            lemma_count_kind_prefix(text, LineKind::Declaration(Attribute::Position), i as int);
            lemma_count_kind_prefix(text, LineKind::Declaration(Attribute::TexCoord), i as int);
            lemma_count_kind_prefix(text, LineKind::Declaration(Attribute::Normal), i as int);
            assert forall|attribute: Attribute| declares(line@, attribute) == 1 implies state.declared.written(
                attribute,
            ) < state.declared.count(attribute) by {
                match attribute {
                    Attribute::Position => {},
                    Attribute::TexCoord => {},
                    Attribute::Normal => {},
                }
            }
        }
        let (done, fields) = load_line(line, i + 1, &mut unsorted_vtn, &mut sorted_vtn, read_scalar);
        proof {
            table = before.push(fields@);
            lemma_run_prefix(text, before, table, i as nat);
            assert(table[i as int] == fields@);
            assert(run(text, table, (i + 1) as nat) == step(
                state,
                text[i as int],
                table[i as int],
                (i + 1) as usize,
            ));
        }
        match done {
            Err(e) => {
                proof {
                    assert(run(text, table, table.len()) == Err::<LoadState, ObjError>(e));
                    assert(load_recorded(read_scalar, text, table, Err(e)));
                    lemma_recorded_by_any(read_scalar, text, table, Err(e));
                }
                return Err(e);
            },
            Ok(()) => {},
        }
        proof {
            assert(unsorted_vtn@.written(Attribute::Position) == state.declared.written(
                Attribute::Position,
            ) + declares(line@, Attribute::Position));
            assert(unsorted_vtn@.written(Attribute::TexCoord) == state.declared.written(
                Attribute::TexCoord,
            ) + declares(line@, Attribute::TexCoord));
            assert(unsorted_vtn@.written(Attribute::Normal) == state.declared.written(
                Attribute::Normal,
            ) + declares(line@, Attribute::Normal));
            assert(unsorted_vtn@.count(Attribute::Position) == state.declared.count(
                Attribute::Position,
            ));
            assert(unsorted_vtn@.count(Attribute::TexCoord) == state.declared.count(
                Attribute::TexCoord,
            ));
            assert(unsorted_vtn@.count(Attribute::Normal) == state.declared.count(
                Attribute::Normal,
            ));
        }
        i += 1;
    }
    let mesh = ObjMesh::new(sorted_vtn.points, sorted_vtn.tex_coords, sorted_vtn.normals);
    proof {
        mesh.lemma_wf();
        assert(load_recorded(read_scalar, text, table, Ok(mesh)));
        lemma_recorded_by_any(read_scalar, text, table, Ok(mesh));
    }
    Ok(mesh)
}

} // verus!
