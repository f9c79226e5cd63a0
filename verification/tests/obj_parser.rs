use obj_mesh::error::{Attribute, ObjError};
use obj_mesh::mesh::ObjMesh;
use obj_mesh::obj_parser::{count_vertices, load_obj_mesh, read_fields};

struct Test {
    obj_file: String,
    obj_mesh: ObjMesh,
    vp_count: usize,
    vt_count: usize,
    vn_count: usize,
    face_count: usize,
}

fn lines_of(text: &str) -> Vec<String> {
    text.lines().map(String::from).collect()
}

fn read_scalar(token: &str) -> Option<u32> {
    token.parse::<f32>().ok().map(f32::to_bits)
}

fn bits(values: &[f32]) -> Vec<u32> {
    values.iter().map(|value| value.to_bits()).collect()
}

fn floats(values: &[u32]) -> Vec<f32> {
    values.iter().map(|value| f32::from_bits(*value)).collect()
}

fn load(text: &str) -> Result<ObjMesh, ObjError> {
    load_obj_mesh(&lines_of(text), &read_scalar)
}

fn test() -> Test {
    let obj_file = String::from(r"        \
        o object1                         \
        g cube                            \
        v  0.0  0.0  0.0                  \
        v  0.0  0.0  1.0                  \
        v  0.0  1.0  0.0                  \
        v  0.0  1.0  1.0                  \
        v  1.0  0.0  0.0                  \
        v  1.0  0.0  1.0                  \
        v  1.0  1.0  0.0                  \
        v  1.0  1.0  1.0                  \
                                          \
        vn  0.0  0.0  1.0                 \
        vn  0.0  0.0 -1.0                 \
        vn  0.0  1.0  0.0                 \
        vn  0.0 -1.0  0.0                 \
        vn  1.0  0.0  0.0                 \
        vn -1.0  0.0  0.0                 \
                                          \
        f  1//2  7//2  5//2               \
        f  1//2  3//2  7//2               \
        f  1//6  4//6  3//6               \
        f  1//6  2//6  4//6               \
        f  3//3  8//3  7//3               \
        f  3//3  4//3  8//3               \
        f  5//5  7//5  8//5               \
        f  5//5  8//5  6//5               \
        f  1//4  5//4  6//4               \
        f  1//4  6//4  2//4               \
        f  2//1  6//1  8//1               \
        f  2//1  8//1  4//1               \
    ");
    let point_count = 36;
    let points = vec![
        0.0, 0.0, 0.0, 1.0, 1.0, 0.0, 1.0, 0.0, 0.0,
        0.0, 0.0, 0.0, 0.0, 1.0, 0.0, 1.0, 1.0, 0.0,
        0.0, 0.0, 0.0, 0.0, 1.0, 1.0, 0.0, 1.0, 0.0,
        0.0, 0.0, 0.0, 0.0, 0.0, 1.0, 0.0, 1.0, 1.0,
        0.0, 1.0, 0.0, 1.0, 1.0, 1.0, 1.0, 1.0, 0.0,
        0.0, 1.0, 0.0, 0.0, 1.0, 1.0, 1.0, 1.0, 1.0,
        1.0, 0.0, 0.0, 1.0, 1.0, 0.0, 1.0, 1.0, 1.0,
        1.0, 0.0, 0.0, 1.0, 1.0, 1.0, 1.0, 0.0, 1.0,
        0.0, 0.0, 0.0, 1.0, 0.0, 0.0, 1.0, 0.0, 1.0,
        0.0, 0.0, 0.0, 1.0, 0.0, 1.0, 0.0, 0.0, 1.0,
        0.0, 0.0, 1.0, 1.0, 0.0, 1.0, 1.0, 1.0, 1.0,
        0.0, 0.0, 1.0, 1.0, 1.0, 1.0, 0.0, 1.0, 1.0,
    ];
    let tex_coords = vec![];
    let normals = vec![
         0.0,  0.0, -1.0,  0.0,  0.0, -1.0,  0.0,  0.0, -1.0,
         0.0,  0.0, -1.0,  0.0,  0.0, -1.0,  0.0,  0.0, -1.0,
        -1.0,  0.0,  0.0, -1.0,  0.0,  0.0, -1.0,  0.0,  0.0,
        -1.0,  0.0,  0.0, -1.0,  0.0,  0.0, -1.0,  0.0,  0.0,
         0.0,  1.0,  0.0,  0.0,  1.0,  0.0,  0.0,  1.0,  0.0,
         0.0,  1.0,  0.0,  0.0,  1.0,  0.0,  0.0,  1.0,  0.0,
         1.0,  0.0,  0.0,  1.0,  0.0,  0.0,  1.0,  0.0,  0.0,
         1.0,  0.0,  0.0,  1.0,  0.0,  0.0,  1.0,  0.0,  0.0,
         0.0, -1.0,  0.0,  0.0, -1.0,  0.0,  0.0, -1.0,  0.0,
         0.0, -1.0,  0.0,  0.0, -1.0,  0.0,  0.0, -1.0,  0.0,
         0.0,  0.0,  1.0,  0.0,  0.0,  1.0,  0.0,  0.0,  1.0,
         0.0,  0.0,  1.0,  0.0,  0.0,  1.0,  0.0,  0.0,  1.0,
    ];

    let obj_mesh = ObjMesh {
        point_count: point_count,
        points: bits(&points),
        tex_coords: tex_coords,
        normals: bits(&normals),
    };

    Test {
        obj_file: obj_file,
        obj_mesh: obj_mesh,
        vp_count: 8,
        vt_count: 0,
        vn_count: 6,
        face_count: 12,
    }
}

#[test]
fn test_count_vertices() {
    let test = test();
    let (unsorted_vp_count, unsorted_vt_count, unsorted_vn_count, face_count) =
        count_vertices(&lines_of(&test.obj_file));

    assert_eq!(unsorted_vp_count, test.vp_count);
    assert_eq!(unsorted_vt_count, test.vt_count);
    assert_eq!(unsorted_vn_count, test.vn_count);
    assert_eq!(face_count, test.face_count);
}

#[test]
fn obj_parser_test_count_vertices() {
    let test = test();
    let lines = lines_of(&test.obj_file);
    let (unsorted_vp_count, unsorted_vt_count, unsorted_vn_count, face_count) =
        count_vertices(&lines);

    assert_eq!(unsorted_vp_count, test.vp_count);
    assert_eq!(unsorted_vt_count, test.vt_count);
    assert_eq!(unsorted_vn_count, test.vn_count);
    assert_eq!(face_count, test.face_count);
    // Counting reads the lines only: a second count gives the same.
    assert_eq!(count_vertices(&lines), (8, 0, 6, 12));
}

#[test]
fn test_parse_obj_mesh_elementwise() {
    let test = test();
    let result = load_obj_mesh(&lines_of(&test.obj_file), &read_scalar).unwrap();
    let expected = test.obj_mesh;

    assert_eq!(result.point_count, expected.point_count);
    assert_eq!(result.points, expected.points);
    assert_eq!(result.tex_coords, expected.tex_coords);
    assert_eq!(result.normals, expected.normals);
}

#[test]
fn test_parse_obj_mesh() {
    let test = test();
    let result = load_obj_mesh(&lines_of(&test.obj_file), &read_scalar).unwrap();
    let expected = test.obj_mesh;

    assert_eq!(result, expected);
}

#[test]
fn cube_has_thirty_six_vertices_in_face_order() {
    let mesh = load(&test().obj_file).unwrap();
    assert_eq!(mesh.point_count, 36);
    assert_eq!(mesh.points.len(), 108);
    assert_eq!(mesh.normals.len(), 108);
    assert_eq!(mesh.tex_coords.len(), 0);
    // First face: `1//2 7//2 5//2`.
    assert_eq!(floats(&mesh.points[0..9]), vec![0.0, 0.0, 0.0, 1.0, 1.0, 0.0, 1.0, 0.0, 0.0]);
    assert_eq!(floats(&mesh.normals[0..3]), vec![0.0, 0.0, -1.0]);
    // Last face: `2//1 8//1 4//1`.
    assert_eq!(floats(&mesh.points[99..108]), vec![0.0, 0.0, 1.0, 1.0, 1.0, 1.0, 0.0, 1.0, 1.0]);
    assert_eq!(floats(mesh.points()), floats(&mesh.points));
    assert_eq!(mesh.normals(), &mesh.normals[..]);
    assert_eq!(mesh.tex_coords().len(), 0);
}

const TEXTURED: &str = "v 0.0 0.0 0.0\n\
v 1.0 0.0 0.0\n\
v 0.0 1.0 0.0\n\
vt 0.25 0.5\n\
vt 0.75 1.0\n\
vn 0.0 0.0 1.0\n\
f 1/1/1 2/2/1 3/1/1\n";

#[test]
fn textured_face_copies_all_three_attributes() {
    let mesh = load(TEXTURED).unwrap();
    assert_eq!(mesh.point_count, 3);
    assert_eq!(floats(&mesh.points), vec![0.0, 0.0, 0.0, 1.0, 0.0, 0.0, 0.0, 1.0, 0.0]);
    assert_eq!(floats(&mesh.tex_coords), vec![0.25, 0.5, 0.75, 1.0, 0.25, 0.5]);
    assert_eq!(floats(&mesh.normals), vec![0.0, 0.0, 1.0, 0.0, 0.0, 1.0, 0.0, 0.0, 1.0]);
}

#[test]
fn loaded_mesh_arrays_agree_with_the_vertex_count() {
    for text in [TEXTURED, test().obj_file.as_str(), "", "o nothing\ng here\n"] {
        let mesh = load(text).unwrap();
        assert_eq!(mesh.points.len(), 3 * mesh.point_count);
        assert!(mesh.tex_coords.len() == 0 || mesh.tex_coords.len() == 2 * mesh.point_count);
        assert!(mesh.normals.len() == 0 || mesh.normals.len() == 3 * mesh.point_count);
    }
}

#[test]
fn empty_file_loads_into_the_empty_mesh() {
    let mesh = load("").unwrap();
    assert_eq!(mesh, ObjMesh { point_count: 0, points: vec![], tex_coords: vec![], normals: vec![] });
    assert_eq!(count_vertices(&lines_of("")), (0, 0, 0, 0));
}

#[test]
fn blank_and_unknown_lines_are_skipped() {
    let text = "\n# a comment\n   \no thing\ng group\ns off\nusemtl m\nv\nvx 1 2 3\n\\\n";
    assert_eq!(count_vertices(&lines_of(text)), (0, 0, 0, 0));
    let mesh = load(text).unwrap();
    assert_eq!(mesh.point_count, 0);
}

#[test]
fn quad_is_unsupported_topology() {
    let text = "v 0 0 0\nvt 0 0\nvn 0 0 1\nf 1/1/1 1/1/1 1/1/1 1/1/1\n";
    assert_eq!(load(text), Err(ObjError::UnsupportedTopology { line: 4 }));
}

#[test]
fn face_without_six_slashes_is_unsupported_topology() {
    for face in ["f 1 2 3", "f 1/1 2/2 3/3", "f", "f 1//1 2//2", "f 1/1/1/1 2/2/2 3/3/3", "foo"] {
        let text = format!("v 0 0 0\nvn 0 0 1\n{}\n", face);
        assert_eq!(load(&text), Err(ObjError::UnsupportedTopology { line: 3 }));
    }
}

#[test]
fn position_index_zero_is_out_of_range() {
    let text = "v 0 0 0\nvn 0 0 1\nf 1//1 0//1 1//1\n";
    assert_eq!(
        load(text),
        Err(ObjError::IndexOutOfRange { line: 3, attribute: Attribute::Position, index: 0 })
    );
}

#[test]
fn position_index_past_the_declared_count_is_out_of_range() {
    let text = "v 0 0 0\nv 1 1 1\nvn 0 0 1\nf 1//1 2//1 3//1\n";
    assert_eq!(
        load(text),
        Err(ObjError::IndexOutOfRange { line: 4, attribute: Attribute::Position, index: 3 })
    );
    let text = "v 0 0 0\nvt 0 0\nvn 0 0 1\nf 1/1/1 1/1/1 4294967295/1/1\n";
    assert_eq!(
        load(text),
        Err(ObjError::IndexOutOfRange {
            line: 4,
            attribute: Attribute::Position,
            index: 4294967295
        })
    );
}

#[test]
fn tex_coord_and_normal_indices_are_checked_too() {
    let text = "v 0 0 0\nvt 0 0\nvn 0 0 1\nf 1/1/1 1/2/1 1/1/1\n";
    assert_eq!(
        load(text),
        Err(ObjError::IndexOutOfRange { line: 4, attribute: Attribute::TexCoord, index: 2 })
    );
    let text = "v 0 0 0\nvt 0 0\nvn 0 0 1\nf 1/1/1 1/1/1 1/1/0\n";
    assert_eq!(
        load(text),
        Err(ObjError::IndexOutOfRange { line: 4, attribute: Attribute::Normal, index: 0 })
    );
    let text = "v 0 0 0\nvn 0 0 1\nf 1//1 1//1 1//7\n";
    assert_eq!(
        load(text),
        Err(ObjError::IndexOutOfRange { line: 3, attribute: Attribute::Normal, index: 7 })
    );
}

#[test]
fn first_offending_index_is_reported() {
    // Corner by corner, and in a corner position before texture coordinate
    // before normal.
    let text = "v 0 0 0\nvt 0 0\nvn 0 0 1\nf 1/9/8 7/1/1 6/5/4\n";
    assert_eq!(
        load(text),
        Err(ObjError::IndexOutOfRange { line: 4, attribute: Attribute::TexCoord, index: 9 })
    );
}

#[test]
fn textured_face_in_a_file_without_tex_coords_is_out_of_range() {
    let text = "v 0 0 0\nvn 0 0 1\nf 1/1/1 1/1/1 1/1/1\n";
    assert_eq!(
        load(text),
        Err(ObjError::IndexOutOfRange { line: 3, attribute: Attribute::TexCoord, index: 1 })
    );
}

#[test]
fn face_that_reads_under_neither_grammar_is_malformed() {
    for face in ["f a/b/c d/e/f g/h/i", "f 1/2/3 4/5/ 6/7/8", "f 1//1 2//2 //", "f 1//1 2/2/2 3//3",
        "f -1//1 1//1 1//1", "f 1.0//1 1//1 1//1", "f 1//1 1//1 99999999999//1", "f//////"] {
        let text = format!("v 0 0 0\nvt 0 0\nvn 0 0 1\n{}\n", face);
        assert_eq!(load(&text), Err(ObjError::MalformedFaceLine { line: 4 }), "{}", face);
    }
}

#[test]
fn attribute_line_with_a_bad_field_is_malformed() {
    for (text, line) in [
        ("v 1.0 abc 2.0\n", 1),
        ("v 1.0 2.0\n", 1),
        ("v 0 0 0\nvt 0.5\n", 2),
        ("v 0 0 0\nvn 0 0 x\n", 2),
        ("vt\n", 1),
        ("v 0 0 0\n\\v 1 2 3\n", 2),
        ("vtx 1 2\n", 1),
    ] {
        assert_eq!(load(text), Err(ObjError::MalformedAttributeLine { line }), "{:?}", text);
    }
}

#[test]
fn extra_fields_and_spacing_are_tolerated() {
    let text = "   v   1.5\t-2.5   3e2   trailing words \\\nvn 0 0 1 9 9 9\n  f   1//1   1//1\t1//1   \n";
    let mesh = load(text).unwrap();
    assert_eq!(floats(&mesh.points), vec![1.5, -2.5, 300.0, 1.5, -2.5, 300.0, 1.5, -2.5, 300.0]);
    assert_eq!(floats(&mesh.normals), vec![0.0, 0.0, 1.0, 0.0, 0.0, 1.0, 0.0, 0.0, 1.0]);
}

#[test]
fn first_failing_line_ends_the_load() {
    let text = "v 0 0 0\nvn 0 0 1\nf 1 2 3\nv bad\nf 9//9 9//9 9//9\n";
    assert_eq!(load(text), Err(ObjError::UnsupportedTopology { line: 3 }));
    let text = "v 0 0 0\nv bad\nf 1 2 3\n";
    assert_eq!(load(text), Err(ObjError::MalformedAttributeLine { line: 2 }));
}

#[test]
fn loading_twice_gives_the_same_mesh() {
    let test = test();
    let lines = lines_of(&test.obj_file);
    let first = load_obj_mesh(&lines, &read_scalar).unwrap();
    let second = load_obj_mesh(&lines, &read_scalar).unwrap();
    assert_eq!(first.points, second.points);
    assert_eq!(first.tex_coords, second.tex_coords);
    assert_eq!(first.normals, second.normals);
    assert_eq!(first, second);
    let failing = lines_of("v 0 0 0\nf 1/1/1 1/1/1 1/1/1 1/1/1\n");
    assert_eq!(load_obj_mesh(&failing, &read_scalar), load_obj_mesh(&failing, &read_scalar));
}

#[test]
fn mixed_grammars_are_read_line_by_line() {
    let text = "v 0 0 0\nv 1 0 0\nv 0 1 0\nvt 0.5 0.5\nvn 0 0 1\nvn 0 1 0\n\
f 1/1/1 2/1/1 3/1/1\nf 3//2 2//2 1//2\nf 2/1/2 2/1/2 2/1/2\n";
    let mesh = load(text).unwrap();
    assert_eq!(mesh.point_count, 9);
    assert_eq!(mesh.points.len(), 27);
    assert_eq!(mesh.normals.len(), 27);
    // Only the two faces that name texture coordinates contribute any.
    assert_eq!(mesh.tex_coords.len(), 12);
    assert_eq!(floats(&mesh.points[9..18]), vec![0.0, 1.0, 0.0, 1.0, 0.0, 0.0, 0.0, 0.0, 0.0]);
    assert_eq!(floats(&mesh.normals[9..12]), vec![0.0, 1.0, 0.0]);
    assert_eq!(floats(&mesh.tex_coords), vec![0.5; 12]);
}

#[test]
fn face_before_its_declarations_reads_zeroed_slots() {
    let text = "f 1//1 1//1 1//1\nv 1 2 3\nvn 4 5 6\nf 1//1 1//1 1//1\n";
    let mesh = load(text).unwrap();
    assert_eq!(mesh.point_count, 6);
    assert_eq!(floats(&mesh.points[0..9]), vec![0.0; 9]);
    assert_eq!(floats(&mesh.points[9..18]), vec![1.0, 2.0, 3.0, 1.0, 2.0, 3.0, 1.0, 2.0, 3.0]);
    assert_eq!(floats(&mesh.normals[9..12]), vec![4.0, 5.0, 6.0]);
}

#[test]
fn scalar_reader_decides_what_a_number_is() {
    let lines = lines_of("v 1 2 3\nvn 1 0 0\nf 1//1 1//1 1//1\n");
    let constant = |_: &str| Some(7u32);
    let mesh = load_obj_mesh(&lines, &constant).unwrap();
    assert_eq!(mesh.points, vec![7; 9]);
    let refusing = |_: &str| None;
    assert_eq!(load_obj_mesh(&lines, &refusing), Err(ObjError::MalformedAttributeLine { line: 1 }));
    let seen = std::cell::RefCell::new(Vec::new());
    let recording = |token: &str| {
        seen.borrow_mut().push(token.to_string());
        read_scalar(token)
    };
    load_obj_mesh(&lines, &recording).unwrap();
    assert_eq!(*seen.borrow(), vec!["1", "2", "3", "1", "0", "0"]);
}

#[test]
fn mesh_new_derives_the_vertex_count() {
    let mesh = ObjMesh::new(vec![1, 2, 3, 4, 5, 6], vec![9, 9], vec![7, 7, 7]);
    assert_eq!(mesh.point_count, 2);
    assert_eq!(mesh.points(), &[1, 2, 3, 4, 5, 6]);
    assert_eq!(mesh.tex_coords(), &[9, 9]);
    assert_eq!(mesh.normals(), &[7, 7, 7]);
    assert_eq!(ObjMesh::new(vec![], vec![], vec![]).point_count, 0);
    assert_eq!(ObjMesh::new(vec![1, 2], vec![], vec![]).point_count, 0);
}

#[test]
fn fields_are_read_token_by_token() {
    let tokens: Vec<String> = vec!["1.5".to_string(), "x".to_string(), "-2".to_string()];
    let fields = read_fields(&tokens, 3, &read_scalar);
    assert_eq!(fields, vec![Some(1.5f32.to_bits()), None, Some((-2.0f32).to_bits())]);
    // No more fields than asked for, and none where a token is missing.
    assert_eq!(read_fields(&tokens, 1, &read_scalar), vec![Some(1.5f32.to_bits())]);
    assert_eq!(read_fields(&tokens, 0, &read_scalar), vec![]);
    assert_eq!(read_fields(&tokens[..1].to_vec(), 3, &read_scalar), vec![Some(1.5f32.to_bits()), None, None]);
    assert_eq!(read_fields(&vec![], 2, &read_scalar), vec![None, None]);
}
