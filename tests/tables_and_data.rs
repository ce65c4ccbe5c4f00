use hello_webgl::frame::frame_handles;
use hello_webgl::geometry::{cube_indices, cube_positions, INDEX_COUNT, VERTEX_COUNT};
use hello_webgl::setup::ShaderStage;
use hello_webgl::shaders::{source_of, FS_GLSL, VS_GLSL};
use hello_webgl::uniforms::{same_name, Uniform, UniformTable};

#[test]
fn empty_table_holds_nothing() {
    let t: UniformTable<u8> = UniformTable::new();
    assert_eq!(t.len(), 0);
    assert_eq!(t.get("m"), None);
    assert_eq!(t.get(""), None);
    assert_eq!(frame_handles(&t), None);
}

#[test]
fn insert_then_get() {
    let mut t = UniformTable::new();
    t.insert("m".to_string(), 7u8);
    t.insert("view".to_string(), 8u8);
    assert_eq!(t.len(), 2);
    assert_eq!(t.get("m"), Some(&7));
    assert_eq!(t.get("view"), Some(&8));
    assert_eq!(t.get("vie"), None);
    assert_eq!(t.get("views"), None);
}

#[test]
fn insert_under_a_held_name_replaces() {
    let mut t = UniformTable::new();
    t.insert("p".to_string(), 1u32);
    t.insert("p".to_string(), 2u32);
    assert_eq!(t.len(), 1);
    assert_eq!(t.get("p"), Some(&2));
}

#[test]
fn frame_handles_in_transform_order() {
    let mut t = UniformTable::new();
    t.insert("p".to_string(), 'p');
    t.insert("m".to_string(), 'm');
    assert_eq!(frame_handles(&t), None);
    t.insert("v".to_string(), 'v');
    assert_eq!(frame_handles(&t), Some((&'m', &'v', &'p')));
}

#[test]
fn names_compare_by_characters() {
    assert!(same_name("m", "m"));
    assert!(same_name("", ""));
    assert!(!same_name("m", "v"));
    assert!(!same_name("m", "mm"));
    assert!(same_name("cafe\u{301}", "cafe\u{301}"));
    assert!(!same_name("caf\u{e9}", "cafe\u{301}"));
}

#[test]
fn uniform_names() {
    assert_eq!(Uniform::Model.name(), "m");
    assert_eq!(Uniform::View.name(), "v");
    assert_eq!(Uniform::Projection.name(), "p");
}

#[test]
fn stage_sources() {
    assert_eq!(source_of(ShaderStage::Vertex), VS_GLSL);
    assert_eq!(source_of(ShaderStage::Fragment), FS_GLSL);
    assert!(VS_GLSL.contains("gl_Position = p * v * m * vec4(position, 1.0);"));
    assert!(VS_GLSL.contains("uniform mat4 m;"));
    assert!(FS_GLSL.contains("gl_FragColor = fragColor;"));
}

#[test]
fn cube_index_buffer() {
    let idx = cube_indices();
    assert_eq!(idx.len(), INDEX_COUNT);
    assert_eq!(&idx[0..6], &[0, 1, 2, 0, 2, 3]);
    assert_eq!(&idx[30..36], &[20, 21, 22, 20, 22, 23]);
    assert!(idx.iter().all(|&i| (i as usize) < VERTEX_COUNT));
}

#[test]
fn cube_vertex_buffer() {
    let pos = cube_positions();
    assert_eq!(pos.len(), 3 * VERTEX_COUNT);
    assert!(pos.iter().all(|&c| c == 1 || c == -1));
    // first face lies at x = -1, its corners going round in y and z
    assert_eq!(&pos[0..12], &[-1, -1, -1, -1, 1, -1, -1, 1, 1, -1, -1, 1]);
    // last face lies at z = 1, its corners going round in x and y
    assert_eq!(&pos[60..72], &[-1, -1, 1, 1, -1, 1, 1, 1, 1, -1, 1, 1]);
    // every face has its own four vertices, all on one side of the cube
    for f in 0..6 {
        let axis = f / 2;
        let side = if f % 2 == 0 { -1 } else { 1 };
        for c in 0..4 {
            assert_eq!(pos[3 * (4 * f + c) + axis], side);
        }
    }
}
