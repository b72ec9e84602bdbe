use vpb::{is_spirv, shader_source_path, ImageArrayState, ShaderStage};

#[test]
fn ias_file_lies_in_the_directory() {
    assert_eq!(ImageArrayState::file_path("/res/blocks"), "/res/blocks/ias.txt");
}

#[test]
fn load_splits_on_newlines() {
    let s = ImageArrayState::load("/res", b"grass\nstone\n\ndirt\n");
    assert_eq!(s.path, "/res");
    assert_eq!(s.textures, vec!["grass", "stone", "", "dirt"]);
}

#[test]
fn load_drops_unfinished_last_line() {
    let s = ImageArrayState::load("/res", b"a\nbc");
    assert_eq!(s.textures, vec!["a"]);
    assert!(ImageArrayState::load("/res", b"").textures.is_empty());
}

#[test]
fn load_reads_bytes_as_latin1() {
    let s = ImageArrayState::load("/res", &[0xE9, b'\n']);
    assert_eq!(s.textures, vec!["\u{e9}"]);
}

#[test]
fn store_ends_every_name_with_newline() {
    let s = ImageArrayState { path: "/res".to_string(), textures: vec!["a".to_string(), "bc".to_string()] };
    assert_eq!(s.store(), b"a\nbc\n".to_vec());
    let empty = ImageArrayState { path: "/res".to_string(), textures: Vec::new() };
    assert!(empty.store().is_empty());
}

#[test]
fn store_then_load_gives_same_names() {
    let names = vec!["grass".to_string(), "".to_string(), "stone_2".to_string()];
    let bytes = ImageArrayState { path: "/p".to_string(), textures: names.clone() }.store();
    assert_eq!(ImageArrayState::load("/p", &bytes).textures, names);
}

#[test]
fn texture_paths_add_directory_and_extension() {
    let s = ImageArrayState { path: "/res/arr".to_string(), textures: vec!["a".to_string(), "b".to_string()] };
    assert_eq!(s.texture_paths(), vec!["/res/arr/a.png", "/res/arr/b.png"]);
}

#[test]
fn shader_paths_by_stage() {
    assert_eq!(shader_source_path(ShaderStage::Vertex, "sky"), "res/shaders/sky.vert");
    assert_eq!(shader_source_path(ShaderStage::Fragment, "sky"), "res/shaders/sky.frag");
    assert_eq!(shader_source_path(ShaderStage::Compute, "cull"), "res/shaders/cull.comp");
}

#[test]
fn spirv_magic_word() {
    assert!(is_spirv(&[0x0723_0203, 0x0001_0000]));
    assert!(!is_spirv(&[0x0302_2307]));
    assert!(!is_spirv(&[]));
}
