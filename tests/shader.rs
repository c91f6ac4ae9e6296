use gl_triangle::shader::resource_load_outcome;
use gl_triangle::resources::{null_free_text, resource_name_to_path, Resources};
use gl_triangle::shader::{
    compile_outcome, link_outcome, program_resource_names, shader_kind_for_resource,
    str_ends_with, whitespace_buffer, Error, ShaderKind,
};

#[test]
fn shader_stage_from_extension() {
    assert!(matches!(shader_kind_for_resource("triangle.vert"), Ok(ShaderKind::Vertex)));
    assert!(matches!(shader_kind_for_resource("triangle.frag"), Ok(ShaderKind::Fragment)));
    match shader_kind_for_resource("triangle.glsl") {
        Err(Error::CanNotDetermineShaderTypeForResource { name }) => {
            assert_eq!(name, "triangle.glsl")
        }
        other => panic!("unexpected {:?}", other),
    }
    assert!(shader_kind_for_resource("vert").is_err());
    assert!(shader_kind_for_resource("").is_err());
}

#[test]
fn suffix_test() {
    assert!(str_ends_with("abc", "bc"));
    assert!(str_ends_with("abc", ""));
    assert!(!str_ends_with("bc", "abc"));
    assert!(!str_ends_with("abd", "bc"));
}

#[test]
fn program_names_its_two_sources() {
    let names = program_resource_names("shaders/triangle");
    assert_eq!(names, vec!["shaders/triangle.vert".to_string(), "shaders/triangle.frag".to_string()]);
}

#[test]
fn failed_fragment_compile_is_reported() {
    assert!(compile_outcome("shaders/triangle.vert", 1, String::new()).is_ok());
    match compile_outcome("shaders/triangle.frag", 0, "0:3: syntax error".to_string()) {
        Err(Error::CompileError { name, message }) => {
            assert_eq!(name, "shaders/triangle.frag");
            assert!(!message.is_empty());
            assert_eq!(message, "0:3: syntax error");
        }
        other => panic!("unexpected {:?}", other),
    }
}

#[test]
fn failed_link_is_reported() {
    assert!(link_outcome("shaders/triangle", 1, String::new()).is_ok());
    match link_outcome("shaders/triangle", 0, "missing main".to_string()) {
        Err(Error::LinkError { name, message }) => {
            assert_eq!(name, "shaders/triangle");
            assert_eq!(message, "missing main");
        }
        other => panic!("unexpected {:?}", other),
    }
}

#[test]
fn log_buffer_is_spaces() {
    assert_eq!(whitespace_buffer(3), vec![b' ', b' ', b' ']);
    assert!(whitespace_buffer(0).is_empty());
}

#[test]
fn resource_names_split_on_slashes() {
    let root = vec!["/".to_string(), "opt".to_string(), "assets".to_string()];
    assert_eq!(
        resource_name_to_path(&root, "shaders/triangle.vert"),
        vec!["/", "opt", "assets", "shaders", "triangle.vert"]
    );
    assert_eq!(resource_name_to_path(&vec![], "a"), vec!["a"]);
    assert_eq!(resource_name_to_path(&vec![], ""), vec![""]);
    assert_eq!(resource_name_to_path(&vec![], "a//b/"), vec!["a", "", "b", ""]);
    let res = Resources::from_root_parts(root);
    assert_eq!(res.resource_path("x/y"), vec!["/", "opt", "assets", "x", "y"]);
}

#[test]
fn text_with_zero_byte_is_refused() {
    assert_eq!(null_free_text(b"void main() {}".to_vec()).unwrap(), b"void main() {}".to_vec());
    assert!(null_free_text(vec![]).is_ok());
    assert!(matches!(
        null_free_text(vec![b'a', 0, b'b']),
        Err(gl_triangle::resources::Error::FileContainsNil)
    ));
}

#[test]
fn driver_status_passes_the_log_on() {
    assert_eq!(gl_triangle::shader::status_outcome(1, "ignored".to_string()), Ok(()));
    assert_eq!(
        gl_triangle::shader::status_outcome(0, "bad".to_string()),
        Err("bad".to_string())
    );
}

#[test]
fn load_failure_is_charged_to_the_resource() {
    assert_eq!(resource_load_outcome("a.vert", Ok::<u8, gl_triangle::resources::Error>(5)).unwrap(), 5);
    match resource_load_outcome::<u8>("a.frag", Err(gl_triangle::resources::Error::FileContainsNil)) {
        Err(Error::ResourceLoad { name, inner }) => {
            assert_eq!(name, "a.frag");
            assert!(matches!(inner, gl_triangle::resources::Error::FileContainsNil));
        }
        other => panic!("unexpected {:?}", other),
    }
}
