use quad_demo::geometry::{
    index_buffer_byte_len, position_attribute, quad_indices, quad_vertices,
    vertex_buffer_byte_len,
};
use quad_demo::shader::{
    fragment_shader_source, info_log_read_len, vertex_shader_source, BuildReport, BuildStep,
};
use quad_demo::window::{demo_config, ConfigError, WindowConfig};

#[test]
fn vertex_buffer_holds_twelve_components() {
    let v = quad_vertices();
    assert_eq!(v.len(), 12);
    // Four corners in half-units: top right, bottom right, bottom left, top left.
    assert_eq!(v, vec![1, 1, 0, 1, -1, 0, -1, -1, 0, -1, 1, 0]);
}

#[test]
fn vertex_components_scale_to_the_original_quad() {
    // Divided by the half-unit scale, the coordinates are the familiar
    // (+-0.5, +-0.5, 0.0) corners.
    let v = quad_vertices();
    let scaled: Vec<f32> = v
        .iter()
        .map(|c| *c as f32 / quad_demo::geometry::COORD_HALF_UNITS_PER_UNIT as f32)
        .collect();
    assert_eq!(
        scaled,
        vec![0.5, 0.5, 0.0, 0.5, -0.5, 0.0, -0.5, -0.5, 0.0, -0.5, 0.5, 0.0]
    );
}

#[test]
fn index_buffer_holds_two_triangles_over_four_vertices() {
    let ix = quad_indices();
    assert_eq!(ix.len(), 6);
    assert_eq!(ix, vec![0, 1, 3, 1, 2, 3]);
    assert!(ix.iter().all(|i| *i < 4));
}

#[test]
fn buffer_byte_sizes_use_each_elements_own_width() {
    assert_eq!(vertex_buffer_byte_len(quad_vertices().len()), 48);
    assert_eq!(index_buffer_byte_len(quad_indices().len()), 24);
}

#[test]
fn position_attribute_is_three_floats_tightly_packed() {
    let a = position_attribute();
    assert_eq!(a.location, 0);
    assert_eq!(a.components, 3);
    assert_eq!(a.stride_bytes, 12);
    assert_eq!(a.offset_bytes, 0);
    assert!(!a.normalized);
}

#[test]
fn shader_sources_declare_glsl_330_core() {
    assert!(vertex_shader_source().starts_with("#version 330 core"));
    assert!(fragment_shader_source().starts_with("#version 330 core"));
    assert!(!vertex_shader_source().is_empty());
    assert!(!fragment_shader_source().is_empty());
}

#[test]
fn vertex_shader_passes_the_position_through() {
    let src = vertex_shader_source();
    assert!(src.contains("layout (location = 0) in vec3 aPos;"));
    assert!(src.contains("gl_Position = vec4(aPos.x, aPos.y, aPos.z, 1.0);"));
}

#[test]
fn fragment_shader_emits_one_fixed_color() {
    let src = fragment_shader_source();
    assert!(src.contains("out vec4 FragColor;"));
    assert!(src.contains("FragColor = vec4(1.0, 0.5, 0.2, 1.0);"));
}

#[test]
fn successful_statuses_build_a_clean_report() {
    let r = BuildReport::from_statuses(1, 1, 1);
    assert!(r.succeeded());
    assert!(r.failed_steps().is_empty());
}

#[test]
fn failed_statuses_are_each_reported_in_build_order() {
    let r = BuildReport::from_statuses(0, 1, 0);
    assert!(!r.succeeded());
    assert_eq!(
        r.failed_steps(),
        vec![BuildStep::CompileVertexShader, BuildStep::LinkProgram]
    );
    let all = BuildReport::from_statuses(0, 0, 0);
    assert_eq!(
        all.failed_steps(),
        vec![
            BuildStep::CompileVertexShader,
            BuildStep::CompileFragmentShader,
            BuildStep::LinkProgram,
        ]
    );
}

#[test]
fn info_log_reads_all_but_the_trailing_nul() {
    assert_eq!(info_log_read_len(), 511);
}

#[test]
fn window_config_800_by_800_is_accepted() {
    let c = WindowConfig::new(800, 800, "Hello, World!".to_owned()).unwrap();
    assert_eq!(c.width, 800);
    assert_eq!(c.height, 800);
    assert_eq!(c.title, "Hello, World!");
    assert_eq!(c.context_major, 3);
    assert_eq!(c.context_minor, 3);
    assert!(c.core_profile);
    assert!(!c.forward_compat);
}

#[test]
fn window_config_800_by_600_is_accepted() {
    let c = WindowConfig::new(800, 600, "Hello, World!".to_owned()).unwrap();
    assert_eq!(c.width, 800);
    assert_eq!(c.height, 600);
}

#[test]
fn zero_width_is_rejected() {
    assert_eq!(
        WindowConfig::new(0, 600, "t".to_owned()),
        Err(ConfigError::ZeroWidth)
    );
}

#[test]
fn zero_height_is_rejected() {
    assert_eq!(
        WindowConfig::new(800, 0, "t".to_owned()),
        Err(ConfigError::ZeroHeight)
    );
}

#[test]
fn empty_title_is_rejected() {
    assert_eq!(
        WindowConfig::new(800, 600, String::new()),
        Err(ConfigError::EmptyTitle)
    );
}

#[test]
fn demo_config_is_the_fixed_window() {
    let c = demo_config();
    assert_eq!(c.width, 800);
    assert_eq!(c.height, 800);
    assert_eq!(c.title, "Hello, World!");
    assert!(c.core_profile);
}

#[test]
fn forward_compat_can_be_requested_on_top() {
    let c = demo_config().with_forward_compat();
    assert!(c.forward_compat);
    assert_eq!(c.width, 800);
}
