use hello_shader::{setup, window_settings, Custom2dMaterial, Cube, Spawn, QUAD_DEPTH, SCREEN_HEIGHT, SCREEN_WIDTH};

#[test]
fn setup_spawns_one_camera_and_one_drawable() {
    let plan = setup();
    let cameras = plan.iter().filter(|s| matches!(s, Spawn::Camera2d)).count();
    let drawables = plan.iter().filter(|s| matches!(s, Spawn::MaterialQuad { .. })).count();
    assert_eq!(cameras, 1);
    assert_eq!(drawables, 1);
    assert_eq!(plan.len(), 2);
}

#[test]
fn setup_quad_matches_window() {
    let plan = setup();
    let w = window_settings();
    assert_eq!(plan[0], Spawn::Camera2d);
    assert_eq!(
        plan[1],
        Spawn::MaterialQuad { width: w.width, height: w.height, depth: QUAD_DEPTH, material: Custom2dMaterial::new() }
    );
    assert_eq!(w.width, 1000);
    assert_eq!(w.height, 1000);
    assert_eq!(QUAD_DEPTH, 1);
}

#[test]
fn window_settings_values() {
    let w = window_settings();
    assert_eq!(w.width, SCREEN_WIDTH);
    assert_eq!(w.height, SCREEN_HEIGHT);
    assert!(w.resizable);
    assert!(w.vsync);
    assert!(w.watch_assets);
    assert!(w.close_on_escape);
    assert_eq!(w.fixed_hz, 60);
}

#[test]
fn both_stages_load_the_same_shader() {
    assert_eq!(Custom2dMaterial::vertex_shader(), "shaders/hello.wgsl");
    assert_eq!(Custom2dMaterial::fragment_shader(), "shaders/hello.wgsl");
}

#[test]
fn cube_marker_compares_equal() {
    assert_eq!(Cube, Cube.clone());
}
