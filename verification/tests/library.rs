use kerkenez::app_core::{AppCore, WindowAction, WindowEventKind};
use kerkenez::batch::prepare_batches;
use kerkenez::config::Config;
use kerkenez::context::best_config_index;
use kerkenez::error::KerkenezError;
use kerkenez::input::{KeyState, KeyboardState};
use kerkenez::material::{MaterialId, MaterialIds};
use kerkenez::mesh::{cube_indices, sphere_indices, square_indices, triangle_indices, MeshType};
use kerkenez::pipeline::{instance_layout, vertex_layout};
use kerkenez::post_processing::{
    compose_plan, half_extent, point_light_uniform, DebugMode, PostProcessingToggles,
    ShaderDefines, TargetSize, VariantCache, MAX_POINT_LIGHTS,
};
use kerkenez::shader_source::{compose_shader_source, format_signed, format_unsigned, inject_common};
use kerkenez::state_cache::GlStateCache;
use kerkenez::texture::{TextureCatalog, TextureId};

#[test]
fn config_default_values() {
    let c = Config::default();
    assert_eq!(c.title, "Window Title");
    assert_eq!(c.width, 800);
    assert_eq!(c.height, 600);
}

#[test]
fn error_messages() {
    assert_eq!(
        KerkenezError::ShaderCompileError("bad".to_string()).message(),
        "Shader Compile Error: bad"
    );
    assert_eq!(KerkenezError::ShaderLinkError("x".to_string()).message(), "Shader Link Error: x");
    assert_eq!(
        KerkenezError::TextureLoadError("missing.png".to_string()).message(),
        "Texture Load Error: missing.png"
    );
    assert_eq!(
        KerkenezError::FramebufferIncomplete("fb".to_string()).message(),
        "Framebuffer Incomplet: fb"
    );
    assert_eq!(
        KerkenezError::ResourceCreationError("".to_string()).message(),
        "Resource Creation Error: "
    );
}

#[test]
fn keyboard_press_hold_release() {
    let mut k = KeyboardState::new();
    assert!(!k.is_down(7));
    k.process(7, KeyState::Pressed);
    assert!(k.is_down(7));
    assert!(k.is_pressed(7));
    assert!(!k.is_released(7));
    k.end_frame();
    assert!(k.is_down(7));
    assert!(!k.is_pressed(7));
    // key repeat: already held, not a new press
    k.process(7, KeyState::Pressed);
    assert!(!k.is_pressed(7));
    k.process(7, KeyState::Released);
    assert!(!k.is_down(7));
    assert!(k.is_released(7));
    k.end_frame();
    assert!(!k.is_released(7));
}

#[test]
fn keyboard_press_and_release_in_one_frame() {
    let mut k = KeyboardState::new();
    k.process(3, KeyState::Pressed);
    k.process(3, KeyState::Released);
    assert!(k.is_pressed(3));
    assert!(k.is_released(3));
    assert!(!k.is_down(3));
    assert!(!k.is_down(4));
    assert!(!k.is_pressed(4));
}

#[test]
fn default_sphere_tessellation() {
    assert_eq!(MeshType::default_sphere(), MeshType::Sphere { sectors: 12, stacks: 6 });
    assert_eq!(MeshType::DEFAULT_SPHERE_SECTORS, 12);
    assert_eq!(MeshType::DEFAULT_SPHERE_STACKS, 6);
}

#[test]
fn builtin_mesh_indices() {
    assert_eq!(square_indices(), vec![0, 1, 3, 1, 2, 3]);
    assert_eq!(triangle_indices(), vec![0, 1, 2]);
    let cube = cube_indices();
    assert_eq!(cube.len(), 36);
    assert_eq!(&cube[0..6], &[0, 1, 2, 2, 3, 0]);
    assert_eq!(&cube[30..36], &[20, 21, 22, 22, 23, 20]);
    assert!(cube.iter().all(|&i| i < 24));
}

#[test]
fn sphere_indices_small() {
    // 2 sectors, 1 stack: two quads between the rings 0..3 and 3..6
    assert_eq!(sphere_indices(2, 1), vec![0, 3, 1, 3, 4, 1, 1, 4, 2, 4, 5, 2]);
    assert!(sphere_indices(0, 5).is_empty());
    assert!(sphere_indices(5, 0).is_empty());
}

#[test]
fn sphere_indices_default_in_range() {
    let idx = sphere_indices(12, 6);
    assert_eq!(idx.len(), 6 * 12 * 6);
    assert!(idx.iter().all(|&i| i < 13 * 7));
    assert_eq!(*idx.iter().max().unwrap(), 13 * 7 - 1);
}

#[test]
fn batches_group_by_mesh_and_material() {
    let m0 = MaterialId(0);
    let m1 = MaterialId(1);
    let keys = vec![
        (MeshType::Cube, m0),
        (MeshType::Square, m0),
        (MeshType::Cube, m1),
        (MeshType::Cube, m0),
        (MeshType::Sphere { sectors: 12, stacks: 6 }, m0),
        (MeshType::Cube, m0),
    ];
    let visible = vec![true, true, true, false, true, true];
    let registered = vec![MeshType::Square, MeshType::Triangle, MeshType::Cube];
    let batches = prepare_batches(&keys, &visible, &registered);
    assert_eq!(batches.len(), 3);
    assert_eq!((batches[0].mesh_type, batches[0].material), (MeshType::Cube, m0));
    assert_eq!(batches[0].commands, vec![0, 5]);
    assert_eq!((batches[1].mesh_type, batches[1].material), (MeshType::Square, m0));
    assert_eq!(batches[1].commands, vec![1]);
    assert_eq!((batches[2].mesh_type, batches[2].material), (MeshType::Cube, m1));
    assert_eq!(batches[2].commands, vec![2]);
}

#[test]
fn batches_empty_when_nothing_visible() {
    let keys = vec![(MeshType::Cube, MaterialId(0))];
    let batches = prepare_batches(&keys, &vec![false], &vec![MeshType::Cube]);
    assert!(batches.is_empty());
}

#[test]
fn texture_catalog_deduplicates() {
    let mut t = TextureCatalog::new();
    assert_eq!(t.len(), 1);
    assert_eq!(t.white_texture_id(), TextureId(0));
    assert_eq!(t.load_texture("a.png"), (TextureId(1), true));
    assert_eq!(t.load_texture("b.png"), (TextureId(2), true));
    assert_eq!(t.load_texture("a.png"), (TextureId(1), false));
    assert_eq!(t.len(), 3);
    assert_eq!(t.lookup("b.png"), Some(TextureId(2)));
    assert_eq!(t.lookup("c.png"), None);
    assert_eq!(t.material_texture(None), (TextureId(0), false));
    assert_eq!(t.material_texture(Some("c.png")), (TextureId(3), true));
    assert_eq!(t.material_texture(Some("b.png")), (TextureId(2), false));
}

#[test]
fn state_cache_skips_redundant_binds() {
    let mut c = GlStateCache::new();
    assert!(c.bind_vao(5));
    assert!(!c.bind_vao(5));
    assert!(c.bind_vao(6));
    assert!(c.use_program(1));
    assert!(!c.use_program(1));
    c.invalidate();
    assert!(c.bind_vao(6));
    assert!(c.use_program(1));
}

#[test]
fn material_ids_start_at_one() {
    let mut ids = MaterialIds::new();
    assert_eq!(ids.allocate(), MaterialId(1));
    assert_eq!(ids.allocate(), MaterialId(2));
    assert_eq!(ids.peek(), 3);
}

#[test]
fn app_queues_materials_until_resumed() {
    let mut app: AppCore<&str, u32> = AppCore::new();
    let (a, fa) = app.add_material("brick");
    assert_eq!(a, MaterialId(1));
    assert!(fa.is_none());
    assert!(app.register_material(MaterialId(9), "glass").is_none());
    assert!(!app.begin_frame());
    assert_eq!(app.window_event(WindowEventKind::CloseRequested), WindowAction::Ignore);
    let waiting = app.resume();
    assert_eq!(waiting, vec![(MaterialId(1), "brick"), (MaterialId(9), "glass")]);
    let (b, fb) = app.add_material("wood");
    assert_eq!(b, MaterialId(2));
    assert_eq!(fb, Some((MaterialId(2), "wood")));
    assert!(app.resume().is_empty());
}

#[test]
fn app_frames_and_events() {
    let mut app: AppCore<(), u32> = AppCore::new();
    app.draw(1);
    app.draw(2);
    assert_eq!(app.render_queue(), &vec![1, 2]);
    assert!(!app.begin_frame());
    assert_eq!(app.render_queue().len(), 2);
    app.resume();
    assert!(app.begin_frame());
    assert!(app.render_queue().is_empty());
    assert_eq!(app.window_event(WindowEventKind::CloseRequested), WindowAction::Exit);
    assert_eq!(app.window_event(WindowEventKind::RedrawRequested), WindowAction::Render);
    assert_eq!(
        app.window_event(WindowEventKind::Resized { width: 640, height: 480 }),
        WindowAction::Resize { width: 640, height: 480 }
    );
    assert_eq!(app.window_event(WindowEventKind::Other), WindowAction::Ignore);
}

#[test]
fn best_config_is_first_with_most_samples() {
    assert_eq!(best_config_index(&vec![0, 4, 2, 4]), 1);
    assert_eq!(best_config_index(&vec![0]), 0);
    assert_eq!(best_config_index(&vec![1, 1, 8]), 2);
}

#[test]
fn decimal_formatting() {
    assert_eq!(format_unsigned(0), "0");
    assert_eq!(format_unsigned(31), "31");
    assert_eq!(format_unsigned(u64::MAX), u64::MAX.to_string());
    assert_eq!(format_signed(-7), "-7");
    assert_eq!(format_signed(i32::MIN), i32::MIN.to_string());
    assert_eq!(format_signed(2), "2");
}

#[test]
fn shader_source_composition() {
    let src = "#version 410 core\nvoid main() {}\n";
    assert_eq!(
        compose_shader_source(src, "#define A\n", "float f;"),
        "#version 410 core\n#define A\nfloat f;\nvoid main() {}\n"
    );
    assert_eq!(
        compose_shader_source("void main() {}", "#define A\n", "float f;"),
        "#define A\nfloat f;\nvoid main() {}"
    );
    assert_eq!(inject_common(src, "C"), "#version 410 core\nC\nvoid main() {}\n");
    assert_eq!(inject_common("x", "C"), "C\nx");
}

#[test]
fn shader_defines_from_settings() {
    let mut t = PostProcessingToggles::default();
    assert!(t.enabled && t.ssao_enabled && t.fog_enabled && t.tone_mapping_enabled);
    assert!(!t.vignette_enabled);
    assert_eq!(t.debug_mode, DebugMode::Off);
    t.debug_mode = DebugMode::Normals;
    t.fog_enabled = false;
    t.vignette_enabled = true;
    let d = ShaderDefines::from_settings(&t);
    assert_eq!(d.debug_mode, 2);
    assert_eq!(
        d.define_block(),
        "#define DEBUG_MODE 2\n#define ENABLE_SSAO\n#define ENABLE_TONEMAP\n#define ENABLE_VIGNETTE\n"
    );
    assert_eq!(
        d.fragment_source("#version 410 core\nmain", "common"),
        "#version 410 core\n#define DEBUG_MODE 2\n#define ENABLE_SSAO\n#define ENABLE_TONEMAP\n#define ENABLE_VIGNETTE\ncommon\nmain"
    );
    assert_eq!(DebugMode::Off.code(), 0);
    assert_eq!(DebugMode::Depth.code(), 1);
    assert_eq!(DebugMode::SSAO.code(), 3);
}

#[test]
fn half_extents_never_below_one() {
    assert_eq!(half_extent(800), 400);
    assert_eq!(half_extent(801), 400);
    assert_eq!(half_extent(1), 1);
    assert_eq!(half_extent(0), 1);
    assert_eq!(half_extent(-10), 1);
}

#[test]
fn target_resize_only_when_changed() {
    let mut s = TargetSize { width: 400, height: 300 };
    assert!(!s.resize(400, 300));
    assert!(s.resize(401, 300));
    assert_eq!(s, TargetSize { width: 401, height: 300 });
    assert!(!s.resize(401, 300));
}

#[test]
fn compose_plan_follows_settings() {
    let mut t = PostProcessingToggles::default();
    let p = compose_plan(&t, true, 40).unwrap();
    assert!(p.ssao_passes && p.bind_ssao_texture && p.directional_enabled && p.set_fog);
    assert!(!p.set_vignette);
    assert_eq!(p.reported_point_lights, 40);
    assert_eq!(p.uploaded_point_lights, MAX_POINT_LIGHTS);
    assert_eq!(compose_plan(&t, false, 3).unwrap().uploaded_point_lights, 3);
    t.enabled = false;
    assert!(compose_plan(&t, true, 3).is_none());
}

#[test]
fn point_light_uniform_names() {
    assert_eq!(point_light_uniform(0, "position"), "u_PointLights[0].position");
    assert_eq!(point_light_uniform(31, "radius"), "u_PointLights[31].radius");
}

#[test]
fn attribute_layouts() {
    let v = vertex_layout();
    assert_eq!(v.len(), 2);
    assert_eq!((v[1].location, v[1].components, v[1].offset), (1, 2, 12));
    let i = instance_layout();
    assert_eq!(i.len(), 5);
    assert_eq!((i[3].location, i[3].components, i[3].offset), (5, 4, 48));
    assert_eq!((i[4].location, i[4].components, i[4].offset), (6, 3, 64));
    assert!(i.iter().all(|a| a.per_instance));
}

#[test]
fn variant_cache_builds_each_variant_once() {
    let mut cache = VariantCache::new();
    let a = ShaderDefines::from_settings(&PostProcessingToggles::default());
    let mut t = PostProcessingToggles::default();
    t.debug_mode = DebugMode::Depth;
    let b = ShaderDefines::from_settings(&t);
    assert_eq!(cache.slot_of(&a), None);
    assert_eq!(cache.insert(a), 0);
    assert_eq!(cache.slot_of(&a), Some(0));
    assert_eq!(cache.slot_of(&b), None);
    assert_eq!(cache.insert(b), 1);
    assert_eq!(cache.slot_of(&a), Some(0));
    assert_eq!(cache.slot_of(&b), Some(1));
}

#[test]
fn keyboard_default_is_empty() {
    let k = KeyboardState::default();
    assert!(!k.is_down(1) && !k.is_pressed(1) && !k.is_released(1));
}
