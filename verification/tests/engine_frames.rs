use engine_ui::atlas::{ColorImage, FontImage, ImageData};
use engine_ui::binary32::ONE;
use engine_ui::engine::{
    egui_cleanup, egui_context, egui_get_font_texture_data, egui_get_render_data,
    egui_handle_event, egui_handle_key_event, egui_handle_mouse_event, egui_init,
    egui_is_initialized, egui_new_frame, egui_render, egui_set_screen_size, EngineState,
    FrameInput, FrameOutput, UiEngine, DEFAULT_HEIGHT, DEFAULT_MAX_X, DEFAULT_MAX_Y, DEFAULT_WIDTH,
};
use engine_ui::geometry::{Primitive, SourceMesh};
use engine_ui::vertex::{Limits, Rgba, SourceVertex, UIVertex};

const WHITE: Rgba = Rgba { r: 255, g: 255, b: 255, a: 255 };

const STATE: EngineState = EngineState { fps: 0, frame_time: 0, frame_count: 0, total_time: 0 };

fn resize(engine: &mut UiEngine, width: f32, height: f32) {
    let limits = Limits { max_x: (width + 100.0).to_bits(), max_y: (height + 100.0).to_bits() };
    egui_set_screen_size(engine, width.to_bits(), height.to_bits(), limits);
}

fn corner(x: f32, y: f32) -> SourceVertex {
    SourceVertex { x: x.to_bits(), y: y.to_bits(), u: 0, v: 0, color: WHITE }
}

fn rectangle(left: f32, top: f32, right: f32, bottom: f32) -> Primitive {
    Primitive::Mesh(SourceMesh {
        vertices: vec![corner(left, top), corner(right, top), corner(right, bottom), corner(left, bottom)],
        indices: vec![0, 1, 2, 0, 2, 3],
    })
}

fn triangle(x: f32, y: f32) -> Primitive {
    Primitive::Mesh(SourceMesh {
        vertices: vec![corner(x, y), corner(x + 10.0, y), corner(x, y + 10.0)],
        indices: vec![0, 1, 2],
    })
}

fn shapes(primitives: Vec<Primitive>) -> FrameOutput {
    FrameOutput { textures: Vec::new(), primitives }
}

fn font_texture(width: usize, height: usize, coverage: u8) -> ImageData {
    ImageData::Font(FontImage { width, height, pixels: vec![coverage; width * height] })
}

fn ready_engine() -> UiEngine {
    let mut engine = UiEngine::new();
    assert!(egui_init(&mut engine, 0, 0));
    engine
}

#[test]
fn default_size_patterns_are_1920_by_1080_widened_by_100() {
    assert_eq!(DEFAULT_WIDTH, 1920.0f32.to_bits());
    assert_eq!(DEFAULT_HEIGHT, 1080.0f32.to_bits());
    assert_eq!(DEFAULT_MAX_X, (1920.0f32 + 100.0).to_bits());
    assert_eq!(DEFAULT_MAX_Y, (1080.0f32 + 100.0).to_bits());
}

#[test]
fn new_engine_is_uninitialized() {
    let engine = UiEngine::new();
    assert!(!egui_is_initialized(&engine));
    assert!(egui_context(&engine).is_none());
    assert_eq!(egui_new_frame(&engine), None);
}

#[test]
fn init_twice_returns_true_both_times_and_keeps_the_context() {
    let mut engine = UiEngine::new();
    assert!(egui_init(&mut engine, 1, 2));
    assert!(egui_is_initialized(&engine));
    resize(&mut engine, 800.0, 600.0);
    egui_handle_mouse_event(&mut engine, 3.0f32.to_bits(), 4.0f32.to_bits(), 0, false);
    // A mark on the context itself: a second context would not carry it.
    let mark = egui::Id::new("mark");
    egui_context(&engine).unwrap().data_mut(|data| data.insert_temp(mark, 42u32));
    let before = egui_new_frame(&engine);
    assert!(egui_init(&mut engine, 5, 6));
    assert!(egui_is_initialized(&engine));
    assert_eq!(egui_new_frame(&engine), before);
    assert_eq!(egui_context(&engine).unwrap().data(|data| data.get_temp::<u32>(mark)), Some(42));
}

#[test]
fn init_sets_the_default_size_and_no_pointer() {
    let engine = ready_engine();
    assert_eq!(
        egui_new_frame(&engine),
        Some(FrameInput {
            pixels_per_point: 1.0f32.to_bits(),
            monitor_width: 1920.0f32.to_bits(),
            monitor_height: 1080.0f32.to_bits(),
            pointer_moved: None,
        })
    );
    assert_eq!(egui_new_frame(&engine).unwrap().pixels_per_point, ONE);
}

#[test]
fn init_uses_the_default_limits() {
    let mut engine = ready_engine();
    let inside = triangle(2000.0, 1100.0);
    assert!(egui_render(&mut engine, &STATE, 0, &shapes(vec![inside])));
    let outside = triangle(2011.0, 1100.0);
    assert!(egui_render(&mut engine, &STATE, 0, &shapes(vec![outside])));
    assert_eq!(egui_get_render_data(&engine).unwrap().vertices_count, 2);
    assert_eq!(egui_get_render_data(&engine).unwrap().indices_count, 0);
}

#[test]
fn set_screen_size_changes_the_frame_input_and_the_limits() {
    let mut engine = ready_engine();
    resize(&mut engine, 800.0, 600.0);
    let input = egui_new_frame(&engine).unwrap();
    assert_eq!(input.monitor_width, 800.0f32.to_bits());
    assert_eq!(input.monitor_height, 600.0f32.to_bits());
    assert!(!egui_render(&mut engine, &STATE, 0, &shapes(vec![triangle(901.0, 10.0)])));
    assert!(egui_render(&mut engine, &STATE, 0, &shapes(vec![triangle(890.0, 10.0)])));
}

#[test]
fn set_screen_size_does_nothing_to_an_uninitialized_engine() {
    let mut engine = UiEngine::new();
    resize(&mut engine, 800.0, 600.0);
    assert!(!egui_is_initialized(&engine));
    assert_eq!(egui_new_frame(&engine), None);
    assert!(egui_init(&mut engine, 0, 0));
    assert_eq!(egui_new_frame(&engine).unwrap().monitor_width, 1920.0f32.to_bits());
}

#[test]
fn mouse_event_keeps_the_position_only() {
    let mut engine = ready_engine();
    egui_handle_mouse_event(&mut engine, 12.5f32.to_bits(), 99.0f32.to_bits(), 7, true);
    assert_eq!(
        egui_new_frame(&engine).unwrap().pointer_moved,
        Some((12.5f32.to_bits(), 99.0f32.to_bits()))
    );
    egui_handle_mouse_event(&mut engine, 1.0f32.to_bits(), 2.0f32.to_bits(), 0, false);
    assert_eq!(egui_new_frame(&engine).unwrap().pointer_moved, Some((1.0f32.to_bits(), 2.0f32.to_bits())));
    assert_eq!(egui_new_frame(&engine).unwrap().monitor_width, 1920.0f32.to_bits());
}

#[test]
fn mouse_event_does_nothing_to_an_uninitialized_engine() {
    let mut engine = UiEngine::new();
    egui_handle_mouse_event(&mut engine, 12.5f32.to_bits(), 99.0f32.to_bits(), 1, true);
    assert!(!egui_is_initialized(&engine));
    assert!(egui_init(&mut engine, 0, 0));
    assert_eq!(egui_new_frame(&engine).unwrap().pointer_moved, None);
}

#[test]
fn key_and_older_events_change_nothing() {
    let mut engine = UiEngine::new();
    egui_handle_key_event(&mut engine, 65, true, 0);
    egui_handle_event(&mut engine, 1, 0, 0);
    assert!(!egui_is_initialized(&engine));
    let mut engine = ready_engine();
    resize(&mut engine, 640.0, 480.0);
    egui_handle_mouse_event(&mut engine, 5.0f32.to_bits(), 6.0f32.to_bits(), 0, false);
    assert!(egui_render(&mut engine, &STATE, 0, &shapes(vec![triangle(10.0, 10.0)])));
    let before = egui_new_frame(&engine);
    egui_handle_key_event(&mut engine, 65, true, 3);
    egui_handle_event(&mut engine, 2, 10.0f32.to_bits(), 20.0f32.to_bits());
    assert_eq!(egui_new_frame(&engine), before);
    assert!(egui_is_initialized(&engine));
    assert_eq!(egui_get_render_data(&engine).unwrap().vertices_count, 3);
}

#[test]
fn cleanup_drops_the_context_and_can_be_repeated() {
    let mut engine = ready_engine();
    resize(&mut engine, 800.0, 600.0);
    egui_cleanup(&mut engine);
    assert!(!egui_is_initialized(&engine));
    assert!(egui_context(&engine).is_none());
    egui_cleanup(&mut engine);
    assert!(!egui_is_initialized(&engine));
    assert!(egui_init(&mut engine, 0, 0));
    assert_eq!(egui_new_frame(&engine).unwrap().monitor_width, 1920.0f32.to_bits());
    assert_eq!(egui_new_frame(&engine).unwrap().pointer_moved, None);
}

#[test]
fn cleanup_of_a_new_engine_changes_nothing() {
    let mut engine = UiEngine::new();
    egui_cleanup(&mut engine);
    assert!(!egui_is_initialized(&engine));
    assert!(egui_get_render_data(&engine).is_none());
    assert!(egui_get_font_texture_data(&engine).is_none());
}

#[test]
fn accessors_are_absent_before_any_frame() {
    let mut engine = UiEngine::new();
    assert!(egui_get_render_data(&engine).is_none());
    assert!(egui_get_font_texture_data(&engine).is_none());
    assert!(egui_init(&mut engine, 0, 0));
    resize(&mut engine, 800.0, 600.0);
    egui_handle_mouse_event(&mut engine, 0, 0, 0, false);
    assert!(egui_new_frame(&engine).is_some());
    assert!(egui_get_render_data(&engine).is_none());
    assert!(egui_get_font_texture_data(&engine).is_none());
}

#[test]
fn accessors_stay_absent_after_a_frame_without_data() {
    let mut engine = ready_engine();
    assert!(!egui_render(&mut engine, &STATE, 0, &shapes(Vec::new())));
    assert!(egui_get_render_data(&engine).is_none());
    assert!(egui_get_font_texture_data(&engine).is_none());
    assert!(!egui_render(&mut engine, &STATE, 0, &shapes(vec![Primitive::Callback])));
    assert!(egui_get_render_data(&engine).is_none());
    assert!(!egui_render(&mut engine, &STATE, 0, &shapes(vec![triangle(5000.0, 0.0)])));
    assert!(egui_get_render_data(&engine).is_none());
}

#[test]
fn render_on_an_uninitialized_engine_returns_false_and_keeps_nothing() {
    let mut engine = UiEngine::new();
    let output = FrameOutput {
        textures: vec![font_texture(2, 2, 200)],
        primitives: vec![rectangle(10.0, 10.0, 20.0, 20.0)],
    };
    assert!(!egui_render(&mut engine, &STATE, 0, &output));
    assert!(egui_get_render_data(&engine).is_none());
    assert!(egui_get_font_texture_data(&engine).is_none());
}

#[test]
fn filled_rectangle_gives_four_vertices_and_six_indices() {
    let mut engine = UiEngine::new();
    assert!(egui_init(&mut engine, 0, 0));
    resize(&mut engine, 800.0, 600.0);
    assert!(egui_new_frame(&engine).is_some());
    let output = shapes(vec![rectangle(100.0, 100.0, 300.0, 200.0)]);
    assert!(egui_render(&mut engine, &STATE, 0, &output));
    let data = egui_get_render_data(&engine).unwrap();
    assert_eq!(data.vertices_count, 4);
    assert_eq!(data.indices_count, 6);
    assert_eq!(data.vertices.len(), 4);
    assert_eq!(data.indices, &[0, 1, 2, 0, 2, 3]);
    assert_eq!(data.textures_count, 1);
    assert_eq!(
        data.vertices[2],
        UIVertex { pos: [300.0f32.to_bits(), 200.0f32.to_bits()], tex_coord: [0, 0], color: 0xffff_ffff }
    );
}

#[test]
fn second_frame_replaces_the_first() {
    let mut engine = ready_engine();
    resize(&mut engine, 800.0, 600.0);
    let first = shapes(vec![rectangle(0.0, 10.0, 50.0, 60.0), triangle(70.0, 70.0)]);
    assert!(egui_render(&mut engine, &STATE, 0, &first));
    assert_eq!(egui_get_render_data(&engine).unwrap().vertices_count, 7);
    assert_eq!(egui_get_render_data(&engine).unwrap().indices_count, 9);
    let second = shapes(vec![triangle(200.0, 300.0)]);
    assert!(egui_render(&mut engine, &STATE, 0, &second));
    let data = egui_get_render_data(&engine).unwrap();
    assert_eq!(data.vertices_count, 3);
    assert_eq!(data.indices, &[0, 1, 2]);
    assert_eq!(data.vertices[0].pos, [200.0f32.to_bits(), 300.0f32.to_bits()]);
    assert_eq!(data.vertices[1].pos, [210.0f32.to_bits(), 300.0f32.to_bits()]);
    assert_eq!(data.vertices[2].pos, [200.0f32.to_bits(), 310.0f32.to_bits()]);
}

#[test]
fn same_frame_twice_gives_the_same_geometry() {
    let mut engine = ready_engine();
    let output = shapes(vec![rectangle(0.0, 10.0, 50.0, 60.0)]);
    assert!(egui_render(&mut engine, &STATE, 0, &output));
    let first: Vec<UIVertex> = egui_get_render_data(&engine).unwrap().vertices.to_vec();
    assert!(egui_render(&mut engine, &STATE, 0, &output));
    let data = egui_get_render_data(&engine).unwrap();
    assert_eq!(data.vertices, first.as_slice());
    assert_eq!(data.indices_count, 6);
}

#[test]
fn geometry_outlives_cleanup() {
    let mut engine = ready_engine();
    assert!(egui_render(&mut engine, &STATE, 0, &shapes(vec![triangle(1.0, 1.0)])));
    egui_cleanup(&mut engine);
    assert_eq!(egui_get_render_data(&engine).unwrap().vertices_count, 3);
    assert!(!egui_render(&mut engine, &STATE, 0, &shapes(Vec::new())));
    assert_eq!(egui_get_render_data(&engine).unwrap().vertices_count, 3);
}

#[test]
fn first_atlas_is_kept_when_a_later_frame_brings_another() {
    let mut engine = ready_engine();
    let first = FrameOutput { textures: vec![font_texture(4, 2, 100)], primitives: Vec::new() };
    assert!(!egui_render(&mut engine, &STATE, 0, &first));
    let data = egui_get_font_texture_data(&engine).unwrap();
    assert_eq!((data.width, data.height, data.has_data), (4, 2, true));
    assert_eq!(data.pixels.len(), 4 * 4 * 2);
    assert_eq!(&data.pixels[..4], &[255, 255, 255, 100]);
    let kept: Vec<u8> = data.pixels.to_vec();

    let second = FrameOutput { textures: vec![font_texture(8, 8, 7)], primitives: Vec::new() };
    assert!(!egui_render(&mut engine, &STATE, 0, &second));
    let data = egui_get_font_texture_data(&engine).unwrap();
    assert_eq!((data.width, data.height), (4, 2));
    assert_eq!(data.pixels, kept.as_slice());
}

#[test]
fn atlas_is_looked_for_again_until_one_is_found() {
    let mut engine = ready_engine();
    let none = FrameOutput { textures: vec![font_texture(0, 0, 0)], primitives: Vec::new() };
    assert!(!egui_render(&mut engine, &STATE, 0, &none));
    assert!(egui_get_font_texture_data(&engine).is_none());
    assert!(!egui_render(&mut engine, &STATE, 0, &shapes(Vec::new())));
    assert!(egui_get_font_texture_data(&engine).is_none());
    let colour = ImageData::Color(ColorImage {
        width: 1,
        height: 2,
        pixels: vec![Rgba { r: 1, g: 2, b: 3, a: 4 }, Rgba { r: 5, g: 6, b: 7, a: 8 }],
    });
    let some = FrameOutput { textures: vec![font_texture(0, 9, 0), colour, font_texture(3, 3, 1)], primitives: Vec::new() };
    assert!(!egui_render(&mut engine, &STATE, 0, &some));
    let data = egui_get_font_texture_data(&engine).unwrap();
    assert_eq!((data.width, data.height), (1, 2));
    assert_eq!(data.pixels, &[1, 2, 3, 4, 5, 6, 7, 8]);
}

#[test]
fn atlas_outlives_cleanup_and_a_second_init() {
    let mut engine = ready_engine();
    let first = FrameOutput { textures: vec![font_texture(2, 2, 50)], primitives: Vec::new() };
    assert!(!egui_render(&mut engine, &STATE, 0, &first));
    egui_cleanup(&mut engine);
    assert_eq!(egui_get_font_texture_data(&engine).unwrap().width, 2);
    assert!(egui_init(&mut engine, 0, 0));
    assert_eq!(egui_get_font_texture_data(&engine).unwrap().width, 2);
    let second = FrameOutput { textures: vec![font_texture(5, 5, 60)], primitives: Vec::new() };
    assert!(!egui_render(&mut engine, &STATE, 0, &second));
    assert_eq!(egui_get_font_texture_data(&engine).unwrap().width, 2);
}

#[test]
fn frame_statistics_are_not_read() {
    let mut engine = ready_engine();
    let output = shapes(vec![triangle(1.0, 1.0)]);
    let busy = EngineState {
        fps: 60.0f32.to_bits(),
        frame_time: 0.016f32.to_bits(),
        frame_count: 12345,
        total_time: 100.0f32.to_bits(),
    };
    assert!(egui_render(&mut engine, &busy, 0xdead_beef, &output));
    let with_busy: Vec<UIVertex> = egui_get_render_data(&engine).unwrap().vertices.to_vec();
    assert!(egui_render(&mut engine, &STATE, 0, &output));
    assert_eq!(egui_get_render_data(&engine).unwrap().vertices, with_busy.as_slice());
}
