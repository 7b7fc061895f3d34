//! The engine: one GUI context with its logical size and pointer position,
//! the geometry of the last frame, and the font atlas.
//!
//! The host owns one engine and hands it to every operation. An engine is
//! either uninitialized or ready; every operation but [`egui_init`] leaves an
//! uninitialized engine as it is. Numbers that the host reports as
//! single-precision values are taken as their bit patterns.

use vstd::prelude::*;
use vstd::arithmetic::power2::{lemma2_to64, lemma_pow2_adds, pow2};
use crate::atlas::{extract_font_atlas, first_atlas, AtlasModel, FontAtlas, ImageData};
use crate::binary32::{lemma_named_numbers, scaled_value, HUNDRED, ONE};
use crate::geometry::{
    lemma_frame_drawable,
    source_vertex_count,
    GeometryBuffer,
    GeometryModel,
    Primitive,
};
use crate::vertex::{Limits, UIVertex};

verus! {

/// Pattern of 1920, the width of a new context.
pub const DEFAULT_WIDTH: u32 = 0x44f0_0000;

/// Pattern of 1080, the height of a new context.
pub const DEFAULT_HEIGHT: u32 = 0x4487_0000;

/// Pattern of 2020, the largest accepted `x` of a new context.
pub const DEFAULT_MAX_X: u32 = 0x44fc_8000;

/// Pattern of 1180, the largest accepted `y` of a new context.
pub const DEFAULT_MAX_Y: u32 = 0x4493_8000;

/// Physical pixels for each logical point, in every frame and in
/// tessellation: the pattern of 1, so that text is drawn pixel for pixel.
pub const PIXELS_PER_POINT: u32 = ONE;

/// `egui::Context`, the handle of a GUI context. Its inside is not known
/// here; the engine only keeps it and lends it out.
#[verifier::external_type_specification]
#[verifier::external_body]
pub struct ExContext(egui::Context);

/// `egui::FontDefinitions`, a set of fonts. Its inside is not known here.
#[verifier::external_type_specification]
#[verifier::external_body]
pub struct ExFontDefinitions(egui::FontDefinitions);

/// `egui::Context::default`: a new GUI context. Nothing is claimed of it.
#[verifier::external_body]
fn new_context() -> (handle: egui::Context) {
    egui::Context::default()
}

/// `egui::FontDefinitions::default`: the fonts that the GUI library ships.
/// Nothing is claimed of them.
#[verifier::external_body]
fn default_fonts() -> (fonts: egui::FontDefinitions) {
    egui::FontDefinitions::default()
}

/// `egui::Context::set_fonts`: tells the context which fonts to use from its
/// next frame on. Nothing is claimed of the context afterwards.
#[verifier::external_body]
fn set_fonts(handle: &egui::Context, fonts: egui::FontDefinitions) {
    handle.set_fonts(fonts)
}

/// Frame statistics of the host. Accepted by [`egui_render`], which does not
/// read them. The three rates and times are patterns of single-precision
/// numbers.
#[derive(Clone, Copy, Debug, PartialEq, Eq)]
pub struct EngineState {
    pub fps: u32,
    pub frame_time: u32,
    pub frame_count: u64,
    pub total_time: u32,
}

/// What the GUI library is told at the start of a frame.
#[derive(Clone, Copy, Debug, PartialEq, Eq)]
pub struct FrameInput {
    /// Physical pixels for each logical point: [`PIXELS_PER_POINT`].
    pub pixels_per_point: u32,
    /// The logical size, as the size of the monitor.
    pub monitor_width: u32,
    pub monitor_height: u32,
    /// Where the pointer moved to, if the host has reported a position.
    pub pointer_moved: Option<(u32, u32)>,
}

/// What the GUI library hands out at the end of a frame: the textures that
/// are new or changed, in the order in which they came, and the tessellated
/// shapes.
#[derive(Clone, Debug, PartialEq, Eq)]
pub struct FrameOutput {
    pub textures: Vec<ImageData>,
    pub primitives: Vec<Primitive>,
}

/// The geometry of the last frame, lent until the next frame is rendered.
#[derive(Clone, Copy, Debug, PartialEq, Eq)]
pub struct RenderData<'a> {
    pub vertices: &'a [UIVertex],
    pub vertices_count: usize,
    pub indices: &'a [u32],
    pub indices_count: usize,
    pub textures_count: usize,
}

/// The font atlas, lent from the engine: four bytes for each of `width`
/// times `height` pixels.
#[derive(Clone, Copy, Debug, PartialEq, Eq)]
pub struct FontTextureData<'a> {
    pub pixels: &'a [u8],
    pub width: u32,
    pub height: u32,
    pub has_data: bool,
}

/// What a ready engine knows of its context.
pub struct ContextModel {
    pub handle: egui::Context,
    pub width: u32,
    pub height: u32,
    pub limits: Limits,
    pub pointer_pos: Option<(u32, u32)>,
}

/// What an engine holds.
pub struct EngineModel {
    pub context: Option<ContextModel>,
    pub geometry: GeometryModel,
    pub font_atlas: Option<AtlasModel>,
}

impl EngineModel {
    /// An engine before its first operation.
    pub open spec fn fresh() -> EngineModel {
        EngineModel { context: None, geometry: GeometryModel::empty(), font_atlas: None }
    }

    pub open spec fn is_initialized(self) -> bool {
        self.context.is_some()
    }

    /// After [`egui_init`], where `handle` is the context that a new
    /// initialization makes. A ready engine stays as it is.
    pub open spec fn initialized(self, handle: egui::Context) -> EngineModel {
        if self.context.is_some() {
            self
        } else {
            EngineModel {
                context: Some(
                    ContextModel {
                        handle,
                        width: DEFAULT_WIDTH,
                        height: DEFAULT_HEIGHT,
                        limits: Limits { max_x: DEFAULT_MAX_X, max_y: DEFAULT_MAX_Y },
                        pointer_pos: None,
                    },
                ),
                ..self
            }
        }
    }

    /// After [`egui_cleanup`]: the context is gone, the rest stays.
    pub open spec fn cleaned(self) -> EngineModel {
        EngineModel { context: None, ..self }
    }

    /// After [`egui_set_screen_size`].
    pub open spec fn resized(self, width: u32, height: u32, limits: Limits) -> EngineModel {
        match self.context {
            Some(context) => EngineModel {
                context: Some(ContextModel { width, height, limits, ..context }),
                ..self
            },
            None => self,
        }
    }

    /// After [`egui_handle_mouse_event`].
    pub open spec fn pointer_at(self, x: u32, y: u32) -> EngineModel {
        match self.context {
            Some(context) => EngineModel {
                context: Some(ContextModel { pointer_pos: Some((x, y)), ..context }),
                ..self
            },
            None => self,
        }
    }

    /// What [`egui_new_frame`] returns.
    pub open spec fn frame_input(self) -> Option<FrameInput> {
        match self.context {
            Some(context) => Some(
                FrameInput {
                    pixels_per_point: PIXELS_PER_POINT,
                    monitor_width: context.width,
                    monitor_height: context.height,
                    pointer_moved: context.pointer_pos,
                },
            ),
            None => None,
        }
    }

    /// After [`egui_render`]. The geometry is that of this frame alone. The
    /// atlas, once there, stays; until then it is the first texture of the
    /// frame that can serve.
    pub open spec fn rendered(self, output: FrameOutput) -> EngineModel {
        match self.context {
            Some(context) => EngineModel {
                context: self.context,
                geometry: GeometryModel::of_frame(output.primitives@, context.limits),
                font_atlas: if self.font_atlas.is_some() {
                    self.font_atlas
                } else {
                    first_atlas(output.textures@)
                },
            },
            None => self,
        }
    }

    /// What [`egui_render`] returns: the engine is ready and the frame left
    /// a vertex in the buffer.
    pub open spec fn frame_has_data(self, output: FrameOutput) -> bool {
        self.is_initialized() && self.rendered(output).has_render_data()
    }

    /// Whether [`egui_get_render_data`] hands anything out: the buffer holds
    /// a vertex.
    pub open spec fn has_render_data(self) -> bool {
        self.geometry.vertices.len() > 0
    }

    /// Whether [`egui_get_font_texture_data`] hands anything out: an atlas is
    /// held.
    pub open spec fn has_font_texture(self) -> bool {
        self.font_atlas.is_some()
    }
}

/// A ready engine's context.
struct UiContext {
    handle: egui::Context,
    width: u32,
    height: u32,
    limits: Limits,
    pointer_pos: Option<(u32, u32)>,
}

/// The engine.
pub struct UiEngine {
    context: Option<UiContext>,
    geometry: GeometryBuffer,
    font_atlas: Option<FontAtlas>,
}

impl View for UiEngine {
    type V = EngineModel;

    closed spec fn view(&self) -> EngineModel {
        EngineModel {
            context: match self.context {
                Some(context) => Some(
                    ContextModel {
                        handle: context.handle,
                        width: context.width,
                        height: context.height,
                        limits: context.limits,
                        pointer_pos: context.pointer_pos,
                    },
                ),
                None => None,
            },
            geometry: self.geometry@,
            font_atlas: match self.font_atlas {
                Some(atlas) => Some(atlas@),
                None => None,
            },
        }
    }
}

impl UiEngine {
    /// An engine before its first operation: uninitialized, with nothing to
    /// hand out.
    pub fn new() -> (engine: UiEngine)
        ensures
            engine@ == EngineModel::fresh(),
    {
        UiEngine { context: None, geometry: GeometryBuffer::new(), font_atlas: None }
    }
}

/// Makes the engine ready. A ready engine stays as it is; otherwise a new
/// context is made, with the default fonts, the size 1920 by 1080 and no
/// pointer position. The two handles of the host, its window and its
/// graphics instance, are not read.
pub fn egui_init(engine: &mut UiEngine, _window_handle: usize, _vulkan_instance: usize) -> (ready:
    bool)
    ensures
        ready,
        final(engine)@.is_initialized(),
        final(engine)@ == old(engine)@.initialized(final(engine)@.context.unwrap().handle),
{
    if engine.context.is_some() {
        return true;
    }
    let handle = new_context();
    set_fonts(&handle, default_fonts());
    engine.context = Some(
        UiContext {
            handle,
            width: DEFAULT_WIDTH,
            height: DEFAULT_HEIGHT,
            limits: Limits { max_x: DEFAULT_MAX_X, max_y: DEFAULT_MAX_Y },
            pointer_pos: None,
        },
    );
    true
}

/// Sets the logical size, and with it the right and lower edge of the region
/// in which vertices are kept. The caller passes as `limits` the width and
/// the height, each widened by 100: this library compares single-precision
/// numbers and does no arithmetic on them. Does nothing to an uninitialized
/// engine.
pub fn egui_set_screen_size(engine: &mut UiEngine, width: u32, height: u32, limits: Limits)
    ensures
        final(engine)@ == old(engine)@.resized(width, height, limits),
{
    match &mut engine.context {
        Some(context) => {
            context.width = width;
            context.height = height;
            context.limits = limits;
        },
        None => {},
    }
}

/// What to tell the GUI library at the start of the next frame, or nothing
/// where the engine is uninitialized.
pub fn egui_new_frame(engine: &UiEngine) -> (input: Option<FrameInput>)
    ensures
        input == engine@.frame_input(),
{
    match &engine.context {
        Some(context) => Some(
            FrameInput {
                pixels_per_point: PIXELS_PER_POINT,
                monitor_width: context.width,
                monitor_height: context.height,
                pointer_moved: context.pointer_pos,
            },
        ),
        None => None,
    }
}

/// Takes in what a frame produced. Where no atlas is held yet, the first
/// texture that can serve becomes the atlas. The geometry buffer is emptied
/// and filled from the meshes of this frame. Returns whether the buffer
/// holds a vertex then. An uninitialized engine stays as it is, and the
/// answer is no. The statistics and the handle of the host's command buffer
/// are not read.
pub fn egui_render(
    engine: &mut UiEngine,
    _state: &EngineState,
    _command_buffer: usize,
    output: &FrameOutput,
) -> (has_data: bool)
    requires
        source_vertex_count(output.primitives@) <= u32::MAX,
    ensures
        final(engine)@ == old(engine)@.rendered(*output),
        has_data == old(engine)@.frame_has_data(*output),
{
    let limits = match &engine.context {
        Some(context) => context.limits,
        None => {
            return false;
        },
    };
    if engine.font_atlas.is_none() {
        engine.font_atlas = extract_font_atlas(&output.textures);
    }
    engine.geometry.fill(&output.primitives, &limits);
    !engine.geometry.is_empty()
}

/// The geometry of the last frame, or nothing where the buffer holds no
/// vertex. Every index names a vertex.
pub fn egui_get_render_data<'a>(engine: &'a UiEngine) -> (data: Option<RenderData<'a>>)
    ensures
        data.is_some() == engine@.has_render_data(),
        data.is_some() ==> {
            let data = data.unwrap();
            &&& data.vertices@ == engine@.geometry.vertices
            &&& data.vertices_count == data.vertices@.len()
            &&& data.indices@ == engine@.geometry.indices
            &&& data.indices_count == data.indices@.len()
            &&& data.textures_count == 1
            &&& engine@.geometry.drawable()
        },
{
    if engine.geometry.is_empty() {
        return None;
    }
    let vertices = engine.geometry.vertices();
    let indices = engine.geometry.indices();
    Some(
        RenderData {
            vertices: vertices.as_slice(),
            vertices_count: vertices.len(),
            indices: indices.as_slice(),
            indices_count: indices.len(),
            textures_count: 1,
        },
    )
}

/// The font atlas, or nothing where none has been found yet.
pub fn egui_get_font_texture_data<'a>(engine: &'a UiEngine) -> (data: Option<FontTextureData<'a>>)
    ensures
        data.is_some() == engine@.has_font_texture(),
        data.is_some() ==> {
            let data = data.unwrap();
            let atlas = engine@.font_atlas.unwrap();
            &&& data.pixels@ == atlas.pixels
            &&& data.width == atlas.width
            &&& data.height == atlas.height
            &&& data.has_data
            &&& atlas.complete()
        },
{
    match &engine.font_atlas {
        Some(atlas) => Some(
            FontTextureData {
                pixels: atlas.pixels().as_slice(),
                width: atlas.width(),
                height: atlas.height(),
                has_data: true,
            },
        ),
        None => None,
    }
}

/// Takes in a pointer event. Only the position is kept; the buttons and
/// whether one was pressed are not read. Does nothing to an uninitialized
/// engine.
pub fn egui_handle_mouse_event(engine: &mut UiEngine, x: u32, y: u32, _buttons: u32, _pressed: bool)
    ensures
        final(engine)@ == old(engine)@.pointer_at(x, y),
{
    match &mut engine.context {
        Some(context) => {
            context.pointer_pos = Some((x, y));
        },
        None => {},
    }
}

/// Takes in a key event. The engine stays as it is.
pub fn egui_handle_key_event(engine: &mut UiEngine, _key: u32, _pressed: bool, _modifiers: u32)
    ensures
        final(engine)@ == old(engine)@,
{
}

/// Takes in an event of the older form. The engine stays as it is.
pub fn egui_handle_event(engine: &mut UiEngine, _event_type: u32, _x: u32, _y: u32)
    ensures
        final(engine)@ == old(engine)@,
{
}

/// Drops the context. The geometry and the atlas stay.
pub fn egui_cleanup(engine: &mut UiEngine)
    ensures
        final(engine)@ == old(engine)@.cleaned(),
{
    engine.context = None;
}

/// Whether the engine is ready.
pub fn egui_is_initialized(engine: &UiEngine) -> (ready: bool)
    ensures
        ready == engine@.is_initialized(),
{
    engine.context.is_some()
}

/// The context of a ready engine.
pub fn egui_context(engine: &UiEngine) -> (handle: Option<&egui::Context>)
    ensures
        handle.is_some() == engine@.is_initialized(),
        handle.is_some() ==> *handle.unwrap() == engine@.context.unwrap().handle,
{
    match &engine.context {
        Some(context) => Some(&context.handle),
        None => None,
    }
}

/// The size of a new context is 1920 by 1080, and its limits are that size
/// widened by 100 on each axis.
pub proof fn lemma_default_size()
    ensures
        scaled_value(DEFAULT_WIDTH) == 1920 * pow2(149),
        scaled_value(DEFAULT_HEIGHT) == 1080 * pow2(149),
        scaled_value(DEFAULT_MAX_X) == scaled_value(DEFAULT_WIDTH) + scaled_value(HUNDRED),
        scaled_value(DEFAULT_MAX_Y) == scaled_value(DEFAULT_HEIGHT) + scaled_value(HUNDRED),
        scaled_value(PIXELS_PER_POINT) == pow2(149),
{
    lemma_named_numbers();
    lemma2_to64();
    lemma_pow2_adds(13, 136);
    let step = pow2(136) as int;
    assert(0xf0_0000 * step == 1920 * (0x2000 * step)) by (nonlinear_arith);
    assert(0x87_0000 * step == 1080 * (0x2000 * step)) by (nonlinear_arith);
    assert(0xfc_8000 * step == 2020 * (0x2000 * step)) by (nonlinear_arith);
    assert(0x93_8000 * step == 1180 * (0x2000 * step)) by (nonlinear_arith);
}

/// Initializing twice is initializing once: the second call finds the engine
/// ready and leaves it, and the context that it holds, as they are.
pub proof fn lemma_init_is_idempotent(
    engine: EngineModel,
    first: egui::Context,
    second: egui::Context,
)
    ensures
        engine.initialized(first).is_initialized(),
        engine.initialized(first).initialized(second) == engine.initialized(first),
{
}

/// Cleaning up twice is cleaning up once.
pub proof fn lemma_cleanup_is_idempotent(engine: EngineModel)
    ensures
        !engine.cleaned().is_initialized(),
        engine.cleaned().cleaned() == engine.cleaned(),
{
}

/// The geometry after a frame is that of the frame alone: whatever an
/// earlier frame left in the buffer is gone.
pub proof fn lemma_render_replaces_geometry(
    engine: EngineModel,
    earlier: FrameOutput,
    later: FrameOutput,
)
    requires
        engine.is_initialized(),
    ensures
        engine.rendered(earlier).rendered(later).geometry == engine.rendered(later).geometry,
        engine.rendered(later).geometry == GeometryModel::of_frame(
            later.primitives@,
            engine.context.unwrap().limits,
        ),
{
}

/// The geometry that a frame leaves can be drawn: its indices come in
/// triples and each names a vertex of the buffer.
pub proof fn lemma_rendered_geometry_drawable(engine: EngineModel, output: FrameOutput)
    requires
        engine.is_initialized(),
        source_vertex_count(output.primitives@) <= u32::MAX,
    ensures
        engine.rendered(output).geometry.drawable(),
{
    lemma_frame_drawable(
        output.primitives@,
        engine.context.unwrap().limits,
        output.primitives@.len(),
    );
}

/// The atlas, once there, stays: no operation changes or removes it, and a
/// later frame that brings another texture does not replace it.
pub proof fn lemma_atlas_stays(
    engine: EngineModel,
    output: FrameOutput,
    handle: egui::Context,
    width: u32,
    height: u32,
    limits: Limits,
    x: u32,
    y: u32,
)
    requires
        engine.font_atlas.is_some(),
    ensures
        engine.rendered(output).font_atlas == engine.font_atlas,
        engine.initialized(handle).font_atlas == engine.font_atlas,
        engine.cleaned().font_atlas == engine.font_atlas,
        engine.resized(width, height, limits).font_atlas == engine.font_atlas,
        engine.pointer_at(x, y).font_atlas == engine.font_atlas,
{
}

/// The first atlas wins: where one frame brought an atlas, the next frame
/// leaves it as it is, whatever textures that frame brings.
pub proof fn lemma_first_atlas_wins(engine: EngineModel, first: FrameOutput, second: FrameOutput)
    requires
        engine.rendered(first).font_atlas.is_some(),
    ensures
        engine.rendered(first).rendered(second).font_atlas == engine.rendered(first).font_atlas,
{
}

/// Nothing is handed out before a frame brought it. A new engine has
/// neither geometry nor an atlas to hand out. An engine without geometry to
/// hand out stays so through every operation but a frame that reports data,
/// and an engine without an atlas stays so through every operation but a
/// frame, taken in by a ready engine, that brings a texture that can serve.
pub proof fn lemma_nothing_before_first_frame(
    engine: EngineModel,
    output: FrameOutput,
    handle: egui::Context,
    width: u32,
    height: u32,
    limits: Limits,
    x: u32,
    y: u32,
)
    ensures
        !EngineModel::fresh().has_render_data(),
        !EngineModel::fresh().has_font_texture(),
        !engine.has_render_data() ==> {
            &&& !engine.initialized(handle).has_render_data()
            &&& !engine.cleaned().has_render_data()
            &&& !engine.resized(width, height, limits).has_render_data()
            &&& !engine.pointer_at(x, y).has_render_data()
            &&& engine.rendered(output).has_render_data() ==> engine.frame_has_data(output)
        },
        !engine.has_font_texture() ==> {
            &&& !engine.initialized(handle).has_font_texture()
            &&& !engine.cleaned().has_font_texture()
            &&& !engine.resized(width, height, limits).has_font_texture()
            &&& !engine.pointer_at(x, y).has_font_texture()
            &&& engine.rendered(output).has_font_texture() ==> engine.is_initialized()
                && first_atlas(output.textures@).is_some()
        },
{
}

} // verus!
