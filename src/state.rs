//! The producer-side drawing state: a builder for one pipeline plus the
//! z-order counter, with one call per kind of command.

use vstd::prelude::*;
use crate::builder::{
    DisplayListBuilder, FinalizeError, ScopeKind, ScopeOp, WrClipRegion, WrImageMask,
    WrMixBlendMode, clip_words, matrix_words, put_clip, put_matrix, range_words, put_range,
    balanced, scope_step,
};
use crate::codec::{
    DecodeError, WrBuiltDisplayListDescriptor, decode, descriptor_of, encode, fits_wire, list_wf,
    list_words, spec_decode,
};
use crate::display_list::{
    BuiltDisplayList, DisplayItem,
    DisplayListView, ItemKind, ItemView, WrComplexClipRegion, WrFilterOp,
    WrGlyphInstance, WrGradientStop, WrItemRange, color_words, put_color, put_rect, put_size,
    rect_words, size_words,
};
use crate::geom::{
    AU_PER_PX, WrBorderRadius, WrBorderWidths, WrColor, WrMatrix, WrPoint, WrRect,
    WrSideOffsets2D, WrSize, clamp_au,
};
use crate::ids::{FontKey, ImageKey, PipelineId};
use crate::style::{
    WrBorderStyle, WrBoxShadowClipMode, WrGradientExtendMode, WrImageRendering, WrRepeatMode,
};
use crate::wire::{bytes_of_words, encode_i32, word_of_i32};

verus! {

/// One side of a border: its colour and line style.
#[derive(Clone, Copy, Debug, PartialEq, Eq, Structural)]
pub struct WrBorderSide {
    pub color: WrColor,
    pub style: WrBorderStyle,
}

/// How a border image is cut into nine patches.
#[derive(Clone, Copy, Debug, PartialEq, Eq, Structural)]
pub struct WrNinePatchDescriptor {
    pub width: u32,
    pub height: u32,
    pub slice: WrSideOffsets2D,
}

/// A builder for one pipeline's display list.
pub struct WebRenderFrameBuilder {
    pub root_pipeline_id: PipelineId,
    pub dl_builder: DisplayListBuilder,
}

impl WebRenderFrameBuilder {
    pub fn new(root_pipeline_id: PipelineId) -> (f: WebRenderFrameBuilder)
        ensures
            f.root_pipeline_id == root_pipeline_id,
            f.dl_builder.pipeline_id == root_pipeline_id,
            f.dl_builder.list() == DisplayListView::empty(),
            f.dl_builder.open_scopes() == Some(Seq::<ScopeKind>::empty()),
            f.dl_builder.wf(),
            f.dl_builder.calls@ == Seq::<ScopeOp>::empty(),
    {
        WebRenderFrameBuilder {
            root_pipeline_id,
            dl_builder: DisplayListBuilder::new(root_pipeline_id),
        }
    }
}

/// The drawing state of one pipeline.
pub struct WrState {
    pub pipeline_id: PipelineId,
    pub z_index: i32,
    pub frame_builder: WebRenderFrameBuilder,
}

impl WrState {
    /// The display list built so far.
    pub open spec fn list(&self) -> DisplayListView {
        self.frame_builder.dl_builder.list()
    }

    /// The open scopes, or `None` once a pop went out of order.
    pub open spec fn scopes(&self) -> Option<Seq<ScopeKind>> {
        self.frame_builder.dl_builder.open_scopes()
    }

    /// The pushes and pops since the list was last begun or finalized.
    pub open spec fn calls(&self) -> Seq<ScopeOp> {
        self.frame_builder.dl_builder.calls@
    }

    pub open spec fn wf(&self) -> bool {
        self.frame_builder.dl_builder.wf()
    }
}

/// `old` with one more command.
pub open spec fn with_item(old: DisplayListView, kind: ItemKind, operands: Seq<u32>) -> DisplayListView {
    DisplayListView { items: old.items.push(ItemView { kind, operands }), ..old }
}

pub open spec fn point_words(p: WrPoint) -> Seq<u32> {
    seq![word_of_i32(p.x), word_of_i32(p.y)]
}

pub open spec fn widths_words(w: WrBorderWidths) -> Seq<u32> {
    seq![word_of_i32(w.left), word_of_i32(w.top), word_of_i32(w.right), word_of_i32(w.bottom)]
}

pub open spec fn offsets_words(o: WrSideOffsets2D) -> Seq<u32> {
    seq![word_of_i32(o.top), word_of_i32(o.right), word_of_i32(o.bottom), word_of_i32(o.left)]
}

pub open spec fn radius_words(r: WrBorderRadius) -> Seq<u32> {
    size_words(r.top_left) + size_words(r.top_right) + size_words(r.bottom_left) + size_words(
        r.bottom_right,
    )
}

pub open spec fn side_words(s: WrBorderSide) -> Seq<u32> {
    color_words(s.color) + seq![s.style.spec_tag()]
}

pub open spec fn transform_words(t: Option<WrMatrix>) -> Seq<u32> {
    match t {
        Some(m) => seq![1u32] + matrix_words(m),
        None => seq![0u32],
    }
}

/// The operands of a stacking context.
pub open spec fn stacking_context_words(
    bounds: WrRect,
    z_index: i32,
    transform: Option<WrMatrix>,
    mode: WrMixBlendMode,
    filters: WrItemRange,
) -> Seq<u32> {
    rect_words(bounds) + seq![word_of_i32(z_index)] + transform_words(transform) + seq![
        mode.spec_tag(),
    ] + range_words(filters)
}

/// The filters that a stacking context of the given opacity gets: an
/// opacity filter when it is not fully opaque.
pub open spec fn opacity_filters(opacity: u8) -> Seq<WrFilterOp> {
    if opacity < 255 {
        seq![WrFilterOp::Opacity(opacity)]
    } else {
        Seq::empty()
    }
}

/// The viewport of `width` by `height` pixels, in app units.
pub open spec fn viewport(width: u32, height: u32) -> WrRect {
    WrRect {
        x: 0,
        y: 0,
        width: clamp_au(width as int * AU_PER_PX as int) as i32,
        height: clamp_au(height as int * AU_PER_PX as int) as i32,
    }
}

fn put_point(p: &WrPoint, out: &mut Vec<u32>)
    ensures
        final(out)@ == old(out)@ + point_words(*p),
{
    out.push(encode_i32(p.x));
    out.push(encode_i32(p.y));
    assert(final(out)@ =~= old(out)@ + point_words(*p));
}

fn put_widths(w: &WrBorderWidths, out: &mut Vec<u32>)
    ensures
        final(out)@ == old(out)@ + widths_words(*w),
{
    out.push(encode_i32(w.left));
    out.push(encode_i32(w.top));
    out.push(encode_i32(w.right));
    out.push(encode_i32(w.bottom));
    assert(final(out)@ =~= old(out)@ + widths_words(*w));
}

fn put_offsets(o: &WrSideOffsets2D, out: &mut Vec<u32>)
    ensures
        final(out)@ == old(out)@ + offsets_words(*o),
{
    out.push(encode_i32(o.top));
    out.push(encode_i32(o.right));
    out.push(encode_i32(o.bottom));
    out.push(encode_i32(o.left));
    assert(final(out)@ =~= old(out)@ + offsets_words(*o));
}

fn put_radius(r: &WrBorderRadius, out: &mut Vec<u32>)
    ensures
        final(out)@ == old(out)@ + radius_words(*r),
{
    put_size(&r.top_left, out);
    put_size(&r.top_right, out);
    put_size(&r.bottom_left, out);
    put_size(&r.bottom_right, out);
    assert(final(out)@ =~= old(out)@ + radius_words(*r));
}

fn put_side(s: &WrBorderSide, out: &mut Vec<u32>)
    ensures
        final(out)@ == old(out)@ + side_words(*s),
{
    put_color(&s.color, out);
    out.push(s.style.tag());
    assert(final(out)@ =~= old(out)@ + side_words(*s));
}

fn stacking_context_operands(
    bounds: &WrRect,
    z_index: i32,
    transform: &Option<WrMatrix>,
    mode: WrMixBlendMode,
    filters: &WrItemRange,
) -> (ops: Vec<u32>)
    ensures
        ops@ == stacking_context_words(*bounds, z_index, *transform, mode, *filters),
{
    let mut ops: Vec<u32> = Vec::new();
    put_rect(bounds, &mut ops);
    ops.push(encode_i32(z_index));
    match transform {
        Some(m) => {
            ops.push(1);
            put_matrix(m, &mut ops);
        },
        None => {
            ops.push(0);
        },
    }
    ops.push(mode.tag());
    put_range(filters, &mut ops);
    assert(ops@ =~= stacking_context_words(*bounds, z_index, *transform, mode, *filters));
    ops
}

pub fn wr_state_new(pipeline_id: PipelineId) -> (s: WrState)
    ensures
        s.wf(),
        s.calls() == Seq::<ScopeOp>::empty(),
        s.pipeline_id == pipeline_id,
        s.z_index == 0,
        s.frame_builder.dl_builder.pipeline_id == pipeline_id,
        s.list() == DisplayListView::empty(),
        s.scopes() == Some(Seq::<ScopeKind>::empty()),
{
    WrState { pipeline_id, z_index: 0, frame_builder: WebRenderFrameBuilder::new(pipeline_id) }
}

/// Starts a new frame: clears the command stream, resets the z-order counter
/// and opens the root stacking context over the viewport.
pub fn wr_dp_begin(state: &mut WrState, width: u32, height: u32)
    requires
        old(state).wf(),
    ensures
        final(state).wf(),
        final(state).calls() == seq![ScopeOp::Push(ScopeKind::StackingContext)],
        final(state).pipeline_id == old(state).pipeline_id,
        final(state).z_index == 0,
        final(state).scopes() == Some(seq![ScopeKind::StackingContext]),
        final(state).list() == with_item(
            DisplayListView { items: Seq::empty(), ..old(state).list() },
            ItemKind::PushStackingContext,
            stacking_context_words(
                viewport(width, height),
                0,
                None,
                WrMixBlendMode::Normal,
                WrItemRange { start: old(state).list().filters.len() as usize, length: 0 },
            ),
        ),
{
    state.frame_builder.dl_builder.clear_items();
    state.z_index = 0;
    let w: i32 = if width > 0x7fff_ffffu32 { 0x7fff_ffff } else { width as i32 };
    let h: i32 = if height > 0x7fff_ffffu32 { 0x7fff_ffff } else { height as i32 };
    let bounds = WrRect::from_px_size(w, h);
    assert(bounds == viewport(width, height));
    let no_filters: Vec<WrFilterOp> = Vec::new();
    let range = state.frame_builder.dl_builder.push_filters(no_filters);
    let ops = stacking_context_operands(&bounds, 0, &None, WrMixBlendMode::Normal, &range);
    state.frame_builder.dl_builder.open_scope(
        ItemKind::PushStackingContext,
        ScopeKind::StackingContext,
        ops,
    );
    assert(state.list().filters =~= old(state).list().filters);
    assert(state.scopes().unwrap() =~= seq![ScopeKind::StackingContext]);
}

/// Closes the root stacking context that `wr_dp_begin` opened.
pub fn wr_dp_end(state: &mut WrState)
    requires
        old(state).wf(),
    ensures
        final(state).wf(),
        final(state).calls() == old(state).calls().push(ScopeOp::Pop(ScopeKind::StackingContext)),
        final(state).pipeline_id == old(state).pipeline_id,
        final(state).z_index == old(state).z_index,
        final(state).scopes() == scope_step(
            old(state).scopes(),
            ScopeOp::Pop(ScopeKind::StackingContext),
        ),
        final(state).list() == with_item(
            old(state).list(),
            ItemKind::PopStackingContext,
            Seq::empty(),
        ),
{
    state.frame_builder.dl_builder.close_scope(
        ItemKind::PopStackingContext,
        ScopeKind::StackingContext,
    );
}

/// Opens a stacking context with the next z-index; a context that is not
/// fully opaque gets an opacity filter.
pub fn wr_dp_push_stacking_context(
    state: &mut WrState,
    bounds: WrRect,
    opacity: u8,
    transform: WrMatrix,
    mix_blend_mode: WrMixBlendMode,
)
    requires
        old(state).wf(),
        old(state).z_index < i32::MAX,
    ensures
        final(state).wf(),
        final(state).calls() == old(state).calls().push(ScopeOp::Push(ScopeKind::StackingContext)),
        final(state).pipeline_id == old(state).pipeline_id,
        final(state).z_index == old(state).z_index + 1,
        final(state).scopes() == scope_step(
            old(state).scopes(),
            ScopeOp::Push(ScopeKind::StackingContext),
        ),
        final(state).list() == with_item(
            DisplayListView {
                filters: old(state).list().filters + opacity_filters(opacity),
                ..old(state).list()
            },
            ItemKind::PushStackingContext,
            stacking_context_words(
                bounds,
                (old(state).z_index + 1) as i32,
                Some(transform),
                mix_blend_mode,
                WrItemRange {
                    start: old(state).list().filters.len() as usize,
                    length: opacity_filters(opacity).len() as usize,
                },
            ),
        ),
{
    state.z_index = state.z_index + 1;
    let mut filters: Vec<WrFilterOp> = Vec::new();
    if opacity < 255 {
        filters.push(WrFilterOp::Opacity(opacity));
    }
    assert(filters@ =~= opacity_filters(opacity));
    let range = state.frame_builder.dl_builder.push_filters(filters);
    let ops = stacking_context_operands(
        &bounds,
        state.z_index,
        &Some(transform),
        mix_blend_mode,
        &range,
    );
    state.frame_builder.dl_builder.open_scope(
        ItemKind::PushStackingContext,
        ScopeKind::StackingContext,
        ops,
    );
}

/// Closes the innermost stacking context.
pub fn wr_dp_pop_stacking_context(state: &mut WrState)
    requires
        old(state).wf(),
    ensures
        final(state).wf(),
        final(state).calls() == old(state).calls().push(ScopeOp::Pop(ScopeKind::StackingContext)),
        final(state).pipeline_id == old(state).pipeline_id,
        final(state).z_index == old(state).z_index,
        final(state).scopes() == scope_step(
            old(state).scopes(),
            ScopeOp::Pop(ScopeKind::StackingContext),
        ),
        final(state).list() == with_item(
            old(state).list(),
            ItemKind::PopStackingContext,
            Seq::empty(),
        ),
{
    state.frame_builder.dl_builder.close_scope(
        ItemKind::PopStackingContext,
        ScopeKind::StackingContext,
    );
}

/// Opens a scroll layer clipped to `overflow`.
pub fn wr_dp_push_scroll_layer(
    state: &mut WrState,
    bounds: WrRect,
    overflow: WrRect,
    mask: Option<WrImageMask>,
)
    requires
        old(state).wf(),
    ensures
        final(state).wf(),
        final(state).calls() == old(state).calls().push(ScopeOp::Push(ScopeKind::ScrollLayer)),
        final(state).pipeline_id == old(state).pipeline_id,
        final(state).z_index == old(state).z_index,
        final(state).scopes() == scope_step(
            old(state).scopes(),
            ScopeOp::Push(ScopeKind::ScrollLayer),
        ),
        final(state).list() == with_item(
            old(state).list(),
            ItemKind::PushScrollLayer,
            clip_words(
                WrClipRegion {
                    main: overflow,
                    complex: WrItemRange { start: old(state).list().clips.len() as usize, length: 0 },
                    image_mask: mask,
                },
            ) + rect_words(bounds),
        ),
{
    let none: Vec<WrComplexClipRegion> = Vec::new();
    let clip = state.frame_builder.dl_builder.new_clip_region(overflow, none, mask);
    let mut ops: Vec<u32> = Vec::new();
    put_clip(&clip, &mut ops);
    put_rect(&bounds, &mut ops);
    state.frame_builder.dl_builder.open_scope(
        ItemKind::PushScrollLayer,
        ScopeKind::ScrollLayer,
        ops,
    );
    assert(state.list().clips =~= old(state).list().clips);
}

/// Closes the innermost scroll layer.
pub fn wr_dp_pop_scroll_layer(state: &mut WrState)
    requires
        old(state).wf(),
    ensures
        final(state).wf(),
        final(state).calls() == old(state).calls().push(ScopeOp::Pop(ScopeKind::ScrollLayer)),
        final(state).pipeline_id == old(state).pipeline_id,
        final(state).z_index == old(state).z_index,
        final(state).scopes() == scope_step(
            old(state).scopes(),
            ScopeOp::Pop(ScopeKind::ScrollLayer),
        ),
        final(state).list() == with_item(old(state).list(), ItemKind::PopScrollLayer, Seq::empty()),
{
    state.frame_builder.dl_builder.close_scope(ItemKind::PopScrollLayer, ScopeKind::ScrollLayer);
}

/// A clip region over `main`, whose rounded rectangles are appended to the
/// complex-clip table.
pub fn wr_dp_new_clip_region(
    state: &mut WrState,
    main: WrRect,
    complex: Vec<WrComplexClipRegion>,
    image_mask: Option<WrImageMask>,
) -> (c: WrClipRegion)
    requires
        old(state).wf(),
    ensures
        final(state).wf(),
        final(state).calls() == old(state).calls(),
        final(state).pipeline_id == old(state).pipeline_id,
        final(state).z_index == old(state).z_index,
        final(state).scopes() == old(state).scopes(),
        final(state).list() == (DisplayListView {
            clips: old(state).list().clips + complex@,
            ..old(state).list()
        }),
        c == (WrClipRegion {
            main,
            complex: WrItemRange {
                start: old(state).list().clips.len() as usize,
                length: complex@.len() as usize,
            },
            image_mask,
        }),
{
    state.frame_builder.dl_builder.new_clip_region(main, complex, image_mask)
}

/// The operands every drawing command starts with: its rectangle and clip.
pub open spec fn draw_words(rect: WrRect, clip: WrClipRegion) -> Seq<u32> {
    rect_words(rect) + clip_words(clip)
}

fn draw_operands(rect: &WrRect, clip: &WrClipRegion) -> (ops: Vec<u32>)
    ensures
        ops@ == draw_words(*rect, *clip),
{
    let mut ops: Vec<u32> = Vec::new();
    put_rect(rect, &mut ops);
    put_clip(clip, &mut ops);
    assert(ops@ =~= draw_words(*rect, *clip));
    ops
}

/// Draws another pipeline's content in `rect`.
pub fn wr_dp_push_iframe(state: &mut WrState, rect: WrRect, clip: WrClipRegion, pipeline_id: PipelineId)
    requires
        old(state).wf(),
    ensures
        final(state).wf(),
        final(state).calls() == old(state).calls(),
        final(state).pipeline_id == old(state).pipeline_id,
        final(state).z_index == old(state).z_index,
        final(state).scopes() == old(state).scopes(),
        final(state).list() == with_item(
            old(state).list(),
            ItemKind::Iframe,
            draw_words(rect, clip) + seq![pipeline_id.0, pipeline_id.1],
        ),
{
    let mut ops = draw_operands(&rect, &clip);
    ops.push(pipeline_id.0);
    ops.push(pipeline_id.1);
    assert(ops@ =~= draw_words(rect, clip) + seq![pipeline_id.0, pipeline_id.1]);
    state.frame_builder.dl_builder.push_item(ItemKind::Iframe, ops);
}

/// Fills `rect` with `color`.
pub fn wr_dp_push_rect(state: &mut WrState, rect: WrRect, clip: WrClipRegion, color: WrColor)
    requires
        old(state).wf(),
    ensures
        final(state).wf(),
        final(state).calls() == old(state).calls(),
        final(state).pipeline_id == old(state).pipeline_id,
        final(state).z_index == old(state).z_index,
        final(state).scopes() == old(state).scopes(),
        final(state).list() == with_item(
            old(state).list(),
            ItemKind::Rect,
            draw_words(rect, clip) + color_words(color),
        ),
{
    let mut ops = draw_operands(&rect, &clip);
    put_color(&color, &mut ops);
    state.frame_builder.dl_builder.push_item(ItemKind::Rect, ops);
}

/// Draws the image `key` tiled over `bounds`.
pub fn wr_dp_push_image(
    state: &mut WrState,
    bounds: WrRect,
    clip: WrClipRegion,
    stretch_size: WrSize,
    tile_spacing: WrSize,
    image_rendering: WrImageRendering,
    key: ImageKey,
)
    requires
        old(state).wf(),
    ensures
        final(state).wf(),
        final(state).calls() == old(state).calls(),
        final(state).pipeline_id == old(state).pipeline_id,
        final(state).z_index == old(state).z_index,
        final(state).scopes() == old(state).scopes(),
        final(state).list() == with_item(
            old(state).list(),
            ItemKind::Image,
            draw_words(bounds, clip) + size_words(stretch_size) + size_words(tile_spacing) + seq![
                image_rendering.spec_tag(),
                key.0,
                key.1,
            ],
        ),
{
    let mut ops = draw_operands(&bounds, &clip);
    put_size(&stretch_size, &mut ops);
    put_size(&tile_spacing, &mut ops);
    ops.push(image_rendering.tag());
    ops.push(key.0);
    ops.push(key.1);
    assert(ops@ =~= draw_words(bounds, clip) + size_words(stretch_size) + size_words(tile_spacing)
        + seq![image_rendering.spec_tag(), key.0, key.1]);
    state.frame_builder.dl_builder.push_item(ItemKind::Image, ops);
}

/// Draws a run of glyphs; the glyphs are appended to the glyph table and the
/// command refers to them by range. `glyph_size` is in app units.
pub fn wr_dp_push_text(
    state: &mut WrState,
    bounds: WrRect,
    clip: WrClipRegion,
    color: WrColor,
    font_key: FontKey,
    glyphs: Vec<WrGlyphInstance>,
    glyph_size: i32,
)
    requires
        old(state).wf(),
    ensures
        final(state).wf(),
        final(state).calls() == old(state).calls(),
        final(state).pipeline_id == old(state).pipeline_id,
        final(state).z_index == old(state).z_index,
        final(state).scopes() == old(state).scopes(),
        final(state).list() == with_item(
            DisplayListView { glyphs: old(state).list().glyphs + glyphs@, ..old(state).list() },
            ItemKind::Text,
            draw_words(bounds, clip) + range_words(
                WrItemRange {
                    start: old(state).list().glyphs.len() as usize,
                    length: glyphs@.len() as usize,
                },
            ) + seq![font_key.0, font_key.1] + color_words(color) + seq![word_of_i32(glyph_size)],
        ),
{
    let range = WrItemRange {
        start: state.frame_builder.dl_builder.list.glyphs.len(),
        length: glyphs.len(),
    };
    let mut glyphs = glyphs;
    state.frame_builder.dl_builder.list.glyphs.append(&mut glyphs);
    let mut ops = draw_operands(&bounds, &clip);
    put_range(&range, &mut ops);
    ops.push(font_key.0);
    ops.push(font_key.1);
    put_color(&color, &mut ops);
    ops.push(encode_i32(glyph_size));
    assert(ops@ =~= draw_words(bounds, clip) + range_words(range) + seq![font_key.0, font_key.1]
        + color_words(color) + seq![word_of_i32(glyph_size)]);
    state.frame_builder.dl_builder.push_item(ItemKind::Text, ops);
}

/// Appends gradient stops to their table and returns the range they take.
fn push_stops(state: &mut WrState, stops: Vec<WrGradientStop>) -> (r: WrItemRange)
    requires
        old(state).wf(),
    ensures
        final(state).wf(),
        final(state).calls() == old(state).calls(),
        final(state).pipeline_id == old(state).pipeline_id,
        final(state).z_index == old(state).z_index,
        final(state).scopes() == old(state).scopes(),
        final(state).list() == (DisplayListView {
            stops: old(state).list().stops + stops@,
            ..old(state).list()
        }),
        r == (WrItemRange {
            start: old(state).list().stops.len() as usize,
            length: stops@.len() as usize,
        }),
{
    let r = WrItemRange {
        start: state.frame_builder.dl_builder.list.stops.len(),
        length: stops.len(),
    };
    let mut stops = stops;
    state.frame_builder.dl_builder.list.stops.append(&mut stops);
    r
}

/// The range that stops appended to `l` take.
pub open spec fn stops_range(l: DisplayListView, stops: Seq<WrGradientStop>) -> WrItemRange {
    WrItemRange { start: l.stops.len() as usize, length: stops.len() as usize }
}

/// `l` with the stops appended to its stop table.
pub open spec fn with_stops(l: DisplayListView, stops: Seq<WrGradientStop>) -> DisplayListView {
    DisplayListView { stops: l.stops + stops, ..l }
}

/// Draws a border whose four sides are plain lines.
pub fn wr_dp_push_border(
    state: &mut WrState,
    rect: WrRect,
    clip: WrClipRegion,
    widths: WrBorderWidths,
    top: WrBorderSide,
    right: WrBorderSide,
    bottom: WrBorderSide,
    left: WrBorderSide,
    radius: WrBorderRadius,
)
    requires
        old(state).wf(),
    ensures
        final(state).wf(),
        final(state).calls() == old(state).calls(),
        final(state).pipeline_id == old(state).pipeline_id,
        final(state).z_index == old(state).z_index,
        final(state).scopes() == old(state).scopes(),
        final(state).list() == with_item(
            old(state).list(),
            ItemKind::Border,
            draw_words(rect, clip) + widths_words(widths) + seq![0u32] + side_words(left)
                + side_words(right) + side_words(top) + side_words(bottom) + radius_words(radius),
        ),
{
    let mut ops = draw_operands(&rect, &clip);
    put_widths(&widths, &mut ops);
    ops.push(0);
    put_side(&left, &mut ops);
    put_side(&right, &mut ops);
    put_side(&top, &mut ops);
    put_side(&bottom, &mut ops);
    put_radius(&radius, &mut ops);
    assert(ops@ =~= draw_words(rect, clip) + widths_words(widths) + seq![0u32] + side_words(left)
        + side_words(right) + side_words(top) + side_words(bottom) + radius_words(radius));
    state.frame_builder.dl_builder.push_item(ItemKind::Border, ops);
}

/// Draws a border from a nine-patch image.
pub fn wr_dp_push_border_image(
    state: &mut WrState,
    rect: WrRect,
    clip: WrClipRegion,
    widths: WrBorderWidths,
    image: ImageKey,
    patch: WrNinePatchDescriptor,
    outset: WrSideOffsets2D,
    repeat_horizontal: WrRepeatMode,
    repeat_vertical: WrRepeatMode,
)
    requires
        old(state).wf(),
    ensures
        final(state).wf(),
        final(state).calls() == old(state).calls(),
        final(state).pipeline_id == old(state).pipeline_id,
        final(state).z_index == old(state).z_index,
        final(state).scopes() == old(state).scopes(),
        final(state).list() == with_item(
            old(state).list(),
            ItemKind::Border,
            draw_words(rect, clip) + widths_words(widths) + seq![1u32, image.0, image.1, patch.width, patch.height]
                + offsets_words(patch.slice) + offsets_words(outset) + seq![
                repeat_horizontal.spec_tag(),
                repeat_vertical.spec_tag(),
            ],
        ),
{
    let mut ops = draw_operands(&rect, &clip);
    put_widths(&widths, &mut ops);
    ops.push(1);
    ops.push(image.0);
    ops.push(image.1);
    ops.push(patch.width);
    ops.push(patch.height);
    put_offsets(&patch.slice, &mut ops);
    put_offsets(&outset, &mut ops);
    ops.push(repeat_horizontal.tag());
    ops.push(repeat_vertical.tag());
    assert(ops@ =~= draw_words(rect, clip) + widths_words(widths) + seq![1u32, image.0, image.1, patch.width, patch.height]
        + offsets_words(patch.slice) + offsets_words(outset) + seq![
        repeat_horizontal.spec_tag(),
        repeat_vertical.spec_tag(),
    ]);
    state.frame_builder.dl_builder.push_item(ItemKind::Border, ops);
}

/// Draws a border filled with a linear gradient; the stops are appended to
/// the stop table.
pub fn wr_dp_push_border_gradient(
    state: &mut WrState,
    rect: WrRect,
    clip: WrClipRegion,
    widths: WrBorderWidths,
    start_point: WrPoint,
    end_point: WrPoint,
    stops: Vec<WrGradientStop>,
    extend_mode: WrGradientExtendMode,
    outset: WrSideOffsets2D,
)
    requires
        old(state).wf(),
    ensures
        final(state).wf(),
        final(state).calls() == old(state).calls(),
        final(state).pipeline_id == old(state).pipeline_id,
        final(state).z_index == old(state).z_index,
        final(state).scopes() == old(state).scopes(),
        final(state).list() == with_item(
            with_stops(old(state).list(), stops@),
            ItemKind::Border,
            draw_words(rect, clip) + widths_words(widths) + seq![2u32] + point_words(start_point)
                + point_words(end_point) + range_words(stops_range(old(state).list(), stops@))
                + seq![extend_mode.spec_tag()] + offsets_words(outset),
        ),
{
    let range = push_stops(state, stops);
    let mut ops = draw_operands(&rect, &clip);
    put_widths(&widths, &mut ops);
    ops.push(2);
    put_point(&start_point, &mut ops);
    put_point(&end_point, &mut ops);
    put_range(&range, &mut ops);
    ops.push(extend_mode.tag());
    put_offsets(&outset, &mut ops);
    assert(ops@ =~= draw_words(rect, clip) + widths_words(widths) + seq![2u32] + point_words(start_point)
        + point_words(end_point) + range_words(range) + seq![extend_mode.spec_tag()]
        + offsets_words(outset));
    state.frame_builder.dl_builder.push_item(ItemKind::Border, ops);
}

/// Draws a border filled with a radial gradient; the stops are appended to
/// the stop table.
pub fn wr_dp_push_border_radial_gradient(
    state: &mut WrState,
    rect: WrRect,
    clip: WrClipRegion,
    widths: WrBorderWidths,
    center: WrPoint,
    radius: WrSize,
    stops: Vec<WrGradientStop>,
    extend_mode: WrGradientExtendMode,
    outset: WrSideOffsets2D,
)
    requires
        old(state).wf(),
    ensures
        final(state).wf(),
        final(state).calls() == old(state).calls(),
        final(state).pipeline_id == old(state).pipeline_id,
        final(state).z_index == old(state).z_index,
        final(state).scopes() == old(state).scopes(),
        final(state).list() == with_item(
            with_stops(old(state).list(), stops@),
            ItemKind::Border,
            draw_words(rect, clip) + widths_words(widths) + seq![3u32] + point_words(center)
                + size_words(radius) + range_words(stops_range(old(state).list(), stops@))
                + seq![extend_mode.spec_tag()] + offsets_words(outset),
        ),
{
    let range = push_stops(state, stops);
    let mut ops = draw_operands(&rect, &clip);
    put_widths(&widths, &mut ops);
    ops.push(3);
    put_point(&center, &mut ops);
    put_size(&radius, &mut ops);
    put_range(&range, &mut ops);
    ops.push(extend_mode.tag());
    put_offsets(&outset, &mut ops);
    assert(ops@ =~= draw_words(rect, clip) + widths_words(widths) + seq![3u32] + point_words(center)
        + size_words(radius) + range_words(range) + seq![extend_mode.spec_tag()]
        + offsets_words(outset));
    state.frame_builder.dl_builder.push_item(ItemKind::Border, ops);
}

/// Fills `rect` with a tiled linear gradient; the stops are appended to the
/// stop table.
pub fn wr_dp_push_linear_gradient(
    state: &mut WrState,
    rect: WrRect,
    clip: WrClipRegion,
    start_point: WrPoint,
    end_point: WrPoint,
    stops: Vec<WrGradientStop>,
    extend_mode: WrGradientExtendMode,
    tile_size: WrSize,
    tile_spacing: WrSize,
)
    requires
        old(state).wf(),
    ensures
        final(state).wf(),
        final(state).calls() == old(state).calls(),
        final(state).pipeline_id == old(state).pipeline_id,
        final(state).z_index == old(state).z_index,
        final(state).scopes() == old(state).scopes(),
        final(state).list() == with_item(
            with_stops(old(state).list(), stops@),
            ItemKind::Gradient,
            draw_words(rect, clip) + point_words(start_point) + point_words(end_point)
                + range_words(stops_range(old(state).list(), stops@)) + seq![extend_mode.spec_tag()]
                + size_words(tile_size) + size_words(tile_spacing),
        ),
{
    let range = push_stops(state, stops);
    let mut ops = draw_operands(&rect, &clip);
    put_point(&start_point, &mut ops);
    put_point(&end_point, &mut ops);
    put_range(&range, &mut ops);
    ops.push(extend_mode.tag());
    put_size(&tile_size, &mut ops);
    put_size(&tile_spacing, &mut ops);
    assert(ops@ =~= draw_words(rect, clip) + point_words(start_point) + point_words(end_point)
        + range_words(range) + seq![extend_mode.spec_tag()] + size_words(tile_size) + size_words(
        tile_spacing,
    ));
    state.frame_builder.dl_builder.push_item(ItemKind::Gradient, ops);
}

/// Fills `rect` with a tiled radial gradient; the stops are appended to the
/// stop table.
pub fn wr_dp_push_radial_gradient(
    state: &mut WrState,
    rect: WrRect,
    clip: WrClipRegion,
    center: WrPoint,
    radius: WrSize,
    stops: Vec<WrGradientStop>,
    extend_mode: WrGradientExtendMode,
    tile_size: WrSize,
    tile_spacing: WrSize,
)
    requires
        old(state).wf(),
    ensures
        final(state).wf(),
        final(state).calls() == old(state).calls(),
        final(state).pipeline_id == old(state).pipeline_id,
        final(state).z_index == old(state).z_index,
        final(state).scopes() == old(state).scopes(),
        final(state).list() == with_item(
            with_stops(old(state).list(), stops@),
            ItemKind::RadialGradient,
            draw_words(rect, clip) + point_words(center) + size_words(radius) + range_words(
                stops_range(old(state).list(), stops@),
            ) + seq![extend_mode.spec_tag()] + size_words(tile_size) + size_words(tile_spacing),
        ),
{
    let range = push_stops(state, stops);
    let mut ops = draw_operands(&rect, &clip);
    put_point(&center, &mut ops);
    put_size(&radius, &mut ops);
    put_range(&range, &mut ops);
    ops.push(extend_mode.tag());
    put_size(&tile_size, &mut ops);
    put_size(&tile_spacing, &mut ops);
    assert(ops@ =~= draw_words(rect, clip) + point_words(center) + size_words(radius) + range_words(
        range,
    ) + seq![extend_mode.spec_tag()] + size_words(tile_size) + size_words(tile_spacing));
    state.frame_builder.dl_builder.push_item(ItemKind::RadialGradient, ops);
}

/// Draws the shadow of `box_bounds`; radii are in app units.
pub fn wr_dp_push_box_shadow(
    state: &mut WrState,
    rect: WrRect,
    clip: WrClipRegion,
    box_bounds: WrRect,
    offset: WrPoint,
    color: WrColor,
    blur_radius: i32,
    spread_radius: i32,
    border_radius: i32,
    clip_mode: WrBoxShadowClipMode,
)
    requires
        old(state).wf(),
    ensures
        final(state).wf(),
        final(state).calls() == old(state).calls(),
        final(state).pipeline_id == old(state).pipeline_id,
        final(state).z_index == old(state).z_index,
        final(state).scopes() == old(state).scopes(),
        final(state).list() == with_item(
            old(state).list(),
            ItemKind::BoxShadow,
            draw_words(rect, clip) + rect_words(box_bounds) + point_words(offset) + color_words(
                color,
            ) + seq![
                word_of_i32(blur_radius),
                word_of_i32(spread_radius),
                word_of_i32(border_radius),
                clip_mode.spec_tag(),
            ],
        ),
{
    let mut ops = draw_operands(&rect, &clip);
    put_rect(&box_bounds, &mut ops);
    put_point(&offset, &mut ops);
    put_color(&color, &mut ops);
    ops.push(encode_i32(blur_radius));
    ops.push(encode_i32(spread_radius));
    ops.push(encode_i32(border_radius));
    ops.push(clip_mode.tag());
    assert(ops@ =~= draw_words(rect, clip) + rect_words(box_bounds) + point_words(offset) + color_words(
        color,
    ) + seq![
        word_of_i32(blur_radius),
        word_of_i32(spread_radius),
        word_of_i32(border_radius),
        clip_mode.spec_tag(),
    ]);
    state.frame_builder.dl_builder.push_item(ItemKind::BoxShadow, ops);
}

/// Finalizes the state's display list and encodes it; the state is left
/// with an empty list for the same pipeline. Fails, leaving the state as it
/// was, while a scope is open or after a pop went out of order, or when the
/// list is too large for the wire format.
pub fn wr_api_finalize_builder(state: &mut WrState) -> (r: Result<
    (Vec<u8>, WrBuiltDisplayListDescriptor),
    FinalizeError,
>)
    requires
        old(state).wf(),
    ensures
        final(state).wf(),
        (r is Err && r->Err_0 == FinalizeError::UnbalancedScopes) <==> !balanced(old(state).calls()),
        r is Ok ==> final(state).calls() == Seq::<ScopeOp>::empty(),
        r is Err ==> final(state).calls() == old(state).calls(),
        final(state).pipeline_id == old(state).pipeline_id,
        final(state).frame_builder.root_pipeline_id == old(state).frame_builder.root_pipeline_id,
        final(state).frame_builder.dl_builder.pipeline_id == old(state).frame_builder.dl_builder.pipeline_id,
        final(state).z_index == old(state).z_index,
        (r is Err && r->Err_0 == FinalizeError::UnbalancedScopes) <==> old(state).scopes() != Some(
            Seq::<ScopeKind>::empty(),
        ),
        (r is Err && r->Err_0 == FinalizeError::TooLarge) <==> (old(state).scopes() == Some(
            Seq::<ScopeKind>::empty(),
        ) && !list_wf(old(state).list())),
        r is Err ==> final(state).list() == old(state).list() && final(state).scopes() == old(
            state,
        ).scopes(),
        r is Ok ==> r->Ok_0.0@ == bytes_of_words(list_words(old(state).list())) && r->Ok_0.1
            == descriptor_of(old(state).list()),
        r is Ok ==> final(state).list() == DisplayListView::empty() && final(state).scopes()
            == Some(Seq::<ScopeKind>::empty()),
{
    if state.frame_builder.dl_builder.mismatched || state.frame_builder.dl_builder.scopes.len()
        != 0 {
        proof {
            if !state.frame_builder.dl_builder.mismatched {
                assert(state.frame_builder.dl_builder.scopes@ != Seq::<ScopeKind>::empty());
            }
        }
        return Err(FinalizeError::UnbalancedScopes);
    }
    proof {
        assert(state.frame_builder.dl_builder.scopes@ =~= Seq::<ScopeKind>::empty());
    }
    if !fits_wire(&state.frame_builder.dl_builder.list) {
        return Err(FinalizeError::TooLarge);
    }
    match state.frame_builder.dl_builder.finalize() {
        Ok(list) => {
            let (bytes, d) = encode(&list);
            Ok((bytes, d))
        },
        Err(e) => Err(e),
    }
}

/// `ops` with the range start stored in words `p` and `p + 1` moved on by
/// `base` (modulo 2^64); `ops` itself when it has no such words.
pub open spec fn shift_range(ops: Seq<u32>, p: int, base: int) -> Seq<u32> {
    if 0 <= p && p + 1 < ops.len() {
        let v = ops[p] as int + ops[p + 1] as int * 0x1_0000_0000;
        let n = (v + base) % 0x1_0000_0000_0000_0000;
        ops.update(p, (n % 0x1_0000_0000) as u32).update(p + 1, (n / 0x1_0000_0000) as u32)
    } else {
        ops
    }
}

/// Where the side-tables of a nested list start in the tables it is
/// appended to.
pub struct TableBases {
    pub glyphs: int,
    pub stops: int,
    pub clips: int,
    pub filters: int,
}

pub open spec fn bases_of(l: DisplayListView) -> TableBases {
    TableBases {
        glyphs: l.glyphs.len() as int,
        stops: l.stops.len() as int,
        clips: l.clips.len() as int,
        filters: l.filters.len() as int,
    }
}

/// A command of a nested list with each side-table range it holds moved on
/// by the start of that table in the enclosing list. The ranges sit where
/// the builder's calls put them: a scroll layer's clip range at word 4, a
/// drawing command's clip range at word 8, a text run's glyph range at 20,
/// a gradient's stop range at 24 (29 in a gradient border), and a stacking
/// context's filter range after its transform.
pub open spec fn rebase_item(it: ItemView, b: TableBases) -> ItemView {
    let ops = it.operands;
    let moved = match it.kind {
        ItemKind::PushScrollLayer => shift_range(ops, 4, b.clips),
        ItemKind::PushStackingContext => if ops.len() > 5 && ops[5] == 0 {
            shift_range(ops, 7, b.filters)
        } else {
            shift_range(ops, 23, b.filters)
        },
        ItemKind::Text => shift_range(shift_range(ops, 8, b.clips), 20, b.glyphs),
        ItemKind::Gradient => shift_range(shift_range(ops, 8, b.clips), 24, b.stops),
        ItemKind::RadialGradient => shift_range(shift_range(ops, 8, b.clips), 24, b.stops),
        ItemKind::Border => if ops.len() > 24 && (ops[24] == 2 || ops[24] == 3) {
            shift_range(shift_range(ops, 8, b.clips), 29, b.stops)
        } else {
            shift_range(ops, 8, b.clips)
        },
        ItemKind::Rect => shift_range(ops, 8, b.clips),
        ItemKind::Image => shift_range(ops, 8, b.clips),
        ItemKind::BoxShadow => shift_range(ops, 8, b.clips),
        ItemKind::Iframe => shift_range(ops, 8, b.clips),
        ItemKind::PopStackingContext => ops,
        ItemKind::PopScrollLayer => ops,
    };
    ItemView { kind: it.kind, operands: moved }
}

/// `outer` followed by `inner`: its commands with their ranges moved on,
/// and its side-tables after the enclosing ones.
pub open spec fn splice(outer: DisplayListView, inner: DisplayListView) -> DisplayListView {
    DisplayListView {
        items: outer.items + inner.items.map_values(|it: ItemView| rebase_item(it, bases_of(outer))),
        glyphs: outer.glyphs + inner.glyphs,
        stops: outer.stops + inner.stops,
        clips: outer.clips + inner.clips,
        filters: outer.filters + inner.filters,
    }
}

fn shift_range_exec(ops: &mut Vec<u32>, p: usize, base: u64)
    ensures
        final(ops)@ == shift_range(old(ops)@, p as int, base as int),
{
    if p < ops.len() && p + 1 < ops.len() {
        let v: u128 = ops[p] as u128 + ops[p + 1] as u128 * 0x1_0000_0000u128;
        let n: u128 = (v + base as u128) % 0x1_0000_0000_0000_0000u128;
        ops.set(p, (n % 0x1_0000_0000u128) as u32);
        ops.set(p + 1, (n / 0x1_0000_0000u128) as u32);
    }
}

fn rebase_exec(item: DisplayItem, glyphs: u64, stops: u64, clips: u64, filters: u64) -> (r: DisplayItem)
    ensures
        r@ == rebase_item(
            item@,
            TableBases { glyphs: glyphs as int, stops: stops as int, clips: clips as int, filters: filters as int },
        ),
{
    let kind = item.kind;
    let mut ops = item.operands;
    match kind {
        ItemKind::PushScrollLayer => shift_range_exec(&mut ops, 4, clips),
        ItemKind::PushStackingContext => {
            if ops.len() > 5 && ops[5] == 0 {
                shift_range_exec(&mut ops, 7, filters);
            } else {
                shift_range_exec(&mut ops, 23, filters);
            }
        },
        ItemKind::Text => {
            shift_range_exec(&mut ops, 8, clips);
            shift_range_exec(&mut ops, 20, glyphs);
        },
        ItemKind::Gradient | ItemKind::RadialGradient => {
            shift_range_exec(&mut ops, 8, clips);
            shift_range_exec(&mut ops, 24, stops);
        },
        ItemKind::Border => {
            let gradient = ops.len() > 24 && (ops[24] == 2 || ops[24] == 3);
            shift_range_exec(&mut ops, 8, clips);
            if gradient {
                shift_range_exec(&mut ops, 29, stops);
            }
        },
        ItemKind::Rect | ItemKind::Image | ItemKind::BoxShadow | ItemKind::Iframe => {
            shift_range_exec(&mut ops, 8, clips);
        },
        ItemKind::PopStackingContext | ItemKind::PopScrollLayer => {},
    }
    DisplayItem { kind, operands: ops }
}

fn append_table<T>(dst: &mut Vec<T>, src: Vec<T>)
    ensures
        final(dst)@ == old(dst)@ + src@,
{
    let mut src = src;
    dst.append(&mut src);
}

/// Appends an encoded display list to the state's list: its commands, with
/// their side-table ranges moved on to where its side-table entries land
/// at the end of the state's tables. Fails, leaving the state as it was,
/// when the buffer does not decode.
pub fn wr_dp_push_built_display_list(
    state: &mut WrState,
    dl_descriptor: WrBuiltDisplayListDescriptor,
    dl_data: Vec<u8>,
) -> (r: Result<(), DecodeError>)
    requires
        old(state).wf(),
    ensures
        final(state).wf(),
        final(state).calls() == old(state).calls(),
        final(state).pipeline_id == old(state).pipeline_id,
        final(state).z_index == old(state).z_index,
        final(state).scopes() == old(state).scopes(),
        r is Ok <==> spec_decode(dl_data@, dl_descriptor) is Ok,
        r is Err ==> spec_decode(dl_data@, dl_descriptor) == Err::<DisplayListView, DecodeError>(
            r->Err_0,
        ),
        r is Err ==> final(state).list() == old(state).list(),
        r is Ok ==> final(state).list() == splice(
            old(state).list(),
            spec_decode(dl_data@, dl_descriptor)->Ok_0,
        ),
{
    match decode(&dl_data, &dl_descriptor) {
        Err(e) => Err(e),
        Ok(inner) => {
            let ghost outer = state.list();
            let ghost iv = inner@;
            let b = &mut state.frame_builder.dl_builder;
            let glyphs = b.list.glyphs.len() as u64;
            let stops = b.list.stops.len() as u64;
            let clips = b.list.clips.len() as u64;
            let filters = b.list.filters.len() as u64;
            let ghost bases = bases_of(outer);
            let BuiltDisplayList { items, glyphs: g, stops: st, clips: cl, filters: fi } = inner;
            let mut items = items;
            let ghost all = items@;
            let ghost start = b.list.items@;
            let ghost k: int = 0;
            proof {
                assert(all.skip(0) =~= all);
            }
            while items.len() > 0
                invariant
                    0 <= k <= all.len(),
                    items@ == all.skip(k),
                    b.list.items@.map_values(|it: DisplayItem| it@) == start.map_values(|it: DisplayItem| it@)
                        + all.take(k).map_values(|it: DisplayItem| rebase_item(it@, bases)),
                    b.list.glyphs@ == outer.glyphs,
                    b.list.stops@ == outer.stops,
                    b.list.clips@ == outer.clips,
                    b.list.filters@ == outer.filters,
                    b.calls == old(state).frame_builder.dl_builder.calls,
                    b.scopes == old(state).frame_builder.dl_builder.scopes,
                    b.mismatched == old(state).frame_builder.dl_builder.mismatched,
                    b.pipeline_id == old(state).frame_builder.dl_builder.pipeline_id,
                    start.map_values(|it: DisplayItem| it@) == outer.items,
                    glyphs == bases.glyphs && stops == bases.stops && clips == bases.clips && filters == bases.filters,
                decreases items.len(),
            {
                let item = items.remove(0);
                let moved = rebase_exec(item, glyphs, stops, clips, filters);
                let ghost before = b.list.items@;
                b.list.items.push(moved);
                proof {
                    assert(item == all[k]);
                    assert(items@ =~= all.skip(k + 1));
                    assert(b.list.items@ =~= before.push(moved));
                    assert(all.take(k + 1) =~= all.take(k).push(all[k]));
                    assert(moved@ == rebase_item(item@, bases));
                    assert(b.list.items@.map_values(|it: DisplayItem| it@) =~= before.map_values(|it: DisplayItem| it@).push(moved@));
                    assert(all.take(k + 1).map_values(|it: DisplayItem| rebase_item(it@, bases))
                        =~= all.take(k).map_values(|it: DisplayItem| rebase_item(it@, bases)).push(rebase_item(all[k]@, bases)));
                    assert(b.list.items@.map_values(|it: DisplayItem| it@) =~= start.map_values(|it: DisplayItem| it@)
                        + all.take(k + 1).map_values(|it: DisplayItem| rebase_item(it@, bases)));
                    k = k + 1;
                }
            }
            append_table(&mut b.list.glyphs, g);
            append_table(&mut b.list.stops, st);
            append_table(&mut b.list.clips, cl);
            append_table(&mut b.list.filters, fi);
            proof {
                assert(all.take(k) =~= all);
                assert(all.map_values(|it: DisplayItem| rebase_item(it@, bases))
                    =~= iv.items.map_values(|it: ItemView| rebase_item(it, bases)));
                assert(state.list() =~= splice(outer, iv));
            }
            Ok(())
        },
    }
}

} // verus!
