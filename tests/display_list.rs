use wr_bindings::builder::{FinalizeError, WrClipRegion, WrMixBlendMode};
use wr_bindings::codec::{decode, encode, DecodeError};
use wr_bindings::display_list::{ItemKind, WrFilterOp, WrGlyphInstance, WrGradientStop, WrItemRange};
use wr_bindings::display_list::WrComplexClipRegion;
use wr_bindings::geom::{WrBorderRadius, WrColor, WrMatrix, WrPoint, WrRect, WrSize};
use wr_bindings::ids::{FontKey, ImageKey, PipelineId};
use wr_bindings::state::{
    wr_api_finalize_builder, wr_dp_begin, wr_dp_end, wr_dp_new_clip_region,
    wr_dp_pop_scroll_layer, wr_dp_pop_stacking_context, wr_dp_push_built_display_list,
    wr_dp_push_linear_gradient, wr_dp_push_rect, wr_dp_push_scroll_layer,
    wr_dp_push_stacking_context, wr_dp_push_text, wr_state_new, WrState,
};
use wr_bindings::style::WrGradientExtendMode;

fn identity() -> WrMatrix {
    let mut values = [0i32; 16];
    values[0] = 65536;
    values[5] = 65536;
    values[10] = 65536;
    values[15] = 65536;
    WrMatrix { values }
}

fn plain_clip(state: &mut WrState, rect: WrRect) -> WrClipRegion {
    wr_dp_new_clip_region(state, rect, Vec::new(), None)
}

fn sample_state() -> WrState {
    let mut state = wr_state_new(PipelineId(1, 1));
    wr_dp_begin(&mut state, 200, 100);
    wr_dp_push_stacking_context(
        &mut state,
        WrRect::new(0, 0, 6000, 6000),
        128,
        identity(),
        WrMixBlendMode::Multiply,
    );
    let clip = plain_clip(&mut state, WrRect::new(0, 0, 3000, 3000));
    wr_dp_push_rect(&mut state, WrRect::new(50, 50, 100, 100), clip, WrColor::new(255, 0, 0, 255));
    let glyphs = vec![
        WrGlyphInstance { index: 7, point: WrPoint { x: -3, y: 4 } },
        WrGlyphInstance { index: 9, point: WrPoint { x: 12, y: -40 } },
    ];
    wr_dp_push_text(&mut state, WrRect::new(0, 0, 10, 10), clip, WrColor::new(0, 0, 0, 255), FontKey(1, 2), glyphs, 720);
    let stops = vec![
        WrGradientStop { offset: 0, color: WrColor::new(1, 2, 3, 4) },
        WrGradientStop { offset: 65536, color: WrColor::new(5, 6, 7, 8) },
    ];
    wr_dp_push_linear_gradient(
        &mut state,
        WrRect::new(0, 0, 60, 60),
        clip,
        WrPoint { x: 0, y: 0 },
        WrPoint { x: 60, y: 60 },
        stops,
        WrGradientExtendMode::Repeat,
        WrSize { width: 60, height: 60 },
        WrSize { width: 0, height: 0 },
    );
    wr_dp_pop_stacking_context(&mut state);
    wr_dp_end(&mut state);
    state
}

#[test]
fn balanced_list_finalizes_and_round_trips() {
    let mut state = sample_state();
    let (bytes, descriptor) = wr_api_finalize_builder(&mut state).expect("balanced list");
    assert_eq!(bytes.len() % 4, 0);
    assert_eq!(descriptor.glyph_count, 2);
    assert_eq!(descriptor.glyph_bytes, 2 * 3 * 4);
    assert_eq!(descriptor.stop_count, 2);
    assert_eq!(descriptor.stop_bytes, 2 * 5 * 4);
    assert_eq!(descriptor.filter_count, 1);
    let list = decode(&bytes, &descriptor).expect("decodes");
    let kinds: Vec<ItemKind> = list.items.iter().map(|i| i.kind).collect();
    assert_eq!(
        kinds,
        vec![
            ItemKind::PushStackingContext,
            ItemKind::PushStackingContext,
            ItemKind::Rect,
            ItemKind::Text,
            ItemKind::Gradient,
            ItemKind::PopStackingContext,
            ItemKind::PopStackingContext,
        ]
    );
    assert_eq!(list.glyphs[1], WrGlyphInstance { index: 9, point: WrPoint { x: 12, y: -40 } });
    assert_eq!(list.stops[1].color, WrColor::new(5, 6, 7, 8));
    assert_eq!(list.filters, vec![WrFilterOp::Opacity(128)]);
    let (again, descriptor2) = encode(&list);
    assert_eq!(again, bytes);
    assert_eq!(descriptor2, descriptor);
}

#[test]
fn finalize_leaves_builder_empty() {
    let mut state = sample_state();
    assert!(wr_api_finalize_builder(&mut state).is_ok());
    let (bytes, descriptor) = wr_api_finalize_builder(&mut state).expect("empty list is balanced");
    assert!(bytes.is_empty());
    assert_eq!(descriptor.items_bytes, 0);
}

#[test]
fn encoding_is_deterministic() {
    let mut a = sample_state();
    let mut b = sample_state();
    let ra = wr_api_finalize_builder(&mut a).unwrap();
    let rb = wr_api_finalize_builder(&mut b).unwrap();
    assert_eq!(ra.0, rb.0);
    assert_eq!(ra.1, rb.1);
}

#[test]
fn unclosed_scope_fails_to_finalize() {
    let mut state = wr_state_new(PipelineId(1, 1));
    wr_dp_begin(&mut state, 10, 10);
    assert_eq!(wr_api_finalize_builder(&mut state).unwrap_err(), FinalizeError::UnbalancedScopes);
    wr_dp_end(&mut state);
    assert!(wr_api_finalize_builder(&mut state).is_ok());
}

#[test]
fn out_of_order_pop_fails_for_good() {
    let mut state = wr_state_new(PipelineId(1, 1));
    wr_dp_begin(&mut state, 10, 10);
    wr_dp_push_scroll_layer(&mut state, WrRect::new(0, 0, 5, 5), WrRect::new(0, 0, 5, 5), None);
    wr_dp_pop_stacking_context(&mut state);
    wr_dp_pop_scroll_layer(&mut state);
    assert_eq!(wr_api_finalize_builder(&mut state).unwrap_err(), FinalizeError::UnbalancedScopes);
}

#[test]
fn nested_scopes_in_reverse_order_finalize() {
    let mut state = wr_state_new(PipelineId(1, 1));
    wr_dp_begin(&mut state, 10, 10);
    wr_dp_push_scroll_layer(&mut state, WrRect::new(0, 0, 5, 5), WrRect::new(0, 0, 5, 5), None);
    wr_dp_push_stacking_context(&mut state, WrRect::new(0, 0, 5, 5), 255, identity(), WrMixBlendMode::Normal);
    wr_dp_pop_stacking_context(&mut state);
    wr_dp_pop_scroll_layer(&mut state);
    wr_dp_end(&mut state);
    assert!(wr_api_finalize_builder(&mut state).is_ok());
}

#[test]
fn extra_pop_fails() {
    let mut state = wr_state_new(PipelineId(1, 1));
    wr_dp_pop_stacking_context(&mut state);
    assert_eq!(wr_api_finalize_builder(&mut state).unwrap_err(), FinalizeError::UnbalancedScopes);
}

#[test]
fn z_index_counts_up_from_begin() {
    let mut state = wr_state_new(PipelineId(3, 4));
    wr_dp_begin(&mut state, 10, 10);
    assert_eq!(state.z_index, 0);
    wr_dp_push_stacking_context(&mut state, WrRect::new(0, 0, 1, 1), 255, identity(), WrMixBlendMode::Normal);
    wr_dp_push_stacking_context(&mut state, WrRect::new(0, 0, 1, 1), 255, identity(), WrMixBlendMode::Normal);
    assert_eq!(state.z_index, 2);
    wr_dp_begin(&mut state, 10, 10);
    assert_eq!(state.z_index, 0);
}

#[test]
fn opaque_context_gets_no_filter() {
    let mut state = wr_state_new(PipelineId(1, 1));
    wr_dp_push_stacking_context(&mut state, WrRect::new(0, 0, 1, 1), 255, identity(), WrMixBlendMode::Normal);
    assert!(state.frame_builder.dl_builder.current().filters.is_empty());
    wr_dp_push_stacking_context(&mut state, WrRect::new(0, 0, 1, 1), 254, identity(), WrMixBlendMode::Normal);
    assert_eq!(state.frame_builder.dl_builder.current().filters, vec![WrFilterOp::Opacity(254)]);
}

#[test]
fn begin_bounds_are_the_viewport_in_app_units() {
    let mut state = wr_state_new(PipelineId(1, 1));
    wr_dp_begin(&mut state, 2, 3);
    let ops = &state.frame_builder.dl_builder.current().items[0].operands;
    assert_eq!(&ops[0..4], &[0u32, 0, 120, 180]);
    assert_eq!(ops[4], 0);
}

#[test]
fn rect_from_pixels_scales_by_sixty() {
    let r = WrRect::from_px_size(2, 3);
    assert_eq!(r, WrRect::new(0, 0, 120, 180));
    let big = WrRect::from_px_size(i32::MAX, -5);
    assert_eq!(big.width, (1 << 30) - 1);
    assert_eq!(big.height, -300);
}

#[test]
fn clip_region_refers_to_appended_complex_clips() {
    let mut state = wr_state_new(PipelineId(1, 1));
    let r = WrSize { width: 1, height: 1 };
    let radii = WrBorderRadius { top_left: r, top_right: r, bottom_left: r, bottom_right: r };
    let c = WrComplexClipRegion { rect: WrRect::new(0, 0, 5, 5), radii };
    let first = wr_dp_new_clip_region(&mut state, WrRect::new(0, 0, 9, 9), vec![c, c], None);
    let second = wr_dp_new_clip_region(&mut state, WrRect::new(0, 0, 9, 9), vec![c], Some(wr_bindings::builder::WrImageMask {
        image: ImageKey(1, 5),
        rect: WrRect::new(1, 1, 2, 2),
        repeat: true,
    }));
    assert_eq!(first.complex, WrItemRange { start: 0, length: 2 });
    assert_eq!(second.complex, WrItemRange { start: 2, length: 1 });
    assert_eq!(state.frame_builder.dl_builder.current().clips.len(), 3);
}

#[test]
fn decode_rejects_lengths_beyond_buffer() {
    let mut state = sample_state();
    let (bytes, mut descriptor) = wr_api_finalize_builder(&mut state).unwrap();
    descriptor.glyph_bytes += 4;
    assert_eq!(decode(&bytes, &descriptor).unwrap_err(), DecodeError::LengthsExceedBuffer);
    descriptor.glyph_bytes = usize::MAX;
    assert_eq!(decode(&bytes, &descriptor).unwrap_err(), DecodeError::LengthsExceedBuffer);
}

#[test]
fn decode_rejects_malformed_sections() {
    let mut state = sample_state();
    let (mut bytes, descriptor) = wr_api_finalize_builder(&mut state).unwrap();
    let mut short = descriptor;
    short.filter_bytes -= 4;
    assert_eq!(decode(&bytes, &short).unwrap_err(), DecodeError::Malformed);
    let mut wrong_count = descriptor;
    wrong_count.glyph_count = 3;
    assert_eq!(decode(&bytes, &wrong_count).unwrap_err(), DecodeError::Malformed);
    bytes[0] = 200;
    assert_eq!(decode(&bytes, &descriptor).unwrap_err(), DecodeError::Malformed);
}

#[test]
fn nested_list_is_spliced_with_moved_ranges() {
    let mut inner = sample_state();
    let (bytes, descriptor) = wr_api_finalize_builder(&mut inner).unwrap();
    let inner_list = decode(&bytes, &descriptor).unwrap();
    let mut outer = sample_state();
    let before = outer.frame_builder.dl_builder.current().clone();
    assert!(wr_dp_push_built_display_list(&mut outer, descriptor, bytes.clone()).is_ok());
    let after = outer.frame_builder.dl_builder.current();
    assert_eq!(after.items.len(), before.items.len() + inner_list.items.len());
    assert_eq!(after.glyphs.len(), before.glyphs.len() + inner_list.glyphs.len());
    assert_eq!(after.stops.len(), 4);
    assert_eq!(after.filters.len(), 2);
    let n = before.items.len();
    // the inner text command: its glyph range starts after the outer glyphs
    let text = &after.items[n + 3];
    assert_eq!(text.kind, ItemKind::Text);
    assert_eq!(text.operands[20], 2);
    assert_eq!(&text.operands[22..24], &[2u32, 0]);
    let glyph = after.glyphs[text.operands[20] as usize];
    assert_eq!(glyph, inner_list.glyphs[0]);
    // the inner gradient's stops and the inner stacking context's filter
    assert_eq!(after.items[n + 4].operands[24], 2);
    assert_eq!(after.items[n + 1].operands[23], 1);
    assert_eq!(after.filters[1], WrFilterOp::Opacity(128));
    let mut bad = descriptor;
    bad.items_bytes += 4;
    let count = outer.frame_builder.dl_builder.current().items.len();
    assert!(wr_dp_push_built_display_list(&mut outer, bad, bytes).is_err());
    assert_eq!(outer.frame_builder.dl_builder.current().items.len(), count);
}
