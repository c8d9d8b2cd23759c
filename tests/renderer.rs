use wr_bindings::api::{
    wr_api_add_image, wr_api_add_raw_font, wr_api_clear_root_display_list, wr_api_delete_font,
    wr_api_delete_image, wr_api_generate_frame, wr_api_get_namespace, wr_api_send_external_event,
    wr_api_set_root_display_list, wr_api_set_root_pipeline, wr_api_add_external_image_handle,
    SubmitError, WrAPI,
};
use wr_bindings::builder::WrMixBlendMode;
use wr_bindings::codec::DecodeError;
use wr_bindings::geom::{WrColor, WrMatrix, WrRect, WrSize};
use wr_bindings::ids::{Epoch, FontKey, ImageKey, PipelineId, WrExternalImageId, WrWindowId};
use wr_bindings::renderer::{
    resolve_image, has_font, take_notifications, wr_renderer_current_epoch,
    wr_renderer_flush_rendered_epochs, wr_renderer_readback, wr_renderer_render,
    wr_renderer_set_external_image_handler, wr_renderer_update, wr_rendered_epochs_next,
    wr_window_new, ImageSource, Notification, ReadbackError, WrRenderer,
};
use wr_bindings::resources::{WrImageDescriptor, WrImageFormat};
use wr_bindings::state::{
    wr_api_finalize_builder, wr_dp_begin, wr_dp_end, wr_dp_new_clip_region,
    wr_dp_pop_stacking_context, wr_dp_push_rect, wr_dp_push_stacking_context, wr_state_new,
};

fn window() -> (WrAPI, WrRenderer) {
    wr_window_new(WrWindowId(1), 800, 600, false, Ok(())).expect("device ready")
}

fn one_rect_list(pipeline: PipelineId) -> (Vec<u8>, wr_bindings::codec::WrBuiltDisplayListDescriptor) {
    let mut state = wr_state_new(pipeline);
    wr_dp_begin(&mut state, 800, 600);
    let mut values = [0i32; 16];
    values[0] = 65536;
    values[5] = 65536;
    values[10] = 65536;
    values[15] = 65536;
    wr_dp_push_stacking_context(&mut state, WrRect::new(0, 0, 800, 600), 255, WrMatrix { values }, WrMixBlendMode::Normal);
    let clip = wr_dp_new_clip_region(&mut state, WrRect::new(0, 0, 800, 600), Vec::new(), None);
    wr_dp_push_rect(&mut state, WrRect::new(50, 50, 100, 100), clip, WrColor::new(0, 128, 0, 255));
    wr_dp_pop_stacking_context(&mut state);
    wr_dp_end(&mut state);
    wr_api_finalize_builder(&mut state).expect("balanced")
}

fn submit(api: &mut WrAPI, pipeline: PipelineId, epoch: u32) -> Result<(), SubmitError> {
    let (bytes, descriptor) = one_rect_list(pipeline);
    wr_api_set_root_display_list(api, Epoch(epoch), WrSize { width: 800, height: 600 }, pipeline, descriptor, bytes)
}

#[test]
fn one_rect_frame_reports_its_epoch() {
    let (mut api, mut renderer) = window();
    let pipeline = PipelineId(1, 1);
    submit(&mut api, pipeline, 1).unwrap();
    match api.messages.last() {
        Some(wr_bindings::api::ApiMsg::SetDisplayList { background, preserve_frame_state, .. }) => {
            assert_eq!(*background, Some(WrColor::new(77, 0, 0, 255)));
            assert!(*preserve_frame_state);
        }
        _ => panic!("a display list was queued"),
    }
    wr_api_set_root_pipeline(&mut api, pipeline);
    wr_renderer_update(&mut renderer, &mut api);
    wr_renderer_render(&mut renderer, 800, 600);
    assert_eq!(wr_renderer_current_epoch(&renderer, pipeline), Some(Epoch(1)));
    let mut epochs = wr_renderer_flush_rendered_epochs(&mut renderer);
    assert_eq!(wr_rendered_epochs_next(&mut epochs), Some((PipelineId(1, 1), Epoch(1))));
    assert_eq!(wr_rendered_epochs_next(&mut epochs), None);
    let again = wr_renderer_flush_rendered_epochs(&mut renderer);
    assert!(again.data.is_empty());
}

#[test]
fn epochs_must_increase_per_pipeline() {
    let (mut api, _renderer) = window();
    let p = PipelineId(1, 1);
    let q = PipelineId(1, 2);
    submit(&mut api, p, 3).unwrap();
    assert_eq!(submit(&mut api, p, 3), Err(SubmitError::EpochNotIncreasing));
    assert_eq!(submit(&mut api, p, 2), Err(SubmitError::EpochNotIncreasing));
    submit(&mut api, q, 1).unwrap();
    submit(&mut api, p, 4).unwrap();
    assert_eq!(wr_api_clear_root_display_list(&mut api, Epoch(4), p), Err(SubmitError::EpochNotIncreasing));
    assert!(wr_api_clear_root_display_list(&mut api, Epoch(5), p).is_ok());
}

#[test]
fn flushed_epochs_only_advance() {
    let (mut api, mut renderer) = window();
    let p = PipelineId(2, 7);
    submit(&mut api, p, 1).unwrap();
    wr_renderer_update(&mut renderer, &mut api);
    wr_renderer_render(&mut renderer, 800, 600);
    let first = wr_renderer_flush_rendered_epochs(&mut renderer);
    assert_eq!(first.data, vec![(p, Epoch(1))]);
    wr_renderer_render(&mut renderer, 800, 600);
    assert!(wr_renderer_flush_rendered_epochs(&mut renderer).data.is_empty());
    submit(&mut api, p, 5).unwrap();
    submit(&mut api, p, 6).unwrap();
    wr_renderer_update(&mut renderer, &mut api);
    wr_renderer_render(&mut renderer, 800, 600);
    assert_eq!(wr_renderer_flush_rendered_epochs(&mut renderer).data, vec![(p, Epoch(6))]);
    assert_eq!(wr_renderer_current_epoch(&renderer, p), Some(Epoch(6)));
}

#[test]
fn submission_of_bad_buffer_is_refused() {
    let (mut api, _renderer) = window();
    let (bytes, mut descriptor) = one_rect_list(PipelineId(1, 1));
    descriptor.items_bytes += 8;
    let r = wr_api_set_root_display_list(&mut api, Epoch(1), WrSize { width: 1, height: 1 }, PipelineId(1, 1), descriptor, bytes);
    assert_eq!(r, Err(SubmitError::Decode(DecodeError::LengthsExceedBuffer)));
    assert!(api.messages.is_empty());
}

#[test]
fn readback_needs_exact_buffer() {
    let (mut api, mut renderer) = window();
    assert_eq!(wr_renderer_readback(&renderer, 4, 4, 64), Err(ReadbackError::NotRendered));
    wr_renderer_update(&mut renderer, &mut api);
    wr_renderer_render(&mut renderer, 4, 4);
    assert_eq!(wr_renderer_readback(&renderer, 4, 4, 64), Ok(64));
    assert_eq!(wr_renderer_readback(&renderer, 4, 4, 63), Err(ReadbackError::WrongBufferSize));
    assert_eq!(wr_renderer_readback(&renderer, 4, 4, 65), Err(ReadbackError::WrongBufferSize));
    assert_eq!(wr_renderer_readback(&renderer, u32::MAX, u32::MAX, usize::MAX), Err(ReadbackError::WrongBufferSize));
}

#[test]
fn image_deleted_before_use_is_never_referenced() {
    let (mut api, mut renderer) = window();
    let key = ImageKey(1, 9);
    let descriptor = WrImageDescriptor { format: WrImageFormat::BGRA8, width: 4, height: 4, stride: 0, is_opaque: true };
    wr_api_add_image(&mut api, key, &descriptor, vec![0u8; 4 * 4 * 4]);
    wr_api_delete_image(&mut api, key);
    submit(&mut api, PipelineId(1, 1), 1).unwrap();
    wr_renderer_update(&mut renderer, &mut api);
    wr_renderer_render(&mut renderer, 800, 600);
    assert_eq!(resolve_image(&renderer, key), ImageSource::Missing);
    assert!(renderer.images.entries.is_empty());
    assert_eq!(wr_renderer_current_epoch(&renderer, PipelineId(1, 1)), Some(Epoch(1)));
}

#[test]
fn image_sources_follow_their_data() {
    let (mut api, mut renderer) = window();
    let descriptor = WrImageDescriptor { format: WrImageFormat::A8, width: 1, height: 1, stride: 0, is_opaque: false };
    wr_api_add_image(&mut api, ImageKey(1, 1), &descriptor, vec![7]);
    wr_api_add_external_image_handle(&mut api, ImageKey(1, 2), &descriptor, 42);
    wr_renderer_update(&mut renderer, &mut api);
    assert_eq!(resolve_image(&renderer, ImageKey(1, 1)), ImageSource::Raw);
    assert_eq!(resolve_image(&renderer, ImageKey(1, 2)), ImageSource::NoHandler);
    wr_renderer_set_external_image_handler(&mut renderer, true);
    assert_eq!(resolve_image(&renderer, ImageKey(1, 2)), ImageSource::External(WrExternalImageId(42)));
    wr_renderer_set_external_image_handler(&mut renderer, false);
    assert_eq!(resolve_image(&renderer, ImageKey(1, 2)), ImageSource::External(WrExternalImageId(42)));
}

#[test]
fn fonts_come_and_go() {
    let (mut api, mut renderer) = window();
    wr_api_add_raw_font(&mut api, FontKey(1, 3), vec![1, 2, 3]);
    wr_renderer_update(&mut renderer, &mut api);
    assert!(has_font(&renderer, FontKey(1, 3)));
    wr_api_delete_font(&mut api, FontKey(1, 3));
    wr_renderer_update(&mut renderer, &mut api);
    assert!(!has_font(&renderer, FontKey(1, 3)));
}

#[test]
fn device_failure_is_reported() {
    let r = wr_window_new(WrWindowId(2), 10, 10, true, Err(String::from("no GL 3.1")));
    let e = r.err().expect("fails");
    assert_eq!(e.message, "no GL 3.1");
}

#[test]
fn events_and_frames_reach_the_notifier() {
    let (mut api, mut renderer) = window();
    assert_eq!(wr_api_get_namespace(&api).0, 0);
    wr_api_send_external_event(&mut api, 99);
    wr_api_generate_frame(&mut api);
    wr_renderer_update(&mut renderer, &mut api);
    assert!(renderer.frame_requested);
    wr_renderer_render(&mut renderer, 10, 10);
    assert!(!renderer.frame_requested);
    assert_eq!(take_notifications(&mut renderer), vec![Notification::ExternalEvent(99), Notification::NewFrameReady]);
}
