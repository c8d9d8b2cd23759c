use wr_bindings::blob::{blob_output_len, render_blob_image, BlobImageDescriptor, BlobImageError, Moz2dImageRenderer};
use wr_bindings::external_image::{BridgeError, ExternalImageBridge, LockState};
use wr_bindings::ids::{ImageKey, WrExternalImageId};
use wr_bindings::resources::{WrImageDescriptor, WrImageFormat};

fn desc(format: WrImageFormat) -> BlobImageDescriptor {
    BlobImageDescriptor { width: 4, height: 3, format }
}

#[test]
fn resolve_without_request_is_invalid_key() {
    let mut cache = Moz2dImageRenderer::new();
    assert!(matches!(cache.resolve_blob_image(ImageKey(1, 1)), Err(BlobImageError::InvalidKey)));
}

#[test]
fn request_then_resolve_once() {
    let mut cache = Moz2dImageRenderer::new();
    let d = desc(WrImageFormat::BGRA8);
    let out = vec![9u8; blob_output_len(&d).unwrap()];
    cache.request_blob_image(ImageKey(1, 1), render_blob_image(&d, true, out));
    let first = cache.resolve_blob_image(ImageKey(1, 1)).expect("stored");
    assert_eq!((first.width, first.height, first.data.len()), (4, 3, 48));
    assert!(matches!(cache.resolve_blob_image(ImageKey(1, 1)), Err(BlobImageError::InvalidKey)));
}

#[test]
fn last_request_wins() {
    let mut cache = Moz2dImageRenderer::new();
    let d = desc(WrImageFormat::A8);
    cache.request_blob_image(ImageKey(1, 1), render_blob_image(&d, true, vec![1; 12]));
    cache.request_blob_image(ImageKey(1, 1), render_blob_image(&d, false, vec![2; 12]));
    cache.request_blob_image(ImageKey(1, 2), render_blob_image(&d, true, vec![3; 12]));
    assert!(matches!(cache.resolve_blob_image(ImageKey(1, 1)), Err(BlobImageError::Other(_))));
    assert_eq!(cache.resolve_blob_image(ImageKey(1, 2)).unwrap().data, vec![3; 12]);
}

#[test]
fn output_len_is_width_height_bytes_per_pixel() {
    assert_eq!(blob_output_len(&desc(WrImageFormat::BGRA8)), Some(48));
    assert_eq!(blob_output_len(&desc(WrImageFormat::RGB8)), Some(36));
    assert_eq!(blob_output_len(&desc(WrImageFormat::RGBAF32)), Some(192));
    assert_eq!(blob_output_len(&desc(WrImageFormat::RG8)), Some(24));
    assert_eq!(blob_output_len(&desc(WrImageFormat::Invalid)), None);
}

#[test]
fn descriptor_stride_zero_means_packed() {
    let d = WrImageDescriptor { format: WrImageFormat::BGRA8, width: 4, height: 4, stride: 0, is_opaque: true };
    assert_eq!(d.to_descriptor().stride, None);
    let e = WrImageDescriptor { stride: 32, ..d };
    assert_eq!(e.to_descriptor().stride, Some(32));
    assert_eq!(e.to_descriptor().offset, 0);
}

#[test]
fn lock_unlock_release_protocol() {
    let mut bridge = ExternalImageBridge::new();
    let id = WrExternalImageId(0x1_0000_0002);
    let other = WrExternalImageId(2);
    assert_eq!(bridge.unlock(id), Err(BridgeError::NotLocked));
    assert_eq!(bridge.lock(id), Ok(()));
    assert_eq!(bridge.lock(id), Err(BridgeError::AlreadyLocked));
    assert_eq!(bridge.state(other), LockState::Unlocked);
    assert_eq!(bridge.release(id), Err(BridgeError::AlreadyLocked));
    assert_eq!(bridge.unlock(id), Ok(()));
    assert_eq!(bridge.release(id), Ok(()));
    assert_eq!(bridge.lock(id), Err(BridgeError::Released));
    assert_eq!(bridge.release(id), Err(BridgeError::Released));
    assert_eq!(bridge.lock(other), Ok(()));
}
