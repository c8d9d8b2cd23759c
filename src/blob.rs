//! The blob-image cache: rasterization outcomes for vector images, stored
//! at request and handed out, once, at resolve.

use vstd::prelude::*;
use crate::ids::ImageKey;
use crate::resources::WrImageFormat;
use crate::table::{Key, KeyTable};

verus! {

/// A pending rasterization: the size and format of the pixels wanted.
#[derive(Clone, Copy, Debug, PartialEq, Eq, Structural)]
pub struct BlobImageDescriptor {
    pub width: u32,
    pub height: u32,
    pub format: WrImageFormat,
}

/// The pixels of a rasterized blob image.
#[derive(Clone, Debug)]
pub struct RasterizedBlobImage {
    pub width: u32,
    pub height: u32,
    pub data: Vec<u8>,
}

#[derive(Clone, Debug)]
pub enum BlobImageError {
    Oom,
    /// No outcome is stored for the key.
    InvalidKey,
    Other(String),
}

pub type BlobImageResult = Result<RasterizedBlobImage, BlobImageError>;

/// A request or a resolve of a blob image.
#[derive(Clone, Copy, Debug, PartialEq, Eq, Structural)]
pub enum BlobOp {
    Request(ImageKey),
    Resolve(ImageKey),
}

pub open spec fn image_key(k: ImageKey) -> Key {
    (k.0, k.1)
}

/// The key that `op` is about.
pub open spec fn op_key(op: BlobOp) -> ImageKey {
    match op {
        BlobOp::Request(k) => k,
        BlobOp::Resolve(k) => k,
    }
}

/// Whether the last operation on `k` in `ops` is a request.
pub open spec fn requested_last(ops: Seq<BlobOp>, k: ImageKey) -> bool
    decreases ops.len(),
{
    if ops.len() == 0 {
        false
    } else if op_key(ops.last()) == k {
        ops.last() is Request
    } else {
        requested_last(ops.drop_last(), k)
    }
}

/// The size of the output buffer for a rasterization: width times height
/// times the format's bytes per pixel; `None` for the invalid format or a
/// size that does not fit in memory.
pub open spec fn spec_output_len(d: BlobImageDescriptor) -> Option<usize> {
    match d.format.spec_bytes_per_pixel() {
        None => None,
        Some(bpp) => if d.width as int * d.height as int * bpp as int <= usize::MAX {
            Some((d.width as int * d.height as int * bpp as int) as usize)
        } else {
            None
        },
    }
}

pub fn blob_output_len(d: &BlobImageDescriptor) -> (r: Option<usize>)
    ensures
        r == spec_output_len(*d),
{
    match d.format.bytes_per_pixel() {
        None => None,
        Some(bpp) => {
            proof {
                assert(d.width as int * d.height as int <= 0xffff_ffff * 0xffff_ffff) by (nonlinear_arith)
                    requires
                        d.width <= 0xffff_ffff,
                        d.height <= 0xffff_ffff,
                ;
                assert(d.width as int * d.height as int * bpp as int <= 0xffff_ffff * 0xffff_ffff * 16) by (nonlinear_arith)
                    requires
                        d.width as int * d.height as int <= 0xffff_ffff * 0xffff_ffff,
                        d.width as int * d.height as int >= 0,
                        bpp <= 16,
                ;
            }
            let n: u128 = d.width as u128 * d.height as u128 * bpp as u128;
            if n <= usize::MAX as u128 {
                Some(n as usize)
            } else {
                None
            }
        },
    }
}

/// The outcome of a rasterization into `output`: its pixels when the
/// rasterizer reported success, an error otherwise.
pub fn render_blob_image(descriptor: &BlobImageDescriptor, rasterized: bool, output: Vec<u8>) -> (r: BlobImageResult)
    ensures
        rasterized <==> r is Ok,
        rasterized ==> r->Ok_0.width == descriptor.width && r->Ok_0.height == descriptor.height && r->Ok_0.data@ == output@,
        !rasterized ==> r->Err_0 is Other,
{
    if rasterized {
        Ok(RasterizedBlobImage { width: descriptor.width, height: descriptor.height, data: output })
    } else {
        Err(BlobImageError::Other(String::from_str("rasterization failed")))
    }
}

/// Rasterization outcomes keyed by image.
pub struct Moz2dImageRenderer {
    pub images: KeyTable<BlobImageResult>,
    /// Every request and resolve so far, oldest first.
    pub history: Ghost<Seq<BlobOp>>,
}

impl Moz2dImageRenderer {
    pub open spec fn wf(&self) -> bool {
        &&& self.images.wf()
        &&& forall|k: ImageKey| #[trigger] self.images.view().contains_key(image_key(k)) <==> requested_last(self.history@, k)
    }

    pub fn new() -> (r: Moz2dImageRenderer)
        ensures
            r.wf(),
            r.history@ == Seq::<BlobOp>::empty(),
            r.images.view().is_empty(),
    {
        Moz2dImageRenderer { images: KeyTable::new(), history: Ghost(Seq::empty()) }
    }

    /// Stores the outcome of rasterizing `key`, replacing one that was never
    /// resolved.
    pub fn request_blob_image(&mut self, key: ImageKey, result: BlobImageResult)
        requires
            old(self).wf(),
        ensures
            final(self).wf(),
            final(self).history@ == old(self).history@.push(BlobOp::Request(key)),
            final(self).images.view() == old(self).images.view().insert(image_key(key), result),
    {
        self.images.set((key.0, key.1), result);
        self.history = Ghost(self.history@.push(BlobOp::Request(key)));
        assert forall|k: ImageKey| #[trigger] self.images.view().contains_key(image_key(k)) <==> requested_last(self.history@, k) by {
            assert(self.history@.drop_last() =~= old(self).history@);
            if k != key {
                assert(image_key(k) != image_key(key));
            }
        }
    }

    /// Removes and returns the outcome stored for `key`; `InvalidKey` unless
    /// the last operation on `key` was a request.
    pub fn resolve_blob_image(&mut self, key: ImageKey) -> (r: BlobImageResult)
        requires
            old(self).wf(),
        ensures
            final(self).wf(),
            final(self).history@ == old(self).history@.push(BlobOp::Resolve(key)),
            final(self).images.view() == old(self).images.view().remove(image_key(key)),
            !requested_last(old(self).history@, key) ==> r matches Err(BlobImageError::InvalidKey),
            requested_last(old(self).history@, key) ==> r == old(self).images.view()[image_key(key)],
    {
        let r = match self.images.remove((key.0, key.1)) {
            Some(result) => result,
            None => Err(BlobImageError::InvalidKey),
        };
        self.history = Ghost(self.history@.push(BlobOp::Resolve(key)));
        assert forall|k: ImageKey| #[trigger] self.images.view().contains_key(image_key(k)) <==> requested_last(self.history@, k) by {
            assert(self.history@.drop_last() =~= old(self).history@);
            if k != key {
                assert(image_key(k) != image_key(key));
            }
        }
        r
    }
}

} // verus!
