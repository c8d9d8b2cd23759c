//! Image and font resources, and the descriptors that say how to read an
//! image's bytes.

use vstd::prelude::*;
use crate::ids::WrExternalImageId;

verus! {

/// The pixel format of an image.
#[derive(Clone, Copy, Debug, PartialEq, Eq, Structural)]
pub enum WrImageFormat {
    Invalid,
    A8,
    RGB8,
    BGRA8,
    RGBAF32,
    RG8,
}

impl WrImageFormat {
    pub open spec fn spec_bytes_per_pixel(&self) -> Option<u32> {
        match self {
            WrImageFormat::Invalid => None,
            WrImageFormat::A8 => Some(1),
            WrImageFormat::RGB8 => Some(3),
            WrImageFormat::BGRA8 => Some(4),
            WrImageFormat::RGBAF32 => Some(16),
            WrImageFormat::RG8 => Some(2),
        }
    }

    /// The size of one pixel, or `None` for the invalid format.
    pub fn bytes_per_pixel(&self) -> (r: Option<u32>)
        ensures
            r == self.spec_bytes_per_pixel(),
    {
        match self {
            WrImageFormat::Invalid => None,
            WrImageFormat::A8 => Some(1),
            WrImageFormat::RGB8 => Some(3),
            WrImageFormat::BGRA8 => Some(4),
            WrImageFormat::RGBAF32 => Some(16),
            WrImageFormat::RG8 => Some(2),
        }
    }
}

/// How the producer describes an image; a stride of zero means rows are
/// packed.
#[derive(Clone, Copy, Debug, PartialEq, Eq, Structural)]
pub struct WrImageDescriptor {
    pub format: WrImageFormat,
    pub width: u32,
    pub height: u32,
    pub stride: u32,
    pub is_opaque: bool,
}

/// How the renderer reads an image's bytes.
#[derive(Clone, Copy, Debug, PartialEq, Eq, Structural)]
pub struct ImageDescriptor {
    pub format: WrImageFormat,
    pub width: u32,
    pub height: u32,
    pub stride: Option<u32>,
    pub offset: u32,
    pub is_opaque: bool,
}

impl WrImageDescriptor {
    pub open spec fn spec_to_descriptor(&self) -> ImageDescriptor {
        ImageDescriptor {
            format: self.format,
            width: self.width,
            height: self.height,
            stride: if self.stride != 0 {
                Some(self.stride)
            } else {
                None
            },
            offset: 0,
            is_opaque: self.is_opaque,
        }
    }

    pub fn to_descriptor(&self) -> (d: ImageDescriptor)
        ensures
            d == self.spec_to_descriptor(),
    {
        ImageDescriptor {
            format: self.format,
            width: self.width,
            height: self.height,
            stride: if self.stride != 0 {
                Some(self.stride)
            } else {
                None
            },
            offset: 0,
            is_opaque: self.is_opaque,
        }
    }
}

/// What kind of producer-owned storage an external image lives in.
#[derive(Clone, Copy, Debug, PartialEq, Eq, Structural)]
pub enum ExternalImageType {
    Texture2DHandle,
    ExternalBuffer,
}

/// The content of an image resource.
#[derive(Clone, Debug)]
pub enum ImageData {
    /// Pixels, laid out as the descriptor says.
    Raw(Vec<u8>),
    /// Encoded vector data, rasterized on demand.
    Blob(Vec<u8>),
    /// A texture or buffer that the producer owns.
    External(WrExternalImageId, ExternalImageType),
}

/// An image as the renderer holds it.
#[derive(Clone, Debug)]
pub struct ImageResource {
    pub descriptor: ImageDescriptor,
    pub data: ImageData,
}

} // verus!
