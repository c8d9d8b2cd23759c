//! Drawing styles that commands carry as operands.

use vstd::prelude::*;

verus! {

/// How an image is sampled when scaled.
#[derive(Clone, Copy, Debug, PartialEq, Eq, Structural)]
pub enum WrImageRendering {
    Auto,
    CrispEdges,
    Pixelated,
}

impl WrImageRendering {
    pub open spec fn spec_tag(&self) -> u32 {
        match self {
            WrImageRendering::Auto => 0,
            WrImageRendering::CrispEdges => 1,
            WrImageRendering::Pixelated => 2,
        }
    }

    pub fn tag(&self) -> (t: u32)
        ensures
            t == self.spec_tag(),
    {
        match self {
            WrImageRendering::Auto => 0,
            WrImageRendering::CrispEdges => 1,
            WrImageRendering::Pixelated => 2,
        }
    }
}
/// The line style of one side of a border.
#[derive(Clone, Copy, Debug, PartialEq, Eq, Structural)]
pub enum WrBorderStyle {
    NoStyle,
    Solid,
    Double,
    Dotted,
    Dashed,
    Hidden,
    Groove,
    Ridge,
    Inset,
    Outset,
}

impl WrBorderStyle {
    pub open spec fn spec_tag(&self) -> u32 {
        match self {
            WrBorderStyle::NoStyle => 0,
            WrBorderStyle::Solid => 1,
            WrBorderStyle::Double => 2,
            WrBorderStyle::Dotted => 3,
            WrBorderStyle::Dashed => 4,
            WrBorderStyle::Hidden => 5,
            WrBorderStyle::Groove => 6,
            WrBorderStyle::Ridge => 7,
            WrBorderStyle::Inset => 8,
            WrBorderStyle::Outset => 9,
        }
    }

    pub fn tag(&self) -> (t: u32)
        ensures
            t == self.spec_tag(),
    {
        match self {
            WrBorderStyle::NoStyle => 0,
            WrBorderStyle::Solid => 1,
            WrBorderStyle::Double => 2,
            WrBorderStyle::Dotted => 3,
            WrBorderStyle::Dashed => 4,
            WrBorderStyle::Hidden => 5,
            WrBorderStyle::Groove => 6,
            WrBorderStyle::Ridge => 7,
            WrBorderStyle::Inset => 8,
            WrBorderStyle::Outset => 9,
        }
    }
}
/// Which side of the box a shadow is drawn on.
#[derive(Clone, Copy, Debug, PartialEq, Eq, Structural)]
pub enum WrBoxShadowClipMode {
    NoClip,
    Outset,
    Inset,
}

impl WrBoxShadowClipMode {
    pub open spec fn spec_tag(&self) -> u32 {
        match self {
            WrBoxShadowClipMode::NoClip => 0,
            WrBoxShadowClipMode::Outset => 1,
            WrBoxShadowClipMode::Inset => 2,
        }
    }

    pub fn tag(&self) -> (t: u32)
        ensures
            t == self.spec_tag(),
    {
        match self {
            WrBoxShadowClipMode::NoClip => 0,
            WrBoxShadowClipMode::Outset => 1,
            WrBoxShadowClipMode::Inset => 2,
        }
    }
}
/// How a gradient continues past its end stops.
#[derive(Clone, Copy, Debug, PartialEq, Eq, Structural)]
pub enum WrGradientExtendMode {
    Clamp,
    Repeat,
}

impl WrGradientExtendMode {
    pub open spec fn spec_tag(&self) -> u32 {
        match self {
            WrGradientExtendMode::Clamp => 0,
            WrGradientExtendMode::Repeat => 1,
        }
    }

    pub fn tag(&self) -> (t: u32)
        ensures
            t == self.spec_tag(),
    {
        match self {
            WrGradientExtendMode::Clamp => 0,
            WrGradientExtendMode::Repeat => 1,
        }
    }
}
/// How a border image fills an edge.
#[derive(Clone, Copy, Debug, PartialEq, Eq, Structural)]
pub enum WrRepeatMode {
    Stretch,
    Repeat,
    Round,
    Space,
}

impl WrRepeatMode {
    pub open spec fn spec_tag(&self) -> u32 {
        match self {
            WrRepeatMode::Stretch => 0,
            WrRepeatMode::Repeat => 1,
            WrRepeatMode::Round => 2,
            WrRepeatMode::Space => 3,
        }
    }

    pub fn tag(&self) -> (t: u32)
        ensures
            t == self.spec_tag(),
    {
        match self {
            WrRepeatMode::Stretch => 0,
            WrRepeatMode::Repeat => 1,
            WrRepeatMode::Round => 2,
            WrRepeatMode::Space => 3,
        }
    }
}
} // verus!
