//! The `border` and `border-<side>` shorthands: a colour, a line style and
//! a width, in any order, each at most once, at least one of them.

use vstd::prelude::*;
use crate::geom::WrSideOffsets2D;
use crate::ids::ImageKey;
use crate::style::{WrBorderStyle, WrRepeatMode};

verus! {

/// A specified colour.
#[derive(Clone, Copy, Debug, PartialEq, Eq, Structural)]
pub enum CssColor {
    CurrentColor,
    Rgba(u8, u8, u8, u8),
}

/// A specified border width; lengths are in app units.
#[derive(Clone, Copy, Debug, PartialEq, Eq, Structural)]
pub enum BorderWidth {
    Thin,
    Medium,
    Thick,
    Length(i32),
}

/// One component value of a declaration, as the tokenizer classified it.
#[derive(Clone, Copy, Debug, PartialEq, Eq, Structural)]
pub enum Component {
    Color(CssColor),
    Style(WrBorderStyle),
    Width(BorderWidth),
    /// Anything that is none of the above.
    Other,
}

/// A cursor over the component values of one declaration.
pub struct Parser {
    pub components: Vec<Component>,
    pub position: usize,
}

impl Parser {
    pub fn new(components: Vec<Component>) -> (p: Parser)
        ensures
            p.components@ == components@,
            p.position == 0,
    {
        Parser { components, position: 0 }
    }

    pub fn is_exhausted(&self) -> (r: bool)
        ensures
            r == (self.position >= self.components@.len()),
    {
        self.position >= self.components.len()
    }
}

/// What the greedy loop has read so far.
pub struct BorderParts {
    pub color: Option<CssColor>,
    pub style: Option<WrBorderStyle>,
    pub width: Option<BorderWidth>,
}

/// Reads components from `pos` on while each fills a part not yet filled;
/// returns the parts and the position of the first component not read.
pub open spec fn read_parts(cs: Seq<Component>, pos: int, parts: BorderParts) -> (BorderParts, int)
    decreases cs.len() - pos,
{
    if pos < 0 || pos >= cs.len() {
        (parts, pos)
    } else {
        match cs[pos] {
            Component::Color(c) => if parts.color is None {
                read_parts(cs, pos + 1, BorderParts { color: Some(c), ..parts })
            } else {
                (parts, pos)
            },
            Component::Style(s) => if parts.style is None {
                read_parts(cs, pos + 1, BorderParts { style: Some(s), ..parts })
            } else {
                (parts, pos)
            },
            Component::Width(w) => if parts.width is None {
                read_parts(cs, pos + 1, BorderParts { width: Some(w), ..parts })
            } else {
                (parts, pos)
            },
            Component::Other => (parts, pos),
        }
    }
}

/// The parts read from `pos` on, starting with none.
pub open spec fn border_parts(cs: Seq<Component>, pos: int) -> (BorderParts, int) {
    read_parts(cs, pos, BorderParts { color: None, style: None, width: None })
}

/// The colour, style and width of a border shorthand read from `pos` on,
/// with `currentcolor`, `none` and `medium` for what it leaves out; `None`
/// when it names none of them.
pub open spec fn spec_parse_border(cs: Seq<Component>, pos: int) -> Option<(CssColor, WrBorderStyle, BorderWidth)> {
    let parts = border_parts(cs, pos).0;
    if parts.color is None && parts.style is None && parts.width is None {
        None
    } else {
        Some((
            match parts.color { Some(c) => c, None => CssColor::CurrentColor },
            match parts.style { Some(s) => s, None => WrBorderStyle::NoStyle },
            match parts.width { Some(w) => w, None => BorderWidth::Medium },
        ))
    }
}

/// Parses a colour, a line style and a width in any order, each at most
/// once; leaves the cursor after them, or where it was when none is there.
pub fn parse_border(input: &mut Parser) -> (r: Result<(CssColor, WrBorderStyle, BorderWidth), ()>)
    requires
        old(input).position <= old(input).components@.len(),
    ensures
        final(input).components@ == old(input).components@,
        match spec_parse_border(old(input).components@, old(input).position as int) {
            Some(v) => r == Ok::<(CssColor, WrBorderStyle, BorderWidth), ()>(v)
                && final(input).position == border_parts(old(input).components@, old(input).position as int).1,
            None => r == Err::<(CssColor, WrBorderStyle, BorderWidth), ()>(()) && final(input).position == old(input).position,
        },
{
    let start = input.position;
    let ghost cs = input.components@;
    let mut color: Option<CssColor> = None;
    let mut style: Option<WrBorderStyle> = None;
    let mut width: Option<BorderWidth> = None;
    let mut pos = start;
    loop
        invariant
            start <= pos <= cs.len(),
            cs == input.components@,
            input.position == start,
            border_parts(cs, start as int) == read_parts(cs, pos as int, BorderParts { color, style, width }),
            color is None && style is None && width is None ==> pos == start,
        ensures
            start <= pos <= cs.len(),
            cs == input.components@,
            input.position == start,
            border_parts(cs, start as int) == read_parts(cs, pos as int, BorderParts { color, style, width }),
            color is None && style is None && width is None ==> pos == start,
            read_parts(cs, pos as int, BorderParts { color, style, width }) == (BorderParts { color, style, width }, pos as int),
        decreases cs.len() - pos,
    {
        if pos >= input.components.len() {
            assert(read_parts(cs, pos as int, BorderParts { color, style, width }) == (BorderParts { color, style, width }, pos as int));
            break;
        }
        match input.components[pos] {
            Component::Color(c) => {
                if color.is_none() {
                    color = Some(c);
                    pos = pos + 1;
                    continue;
                }
            },
            Component::Style(s) => {
                if style.is_none() {
                    style = Some(s);
                    pos = pos + 1;
                    continue;
                }
            },
            Component::Width(w) => {
                if width.is_none() {
                    width = Some(w);
                    pos = pos + 1;
                    continue;
                }
            },
            Component::Other => {},
        }
        assert(read_parts(cs, pos as int, BorderParts { color, style, width }) == (BorderParts { color, style, width }, pos as int));
        break;
    }
    if color.is_none() && style.is_none() && width.is_none() {
        return Err(());
    }
    input.position = pos;
    Ok((
        match color { Some(c) => c, None => CssColor::CurrentColor },
        match style { Some(s) => s, None => WrBorderStyle::NoStyle },
        match width { Some(w) => w, None => BorderWidth::Medium },
    ))
}

/// The longhands that a `border-<side>` shorthand sets.
#[derive(Clone, Copy, Debug, PartialEq, Eq, Structural)]
pub struct Longhands {
    pub color: CssColor,
    pub style: WrBorderStyle,
    pub width: BorderWidth,
}

/// Parses the value of a `border-<side>` shorthand.
pub fn parse_value(input: &mut Parser) -> (r: Result<Longhands, ()>)
    requires
        old(input).position <= old(input).components@.len(),
    ensures
        final(input).components@ == old(input).components@,
        match spec_parse_border(old(input).components@, old(input).position as int) {
            Some((color, style, width)) => r == Ok::<Longhands, ()>(Longhands { color, style, width })
                && final(input).position == border_parts(old(input).components@, old(input).position as int).1,
            None => r == Err::<Longhands, ()>(()) && final(input).position == old(input).position,
        },
{
    let (color, style, width) = parse_border(input)?;
    Ok(Longhands { color, style, width })
}

/// The `border-image` longhands.
#[derive(Clone, Copy, Debug, PartialEq, Eq, Structural)]
pub struct BorderImageLonghands {
    /// The image, if any.
    pub source: Option<ImageKey>,
    /// Inward offsets of the slices, in percent of the image.
    pub slice: WrSideOffsets2D,
    pub slice_fill: bool,
    /// Widths as multiples of the border width, in 16.16 fixed point.
    pub width: WrSideOffsets2D,
    /// Outsets as multiples of the border width, in 16.16 fixed point.
    pub outset: WrSideOffsets2D,
    pub repeat_horizontal: WrRepeatMode,
    pub repeat_vertical: WrRepeatMode,
}

/// The initial values of the `border-image` longhands: no image, slices at
/// 100%, width 1, outset 0, stretched.
pub open spec fn border_image_initial() -> BorderImageLonghands {
    BorderImageLonghands {
        source: None,
        slice: WrSideOffsets2D { top: 100, right: 100, bottom: 100, left: 100 },
        slice_fill: false,
        width: WrSideOffsets2D { top: 65536, right: 65536, bottom: 65536, left: 65536 },
        outset: WrSideOffsets2D { top: 0, right: 0, bottom: 0, left: 0 },
        repeat_horizontal: WrRepeatMode::Stretch,
        repeat_vertical: WrRepeatMode::Stretch,
    }
}

pub fn border_image_initial_value() -> (b: BorderImageLonghands)
    ensures
        b == border_image_initial(),
{
    BorderImageLonghands {
        source: None,
        slice: WrSideOffsets2D { top: 100, right: 100, bottom: 100, left: 100 },
        slice_fill: false,
        width: WrSideOffsets2D { top: 65536, right: 65536, bottom: 65536, left: 65536 },
        outset: WrSideOffsets2D { top: 0, right: 0, bottom: 0, left: 0 },
        repeat_horizontal: WrRepeatMode::Stretch,
        repeat_vertical: WrRepeatMode::Stretch,
    }
}

/// The longhands that the `border` shorthand sets: one set per side, and
/// the `border-image` longhands, which it resets.
#[derive(Clone, Copy, Debug, PartialEq, Eq, Structural)]
pub struct BorderLonghands {
    pub top: Longhands,
    pub right: Longhands,
    pub bottom: Longhands,
    pub left: Longhands,
    pub image: BorderImageLonghands,
}

/// Parses the value of the `border` shorthand: one colour, style and width
/// for all four sides, with `border-image` reset to its initial value.
pub fn parse_border_shorthand(input: &mut Parser) -> (r: Result<BorderLonghands, ()>)
    requires
        old(input).position <= old(input).components@.len(),
    ensures
        final(input).components@ == old(input).components@,
        match spec_parse_border(old(input).components@, old(input).position as int) {
            Some((color, style, width)) => {
                let side = Longhands { color, style, width };
                r == Ok::<BorderLonghands, ()>(
                    BorderLonghands { top: side, right: side, bottom: side, left: side, image: border_image_initial() },
                )
                    && final(input).position == border_parts(old(input).components@, old(input).position as int).1
            },
            None => r == Err::<BorderLonghands, ()>(()) && final(input).position == old(input).position,
        },
{
    let side = parse_value(input)?;
    Ok(BorderLonghands { top: side, right: side, bottom: side, left: side, image: border_image_initial_value() })
}

/// What the `border` shorthand serializes from its longhands: the common
/// side when all four sides agree, nothing otherwise.
pub fn border_shorthand_value(b: &BorderLonghands) -> (r: Option<Longhands>)
    ensures
        r == (if b.top == b.right && b.right == b.bottom && b.bottom == b.left {
            Some(b.top)
        } else {
            None
        }),
{
    let all_equal = b.top.width == b.right.width && b.right.width == b.bottom.width
        && b.bottom.width == b.left.width && b.top.style == b.right.style && b.right.style
        == b.bottom.style && b.bottom.style == b.left.style && b.top.color == b.right.color
        && b.right.color == b.bottom.color && b.bottom.color == b.left.color;
    if all_equal {
        Some(b.top)
    } else {
        None
    }
}

} // verus!
