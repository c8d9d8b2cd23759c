//! The display list: a command stream of tagged records plus the side-tables
//! (glyph runs, gradient stops, complex clip shapes, filters) that commands
//! refer to by contiguous ranges.

use vstd::prelude::*;
use crate::geom::{WrBorderRadius, WrColor, WrPoint, WrRect, WrSize};
use crate::record::WireRecord;
use crate::wire::{decode_i32, encode_i32, i32_of_word, lemma_i32_word, word_of_i32};

verus! {

/// The words of a rectangle.
pub open spec fn rect_words(r: WrRect) -> Seq<u32> {
    seq![word_of_i32(r.x), word_of_i32(r.y), word_of_i32(r.width), word_of_i32(r.height)]
}

/// The rectangle stored in the four words of `ws` from `p` on.
pub open spec fn rect_at(ws: Seq<u32>, p: int) -> WrRect {
    WrRect {
        x: i32_of_word(ws[p]),
        y: i32_of_word(ws[p + 1]),
        width: i32_of_word(ws[p + 2]),
        height: i32_of_word(ws[p + 3]),
    }
}

/// The words of a size.
pub open spec fn size_words(s: WrSize) -> Seq<u32> {
    seq![word_of_i32(s.width), word_of_i32(s.height)]
}

/// The size stored in the two words of `ws` from `p` on.
pub open spec fn size_at(ws: Seq<u32>, p: int) -> WrSize {
    WrSize { width: i32_of_word(ws[p]), height: i32_of_word(ws[p + 1]) }
}

/// The words of a colour: one channel per word.
pub open spec fn color_words(c: WrColor) -> Seq<u32> {
    seq![c.r as u32, c.g as u32, c.b as u32, c.a as u32]
}

/// Whether the four words of `ws` from `p` on each hold one colour channel.
pub open spec fn color_fits(ws: Seq<u32>, p: int) -> bool {
    ws[p] < 256 && ws[p + 1] < 256 && ws[p + 2] < 256 && ws[p + 3] < 256
}

/// The colour stored in the four words of `ws` from `p` on.
pub open spec fn color_at(ws: Seq<u32>, p: int) -> WrColor {
    WrColor { r: ws[p] as u8, g: ws[p + 1] as u8, b: ws[p + 2] as u8, a: ws[p + 3] as u8 }
}

pub fn put_rect(r: &WrRect, out: &mut Vec<u32>)
    ensures
        final(out)@ == old(out)@ + rect_words(*r),
{
    out.push(encode_i32(r.x));
    out.push(encode_i32(r.y));
    out.push(encode_i32(r.width));
    out.push(encode_i32(r.height));
    assert(final(out)@ =~= old(out)@ + rect_words(*r));
}

pub fn take_rect(ws: &Vec<u32>, p: usize) -> (r: WrRect)
    requires
        p + 4 <= ws.len(),
    ensures
        r == rect_at(ws@, p as int),
{
    WrRect {
        x: decode_i32(ws[p]),
        y: decode_i32(ws[p + 1]),
        width: decode_i32(ws[p + 2]),
        height: decode_i32(ws[p + 3]),
    }
}

pub fn put_size(s: &WrSize, out: &mut Vec<u32>)
    ensures
        final(out)@ == old(out)@ + size_words(*s),
{
    out.push(encode_i32(s.width));
    out.push(encode_i32(s.height));
    assert(final(out)@ =~= old(out)@ + size_words(*s));
}

pub fn put_color(c: &WrColor, out: &mut Vec<u32>)
    ensures
        final(out)@ == old(out)@ + color_words(*c),
{
    out.push(c.r as u32);
    out.push(c.g as u32);
    out.push(c.b as u32);
    out.push(c.a as u32);
    assert(final(out)@ =~= old(out)@ + color_words(*c));
}

pub fn take_color(ws: &Vec<u32>, p: usize) -> (r: Option<WrColor>)
    requires
        p + 4 <= ws.len(),
    ensures
        r == (if color_fits(ws@, p as int) {
            Some(color_at(ws@, p as int))
        } else {
            None
        }),
{
    if ws[p] < 256 && ws[p + 1] < 256 && ws[p + 2] < 256 && ws[p + 3] < 256 {
        Some(
            WrColor {
                r: ws[p] as u8,
                g: ws[p + 1] as u8,
                b: ws[p + 2] as u8,
                a: ws[p + 3] as u8,
            },
        )
    } else {
        None
    }
}

/// One glyph of a text run: its index in the font and its origin.
#[derive(Clone, Copy, Debug, PartialEq, Eq, Structural)]
pub struct WrGlyphInstance {
    pub index: u32,
    pub point: WrPoint,
}

/// One stop of a gradient: its offset along the gradient (16.16 fixed
/// point) and its colour.
#[derive(Clone, Copy, Debug, PartialEq, Eq, Structural)]
pub struct WrGradientStop {
    pub offset: i32,
    pub color: WrColor,
}

/// A rounded rectangle that a clip region intersects with its main rect.
#[derive(Clone, Copy, Debug, PartialEq, Eq, Structural)]
pub struct WrComplexClipRegion {
    pub rect: WrRect,
    pub radii: WrBorderRadius,
}

/// A filter applied to a stacking context.
#[derive(Clone, Copy, Debug, PartialEq, Eq, Structural)]
pub enum WrFilterOp {
    /// Multiplies the context's alpha by `alpha / 255`.
    Opacity(u8),
}

impl WireRecord for WrGlyphInstance {
    open spec fn spec_width() -> nat {
        3
    }

    open spec fn spec_words(&self) -> Seq<u32> {
        seq![self.index, word_of_i32(self.point.x), word_of_i32(self.point.y)]
    }

    open spec fn spec_from_words(ws: Seq<u32>) -> Option<Self> {
        if ws.len() == 3 {
            Some(
                WrGlyphInstance {
                    index: ws[0],
                    point: WrPoint { x: i32_of_word(ws[1]), y: i32_of_word(ws[2]) },
                },
            )
        } else {
            None
        }
    }

    proof fn lemma_record_round_trip(&self) {
        lemma_i32_word(self.point.x);
        lemma_i32_word(self.point.y);
    }

    fn width() -> (n: usize) {
        3
    }

    fn put_words(&self, out: &mut Vec<u32>) {
        out.push(self.index);
        out.push(encode_i32(self.point.x));
        out.push(encode_i32(self.point.y));
        assert(final(out)@ =~= old(out)@ + self.spec_words());
    }

    fn take_words(ws: &Vec<u32>, pos: usize) -> (r: Option<Self>) {
        let g = WrGlyphInstance {
            index: ws[pos],
            point: WrPoint { x: decode_i32(ws[pos + 1]), y: decode_i32(ws[pos + 2]) },
        };
        Some(g)
    }
}

impl WireRecord for WrGradientStop {
    open spec fn spec_width() -> nat {
        5
    }

    open spec fn spec_words(&self) -> Seq<u32> {
        seq![word_of_i32(self.offset)] + color_words(self.color)
    }

    open spec fn spec_from_words(ws: Seq<u32>) -> Option<Self> {
        if ws.len() == 5 && color_fits(ws, 1) {
            Some(WrGradientStop { offset: i32_of_word(ws[0]), color: color_at(ws, 1) })
        } else {
            None
        }
    }

    proof fn lemma_record_round_trip(&self) {
        lemma_i32_word(self.offset);
        let ws = self.spec_words();
        assert(color_at(ws, 1) == self.color);
    }

    fn width() -> (n: usize) {
        5
    }

    fn put_words(&self, out: &mut Vec<u32>) {
        out.push(encode_i32(self.offset));
        put_color(&self.color, out);
        assert(final(out)@ =~= old(out)@ + self.spec_words());
    }

    fn take_words(ws: &Vec<u32>, pos: usize) -> (r: Option<Self>) {
        let ghost sub = ws@.subrange(pos as int, pos + 5);
        match take_color(ws, pos + 1) {
            Some(color) => {
                assert(color_fits(sub, 1));
                Some(WrGradientStop { offset: decode_i32(ws[pos]), color })
            },
            None => {
                assert(!color_fits(sub, 1));
                None
            },
        }
    }
}

impl WireRecord for WrComplexClipRegion {
    open spec fn spec_width() -> nat {
        12
    }

    open spec fn spec_words(&self) -> Seq<u32> {
        rect_words(self.rect) + size_words(self.radii.top_left) + size_words(self.radii.top_right)
            + size_words(self.radii.bottom_left) + size_words(self.radii.bottom_right)
    }

    open spec fn spec_from_words(ws: Seq<u32>) -> Option<Self> {
        if ws.len() == 12 {
            Some(
                WrComplexClipRegion {
                    rect: rect_at(ws, 0),
                    radii: WrBorderRadius {
                        top_left: size_at(ws, 4),
                        top_right: size_at(ws, 6),
                        bottom_left: size_at(ws, 8),
                        bottom_right: size_at(ws, 10),
                    },
                },
            )
        } else {
            None
        }
    }

    proof fn lemma_record_round_trip(&self) {
        let ws = self.spec_words();
        lemma_i32_word(self.rect.x);
        lemma_i32_word(self.rect.y);
        lemma_i32_word(self.rect.width);
        lemma_i32_word(self.rect.height);
        lemma_i32_word(self.radii.top_left.width);
        lemma_i32_word(self.radii.top_left.height);
        lemma_i32_word(self.radii.top_right.width);
        lemma_i32_word(self.radii.top_right.height);
        lemma_i32_word(self.radii.bottom_left.width);
        lemma_i32_word(self.radii.bottom_left.height);
        lemma_i32_word(self.radii.bottom_right.width);
        lemma_i32_word(self.radii.bottom_right.height);
        assert(rect_at(ws, 0) == self.rect);
        assert(size_at(ws, 4) == self.radii.top_left);
        assert(size_at(ws, 6) == self.radii.top_right);
        assert(size_at(ws, 8) == self.radii.bottom_left);
        assert(size_at(ws, 10) == self.radii.bottom_right);
    }

    fn width() -> (n: usize) {
        12
    }

    fn put_words(&self, out: &mut Vec<u32>) {
        put_rect(&self.rect, out);
        put_size(&self.radii.top_left, out);
        put_size(&self.radii.top_right, out);
        put_size(&self.radii.bottom_left, out);
        put_size(&self.radii.bottom_right, out);
        assert(final(out)@ =~= old(out)@ + self.spec_words());
    }

    fn take_words(ws: &Vec<u32>, pos: usize) -> (r: Option<Self>) {
        let size = |p: usize| -> (s: WrSize)
            requires
                p + 2 <= ws.len(),
            ensures
                s == size_at(ws@, p as int),
            { WrSize { width: decode_i32(ws[p]), height: decode_i32(ws[p + 1]) } };
        let c = WrComplexClipRegion {
            rect: take_rect(ws, pos),
            radii: WrBorderRadius {
                top_left: size(pos + 4),
                top_right: size(pos + 6),
                bottom_left: size(pos + 8),
                bottom_right: size(pos + 10),
            },
        };
        let ghost sub = ws@.subrange(pos as int, pos + 12);
        assert(rect_at(sub, 0) == c.rect);
        assert(size_at(sub, 4) == c.radii.top_left);
        assert(size_at(sub, 6) == c.radii.top_right);
        assert(size_at(sub, 8) == c.radii.bottom_left);
        assert(size_at(sub, 10) == c.radii.bottom_right);
        Some(c)
    }
}

impl WireRecord for WrFilterOp {
    open spec fn spec_width() -> nat {
        2
    }

    open spec fn spec_words(&self) -> Seq<u32> {
        match self {
            WrFilterOp::Opacity(a) => seq![0u32, *a as u32],
        }
    }

    open spec fn spec_from_words(ws: Seq<u32>) -> Option<Self> {
        if ws.len() == 2 && ws[0] == 0 && ws[1] < 256 {
            Some(WrFilterOp::Opacity(ws[1] as u8))
        } else {
            None
        }
    }

    proof fn lemma_record_round_trip(&self) {
    }

    fn width() -> (n: usize) {
        2
    }

    fn put_words(&self, out: &mut Vec<u32>) {
        match self {
            WrFilterOp::Opacity(a) => {
                out.push(0);
                out.push(*a as u32);
            },
        }
        assert(final(out)@ =~= old(out)@ + self.spec_words());
    }

    fn take_words(ws: &Vec<u32>, pos: usize) -> (r: Option<Self>) {
        let ghost sub = ws@.subrange(pos as int, pos + 2);
        if ws[pos] == 0 && ws[pos + 1] < 256 {
            Some(WrFilterOp::Opacity(ws[pos + 1] as u8))
        } else {
            None
        }
    }
}

/// What a command of the command stream does.
#[derive(Clone, Copy, Debug, PartialEq, Eq, Structural)]
pub enum ItemKind {
    Rect,
    Image,
    Text,
    Border,
    BoxShadow,
    Gradient,
    RadialGradient,
    Iframe,
    PushStackingContext,
    PopStackingContext,
    PushScrollLayer,
    PopScrollLayer,
}

/// The tag that stands for `k` on the wire.
pub open spec fn kind_tag(k: ItemKind) -> u32 {
    match k {
        ItemKind::Rect => 0,
        ItemKind::Image => 1,
        ItemKind::Text => 2,
        ItemKind::Border => 3,
        ItemKind::BoxShadow => 4,
        ItemKind::Gradient => 5,
        ItemKind::RadialGradient => 6,
        ItemKind::Iframe => 7,
        ItemKind::PushStackingContext => 8,
        ItemKind::PopStackingContext => 9,
        ItemKind::PushScrollLayer => 10,
        ItemKind::PopScrollLayer => 11,
    }
}

/// The kind that tag `t` stands for, if any.
pub open spec fn kind_of_tag(t: u32) -> Option<ItemKind> {
    if t == 0 {
        Some(ItemKind::Rect)
    } else if t == 1 {
        Some(ItemKind::Image)
    } else if t == 2 {
        Some(ItemKind::Text)
    } else if t == 3 {
        Some(ItemKind::Border)
    } else if t == 4 {
        Some(ItemKind::BoxShadow)
    } else if t == 5 {
        Some(ItemKind::Gradient)
    } else if t == 6 {
        Some(ItemKind::RadialGradient)
    } else if t == 7 {
        Some(ItemKind::Iframe)
    } else if t == 8 {
        Some(ItemKind::PushStackingContext)
    } else if t == 9 {
        Some(ItemKind::PopStackingContext)
    } else if t == 10 {
        Some(ItemKind::PushScrollLayer)
    } else if t == 11 {
        Some(ItemKind::PopScrollLayer)
    } else {
        None
    }
}

pub proof fn lemma_kind_tag(k: ItemKind)
    ensures
        kind_of_tag(kind_tag(k)) == Some(k),
{
}

impl ItemKind {
    pub fn tag(&self) -> (t: u32)
        ensures
            t == kind_tag(*self),
    {
        match self {
            ItemKind::Rect => 0,
            ItemKind::Image => 1,
            ItemKind::Text => 2,
            ItemKind::Border => 3,
            ItemKind::BoxShadow => 4,
            ItemKind::Gradient => 5,
            ItemKind::RadialGradient => 6,
            ItemKind::Iframe => 7,
            ItemKind::PushStackingContext => 8,
            ItemKind::PopStackingContext => 9,
            ItemKind::PushScrollLayer => 10,
            ItemKind::PopScrollLayer => 11,
            }
    }

    pub fn from_tag(t: u32) -> (k: Option<ItemKind>)
        ensures
            k == kind_of_tag(t),
    {
        match t {
            0 => Some(ItemKind::Rect),
            1 => Some(ItemKind::Image),
            2 => Some(ItemKind::Text),
            3 => Some(ItemKind::Border),
            4 => Some(ItemKind::BoxShadow),
            5 => Some(ItemKind::Gradient),
            6 => Some(ItemKind::RadialGradient),
            7 => Some(ItemKind::Iframe),
            8 => Some(ItemKind::PushStackingContext),
            9 => Some(ItemKind::PopStackingContext),
            10 => Some(ItemKind::PushScrollLayer),
            11 => Some(ItemKind::PopScrollLayer),
            _ => None,
        }
    }
}

/// A contiguous range of a side-table.
#[derive(Clone, Copy, Debug, PartialEq, Eq, Structural)]
pub struct WrItemRange {
    pub start: usize,
    pub length: usize,
}

/// One command: its kind and its operands, opaque to the codec.
#[derive(Clone, Debug)]
pub struct DisplayItem {
    pub kind: ItemKind,
    pub operands: Vec<u32>,
}

/// A command as a mathematical value.
pub struct ItemView {
    pub kind: ItemKind,
    pub operands: Seq<u32>,
}

impl View for DisplayItem {
    type V = ItemView;

    open spec fn view(&self) -> ItemView {
        ItemView { kind: self.kind, operands: self.operands@ }
    }
}

/// An immutable display list: the command stream and its side-tables.
#[derive(Clone, Debug)]
pub struct BuiltDisplayList {
    pub items: Vec<DisplayItem>,
    pub glyphs: Vec<WrGlyphInstance>,
    pub stops: Vec<WrGradientStop>,
    pub clips: Vec<WrComplexClipRegion>,
    pub filters: Vec<WrFilterOp>,
}

/// A display list as a mathematical value.
pub struct DisplayListView {
    pub items: Seq<ItemView>,
    pub glyphs: Seq<WrGlyphInstance>,
    pub stops: Seq<WrGradientStop>,
    pub clips: Seq<WrComplexClipRegion>,
    pub filters: Seq<WrFilterOp>,
}

impl View for BuiltDisplayList {
    type V = DisplayListView;

    open spec fn view(&self) -> DisplayListView {
        DisplayListView {
            items: self.items@.map_values(|i: DisplayItem| i@),
            glyphs: self.glyphs@,
            stops: self.stops@,
            clips: self.clips@,
            filters: self.filters@,
        }
    }
}

impl DisplayListView {
    /// The empty display list.
    pub open spec fn empty() -> DisplayListView {
        DisplayListView {
            items: Seq::empty(),
            glyphs: Seq::empty(),
            stops: Seq::empty(),
            clips: Seq::empty(),
            filters: Seq::empty(),
        }
    }
}

impl BuiltDisplayList {
    pub fn new() -> (l: BuiltDisplayList)
        ensures
            l@ == DisplayListView::empty(),
    {
        let l = BuiltDisplayList {
            items: Vec::new(),
            glyphs: Vec::new(),
            stops: Vec::new(),
            clips: Vec::new(),
            filters: Vec::new(),
        };
        assert(l@.items =~= Seq::<ItemView>::empty());
        l
    }

    pub fn item_count(&self) -> (n: usize)
        ensures
            n == self@.items.len(),
    {
        self.items.len()
    }

    pub fn item_kind(&self, i: usize) -> (k: ItemKind)
        requires
            i < self@.items.len(),
        ensures
            k == self@.items[i as int].kind,
    {
        self.items[i].kind
    }
}

} // verus!
