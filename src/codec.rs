//! The display-list wire format: a flat byte buffer and a small descriptor.
//!
//! The buffer holds the command stream followed by the glyph, gradient-stop,
//! complex-clip and filter tables, as words of four little-endian bytes. A
//! command is its kind's tag, its operand count and its operands. The
//! descriptor gives the byte length of each section and the record count of
//! each table.

use vstd::prelude::*;
use crate::display_list::{
    BuiltDisplayList, DisplayItem, DisplayListView, ItemKind, ItemView, WrComplexClipRegion,
    WrFilterOp, WrGlyphInstance, WrGradientStop, kind_of_tag, kind_tag, lemma_kind_tag,
};
use crate::record::{
    lemma_table_round_trip, lemma_table_words_len, put_table, table_from_words,
    table_words, take_table,
};
use crate::wire::{
    bytes_of_words, lemma_bytes_of_words_len, lemma_words_bytes_round_trip, put_words_as_bytes,
    words_from_bytes, words_of_bytes,
};

verus! {

/// Lengths and counts that locate each section of an encoded display list.
#[derive(Clone, Copy, Debug, PartialEq, Eq, Structural)]
pub struct WrBuiltDisplayListDescriptor {
    pub items_bytes: usize,
    pub glyph_count: usize,
    pub glyph_bytes: usize,
    pub stop_count: usize,
    pub stop_bytes: usize,
    pub clip_count: usize,
    pub clip_bytes: usize,
    pub filter_count: usize,
    pub filter_bytes: usize,
}

/// Why a buffer and descriptor were refused.
#[derive(Clone, Copy, Debug, PartialEq, Eq, Structural)]
pub enum DecodeError {
    /// The descriptor declares more bytes than the buffer holds.
    LengthsExceedBuffer,
    /// The sections do not hold a display list.
    Malformed,
}

/// The words of one command.
pub open spec fn item_words(i: ItemView) -> Seq<u32> {
    seq![kind_tag(i.kind), i.operands.len() as u32] + i.operands
}

/// The words of a command stream.
pub open spec fn items_words(s: Seq<ItemView>) -> Seq<u32>
    decreases s.len(),
{
    if s.len() == 0 {
        Seq::empty()
    } else {
        item_words(s[0]) + items_words(s.drop_first())
    }
}

/// The command stream held by `ws`, read from the front until it ends.
pub open spec fn parse_items(ws: Seq<u32>) -> Option<Seq<ItemView>>
    decreases ws.len(),
{
    if ws.len() == 0 {
        Some(Seq::empty())
    } else if ws.len() < 2 {
        None
    } else {
        match kind_of_tag(ws[0]) {
            None => None,
            Some(kind) => {
                let n = ws[1] as int;
                if ws.len() < 2 + n {
                    None
                } else {
                    match parse_items(ws.subrange(2 + n, ws.len() as int)) {
                        None => None,
                        Some(rest) => Some(
                            seq![ItemView { kind, operands: ws.subrange(2, 2 + n) }] + rest,
                        ),
                    }
                }
            },
        }
    }
}

/// `acc` followed by the commands of `o`, if `o` has any.
pub open spec fn prepend(acc: Seq<ItemView>, o: Option<Seq<ItemView>>) -> Option<Seq<ItemView>> {
    match o {
        Some(rest) => Some(acc + rest),
        None => None,
    }
}

/// All words of an encoded display list.
pub open spec fn list_words(v: DisplayListView) -> Seq<u32> {
    items_words(v.items) + table_words(v.glyphs) + table_words(v.stops) + table_words(v.clips)
        + table_words(v.filters)
}

/// A display list that fits the wire format: every operand count fits a
/// word and the whole buffer fits in memory.
pub open spec fn list_wf(v: DisplayListView) -> bool {
    &&& forall|i: int| 0 <= i < v.items.len() ==> v.items[i].operands.len() <= u32::MAX
    &&& 4 * list_words(v).len() <= usize::MAX
}

/// The descriptor of an encoded display list.
pub open spec fn descriptor_of(v: DisplayListView) -> WrBuiltDisplayListDescriptor {
    WrBuiltDisplayListDescriptor {
        items_bytes: (4 * items_words(v.items).len()) as usize,
        glyph_count: v.glyphs.len() as usize,
        glyph_bytes: (4 * table_words(v.glyphs).len()) as usize,
        stop_count: v.stops.len() as usize,
        stop_bytes: (4 * table_words(v.stops).len()) as usize,
        clip_count: v.clips.len() as usize,
        clip_bytes: (4 * table_words(v.clips).len()) as usize,
        filter_count: v.filters.len() as usize,
        filter_bytes: (4 * table_words(v.filters).len()) as usize,
    }
}

/// The total number of bytes that `d` declares.
pub open spec fn declared_bytes(d: WrBuiltDisplayListDescriptor) -> int {
    d.items_bytes + d.glyph_bytes + d.stop_bytes + d.clip_bytes + d.filter_bytes
}

/// Whether each section length of `d` is a whole number of words.
pub open spec fn sections_aligned(d: WrBuiltDisplayListDescriptor) -> bool {
    &&& d.items_bytes % 4 == 0
    &&& d.glyph_bytes % 4 == 0
    &&& d.stop_bytes % 4 == 0
    &&& d.clip_bytes % 4 == 0
    &&& d.filter_bytes % 4 == 0
}

/// The display list held by `bytes` as `d` lays it out.
pub open spec fn spec_decode(bytes: Seq<u8>, d: WrBuiltDisplayListDescriptor) -> Result<
    DisplayListView,
    DecodeError,
> {
    if declared_bytes(d) > bytes.len() {
        Err(DecodeError::LengthsExceedBuffer)
    } else if declared_bytes(d) != bytes.len() || !sections_aligned(d) {
        Err(DecodeError::Malformed)
    } else {
        let ws = words_of_bytes(bytes);
        let a = d.items_bytes / 4;
        let b = a + d.glyph_bytes / 4;
        let c = b + d.stop_bytes / 4;
        let e = c + d.clip_bytes / 4;
        let f = e + d.filter_bytes / 4;
        let items = parse_items(ws.subrange(0, a as int));
        let glyphs = table_from_words::<WrGlyphInstance>(ws.subrange(a as int, b as int));
        let stops = table_from_words::<WrGradientStop>(ws.subrange(b as int, c as int));
        let clips = table_from_words::<WrComplexClipRegion>(ws.subrange(c as int, e as int));
        let filters = table_from_words::<WrFilterOp>(ws.subrange(e as int, f as int));
        if items.is_some() && glyphs.is_some() && stops.is_some() && clips.is_some()
            && filters.is_some() && glyphs.unwrap().len() == d.glyph_count
            && stops.unwrap().len() == d.stop_count && clips.unwrap().len() == d.clip_count
            && filters.unwrap().len() == d.filter_count {
            Ok(
                DisplayListView {
                    items: items.unwrap(),
                    glyphs: glyphs.unwrap(),
                    stops: stops.unwrap(),
                    clips: clips.unwrap(),
                    filters: filters.unwrap(),
                },
            )
        } else {
            Err(DecodeError::Malformed)
        }
    }
}

pub proof fn lemma_items_words_push(s: Seq<ItemView>, x: ItemView)
    ensures
        items_words(s.push(x)) == items_words(s) + item_words(x),
    decreases s.len(),
{
    if s.len() == 0 {
        assert(s.push(x).drop_first() =~= Seq::<ItemView>::empty());
        assert(s.push(x)[0] == x);
        assert(items_words(Seq::<ItemView>::empty()) == Seq::<u32>::empty());
        assert(items_words(s.push(x)) =~= item_words(x));
    } else {
        assert(s.push(x).drop_first() =~= s.drop_first().push(x));
        lemma_items_words_push(s.drop_first(), x);
        assert(items_words(s.push(x)) =~= items_words(s) + item_words(x));
    }
}

proof fn lemma_parse_items_words(s: Seq<ItemView>)
    requires
        forall|i: int| 0 <= i < s.len() ==> s[i].operands.len() <= u32::MAX,
    ensures
        parse_items(items_words(s)) == Some(s),
    decreases s.len(),
{
    if s.len() > 0 {
        let x = s[0];
        let rest = s.drop_first();
        let ws = items_words(s);
        let n = x.operands.len() as int;
        assert(forall|i: int| 0 <= i < rest.len() ==> rest[i] == s[i + 1]);
        lemma_parse_items_words(rest);
        lemma_kind_tag(x.kind);
        assert(ws[0] == kind_tag(x.kind));
        assert(ws[1] == n as u32);
        assert(ws.subrange(2 + n, ws.len() as int) =~= items_words(rest));
        assert(ws.subrange(2, 2 + n) =~= x.operands);
        assert(seq![ItemView { kind: x.kind, operands: x.operands }] + rest =~= s);
    }
}

proof fn lemma_items_words_len_bound(s: Seq<ItemView>)
    ensures
        items_words(s).len() >= s.len() * 2,
    decreases s.len(),
{
    if s.len() > 0 {
        lemma_items_words_len_bound(s.drop_first());
    }
}

/// Decoding an encoded display list gives that display list back.
pub proof fn lemma_decode_encode(v: DisplayListView)
    requires
        list_wf(v),
    ensures
        spec_decode(bytes_of_words(list_words(v)), descriptor_of(v)) == Ok::<DisplayListView, DecodeError>(v),
{
    let ws = list_words(v);
    let bytes = bytes_of_words(ws);
    let d = descriptor_of(v);
    lemma_bytes_of_words_len(ws);
    lemma_words_bytes_round_trip(ws);
    lemma_table_words_len(v.glyphs);
    lemma_table_words_len(v.stops);
    lemma_table_words_len(v.clips);
    lemma_table_words_len(v.filters);
    let iw = items_words(v.items);
    let gw = table_words(v.glyphs);
    let sw = table_words(v.stops);
    let cw = table_words(v.clips);
    let fw = table_words(v.filters);
    let a = iw.len() as int;
    let b = a + gw.len();
    let c = b + sw.len();
    let e = c + cw.len();
    let f = e + fw.len();
    assert(ws.len() == f);
    assert(d.items_bytes / 4 == a);
    assert(d.glyph_bytes / 4 == gw.len());
    assert(d.stop_bytes / 4 == sw.len());
    assert(d.clip_bytes / 4 == cw.len());
    assert(d.filter_bytes / 4 == fw.len());
    assert(words_of_bytes(bytes) == ws);
    assert(ws.subrange(0, a) =~= iw);
    assert(ws.subrange(a, b) =~= gw);
    assert(ws.subrange(b, c) =~= sw);
    assert(ws.subrange(c, e) =~= cw);
    assert(ws.subrange(e, f) =~= fw);
    lemma_parse_items_words(v.items);
    lemma_table_round_trip(v.glyphs);
    lemma_table_round_trip(v.stops);
    lemma_table_round_trip(v.clips);
    lemma_table_round_trip(v.filters);
}

/// Appends the words of the commands of `items` to `out`.
fn put_items(items: &Vec<DisplayItem>, out: &mut Vec<u32>)
    requires
        forall|i: int| 0 <= i < items.len() ==> items[i].operands.len() <= u32::MAX,
    ensures
        final(out)@ == old(out)@ + items_words(items@.map_values(|i: DisplayItem| i@)),
{
    let ghost start = out@;
    let ghost views = items@.map_values(|i: DisplayItem| i@);
    let mut i: usize = 0;
    while i < items.len()
        invariant
            i <= items.len(),
            views == items@.map_values(|i: DisplayItem| i@),
            forall|i: int| 0 <= i < items.len() ==> items[i].operands.len() <= u32::MAX,
            out@ == start + items_words(views.take(i as int)),
        decreases items.len() - i,
    {
        let item = &items[i];
        let ghost before = out@;
        out.push(item.kind.tag());
        out.push(item.operands.len() as u32);
        let mut j: usize = 0;
        while j < item.operands.len()
            invariant
                j <= item.operands.len(),
                item.operands.len() <= u32::MAX,
                out@ == before + seq![kind_tag(item.kind), item.operands.len() as u32]
                    + item.operands@.take(j as int),
            decreases item.operands.len() - j,
        {
            out.push(item.operands[j]);
            proof {
                assert(item.operands@.take(j as int + 1) =~= item.operands@.take(j as int).push(
                    item.operands@[j as int],
                ));
            }
            j = j + 1;
        }
        proof {
            assert(item.operands@.take(j as int) =~= item.operands@);
            assert(views[i as int] == item@);
            lemma_items_words_push(views.take(i as int), views[i as int]);
            assert(views.take(i as int + 1) =~= views.take(i as int).push(views[i as int]));
            assert(out@ =~= start + items_words(views.take(i as int + 1)));
        }
        i = i + 1;
    }
    assert(views.take(items.len() as int) =~= views);
}

/// Encodes a display list as a byte buffer and its descriptor.
pub fn encode(list: &BuiltDisplayList) -> (r: (Vec<u8>, WrBuiltDisplayListDescriptor))
    requires
        list_wf(list@),
    ensures
        r.0@ == bytes_of_words(list_words(list@)),
        r.1 == descriptor_of(list@),
{
    let ghost v = list@;
    let mut ws: Vec<u32> = Vec::new();
    assert forall|i: int| 0 <= i < list.items.len() implies list.items[i].operands.len()
        <= u32::MAX by {
        assert(v.items[i] == list.items[i]@);
    }
    put_items(&list.items, &mut ws);
    let a = ws.len();
    put_table(&list.glyphs, &mut ws);
    let b = ws.len();
    put_table(&list.stops, &mut ws);
    let c = ws.len();
    put_table(&list.clips, &mut ws);
    let e = ws.len();
    put_table(&list.filters, &mut ws);
    let f = ws.len();
    assert(ws@ =~= list_words(v));
    let mut bytes: Vec<u8> = Vec::new();
    put_words_as_bytes(&ws, &mut bytes);
    assert(bytes@ =~= bytes_of_words(list_words(v)));
    let d = WrBuiltDisplayListDescriptor {
        items_bytes: 4 * a,
        glyph_count: list.glyphs.len(),
        glyph_bytes: 4 * (b - a),
        stop_count: list.stops.len(),
        stop_bytes: 4 * (c - b),
        clip_count: list.clips.len(),
        clip_bytes: 4 * (e - c),
        filter_count: list.filters.len(),
        filter_bytes: 4 * (f - e),
    };
    (bytes, d)
}

/// The commands held by `ws[start..end]`.
fn take_items(ws: &Vec<u32>, start: usize, end: usize) -> (r: Option<Vec<DisplayItem>>)
    requires
        start <= end <= ws.len(),
    ensures
        match r {
            Some(items) => parse_items(ws@.subrange(start as int, end as int)) == Some(
                items@.map_values(|i: DisplayItem| i@),
            ),
            None => parse_items(ws@.subrange(start as int, end as int)).is_none(),
        },
{
    let mut items: Vec<DisplayItem> = Vec::new();
    let mut pos = start;
    let ghost whole = ws@.subrange(start as int, end as int);
    while pos < end
        invariant
            start <= pos <= end <= ws.len(),
            whole == ws@.subrange(start as int, end as int),
            parse_items(whole) == prepend(
                items@.map_values(|i: DisplayItem| i@),
                parse_items(ws@.subrange(pos as int, end as int)),
            ),
        decreases end - pos,
    {
        let ghost cur = ws@.subrange(pos as int, end as int);
        if end - pos < 2 {
            return None;
        }
        let kind = match ItemKind::from_tag(ws[pos]) {
            Some(k) => k,
            None => {
                return None;
            },
        };
        let n = ws[pos + 1] as usize;
        if end - pos - 2 < n {
            return None;
        }
        let mut operands: Vec<u32> = Vec::new();
        let mut j: usize = 0;
        while j < n
            invariant
                j <= n,
                pos + 2 + n <= end <= ws.len(),
                operands@ == ws@.subrange(pos + 2, pos + 2 + j),
            decreases n - j,
        {
            operands.push(ws[pos + 2 + j]);
            proof {
                assert(operands@ =~= ws@.subrange(pos + 2, pos + 2 + j + 1));
            }
            j = j + 1;
        }
        let ghost old_views = items@.map_values(|i: DisplayItem| i@);
        let item = DisplayItem { kind, operands };
        items.push(item);
        proof {
            assert(cur[0] == ws@[pos as int]);
            assert(cur[1] == ws@[pos + 1]);
            assert(cur.subrange(2 + n, cur.len() as int) =~= ws@.subrange(
                pos + 2 + n,
                end as int,
            ));
            assert(cur.subrange(2, 2 + n) =~= item.operands@);
            assert(items@.map_values(|i: DisplayItem| i@) =~= old_views.push(item@));
            let tail = parse_items(ws@.subrange(pos + 2 + n, end as int));
            if tail.is_some() {
                assert(old_views + (seq![item@] + tail.unwrap()) =~= old_views.push(item@)
                    + tail.unwrap());
            }
        }
        pos = pos + 2 + n;
    }
    proof {
        assert(ws@.subrange(pos as int, end as int) =~= Seq::<u32>::empty());
        assert(items@.map_values(|i: DisplayItem| i@) + Seq::<ItemView>::empty()
            =~= items@.map_values(|i: DisplayItem| i@));
    }
    Some(items)
}

/// The layout error of a buffer of `len` bytes under `d`, if it has one.
fn layout_error(len: usize, d: &WrBuiltDisplayListDescriptor) -> (r: Option<DecodeError>)
    ensures
        r == (if declared_bytes(*d) > len {
            Some(DecodeError::LengthsExceedBuffer)
        } else if declared_bytes(*d) != len || !sections_aligned(*d) {
            Some(DecodeError::Malformed)
        } else {
            None
        }),
{
    let total: u128 = d.items_bytes as u128 + d.glyph_bytes as u128 + d.stop_bytes as u128
        + d.clip_bytes as u128 + d.filter_bytes as u128;
    if total > len as u128 {
        Some(DecodeError::LengthsExceedBuffer)
    } else if total != len as u128 || d.items_bytes % 4 != 0 || d.glyph_bytes % 4 != 0
        || d.stop_bytes % 4 != 0 || d.clip_bytes % 4 != 0 || d.filter_bytes % 4 != 0 {
        Some(DecodeError::Malformed)
    } else {
        None
    }
}

/// Decodes a byte buffer laid out as `d` describes.
pub fn decode(bytes: &Vec<u8>, d: &WrBuiltDisplayListDescriptor) -> (r: Result<
    BuiltDisplayList,
    DecodeError,
>)
    ensures
        match r {
            Ok(l) => spec_decode(bytes@, *d) == Ok::<DisplayListView, DecodeError>(l@),
            Err(e) => spec_decode(bytes@, *d) == Err::<DisplayListView, DecodeError>(e),
        },
{
    if let Some(e) = layout_error(bytes.len(), d) {
        return Err(e);
    }
    let ws = words_from_bytes(bytes, 0, bytes.len());
    proof {
        assert(bytes@.subrange(0, bytes.len() as int) =~= bytes@);
    }
    let a = d.items_bytes / 4;
    let b = a + d.glyph_bytes / 4;
    let c = b + d.stop_bytes / 4;
    let e = c + d.clip_bytes / 4;
    let f = e + d.filter_bytes / 4;
    assert(ws.len() == f);
    assert(ws@ == words_of_bytes(bytes@));
    let items = take_items(&ws, 0, a);
    let glyphs = take_table::<WrGlyphInstance>(&ws, a, b);
    let stops = take_table::<WrGradientStop>(&ws, b, c);
    let clips = take_table::<WrComplexClipRegion>(&ws, c, e);
    let filters = take_table::<WrFilterOp>(&ws, e, f);
    match (items, glyphs, stops, clips, filters) {
        (Some(items), Some(glyphs), Some(stops), Some(clips), Some(filters)) => {
            if glyphs.len() == d.glyph_count && stops.len() == d.stop_count && clips.len()
                == d.clip_count && filters.len() == d.filter_count {
                let l = BuiltDisplayList { items, glyphs, stops, clips, filters };
                Ok(l)
            } else {
                Err(DecodeError::Malformed)
            }
        },
        _ => Err(DecodeError::Malformed),
    }
}

proof fn lemma_items_words_prefix(s: Seq<ItemView>, i: int)
    requires
        0 <= i <= s.len(),
    ensures
        items_words(s.take(i)).len() <= items_words(s).len(),
    decreases s.len() - i,
{
    if i < s.len() {
        lemma_items_words_prefix(s, i + 1);
        lemma_items_words_push(s.take(i), s[i]);
        assert(s.take(i + 1) =~= s.take(i).push(s[i]));
    } else {
        assert(s.take(i) =~= s);
    }
}

/// Whether `list` fits the wire format.
pub fn fits_wire(list: &BuiltDisplayList) -> (r: bool)
    ensures
        r == list_wf(list@),
{
    let ghost v = list@;
    let limit: u128 = (usize::MAX / 4) as u128;
    let mut total: u128 = 0;
    let mut i: usize = 0;
    while i < list.items.len()
        invariant
            v == list@,
            i <= list.items.len(),
            limit == usize::MAX / 4,
            total == items_words(v.items.take(i as int)).len(),
            total <= limit,
            forall|k: int| 0 <= k < i ==> v.items[k].operands.len() <= u32::MAX,
        decreases list.items.len() - i,
    {
        let n = list.items[i].operands.len();
        proof {
            assert(v.items[i as int] == list.items[i as int]@);
            lemma_items_words_push(v.items.take(i as int), v.items[i as int]);
            assert(v.items.take(i + 1) =~= v.items.take(i as int).push(v.items[i as int]));
        }
        if n > 0xffff_ffffusize {
            return false;
        }
        total = total + 2 + n as u128;
        if total > limit {
            proof {
                lemma_items_words_prefix(v.items, i + 1);
                lemma_table_words_len(v.glyphs);
            }
            return false;
        }
        i = i + 1;
    }
    proof {
        assert(v.items.take(i as int) =~= v.items);
        lemma_table_words_len(v.glyphs);
        lemma_table_words_len(v.stops);
        lemma_table_words_len(v.clips);
        lemma_table_words_len(v.filters);
    }
    let tables: u128 = 3 * list.glyphs.len() as u128 + 5 * list.stops.len() as u128 + 12
        * list.clips.len() as u128 + 2 * list.filters.len() as u128;
    total + tables <= limit
}

} // verus!
