//! The display-list builder: accumulates commands and side-table entries
//! while a producer issues draw, push and pop calls, and checks that scopes
//! (stacking contexts, scroll layers) close in strict reverse order.

use vstd::prelude::*;
use crate::display_list::{
    BuiltDisplayList, DisplayItem, DisplayListView, ItemKind, ItemView, WrComplexClipRegion,
    WrFilterOp, WrItemRange, put_rect, rect_words,
};
use crate::geom::{WrMatrix, WrRect};
use crate::ids::{ImageKey, PipelineId};
use crate::wire::{encode_i32, word_of_i32};

verus! {

/// How a stacking context's content blends with what lies under it.
#[derive(Clone, Copy, Debug, PartialEq, Eq, Structural)]
pub enum WrMixBlendMode {
    Normal,
    Multiply,
    Screen,
    Overlay,
    Darken,
    Lighten,
    ColorDodge,
    ColorBurn,
    HardLight,
    SoftLight,
    Difference,
    Exclusion,
    Hue,
    Saturation,
    Color,
    Luminosity,
}

impl WrMixBlendMode {
    pub open spec fn spec_tag(&self) -> u32 {
        match self {
            WrMixBlendMode::Normal => 0,
            WrMixBlendMode::Multiply => 1,
            WrMixBlendMode::Screen => 2,
            WrMixBlendMode::Overlay => 3,
            WrMixBlendMode::Darken => 4,
            WrMixBlendMode::Lighten => 5,
            WrMixBlendMode::ColorDodge => 6,
            WrMixBlendMode::ColorBurn => 7,
            WrMixBlendMode::HardLight => 8,
            WrMixBlendMode::SoftLight => 9,
            WrMixBlendMode::Difference => 10,
            WrMixBlendMode::Exclusion => 11,
            WrMixBlendMode::Hue => 12,
            WrMixBlendMode::Saturation => 13,
            WrMixBlendMode::Color => 14,
            WrMixBlendMode::Luminosity => 15,
        }
    }

    pub fn tag(&self) -> (t: u32)
        ensures
            t == self.spec_tag(),
    {
        match self {
            WrMixBlendMode::Normal => 0,
            WrMixBlendMode::Multiply => 1,
            WrMixBlendMode::Screen => 2,
            WrMixBlendMode::Overlay => 3,
            WrMixBlendMode::Darken => 4,
            WrMixBlendMode::Lighten => 5,
            WrMixBlendMode::ColorDodge => 6,
            WrMixBlendMode::ColorBurn => 7,
            WrMixBlendMode::HardLight => 8,
            WrMixBlendMode::SoftLight => 9,
            WrMixBlendMode::Difference => 10,
            WrMixBlendMode::Exclusion => 11,
            WrMixBlendMode::Hue => 12,
            WrMixBlendMode::Saturation => 13,
            WrMixBlendMode::Color => 14,
            WrMixBlendMode::Luminosity => 15,
        }
    }
}

/// An image that masks a clip region.
#[derive(Clone, Copy, Debug, PartialEq, Eq, Structural)]
pub struct WrImageMask {
    pub image: ImageKey,
    pub rect: WrRect,
    pub repeat: bool,
}

/// A clipping scope: a main rectangle, a range of rounded rectangles in the
/// complex-clip table, and an optional image mask.
#[derive(Clone, Copy, Debug, PartialEq, Eq, Structural)]
pub struct WrClipRegion {
    pub main: WrRect,
    pub complex: WrItemRange,
    pub image_mask: Option<WrImageMask>,
}

/// The two words (low, high) that store a size or an index.
pub open spec fn usize_words(x: usize) -> Seq<u32> {
    seq![(x as int % 0x1_0000_0000) as u32, (x as int / 0x1_0000_0000) as u32]
}

pub open spec fn range_words(r: WrItemRange) -> Seq<u32> {
    usize_words(r.start) + usize_words(r.length)
}

pub open spec fn mask_words(m: Option<WrImageMask>) -> Seq<u32> {
    match m {
        Some(m) => seq![1u32, m.image.0, m.image.1] + rect_words(m.rect) + seq![
            if m.repeat {
                1u32
            } else {
                0u32
            },
        ],
        None => seq![0u32, 0u32, 0u32, 0u32, 0u32, 0u32, 0u32, 0u32],
    }
}

/// The operand words of a clip region.
pub open spec fn clip_words(c: WrClipRegion) -> Seq<u32> {
    rect_words(c.main) + range_words(c.complex) + mask_words(c.image_mask)
}

pub open spec fn matrix_words(m: WrMatrix) -> Seq<u32> {
    Seq::new(16, |i: int| word_of_i32(m.values[i]))
}

pub fn put_usize(x: usize, out: &mut Vec<u32>)
    ensures
        final(out)@ == old(out)@ + usize_words(x),
{
    let v = x as u64;
    out.push((v % 0x1_0000_0000u64) as u32);
    out.push((v / 0x1_0000_0000u64) as u32);
    assert(final(out)@ =~= old(out)@ + usize_words(x));
}

pub fn put_range(r: &WrItemRange, out: &mut Vec<u32>)
    ensures
        final(out)@ == old(out)@ + range_words(*r),
{
    put_usize(r.start, out);
    put_usize(r.length, out);
    assert(final(out)@ =~= old(out)@ + range_words(*r));
}

pub fn put_clip(c: &WrClipRegion, out: &mut Vec<u32>)
    ensures
        final(out)@ == old(out)@ + clip_words(*c),
{
    put_rect(&c.main, out);
    put_range(&c.complex, out);
    match &c.image_mask {
        Some(m) => {
            out.push(1);
            out.push(m.image.0);
            out.push(m.image.1);
            put_rect(&m.rect, out);
            out.push(if m.repeat { 1 } else { 0 });
        },
        None => {
            let mut k: usize = 0;
            while k < 8
                invariant
                    k <= 8,
                    out@ == old(out)@ + rect_words(c.main) + range_words(c.complex) + Seq::new(
                        k as nat,
                        |i: int| 0u32,
                    ),
                decreases 8 - k,
            {
                out.push(0);
                assert(out@ =~= old(out)@ + rect_words(c.main) + range_words(c.complex)
                    + Seq::new((k + 1) as nat, |i: int| 0u32));
                k = k + 1;
            }
        },
    }
    assert(final(out)@ =~= old(out)@ + clip_words(*c));
}

pub fn put_matrix(m: &WrMatrix, out: &mut Vec<u32>)
    ensures
        final(out)@ == old(out)@ + matrix_words(*m),
{
    let mut k: usize = 0;
    while k < 16
        invariant
            k <= 16,
            out@ == old(out)@ + matrix_words(*m).take(k as int),
        decreases 16 - k,
    {
        out.push(encode_i32(m.values[k]));
        assert(out@ =~= old(out)@ + matrix_words(*m).take(k as int + 1));
        k = k + 1;
    }
    assert(matrix_words(*m).take(16) =~= matrix_words(*m));
}

/// A scope that push and pop calls open and close.
#[derive(Clone, Copy, Debug, PartialEq, Eq, Structural)]
pub enum ScopeKind {
    StackingContext,
    ScrollLayer,
}

/// A push or a pop of a scope.
#[derive(Clone, Copy, Debug, PartialEq, Eq, Structural)]
pub enum ScopeOp {
    Push(ScopeKind),
    Pop(ScopeKind),
}

/// The open scopes after `op`, from the open scopes before it; `None` once a
/// pop has not closed the innermost open scope.
pub open spec fn scope_step(open: Option<Seq<ScopeKind>>, op: ScopeOp) -> Option<Seq<ScopeKind>> {
    match open {
        None => None,
        Some(s) => match op {
            ScopeOp::Push(k) => Some(s.push(k)),
            ScopeOp::Pop(k) => if s.len() > 0 && s.last() == k {
                Some(s.drop_last())
            } else {
                None
            },
        },
    }
}

/// The open scopes after a sequence of pushes and pops from `start`.
pub open spec fn scope_run_from(start: Option<Seq<ScopeKind>>, ops: Seq<ScopeOp>) -> Option<Seq<ScopeKind>>
    decreases ops.len(),
{
    if ops.len() == 0 {
        start
    } else {
        scope_step(scope_run_from(start, ops.drop_last()), ops.last())
    }
}

/// The open scopes after a sequence of pushes and pops from none.
pub open spec fn scope_run(ops: Seq<ScopeOp>) -> Option<Seq<ScopeKind>> {
    scope_run_from(Some(Seq::empty()), ops)
}

/// Whether a sequence of pushes and pops leaves no scope open and never pops
/// a scope other than the innermost open one: what finalizing asks for.
pub open spec fn balanced(ops: Seq<ScopeOp>) -> bool {
    scope_run(ops) == Some(Seq::<ScopeKind>::empty())
}

proof fn lemma_run_concat(start: Option<Seq<ScopeKind>>, a: Seq<ScopeOp>, b: Seq<ScopeOp>)
    ensures
        scope_run_from(start, a + b) == scope_run_from(scope_run_from(start, a), b),
    decreases b.len(),
{
    if b.len() == 0 {
        assert(a + b =~= a);
    } else {
        assert((a + b).drop_last() =~= a + b.drop_last());
        lemma_run_concat(start, a, b.drop_last());
    }
}

proof fn lemma_run_none(ops: Seq<ScopeOp>)
    ensures
        scope_run_from(None, ops) == None::<Seq<ScopeKind>>,
    decreases ops.len(),
{
    if ops.len() > 0 {
        lemma_run_none(ops.drop_last());
    }
}

proof fn lemma_run_shift(st: Seq<ScopeKind>, ops: Seq<ScopeOp>)
    requires
        scope_run(ops) is Some,
    ensures
        scope_run_from(Some(st), ops) == Some(st + scope_run(ops).unwrap()),
    decreases ops.len(),
{
    if ops.len() == 0 {
        assert(st + Seq::<ScopeKind>::empty() =~= st);
    } else {
        let init = ops.drop_last();
        if scope_run(init) is None {
            lemma_run_none(Seq::<ScopeOp>::empty().push(ops.last()));
            assert(scope_run(ops) is None);
        }
        lemma_run_shift(st, init);
        let t = scope_run(init).unwrap();
        match ops.last() {
            ScopeOp::Push(k) => {
                assert((st + t).push(k) =~= st + t.push(k));
            },
            ScopeOp::Pop(k) => {
                assert((st + t).drop_last() =~= st + t.drop_last());
            },
        }
    }
}

/// One more push or pop moves the open scopes by one step: a builder that
/// starts with none open, whose push and pop calls each take one step,
/// holds `scope_run` of its calls, and so finalizes exactly when they are
/// balanced.
pub proof fn lemma_scope_run_push(ops: Seq<ScopeOp>, op: ScopeOp)
    ensures
        scope_run(ops.push(op)) == scope_step(scope_run(ops), op),
{
    assert(ops.push(op).drop_last() =~= ops);
}

/// Nothing comes after an out-of-order pop: once a pop has not closed the
/// innermost open scope, no further calls can make the list balanced.
pub proof fn lemma_mismatch_is_final(a: Seq<ScopeOp>, b: Seq<ScopeOp>)
    requires
        scope_run(a) is None,
    ensures
        !balanced(a + b),
{
    lemma_run_concat(Some(Seq::empty()), a, b);
    lemma_run_none(b);
}

/// A pop of a kind other than the innermost open scope's fails, whatever follows.
pub proof fn lemma_out_of_order_pop_fails(a: Seq<ScopeOp>, k: ScopeKind, b: Seq<ScopeOp>)
    requires
        scope_run(a) is Some,
        scope_run(a).unwrap().len() == 0 || scope_run(a).unwrap().last() != k,
    ensures
        !balanced(a.push(ScopeOp::Pop(k)) + b),
{
    assert(scope_run(a.push(ScopeOp::Pop(k))) is None) by {
        assert(a.push(ScopeOp::Pop(k)).drop_last() =~= a);
    }
    lemma_mismatch_is_final(a.push(ScopeOp::Pop(k)), b);
}

/// A balanced sequence wrapped in a push and the matching pop is balanced.
pub proof fn lemma_balanced_nest(k: ScopeKind, b: Seq<ScopeOp>)
    requires
        balanced(b),
    ensures
        balanced(seq![ScopeOp::Push(k)] + b + seq![ScopeOp::Pop(k)]),
{
    let open = seq![ScopeOp::Push(k)];
    lemma_run_concat(Some(Seq::empty()), open, b);
    assert(open.drop_last() =~= Seq::<ScopeOp>::empty());
    assert(scope_run(open) == Some(seq![k])) by {
        assert(scope_run_from(Some(Seq::<ScopeKind>::empty()), Seq::<ScopeOp>::empty()) == Some(Seq::<ScopeKind>::empty()));
        assert(open.last() == ScopeOp::Push(k));
        assert(Seq::<ScopeKind>::empty().push(k) =~= seq![k]);
    }
    lemma_run_shift(seq![k], b);
    assert(seq![k] + Seq::<ScopeKind>::empty() =~= seq![k]);
    let whole = open + b + seq![ScopeOp::Pop(k)];
    assert(whole.drop_last() =~= open + b);
    assert(seq![k].drop_last() =~= Seq::<ScopeKind>::empty());
}

/// Two balanced sequences one after the other are balanced.
pub proof fn lemma_balanced_concat(a: Seq<ScopeOp>, b: Seq<ScopeOp>)
    requires
        balanced(a),
        balanced(b),
    ensures
        balanced(a + b),
{
    lemma_run_concat(Some(Seq::empty()), a, b);
}

/// A scope left open fails to finalize.
pub proof fn lemma_open_scope_fails(ops: Seq<ScopeOp>, k: ScopeKind)
    requires
        balanced(ops),
    ensures
        !balanced(ops.push(ScopeOp::Push(k))),
{
    assert(ops.push(ScopeOp::Push(k)).drop_last() =~= ops);
}

/// Why a builder could not be finalized.
#[derive(Clone, Copy, Debug, PartialEq, Eq, Structural)]
pub enum FinalizeError {
    /// A scope is still open, or a pop did not close the innermost one.
    UnbalancedScopes,
    /// The list is too large for the wire format.
    TooLarge,
}

/// Accumulates one display list for a pipeline.
pub struct DisplayListBuilder {
    pub pipeline_id: PipelineId,
    pub list: BuiltDisplayList,
    pub scopes: Vec<ScopeKind>,
    pub mismatched: bool,
    /// The pushes and pops since the builder was last emptied.
    pub calls: Ghost<Seq<ScopeOp>>,
}

impl DisplayListBuilder {
    /// The display list built so far.
    pub open spec fn list(&self) -> DisplayListView {
        self.list@
    }

    /// The open scopes, innermost last; `None` once a pop has not closed the
    /// innermost open scope.
    pub open spec fn open_scopes(&self) -> Option<Seq<ScopeKind>> {
        if self.mismatched {
            None
        } else {
            Some(self.scopes@)
        }
    }

    /// The open scopes are those that the recorded pushes and pops leave.
    pub open spec fn wf(&self) -> bool {
        self.open_scopes() == scope_run(self.calls@)
    }

    pub fn new(pipeline_id: PipelineId) -> (b: DisplayListBuilder)
        ensures
            b.wf(),
            b.calls@ == Seq::<ScopeOp>::empty(),
            b.pipeline_id == pipeline_id,
            b.list() == DisplayListView::empty(),
            b.open_scopes() == Some(Seq::<ScopeKind>::empty()),
    {
        DisplayListBuilder {
            pipeline_id,
            list: BuiltDisplayList::new(),
            scopes: Vec::new(),
            mismatched: false,
            calls: Ghost(Seq::empty()),
        }
    }

    /// The display list built so far.
    pub fn current(&self) -> (l: &BuiltDisplayList)
        ensures
            l@ == self.list(),
    {
        &self.list
    }

    /// Removes every command and forgets every open scope; the side-tables stay.
    pub fn clear_items(&mut self)
        ensures
            final(self).wf(),
            final(self).calls@ == Seq::<ScopeOp>::empty(),
            final(self).pipeline_id == old(self).pipeline_id,
            final(self).list() == (DisplayListView { items: Seq::empty(), ..old(self).list() }),
            final(self).open_scopes() == Some(Seq::<ScopeKind>::empty()),
    {
        self.list.items = Vec::new();
        self.scopes = Vec::new();
        self.mismatched = false;
        self.calls = Ghost(Seq::empty());
        assert(self.scopes@ =~= Seq::<ScopeKind>::empty());
        assert(self.list@.items =~= Seq::<ItemView>::empty());
    }

    /// Appends one command.
    pub fn push_item(&mut self, kind: ItemKind, operands: Vec<u32>)
        ensures
            final(self).calls == old(self).calls,
            final(self).pipeline_id == old(self).pipeline_id,
            final(self).open_scopes() == old(self).open_scopes(),
            final(self).list() == (DisplayListView {
                items: old(self).list().items.push(ItemView { kind, operands: operands@ }),
                ..old(self).list()
            }),
    {
        let item = DisplayItem { kind, operands };
        self.list.items.push(item);
        assert(self.list@.items =~= old(self).list@.items.push(item@));
    }

    pub fn open_scope(&mut self, kind: ItemKind, scope: ScopeKind, operands: Vec<u32>)
        requires
            old(self).wf(),
        ensures
            final(self).wf(),
            final(self).calls@ == old(self).calls@.push(ScopeOp::Push(scope)),
            final(self).pipeline_id == old(self).pipeline_id,
            final(self).open_scopes() == scope_step(old(self).open_scopes(), ScopeOp::Push(scope)),
            final(self).list() == (DisplayListView {
                items: old(self).list().items.push(ItemView { kind, operands: operands@ }),
                ..old(self).list()
            }),
    {
        self.push_item(kind, operands);
        self.scopes.push(scope);
        proof {
            lemma_scope_run_push(self.calls@, ScopeOp::Push(scope));
        }
        self.calls = Ghost(self.calls@.push(ScopeOp::Push(scope)));
    }

    pub fn close_scope(&mut self, kind: ItemKind, scope: ScopeKind)
        requires
            old(self).wf(),
        ensures
            final(self).wf(),
            final(self).calls@ == old(self).calls@.push(ScopeOp::Pop(scope)),
            final(self).pipeline_id == old(self).pipeline_id,
            final(self).open_scopes() == scope_step(old(self).open_scopes(), ScopeOp::Pop(scope)),
            final(self).list() == (DisplayListView {
                items: old(self).list().items.push(ItemView { kind, operands: Seq::empty() }),
                ..old(self).list()
            }),
    {
        let empty: Vec<u32> = Vec::new();
        proof {
            assert(empty@ =~= Seq::<u32>::empty());
        }
        self.push_item(kind, empty);
        let n = self.scopes.len();
        if n > 0 && self.scopes[n - 1] == scope {
            self.scopes.pop();
        } else {
            self.mismatched = true;
        }
        proof {
            lemma_scope_run_push(self.calls@, ScopeOp::Pop(scope));
        }
        self.calls = Ghost(self.calls@.push(ScopeOp::Pop(scope)));
    }

    /// Appends the complex clips to their table and returns a clip region
    /// that refers to them.
    pub fn new_clip_region(
        &mut self,
        main: WrRect,
        complex: Vec<WrComplexClipRegion>,
        image_mask: Option<WrImageMask>,
    ) -> (c: WrClipRegion)
        ensures
            final(self).calls == old(self).calls,
            final(self).pipeline_id == old(self).pipeline_id,
            final(self).open_scopes() == old(self).open_scopes(),
            final(self).list() == (DisplayListView {
                clips: old(self).list().clips + complex@,
                ..old(self).list()
            }),
            c == (WrClipRegion {
                main,
                complex: WrItemRange {
                    start: old(self).list().clips.len() as usize,
                    length: complex@.len() as usize,
                },
                image_mask,
            }),
    {
        let start = self.list.clips.len();
        let length = complex.len();
        let mut complex = complex;
        self.list.clips.append(&mut complex);
        WrClipRegion { main, complex: WrItemRange { start, length }, image_mask }
    }

    /// Appends a filter list to its table and returns the range it takes.
    pub fn push_filters(&mut self, filters: Vec<WrFilterOp>) -> (r: WrItemRange)
        ensures
            final(self).calls == old(self).calls,
            final(self).pipeline_id == old(self).pipeline_id,
            final(self).open_scopes() == old(self).open_scopes(),
            final(self).list() == (DisplayListView {
                filters: old(self).list().filters + filters@,
                ..old(self).list()
            }),
            r == (WrItemRange {
                start: old(self).list().filters.len() as usize,
                length: filters@.len() as usize,
            }),
    {
        let start = self.list.filters.len();
        let length = filters.len();
        let mut filters = filters;
        self.list.filters.append(&mut filters);
        WrItemRange { start, length }
    }

    /// Finalizes the list when every scope has been closed in reverse order,
    /// and leaves the builder empty, bound to the same pipeline.
    pub fn finalize(&mut self) -> (r: Result<BuiltDisplayList, FinalizeError>)
        requires
            old(self).wf(),
        ensures
            final(self).wf(),
            final(self).pipeline_id == old(self).pipeline_id,
            r is Ok <==> balanced(old(self).calls@),
            r is Ok <==> old(self).open_scopes() == Some(Seq::<ScopeKind>::empty()),
            r is Ok ==> final(self).calls@ == Seq::<ScopeOp>::empty(),
            r is Err ==> final(self).calls == old(self).calls,
            r is Ok ==> r->Ok_0@ == old(self).list(),
            r is Ok ==> final(self).list() == DisplayListView::empty(),
            r is Ok ==> final(self).open_scopes() == Some(Seq::<ScopeKind>::empty()),
            r is Err ==> r->Err_0 == FinalizeError::UnbalancedScopes,
            r is Err ==> final(self).list() == old(self).list(),
            r is Err ==> final(self).open_scopes() == old(self).open_scopes(),
    {
        if self.mismatched || self.scopes.len() != 0 {
            proof {
                if !self.mismatched {
                    assert(self.scopes@.len() != 0);
                    assert(self.scopes@ != Seq::<ScopeKind>::empty());
                }
            }
            return Err(FinalizeError::UnbalancedScopes);
        }
        proof {
            assert(self.scopes@ =~= Seq::<ScopeKind>::empty());
        }
        let mut l = BuiltDisplayList::new();
        std::mem::swap(&mut self.list, &mut l);
        self.calls = Ghost(Seq::empty());
        Ok(l)
    }
}

} // verus!
