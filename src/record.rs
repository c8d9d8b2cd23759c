//! Fixed-width records and tables of them on the wire.

use vstd::prelude::*;

verus! {

/// A value stored on the wire as a fixed number of words.
pub trait WireRecord: Sized {
    /// The number of words of every record of this type.
    spec fn spec_width() -> nat;

    /// The words that store `self`.
    spec fn spec_words(&self) -> Seq<u32>;

    /// The record stored by `ws`, if `ws` stores one.
    spec fn spec_from_words(ws: Seq<u32>) -> Option<Self>;

    proof fn lemma_record_round_trip(&self)
        ensures
            Self::spec_width() > 0,
            self.spec_words().len() == Self::spec_width(),
            Self::spec_from_words(self.spec_words()) == Some(*self),
    ;

    fn width() -> (n: usize)
        ensures
            n == Self::spec_width(),
            n > 0,
    ;

    fn put_words(&self, out: &mut Vec<u32>)
        ensures
            final(out)@ == old(out)@ + self.spec_words(),
    ;

    fn take_words(ws: &Vec<u32>, pos: usize) -> (r: Option<Self>)
        requires
            pos + Self::spec_width() <= ws.len(),
        ensures
            r == Self::spec_from_words(ws@.subrange(pos as int, pos + Self::spec_width())),
    ;
}

/// The words of a table: its records one after the other.
pub open spec fn table_words<T: WireRecord>(s: Seq<T>) -> Seq<u32>
    decreases s.len(),
{
    if s.len() == 0 {
        Seq::empty()
    } else {
        table_words(s.drop_last()) + s.last().spec_words()
    }
}

/// The table stored by `ws`: a whole number of records, each well formed.
pub open spec fn table_from_words<T: WireRecord>(ws: Seq<u32>) -> Option<Seq<T>>
    decreases ws.len(),
{
    let w = T::spec_width();
    if ws.len() == 0 {
        Some(Seq::empty())
    } else if w == 0 || ws.len() < w {
        None
    } else {
        match table_from_words::<T>(ws.subrange(0, ws.len() - w)) {
            Some(init) => match T::spec_from_words(ws.subrange(ws.len() - w, ws.len() as int)) {
                Some(x) => Some(init.push(x)),
                None => None,
            },
            None => None,
        }
    }
}

pub proof fn lemma_table_words_len<T: WireRecord>(s: Seq<T>)
    ensures
        table_words(s).len() == s.len() * T::spec_width(),
    decreases s.len(),
{
    if s.len() > 0 {
        lemma_table_words_len(s.drop_last());
        s.last().lemma_record_round_trip();
        assert(table_words(s).len() == s.drop_last().len() * T::spec_width() + T::spec_width());
        assert(s.len() * T::spec_width() == (s.len() - 1) * T::spec_width() + T::spec_width())
            by (nonlinear_arith);
    }
}

/// Reading back the words of a table gives that table.
pub proof fn lemma_table_round_trip<T: WireRecord>(s: Seq<T>)
    ensures
        table_from_words::<T>(table_words(s)) == Some(s),
    decreases s.len(),
{
    if s.len() > 0 {
        let ws = table_words(s);
        let init = s.drop_last();
        lemma_table_round_trip(init);
        lemma_table_words_len(init);
        s.last().lemma_record_round_trip();
        let w = T::spec_width();
        assert(ws.subrange(0, ws.len() - w) =~= table_words(init));
        assert(ws.subrange(ws.len() - w, ws.len() as int) =~= s.last().spec_words());
        assert(init.push(s.last()) =~= s);
    }
}

/// Appends the words of every record of `s` to `out`.
pub fn put_table<T: WireRecord>(s: &Vec<T>, out: &mut Vec<u32>)
    ensures
        final(out)@ == old(out)@ + table_words(s@),
{
    let ghost start = out@;
    let mut i: usize = 0;
    while i < s.len()
        invariant
            i <= s.len(),
            out@ == start + table_words(s@.take(i as int)),
        decreases s.len() - i,
    {
        s[i].put_words(out);
        proof {
            let t = s@.take(i as int + 1);
            assert(t.drop_last() =~= s@.take(i as int));
            assert(out@ =~= start + table_words(t));
        }
        i = i + 1;
    }
    assert(s@.take(s.len() as int) =~= s@);
}

/// The table stored by `ws[start..end]`, if those words store one.
pub fn take_table<T: WireRecord>(ws: &Vec<u32>, start: usize, end: usize) -> (r: Option<Vec<T>>)
    requires
        start <= end <= ws.len(),
    ensures
        match r {
            Some(v) => table_from_words::<T>(ws@.subrange(start as int, end as int)) == Some(v@),
            None => table_from_words::<T>(ws@.subrange(start as int, end as int)).is_none(),
        },
{
    let w = T::width();
    let len = end - start;
    if len % w != 0 {
        proof {
            lemma_table_needs_whole_records::<T>(ws@.subrange(start as int, end as int));
        }
        return None;
    }
    let n = len / w;
    let mut out: Vec<T> = Vec::new();
    let mut i: usize = 0;
    proof {
        assert(n * w == len) by (nonlinear_arith)
            requires
                n == len / w,
                len % w == 0,
                w > 0,
        ;
    }
    while i < n
        invariant
            w == T::spec_width(),
            w > 0,
            n * w == len,
            len == end - start,
            start <= end <= ws.len(),
            i <= n,
            table_from_words::<T>(ws@.subrange(start as int, start + i * w)) == Some(out@),
        decreases n - i,
    {
        proof {
            assert(i * w + w <= n * w) by (nonlinear_arith)
                requires
                    i < n,
                    w > 0,
            ;
            assert((i + 1) * w == i * w + w) by (nonlinear_arith);
        }
        let p = start + i * w;
        let rec = T::take_words(ws, p);
        proof {
            let sub = ws@.subrange(start as int, p + w);
            assert(sub.subrange(0, sub.len() - w) =~= ws@.subrange(start as int, p as int));
            assert(sub.subrange(sub.len() - w, sub.len() as int) =~= ws@.subrange(
                p as int,
                p + w,
            ));
        }
        match rec {
            Some(x) => {
                out.push(x);
            },
            None => {
                proof {
                    vstd::arithmetic::div_mod::lemma_mod_multiples_basic(i + 1, w as int);
                    vstd::arithmetic::div_mod::lemma_mod_multiples_basic(n as int, w as int);
                    let sub = ws@.subrange(start as int, p + w);
                    assert(table_from_words::<T>(sub).is_none());
                    assert(ws@.subrange(start as int, end as int).subrange(0, (i + 1) * w)
                        =~= sub);
                    lemma_table_prefix_fails::<T>(ws@.subrange(start as int, end as int), (i + 1) * w);
                }
                return None;
            },
        }
        i = i + 1;
    }
    Some(out)
}

proof fn lemma_table_needs_whole_records<T: WireRecord>(ws: Seq<u32>)
    requires
        T::spec_width() > 0,
        (ws.len() as int) % (T::spec_width() as int) != 0,
    ensures
        table_from_words::<T>(ws).is_none(),
    decreases ws.len(),
{
    let w = T::spec_width() as int;
    let len = ws.len() as int;
    if len == 0 {
        assert(0int % w == 0);
    }
    if len >= w {
        vstd::arithmetic::div_mod::lemma_mod_sub_multiples_vanish(len, w);
        let init = ws.subrange(0, len - w);
        assert(init.len() == len - w);
        assert((init.len() as int) % w != 0);
        lemma_table_needs_whole_records::<T>(init);
        assert(table_from_words::<T>(init).is_none());
    }
}

/// When a whole-record prefix of `ws` stores no table, neither does `ws`.
proof fn lemma_table_prefix_fails<T: WireRecord>(ws: Seq<u32>, k: int)
    requires
        T::spec_width() > 0,
        0 < k <= ws.len(),
        k % (T::spec_width() as int) == 0,
        (ws.len() as int) % (T::spec_width() as int) == 0,
        table_from_words::<T>(ws.subrange(0, k)).is_none(),
    ensures
        table_from_words::<T>(ws).is_none(),
    decreases ws.len(),
{
    let w = T::spec_width() as int;
    let len = ws.len() as int;
    if k < len {
        vstd::arithmetic::div_mod::lemma_fundamental_div_mod(len, w);
        vstd::arithmetic::div_mod::lemma_fundamental_div_mod(k, w);
        let a = len / w;
        let b = k / w;
        assert(len >= k + w) by (nonlinear_arith)
            requires
                len == w * a,
                k == w * b,
                k < len,
                w > 0,
        ;
        let init = ws.subrange(0, len - w);
        assert(init.subrange(0, k) =~= ws.subrange(0, k));
        vstd::arithmetic::div_mod::lemma_mod_sub_multiples_vanish(len, w);
        assert((init.len() as int) % w == 0);
        lemma_table_prefix_fails::<T>(init, k);
    } else {
        assert(ws.subrange(0, k) =~= ws);
    }
}

} // verus!
