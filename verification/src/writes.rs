//! Batched index writes and the laws that make unsynchronized sharing sound.
//!
//! A concurrent phase over a tiered wrapper is, observationally, some
//! interleaving of the per-thread write sequences.  The lemmas here show that
//! when the threads write to disjoint index sets, every interleaving produces
//! the same final contents — running one thread's writes to completion and
//! then the other's.  This is the sense in which disjoint-index access needs
//! no synchronization: the outcome does not depend on the schedule.

use vstd::prelude::*;
use crate::owned_slice::OwnedParSlice;
use crate::collection::TrustedSizedCollection;
use crate::no_ref::UnsafeNoRefIndex;

verus! {

/// `s` after performing `ws` in order: each write `(i, v)` replaces the
/// element at index `i` with `v`.
pub open spec fn apply_writes<T>(s: Seq<T>, ws: Seq<(usize, T)>) -> Seq<T>
    decreases ws.len(),
{
    if ws.len() == 0 {
        s
    } else {
        apply_writes(s, ws.drop_last()).update(ws.last().0 as int, ws.last().1)
    }
}

/// The value of the last write in `ws` that targets index `i`, if any.
pub open spec fn last_write_to<T>(ws: Seq<(usize, T)>, i: usize) -> Option<T>
    decreases ws.len(),
{
    if ws.len() == 0 {
        None
    } else if ws.last().0 == i {
        Some(ws.last().1)
    } else {
        last_write_to(ws.drop_last(), i)
    }
}

/// Every write in `ws` targets an index below `len`.
pub open spec fn writes_in_bounds<T>(ws: Seq<(usize, T)>, len: nat) -> bool {
    forall|k: int| 0 <= k < ws.len() ==> (#[trigger] ws[k].0 as nat) < len
}

/// Some write in `ws` targets index `i`.
pub open spec fn writes_touch<T>(ws: Seq<(usize, T)>, i: usize) -> bool {
    exists|k: int| 0 <= k < ws.len() && (#[trigger] ws[k].0) == i
}

/// The two write sequences target disjoint index sets.
pub open spec fn disjoint_writes<T>(wa: Seq<(usize, T)>, wb: Seq<(usize, T)>) -> bool {
    forall|j: int, k: int|
        0 <= j < wa.len() && 0 <= k < wb.len() ==> (#[trigger] wa[j].0) != (#[trigger] wb[k].0)
}

/// `ws` is a merge of `wa` and `wb` that keeps the relative order of each:
/// one possible schedule of two threads whose program-order writes are `wa`
/// and `wb`.
pub open spec fn is_interleaving<T>(
    ws: Seq<(usize, T)>,
    wa: Seq<(usize, T)>,
    wb: Seq<(usize, T)>,
) -> bool
    decreases ws.len(),
{
    if ws.len() == 0 {
        wa.len() == 0 && wb.len() == 0
    } else {
        (wa.len() > 0 && ws.last() == wa.last() && is_interleaving(
            ws.drop_last(),
            wa.drop_last(),
            wb,
        )) || (wb.len() > 0 && ws.last() == wb.last() && is_interleaving(
            ws.drop_last(),
            wa,
            wb.drop_last(),
        ))
    }
}

/// Applying in-bounds writes never changes the length.
pub proof fn lemma_apply_writes_len<T>(s: Seq<T>, ws: Seq<(usize, T)>)
    requires
        writes_in_bounds(ws, s.len()),
    ensures
        apply_writes(s, ws).len() == s.len(),
    decreases ws.len(),
{
    if ws.len() > 0 {
        assert(writes_in_bounds(ws.drop_last(), s.len())) by {
            assert(forall|k: int|
                0 <= k < ws.drop_last().len() ==> ws.drop_last()[k] == ws[k]);
        }
        lemma_apply_writes_len(s, ws.drop_last());
        assert((ws[ws.len() - 1].0 as nat) < s.len());
    }
}

/// What a batch of writes leaves at each index: the value of the last write
/// that targeted it, or the original element where no write did.  In
/// particular, indices outside the written set keep their original values.
pub proof fn lemma_apply_writes_at<T>(s: Seq<T>, ws: Seq<(usize, T)>, i: usize)
    requires
        writes_in_bounds(ws, s.len()),
        (i as nat) < s.len(),
    ensures
        apply_writes(s, ws)[i as int] == match last_write_to(ws, i) {
            Some(v) => v,
            None => s[i as int],
        },
    decreases ws.len(),
{
    lemma_apply_writes_len(s, ws);
    if ws.len() > 0 {
        assert(writes_in_bounds(ws.drop_last(), s.len()));
        lemma_apply_writes_at(s, ws.drop_last(), i);
        lemma_apply_writes_len(s, ws.drop_last());
    }
}

/// An update at an index that `ws` never touches commutes past the whole
/// batch.
proof fn lemma_update_commutes<T>(s: Seq<T>, ws: Seq<(usize, T)>, i: usize, v: T)
    requires
        writes_in_bounds(ws, s.len()),
        (i as nat) < s.len(),
        !writes_touch(ws, i),
    ensures
        apply_writes(s.update(i as int, v), ws) == apply_writes(s, ws).update(i as int, v),
    decreases ws.len(),
{
    if ws.len() == 0 {
    } else {
        let wsp = ws.drop_last();
        let w = ws.last();
        assert(writes_in_bounds(wsp, s.len()));
        assert(!writes_touch(wsp, i)) by {
            assert(forall|k: int| 0 <= k < wsp.len() ==> wsp[k] == ws[k]);
        }
        assert(w.0 != i) by {
            assert(ws[ws.len() - 1] == w);
        }
        lemma_update_commutes(s, wsp, i, v);
        lemma_apply_writes_len(s, wsp);
        assert(apply_writes(s.update(i as int, v), ws) == apply_writes(s, wsp).update(
            i as int,
            v,
        ).update(w.0 as int, w.1));
        assert(apply_writes(s, wsp).update(i as int, v).update(w.0 as int, w.1) =~= apply_writes(
            s,
            wsp,
        ).update(w.0 as int, w.1).update(i as int, v));
    }
}

/// Scheduling independence for disjoint writers: any interleaving of two
/// write sequences over disjoint index sets produces exactly the contents
/// obtained by running the first sequence to completion and then the second.
pub proof fn lemma_interleaving_schedule_independent<T>(
    s: Seq<T>,
    ws: Seq<(usize, T)>,
    wa: Seq<(usize, T)>,
    wb: Seq<(usize, T)>,
)
    requires
        is_interleaving(ws, wa, wb),
        disjoint_writes(wa, wb),
        writes_in_bounds(wa, s.len()),
        writes_in_bounds(wb, s.len()),
    ensures
        apply_writes(s, ws) == apply_writes(apply_writes(s, wa), wb),
    decreases ws.len(),
{
    lemma_apply_writes_len(s, wa);
    if ws.len() == 0 {
    } else if wb.len() > 0 && ws.last() == wb.last() && is_interleaving(
        ws.drop_last(),
        wa,
        wb.drop_last(),
    ) {
        let wbp = wb.drop_last();
        assert(writes_in_bounds(wbp, s.len())) by {
            assert(forall|k: int| 0 <= k < wbp.len() ==> wbp[k] == wb[k]);
        }
        assert(disjoint_writes(wa, wbp)) by {
            assert(forall|k: int| 0 <= k < wbp.len() ==> wbp[k] == wb[k]);
        }
        lemma_interleaving_schedule_independent(s, ws.drop_last(), wa, wbp);
    } else {
        let wap = wa.drop_last();
        let w = wa.last();
        assert(ws.last() == w && is_interleaving(ws.drop_last(), wap, wb));
        assert(writes_in_bounds(wap, s.len())) by {
            assert(forall|k: int| 0 <= k < wap.len() ==> wap[k] == wa[k]);
        }
        assert(disjoint_writes(wap, wb)) by {
            assert(forall|k: int| 0 <= k < wap.len() ==> wap[k] == wa[k]);
        }
        lemma_interleaving_schedule_independent(s, ws.drop_last(), wap, wb);
        lemma_apply_writes_len(s, wap);
        assert(!writes_touch(wb, w.0)) by {
            assert(wa[wa.len() - 1] == w);
        }
        assert((w.0 as nat) < s.len()) by {
            assert(wa[wa.len() - 1] == w);
        }
        lemma_update_commutes(apply_writes(s, wap), wb, w.0, w.1);
        assert(apply_writes(s, wa) == apply_writes(s, wap).update(w.0 as int, w.1));
    }
}

/// Running one writer to completion and then the other is itself one of the
/// interleavings.
pub proof fn lemma_concat_is_interleaving<T>(wa: Seq<(usize, T)>, wb: Seq<(usize, T)>)
    ensures
        is_interleaving(wa + wb, wa, wb),
    decreases wb.len(),
{
    if wb.len() == 0 {
        assert(wa + wb =~= wa);
        assert(wb =~= Seq::<(usize, T)>::empty());
        lemma_self_interleaving(wa);
    } else {
        lemma_concat_is_interleaving(wa, wb.drop_last());
        assert((wa + wb).drop_last() =~= wa + wb.drop_last());
        assert((wa + wb).last() == wb.last());
    }
}

/// A sequence is an interleaving of itself with the empty sequence.
proof fn lemma_self_interleaving<T>(ws: Seq<(usize, T)>)
    ensures
        is_interleaving(ws, ws, Seq::<(usize, T)>::empty()),
    decreases ws.len(),
{
    if ws.len() > 0 {
        lemma_self_interleaving(ws.drop_last());
    }
}

/// Interleaving does not care which writer is named first.
pub proof fn lemma_interleaving_symmetric<T>(
    ws: Seq<(usize, T)>,
    wa: Seq<(usize, T)>,
    wb: Seq<(usize, T)>,
)
    requires
        is_interleaving(ws, wa, wb),
    ensures
        is_interleaving(ws, wb, wa),
    decreases ws.len(),
{
    if ws.len() > 0 {
        if wa.len() > 0 && ws.last() == wa.last() && is_interleaving(
            ws.drop_last(),
            wa.drop_last(),
            wb,
        ) {
            lemma_interleaving_symmetric(ws.drop_last(), wa.drop_last(), wb);
        } else {
            lemma_interleaving_symmetric(ws.drop_last(), wa, wb.drop_last());
        }
    }
}

/// Disjoint writers commute: with disjoint index sets, running `wa` then
/// `wb` leaves the same contents as running `wb` then `wa`.
pub proof fn lemma_disjoint_writers_commute<T>(
    s: Seq<T>,
    wa: Seq<(usize, T)>,
    wb: Seq<(usize, T)>,
)
    requires
        disjoint_writes(wa, wb),
        writes_in_bounds(wa, s.len()),
        writes_in_bounds(wb, s.len()),
    ensures
        apply_writes(apply_writes(s, wa), wb) == apply_writes(apply_writes(s, wb), wa),
{
    lemma_concat_is_interleaving(wa, wb);
    lemma_interleaving_schedule_independent(s, wa + wb, wa, wb);
    lemma_interleaving_symmetric(wa + wb, wa, wb);
    assert(disjoint_writes(wb, wa));
    lemma_interleaving_schedule_independent(s, wa + wb, wb, wa);
}

impl<T: Copy> OwnedParSlice<T> {
    /// Performs a batch of single-element writes in order.
    ///
    /// Together with the lemmas above, this ties a whole phase of
    /// `set_value` calls to its sequence-level meaning: the final contents
    /// are [`apply_writes`] of the original contents, however the phase was
    /// scheduled across disjoint writers.
    pub fn perform_writes(&mut self, writes: &Vec<(usize, T)>)
        requires
            old(self).wf(),
            writes_in_bounds(writes@, old(self)@.len()),
        ensures
            final(self)@ == apply_writes(old(self)@, writes@),
            final(self).wf(),
    {
        proof {
            self.elems_count();
        }
        let mut k: usize = 0;
        while k < writes.len()
            invariant
                self.wf(),
                self@.len() == old(self)@.len(),
                self.spec_len() == self@.len(),
                k <= writes@.len(),
                writes_in_bounds(writes@, old(self)@.len()),
                self@ == apply_writes(old(self)@, writes@.take(k as int)),
            decreases writes@.len() - k,
        {
            let (i, v) = writes[k];
            proof {
                assert(writes@[k as int].0 == i && writes@[k as int].1 == v);
                assert(writes@.take(k as int + 1).drop_last() =~= writes@.take(k as int));
                assert(writes@.take(k as int + 1).last() == writes@[k as int]);
            }
            self.set_value(i, v);
            k = k + 1;
            proof {
                self.elems_count();
            }
        }
        proof {
            assert(writes@.take(writes@.len() as int) =~= writes@);
        }
    }
}

} // verus!
