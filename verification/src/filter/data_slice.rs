//! The byte ranges of account data that a subscription asks for.

use crate::filter::error::{check_max, max_fault, FilterError, FilterResult};
use crate::geyser::SubscribeRequestAccountsDataSlice;
use crate::seqs::{first_fault, lemma_first_fault_prefix, lemma_first_fault_step};
use vstd::prelude::*;

verus! {

/// The first byte of a slice.
pub open spec fn slice_start(slice: SubscribeRequestAccountsDataSlice) -> int {
    slice.offset as int
}

/// The byte after the last byte of a slice.
pub open spec fn slice_end(slice: SubscribeRequestAccountsDataSlice) -> int {
    slice.offset + slice.length
}

/// Whether the slice at `i` starts after a later slice.
pub open spec fn out_of_order_at(slices: Seq<SubscribeRequestAccountsDataSlice>, i: int) -> bool {
    exists|j: int| i < j < slices.len() && slice_start(slices[i]) > slice_start(#[trigger] slices[j])
}

/// Whether the slice at `i` starts inside or before an earlier slice.
pub open spec fn overlap_at(slices: Seq<SubscribeRequestAccountsDataSlice>, i: int) -> bool {
    exists|j: int| 0 <= j < i && slice_start(slices[i]) < slice_end(#[trigger] slices[j])
}

/// What is wrong with the slice at `i`, if anything: its order is looked at
/// first.
pub open spec fn slice_fault_at(slices: Seq<SubscribeRequestAccountsDataSlice>, i: int) -> Option<
    FilterError,
> {
    if out_of_order_at(slices, i) {
        Some(FilterError::DataSliceOutOfOrder)
    } else if overlap_at(slices, i) {
        Some(FilterError::DataSliceOverlap)
    } else {
        None
    }
}

/// What is wrong with a list of slices, if anything: more slices than the
/// cap, or else the fault of the first slice that has one.
pub open spec fn slices_fault(slices: Seq<SubscribeRequestAccountsDataSlice>, max: usize) -> Option<
    FilterError,
> {
    match max_fault(slices.len(), max) {
        Some(error) => Some(error),
        None => first_fault(Seq::new(slices.len(), |i: int| i), |i: int| slice_fault_at(slices, i)),
    }
}

/// Whether the slices are sorted by their start and none starts before an
/// earlier one ends.
pub open spec fn slices_valid(slices: Seq<SubscribeRequestAccountsDataSlice>) -> bool {
    forall|j: int, i: int|
        0 <= j < i < slices.len() ==> slice_start(#[trigger] slices[j]) <= slice_start(
            #[trigger] slices[i],
        ) && slice_end(slices[j]) <= slice_start(slices[i])
}

/// Whether a slice lies within data of `len` bytes.
pub open spec fn slice_applies(slice: SubscribeRequestAccountsDataSlice, len: nat) -> bool {
    slice_end(slice) <= len
}

/// The bytes of the slices that lie within the data, one slice after the
/// other.
pub open spec fn sliced(data: Seq<u8>, slices: Seq<SubscribeRequestAccountsDataSlice>) -> Seq<u8>
    decreases slices.len(),
{
    if slices.len() == 0 {
        Seq::empty()
    } else if slice_applies(slices.last(), data.len()) {
        sliced(data, slices.drop_last()) + data.subrange(
            slice_start(slices.last()),
            slice_end(slices.last()),
        )
    } else {
        sliced(data, slices.drop_last())
    }
}

/// The total length of the slices that lie within data of `len` bytes.
pub open spec fn sliced_len(len: nat, slices: Seq<SubscribeRequestAccountsDataSlice>) -> nat
    decreases slices.len(),
{
    if slices.len() == 0 {
        0
    } else if slice_applies(slices.last(), len) {
        sliced_len(len, slices.drop_last()) + slices.last().length as nat
    } else {
        sliced_len(len, slices.drop_last())
    }
}

/// What a subscriber receives of account data: all of it where no slice was
/// asked for, and else the bytes of the slices that lie within the data.
pub open spec fn projected(data: Seq<u8>, slices: Seq<SubscribeRequestAccountsDataSlice>) -> Seq<
    u8,
> {
    if slices.len() == 0 {
        data
    } else {
        sliced(data, slices)
    }
}

/// Slicing yields as many bytes as the slices within the data are long. It
/// holds for any list of slices, validated or not.
pub proof fn lemma_sliced_len(data: Seq<u8>, slices: Seq<SubscribeRequestAccountsDataSlice>)
    ensures
        sliced(data, slices).len() == sliced_len(data.len(), slices),
    decreases slices.len(),
{
    if slices.len() > 0 {
        lemma_sliced_len(data, slices.drop_last());
    }
}

/// A list of slices has no fault of order or overlap exactly when it is
/// sorted by start and no slice starts before an earlier one ends.
pub proof fn lemma_slices_valid(slices: Seq<SubscribeRequestAccountsDataSlice>)
    ensures
        slices_valid(slices) <==> first_fault(
            Seq::new(slices.len(), |i: int| i),
            |i: int| slice_fault_at(slices, i),
        ).is_none(),
{
    let indices = Seq::new(slices.len(), |i: int| i);
    let fault = |i: int| slice_fault_at(slices, i);
    lemma_no_fault_all(indices, fault);
    if slices_valid(slices) {
        assert forall|i: int| 0 <= i < indices.len() implies (#[trigger] fault(indices[i])).is_none() by {
            if out_of_order_at(slices, i) {
                let j = choose|j: int|
                    i < j < slices.len() && slice_start(slices[i]) > slice_start(
                        #[trigger] slices[j],
                    );
                assert(slice_start(slices[i]) <= slice_start(slices[j]));
            }
            if overlap_at(slices, i) {
                let j = choose|j: int|
                    0 <= j < i && slice_start(slices[i]) < slice_end(#[trigger] slices[j]);
                assert(slice_end(slices[j]) <= slice_start(slices[i]));
            }
        }
    }
    if first_fault(indices, fault).is_none() {
        assert forall|j: int, i: int| 0 <= j < i < slices.len() implies slice_start(
            #[trigger] slices[j],
        ) <= slice_start(#[trigger] slices[i]) && slice_end(slices[j]) <= slice_start(
            slices[i],
        ) by {
            assert(fault(indices[j]).is_none());
            assert(fault(indices[i]).is_none());
            assert(!out_of_order_at(slices, j));
            assert(!overlap_at(slices, i));
        }
    }
}

/// There is no first fault exactly when no item has a fault.
pub proof fn lemma_no_fault_all<T, E>(items: Seq<T>, fault: spec_fn(T) -> Option<E>)
    ensures
        first_fault(items, fault).is_none() <==> (forall|i: int|
            0 <= i < items.len() ==> (#[trigger] fault(items[i])).is_none()),
    decreases items.len(),
{
    if items.len() > 0 {
        lemma_no_fault_all(items.drop_last(), fault);
        if first_fault(items, fault).is_none() {
            assert forall|i: int| 0 <= i < items.len() implies (#[trigger] fault(
                items[i],
            )).is_none() by {
                if i < items.len() - 1 {
                    assert(fault(items.drop_last()[i]).is_none());
                }
            }
        } else {
            if first_fault(items.drop_last(), fault).is_none() {
                assert(fault(items[items.len() - 1]).is_some());
            } else {
                let i = choose|i: int|
                    0 <= i < items.drop_last().len() && !(#[trigger] fault(
                        items.drop_last()[i],
                    )).is_none();
                assert(fault(items[i]).is_some());
            }
        }
    }
}

/// The validated byte ranges of one subscription.
#[derive(Debug, Clone)]
pub struct FilterAccountsDataSlice {
    slices: Vec<SubscribeRequestAccountsDataSlice>,
}

impl View for FilterAccountsDataSlice {
    type V = Seq<SubscribeRequestAccountsDataSlice>;

    closed spec fn view(&self) -> Seq<SubscribeRequestAccountsDataSlice> {
        self.slices@
    }
}

impl FilterAccountsDataSlice {
    /// No slices: account data passes through whole.
    pub fn empty() -> (res: FilterAccountsDataSlice)
        ensures
            res@ == Seq::<SubscribeRequestAccountsDataSlice>::empty(),
    {
        FilterAccountsDataSlice { slices: Vec::new() }
    }

    /// The slices.
    pub fn as_ref(&self) -> (slices: &Vec<SubscribeRequestAccountsDataSlice>)
        ensures
            slices@ == self@,
    {
        &self.slices
    }

    /// Whether the slice at `i` starts after a later slice.
    fn out_of_order(slices: &Vec<SubscribeRequestAccountsDataSlice>, i: usize) -> (found: bool)
        requires
            i < slices@.len(),
        ensures
            found == out_of_order_at(slices@, i as int),
    {
        let len = slices.len();
        let mut j: usize = i + 1;
        while j < len
            invariant
                i < j <= len,
                len == slices.len(),
                forall|k: int|
                    i < k < j ==> slice_start(slices@[i as int]) <= slice_start(
                        #[trigger] slices@[k],
                    ),
            decreases len - j,
        {
            if slices[i].offset > slices[j].offset {
                return true;
            }
            j += 1;
        }
        false
    }

    /// Whether the slice at `i` starts inside or before an earlier slice.
    fn overlaps(slices: &Vec<SubscribeRequestAccountsDataSlice>, i: usize) -> (found: bool)
        requires
            i < slices@.len(),
        ensures
            found == overlap_at(slices@, i as int),
    {
        let mut j: usize = 0;
        while j < i
            invariant
                j <= i < slices.len(),
                forall|k: int|
                    0 <= k < j ==> slice_start(slices@[i as int]) >= slice_end(
                        #[trigger] slices@[k],
                    ),
            decreases i - j,
        {
            let end: u128 = slices[j].offset as u128 + slices[j].length as u128;
            if (slices[i].offset as u128) < end {
                return true;
            }
            j += 1;
        }
        false
    }

    /// Validates the slices of a request.
    pub fn new(slices: &Vec<SubscribeRequestAccountsDataSlice>, limits: usize) -> (res:
        FilterResult<FilterAccountsDataSlice>)
        ensures
            match slices_fault(slices@, limits) {
                Some(error) => res == Err::<FilterAccountsDataSlice, FilterError>(error),
                None => res.is_ok() && res.unwrap()@ == slices@,
            },
    {
        match check_max(slices.len(), limits) {
            Ok(()) => {},
            Err(error) => {
                return Err(error);
            },
        }
        let ghost indices = Seq::new(slices@.len(), |i: int| i);
        let ghost fault = |i: int| slice_fault_at(slices@, i);
        let mut kept: Vec<SubscribeRequestAccountsDataSlice> = Vec::new();
        let mut i: usize = 0;
        assert(indices.take(0) =~= Seq::<int>::empty());
        while i < slices.len()
            invariant
                i <= slices.len(),
                indices == Seq::new(slices@.len(), |i: int| i),
                fault == |i: int| slice_fault_at(slices@, i),
                max_fault(slices@.len(), limits).is_none(),
                first_fault(indices.take(i as int), fault).is_none(),
                kept@ == slices@.take(i as int),
            decreases slices.len() - i,
        {
            proof {
                lemma_first_fault_step(indices, fault, i as int);
            }
            if Self::out_of_order(slices, i) {
                proof {
                    lemma_first_fault_prefix(indices, fault, i + 1);
                }
                return Err(FilterError::DataSliceOutOfOrder);
            }
            if Self::overlaps(slices, i) {
                proof {
                    lemma_first_fault_prefix(indices, fault, i + 1);
                }
                return Err(FilterError::DataSliceOverlap);
            }
            kept.push(slices[i]);
            assert(kept@ =~= slices@.take(i + 1));
            i += 1;
        }
        assert(indices.take(i as int) =~= indices);
        assert(slices@.take(i as int) =~= slices@);
        Ok(FilterAccountsDataSlice { slices: kept })
    }

    /// What a subscriber receives of `data`.
    pub fn apply(&self, data: &Vec<u8>) -> (out: Vec<u8>)
        ensures
            out@ == projected(data@, self@),
    {
        if self.slices.len() == 0 {
            return crate::shared::clone_bytes(data);
        }
        let mut out: Vec<u8> = Vec::new();
        let mut i: usize = 0;
        assert(self.slices@.take(0) =~= Seq::<SubscribeRequestAccountsDataSlice>::empty());
        while i < self.slices.len()
            invariant
                i <= self.slices.len(),
                out@ == sliced(data@, self.slices@.take(i as int)),
            decreases self.slices.len() - i,
        {
            assert(self.slices@.take(i + 1).drop_last() =~= self.slices@.take(i as int));
            let slice = self.slices[i];
            let end: u128 = slice.offset as u128 + slice.length as u128;
            if end <= data.len() as u128 {
                let ghost before = out@;
                let mut k: usize = slice.offset as usize;
                let stop: usize = end as usize;
                while k < stop
                    invariant
                        slice.offset <= k <= stop <= data.len(),
                        out@ == before + data@.subrange(slice.offset as int, k as int),
                    decreases stop - k,
                {
                    out.push(data[k]);
                    assert(out@ =~= before + data@.subrange(slice.offset as int, k + 1));
                    k += 1;
                }
            }
            i += 1;
        }
        assert(self.slices@.take(i as int) =~= self.slices@);
        out
    }
}

impl Default for FilterAccountsDataSlice {
    /// No slices: account data passes through whole.
    fn default() -> (res: FilterAccountsDataSlice)
        ensures
            res@ == Seq::<SubscribeRequestAccountsDataSlice>::empty(),
    {
        FilterAccountsDataSlice::empty()
    }
}

} // verus!
