//! Annex-B byte streams: finding the NAL units between start codes.

use vstd::prelude::*;

verus! {

/// NAL unit type of an instantaneous decoder refresh picture.
pub const NAL_IDR: u8 = 5;

/// NAL unit type of a sequence parameter set.
pub const NAL_SPS: u8 = 7;

/// NAL unit type of a picture parameter set.
pub const NAL_PPS: u8 = 8;

/// The four-byte start code that is put back in front of a cached parameter set.
pub open spec fn start_code() -> Seq<u8> {
    seq![0u8, 0u8, 0u8, 1u8]
}

/// The type of a NAL unit: the low five bits of its first byte.
pub open spec fn nal_type_of(header: u8) -> int {
    header as int % 32
}

/// `00 00 01` stands at `i` and at least one byte follows it.
pub open spec fn short_code_at(data: Seq<u8>, i: int) -> bool {
    &&& 0 <= i
    &&& i + 3 < data.len()
    &&& data[i] == 0
    &&& data[i + 1] == 0
    &&& data[i + 2] == 1
}

/// `00 00 00 01` stands at `i` and at least one byte follows it.
pub open spec fn long_code_at(data: Seq<u8>, i: int) -> bool {
    &&& 0 <= i
    &&& i + 4 < data.len()
    &&& data[i] == 0
    &&& data[i + 1] == 0
    &&& data[i + 2] == 0
    &&& data[i + 3] == 1
}

/// A NAL unit that is being read stops in front of `i`: a three- or four-byte
/// start code begins there, and `i` is not among the last three bytes.
pub open spec fn boundary_at(data: Seq<u8>, i: int) -> bool {
    &&& 0 <= i
    &&& i + 3 < data.len()
    &&& data[i] == 0
    &&& data[i + 1] == 0
    &&& (data[i + 2] == 1 || (data[i + 2] == 0 && data[i + 3] == 1))
}

/// Where the payload behind the first start code at or after `from` begins,
/// if there is such a start code.
pub open spec fn next_payload(data: Seq<u8>, from: int) -> Option<int>
    decreases data.len() - from,
{
    if from < 0 || from + 3 >= data.len() {
        None
    } else if short_code_at(data, from) {
        Some(from + 3)
    } else if long_code_at(data, from) {
        Some(from + 4)
    } else {
        next_payload(data, from + 1)
    }
}

/// Where the NAL unit whose payload begins at `start` ends: in front of the
/// first boundary at or after `start`, or with the data.
pub open spec fn nal_end(data: Seq<u8>, start: int) -> int
    decreases data.len() - start,
{
    if start < 0 || start + 3 >= data.len() {
        data.len() as int
    } else if boundary_at(data, start) {
        start
    } else {
        nal_end(data, start + 1)
    }
}

/// The NAL units found when the scan starts at `from`. A start code that is
/// directly followed by another one holds no unit.
pub open spec fn nals_from(data: Seq<u8>, from: int) -> Seq<Seq<u8>>
    decreases data.len() - from,
{
    match next_payload(data, from) {
        None => Seq::empty(),
        Some(start) => {
            let end = nal_end(data, start);
            if from < start <= end <= data.len() {
                let rest = nals_from(data, end);
                if start < end {
                    seq![data.subrange(start, end)] + rest
                } else {
                    rest
                }
            } else {
                Seq::empty()
            }
        },
    }
}

/// The NAL units of an Annex-B frame, in the order in which they stand in it,
/// each without its start code.
pub open spec fn annexb_nals(data: Seq<u8>) -> Seq<Seq<u8>> {
    nals_from(data, 0)
}

/// The NAL unit is of type `t`.
pub open spec fn nal_has_type(nal: Seq<u8>, t: int) -> bool {
    nal.len() > 0 && nal_type_of(nal[0]) == t
}

/// One of the NAL units is of type `t`.
pub open spec fn has_nal_of_type(nals: Seq<Seq<u8>>, t: int) -> bool {
    exists|k: int| 0 <= k < nals.len() && nal_has_type(#[trigger] nals[k], t)
}

/// The last NAL unit of type `t`, if there is one.
pub open spec fn last_nal_of_type(nals: Seq<Seq<u8>>, t: int) -> Option<Seq<u8>>
    decreases nals.len(),
{
    if nals.len() == 0 {
        None
    } else if nal_has_type(nals.last(), t) {
        Some(nals.last())
    } else {
        last_nal_of_type(nals.drop_last(), t)
    }
}

/// What is cached for type `t` once a frame with these NAL units has been
/// seen: its last unit of that type behind a four-byte start code, or what
/// was cached before where it has none.
pub open spec fn cached_after(cached: Option<Seq<u8>>, nals: Seq<Seq<u8>>, t: int) -> Option<
    Seq<u8>,
> {
    match last_nal_of_type(nals, t) {
        Some(nal) => Some(start_code() + nal),
        None => cached,
    }
}

/// The frame holds an instantaneous decoder refresh picture.
pub open spec fn frame_holds_idr(frame: Seq<u8>) -> bool {
    has_nal_of_type(annexb_nals(frame), NAL_IDR as int)
}

/// What a list of borrowed slices holds.
pub open spec fn slice_views(nals: Seq<&[u8]>) -> Seq<Seq<u8>> {
    Seq::new(nals.len(), |k: int| nals[k]@)
}

/// A payload begins behind its start code and inside the data.
pub proof fn lemma_next_payload_bounds(data: Seq<u8>, from: int)
    requires
        0 <= from,
    ensures
        next_payload(data, from) matches Some(start) ==> {
            &&& from + 3 <= start < data.len()
            &&& (short_code_at(data, start - 3) || long_code_at(data, start - 4))
        },
    decreases data.len() - from,
{
    if from + 3 < data.len() && !short_code_at(data, from) && !long_code_at(data, from) {
        lemma_next_payload_bounds(data, from + 1);
    }
}

/// A NAL unit ends at the first boundary behind its start, and at the end of
/// the data if there is none.
pub proof fn lemma_nal_end_is_first_boundary(data: Seq<u8>, start: int)
    requires
        0 <= start <= data.len(),
    ensures
        start <= nal_end(data, start) <= data.len(),
        nal_end(data, start) < data.len() ==> boundary_at(data, nal_end(data, start)),
        forall|j: int| start <= j < nal_end(data, start) ==> !boundary_at(data, j),
        nal_end(data, start) == data.len() ==> forall|j: int|
            start <= j ==> !boundary_at(data, j),
    decreases data.len() - start,
{
    if start + 3 < data.len() && !boundary_at(data, start) {
        lemma_nal_end_is_first_boundary(data, start + 1);
    }
}

/// The guard in `nals_from` always holds: the scan moves forward.
pub proof fn lemma_scan_advances(data: Seq<u8>, from: int)
    requires
        0 <= from,
    ensures
        next_payload(data, from) matches Some(start) ==> from < start <= nal_end(data, start)
            <= data.len(),
{
    lemma_next_payload_bounds(data, from);
    if let Some(start) = next_payload(data, from) {
        lemma_nal_end_is_first_boundary(data, start);
    }
}

/// No NAL unit is empty.
pub proof fn lemma_nals_nonempty(data: Seq<u8>, from: int)
    requires
        0 <= from,
    ensures
        forall|k: int| 0 <= k < nals_from(data, from).len() ==> (#[trigger] nals_from(
            data,
            from,
        )[k]).len() > 0,
    decreases data.len() - from,
{
    lemma_scan_advances(data, from);
    if let Some(start) = next_payload(data, from) {
        let end = nal_end(data, start);
        let rest = nals_from(data, end);
        lemma_nals_nonempty(data, end);
        if start < end {
            let all = nals_from(data, from);
            assert(all == seq![data.subrange(start, end)] + rest);
            assert forall|k: int| 0 <= k < all.len() implies (#[trigger] all[k]).len() > 0 by {
                if k > 0 {
                    assert(all[k] == rest[k - 1]);
                }
            }
        }
    }
}

/// Every NAL unit is a piece of the data that stands right behind a start
/// code and runs up to the next boundary, or to the end of the data.
pub proof fn lemma_nals_are_pieces(data: Seq<u8>, from: int, k: int)
    requires
        0 <= from,
        0 <= k < nals_from(data, from).len(),
    ensures
        exists|start: int|
            {
                &&& from + 3 <= start < #[trigger] nal_end(data, start) <= data.len()
                &&& short_code_at(data, start - 3) || long_code_at(data, start - 4)
                &&& nals_from(data, from)[k] == data.subrange(start, nal_end(data, start))
            },
    decreases data.len() - from,
{
    lemma_scan_advances(data, from);
    lemma_next_payload_bounds(data, from);
    let start = next_payload(data, from)->0;
    let end = nal_end(data, start);
    let rest = nals_from(data, end);
    if start < end && k == 0 {
        assert(nals_from(data, from)[0] == data.subrange(start, nal_end(data, start)));
    } else {
        let shifted = if start < end {
            k - 1
        } else {
            k
        };
        assert(nals_from(data, from)[k] == rest[shifted]);
        lemma_nals_are_pieces(data, end, shifted);
        let later = choose|later: int|
            {
                &&& end + 3 <= later < #[trigger] nal_end(data, later) <= data.len()
                &&& short_code_at(data, later - 3) || long_code_at(data, later - 4)
                &&& rest[shifted] == data.subrange(later, nal_end(data, later))
            };
        assert(from + 3 <= later < nal_end(data, later) <= data.len());
    }
}

/// Splits an Annex-B frame into its NAL units.
pub fn split_annexb_nals(data: &[u8]) -> (nals: Vec<&[u8]>)
    ensures
        slice_views(nals@) == annexb_nals(data@),
{
    let mut nals: Vec<&[u8]> = Vec::new();
    let n: usize = data.len();
    let mut i: usize = 0;
    assert(slice_views(nals@) =~= Seq::<Seq<u8>>::empty());
    while n > 3 && i < n - 3
        invariant
            n == data@.len(),
            i <= n,
            slice_views(nals@) + nals_from(data@, i as int) == annexb_nals(data@),
        decreases n - i,
    {
        let start: usize;
        if data[i] == 0 && data[i + 1] == 0 && data[i + 2] == 1 {
            start = i + 3;
        } else if i + 4 < n && data[i] == 0 && data[i + 1] == 0 && data[i + 2] == 0 && data[i
            + 3] == 1 {
            start = i + 4;
        } else {
            proof {
                lemma_scan_advances(data@, i + 1);
                assert(nals_from(data@, i as int) == nals_from(data@, i + 1));
            }
            i += 1;
            continue ;
        }
        assert(next_payload(data@, i as int) == Some(start as int));

        let mut end: usize = start;
        let mut found: bool = false;
        while !found && end < n - 3
            invariant
                n == data@.len(),
                n > 3,
                start <= end <= n,
                nal_end(data@, end as int) == nal_end(data@, start as int),
                found ==> boundary_at(data@, end as int),
            decreases (n - end) + (if found { 0int } else { 1int }),
        {
            if data[end] == 0 && data[end + 1] == 0 && (data[end + 2] == 1 || (data[end + 2] == 0
                && data[end + 3] == 1)) {
                found = true;
            } else {
                end += 1;
            }
        }
        if !found {
            end = n;
        }
        assert(end as int == nal_end(data@, start as int));

        let ghost before = slice_views(nals@);
        if start < end {
            let nal: &[u8] = &data[start..end];
            nals.push(nal);
            assert(slice_views(nals@) =~= before.push(data@.subrange(start as int, end as int)));
            assert(before.push(data@.subrange(start as int, end as int)) + nals_from(
                data@,
                end as int,
            ) =~= before + (seq![data@.subrange(start as int, end as int)] + nals_from(
                data@,
                end as int,
            )));
        }
        i = end;
    }
    assert(nals_from(data@, i as int) =~= Seq::<Seq<u8>>::empty());
    nals
}

} // verus!
