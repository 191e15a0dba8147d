//! Derivation of the subscription bitmask requested from the server.
//!
//! The mask reflects only the facility dimension: operation filtering is
//! never pushed to the server and happens entirely client-side in the
//! dispatcher.

use vstd::prelude::*;
use crate::vocab::Facility;

verus! {

/// The mask that requests every facility.
pub const FULL_MASK: u32 = 0xff;

/// The bit position a facility occupies in the subscription mask.
pub open spec fn facility_index(f: Facility) -> u32 {
    match f {
        Facility::Sink => 0,
        Facility::Source => 1,
        Facility::SinkInput => 2,
        Facility::SourceOutput => 3,
        Facility::Module => 4,
        Facility::Client => 5,
        Facility::SampleCache => 6,
        Facility::Server => 7,
    }
}

/// The interest-mask bit of a facility.
pub open spec fn facility_mask_bit(f: Facility) -> u32 {
    1u32 << facility_index(f)
}

/// The bitwise OR of the interest-mask bits of the listed facilities.
pub open spec fn or_of_masks(list: Seq<Facility>) -> u32
    decreases list.len(),
{
    if list.len() == 0 {
        0u32
    } else {
        or_of_masks(list.drop_last()) | facility_mask_bit(list.last())
    }
}

/// The mask the subscriber requests: everything in debug mode or when no
/// facility filter is given, else exactly the union of the listed
/// facilities' bits.
pub open spec fn spec_subscription_mask(debug: bool, facilities: Option<Seq<Facility>>) -> u32 {
    if debug {
        FULL_MASK
    } else {
        match facilities {
            None => FULL_MASK,
            Some(list) => or_of_masks(list),
        }
    }
}

/// The view of an optional facility list.
pub open spec fn facilities_view(facilities: Option<Vec<Facility>>) -> Option<Seq<Facility>> {
    match facilities {
        None => None,
        Some(list) => Some(list@),
    }
}

/// The interest-mask bit of a facility, as passed to the server.
pub fn interest_mask(f: Facility) -> (r: u32)
    ensures
        r == facility_mask_bit(f),
{
    proof {
        assert(1u32 << 0u32 == 0x1u32 && 1u32 << 1u32 == 0x2u32 && 1u32 << 2u32 == 0x4u32 && 1u32
            << 3u32 == 0x8u32 && 1u32 << 4u32 == 0x10u32 && 1u32 << 5u32 == 0x20u32 && 1u32 << 6u32
            == 0x40u32 && 1u32 << 7u32 == 0x80u32) by (bit_vector);
    }
    match f {
        Facility::Sink => 0x1,
        Facility::Source => 0x2,
        Facility::SinkInput => 0x4,
        Facility::SourceOutput => 0x8,
        Facility::Module => 0x10,
        Facility::Client => 0x20,
        Facility::SampleCache => 0x40,
        Facility::Server => 0x80,
    }
}

/// Builds the subscription mask from the debug flag and the facility
/// filter, as the server is asked for it at subscribe time.
pub fn build_subscription_mask(debug: bool, facilities: &Option<Vec<Facility>>) -> (r: u32)
    ensures
        r == spec_subscription_mask(debug, facilities_view(*facilities)),
{
    if debug {
        FULL_MASK
    } else {
        match facilities {
            None => FULL_MASK,
            Some(list) => {
                let mut mask: u32 = 0;
                let mut i: usize = 0;
                while i < list.len()
                    invariant
                        i <= list@.len(),
                        mask == or_of_masks(list@.take(i as int)),
                    decreases list@.len() - i,
                {
                    proof {
                        assert(list@.take(i as int + 1).drop_last() =~= list@.take(i as int));
                        assert(list@.take(i as int + 1).last() == list@[i as int]);
                    }
                    mask = mask | interest_mask(list[i]);
                    i = i + 1;
                }
                proof {
                    assert(list@.take(list@.len() as int) =~= list@);
                }
                mask
            },
        }
    }
}

/// Debug mode requests the full mask irrespective of the facility filter;
/// so does the absence of a filter; a present filter requests exactly the
/// union of its facilities' bits, which for an empty list is the zero mask.
pub proof fn lemma_mask_builder(debug: bool, facilities: Option<Seq<Facility>>)
    ensures
        debug ==> spec_subscription_mask(debug, facilities) == FULL_MASK,
        !debug && facilities is None ==> spec_subscription_mask(debug, facilities) == FULL_MASK,
        facilities matches Some(list) ==> (!debug ==> spec_subscription_mask(debug, facilities)
            == or_of_masks(list)),
        facilities matches Some(list) ==> (!debug && list.len() == 0 ==> spec_subscription_mask(
            debug,
            facilities,
        ) == 0),
{
}

/// A listed facility's bit is set in the derived mask; an unlisted one's
/// bit is clear.
pub proof fn lemma_mask_membership(list: Seq<Facility>, f: Facility)
    ensures
        list.contains(f) ==> or_of_masks(list) & facility_mask_bit(f) == facility_mask_bit(f),
        !list.contains(f) ==> or_of_masks(list) & facility_mask_bit(f) == 0,
    decreases list.len(),
{
    let k = facility_index(f);
    if list.len() == 0 {
        assert(0u32 & (1u32 << k) == 0) by (bit_vector);
    } else {
        let rest = or_of_masks(list.drop_last());
        let last = list.last();
        lemma_mask_membership(list.drop_last(), f);
        if last == f {
            let x = rest;
            assert((x | (1u32 << k)) & (1u32 << k) == (1u32 << k)) by (bit_vector);
            assert(list.contains(f)) by {
                assert(list[list.len() - 1] == f);
            }
        } else {
            let k2 = facility_index(last);
            assert(k != k2) by {
                if facility_index(f) == facility_index(last) {
                    assert(f == last);
                }
            }
            if list.drop_last().contains(f) {
                let x = rest;
                assert(x & (1u32 << k) == (1u32 << k) && k != k2 && k < 8 && k2 < 8 ==> (x | (1u32
                    << k2)) & (1u32 << k) == (1u32 << k)) by (bit_vector);
                assert(list.contains(f)) by {
                    let i = choose|i: int|
                        0 <= i < list.drop_last().len() && list.drop_last()[i] == f;
                    assert(list[i] == f);
                }
            } else {
                let x = rest;
                assert(x & (1u32 << k) == 0 && k != k2 && k < 8 && k2 < 8 ==> (x | (1u32 << k2)) & (
                1u32 << k) == 0) by (bit_vector);
                assert(!list.contains(f)) by {
                    if list.contains(f) {
                        let i = choose|i: int| 0 <= i < list.len() && list[i] == f;
                        assert(i < list.len() - 1);
                        assert(list.drop_last()[i] == f);
                    }
                }
            }
        }
    }
}

/// Every facility's bit is set in the full mask: the default subscription
/// covers the whole vocabulary.
pub proof fn lemma_full_mask_covers(f: Facility)
    ensures
        FULL_MASK & facility_mask_bit(f) == facility_mask_bit(f),
{
    let k = facility_index(f);
    assert(k < 8 ==> 0xffu32 & (1u32 << k) == (1u32 << k)) by (bit_vector);
}

} // verus!
