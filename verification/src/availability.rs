//! Which decoders of a catalog are present, asked once and kept.
//!
//! Asking the registry is slow, and what it answers does not change while
//! the process runs. The cache asks once for each codec, on first demand,
//! and hands out the same record from then on.

use crate::definitions::{Codec, DecoderDef};
use vstd::prelude::*;

verus! {

/// `record` is what asking the registry for every decoder, in catalog order,
/// can lead to: one answer for each decoder.
pub open spec fn probed<F: Fn(&'static str) -> bool>(
    decoders: Seq<DecoderDef>,
    has_element: F,
    record: Seq<bool>,
) -> bool {
    &&& record.len() == decoders.len()
    &&& forall|i: int|
        0 <= i < record.len() ==> call_ensures(has_element, (decoders[i].name,), #[trigger] record[i])
}

/// Asks the registry for every decoder, in catalog order.
pub fn probe_availability<F: Fn(&'static str) -> bool>(
    decoders: &[DecoderDef],
    has_element: F,
) -> (record: Vec<bool>)
    requires
        forall|name: &'static str| call_requires(has_element, (name,)),
    ensures
        probed(decoders@, has_element, record@),
{
    let mut record: Vec<bool> = Vec::new();
    let mut i: usize = 0;
    while i < decoders.len()
        invariant
            i <= decoders@.len(),
            record@.len() == i,
            forall|name: &'static str| call_requires(has_element, (name,)),
            forall|k: int|
                0 <= k < i ==> call_ensures(
                    has_element,
                    (decoders@[k].name,),
                    #[trigger] record@[k],
                ),
        decreases decoders@.len() - i,
    {
        let present = has_element(decoders[i].name);
        record.push(present);
        i += 1;
    }
    record
}

/// The availability records of the codecs that were asked for so far.
pub struct AvailabilityCache {
    mjpeg: Option<Vec<bool>>,
    h264: Option<Vec<bool>>,
    h265: Option<Vec<bool>>,
}

/// What one slot of the cache holds.
spec fn slot_view(slot: Option<Vec<bool>>) -> Option<Seq<bool>> {
    match slot {
        Some(record) => Some(record@),
        None => None,
    }
}

/// A slot is either empty or holds one flag for each decoder of its codec.
spec fn slot_fits(slot: Option<Vec<bool>>, codec: Codec) -> bool {
    slot matches Some(record) ==> record@.len() == codec.catalog().len()
}

/// The cache after a request for `codec` that was answered with `record`:
/// a record that was there is the answer and stays; else the answer is kept.
pub open spec fn served(
    before: Map<Codec, Seq<bool>>,
    codec: Codec,
    record: Seq<bool>,
    after: Map<Codec, Seq<bool>>,
) -> bool {
    &&& before.dom().contains(codec) ==> record == before[codec]
    &&& after == before.insert(codec, record)
}

impl View for AvailabilityCache {
    type V = Map<Codec, Seq<bool>>;

    /// The records by codec; a codec that was never asked for has none.
    closed spec fn view(&self) -> Map<Codec, Seq<bool>> {
        Map::new(
            |codec: Codec| self.slot(codec) is Some,
            |codec: Codec| self.slot(codec)->0,
        )
    }
}

impl AvailabilityCache {
    /// The record of a codec, if it was asked for.
    spec fn slot(&self, codec: Codec) -> Option<Seq<bool>> {
        match codec {
            Codec::Mjpeg => slot_view(self.mjpeg),
            Codec::H264 => slot_view(self.h264),
            Codec::H265 => slot_view(self.h265),
        }
    }

    /// Every record has one flag for each decoder of its codec's catalog.
    #[verifier::type_invariant]
    spec fn wf(&self) -> bool {
        &&& slot_fits(self.mjpeg, Codec::Mjpeg)
        &&& slot_fits(self.h264, Codec::H264)
        &&& slot_fits(self.h265, Codec::H265)
    }

    /// A cache that has asked for nothing yet.
    pub fn new() -> (cache: Self)
        ensures
            cache@ == Map::<Codec, Seq<bool>>::empty(),
    {
        let cache = AvailabilityCache { mjpeg: None, h264: None, h265: None };
        assert(cache@ =~= Map::<Codec, Seq<bool>>::empty());
        cache
    }

    /// The record of a codec, if it was asked for before.
    pub fn lookup(&self, codec: Codec) -> (record: Option<Vec<bool>>)
        ensures
            (match record {
                Some(r) => self@.dom().contains(codec) && r@ == self@[codec] && r@.len()
                    == codec.catalog().len(),
                None => !self@.dom().contains(codec),
            }),
    {
        proof {
            use_type_invariant(self);
        }
        let slot = match codec {
            Codec::Mjpeg => &self.mjpeg,
            Codec::H264 => &self.h264,
            Codec::H265 => &self.h265,
        };
        match slot {
            Some(record) => Some(record.clone()),
            None => None,
        }
    }

    /// The availability record of a codec. The first request for a codec asks
    /// the registry for every decoder of its catalog, in catalog order, and
    /// keeps the answers; every later request gets the record that was kept,
    /// and the registry is not asked again.
    pub fn get_availability<F: Fn(&'static str) -> bool>(
        &mut self,
        codec: Codec,
        has_element: F,
    ) -> (record: Vec<bool>)
        requires
            forall|name: &'static str| call_requires(has_element, (name,)),
        ensures
            served(old(self)@, codec, record@, final(self)@),
            record@.len() == codec.catalog().len(),
            !old(self)@.dom().contains(codec) ==> probed(codec.catalog(), has_element, record@),
    {
        match self.lookup(codec) {
            Some(record) => {
                assert(self@ =~= old(self)@.insert(codec, record@));
                record
            },
            None => {
                let decoders = codec.decoders();
                let record = probe_availability(decoders.as_slice(), has_element);
                let kept = record.clone();
                proof {
                    use_type_invariant(&*self);
                }
                match codec {
                    Codec::Mjpeg => {
                        self.mjpeg = Some(kept);
                    },
                    Codec::H264 => {
                        self.h264 = Some(kept);
                    },
                    Codec::H265 => {
                        self.h265 = Some(kept);
                    },
                }
                assert(self@ =~= old(self)@.insert(codec, record@));
                record
            },
        }
    }
}

/// A record that was kept is what every later request for its codec gets,
/// and such a request leaves the cache as it was.
pub proof fn lemma_record_is_stable(
    before: Map<Codec, Seq<bool>>,
    codec: Codec,
    first: Seq<bool>,
    between: Map<Codec, Seq<bool>>,
    second: Seq<bool>,
    after: Map<Codec, Seq<bool>>,
)
    requires
        served(before, codec, first, between),
        served(between, codec, second, after),
    ensures
        second == first,
        after == between,
{
    assert(after =~= between);
}

/// A record that was kept outlasts every request, for its own codec or for
/// another.
pub proof fn lemma_kept_record_stays(
    before: Map<Codec, Seq<bool>>,
    codec: Codec,
    record: Seq<bool>,
    after: Map<Codec, Seq<bool>>,
    kept: Codec,
)
    requires
        served(before, codec, record, after),
        before.dom().contains(kept),
    ensures
        after.dom().contains(kept),
        after[kept] == before[kept],
{
}

} // verus!
