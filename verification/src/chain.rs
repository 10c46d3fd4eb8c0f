//! The fallback chain of a codec as a display shows it.
//!
//! For every decoder of a catalog the chain says whether the live pipeline
//! is using it, whether it is present but unused, or whether it is absent.

use crate::availability::{probed, served, AvailabilityCache};
use crate::definitions::{Codec, DecoderDef};
use crate::resolver::is_available;
use crate::text::{mentions_element, names_element, text_of};
use vstd::prelude::*;

verus! {

/// Where a decoder stands in the fallback chain of its codec.
#[derive(Debug, Clone, Copy, PartialEq, Eq, Structural)]
pub enum FallbackState {
    /// The decoder that the live pipeline is using.
    Selected,
    /// Present on the system, but not the one in use.
    Available,
    /// Not present on the system.
    Unavailable,
}

impl Default for FallbackState {
    /// A decoder of which nothing is known counts as absent.
    fn default() -> (state: Self)
        ensures
            state == FallbackState::Unavailable,
    {
        FallbackState::Unavailable
    }
}

impl FallbackState {
    /// The name of the icon that shows the state.
    pub open spec fn icon(self) -> Seq<char> {
        match self {
            FallbackState::Selected => "emblem-ok-symbolic"@,
            FallbackState::Available => "media-record-symbolic"@,
            FallbackState::Unavailable => "window-close-symbolic"@,
        }
    }

    /// The name of the icon that shows the state: a check mark for the
    /// decoder in use, a dot for one that is present, a cross for one that
    /// is absent.
    pub fn icon_name(self) -> (name: &'static str)
        ensures
            name@ == self.icon(),
    {
        match self {
            FallbackState::Selected => "emblem-ok-symbolic",
            FallbackState::Available => "media-record-symbolic",
            FallbackState::Unavailable => "window-close-symbolic",
        }
    }
}

/// One decoder of a fallback chain with its state.
#[derive(Debug, Clone)]
pub struct DecoderStatus {
    /// Element name, such as `vaapijpegdec`.
    pub name: &'static str,
    /// Description for display.
    pub description: &'static str,
    /// Where the decoder stands in the chain.
    pub state: FallbackState,
}

/// A chain entry with its texts as character sequences.
pub struct DecoderStatusView {
    pub name: Seq<char>,
    pub description: Seq<char>,
    pub state: FallbackState,
}

impl View for DecoderStatus {
    type V = DecoderStatusView;

    open spec fn view(&self) -> DecoderStatusView {
        DecoderStatusView {
            name: self.name@,
            description: self.description@,
            state: self.state,
        }
    }
}

impl DecoderStatus {
    /// The line under the decoder's name: its description, ` - ` and the
    /// state in the words of the display.
    pub fn caption(&self, status_text: &str) -> (caption: String)
        ensures
            caption@ == self.description@ + seq![' ', '-', ' '] + status_text@,
    {
        let mut caption = String::from_str(self.description);
        caption.append(" - ");
        caption.append(status_text);
        proof {
            reveal_strlit(" - ");
            assert(" - "@ =~= seq![' ', '-', ' ']);
        }
        caption
    }
}

/// Entry `i` is the first decoder whose name stands in the pipeline as an
/// element.
pub open spec fn is_active(decoders: Seq<DecoderDef>, pipeline: Seq<char>, i: int) -> bool {
    &&& 0 <= i < decoders.len()
    &&& names_element(pipeline, decoders[i].name@)
    &&& forall|j: int| 0 <= j < i ==> !names_element(pipeline, #[trigger] decoders[j].name@)
}

/// No decoder's name stands in the pipeline as an element.
pub open spec fn none_active(decoders: Seq<DecoderDef>, pipeline: Seq<char>) -> bool {
    forall|j: int| 0 <= j < decoders.len() ==> !names_element(pipeline, #[trigger] decoders[j].name@)
}

/// The state of entry `i`: selected where it is the active entry of the
/// pipeline, else available or unavailable as the record says. Without a
/// pipeline no entry is selected.
pub open spec fn state_of(
    decoders: Seq<DecoderDef>,
    availability: Seq<bool>,
    pipeline: Option<Seq<char>>,
    i: int,
) -> FallbackState {
    if pipeline is Some && is_active(decoders, pipeline->0, i) {
        FallbackState::Selected
    } else if is_available(availability, i) {
        FallbackState::Available
    } else {
        FallbackState::Unavailable
    }
}

/// Entry `i` of the chain: the decoder's name and description with its state.
pub open spec fn status_of(
    decoders: Seq<DecoderDef>,
    availability: Seq<bool>,
    pipeline: Option<Seq<char>>,
    i: int,
) -> DecoderStatusView {
    DecoderStatusView {
        name: decoders[i].name@,
        description: decoders[i].description@,
        state: state_of(decoders, availability, pipeline, i),
    }
}

/// `chain` is the fallback chain of the catalog: one entry for each decoder,
/// in catalog order.
pub open spec fn is_chain_of(
    chain: Seq<DecoderStatus>,
    decoders: Seq<DecoderDef>,
    availability: Seq<bool>,
    pipeline: Option<Seq<char>>,
) -> bool {
    &&& chain.len() == decoders.len()
    &&& forall|i: int|
        0 <= i < chain.len() ==> (#[trigger] chain[i])@ == status_of(
            decoders,
            availability,
            pipeline,
            i,
        )
}

/// The first decoder whose name stands in the pipeline as an element.
pub fn active_decoder(decoders: &[DecoderDef], pipeline: &str) -> (active: Option<usize>)
    ensures
        (match active {
            Some(i) => is_active(decoders@, pipeline@, i as int),
            None => none_active(decoders@, pipeline@),
        }),
{
    let mut i: usize = 0;
    while i < decoders.len()
        invariant
            i <= decoders@.len(),
            forall|j: int|
                0 <= j < i ==> !names_element(pipeline@, #[trigger] decoders@[j].name@),
        decreases decoders@.len() - i,
    {
        if mentions_element(pipeline, decoders[i].name) {
            return Some(i);
        }
        i += 1;
    }
    None
}

/// The fallback chain of a catalog, given which decoders are present and,
/// where a pipeline runs, its descriptor.
pub fn build_chain_from_defs(
    decoders: &[DecoderDef],
    availability: &[bool],
    full_pipeline: Option<&str>,
) -> (chain: Vec<DecoderStatus>)
    ensures
        is_chain_of(chain@, decoders@, availability@, text_of(full_pipeline)),
{
    let active = match full_pipeline {
        Some(pipeline) => active_decoder(decoders, pipeline),
        None => None,
    };
    let mut chain: Vec<DecoderStatus> = Vec::new();
    let mut i: usize = 0;
    while i < decoders.len()
        invariant
            i <= decoders@.len(),
            chain@.len() == i,
            match active {
                Some(a) => full_pipeline is Some && is_active(
                    decoders@,
                    full_pipeline->0@,
                    a as int,
                ),
                None => full_pipeline is Some ==> none_active(decoders@, full_pipeline->0@),
            },
            forall|k: int|
                0 <= k < i ==> (#[trigger] chain@[k])@ == status_of(
                    decoders@,
                    availability@,
                    text_of(full_pipeline),
                    k,
                ),
        decreases decoders@.len() - i,
    {
        let decoder = &decoders[i];
        let selected = match active {
            Some(a) => a == i,
            None => false,
        };
        let state = if selected {
            FallbackState::Selected
        } else if i < availability.len() && availability[i] {
            FallbackState::Available
        } else {
            FallbackState::Unavailable
        };
        proof {
            if full_pipeline is Some {
                let p = full_pipeline->0@;
                if is_active(decoders@, p, i as int) {
                    assert(active is Some);
                    if active->0 < i {
                        assert(!names_element(p, decoders@[active->0 as int].name@));
                    }
                    if i < active->0 {
                        assert(!names_element(p, decoders@[i as int].name@));
                    }
                }
            }
        }
        chain.push(DecoderStatus { name: decoder.name, description: decoder.description, state });
        i += 1;
    }
    chain
}

/// The fallback chain for a camera's pixel format. A format that needs no
/// decoder, or none at all, has an empty chain. For the others the chain is
/// that of the codec's catalog, with the availability record that the cache
/// holds for the codec; the cache asks the registry if it holds none yet.
pub fn build_decoder_chain<F: Fn(&'static str) -> bool>(
    cache: &mut AvailabilityCache,
    pixel_format: Option<&str>,
    full_pipeline: Option<&str>,
    has_element: F,
) -> (chain: Vec<DecoderStatus>)
    requires
        forall|name: &'static str| call_requires(has_element, (name,)),
    ensures
        chain@.len() == (match Codec::of_format(text_of(pixel_format)) {
            Some(codec) => codec.catalog().len(),
            None => 0,
        }),
        (match Codec::of_format(text_of(pixel_format)) {
            Some(codec) => {
                &&& final(cache)@.dom().contains(codec)
                &&& served(old(cache)@, codec, final(cache)@[codec], final(cache)@)
                &&& !old(cache)@.dom().contains(codec) ==> probed(
                    codec.catalog(),
                    has_element,
                    final(cache)@[codec],
                )
                &&& is_chain_of(
                    chain@,
                    codec.catalog(),
                    final(cache)@[codec],
                    text_of(full_pipeline),
                )
            },
            None => final(cache)@ == old(cache)@,
        }),
{
    match Codec::from_pixel_format(pixel_format) {
        Some(codec) => {
            let availability = cache.get_availability(codec, has_element);
            let decoders = codec.decoders();
            build_chain_from_defs(decoders.as_slice(), availability.as_slice(), full_pipeline)
        },
        None => Vec::new(),
    }
}

/// The catalog, the record and the pipeline decide the chain: two chains of
/// the same three agree entry by entry.
pub proof fn lemma_chain_is_decided(
    one: Seq<DecoderStatus>,
    other: Seq<DecoderStatus>,
    decoders: Seq<DecoderDef>,
    availability: Seq<bool>,
    pipeline: Option<Seq<char>>,
)
    requires
        is_chain_of(one, decoders, availability, pipeline),
        is_chain_of(other, decoders, availability, pipeline),
    ensures
        one.len() == other.len(),
        forall|i: int| 0 <= i < one.len() ==> (#[trigger] one[i])@ == other[i]@,
{
    assert forall|i: int| 0 <= i < one.len() implies (#[trigger] one[i])@ == other[i]@ by {
        assert(other[i]@ == status_of(decoders, availability, pipeline, i));
    }
}

/// A chain marks at most one decoder as selected, and the name of that one
/// stands in the pipeline as an element.
pub proof fn lemma_selected_is_active(
    chain: Seq<DecoderStatus>,
    decoders: Seq<DecoderDef>,
    availability: Seq<bool>,
    pipeline: Option<Seq<char>>,
    i: int,
)
    requires
        is_chain_of(chain, decoders, availability, pipeline),
        0 <= i < chain.len(),
        chain[i].state == FallbackState::Selected,
    ensures
        pipeline is Some,
        names_element(pipeline->0, chain[i]@.name),
        forall|j: int|
            0 <= j < chain.len() && (#[trigger] chain[j]).state == FallbackState::Selected ==> j
                == i,
{
    assert(chain[i]@ == status_of(decoders, availability, pipeline, i));
    assert forall|j: int|
        0 <= j < chain.len() && (#[trigger] chain[j]).state
            == FallbackState::Selected implies j == i by {
        lemma_one_selected(chain, decoders, availability, pipeline, i, j);
    }
}

/// Two entries of a chain cannot both be selected.
proof fn lemma_one_selected(
    chain: Seq<DecoderStatus>,
    decoders: Seq<DecoderDef>,
    availability: Seq<bool>,
    pipeline: Option<Seq<char>>,
    i: int,
    j: int,
)
    requires
        is_chain_of(chain, decoders, availability, pipeline),
        0 <= i < chain.len(),
        0 <= j < chain.len(),
        chain[i].state == FallbackState::Selected,
        chain[j].state == FallbackState::Selected,
    ensures
        i == j,
{
    assert(chain[i]@ == status_of(decoders, availability, pipeline, i));
    assert(chain[j]@ == status_of(decoders, availability, pipeline, j));
    let p = pipeline->0;
    if i < j {
        assert(!names_element(p, decoders[i].name@));
    }
    if j < i {
        assert(!names_element(p, decoders[j].name@));
    }
}

/// Whatever is not selected is available or unavailable as the record says;
/// where no pipeline runs, or none of the decoders stands in it, that holds
/// of the whole chain.
pub proof fn lemma_unselected_follow_record(
    chain: Seq<DecoderStatus>,
    decoders: Seq<DecoderDef>,
    availability: Seq<bool>,
    pipeline: Option<Seq<char>>,
    i: int,
)
    requires
        is_chain_of(chain, decoders, availability, pipeline),
        0 <= i < chain.len(),
    ensures
        chain[i].state != FallbackState::Selected ==> (chain[i].state == FallbackState::Available
            <==> is_available(availability, i)),
        pipeline is None ==> chain[i].state != FallbackState::Selected,
        (pipeline is Some && none_active(decoders, pipeline->0)) ==> chain[i].state
            != FallbackState::Selected,
{
    assert(chain[i]@ == status_of(decoders, availability, pipeline, i));
}

/// The description of a processing chain from camera to screen, for display.
#[derive(Debug, Clone)]
pub struct FormatChain {
    /// Where the frames come from, such as `V4L2 via PipeWire`.
    pub source: String,
    /// Resolution in use.
    pub resolution: String,
    /// Frame rate in use.
    pub framerate: String,
    /// Format that the camera sends, such as `MJPG`, `YUYV`, `NV12`.
    pub native_format: String,
    /// Format after decoding, where the stream is decoded.
    pub gstreamer_output: Option<String>,
    /// What the GPU does with the frames.
    pub wgpu_processing: String,
}

impl Default for FormatChain {
    /// A chain of which nothing is known yet: every text is empty.
    fn default() -> (chain: Self)
        ensures
            chain.source@ == Seq::<char>::empty(),
            chain.resolution@ == Seq::<char>::empty(),
            chain.framerate@ == Seq::<char>::empty(),
            chain.native_format@ == Seq::<char>::empty(),
            chain.gstreamer_output is None,
            chain.wgpu_processing@ == Seq::<char>::empty(),
    {
        FormatChain {
            source: String::new(),
            resolution: String::new(),
            framerate: String::new(),
            native_format: String::new(),
            gstreamer_output: None,
            wgpu_processing: String::new(),
        }
    }
}

} // verus!
