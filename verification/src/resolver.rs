//! Choosing the decoder to build a pipeline with.
//!
//! The first entry of a catalog that is present on the system wins. When
//! none is, the pipeline falls back on a generic element that negotiates a
//! decoder by itself.

use crate::definitions::{Codec, DecoderDef};
use vstd::prelude::*;

verus! {

/// The element used when no decoder of the catalog is present.
pub open spec fn fallback() -> Seq<char> {
    "decodebin"@
}

/// Whether an availability record marks entry `i` as present. An entry that
/// the record does not reach counts as absent.
pub open spec fn is_available(availability: Seq<bool>, i: int) -> bool {
    0 <= i < availability.len() && availability[i]
}

/// Entry `i` is the first of `len` entries that the record marks as present.
pub open spec fn is_first_available(len: nat, availability: Seq<bool>, i: int) -> bool {
    &&& 0 <= i < len
    &&& is_available(availability, i)
    &&& forall|j: int| 0 <= j < i ==> !is_available(availability, j)
}

/// None of `len` entries is marked as present.
pub open spec fn none_available(len: nat, availability: Seq<bool>) -> bool {
    forall|j: int| 0 <= j < len ==> !is_available(availability, j)
}

/// The first of `len` entries that the record marks as present, if any.
pub open spec fn first_available(len: nat, availability: Seq<bool>) -> Option<int> {
    if exists|i: int| is_first_available(len, availability, i) {
        Some(choose|i: int| is_first_available(len, availability, i))
    } else {
        None
    }
}

/// A choice as a mathematical index.
pub open spec fn index_of(choice: Option<usize>) -> Option<int> {
    match choice {
        Some(i) => Some(i as int),
        None => None,
    }
}

/// The element that stands for a choice: the chosen entry as a pipeline
/// names it, or the fallback where nothing was chosen.
pub open spec fn element_of(decoders: Seq<DecoderDef>, choice: Option<int>) -> Seq<char> {
    match choice {
        Some(i) => if 0 <= i < decoders.len() {
            decoders[i]@.element()
        } else {
            fallback()
        },
        None => fallback(),
    }
}

/// Two entries cannot both be the first one present.
pub proof fn lemma_first_available_unique(len: nat, availability: Seq<bool>, i: int, j: int)
    requires
        is_first_available(len, availability, i),
        is_first_available(len, availability, j),
    ensures
        i == j,
{
    if i < j {
        assert(!is_available(availability, i));
    }
    if j < i {
        assert(!is_available(availability, j));
    }
}

/// `first_available` names the first entry present where there is one, and
/// nothing exactly when no entry is present.
pub proof fn lemma_first_available(len: nat, availability: Seq<bool>)
    ensures
        (match first_available(len, availability) {
            Some(i) => is_first_available(len, availability, i),
            None => none_available(len, availability),
        }),
        first_available(len, availability) is None <==> none_available(len, availability),
{
    if !(exists|i: int| is_first_available(len, availability, i)) {
        assert forall|j: int| 0 <= j < len implies !is_available(availability, j) by {
            lemma_no_first_below(len, availability, j);
        }
    } else {
        let i = choose|i: int| is_first_available(len, availability, i);
        assert(is_available(availability, i));
    }
}

/// Where no entry is the first one present, no entry up to `upto` is present.
proof fn lemma_no_first_below(len: nat, availability: Seq<bool>, upto: int)
    requires
        !(exists|i: int| is_first_available(len, availability, i)),
        0 <= upto < len,
    ensures
        forall|j: int| 0 <= j <= upto ==> !is_available(availability, j),
    decreases upto,
{
    if upto > 0 {
        lemma_no_first_below(len, availability, upto - 1);
    }
    if is_available(availability, upto) {
        assert(is_first_available(len, availability, upto));
    }
}

/// The index of the first decoder that the record marks as present.
pub fn first_available_index(decoders: &[DecoderDef], availability: &[bool]) -> (choice: Option<
    usize,
>)
    ensures
        index_of(choice) == first_available(decoders@.len(), availability@),
{
    let mut i: usize = 0;
    while i < decoders.len()
        invariant
            i <= decoders@.len(),
            forall|j: int| 0 <= j < i ==> !is_available(availability@, j),
        decreases decoders@.len() - i,
    {
        if i < availability.len() && availability[i] {
            proof {
                assert(is_first_available(decoders@.len(), availability@, i as int));
                lemma_first_available(decoders@.len(), availability@);
                lemma_first_available_unique(
                    decoders@.len(),
                    availability@,
                    i as int,
                    first_available(decoders@.len(), availability@).unwrap(),
                );
            }
            return Some(i);
        }
        i += 1;
    }
    proof {
        lemma_first_available(decoders@.len(), availability@);
    }
    None
}

/// The fallback element, `decodebin`.
pub fn fallback_element() -> (element: String)
    ensures
        element@ == fallback(),
{
    String::from_str("decodebin")
}

/// The element that stands for a choice: the chosen decoder as a pipeline
/// names it, or the fallback where nothing was chosen or the choice lies
/// outside the catalog.
pub fn element_for(decoders: &[DecoderDef], choice: Option<usize>) -> (element: String)
    ensures
        element@ == element_of(decoders@, index_of(choice)),
{
    match choice {
        Some(i) => {
            if i < decoders.len() {
                decoders[i].as_gst_element()
            } else {
                fallback_element()
            }
        },
        None => fallback_element(),
    }
}

/// The element to decode with, given which decoders are present: the first
/// one present in catalog order, or the fallback where none is.
pub fn select_decoder(decoders: &[DecoderDef], availability: &[bool]) -> (element: String)
    ensures
        element@ == element_of(decoders@, first_available(decoders@.len(), availability@)),
{
    let choice = first_available_index(decoders, availability);
    element_for(decoders, choice)
}

/// What asking a registry for the decoders in catalog order, up to the first
/// one that it has, can lead to: `choice` is `Some(i)` where the registry
/// said no to every entry before `i` and yes to entry `i`, and `None` where
/// it said no to all.
pub open spec fn probed_first<F: Fn(&'static str) -> bool>(
    decoders: Seq<DecoderDef>,
    has_element: F,
    choice: Option<int>,
) -> bool {
    match choice {
        Some(i) => {
            &&& 0 <= i < decoders.len()
            &&& call_ensures(has_element, (decoders[i].name,), true)
            &&& forall|j: int|
                0 <= j < i ==> call_ensures(has_element, (#[trigger] decoders[j].name,), false)
        },
        None => forall|j: int|
            0 <= j < decoders.len() ==> call_ensures(
                has_element,
                (#[trigger] decoders[j].name,),
                false,
            ),
    }
}

/// Asks the registry for each decoder in catalog order and stops at the
/// first one that it has.
pub fn probe_first<F: Fn(&'static str) -> bool>(decoders: &[DecoderDef], has_element: F) -> (choice:
    Option<usize>)
    requires
        forall|name: &'static str| call_requires(has_element, (name,)),
    ensures
        probed_first(decoders@, has_element, index_of(choice)),
{
    let mut i: usize = 0;
    while i < decoders.len()
        invariant
            i <= decoders@.len(),
            forall|name: &'static str| call_requires(has_element, (name,)),
            forall|j: int|
                0 <= j < i ==> call_ensures(has_element, (#[trigger] decoders@[j].name,), false),
        decreases decoders@.len() - i,
    {
        if has_element(decoders[i].name) {
            return Some(i);
        }
        i += 1;
    }
    None
}

/// The element to decode with: that of the first decoder in catalog order
/// that the registry has, or the fallback where it has none.
pub fn find_available_decoder<F: Fn(&'static str) -> bool>(
    decoders: &[DecoderDef],
    has_element: F,
) -> (element: String)
    requires
        forall|name: &'static str| call_requires(has_element, (name,)),
    ensures
        exists|choice: Option<int>|
            probed_first(decoders@, has_element, choice) && element@ == element_of(
                decoders@,
                choice,
            ),
{
    let choice = probe_first(decoders, has_element);
    element_for(decoders, choice)
}

/// The decoder chosen is the first one present.
pub proof fn lemma_selects_first_available(
    decoders: Seq<DecoderDef>,
    availability: Seq<bool>,
    i: int,
)
    requires
        is_first_available(decoders.len(), availability, i),
    ensures
        first_available(decoders.len(), availability) == Some(i),
        element_of(decoders, first_available(decoders.len(), availability))
            == decoders[i]@.element(),
{
    lemma_first_available(decoders.len(), availability);
    lemma_first_available_unique(
        decoders.len(),
        availability,
        i,
        first_available(decoders.len(), availability).unwrap(),
    );
}

/// Where the registry answers as a record says, asking it up to the first
/// hit finds the first entry that the record marks as present.
pub proof fn lemma_probe_agrees_with_record<F: Fn(&'static str) -> bool>(
    decoders: Seq<DecoderDef>,
    has_element: F,
    availability: Seq<bool>,
    choice: Option<int>,
)
    requires
        probed_first(decoders, has_element, choice),
        forall|j: int, present: bool|
            0 <= j < decoders.len() && #[trigger] call_ensures(
                has_element,
                (decoders[j].name,),
                present,
            ) ==> present == is_available(availability, j),
    ensures
        choice == first_available(decoders.len(), availability),
{
    lemma_first_available(decoders.len(), availability);
    match choice {
        Some(i) => {
            assert(is_available(availability, i));
            assert forall|j: int| 0 <= j < i implies !is_available(availability, j) by {
                assert(call_ensures(has_element, (decoders[j].name,), false));
            }
            lemma_selects_first_available(decoders, availability, i);
        },
        None => {
            assert forall|j: int| 0 <= j < decoders.len() implies !is_available(
                availability,
                j,
            ) by {
                assert(call_ensures(has_element, (decoders[j].name,), false));
            }
        },
    }
}

/// With no decoder present the fallback is chosen, and only then, as long as
/// the first decoder present is not itself written as the fallback is.
pub proof fn lemma_fallback_iff_none_available(decoders: Seq<DecoderDef>, availability: Seq<bool>)
    requires
        forall|i: int|
            is_first_available(decoders.len(), availability, i) ==> decoders[i]@.element()
                != fallback(),
    ensures
        element_of(decoders, first_available(decoders.len(), availability)) == fallback()
            <==> none_available(decoders.len(), availability),
{
    lemma_first_available(decoders.len(), availability);
}

/// No decoder of the catalogs is written as the fallback is.
pub proof fn lemma_catalog_differs_from_fallback(codec: Codec, i: int)
    requires
        0 <= i < codec.catalog().len(),
    ensures
        codec.catalog()[i]@.element() != fallback(),
{
    reveal_strlit("decodebin");
    let element = codec.catalog()[i]@.element();
    match codec {
        Codec::Mjpeg => {
            reveal_strlit("jpegdec");
            reveal_strlit("avdec_mjpeg");
            reveal_strlit("vaapijpegdec");
            reveal_strlit("nvjpegdec");
            reveal_strlit("v4l2jpegdec");
        },
        Codec::H264 => {
            reveal_strlit("vah264dec");
            reveal_strlit("vaapih264dec");
            reveal_strlit("nvh264dec");
            reveal_strlit("d3d11h264dec");
            reveal_strlit("v4l2h264dec");
            reveal_strlit("avdec_h264");
            reveal_strlit("openh264dec");
        },
        Codec::H265 => {
            reveal_strlit("vah265dec");
            reveal_strlit("vaapih265dec");
            reveal_strlit("nvh265dec");
            reveal_strlit("d3d11h265dec");
            reveal_strlit("v4l2h265dec");
            reveal_strlit("avdec_h265");
        },
    }
    assert(element.len() != 9 || element[0] != 'd');
    assert("decodebin"@.len() == 9 && "decodebin"@[0] == 'd');
}

/// For the catalogs the fallback is chosen exactly when no decoder is
/// present.
pub proof fn lemma_catalog_fallback_iff_none_available(codec: Codec, availability: Seq<bool>)
    ensures
        element_of(codec.catalog(), first_available(codec.catalog().len(), availability))
            == fallback() <==> none_available(codec.catalog().len(), availability),
{
    assert forall|i: int|
        is_first_available(
            codec.catalog().len(),
            availability,
            i,
        ) implies codec.catalog()[i]@.element() != fallback() by {
        lemma_catalog_differs_from_fallback(codec, i);
    }
    lemma_fallback_iff_none_available(codec.catalog(), availability);
}

} // verus!
