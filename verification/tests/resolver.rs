use decoder_fallback::definitions::{h264_decoders, h265_decoders, mjpeg_decoders, DecoderDef};
use decoder_fallback::resolver::{
    element_for, fallback_element, find_available_decoder, first_available_index, probe_first,
    select_decoder,
};
use std::cell::RefCell;

#[test]
fn fallback_is_decodebin() {
    assert_eq!(fallback_element(), "decodebin");
}

#[test]
fn first_present_decoder_is_chosen() {
    let decoders = mjpeg_decoders();
    let availability = [false, true, false, true, true];
    assert_eq!(first_available_index(&decoders, &availability), Some(1));
    assert_eq!(select_decoder(&decoders, &availability), "avdec_mjpeg");
}

#[test]
fn chosen_decoder_comes_with_its_properties() {
    let decoders = h264_decoders();
    let availability = [false, false, false, false, false, true, true];
    assert_eq!(first_available_index(&decoders, &availability), Some(5));
    assert_eq!(select_decoder(&decoders, &availability), "avdec_h264 max-threads=0");
}

#[test]
fn hardware_wins_for_h264_when_present() {
    let decoders = h264_decoders();
    let availability = [false, true, false, false, false, true, true];
    assert_eq!(select_decoder(&decoders, &availability), "vaapih264dec");
}

#[test]
fn software_wins_for_mjpeg_when_present() {
    let decoders = mjpeg_decoders();
    let availability = [true, true, true, true, true];
    assert_eq!(select_decoder(&decoders, &availability), "jpegdec max-errors=-1");
}

#[test]
fn fallback_when_nothing_is_present() {
    let decoders = h265_decoders();
    let availability = [false; 6];
    assert_eq!(first_available_index(&decoders, &availability), None);
    assert_eq!(select_decoder(&decoders, &availability), "decodebin");
}

#[test]
fn fallback_only_when_nothing_is_present() {
    let decoders = h265_decoders();
    for chosen in 0..decoders.len() {
        let mut availability = vec![false; decoders.len()];
        availability[chosen] = true;
        assert_ne!(select_decoder(&decoders, &availability), "decodebin");
        assert_eq!(
            select_decoder(&decoders, &availability),
            decoders[chosen].as_gst_element()
        );
    }
}

#[test]
fn entries_beyond_the_record_count_as_absent() {
    let decoders = mjpeg_decoders();
    assert_eq!(select_decoder(&decoders, &[]), "decodebin");
    assert_eq!(select_decoder(&decoders, &[false, false]), "decodebin");
    assert_eq!(select_decoder(&decoders, &[false, true]), "avdec_mjpeg");
}

#[test]
fn flags_beyond_the_catalog_are_ignored() {
    let decoders = [DecoderDef::hw("one", "One")];
    assert_eq!(first_available_index(&decoders, &[false, true, true]), None);
    assert_eq!(select_decoder(&decoders, &[false, true, true]), "decodebin");
}

#[test]
fn empty_catalog_falls_back() {
    let decoders: [DecoderDef; 0] = [];
    assert_eq!(select_decoder(&decoders, &[true]), "decodebin");
    assert_eq!(find_available_decoder(&decoders, |_| true), "decodebin");
}

#[test]
fn element_for_a_choice() {
    let decoders = mjpeg_decoders();
    assert_eq!(element_for(&decoders, Some(0)), "jpegdec max-errors=-1");
    assert_eq!(element_for(&decoders, Some(4)), "v4l2jpegdec");
    assert_eq!(element_for(&decoders, None), "decodebin");
    assert_eq!(element_for(&decoders, Some(5)), "decodebin");
}

#[test]
fn registry_is_asked_in_order_up_to_the_first_hit() {
    let decoders = h264_decoders();
    let asked: RefCell<Vec<&'static str>> = RefCell::new(Vec::new());
    let choice = probe_first(&decoders, |name| {
        asked.borrow_mut().push(name);
        name == "nvh264dec" || name == "openh264dec"
    });
    assert_eq!(choice, Some(2));
    assert_eq!(*asked.borrow(), vec!["vah264dec", "vaapih264dec", "nvh264dec"]);
}

#[test]
fn registry_is_asked_for_all_when_it_has_none() {
    let decoders = h265_decoders();
    let asked: RefCell<Vec<&'static str>> = RefCell::new(Vec::new());
    let choice = probe_first(&decoders, |name| {
        asked.borrow_mut().push(name);
        false
    });
    assert_eq!(choice, None);
    assert_eq!(asked.borrow().len(), 6);
    assert_eq!(asked.borrow()[0], "vah265dec");
    assert_eq!(asked.borrow()[5], "avdec_h265");
}

#[test]
fn find_available_decoder_takes_the_first_that_the_registry_has() {
    let decoders = h264_decoders();
    let element = find_available_decoder(&decoders, |name| {
        name == "avdec_h264" || name == "openh264dec"
    });
    assert_eq!(element, "avdec_h264 max-threads=0");
}

#[test]
fn h265_with_nothing_present_falls_back_to_decodebin() {
    let decoders = h265_decoders();
    assert_eq!(find_available_decoder(&decoders, |_| false), "decodebin");
}
