use decoder_fallback::text::mentions_element;

#[test]
fn name_followed_by_a_space_is_an_element() {
    assert!(mentions_element("pipewiresrc ! jpegdec max-errors=-1 ! videoconvert", "jpegdec"));
}

#[test]
fn name_followed_by_the_separator_is_an_element() {
    assert!(mentions_element("pipewiresrc ! vah264dec! videoconvert", "vah264dec"));
}

#[test]
fn name_at_the_end_is_an_element() {
    assert!(mentions_element("pipewiresrc ! avdec_mjpeg", "avdec_mjpeg"));
    assert!(mentions_element("avdec_mjpeg", "avdec_mjpeg"));
}

#[test]
fn name_followed_by_other_text_is_no_element() {
    assert!(!mentions_element("pipewiresrc ! jpegdecoder ! videoconvert", "jpegdec"));
    assert!(!mentions_element("jpegdec\tmax-errors=-1", "jpegdec"));
    assert!(!mentions_element("jpegdec,", "jpegdec"));
}

#[test]
fn absent_name_is_no_element() {
    assert!(!mentions_element("pipewiresrc ! videoconvert ! appsink", "jpegdec"));
    assert!(!mentions_element("", "jpegdec"));
    assert!(!mentions_element("jpegde", "jpegdec"));
}

#[test]
fn name_inside_a_longer_name_counts_when_delimited() {
    assert!(mentions_element("src ! va264dec ! sink", "264dec"));
    assert!(mentions_element("src ! va264dec", "264dec"));
    assert!(!mentions_element("src ! va264dec ! sink", "va264"));
}

#[test]
fn only_the_end_counts_for_the_third_pattern() {
    assert!(!mentions_element("jpegdec; videoconvert", "jpegdec"));
    assert!(mentions_element("jpegdec; jpegdec", "jpegdec"));
}

#[test]
fn empty_name_stands_at_every_end() {
    assert!(mentions_element("anything", ""));
    assert!(mentions_element("", ""));
}

#[test]
fn names_with_wide_characters_are_found() {
    assert!(mentions_element("quelle ! décodeur ! senke", "décodeur"));
    assert!(!mentions_element("quelle ! décodeurs ! senke", "décodeur"));
}
