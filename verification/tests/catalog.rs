use decoder_fallback::definitions::{h264_decoders, h265_decoders, mjpeg_decoders, Codec, DecoderDef};

fn names(decoders: &[DecoderDef]) -> Vec<&'static str> {
    decoders.iter().map(|d| d.name).collect()
}

fn same_definition(a: &DecoderDef, b: &DecoderDef) -> bool {
    a.name == b.name
        && a.description == b.description
        && a.props == b.props
        && a.is_hardware == b.is_hardware
}

#[test]
fn formats_name_and_properties() {
    let def = DecoderDef::sw_props("jpegdec", "GStreamer JPEG (Software)", "max-errors=-1");
    assert_eq!(def.as_gst_element(), "jpegdec max-errors=-1");
}

#[test]
fn formats_name_alone_without_properties() {
    let soft = DecoderDef::sw("avdec_mjpeg", "FFmpeg MJPEG (Software)");
    assert_eq!(soft.as_gst_element(), "avdec_mjpeg");
    let hard = DecoderDef::hw("vah264dec", "VA-API H.264 (Modern HW)");
    assert_eq!(hard.as_gst_element(), "vah264dec");
}

#[test]
fn formats_empty_properties_with_the_space() {
    let def = DecoderDef::sw_props("x", "y", "");
    assert_eq!(def.as_gst_element(), "x ");
}

#[test]
fn constructors_fill_the_fields() {
    let soft = DecoderDef::sw("a", "A");
    assert_eq!(soft.name, "a");
    assert_eq!(soft.description, "A");
    assert_eq!(soft.props, None);
    assert!(!soft.is_hardware);

    let with_props = DecoderDef::sw_props("b", "B", "k=v");
    assert_eq!(with_props.name, "b");
    assert_eq!(with_props.description, "B");
    assert_eq!(with_props.props, Some("k=v"));
    assert!(!with_props.is_hardware);

    let hard = DecoderDef::hw("c", "C");
    assert_eq!(hard.name, "c");
    assert_eq!(hard.description, "C");
    assert_eq!(hard.props, None);
    assert!(hard.is_hardware);
}

#[test]
fn mjpeg_catalog_lists_software_first() {
    let decoders = mjpeg_decoders();
    assert_eq!(
        names(&decoders),
        vec!["jpegdec", "avdec_mjpeg", "vaapijpegdec", "nvjpegdec", "v4l2jpegdec"]
    );
    let hardware: Vec<bool> = decoders.iter().map(|d| d.is_hardware).collect();
    assert_eq!(hardware, vec![false, false, true, true, true]);
    assert_eq!(decoders[0].description, "GStreamer JPEG (Software)");
    assert_eq!(decoders[0].props, Some("max-errors=-1"));
    assert_eq!(decoders[1].props, None);
    assert_eq!(decoders[3].description, "NVIDIA JPEG (NVDEC)");
}

#[test]
fn h264_catalog_lists_hardware_first() {
    let decoders = h264_decoders();
    assert_eq!(
        names(&decoders),
        vec![
            "vah264dec",
            "vaapih264dec",
            "nvh264dec",
            "d3d11h264dec",
            "v4l2h264dec",
            "avdec_h264",
            "openh264dec"
        ]
    );
    let hardware: Vec<bool> = decoders.iter().map(|d| d.is_hardware).collect();
    assert_eq!(hardware, vec![true, true, true, true, true, false, false]);
    assert_eq!(decoders[5].as_gst_element(), "avdec_h264 max-threads=0");
    assert_eq!(decoders[6].description, "OpenH264 (SW, single-threaded)");
}

#[test]
fn h265_catalog_lists_hardware_first() {
    let decoders = h265_decoders();
    assert_eq!(
        names(&decoders),
        vec![
            "vah265dec",
            "vaapih265dec",
            "nvh265dec",
            "d3d11h265dec",
            "v4l2h265dec",
            "avdec_h265"
        ]
    );
    let hardware: Vec<bool> = decoders.iter().map(|d| d.is_hardware).collect();
    assert_eq!(hardware, vec![true, true, true, true, true, false]);
    assert_eq!(decoders[5].as_gst_element(), "avdec_h265 max-threads=0");
    assert_eq!(decoders[0].description, "VA-API H.265 (Modern HW)");
}

#[test]
fn catalogs_are_not_empty_and_do_not_change() {
    for codec in [Codec::Mjpeg, Codec::H264, Codec::H265] {
        let first = codec.decoders();
        let second = codec.decoders();
        assert!(!first.is_empty());
        assert_eq!(first.len(), second.len());
        for (a, b) in first.iter().zip(second.iter()) {
            assert!(same_definition(a, b));
        }
    }
}

#[test]
fn codec_decoders_are_the_named_catalogs() {
    assert_eq!(names(&Codec::Mjpeg.decoders()), names(&mjpeg_decoders()));
    assert_eq!(names(&Codec::H264.decoders()), names(&h264_decoders()));
    assert_eq!(names(&Codec::H265.decoders()), names(&h265_decoders()));
}

#[test]
fn pixel_formats_map_to_codecs() {
    assert_eq!(Codec::from_pixel_format(Some("MJPG")), Some(Codec::Mjpeg));
    assert_eq!(Codec::from_pixel_format(Some("MJPEG")), Some(Codec::Mjpeg));
    assert_eq!(Codec::from_pixel_format(Some("H264")), Some(Codec::H264));
    assert_eq!(Codec::from_pixel_format(Some("H265")), Some(Codec::H265));
    assert_eq!(Codec::from_pixel_format(Some("HEVC")), Some(Codec::H265));
}

#[test]
fn other_pixel_formats_need_no_decoder() {
    assert_eq!(Codec::from_pixel_format(None), None);
    assert_eq!(Codec::from_pixel_format(Some("YUYV")), None);
    assert_eq!(Codec::from_pixel_format(Some("NV12")), None);
    assert_eq!(Codec::from_pixel_format(Some("")), None);
    assert_eq!(Codec::from_pixel_format(Some("mjpg")), None);
    assert_eq!(Codec::from_pixel_format(Some("h264")), None);
    assert_eq!(Codec::from_pixel_format(Some("MJPG ")), None);
    assert_eq!(Codec::from_pixel_format(Some("H26")), None);
}

#[test]
fn kind_tells_hardware_from_software() {
    assert_eq!(DecoderDef::hw("vah264dec", "VA-API H.264 (Modern HW)").kind(), "hardware");
    assert_eq!(DecoderDef::sw("openh264dec", "OpenH264").kind(), "software");
    assert_eq!(DecoderDef::sw_props("jpegdec", "JPEG", "max-errors=-1").kind(), "software");
}
