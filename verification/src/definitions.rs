//! Decoder definitions and the per-codec catalogs.
//!
//! A catalog lists the decoder elements that can decode one codec family, in
//! the order in which they are preferred.

use crate::text::text_of;
use vstd::prelude::*;

verus! {

/// One decoder element: what the pipeline needs to name it and what a
/// display needs to describe it.
#[derive(Debug, Clone, Copy)]
pub struct DecoderDef {
    /// Element name, such as `jpegdec` or `vah264dec`.
    pub name: &'static str,
    /// Description for display.
    pub description: &'static str,
    /// Properties that follow the name in a pipeline, such as `max-errors=-1`.
    pub props: Option<&'static str>,
    /// Whether the decoder runs on dedicated hardware.
    pub is_hardware: bool,
}

/// A decoder definition with its texts as character sequences.
pub struct DecoderDefView {
    pub name: Seq<char>,
    pub description: Seq<char>,
    pub props: Option<Seq<char>>,
    pub is_hardware: bool,
}

impl View for DecoderDef {
    type V = DecoderDefView;

    open spec fn view(&self) -> DecoderDefView {
        DecoderDefView {
            name: self.name@,
            description: self.description@,
            props: match self.props {
                Some(p) => Some(p@),
                None => None,
            },
            is_hardware: self.is_hardware,
        }
    }
}

impl DecoderDefView {
    /// The text that names the decoder in a pipeline: the name alone, or the
    /// name, one space and the properties.
    pub open spec fn element(self) -> Seq<char> {
        match self.props {
            Some(p) => self.name + seq![' '] + p,
            None => self.name,
        }
    }
}

impl DecoderDef {
    /// A software decoder without properties.
    pub fn sw(name: &'static str, description: &'static str) -> (def: Self)
        ensures
            def == (DecoderDef { name, description, props: None, is_hardware: false }),
    {
        Self { name, description, props: None, is_hardware: false }
    }

    /// A software decoder with properties.
    pub fn sw_props(name: &'static str, description: &'static str, props: &'static str) -> (def:
        Self)
        ensures
            def == (DecoderDef { name, description, props: Some(props), is_hardware: false }),
    {
        Self { name, description, props: Some(props), is_hardware: false }
    }

    /// A hardware decoder without properties.
    pub fn hw(name: &'static str, description: &'static str) -> (def: Self)
        ensures
            def == (DecoderDef { name, description, props: None, is_hardware: true }),
    {
        Self { name, description, props: None, is_hardware: true }
    }

    /// The kind of decoder in a word: `hardware` or `software`.
    pub fn kind(&self) -> (kind: &'static str)
        ensures
            self.is_hardware ==> kind@ == "hardware"@,
            !self.is_hardware ==> kind@ == "software"@,
    {
        if self.is_hardware {
            "hardware"
        } else {
            "software"
        }
    }

    /// The element as a pipeline names it, for example `jpegdec max-errors=-1`.
    pub fn as_gst_element(&self) -> (element: String)
        ensures
            element@ == self@.element(),
    {
        let mut element = String::from_str(self.name);
        match self.props {
            Some(p) => {
                element.append(" ");
                element.append(p);
                proof {
                    reveal_strlit(" ");
                    assert(" "@ =~= seq![' ']);
                }
            },
            None => {},
        }
        element
    }
}

/// A codec family that needs a decoder.
#[derive(Debug, Clone, Copy, PartialEq, Eq, Structural)]
pub enum Codec {
    /// Motion JPEG.
    Mjpeg,
    /// H.264.
    H264,
    /// H.265, also called HEVC.
    H265,
}

/// The MJPEG catalog. Software decoders come first: webcams often send JPEG
/// that hardware decoders mishandle.
pub open spec fn mjpeg_catalog() -> Seq<DecoderDef> {
    seq![
        DecoderDef {
            name: "jpegdec",
            description: "GStreamer JPEG (Software)",
            props: Some("max-errors=-1"),
            is_hardware: false,
        },
        DecoderDef {
            name: "avdec_mjpeg",
            description: "FFmpeg MJPEG (Software)",
            props: None,
            is_hardware: false,
        },
        DecoderDef {
            name: "vaapijpegdec",
            description: "VA-API JPEG (Intel/AMD HW)",
            props: None,
            is_hardware: true,
        },
        DecoderDef {
            name: "nvjpegdec",
            description: "NVIDIA JPEG (NVDEC)",
            props: None,
            is_hardware: true,
        },
        DecoderDef {
            name: "v4l2jpegdec",
            description: "V4L2 JPEG (Hardware)",
            props: None,
            is_hardware: true,
        },
    ]
}

/// The MJPEG decoders in preference order.
pub fn mjpeg_decoders() -> (decoders: Vec<DecoderDef>)
    ensures
        decoders@ == mjpeg_catalog(),
{
    let mut decoders: Vec<DecoderDef> = Vec::new();
    decoders.push(DecoderDef::sw_props("jpegdec", "GStreamer JPEG (Software)", "max-errors=-1"));
    decoders.push(DecoderDef::sw("avdec_mjpeg", "FFmpeg MJPEG (Software)"));
    decoders.push(DecoderDef::hw("vaapijpegdec", "VA-API JPEG (Intel/AMD HW)"));
    decoders.push(DecoderDef::hw("nvjpegdec", "NVIDIA JPEG (NVDEC)"));
    decoders.push(DecoderDef::hw("v4l2jpegdec", "V4L2 JPEG (Hardware)"));
    assert(decoders@ =~= mjpeg_catalog());
    decoders
}

/// The H.264 catalog. Hardware decoders come first: decoding H.264 in
/// software is expensive.
pub open spec fn h264_catalog() -> Seq<DecoderDef> {
    seq![
        DecoderDef {
            name: "vah264dec",
            description: "VA-API H.264 (Modern HW)",
            props: None,
            is_hardware: true,
        },
        DecoderDef {
            name: "vaapih264dec",
            description: "VA-API H.264 (Legacy HW)",
            props: None,
            is_hardware: true,
        },
        DecoderDef {
            name: "nvh264dec",
            description: "NVIDIA H.264 (NVDEC)",
            props: None,
            is_hardware: true,
        },
        DecoderDef {
            name: "d3d11h264dec",
            description: "Direct3D 11 H.264 (HW)",
            props: None,
            is_hardware: true,
        },
        DecoderDef {
            name: "v4l2h264dec",
            description: "V4L2 H.264 (Hardware)",
            props: None,
            is_hardware: true,
        },
        DecoderDef {
            name: "avdec_h264",
            description: "FFmpeg H.264 (SW, multi-threaded)",
            props: Some("max-threads=0"),
            is_hardware: false,
        },
        DecoderDef {
            name: "openh264dec",
            description: "OpenH264 (SW, single-threaded)",
            props: None,
            is_hardware: false,
        },
    ]
}

/// The H.264 decoders in preference order.
pub fn h264_decoders() -> (decoders: Vec<DecoderDef>)
    ensures
        decoders@ == h264_catalog(),
{
    let mut decoders: Vec<DecoderDef> = Vec::new();
    decoders.push(DecoderDef::hw("vah264dec", "VA-API H.264 (Modern HW)"));
    decoders.push(DecoderDef::hw("vaapih264dec", "VA-API H.264 (Legacy HW)"));
    decoders.push(DecoderDef::hw("nvh264dec", "NVIDIA H.264 (NVDEC)"));
    decoders.push(DecoderDef::hw("d3d11h264dec", "Direct3D 11 H.264 (HW)"));
    decoders.push(DecoderDef::hw("v4l2h264dec", "V4L2 H.264 (Hardware)"));
    decoders.push(
        DecoderDef::sw_props("avdec_h264", "FFmpeg H.264 (SW, multi-threaded)", "max-threads=0"),
    );
    decoders.push(DecoderDef::sw("openh264dec", "OpenH264 (SW, single-threaded)"));
    assert(decoders@ =~= h264_catalog());
    decoders
}

/// The H.265 catalog. Hardware decoders come first: H.265 costs even more
/// to decode in software than H.264.
pub open spec fn h265_catalog() -> Seq<DecoderDef> {
    seq![
        DecoderDef {
            name: "vah265dec",
            description: "VA-API H.265 (Modern HW)",
            props: None,
            is_hardware: true,
        },
        DecoderDef {
            name: "vaapih265dec",
            description: "VA-API H.265 (Legacy HW)",
            props: None,
            is_hardware: true,
        },
        DecoderDef {
            name: "nvh265dec",
            description: "NVIDIA H.265 (NVDEC)",
            props: None,
            is_hardware: true,
        },
        DecoderDef {
            name: "d3d11h265dec",
            description: "Direct3D 11 H.265 (HW)",
            props: None,
            is_hardware: true,
        },
        DecoderDef {
            name: "v4l2h265dec",
            description: "V4L2 H.265 (Hardware)",
            props: None,
            is_hardware: true,
        },
        DecoderDef {
            name: "avdec_h265",
            description: "FFmpeg H.265 (SW, multi-threaded)",
            props: Some("max-threads=0"),
            is_hardware: false,
        },
    ]
}

/// The H.265 decoders in preference order.
pub fn h265_decoders() -> (decoders: Vec<DecoderDef>)
    ensures
        decoders@ == h265_catalog(),
{
    let mut decoders: Vec<DecoderDef> = Vec::new();
    decoders.push(DecoderDef::hw("vah265dec", "VA-API H.265 (Modern HW)"));
    decoders.push(DecoderDef::hw("vaapih265dec", "VA-API H.265 (Legacy HW)"));
    decoders.push(DecoderDef::hw("nvh265dec", "NVIDIA H.265 (NVDEC)"));
    decoders.push(DecoderDef::hw("d3d11h265dec", "Direct3D 11 H.265 (HW)"));
    decoders.push(DecoderDef::hw("v4l2h265dec", "V4L2 H.265 (Hardware)"));
    decoders.push(
        DecoderDef::sw_props("avdec_h265", "FFmpeg H.265 (SW, multi-threaded)", "max-threads=0"),
    );
    assert(decoders@ =~= h265_catalog());
    decoders
}

impl Codec {
    /// The codec that a camera's pixel format calls for. The names are matched
    /// letter for letter; raw formats and unknown names call for none.
    pub open spec fn of_format(pixel_format: Option<Seq<char>>) -> Option<Codec> {
        match pixel_format {
            Some(f) => if f == "MJPG"@ || f == "MJPEG"@ {
                Some(Codec::Mjpeg)
            } else if f == "H264"@ {
                Some(Codec::H264)
            } else if f == "H265"@ || f == "HEVC"@ {
                Some(Codec::H265)
            } else {
                None
            },
            None => None,
        }
    }

    /// The catalog of the codec.
    pub open spec fn catalog(self) -> Seq<DecoderDef> {
        match self {
            Codec::Mjpeg => mjpeg_catalog(),
            Codec::H264 => h264_catalog(),
            Codec::H265 => h265_catalog(),
        }
    }

    /// The codec that a camera's pixel format calls for, if it needs a decoder.
    pub fn from_pixel_format(pixel_format: Option<&str>) -> (codec: Option<Codec>)
        ensures
            codec == Codec::of_format(text_of(pixel_format)),
    {
        match pixel_format {
            Some(f) => {
                if f.eq("MJPG") || f.eq("MJPEG") {
                    Some(Codec::Mjpeg)
                } else if f.eq("H264") {
                    Some(Codec::H264)
                } else if f.eq("H265") || f.eq("HEVC") {
                    Some(Codec::H265)
                } else {
                    None
                }
            },
            None => None,
        }
    }

    /// The decoders of the codec in preference order.
    pub fn decoders(self) -> (decoders: Vec<DecoderDef>)
        ensures
            decoders@ == self.catalog(),
    {
        match self {
            Codec::Mjpeg => mjpeg_decoders(),
            Codec::H264 => h264_decoders(),
            Codec::H265 => h265_decoders(),
        }
    }
}

/// Every codec has at least one decoder to offer.
pub proof fn lemma_catalog_not_empty(codec: Codec)
    ensures
        codec.catalog().len() > 0,
{
}

} // verus!
