//! The closed tag sets of the capability model.
//!
//! Every tag set crosses the boundary as a fixed integer. The integers are
//! part of the stable contract: a consumer built against one version of the
//! library reads the same meaning from the same number in every other. The
//! variants of each set are declared in the order of their tags, so the
//! derived ordering is the ordering of the tags.

use vstd::prelude::*;
use vstd::std_specs::convert::FromSpec;
use vstd::std_specs::convert::FromSpecImpl;

verus! {

/// The hardware acceleration backend of a device.
#[derive(Clone, Copy, Debug, PartialEq, Eq, PartialOrd, Ord, Structural)]
pub enum Driver {
    /// The Video Acceleration API. Tag 0.
    Vaapi,
    /// The vendor-specific NVIDIA interface. Tag 1.
    Nvidia,
}

impl Driver {
    /// The integer that stands for this driver at the boundary.
    pub open spec fn spec_tag(self) -> i32 {
        match self {
            Driver::Vaapi => 0,
            Driver::Nvidia => 1,
        }
    }

    /// The integer that stands for this driver at the boundary.
    #[verifier::when_used_as_spec(spec_tag)]
    pub fn tag(self) -> (t: i32)
        ensures
            t == self.spec_tag(),
    {
        match self {
            Driver::Vaapi => 0,
            Driver::Nvidia => 1,
        }
    }

    /// No two variants share a tag: the tag alone tells which driver is meant.
    pub proof fn lemma_tag_injective(a: Driver, b: Driver)
        requires
            a.spec_tag() == b.spec_tag(),
        ensures
            a == b,
    {
    }
}

/// A compression format.
#[derive(Hash, Clone, Copy, Debug, PartialEq, Eq, PartialOrd, Ord, Structural)]
pub enum Codec {
    /// MPEG-1 video. Tag 1.
    Mpeg1,
    /// MPEG-2 video. Tag 2.
    Mpeg2,
    /// MPEG-4 part 2. Tag 4.
    Mpeg4,
    /// VC-1. Tag 7.
    Vc1,
    /// VP8. Tag 8.
    Vp8,
    /// VP9. Tag 9.
    Vp9,
    /// AV1. Tag 10.
    Av1,
    /// H.264. Tag 264.
    H264,
    /// H.265. Tag 265.
    Hevc,
}

impl Codec {
    /// The integer that stands for this codec at the boundary.
    pub open spec fn spec_tag(self) -> i32 {
        match self {
            Codec::Mpeg1 => 1,
            Codec::Mpeg2 => 2,
            Codec::Mpeg4 => 4,
            Codec::Vc1 => 7,
            Codec::Vp8 => 8,
            Codec::Vp9 => 9,
            Codec::Av1 => 10,
            Codec::H264 => 264,
            Codec::Hevc => 265,
        }
    }

    /// The integer that stands for this codec at the boundary.
    #[verifier::when_used_as_spec(spec_tag)]
    pub fn tag(self) -> (t: i32)
        ensures
            t == self.spec_tag(),
    {
        match self {
            Codec::Mpeg1 => 1,
            Codec::Mpeg2 => 2,
            Codec::Mpeg4 => 4,
            Codec::Vc1 => 7,
            Codec::Vp8 => 8,
            Codec::Vp9 => 9,
            Codec::Av1 => 10,
            Codec::H264 => 264,
            Codec::Hevc => 265,
        }
    }

    /// No two variants share a tag: the tag alone tells which codec is meant.
    pub proof fn lemma_tag_injective(a: Codec, b: Codec)
        requires
            a.spec_tag() == b.spec_tag(),
        ensures
            a == b,
    {
    }
}

/// The subsampling scheme of the colour information.
#[derive(Clone, Copy, Debug, PartialEq, Eq, PartialOrd, Ord, Structural)]
pub enum Chroma {
    /// Luma only. Tag 0.
    Monochrome,
    /// 4:2:0 subsampling. Tag 420.
    Yuv420,
    /// 4:2:2 subsampling. Tag 422.
    Yuv422,
    /// 4:4:4, no subsampling. Tag 444.
    Yuv444,
}

impl Chroma {
    /// The integer that stands for this scheme at the boundary.
    pub open spec fn spec_tag(self) -> i32 {
        match self {
            Chroma::Monochrome => 0,
            Chroma::Yuv420 => 420,
            Chroma::Yuv422 => 422,
            Chroma::Yuv444 => 444,
        }
    }

    /// The integer that stands for this scheme at the boundary.
    #[verifier::when_used_as_spec(spec_tag)]
    pub fn tag(self) -> (t: i32)
        ensures
            t == self.spec_tag(),
    {
        match self {
            Chroma::Monochrome => 0,
            Chroma::Yuv420 => 420,
            Chroma::Yuv422 => 422,
            Chroma::Yuv444 => 444,
        }
    }

    /// No two variants share a tag: the tag alone tells which scheme is meant.
    pub proof fn lemma_tag_injective(a: Chroma, b: Chroma)
        requires
            a.spec_tag() == b.spec_tag(),
        ensures
            a == b,
    {
    }
}

/// The number of bits per colour channel.
#[derive(Clone, Copy, Debug, PartialEq, Eq, PartialOrd, Ord, Structural)]
pub enum ColorDepth {
    /// Eight bits. Tag 8.
    Bit8,
    /// Ten bits. Tag 10.
    Bit10,
    /// Twelve bits. Tag 12.
    Bit12,
}

impl ColorDepth {
    /// The integer that stands for this depth at the boundary.
    pub open spec fn spec_tag(self) -> i32 {
        match self {
            ColorDepth::Bit8 => 8,
            ColorDepth::Bit10 => 10,
            ColorDepth::Bit12 => 12,
        }
    }

    /// The integer that stands for this depth at the boundary.
    #[verifier::when_used_as_spec(spec_tag)]
    pub fn tag(self) -> (t: i32)
        ensures
            t == self.spec_tag(),
    {
        match self {
            ColorDepth::Bit8 => 8,
            ColorDepth::Bit10 => 10,
            ColorDepth::Bit12 => 12,
        }
    }

    /// No two variants share a tag: the tag alone tells which depth is meant.
    pub proof fn lemma_tag_injective(a: ColorDepth, b: ColorDepth)
        requires
            a.spec_tag() == b.spec_tag(),
        ensures
            a == b,
    {
    }
}

/// The feature tier that an encoder works in.
#[derive(Clone, Copy, Debug, PartialEq, Eq, PartialOrd, Ord, Structural)]
pub enum EncodeProfile {
    /// Baseline. Tag 1.
    Baseline,
    /// Main. Tag 10.
    Main,
    /// Main, ten bits. Tag 11.
    Main10,
    /// High. Tag 100.
    High,
    /// High, ten bits. Tag 110.
    High10,
    /// High, twelve bits. Tag 112.
    High12,
    /// High, 4:4:4. Tag 140.
    High444,
}

impl EncodeProfile {
    /// The integer that stands for this profile at the boundary.
    pub open spec fn spec_tag(self) -> i32 {
        match self {
            EncodeProfile::Baseline => 1,
            EncodeProfile::Main => 10,
            EncodeProfile::Main10 => 11,
            EncodeProfile::High => 100,
            EncodeProfile::High10 => 110,
            EncodeProfile::High12 => 112,
            EncodeProfile::High444 => 140,
        }
    }

    /// The integer that stands for this profile at the boundary.
    #[verifier::when_used_as_spec(spec_tag)]
    pub fn tag(self) -> (t: i32)
        ensures
            t == self.spec_tag(),
    {
        match self {
            EncodeProfile::Baseline => 1,
            EncodeProfile::Main => 10,
            EncodeProfile::Main10 => 11,
            EncodeProfile::High => 100,
            EncodeProfile::High10 => 110,
            EncodeProfile::High12 => 112,
            EncodeProfile::High444 => 140,
        }
    }

    /// No two variants share a tag: the tag alone tells which profile is meant.
    pub proof fn lemma_tag_injective(a: EncodeProfile, b: EncodeProfile)
        requires
            a.spec_tag() == b.spec_tag(),
        ensures
            a == b,
    {
    }
}

/// A boolean with a third state for what could not be probed.
#[derive(Clone, Copy, Debug, PartialEq, Eq, PartialOrd, Ord, Structural)]
pub enum ThreeValue {
    /// Known to be absent. Tag 0.
    False,
    /// Known to be present. Tag 1.
    True,
    /// Not known either way. Tag 2.
    Unknown,
}

impl ThreeValue {
    /// The integer that stands for this value at the boundary.
    pub open spec fn spec_tag(self) -> i32 {
        match self {
            ThreeValue::False => 0,
            ThreeValue::True => 1,
            ThreeValue::Unknown => 2,
        }
    }

    /// The integer that stands for this value at the boundary.
    #[verifier::when_used_as_spec(spec_tag)]
    pub fn tag(self) -> (t: i32)
        ensures
            t == self.spec_tag(),
    {
        match self {
            ThreeValue::False => 0,
            ThreeValue::True => 1,
            ThreeValue::Unknown => 2,
        }
    }

    /// No two variants share a tag: the tag alone tells which value is meant.
    pub proof fn lemma_tag_injective(a: ThreeValue, b: ThreeValue)
        requires
            a.spec_tag() == b.spec_tag(),
        ensures
            a == b,
    {
    }
}

impl From<bool> for ThreeValue {
    /// A plain boolean is always a known state.
    fn from(value: bool) -> (r: ThreeValue) {
        if value {
            ThreeValue::True
        } else {
            ThreeValue::False
        }
    }
}

impl FromSpecImpl<bool> for ThreeValue {
    open spec fn obeys_from_spec() -> bool {
        true
    }

    open spec fn from_spec(value: bool) -> ThreeValue {
        if value {
            ThreeValue::True
        } else {
            ThreeValue::False
        }
    }
}

impl ThreeValue {
    /// A conversion from a boolean never yields the unknown state, and the
    /// state it yields tells the boolean back.
    pub proof fn lemma_from_bool_is_known(value: bool)
        ensures
            <ThreeValue as FromSpec<bool>>::from_spec(value) != ThreeValue::Unknown,
            <ThreeValue as FromSpec<bool>>::from_spec(value) == ThreeValue::True <==> value,
            <ThreeValue as FromSpec<bool>>::from_spec(value).spec_tag() == if value { 1i32 } else { 0i32 },
    {
    }
}

} // verus!
