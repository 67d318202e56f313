//! The flat capability records: what a device can decode or encode in one
//! format. A record owns nothing and is copied freely.

use vstd::prelude::*;
use crate::ownership::Allocation;
use crate::ownership::ArrayKind;
use crate::ownership::Owner;
use crate::tags::Chroma;
use crate::tags::ColorDepth;
use crate::tags::EncodeProfile;
use crate::tags::ThreeValue;

verus! {

/// The limits of decoding one pixel format.
#[derive(Clone, Copy, Debug, PartialEq, Eq, Structural)]
pub struct DecodingSpec {
    pub chroma: Chroma,
    pub color_depth: ColorDepth,
    pub max_width: u32,
    pub max_height: u32,
}

/// The limits of encoding one pixel format in one profile.
#[derive(Clone, Copy, Debug, PartialEq, Eq, Structural)]
pub struct EncodingSpec {
    pub chroma: Chroma,
    pub color_depth: ColorDepth,
    pub profile: EncodeProfile,
    pub max_width: u32,
    pub max_height: u32,
    pub b_frames_supported: ThreeValue,
}

impl Owner for DecodingSpec {
    open spec fn owned(&self) -> Seq<Allocation> {
        Seq::empty()
    }

    open spec fn array_kind() -> ArrayKind {
        ArrayKind::DecodingSpecs
    }

    fn kind() -> ArrayKind {
        ArrayKind::DecodingSpecs
    }

    fn release(self) -> Vec<Allocation> {
        Vec::new()
    }
}

impl Owner for EncodingSpec {
    open spec fn owned(&self) -> Seq<Allocation> {
        Seq::empty()
    }

    open spec fn array_kind() -> ArrayKind {
        ArrayKind::EncodingSpecs
    }

    fn kind() -> ArrayKind {
        ArrayKind::EncodingSpecs
    }

    fn release(self) -> Vec<Allocation> {
        Vec::new()
    }
}

} // verus!
