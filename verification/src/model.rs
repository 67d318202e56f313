//! The capability model in one place: the tag sets, the records and the three
//! owners.

pub use crate::codec_details::CodecDetails;
pub use crate::device::Device;
pub use crate::enc_dec_devices::EncDecDevices;
pub use crate::records::DecodingSpec;
pub use crate::records::EncodingSpec;
pub use crate::tags::Chroma;
pub use crate::tags::Codec;
pub use crate::tags::ColorDepth;
pub use crate::tags::Driver;
pub use crate::tags::EncodeProfile;
pub use crate::tags::ThreeValue;
