//! Hardware video encode/decode capabilities in a form that can cross a
//! foreign-function boundary.
//!
//! A probe describes each device it finds: the driver, what selects the
//! device, and for each compression format the limits of decoding and of
//! encoding. The description is a tree of owners. Every list in it is held in
//! its boundary form, a pointer and a count, with the pointer null exactly
//! when the count is 0; every text is held without a zero byte in it, so that
//! a zero byte can end it.
//!
//! - [`tags`]: the closed tag sets and their fixed numbers.
//! - [`records`]: the flat records of limits.
//! - [`utils`]: packing a list into a pointer and a count, and dropping a
//!   packed pair.
//! - [`text`]: text in boundary form.
//! - [`codec_details`], [`device`], [`enc_dec_devices`]: the three owners.
//! - [`ownership`]: what an owner owns, and what its teardown releases.
//! - [`model`]: the tag sets, the records and the owners under one path.

pub mod codec_details;
pub mod device;
pub mod enc_dec_devices;
pub mod model;
pub mod ownership;
pub mod records;
pub mod tags;
pub mod text;
pub mod utils;
