//! Asset classification, Roblox model inspection and Studio sync decisions,
//! verified with Verus.

pub mod asset_type;
pub mod text;
pub mod error;
pub mod decompress;
pub mod binary_model;
pub mod xml_model;
pub mod roblox_model;
pub mod rel_path;
pub mod asset;
pub mod asset_ref;
pub mod studio;
