//! Decoder for layered image documents in Adobe's PSD container format.
//!
//! A document is decoded from one immutable byte buffer in a single forward
//! pass. [`binary::Binary`] is the cursor over the buffer; the modules under
//! [`psd`] decode the four sections of a document in order, down to the layer
//! records with their masks, blending ranges, names and extension blocks.
//!
//! Every decoder is described by a specification function on the buffer and
//! an offset, and is proved to return what that function says.

pub mod binary;
pub mod code;
pub mod decoded;
pub mod error;
pub mod psd;
pub mod text;
