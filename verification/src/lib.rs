//! Resolves one-time-password secrets out of several input forms — QR code
//! payloads extracted from raster images, `otpauth://` URLs, or bare base32
//! secret text — and computes the 6-digit TOTP code for each, labeling every
//! outcome with where it came from.

pub mod image_scan;
pub mod laws;
pub mod payload;
pub mod secret;
pub mod source;
pub mod text;
pub mod totp;
pub mod uri;
