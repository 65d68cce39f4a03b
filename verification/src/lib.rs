//! Verified model of an image-metadata persistence core.
//!
//! The library records where locally uploaded media lives (`LocalImage`
//! plus its `ImageDetails` row, created atomically), deduplicates
//! registered remote image links (`RemoteImage`), and offers
//! ownership-scoped deletion, including deletion by the alias embedded in
//! a public URL. All records live in a [`store::ImageStore`] value whose
//! operations carry exact contracts.

pub mod alias;
pub mod error;
pub mod images;
pub mod laws;
pub mod records;
pub mod store;
