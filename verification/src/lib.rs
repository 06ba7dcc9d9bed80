//! Locates translation string identifiers in a localized message catalog.
//!
//! The library classifies resource files by their filename suffix, extracts
//! `id="..."` attributes from catalog lines that contain a search string,
//! and chains two substring-filter passes: first over `<translation>`
//! elements of English-locale catalogs, then over `<message>` elements of
//! resource-definition files.

pub mod classify;
pub mod extract;
pub mod pipeline;
pub mod split;
pub mod strfind;
