//! App repositories: GBox repositories and their links maps, AltStore and
//! SideStore sources, and the conversions between them.
pub mod altstore;
pub mod cli;
pub mod codec;
pub mod error;
pub mod gbox;
pub mod instant;
pub mod json;
pub mod pairs;
pub mod sidestore;
pub mod text;
pub mod unit_number;
pub mod web_url;
