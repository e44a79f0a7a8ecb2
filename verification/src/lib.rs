//! Decision logic of a small update server for a desktop editor: which
//! installer answers a release query and where it is found, which origin
//! download links point at, which headers the extension proxy passes on,
//! which marketplace address is accepted, and how the package version is
//! read from a manifest.

pub mod text;
pub mod origin;
pub mod assets;
pub mod files;
pub mod search;
pub mod newest;
pub mod manifest;
pub mod headers;
pub mod release;
pub mod upstream;
pub mod root;
