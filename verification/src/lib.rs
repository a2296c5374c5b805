//! Now-playing metadata and the Discord rich presence that is derived from it.
pub mod metadata_providers;
#[allow(non_snake_case)]
pub mod metadataProviders;
pub mod service;
pub mod settings;
pub mod time;
pub mod util;
