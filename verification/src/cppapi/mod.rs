//! The interception of the internal asset manager: assets opened by
//! `AssetManager::openNonAssetInPathLocked` get their virtual method table
//! swapped for one whose slots lead to the library's hooks.

pub mod asset;
pub mod fakeasset;
pub mod hooks;
