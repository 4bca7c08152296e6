//! Decision logic of a hooking library that substitutes on-device files for
//! APK assets: which opens get redirected, where the replacement file must
//! lie, and how a redirected asset answers length, read and seek requests.
//! The hooks themselves (symbol interposition, raw memory, file mapping)
//! live in the application crate and call into this library.

#![allow(non_snake_case)]
#![allow(non_camel_case_types)]

pub mod stream;
pub mod path;
pub mod pkg;
pub mod open;
pub mod capi;
pub mod cppapi;
