#![allow(non_snake_case)]
//! Decoders for the UEFI and Framework HII string and form packages found
//! anywhere inside a raw firmware image.
//!
//! - `bytes`, `guid`, `text`, `cstr`: little-endian fields, GUIDs, and
//!   terminated strings, shared by both dialects.
//! - `uefi_parser`, `framework_parser`: the package envelope, string packages
//!   and IFR operation records of each dialect.
//! - `string_ids`: string tables and the reduction that numbers the strings of
//!   a block sequence.
//! - `scan`: the whole-buffer scans that find and decode the packages.
//! - `layout`: the nesting depth of operations in a rendered form.
pub mod bytes;
pub mod guid;
pub mod text;
pub mod cstr;
pub mod uefi_parser;
pub mod string_ids;
pub mod framework_parser;
pub mod scan;
pub mod layout;
