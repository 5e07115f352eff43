//! A small configuration library: a record with two optional fields, resolved
//! from an explicit file (JSON, YAML or TOML, chosen by the path's suffix),
//! from a per-user default file, or from a built-in default value.

pub mod codec;
pub mod encode;
pub mod format;
pub mod list;
pub mod record;
pub mod resolver;
