//! Typed field resolution over parsed configuration documents.
//!
//! A [`Config`] holds the top-level entries of one JSON- or TOML-shaped
//! document. A [`FieldSpec`] names the keys a logical field may be stored
//! under and the scalar types it may take; resolving the one against the
//! other yields every `(key, type, value)` combination that coerces, in key
//! order and then type order.
pub mod allowed_type;
pub mod config;
pub mod document;
pub mod field;
pub mod fixture;
pub mod open;

pub use allowed_type::{AllowedType, AllowedTypeMarker, FieldMarker, ScalarView};
pub use config::{Config, ConfigFields, Entry, FieldSpec};
pub use document::{coerce, FloatBits, Integer, Node, NodeView};
pub use field::{AmbiguousKeyError, Field, FieldView, VecField};
pub use fixture::{TestEnum, TestFile, TestFileType};
pub use open::{backend_for_path, load, open_first_match, Backend, OpenError, ParseError, RawNode};
