//! Structured error descriptions: a record or a closed set of cases, each of
//! which renders to a human-readable message, with a fallback policy that
//! leaves no case unrenderable.

pub mod descriptor;
pub mod laws;
pub mod message;
pub mod value;

pub use descriptor::{Case, DescriptorError, ErrorDescriptor, Kind, MessageSource, VariantSet};
pub use message::{FieldValue, Message, Segment};
pub use value::{debug_string, positional_name, Shape};
