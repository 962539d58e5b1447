//! Protocol layer for USB Video Class cameras: control queries on
//! vendor-defined extension units, and the `UVCH` metadata header that
//! capture streams carry.
//!
//! Nothing in this crate touches a device. A control operation is made as a
//! value, the [`XuControlQuery`], which a transport carries to the driver;
//! what the transport saw come back is handed to the crate to be read. A
//! metadata buffer is decoded from the bytes that a capture stream gave.

pub mod endian;
pub mod ext;
pub mod flags;
pub mod metadata;
pub mod query;

pub use crate::ext::{ControlProfile, ExtensionUnit, UvcExt};
pub use crate::flags::{ControlInfo, HeaderInfo};
pub use crate::metadata::{MetadataView, UvcMetadata};
pub use crate::query::{ByteOrder, DecodeError, QueryError, QueryView, XuControlQuery, XuQuery};
