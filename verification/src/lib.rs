//! Projects a fixed set of Exif attributes of an image into a JSON record.
//!
//! The library holds the decisions of the metadata exporter: which entries
//! of a batch are attempted, what the record of one image contains, under
//! which name it is stored and which error a failed step is reported as.
//! It never touches the file system itself; a caller reads the image,
//! hands its bytes in, and stores the document that comes back.

pub mod batch;
pub mod data;
pub mod extract;
pub mod fields;
pub mod func;
pub mod json;
pub mod list;
pub mod text;
