//! Parsing, transformation and re-emission of USB configuration descriptor
//! blobs for composite audio/video (UAC/UVC) devices.
//!
//! A configuration descriptor is a flat, length-prefixed stream of typed
//! records. The library decodes the stream into a typed tree, supports policy
//! mutations (dropping interfaces, high-framerate timings, high-resolution
//! frames, frame-based formats), repairs the length and count fields the
//! mutations leave stale, and re-serializes the tree byte-exactly.

/// Little-endian byte readers and writers shared by every record codec.
pub mod bytes;
/// The post-mutation pass that recomputes stale length and count fields.
pub mod fix;
/// The stated and proven laws: round trip, opacity, idempotence, coherence.
pub mod laws;
/// In-place policy mutations of the tree.
pub mod mutate;
/// The flat record parse and the typed record factory.
pub mod parse;
/// The ordered pivot passes that recover the tree from the flat parse.
pub mod pivot;
/// Search and classification over the tree.
pub mod query;
/// The tree node, its mathematical view, and depth-first serialization.
pub mod tree;
/// USB Audio Class records and the volume helper.
pub mod uac_proto;
/// Generic USB records and the record sum type.
pub mod usb_proto;
/// USB Video Class records.
pub mod uvc_proto;
