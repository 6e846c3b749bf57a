//! Verified core of a framebuffer layer capture tool.
//!
//! The library covers the parts of the tool that have real invariants: the
//! fixed layer geometry table, the resolution of the target layer from the
//! command line, the capture session's layer-switch/map/restore protocol, and
//! the bit-exact pixel decoding of the two raw framebuffer encodings into
//! canonical RGBA rows. Device control calls, memory mapping and the image
//! container encoding are performed by the surrounding binary, which drives
//! the session state machine defined here.

pub mod error;
pub mod geometry;
pub mod decode;
pub mod pixel;
pub mod port;
pub mod request;
pub mod session;
