//! Bit-level access to byte buffers holding AV1-style open bitstream units:
//! a bit cursor over an immutable buffer, the format's variable-length
//! integer codes, and a record-parsing protocol built on top of them.
pub mod obu;
pub mod utils;
