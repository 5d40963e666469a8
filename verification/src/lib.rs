//! Data layouts of the lumps of Valve's BSP map format, with verified
//! bit-field accessors and verified little-endian record codecs.
pub mod valve;
