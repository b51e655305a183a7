//! Data types for Japanese legal instruments, centred on the fixed-width
//! law-identifier codec: eras and era-qualified dates, the six historical
//! ministry registries, institutions, and the encode/decode pair for the
//! fifteen-character law identifier and for patch provenance records.

pub mod chapter;
pub mod codec;
pub mod digits;
pub mod era;
pub mod institution;
pub mod law_id;
pub mod logging;
pub mod ministry;
pub mod patch;
pub mod records;
