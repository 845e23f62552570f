//! Session-aware pagination engine for a medical-records portal: the wire
//! vocabularies, the offset arithmetic of a block fetch, the in-order
//! assembly of its pages, and the two scan policies built on top of it.

pub mod models;
pub mod report_date_format;
pub mod portal;
pub mod scan;
pub mod telegram;
pub mod reassembly;
pub mod billing;
