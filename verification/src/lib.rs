//! Game-time lookup and conversion for college-football broadcasts.
//!
//! The library resolves which game(s) a caller's filter matches, extracts
//! the scheduled start, kickoff and final-event timestamps, and re-expresses
//! each of them in a chosen US time zone with a manual daylight-saving
//! adjustment. Network transport and JSON decoding are the embedding
//! program's concern; everything here works on plain values and is verified.

pub mod extract;
pub mod pipeline;
pub mod records;
pub mod sink;
pub mod timefmt;
pub mod timestamp;
pub mod zones;
