//! Signature matching for EtherNet/IP transactions carrying CIP messages.
//!
//! The library parses the compact rule syntax of the CIP service keyword,
//! extracts fields from decoded ENIP transactions, and decides whether a
//! transaction satisfies a keyword predicate, unwrapping CIP Multiple Service
//! Packets up to a fixed nesting depth.
pub mod cip;
pub mod fields;
pub mod keywords;
pub mod model;
pub mod rule;
pub mod uint;
