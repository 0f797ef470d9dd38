//! Verified core of a tracker that reports the aircraft closest to home:
//! airline identification from callsigns, the enrichment decisions and
//! their remembered answers, the metadata service's protocol, the wording
//! of what the terminal and the e-paper panel show, and the e-paper frame
//! drawn into the panel's two planes.

pub mod airlines;
pub mod config;
pub mod enrich;
pub mod geo;
pub mod hexdb;
pub mod layout;
pub mod model;
pub mod number;
pub mod panel;
pub mod terminal;
pub mod text;
pub mod frame;
