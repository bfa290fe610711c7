//! Imagen: parameter handling and record/replay cassettes for an image
//! generation command line tool.
//!
//! The crate holds the rules of the tool: how model names, sizes and file
//! names are derived and checked, and how calls to an external image service
//! are captured on a cassette and served back in recorded order. Reading
//! arguments, files and the network is left to the program built on top.

pub mod adapters;
pub mod cassette;
pub mod cli;
pub mod config;
pub mod context;
pub mod error;
pub mod json;
pub mod model;
pub mod output;
pub mod params;
pub mod ports;
pub mod request;
pub mod text;
