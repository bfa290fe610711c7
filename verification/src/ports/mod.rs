//! The boundaries between the tool and the services it calls.

pub mod image_generator;
