//! A greeting page rendered from a fixed HTML template, with the template
//! engine's behaviour stated over plain sequences of characters.

pub mod engine;
pub mod page;
pub mod reply;
