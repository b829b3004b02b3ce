//! What holds of the library as a whole.

pub mod answers;
pub mod encoding;
pub mod history;
pub mod items;
pub mod names;
pub mod progress;
pub mod questions;
pub mod requests;
pub mod sending;
pub mod services;
pub mod settings;
pub mod text;
pub mod wishes;
