pub mod common;
pub mod error;
pub mod history;
pub mod inv;
pub mod item;
pub mod message;
pub mod model;
