pub mod event;
pub mod json;
pub mod message;
