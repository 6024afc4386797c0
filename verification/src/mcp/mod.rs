//! The server's tools: what each one reads and the text it answers with.

pub mod messages;
pub mod activity;
pub mod output;
pub mod rooms;
pub mod reading;
pub mod people;
pub mod sending;
pub mod directory;
pub mod transport;
pub mod service;
