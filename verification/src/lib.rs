//! The logic of a small news reader for the Hacker News "top stories" feed:
//! which detail requests a fetch cycle makes, which answers it keeps, and how a
//! story record becomes the strings and counts that a card shows.
//!
//! Network traffic and widgets live outside this crate; it works on plain values.

pub mod application;
pub mod decimal;
pub mod network;
pub mod story_object;
pub mod transform;
