//! Nutrition tracking: the catalog of nutrients, the mapping between a
//! food's nutrients and the fixed-width record that the store holds, the
//! statements and requests that the store is sent, and the dialogues that
//! fill the store.
//!
//! Nothing here touches the world outside: no file, no socket, no
//! terminal, no clock. A caller sends each `store::Request` to the store
//! and hands back the `store::Reply`; the functions of this crate say what
//! is sent and what a reply means.

pub mod amount;
pub mod catalog;
pub mod clock;
pub mod display;
pub mod entry;
pub mod food;
pub mod nutrients;
pub mod pantry;
pub mod query;
pub mod recipe;
pub mod record;
pub mod session;
pub mod sql;
pub mod store;
pub mod text;
