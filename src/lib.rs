//! The core of a terminal pager: the overstrike decoder, the line splitting
//! of the reader, the line store, the key sequences and the scrolling rules,
//! each with a contract proved by Verus.

pub mod event;
pub mod input;
pub mod keys;
pub mod overstrike;
pub mod pager;
pub mod reader;
pub mod store;
pub mod text;
