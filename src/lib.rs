//! A global keyboard bridge: a closed table of keys with their canonical
//! identifiers, native codes and injection names, the normalisation of raw key
//! events into one payload shape, and the decisions of synthetic key injection.
pub mod keys;
pub mod names;
pub mod event;
pub mod inject;
