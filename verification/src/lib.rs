//! A declarative layer for building user interfaces: widgets and named style
//! properties are described in memory with chained builder calls, and one call of
//! `build` turns the description into a tree of platform elements.

pub mod view;
