//! Interaction core of a worldbuilding studio: a single-flight mutation queue,
//! fractional card positioning, drag sessions, click disambiguation, toasts and
//! cache reconciliation.

pub mod model;
pub mod position;
pub mod click;
pub mod toast;
pub mod queue;
pub mod drag;
pub mod studio;
pub mod bestiary;
pub mod text;
mod ids;
pub mod pm;
pub mod log;
pub mod universe;
pub mod locations;
pub mod timeline;
pub mod forge;
pub mod tree;
