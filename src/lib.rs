//! Declarative form reconciliation for a fan-fiction archive's work form.
//!
//! The library decides what to do; the program around it talks to the
//! browser. Every decision is a verified function from plain values
//! (what a widget currently shows, what the document asks for) to a plan.
pub mod model;
pub mod ordered_set;
pub mod autocomplete;
pub mod widgets;
pub mod preface;
pub mod lifecycle;
pub mod config;
pub mod commands;
