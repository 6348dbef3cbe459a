//! Verified core of a grid lock-toggling automation tool.
//!
//! The library models a scrollable inventory grid inside a third-party
//! application window and drives a run of lock/unlock/flip/validate actions
//! over it: mapping linear item indices to on-screen cells, paging through the
//! grid, classifying an item's lock state from sampled pixel colors, and
//! confirming that issued input was reflected on screen.  All screen and
//! input side effects are performed by an unverified driver that executes the
//! commands the engine emits and feeds the observed events back in.

pub mod action;
pub mod classify;
pub mod config;
pub mod engine;
pub mod geometry;
pub mod picture;
