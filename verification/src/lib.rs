//! Pagination: a verified page-navigation state machine together with the
//! page-range windowing algorithm that decides which page buttons and
//! ellipsis jump markers a caller should render.
//!
//! The engine owns two integers, the fixed page count and the current page,
//! and mutates the current page only through five total navigation
//! operations. The windowing function is pure: from the engine's state and a
//! configuration it computes the ordered run of items for the classic
//! "first ... middle ... last" pagination pattern.

pub mod engine;
pub mod window;
