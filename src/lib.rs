//! Interactive move and resize of top-level windows: the geometry solver,
//! the per-surface resize lifecycle, pointer grab sessions and the shell
//! event dispatcher that ties them together.

pub mod geometry;
pub mod lifecycle;
pub mod shell;
pub mod backend;
