//! Rules of the social, couple-space, gift and check-in features: validation,
//! the decisions each request makes between its storage reads and writes, and
//! the small simulations (pet, streaks, anniversaries) whose numbers are
//! computed rather than stored.

pub mod error;
pub mod text;
pub mod ids;
pub mod models;
pub mod calendar;
pub mod service;
pub mod repository;
