//! Core of a profile-aware personal budgeting application.
//!
//! The library owns the entity model (expenses, presets, templates, shared
//! category data), the per-profile ledgers, the application configuration,
//! the pure part of the storage and migration layer, and the session layer
//! that keeps the in-memory state and the requested file writes consistent.
//! File and window I/O live outside the library; every operation here is a
//! function from plain values to plain values with a proved contract.

pub mod budget;
pub mod config;
pub mod date;
pub mod expense;
pub mod forms;
pub mod ids;
pub mod preset;
pub mod profile;
pub mod session;
pub mod shared;
pub mod storage;
pub mod template;
pub mod text;
