//! Calendars, single events and recurring series with per-occurrence
//! overrides, together with the codec that turns them into flat rows and back.
pub mod instant;
pub mod error;
pub mod value_objects;
pub mod calendar;
pub mod event;
pub mod recurrence;
pub mod models;
pub mod mappers;
pub mod repository;
