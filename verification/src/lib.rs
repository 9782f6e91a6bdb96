//! Verified core of the Lance format conversion service: dataset locations,
//! the job model and its lease-fenced lifecycle, conversion settings, schema
//! checks, and the request-level rules of the control plane.

pub mod text;
pub mod location;
pub mod job;
pub mod ordering;
pub mod lifecycle;
pub mod store;
pub mod converter;
pub mod progress;
pub mod schema;
pub mod indexes;
pub mod uri;
pub mod blob;
pub mod sources;
pub mod reconciler;
pub mod service;
pub mod clock;
pub mod env;
pub mod web;
pub mod cli;
pub mod factory;
pub mod rows;
