//! Crossplane composition logic: a composition function that turns a
//! `WebApp` into a Deployment and a Service, and a plugin that adds a
//! PodDisruptionBudget for the composed Deployment.
//!
//! Resources travel as structured values ([`value`]); typed models
//! ([`meta`], [`apps`], [`service`], [`policy`], [`webapp`]) are read from
//! and written to them by [`codec`]. [`messages`] holds the request and
//! response of a function run, [`sdk`] the way responses are built, and
//! [`compose`] and [`pdb`] the two functions. [`laws`] states what holds of
//! them across all inputs.

pub mod entries;
pub mod text;
pub mod value;
pub mod codec;
pub mod meta;
pub mod apps;
pub mod service;
pub mod policy;
pub mod webapp;
pub mod messages;
pub mod sdk;
pub mod pdb;
pub mod compose;
pub mod laws;
