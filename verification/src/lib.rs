//! A value-transformation and validation pipeline engine, and the record layer
//! that drives it.
//!
//! A [`pipeline::Pipeline`] is an ordered list of operations. Evaluating it
//! threads a [`pipeline::ctx::Ctx`] through each operation in turn; every
//! operation either transforms the current value, marks the context invalid, or
//! raises a condition signal for a branching operation to consume.
//!
//! An [`object::Object`] is a record of a [`model::Model`]. Assigning it from
//! input runs each value through the on-set pipeline of its field; saving it
//! runs each stored value through the on-save pipeline of its field.
//!
//! Contracts speak of values, contexts and records through their views. What a
//! pipeline makes of a context is the spec function [`pipeline::Pipeline::eval`],
//! what saving and assigning make of a record are [`object::saved`] and
//! [`object::assigned`]. Where a host function has a say, the relations
//! [`pipeline::Pipeline::yields`], [`object::saved_yields`] and
//! [`object::assigned_yields`] say what may come of it.
//!
//! The module [`server`] holds what the request layer decides; what it reads
//! and writes is left to the code around the library.
pub mod action;

pub mod collections;

pub mod error;

pub mod graph;

pub mod json;

pub mod model;

pub mod object;

pub mod pattern;

pub mod pipeline;

pub mod relation;

pub mod server;

pub mod text;

pub mod time;

pub mod value;
