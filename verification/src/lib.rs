//! A serialized HTTP request dispatcher.
//!
//! Callers submit requests through an unbounded queue and read the eventual
//! outcome through a one-shot result channel; a single dispatch loop drains
//! the queue strictly in submission order, executes one request at a time,
//! and either delivers the classified outcome or, when the submitter has
//! dropped its receiver, abandons the entry without producing a value.
//!
//! The queue, the one-shot channels and the loop are modelled as a state
//! machine whose transitions carry exact contracts; the classification of
//! responses and the decisions of the maintenance commands are ordinary
//! verified functions.

pub mod dispatch;
pub mod laws;
pub mod rest;
pub mod setup;
