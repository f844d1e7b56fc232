//! A persistent keyed-record registry for employees and their attendance
//! events: a durable counter hands out strictly increasing identifiers, and
//! one durable sorted map per entity type stores fixed-shape records under
//! numeric keys, surviving restarts of the process.

pub mod records;
pub mod wire;
pub mod backing;
pub mod id_alloc;
pub mod stores;
pub mod service;
pub mod laws;
