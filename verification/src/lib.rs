//! A language-agnostic ontology of builtin entities (numbers, dates,
//! durations, money amounts, temperatures, ordinals, percentages): the
//! registry of entity kinds, the typed value model, and the layer that
//! normalizes raw parser matches into entity records.

pub mod language;
pub mod ontology;
pub mod errors;
pub mod builtin_entity;
pub mod conversion;
pub mod extraction;
