//! A pipeline engine: composable chains of transformations and validations
//! over a dynamic value, evaluated item by item, with failures sorted into
//! fatal and recoverable ones.
//!
//! A [`pipeline::Pipeline`] is a sequence of [`item::Item`]s. Each item takes a
//! frame, a [`context::Ctx`], and hands on a new one or fails. An evaluation
//! performs no side effect: where an item needs a query sent or a value
//! printed, the run stops with the request, and is made again once its driver
//! has the reply (see [`transcript`]).
//!
//! What evaluation means is defined once, over mathematical models, in
//! [`semantics`]; every function that evaluates is proved to compute exactly
//! that, and [`laws`] and [`replay`] prove what follows from it.
//!
//! Beside the engine stand the types of a model's fields and what they map
//! to: column types per SQL dialect ([`database_type`]) and TypeScript types
//! ([`typescript`]); the builder a schema is gathered in ([`graph_builder`]);
//! and what an application is configured with ([`conf`]).

pub mod conf;
pub mod context;
pub mod database_type;
pub mod decimal;
pub mod equality;
pub mod error;
pub mod field_type;
pub mod graph_builder;
pub mod item;
pub mod items;
pub mod laws;
pub mod model;
pub mod modifiers;
pub mod order;
pub mod pipeline;
pub mod replay;
pub mod semantics;
pub mod text;
pub mod transcript;
pub mod typescript;
pub mod validate;
pub mod value;
pub mod well_formed;
