//! Generation of actor-style asynchronous handles for synchronous interfaces.
//!
//! An [`Interface`] describes a trait: its name, its declaration text and its
//! operations in declaration order. From it the library derives the operations
//! that get wrapped (those with an instance receiver), the message type that
//! carries their calls, the handle type that sends those calls to a single
//! dispatcher, and finally the whole generated source text.
pub mod model;
pub mod names;
pub mod operations;
pub mod text;
pub mod message;
pub mod handle;
pub mod generate;
