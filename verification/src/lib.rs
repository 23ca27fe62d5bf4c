//! The rules of a binding to a geometry engine, apart from the engine.
//!
//! Geometries are parsed, written and measured by an engine that this library
//! does not call. It decides what the engine is asked and what is made of each
//! answer: an operation that needs the engine returns a request, and the
//! request's `finish` takes the engine's answer and gives the result.
//!
//! - [`lwgeom`]: the owned geometry and the borrowed reference, with their
//!   spatial reference identifier and bounding box.
//! - [`wkt`], [`wkb`]: parsing and writing well-known text and binary.
//! - [`parser_result`]: the text parser's result, which gives up its geometry
//!   once.
//! - [`tile`]: the checks and the corners of a tile envelope.
//! - [`lwpoly`]: the envelope polygon.
//! - [`gbox`], [`binary64`]: bounding boxes, and coordinates as binary64 bit
//!   patterns with their order.
//! - [`text`]: zero-terminated text.
//! - [`error`]: the errors.
pub mod binary64;
pub mod error;
pub mod gbox;
pub mod lwgeom;
pub mod lwpoly;
pub mod parser_result;
pub mod text;
pub mod tile;
pub mod wkb;
pub mod wkt;
