//! Objects across a binary boundary.
//!
//! A host and the libraries it loads at run time exchange objects that can
//! be constructed, called and destroyed, without sharing a compiler, a
//! symbol table or a memory layout. A library describes its types as
//! metadata (`model`, made with `builder`); every package, type and member
//! has an id that is a hash of its name or shape (`ids`); from the
//! metadata, glue is generated for both sides (`generator`); the glue packs
//! arguments into flat buffers (`marshal`) and finds functions by id in a
//! registry that the host owns (`context`).
pub mod builder;
pub mod context;
pub mod generator;
pub mod ids;
pub mod marshal;
pub mod model;
pub mod naming;
pub mod sample;
pub mod text;
