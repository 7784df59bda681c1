//! Build-time binding generator core.
//!
//! From one declarative module schema this library derives two coexisting
//! export surfaces: a foreign-callable (C-ABI-style) interface and a
//! dynamic-language module interface (class registration plus callable
//! bindings).  The pipeline is a pure transformation: schema text is
//! split into tokens ([`lex`]), the tokens are parsed into a
//! [`model::ModuleSpec`] ([`parser`]), each item's documentation is
//! resolved ([`docs`]), each function's target configurations and exported
//! symbol name are determined ([`naming`]), the items are emitted as
//! artifact descriptions ([`emit`]), and the dynamic-configuration
//! registration table is aggregated in declaration order ([`registrar`]).
//! [`pipeline`] validates exported names and drives the whole
//! transformation for one build.

pub mod docs;
pub mod emit;
pub mod lex;
pub mod model;
pub mod naming;
pub mod parser;
pub mod pipeline;
pub mod registrar;
pub mod token;
