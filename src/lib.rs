//! Analysis front-end for generic test modules: finds the functions marked as
//! test templates, strips their markers, checks that they agree on generic
//! arity, and takes out the directive that names the instantiation arguments.
pub mod ast;
pub mod error;
pub mod extract;
pub mod options;
