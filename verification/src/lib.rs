//! Rendering core for a component-based e-mail markup dialect: a registry of
//! body elements that share one parse / context / render protocol, and the
//! divider element with its responsive width computation.

pub mod attributes;
pub mod block;
pub mod body;
pub mod component;
pub mod condition;
pub mod context;
pub mod divider;
pub mod error;
pub mod header;
pub mod parser;
pub mod raw;
pub mod size;
pub mod spacing;
pub mod tag;
pub mod text;
