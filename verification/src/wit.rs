//! WIT packages, the directives in their documentation, and what is generated from them.

pub mod api;
pub mod declare;
pub mod directive;
pub mod document;
pub mod entries;
pub mod function;
pub mod gather;
pub mod offers;
pub mod parameters;
pub mod places;
pub mod readings;
pub mod record;
pub mod resolve;
pub mod service;
pub mod settings;
pub mod shares;
pub mod strings;
pub mod support;
pub mod types;
pub mod wordings;
pub mod workspace;
