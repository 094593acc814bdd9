//! The verified core of a portfolio backend: entity models, the
//! partial-update statement builder with its placeholder-alignment
//! guarantee, the fixed repository statements with their binding lists, the
//! declared validation rules, the listing order, and the mapping from
//! repository outcomes to the error taxonomy. The surrounding program does
//! the I/O; everything that decides or computes stands here, with its
//! contract.

pub mod builder;
pub mod models;
pub mod ordering;
pub mod outcome;
pub mod pages;
pub mod service;
pub mod statements;
pub mod text;
pub mod update;
pub mod validate;
pub mod value;
