use vstd::prelude::*;

pub mod command;
pub mod error;
pub mod export;
pub mod json;
pub mod model;
pub mod paginate;
pub mod sheet;
