use vstd::prelude::*;

pub mod decimal;
pub mod error;
pub mod layout;
pub mod method;
pub mod quadrature;
pub mod triangle;
