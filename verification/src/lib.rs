//! Kalman filters (linear, extended and unscented) described by the dimensions
//! of the vectors and matrices they work on.
//!
//! The library checks every size that a filter step relies on, decides how a
//! control input is applied, and lays out the sigma points and weights of the
//! unscented transform.  Every operation of the matrix algebra it performs is
//! proved to be defined on the shapes it is given.
#![allow(non_snake_case)]
#![allow(non_camel_case_types)]

pub mod error;
pub mod shape;
pub mod filters;
pub mod laws;
