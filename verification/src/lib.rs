//! Verified core of a small orbital-mechanics toolkit.
//!
//! The library's value type is [`vector::Vector2d`], the two-component
//! vector that carries an orbit's eccentricity vector and the screen-space
//! offsets of the projection pipeline. Its arithmetic (component-wise sum
//! and difference, dot product, scalar division) is specified and verified
//! here on a machine-integer instantiation.

pub mod vector;
