//! Transformations of algebra elements, and the Möbius transformation.
pub mod traits;
pub mod moebius;
