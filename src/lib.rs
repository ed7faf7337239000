//! A numeric-expression library: text is parsed once into a flat,
//! index-addressed form, which is then evaluated on input vectors,
//! differentiated with respect to one variable at a time, and rendered back
//! to text. The engine is generic over the floating-point type.

pub mod checks;
pub mod engine;
pub mod expression;
