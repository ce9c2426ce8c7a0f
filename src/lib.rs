//! Great-circle distance support: the arccosine domain guard of the
//! spherical law of cosines, proved over the bit patterns of binary64 values.
pub mod float_bits;
pub mod acos_domain;
