pub mod common_error;
pub mod float_bits;
