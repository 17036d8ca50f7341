pub mod bigint;
pub mod field;
pub mod field_op;
pub mod word;
pub mod bus;
pub mod client;
pub mod curve_algebra;
pub mod memory_columns;
pub mod memory_air;
pub mod memory_trace;
pub mod memory_laws;
pub mod padding;
pub mod recursion;
pub mod weierstrass_params;
pub mod weierstrass;
