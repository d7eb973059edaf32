pub mod bits;
pub mod enums;
pub mod math;
