//! Seximal is a collection of structs that represent the seximal (base-6)
//! equivalents of the integer number types in Rust.
//!
//! Every type can be created from a native value with `new`, or parsed from a
//! string representation of a seximal number with `from`. The `value` function
//! gives the value of the number in decimal form, and `to_string` returns the
//! string representation of the value in seximal form.

mod codec;
mod realnum;
mod si12;
mod si144;
mod si24;
mod si332;
mod si52;
mod sisize;
mod su12;
mod su144;
mod su24;
mod su332;
mod su52;
mod susize;

pub use codec::SeximalError;
pub use realnum::{parse_real, RealParts};
pub use si12::Si12;
pub use si144::Si144;
pub use si24::Si24;
pub use si332::Si332;
pub use si52::Si52;
pub use sisize::Sisize;
pub use su12::Su12;
pub use su144::Su144;
pub use su24::Su24;
pub use su332::Su332;
pub use su52::Su52;
pub use susize::Susize;
