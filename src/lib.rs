//! Percentages held exactly, in basis points, and their arithmetic with
//! each other and with integers of every width.
//!
//! Conventions:
//! - `n.percent()` is `n` percent: `50.percent()` stands for the fraction `1/2`.
//! - `n + p` and `p += n` add `n` as a whole: `1 + 49.percent()` is `149%`.
//! - `n * p` is `p` of `n` in `n`'s own type, rounded toward zero:
//!   `1234 * 50.percent()` is `617`; `p.of(..)` gives the product exactly,
//!   as a whole part and ten-thousandths. `p * q` is `q` of `p`, to a basis
//!   point.
//! - A percentage holds a `u128` of whole units and four decimals, so every
//!   integer's percentage, and its value as a whole, is held exactly. Sums
//!   and products past that, and integer results past their type, saturate
//!   at the bounds, as a float-to-integer conversion does.

pub mod percentage;
pub mod numbers;
pub mod render;
pub mod laws;

pub use percentage::{clamp, saturate, scaled, signed, Percentage, max_basis_points};
pub use numbers::Percent;

