//! Frame-rate tracking over a sliding window of recent frame times.
//!
//! An [`Fps`] keeps the durations between the most recent ticks, as whole
//! nanoseconds, and derives three rates from them: the mean rate over the
//! window and the rates of its slowest and fastest frame. Rates are exact
//! fractions ([`Rate`]), so every statement about them is one about integers.
pub mod fps;
pub mod laws;
pub mod rate;
pub mod std_specs;
pub mod window;

pub use fps::Fps;
pub use rate::Rate;
