//! Re-exports of the commonly used items of this library.

pub use crate::VERSION;
pub use crate::degreeplus::Accidental;
pub use crate::degreeplus::DegreePlus;
pub use crate::init;
pub use crate::scale_pattern::ScalePattern;
pub use crate::scale_pattern::harmonic_minor_scale;
pub use crate::scale_pattern::major_scale;
pub use crate::scale_pattern::melodic_minor_scale;
pub use crate::scale_pattern::natural_minor_scale;
