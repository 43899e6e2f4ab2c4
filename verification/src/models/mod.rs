pub mod adjustments;
pub mod high_altitude_rule;
pub mod madhab;
pub mod method;
pub mod polar;
pub mod prayer;
pub mod rounding;
pub mod shafaq;
