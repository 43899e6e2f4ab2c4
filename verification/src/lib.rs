//! Islamic prayer times: the calendar-free, integer parts of the schedule
//! logic (prayer ordering, adjustments, minute rounding, night division,
//! Local Relative Estimation smoothing), verified with Verus.

pub mod methods;
pub mod models;
pub mod schedule;
pub mod time;

pub use models::adjustments::{Adjustment, TimeAdjustment};
pub use models::high_altitude_rule::HighLatitudeRule;
pub use models::madhab::Madhab;
pub use models::prayer::Prayer;
pub use models::rounding::Rounding;
