# mawaqit

Islamic prayer times with high-latitude support. The `src/` crate holds the
verified core, proved with Verus:

- `time`: UTC instants (seconds and nanoseconds since the Unix epoch) and
  calendar dates, minute rounding, day steps and minute adjustments.
- `models`: prayers and their labels, madhab shadow factors, time
  adjustments and their builder, rounding, high-latitude and polar rules.
- `methods::moonsighting`: the seasonal day count of the Moonsighting
  Committee method.
- `schedule`: a day's prayer times assembled from the solar times (minute
  adjustments, rounding, range errors), the prayer in effect and the next
  one, the exact time remaining until the next prayer, the division of the
  night (middle and last third), Fajr and Isha bounded by the high-latitude
  safe times, and the MWL 2009 Local Relative Estimation ramp.

Calendar facts (day numbers of dates, weekdays) and the system clock come
from `chrono`. The floating-point parts (angles, coordinates, twilight
curves, latitude zones) live in `app/`, which
converts between chrono values and the library's instants and dates.

The unit tests are in `tests/`.
