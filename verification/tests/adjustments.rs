use mawaqit::models::adjustments::time_adjustments;
use mawaqit::{Adjustment, Prayer, TimeAdjustment};

#[test]
fn builder_sets_each_prayer() {
    let adj = Adjustment::new()
        .fajr(-2)
        .sunrise(1)
        .dhuhr(0)
        .asr(0)
        .maghrib(2)
        .isha(4)
        .done();

    assert_eq!(adj, TimeAdjustment::new(-2, 1, 0, 0, 2, 4));
}

#[test]
fn builder_starts_at_zero() {
    assert_eq!(Adjustment::new().done(), TimeAdjustment::default());
    assert_eq!(Adjustment::default().done(), TimeAdjustment::new(0, 0, 0, 0, 0, 0));
}

#[test]
fn later_setting_wins() {
    let adj = Adjustment::new().isha(4).isha(-7).done();
    assert_eq!(adj.isha, -7);
    assert_eq!(adj.fajr, 0);
}

#[test]
fn user_and_method_adjustments_add_up() {
    let user = TimeAdjustment::new(1, 2, 3, 4, 5, 6);
    let method = TimeAdjustment::new(0, -3, 3, 3, 3, 0);

    assert_eq!(time_adjustments(&user, &method, Prayer::Fajr), 1);
    assert_eq!(time_adjustments(&user, &method, Prayer::Sunrise), -1);
    assert_eq!(time_adjustments(&user, &method, Prayer::Dhuhr), 6);
    assert_eq!(time_adjustments(&user, &method, Prayer::Asr), 7);
    assert_eq!(time_adjustments(&user, &method, Prayer::Maghrib), 8);
    assert_eq!(time_adjustments(&user, &method, Prayer::Isha), 6);
    assert_eq!(time_adjustments(&user, &method, Prayer::Qiyam), 0);
    assert_eq!(time_adjustments(&user, &method, Prayer::FajrTomorrow), 0);
}
