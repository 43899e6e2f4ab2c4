use mawaqit::Madhab;

#[test]
fn shafi_shadow() {
    let shafi = Madhab::Shafi;

    assert_eq!(shafi.shadow(), 1);
}

#[test]
fn hanafi_shadow() {
    let hanafi = Madhab::Hanafi;

    assert_eq!(hanafi.shadow(), 2);
}
