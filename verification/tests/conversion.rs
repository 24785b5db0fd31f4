use altaz::local_sidereal_time;
use altaz::Angle;
use altaz::parse;
use altaz::to_alt_az;
use altaz::AngleKind;
use altaz::CelestialObject;
use altaz::DomainError;
use altaz::GeoCoordinate;
use altaz::Instant;

fn degrees(udeg: i64) -> f64 {
    udeg as f64 / 1e6
}

#[test]
fn sidereal_time_at_the_epoch() {
    // All terms but the 100.46° constant vanish.
    let lst = local_sidereal_time(0, 0, 0, 0);
    assert_eq!(lst, 100_460_000);
}

#[test]
fn sidereal_time_with_negative_inputs_is_normalized() {
    let lst = local_sidereal_time(-1_000_000_000, -180_000_000, 23, 59);
    assert_eq!(lst, 32_258_612);
}

#[test]
fn sidereal_time_is_always_in_range() {
    let cases: Vec<(i64, i64, u8, u8)> = vec![
        (0, 0, 0, 0),
        (i64::MAX, 180_000_000, 23, 59),
        (i64::MIN, -180_000_000, 0, 0),
        (827_000_000, 118_243_700, 12, 30),
        (-827_000_000, -118_243_700, 1, 1),
    ];
    for (secs, long, h, m) in cases {
        let lst = local_sidereal_time(secs, long, h, m);
        assert!(0 <= lst && lst < 360_000_000);
    }
}

#[test]
fn zenith_object_has_altitude_ninety() {
    let origin = GeoCoordinate::new(0, 0);
    let p = to_alt_az(0, 0, origin).unwrap();
    assert_eq!(p.alt_udeg, 90_000_000);
    assert_eq!(p.az_udeg, 0);
}

#[test]
fn polar_observer_gets_a_domain_error() {
    let north_pole = GeoCoordinate::new(90_000_000, 0);
    let r = to_alt_az(30_000_000, 10_000_000, north_pole);
    assert_eq!(r, Err(DomainError::PolarObserver));
    let south_pole = GeoCoordinate::new(-90_000_000, 0);
    let r = to_alt_az(30_000_000, 10_000_000, south_pole);
    assert_eq!(r, Err(DomainError::PolarObserver));
}

#[test]
fn conversion_tracks_the_real_formulas() {
    // Mid-range angles, checked against the exact spherical formulas in
    // floating point; the fixed-point approximation stays within a degree.
    let loc = GeoCoordinate::new(40_000_000, 0);
    let ha_deg: f64 = 30.0;
    let dec_deg: f64 = 45.0;
    let lat_deg: f64 = 40.0;
    let p = to_alt_az(30_000_000, 45_000_000, loc).unwrap();
    let alt_exact = (dec_deg.to_radians().sin() * lat_deg.to_radians().sin()
        + dec_deg.to_radians().cos() * lat_deg.to_radians().cos() * ha_deg.to_radians().cos())
    .asin()
    .to_degrees();
    let az_prelim = ((dec_deg.to_radians().sin()
        - alt_exact.to_radians().sin() * lat_deg.to_radians().sin())
        / (alt_exact.to_radians().cos() * lat_deg.to_radians().cos()))
    .acos()
    .to_degrees();
    let az_exact = if ha_deg.to_radians().sin() < 0.0 { az_prelim } else { 360.0 - az_prelim };
    assert!((degrees(p.alt_udeg) - alt_exact).abs() < 1.0);
    assert!((degrees(p.az_udeg) - az_exact).abs() < 2.0);
}

#[test]
fn altitude_and_azimuth_stay_in_range() {
    let loc = GeoCoordinate::new(34_052_200, 118_243_700);
    let mut ha: i64 = 0;
    while ha < 360_000_000 {
        let mut dec: i64 = -90_000_000;
        while dec <= 90_000_000 {
            let p = to_alt_az(ha, dec, loc).unwrap();
            assert!(-90_000_000 <= p.alt_udeg && p.alt_udeg <= 90_000_000);
            assert!(0 <= p.az_udeg && p.az_udeg <= 360_000_000);
            dec += 15_000_000;
        }
        ha += 30_000_000;
    }
}

#[test]
fn azimuth_quadrant_follows_the_hour_angle() {
    // sin(270°) < 0: the object is east of the meridian, azimuth at most
    // 180°; sin(90°) > 0: west of it, azimuth at least 180°.
    let loc = GeoCoordinate::new(40_000_000, 0);
    let east = to_alt_az(270_000_000, 10_000_000, loc).unwrap();
    assert!(east.az_udeg <= 180_000_000);
    let west = to_alt_az(90_000_000, 10_000_000, loc).unwrap();
    assert!(west.az_udeg >= 180_000_000);
}

#[test]
fn opposite_hour_angles_reflect_the_azimuth() {
    // For hour angles ha and -ha (here 90° and 270°) the altitude agrees
    // and the bearings sum to exactly one full turn — also at the wrap,
    // where one of the two is the kept bearing 360°.
    let loc = GeoCoordinate::new(40_000_000, 0);
    let west = to_alt_az(90_000_000, 90_000_000, loc).unwrap();
    let east = to_alt_az(270_000_000, 90_000_000, loc).unwrap();
    assert_eq!(west.alt_udeg, east.alt_udeg);
    assert_eq!(west.az_udeg + east.az_udeg, 360_000_000);
    let west = to_alt_az(90_000_000, 20_000_000, loc).unwrap();
    let east = to_alt_az(270_000_000, 20_000_000, loc).unwrap();
    assert_eq!(west.alt_udeg, east.alt_udeg);
    assert_eq!(west.az_udeg + east.az_udeg, 360_000_000);
}

#[test]
fn pipeline_hits_the_zenith_exactly() {
    // At the epoch reading the sidereal time is exactly 100.46°, so an
    // object with that right ascension and declination 0 seen from the
    // origin stands straight overhead.
    let obj = CelestialObject::new(
        String::from("overhead"),
        Angle { udeg: 100_460_000 },
        Angle { udeg: 0 },
    );
    let loc = GeoCoordinate::new(0, 0);
    let p = obj.alt_az_at(Instant::new(0, 0, 0), loc).unwrap();
    assert_eq!(p.alt_udeg, 90_000_000);
    assert_eq!(p.az_udeg, 0);
}

#[test]
fn fixed_clock_gives_reproducible_positions() {
    let ra = parse("05h 34m 31.94s", AngleKind::RightAscension).unwrap();
    let dec = parse("+22° 00′ 52.2″", AngleKind::Declination).unwrap();
    let m1 = CelestialObject::new(String::from("M1 Crab Nebula"), ra, dec);
    let loc = GeoCoordinate::new(34_052_200, 118_243_700);
    let instant = Instant::new(827_000_000, 13, 42);
    let a = m1.alt_az_at(instant, loc);
    let b = m1.alt_az_at(instant, loc);
    assert_eq!(a, b);
    let p = a.unwrap();
    assert!(-90_000_000 <= p.alt_udeg && p.alt_udeg <= 90_000_000);
    assert!(0 <= p.az_udeg && p.az_udeg <= 360_000_000);
}

#[test]
fn current_position_runs_the_live_clock() {
    let ra = parse("05h 34m 31.94s", AngleKind::RightAscension).unwrap();
    let dec = parse("+22° 00′ 52.2″", AngleKind::Declination).unwrap();
    let m1 = CelestialObject::new(String::from("M1 Crab Nebula"), ra, dec);
    let loc = GeoCoordinate::new(34_052_200, 118_243_700);
    let p = m1.current_alt_az(loc).unwrap();
    assert!(-90_000_000 <= p.alt_udeg && p.alt_udeg <= 90_000_000);
    assert!(0 <= p.az_udeg && p.az_udeg <= 360_000_000);
}

#[test]
fn hour_angle_wraps_into_one_turn() {
    // An object whose right ascension exceeds the sidereal time still gets
    // a defined position: the hour angle is brought back into [0°, 360°).
    let ra = parse("23h 59m 59s", AngleKind::RightAscension).unwrap();
    let dec = parse("+0° 0′ 0″", AngleKind::Declination).unwrap();
    let obj = CelestialObject::new(String::from("late"), ra, dec);
    let loc = GeoCoordinate::new(0, 0);
    let instant = Instant::new(0, 0, 0);
    let p = obj.alt_az_at(instant, loc).unwrap();
    assert!(-90_000_000 <= p.alt_udeg && p.alt_udeg <= 90_000_000);
    assert!(0 <= p.az_udeg && p.az_udeg <= 360_000_000);
}
