use num_bigint::BigInt;

use riichi_hand::points::{
    has_ron, has_tsumo, is_valid_fu, round_up_points, round_up_to, Fu, Han, Honbas,
    PointCalculationError, Points, PointsCalculationMode, PointsCustom,
};

fn check_points(points: &Points, han: Han, fu: Fu, expected_points: &(i32, i32, i32, i32)) {
    let ko_tsumo = points.ko_tsumo().unwrap_or_default();
    let ko_ron = points.ko_ron().unwrap_or_default();
    let oya_tsumo = points.oya_tsumo().unwrap_or_default();
    let oya_ron = points.oya_ron().unwrap_or_default();

    let actual_points = (ko_tsumo.0, ko_tsumo.1, ko_ron, oya_ron);

    assert!(points.is_limited() ^ points.is_calculated());
    assert_eq!(ko_tsumo.1, oya_tsumo);
    assert_eq!(
        actual_points,
        *expected_points,
        "Points for {} and {} are different",
        han.to_string(),
        fu.to_string()
    );
}

fn check_points_bigint(
    points: &PointsCustom<BigInt>,
    han: Han,
    fu: Fu,
    expected_points: &(&str, &str, &str, &str),
) {
    let ko_tsumo = points.ko_tsumo().unwrap_or_default();
    let ko_ron = points.ko_ron().unwrap_or_default();
    let oya_tsumo = points.oya_tsumo().unwrap_or_default();
    let oya_ron = points.oya_ron().unwrap_or_default();

    let actual_points = (
        ko_tsumo.0.to_string(),
        ko_tsumo.1.to_string(),
        ko_ron.to_string(),
        oya_ron.to_string(),
    );
    let actual_points_ref = (
        actual_points.0.as_ref(),
        actual_points.1.as_ref(),
        actual_points.2.as_ref(),
        actual_points.3.as_ref(),
    );

    assert_eq!(ko_tsumo.1, oya_tsumo);
    assert_eq!(
        actual_points_ref,
        *expected_points,
        "Points for {} and {} are different",
        han.to_string(),
        fu.to_string()
    );
}

fn check_points_default_limited(han: i32, fu: i32, expected_points: (i32, i32, i32, i32)) {
    let han = Han::new(han);
    let fu = Fu::new(fu);
    let calculation_mode = PointsCalculationMode::Default;
    let points = Points::from_calculated(calculation_mode, han, fu, Honbas::zero()).unwrap();
    assert!(points.is_limited());
    assert!(!points.is_calculated());

    check_points(&points, han, fu, &expected_points);
}

fn check_points_loose_with_honbas(
    han: i32,
    fu: i32,
    honbas: i32,
    expected_points: (i32, i32, i32, i32),
) {
    let han = Han::new(han);
    let fu = Fu::new(fu);
    let honbas = Honbas::new(honbas);
    let calculation_mode = PointsCalculationMode::Loose;
    let points = Points::from_calculated(calculation_mode, han, fu, honbas).unwrap();
    check_points(&points, han, fu, &expected_points);
}

fn check_points_loose(han: i32, fu: i32, expected_points: (i32, i32, i32, i32)) {
    check_points_loose_with_honbas(han, fu, 0, expected_points);
}

fn check_points_unlimited(han: i32, fu: i32, expected_points: (i32, i32, i32, i32)) {
    let han = Han::new(han);
    let fu = Fu::new(fu);
    let calculation_mode = PointsCalculationMode::Unlimited;
    let points = Points::from_calculated(calculation_mode, han, fu, Honbas::zero()).unwrap();
    check_points(&points, han, fu, &expected_points);
}

fn check_points_unlimited_bigint(han: i32, fu: i32, expected_points: (&str, &str, &str, &str)) {
    let han = Han::new(han);
    let fu = Fu::new(fu);
    let calculation_mode = PointsCalculationMode::Unlimited;
    let points = PointsCustom::from_calculated(calculation_mode, han, fu, Honbas::zero()).unwrap();
    check_points_bigint(&points, han, fu, &expected_points);
}

#[test]
fn points_should_fail_for_invalid_fu() {
    // Valid fu
    let calculation_mode = PointsCalculationMode::Default;
    let han = Han::new(1);
    let fu = Fu::new(20);
    assert!(Points::from_calculated(calculation_mode, han, fu, Honbas::zero()).is_ok());
    let calculation_mode = PointsCalculationMode::Default;
    let han = Han::new(2);
    let fu = Fu::new(110);
    assert!(Points::from_calculated(calculation_mode, han, fu, Honbas::zero()).is_ok());

    // Loose mode
    let calculation_mode = PointsCalculationMode::Loose;
    let han = Han::new(1);
    let fu = Fu::new(13);
    assert!(Points::from_calculated(calculation_mode, han, fu, Honbas::zero()).is_ok());
    let calculation_mode = PointsCalculationMode::Loose;
    let han = Han::new(1);
    let fu = Fu::new(35);
    assert!(Points::from_calculated(calculation_mode, han, fu, Honbas::zero()).is_ok());
    let calculation_mode = PointsCalculationMode::Loose;
    let han = Han::new(1);
    let fu = Fu::new(150);
    assert!(Points::from_calculated(calculation_mode, han, fu, Honbas::zero()).is_ok());
    let calculation_mode = PointsCalculationMode::Loose;
    let han = Han::new(1);
    let fu = Fu::new(10);
    assert!(Points::from_calculated(calculation_mode, han, fu, Honbas::zero()).is_ok());

    // Unlimited mode
    let calculation_mode = PointsCalculationMode::Unlimited;
    let han = Han::new(1);
    let fu = Fu::new(13);
    assert!(Points::from_calculated(calculation_mode, han, fu, Honbas::zero()).is_ok());
    let calculation_mode = PointsCalculationMode::Unlimited;
    let han = Han::new(1);
    let fu = Fu::new(35);
    assert!(Points::from_calculated(calculation_mode, han, fu, Honbas::zero()).is_ok());
    let calculation_mode = PointsCalculationMode::Unlimited;
    let han = Han::new(1);
    let fu = Fu::new(150);
    assert!(Points::from_calculated(calculation_mode, han, fu, Honbas::zero()).is_ok());
    let calculation_mode = PointsCalculationMode::Unlimited;
    let han = Han::new(1);
    let fu = Fu::new(10);
    assert!(Points::from_calculated(calculation_mode, han, fu, Honbas::zero()).is_ok());

    // Invalid fu
    let calculation_mode = PointsCalculationMode::Default;
    let han = Han::new(1);
    let fu = Fu::new(13);
    assert!(Points::from_calculated(calculation_mode, han, fu, Honbas::zero()).is_err());
    let calculation_mode = PointsCalculationMode::Default;
    let han = Han::new(1);
    let fu = Fu::new(35);
    assert!(Points::from_calculated(calculation_mode, han, fu, Honbas::zero()).is_err());
    let calculation_mode = PointsCalculationMode::Default;
    let han = Han::new(1);
    let fu = Fu::new(150);
    assert!(Points::from_calculated(calculation_mode, han, fu, Honbas::zero()).is_err());
    let calculation_mode = PointsCalculationMode::Default;
    let han = Han::new(1);
    let fu = Fu::new(10);
    assert!(Points::from_calculated(calculation_mode, han, fu, Honbas::zero()).is_err());
}

#[test]
fn points_should_display_invalid_fu_error() {
    let calculation_mode = PointsCalculationMode::Default;
    let han = Han::new(1);
    let fu = Fu::new(35);
    let invalid_fu = Points::from_calculated(calculation_mode, han, fu, Honbas::zero());
    let invalid_fu_error = invalid_fu.unwrap_err();
    assert_eq!(invalid_fu_error.to_string(), "Invalid fu value: 35 fu");
}

#[test]
fn should_display_invalid_han_error() {
    let calculation_mode = PointsCalculationMode::Default;
    let han = Han::new(-5);
    let fu = Fu::new(30);
    let invalid_han = Points::from_calculated(calculation_mode, han, fu, Honbas::zero());
    let invalid_han_error = invalid_han.unwrap_err();
    assert_eq!(
        invalid_han_error.to_string(),
        "Han cannot be less than 1: -5 han"
    );
}

#[test]
fn should_display_invalid_honbas_error() {
    let calculation_mode = PointsCalculationMode::Default;
    let han = Han::new(3);
    let fu = Fu::new(30);
    let honbas = Honbas::new(-1);
    let invalid_honbas = Points::from_calculated(calculation_mode, han, fu, honbas);
    let invalid_honbas_error = invalid_honbas.unwrap_err();
    assert_eq!(
        invalid_honbas_error.to_string(),
        "Invalid honba count: -1 honbas"
    );
}

#[test]
fn points_should_return_limited() {
    let mangan = (2000, 4000, 8000, 12000);
    check_points_default_limited(5, 40, mangan);
    check_points_default_limited(4, 40, mangan);
    check_points_default_limited(4, 60, mangan);
    check_points_default_limited(3, 100, mangan);
    check_points_default_limited(3, 110, mangan);

    let haneman = (3000, 6000, 12000, 18000);
    check_points_default_limited(6, 30, haneman);
    check_points_default_limited(7, 30, haneman);

    let baiman = (4000, 8000, 16000, 24000);
    check_points_default_limited(8, 30, baiman);
    check_points_default_limited(9, 30, baiman);
    check_points_default_limited(10, 30, baiman);

    let sanbaiman = (6000, 12000, 24000, 36000);
    check_points_default_limited(11, 30, sanbaiman);
    check_points_default_limited(12, 30, sanbaiman);

    let kazoe_yakuman = (8000, 16000, 32000, 48000);
    check_points_default_limited(13, 30, kazoe_yakuman);
    check_points_default_limited(14, 30, kazoe_yakuman);
    check_points_default_limited(17, 30, kazoe_yakuman);
    check_points_default_limited(25, 30, kazoe_yakuman);
    check_points_default_limited(100, 30, kazoe_yakuman);
}

#[test]
fn should_handle_honbas() {
    check_points_loose_with_honbas(1, 30, 1, (400, 600, 1300, 1800));
    check_points_loose_with_honbas(1, 30, 5, (800, 1000, 2500, 3000));
    check_points_loose_with_honbas(1, 30, -3, (0, 200, 100, 600));
    check_points_loose_with_honbas(1, 30, -5, (-200, 0, -500, 0));
    check_points_loose_with_honbas(3, 30, 10, (2000, 3000, 6900, 8800));
    check_points_loose_with_honbas(5, 30, 1, (2100, 4100, 8300, 12300));
}

#[test]
fn points_should_work_with_loose_mode() {
    check_points_loose(1, 1, (100, 100, 100, 100));
    check_points_loose(1, 13, (200, 300, 500, 700));
    check_points_loose(1, 150, (1200, 2400, 4800, 7200));
    check_points_loose(3, 150, (2000, 4000, 8000, 12000));
    check_points_loose(15, 150, (8000, 16000, 32000, 48000));
}

#[test]
fn points_should_work_with_unlimited_mode() {
    check_points_unlimited(1, 1, (100, 100, 100, 100));
    check_points_unlimited(1, 13, (200, 300, 500, 700));
    check_points_unlimited(1, 150, (1200, 2400, 4800, 7200));
    check_points_unlimited(3, 150, (4800, 9600, 19200, 28800));
    check_points_unlimited(15, 150, (19660800, 39321600, 78643200, 117964800));
    check_points_unlimited(4, 1500, (96000, 192000, 384000, 576000));
    check_points_unlimited(20, 40, (167772200, 335544400, 671088700, 1006633000));
}

#[test]
fn should_work_with_non_positive_numbers() {
    check_points_unlimited(0, 30, (200, 300, 500, 800));
    check_points_unlimited(-1, 30, (100, 200, 300, 400));
    check_points_unlimited(-1, 70, (200, 300, 600, 900));
    check_points_unlimited(-2, 30, (100, 100, 200, 200));
    check_points_unlimited(-5, 30, (100, 100, 100, 100));
    check_points_unlimited(-10, 30, (100, 100, 100, 100));
    check_points_unlimited(4, -30, (-1900, -3800, -7600, -11500));
    check_points_unlimited(4, -50, (-3200, -6400, -12800, -19200));
    check_points_unlimited(-4, -100, (0, 0, -100, -100));
    check_points_unlimited(-10000, i32::MAX, (100, 100, 100, 100));
    check_points_unlimited(-6, i32::MAX, (134217800, 268435500, 536871000, 805306400));
}

#[test]
fn points_should_work_with_bigints_and_unlimited_mode() {
    check_points_unlimited_bigint(
        20,
        40,
        ("167772200", "335544400", "671088700", "1006633000"),
    );
    check_points_unlimited_bigint(
        160,
        250,
        (
            "1461501637330902918203684832716283019655932542976000",
            "2923003274661805836407369665432566039311865085952000",
            "5846006549323611672814739330865132078623730171904000",
            "8769009823985417509222108996297698117935595257856000",
        ),
    );
    // Beginning of the cosmos from Koizumi
    check_points_unlimited_bigint(
        105,
        140,
        (
            "22716298756089870874820921440338000",
            "45432597512179741749641842880675900",
            "90865195024359483499283685761351700",
            "136297792536539225248925528642027600",
        ),
    );
}

#[test]
fn mod_should_fail_for_invalid_fu() {
    // Valid fu
    let calculation_mode = PointsCalculationMode::Default;
    let han = Han::new(1);
    let fu = Fu::new(20);
    assert!(Points::from_calculated(calculation_mode, han, fu, Honbas::zero()).is_ok());
    let calculation_mode = PointsCalculationMode::Default;
    let han = Han::new(2);
    let fu = Fu::new(110);
    assert!(Points::from_calculated(calculation_mode, han, fu, Honbas::zero()).is_ok());

    // Loose mode
    let calculation_mode = PointsCalculationMode::Loose;
    let han = Han::new(1);
    let fu = Fu::new(13);
    assert!(Points::from_calculated(calculation_mode, han, fu, Honbas::zero()).is_ok());
    let calculation_mode = PointsCalculationMode::Loose;
    let han = Han::new(1);
    let fu = Fu::new(35);
    assert!(Points::from_calculated(calculation_mode, han, fu, Honbas::zero()).is_ok());
    let calculation_mode = PointsCalculationMode::Loose;
    let han = Han::new(1);
    let fu = Fu::new(150);
    assert!(Points::from_calculated(calculation_mode, han, fu, Honbas::zero()).is_ok());
    let calculation_mode = PointsCalculationMode::Loose;
    let han = Han::new(1);
    let fu = Fu::new(10);
    assert!(Points::from_calculated(calculation_mode, han, fu, Honbas::zero()).is_ok());

    // Unlimited mode
    let calculation_mode = PointsCalculationMode::Unlimited;
    let han = Han::new(1);
    let fu = Fu::new(13);
    assert!(Points::from_calculated(calculation_mode, han, fu, Honbas::zero()).is_ok());
    let calculation_mode = PointsCalculationMode::Unlimited;
    let han = Han::new(1);
    let fu = Fu::new(35);
    assert!(Points::from_calculated(calculation_mode, han, fu, Honbas::zero()).is_ok());
    let calculation_mode = PointsCalculationMode::Unlimited;
    let han = Han::new(1);
    let fu = Fu::new(150);
    assert!(Points::from_calculated(calculation_mode, han, fu, Honbas::zero()).is_ok());
    let calculation_mode = PointsCalculationMode::Unlimited;
    let han = Han::new(1);
    let fu = Fu::new(10);
    assert!(Points::from_calculated(calculation_mode, han, fu, Honbas::zero()).is_ok());

    // Invalid fu
    let calculation_mode = PointsCalculationMode::Default;
    let han = Han::new(1);
    let fu = Fu::new(13);
    assert!(Points::from_calculated(calculation_mode, han, fu, Honbas::zero()).is_err());
    let calculation_mode = PointsCalculationMode::Default;
    let han = Han::new(1);
    let fu = Fu::new(35);
    assert!(Points::from_calculated(calculation_mode, han, fu, Honbas::zero()).is_err());
    let calculation_mode = PointsCalculationMode::Default;
    let han = Han::new(1);
    let fu = Fu::new(150);
    assert!(Points::from_calculated(calculation_mode, han, fu, Honbas::zero()).is_err());
    let calculation_mode = PointsCalculationMode::Default;
    let han = Han::new(1);
    let fu = Fu::new(10);
    assert!(Points::from_calculated(calculation_mode, han, fu, Honbas::zero()).is_err());
}

#[test]
fn mod_should_display_invalid_fu_error() {
    let calculation_mode = PointsCalculationMode::Default;
    let han = Han::new(1);
    let fu = Fu::new(35);
    let invalid_fu = Points::from_calculated(calculation_mode, han, fu, Honbas::zero());
    let invalid_fu_error = invalid_fu.unwrap_err();
    assert_eq!(invalid_fu_error.to_string(), "Invalid fu value: 35 fu");
}

#[test]
fn mod_should_return_limited() {
    let mangan = (2000, 4000, 8000, 12000);
    check_points_default_limited(5, 40, mangan);
    check_points_default_limited(4, 40, mangan);
    check_points_default_limited(4, 60, mangan);
    check_points_default_limited(3, 100, mangan);
    check_points_default_limited(3, 110, mangan);

    let haneman = (3000, 6000, 12000, 18000);
    check_points_default_limited(6, 30, haneman);
    check_points_default_limited(7, 30, haneman);

    let baiman = (4000, 8000, 16000, 24000);
    check_points_default_limited(8, 30, baiman);
    check_points_default_limited(9, 30, baiman);
    check_points_default_limited(10, 30, baiman);

    let sanbaiman = (6000, 12000, 24000, 36000);
    check_points_default_limited(11, 30, sanbaiman);
    check_points_default_limited(12, 30, sanbaiman);

    let kazoe_yakuman = (8000, 16000, 32000, 48000);
    check_points_default_limited(13, 30, kazoe_yakuman);
    check_points_default_limited(14, 30, kazoe_yakuman);
    check_points_default_limited(17, 30, kazoe_yakuman);
    check_points_default_limited(25, 30, kazoe_yakuman);
    check_points_default_limited(100, 30, kazoe_yakuman);
}

#[test]
fn mod_should_work_with_loose_mode() {
    check_points_loose(1, 1, (100, 100, 100, 100));
    check_points_loose(1, 13, (200, 300, 500, 700));
    check_points_loose(1, 150, (1200, 2400, 4800, 7200));
    check_points_loose(3, 150, (2000, 4000, 8000, 12000));
    check_points_loose(15, 150, (8000, 16000, 32000, 48000));
}

#[test]
fn mod_should_work_with_unlimited_mode() {
    check_points_unlimited(1, 1, (100, 100, 100, 100));
    check_points_unlimited(1, 13, (200, 300, 500, 700));
    check_points_unlimited(1, 150, (1200, 2400, 4800, 7200));
    check_points_unlimited(3, 150, (4800, 9600, 19200, 28800));
    check_points_unlimited(15, 150, (19660800, 39321600, 78643200, 117964800));
    check_points_unlimited(4, 1500, (96000, 192000, 384000, 576000));
    check_points_unlimited(20, 40, (167772200, 335544400, 671088700, 1006633000));
}

#[test]
fn mod_should_work_with_bigints_and_unlimited_mode() {
    check_points_unlimited_bigint(
        20,
        40,
        ("167772200", "335544400", "671088700", "1006633000"),
    );
    check_points_unlimited_bigint(
        160,
        250,
        (
            "1461501637330902918203684832716283019655932542976000",
            "2923003274661805836407369665432566039311865085952000",
            "5846006549323611672814739330865132078623730171904000",
            "8769009823985417509222108996297698117935595257856000",
        ),
    );
    // Beginning of the cosmos from Koizumi
    check_points_unlimited_bigint(
        105,
        140,
        (
            "22716298756089870874820921440338000",
            "45432597512179741749641842880675900",
            "90865195024359483499283685761351700",
            "136297792536539225248925528642027600",
        ),
    );
}

#[test]
fn points_should_return_calculated() {
    // han, fu, what a non-dealer's tsumo takes from each non-dealer and from
    // the dealer, a non-dealer's ron, a dealer's ron; zero where the point
    // table has no entry.
    let points_table: [(i32, i32, i32, i32, i32, i32); 44] = [
        (1, 20, 0, 0, 0, 0),
        (1, 25, 0, 0, 0, 0),
        (1, 30, 300, 500, 1000, 1500),
        (1, 40, 400, 700, 1300, 2000),
        (1, 50, 400, 800, 1600, 2400),
        (1, 60, 500, 1000, 2000, 2900),
        (1, 70, 600, 1200, 2300, 3400),
        (1, 80, 700, 1300, 2600, 3900),
        (1, 90, 800, 1500, 2900, 4400),
        (1, 100, 800, 1600, 3200, 4800),
        (1, 110, 900, 1800, 3600, 5300),
        (2, 20, 400, 700, 0, 0),
        (2, 25, 0, 0, 1600, 2400),
        (2, 30, 500, 1000, 2000, 2900),
        (2, 40, 700, 1300, 2600, 3900),
        (2, 50, 800, 1600, 3200, 4800),
        (2, 60, 1000, 2000, 3900, 5800),
        (2, 70, 1200, 2300, 4500, 6800),
        (2, 80, 1300, 2600, 5200, 7700),
        (2, 90, 1500, 2900, 5800, 8700),
        (2, 100, 1600, 3200, 6400, 9600),
        (2, 110, 1800, 3600, 7100, 10600),
        (3, 20, 700, 1300, 0, 0),
        (3, 25, 800, 1600, 3200, 4800),
        (3, 30, 1000, 2000, 3900, 5800),
        (3, 40, 1300, 2600, 5200, 7700),
        (3, 50, 1600, 3200, 6400, 9600),
        (3, 60, 2000, 3900, 7700, 11600),
        (3, 70, 2000, 4000, 8000, 12000),
        (3, 80, 2000, 4000, 8000, 12000),
        (3, 90, 2000, 4000, 8000, 12000),
        (3, 100, 2000, 4000, 8000, 12000),
        (3, 110, 2000, 4000, 8000, 12000),
        (4, 20, 1300, 2600, 0, 0),
        (4, 25, 1600, 3200, 6400, 9600),
        (4, 30, 2000, 3900, 7700, 11600),
        (4, 40, 2000, 4000, 8000, 12000),
        (4, 50, 2000, 4000, 8000, 12000),
        (4, 60, 2000, 4000, 8000, 12000),
        (4, 70, 2000, 4000, 8000, 12000),
        (4, 80, 2000, 4000, 8000, 12000),
        (4, 90, 2000, 4000, 8000, 12000),
        (4, 100, 2000, 4000, 8000, 12000),
        (4, 110, 2000, 4000, 8000, 12000),
    ];
    for record in points_table {
        let han = Han::new(record.0);
        let fu = Fu::new(record.1);

        let calculation_mode = PointsCalculationMode::Default;
        let points = Points::from_calculated(calculation_mode, han, fu, Honbas::zero()).unwrap();
        let ko_tsumo = points.ko_tsumo().unwrap_or_default();
        let ko_ron = points.ko_ron().unwrap_or_default();
        let oya_ron = points.oya_ron().unwrap_or_default();

        let actual = (ko_tsumo.0, ko_tsumo.1, ko_ron, oya_ron);
        let expected = (record.2, record.3, record.4, record.5);

        assert_eq!(
            actual,
            expected,
            "Points for {} and {} are different",
            han.to_string(),
            fu.to_string()
        );
    }
}

#[test]
fn mod_should_return_calculated() {
    // han, fu, what a non-dealer's tsumo takes from each non-dealer and from
    // the dealer, a non-dealer's ron, a dealer's ron; zero where the point
    // table has no entry.
    let points_table: [(i32, i32, i32, i32, i32, i32); 44] = [
        (1, 20, 0, 0, 0, 0),
        (1, 25, 0, 0, 0, 0),
        (1, 30, 300, 500, 1000, 1500),
        (1, 40, 400, 700, 1300, 2000),
        (1, 50, 400, 800, 1600, 2400),
        (1, 60, 500, 1000, 2000, 2900),
        (1, 70, 600, 1200, 2300, 3400),
        (1, 80, 700, 1300, 2600, 3900),
        (1, 90, 800, 1500, 2900, 4400),
        (1, 100, 800, 1600, 3200, 4800),
        (1, 110, 900, 1800, 3600, 5300),
        (2, 20, 400, 700, 0, 0),
        (2, 25, 0, 0, 1600, 2400),
        (2, 30, 500, 1000, 2000, 2900),
        (2, 40, 700, 1300, 2600, 3900),
        (2, 50, 800, 1600, 3200, 4800),
        (2, 60, 1000, 2000, 3900, 5800),
        (2, 70, 1200, 2300, 4500, 6800),
        (2, 80, 1300, 2600, 5200, 7700),
        (2, 90, 1500, 2900, 5800, 8700),
        (2, 100, 1600, 3200, 6400, 9600),
        (2, 110, 1800, 3600, 7100, 10600),
        (3, 20, 700, 1300, 0, 0),
        (3, 25, 800, 1600, 3200, 4800),
        (3, 30, 1000, 2000, 3900, 5800),
        (3, 40, 1300, 2600, 5200, 7700),
        (3, 50, 1600, 3200, 6400, 9600),
        (3, 60, 2000, 3900, 7700, 11600),
        (3, 70, 2000, 4000, 8000, 12000),
        (3, 80, 2000, 4000, 8000, 12000),
        (3, 90, 2000, 4000, 8000, 12000),
        (3, 100, 2000, 4000, 8000, 12000),
        (3, 110, 2000, 4000, 8000, 12000),
        (4, 20, 1300, 2600, 0, 0),
        (4, 25, 1600, 3200, 6400, 9600),
        (4, 30, 2000, 3900, 7700, 11600),
        (4, 40, 2000, 4000, 8000, 12000),
        (4, 50, 2000, 4000, 8000, 12000),
        (4, 60, 2000, 4000, 8000, 12000),
        (4, 70, 2000, 4000, 8000, 12000),
        (4, 80, 2000, 4000, 8000, 12000),
        (4, 90, 2000, 4000, 8000, 12000),
        (4, 100, 2000, 4000, 8000, 12000),
        (4, 110, 2000, 4000, 8000, 12000),
    ];
    for record in points_table {
        let han = Han::new(record.0);
        let fu = Fu::new(record.1);

        let calculation_mode = PointsCalculationMode::Default;
        let points = Points::from_calculated(calculation_mode, han, fu, Honbas::zero()).unwrap();
        let ko_tsumo = points.ko_tsumo().unwrap_or_default();
        let ko_ron = points.ko_ron().unwrap_or_default();
        let oya_ron = points.oya_ron().unwrap_or_default();

        let actual = (ko_tsumo.0, ko_tsumo.1, ko_ron, oya_ron);
        let expected = (record.2, record.3, record.4, record.5);

        assert_eq!(
            actual,
            expected,
            "Points for {} and {} are different",
            han.to_string(),
            fu.to_string()
        );
    }
}

#[test]
fn scenario_default_mode_four_han_thirty_fu() {
    let points = Points::from_calculated(
        PointsCalculationMode::Default,
        Han::new(4),
        Fu::new(30),
        Honbas::zero(),
    )
    .unwrap();
    assert!(points.is_calculated());
    assert_eq!(points.ko_ron(), Some(7700));
    assert_eq!(points.oya_ron(), Some(11600));
    assert_eq!(points.ko_tsumo(), Some((2000, 3900)));
    assert_eq!(points.oya_tsumo(), Some(3900));
    assert_eq!(points.honbas().get(), 0);
}

#[test]
fn scenario_loose_mode_one_han_twenty_fu() {
    let points = Points::from_calculated(
        PointsCalculationMode::Loose,
        Han::new(1),
        Fu::new(20),
        Honbas::zero(),
    )
    .unwrap();
    assert_eq!(points.ko_ron(), Some(700));
    assert_eq!(points.ko_tsumo(), Some((200, 400)));
}

#[test]
fn scenario_unlimited_mode_fifteen_han_fifty_fu() {
    let points = Points::from_calculated(
        PointsCalculationMode::Unlimited,
        Han::new(15),
        Fu::new(50),
        Honbas::zero(),
    )
    .unwrap();
    assert!(points.is_calculated());
    assert_eq!(points.ko_ron(), Some(26214400));
}

#[test]
fn scenario_default_mode_mangan_with_three_honbas() {
    let points = Points::from_calculated(
        PointsCalculationMode::Default,
        Han::new(5),
        Fu::new(40),
        Honbas::new(3),
    )
    .unwrap();
    assert!(points.is_limited());
    assert_eq!(points.ko_ron(), Some(8900));
    assert_eq!(points.honbas().get(), 3);
}

#[test]
fn scenario_default_mode_refuses_negative_han() {
    let result = Points::from_calculated(
        PointsCalculationMode::Default,
        Han::new(-5),
        Fu::new(30),
        Honbas::zero(),
    );
    assert!(matches!(result, Err(PointCalculationError::InvalidHan(han)) if han == Han::new(-5)));
}

#[test]
fn scenario_default_mode_refuses_thirty_five_fu() {
    let result = Points::from_calculated(
        PointsCalculationMode::Default,
        Han::new(1),
        Fu::new(35),
        Honbas::zero(),
    );
    let error = result.unwrap_err();
    assert!(matches!(error, PointCalculationError::InvalidFu(fu) if fu == Fu::new(35)));
    assert_eq!(error.to_string(), "Invalid fu value: 35 fu");
}

#[test]
fn default_mode_checks_han_before_fu_before_honbas() {
    let mode = PointsCalculationMode::Default;
    let result = Points::from_calculated(mode, Han::new(0), Fu::new(35), Honbas::new(-1));
    assert!(matches!(result, Err(PointCalculationError::InvalidHan(_))));
    let result = Points::from_calculated(mode, Han::new(1), Fu::new(35), Honbas::new(-1));
    assert!(matches!(result, Err(PointCalculationError::InvalidFu(_))));
    let result = Points::from_calculated(mode, Han::new(1), Fu::new(30), Honbas::new(-1));
    assert!(matches!(result, Err(PointCalculationError::InvalidHonbas(honbas)) if honbas.get() == -1));
    // An invalid fu is refused even where the han alone give a limited value.
    let result = Points::from_calculated(mode, Han::new(13), Fu::new(35), Honbas::zero());
    assert!(matches!(result, Err(PointCalculationError::InvalidFu(_))));
    assert_eq!(PointsCalculationMode::default(), PointsCalculationMode::Default);
}

#[test]
fn default_mode_follows_the_gaps_of_the_point_table() {
    let mode = PointsCalculationMode::Default;
    let no_tsumo = [(1, 20), (1, 25), (2, 25)];
    let no_ron = [(1, 20), (1, 25), (2, 20), (3, 20), (4, 20)];
    for han in 1..=4 {
        for fu in [20, 25, 30, 40, 50, 60, 70, 80, 90, 100, 110] {
            let points =
                Points::from_calculated(mode, Han::new(han), Fu::new(fu), Honbas::zero()).unwrap();
            if points.is_limited() {
                assert!(fu * (1 << (han + 2)) >= 1975);
                assert!(points.ko_tsumo().is_some() && points.ko_ron().is_some());
                continue;
            }
            assert!(fu * (1 << (han + 2)) < 1975);
            assert_eq!(points.ko_tsumo().is_none(), no_tsumo.contains(&(han, fu)));
            assert_eq!(points.oya_tsumo().is_none(), no_tsumo.contains(&(han, fu)));
            assert_eq!(points.ko_ron().is_none(), no_ron.contains(&(han, fu)));
            assert_eq!(points.oya_ron().is_none(), no_ron.contains(&(han, fu)));
            let loose = PointsCalculationMode::Loose;
            let points =
                Points::from_calculated(loose, Han::new(han), Fu::new(fu), Honbas::zero()).unwrap();
            assert!(points.ko_tsumo().is_some() && points.ko_ron().is_some());
        }
    }
}

#[test]
fn mangan_threshold_is_1975_base_points() {
    // 3 han: the base points are 32 times fu, so 61 fu give 1952 and 62 fu 1984.
    let loose = PointsCalculationMode::Loose;
    let below = Points::from_calculated(loose, Han::new(3), Fu::new(61), Honbas::zero()).unwrap();
    assert!(below.is_calculated());
    assert_eq!(below.ko_ron(), Some(7900));
    let above = Points::from_calculated(loose, Han::new(3), Fu::new(62), Honbas::zero()).unwrap();
    assert!(above.is_limited());
    assert_eq!(above.ko_ron(), Some(8000));
    let unlimited = PointsCalculationMode::Unlimited;
    let free = Points::from_calculated(unlimited, Han::new(3), Fu::new(62), Honbas::zero());
    let free = free.unwrap();
    assert!(free.is_calculated());
    assert_eq!(free.ko_ron(), Some(8000));
    assert_eq!(free.oya_ron(), Some(12000));
    assert_eq!(free.ko_tsumo(), Some((2000, 4000)));
}

#[test]
fn negative_power_rounds_a_positive_fu_up_and_others_toward_zero() {
    let unlimited = PointsCalculationMode::Unlimited;
    // han = -3: fu is divided by 2.
    let points = Points::from_calculated(unlimited, Han::new(-3), Fu::new(301), Honbas::zero());
    assert_eq!(points.unwrap().ko_tsumo(), Some((200, 400)));
    let points = Points::from_calculated(unlimited, Han::new(-3), Fu::new(-301), Honbas::zero());
    // -301 / 2 is -150, then -150 and -300.
    assert_eq!(points.unwrap().ko_tsumo(), Some((-100, -300)));
    let points = Points::from_calculated(unlimited, Han::new(-3), Fu::new(-1), Honbas::zero());
    assert_eq!(points.unwrap().ko_tsumo(), Some((0, 0)));
    let points = Points::from_calculated(unlimited, Han::new(-2), Fu::new(7), Honbas::zero());
    let points = points.unwrap();
    assert_eq!(points, Points::new_calculated(7, true, true, Honbas::zero()));
    let least = Points::from_calculated(unlimited, Han::new(i32::MIN), Fu::new(i32::MIN), Honbas::zero());
    assert_eq!(least.unwrap(), Points::new_calculated(0, true, true, Honbas::zero()));
    let most = Points::from_calculated(unlimited, Han::new(-34), Fu::new(i32::MAX), Honbas::zero());
    assert_eq!(most.unwrap(), Points::new_calculated(1, true, true, Honbas::zero()));
}

#[test]
fn manual_constructors_give_the_tiers() {
    let honbas = Honbas::new(2);
    assert_eq!(Points::mangan(honbas), Points::new_limited(2000, honbas));
    assert_eq!(Points::haneman(honbas), Points::new_limited(3000, honbas));
    assert_eq!(Points::baiman(honbas), Points::new_limited(4000, honbas));
    assert_eq!(Points::sanbaiman(honbas), Points::new_limited(6000, honbas));
    assert_eq!(Points::yakuman(honbas), Points::new_limited(8000, honbas));
    assert_eq!(Points::yakuman(honbas).ko_ron(), Some(32600));
    assert_eq!(Points::yakuman(honbas).oya_ron(), Some(48600));
    assert_eq!(Points::yakuman(honbas).ko_tsumo(), Some((8200, 16200)));
    assert_eq!(Points::yakuman(honbas).oya_tsumo(), Some(16200));
    assert!(Points::mangan(honbas).is_limited());
    assert!(!Points::mangan(honbas).is_calculated());

    // 2 han, 20 fu
    let points = Points::new_calculated(320, true, false, Honbas::zero());
    assert!(points.is_calculated());
    assert!(!points.is_limited());
    assert_eq!(points.ko_tsumo(), Some((400, 700)));
    assert_eq!(points.oya_tsumo(), Some(700));
    assert_eq!(points.ko_ron(), None);
    assert_eq!(points.oya_ron(), None);
    let points = Points::new_calculated(320, false, true, Honbas::zero());
    assert_eq!(points.ko_tsumo(), None);
    assert_eq!(points.oya_tsumo(), None);
    assert_eq!(points.ko_ron(), Some(1300));
    assert_eq!(points.oya_ron(), Some(2000));
}

#[test]
fn one_more_honba_adds_100_to_tsumo_and_300_to_ron() {
    for mode in [
        PointsCalculationMode::Default,
        PointsCalculationMode::Loose,
        PointsCalculationMode::Unlimited,
    ] {
        for (han, fu) in [(1, 30), (3, 60), (4, 40), (7, 30), (13, 20)] {
            for honbas in 0..4 {
                let points =
                    Points::from_calculated(mode, Han::new(han), Fu::new(fu), Honbas::new(honbas));
                let more = Points::from_calculated(
                    mode,
                    Han::new(han),
                    Fu::new(fu),
                    Honbas::new(honbas + 1),
                );
                let (points, more) = (points.unwrap(), more.unwrap());
                assert_eq!(more.oya_tsumo().unwrap(), points.oya_tsumo().unwrap() + 100);
                assert_eq!(more.ko_tsumo().unwrap().0, points.ko_tsumo().unwrap().0 + 100);
                assert_eq!(more.ko_tsumo().unwrap().1, points.ko_tsumo().unwrap().1 + 100);
                assert_eq!(more.oya_ron().unwrap(), points.oya_ron().unwrap() + 300);
                assert_eq!(more.ko_ron().unwrap(), points.ko_ron().unwrap() + 300);
                assert_eq!(more.is_limited(), points.is_limited());
            }
        }
    }
}

#[test]
fn limits_apply_to_big_integers_too() {
    let mode = PointsCalculationMode::Default;
    let points: PointsCustom<BigInt> =
        PointsCustom::from_calculated(mode, Han::new(4), Fu::new(40), Honbas::new(1)).unwrap();
    assert!(points.is_limited());
    assert_eq!(points.ko_ron(), Some(BigInt::from(8300)));
    let points: PointsCustom<BigInt> =
        PointsCustom::from_calculated(mode, Han::new(4), Fu::new(30), Honbas::new(1)).unwrap();
    assert!(points.is_calculated());
    assert_eq!(points.ko_ron(), Some(BigInt::from(8000)));
    assert_eq!(
        points.ko_tsumo(),
        Some((BigInt::from(2100), BigInt::from(4000)))
    );
    let loose = PointsCalculationMode::Loose;
    let points: PointsCustom<BigInt> =
        PointsCustom::from_calculated(loose, Han::new(-1), Fu::new(-75), Honbas::zero()).unwrap();
    // -75 times 2 is -150.
    assert_eq!(points.ko_tsumo(), Some((BigInt::from(-100), BigInt::from(-300))));
    assert_eq!(points.oya_ron(), Some(BigInt::from(-900)));
}

#[test]
fn round_up_to_rounds_to_the_next_multiple() {
    assert_eq!(round_up_to(1, 100), 100);
    assert_eq!(round_up_to(100, 100), 100);
    assert_eq!(round_up_to(101, 100), 200);
    assert_eq!(round_up_to(0, 100), 0);
    assert_eq!(round_up_to(-1, 100), 0);
    assert_eq!(round_up_to(-100, 100), -100);
    assert_eq!(round_up_to(-101, 100), -100);
    assert_eq!(round_up_to(7, 3), 9);
    assert_eq!(round_up_to(-7, 3), -6);
    assert_eq!(round_up_to(10, -3), 6);
    assert_eq!(round_up_to(-10, -3), -9);
    assert_eq!(round_up_to(BigInt::from(1920 * 4), 100), BigInt::from(7700));
    assert_eq!(round_up_to(BigInt::from(-7680), 100), BigInt::from(-7600));
    assert_eq!(round_up_points(2147483500), 2147483500);
    assert_eq!(round_up_points(-2147483648), -2147483600);
    for value in -250..250 {
        let once = round_up_to(value, 100);
        assert_eq!(round_up_to(once, 100), once);
        assert_eq!(round_up_points(round_up_points(value)), once);
        assert_eq!(once % 100, 0);
        assert!(value <= once && once < value + 100);
    }
}

#[test]
fn units_hold_their_numbers() {
    assert_eq!(Han::new(5).get(), 5);
    assert_eq!(Fu::new(30).get(), 30);
    assert_eq!(Honbas::new(2).get(), 2);
    assert_eq!(Honbas::zero().get(), 0);
    assert_eq!(Honbas::zero(), Honbas::default());
    assert_eq!(Han::from(5i32), Han::new(5));
    assert_eq!(Fu::from(30u8), Fu::new(30));
    assert_eq!(Honbas::from(-2i16), Honbas::new(-2));
    assert_eq!(Han::new(-5).to_string(), "-5 han");
    assert_eq!(Fu::new(110).to_string(), "110 fu");
    assert_eq!(Honbas::new(0).to_string(), "0 honbas");
    assert_eq!(Han::new(i32::MIN).to_string(), "-2147483648 han");
    assert_eq!(Fu::new(i32::MAX).to_string(), "2147483647 fu");
    assert!(is_valid_fu(Fu::new(25)) && !is_valid_fu(Fu::new(35)) && !is_valid_fu(Fu::new(120)));
    assert!(!has_tsumo(Han::new(2), Fu::new(25)) && has_tsumo(Han::new(2), Fu::new(20)));
    assert!(!has_ron(Han::new(4), Fu::new(20)) && has_ron(Han::new(4), Fu::new(25)));
}
