use geotrans::{Conic, Decimal, Mirror, Motion, Origin, SegmentTrait, M1, M2};

#[test]
fn conic_presets() {
    let m1 = Conic::m1();
    assert_eq!(m1.radius.units, 3_600_000_000);
    assert_eq!(m1.constant.units, -99_828_570);
    assert_eq!(m1.radius.units as f64 / 1e8, 36f64);
    assert_eq!(m1.constant.units as f64 / 1e8, -0.9982857);
    let m2 = Conic::m2();
    assert_eq!(m2.radius.units, -416_390_090);
    assert_eq!(m2.constant.units, -71_692_784);
    assert_eq!(m2.radius.units as f64 / 1e8, -4.1639009);
    assert_eq!(m2.constant.units as f64 / 1e8, -0.71692784);
}

#[test]
fn decimals_from_units_and_whole_numbers() {
    assert_eq!(Decimal::from_units(390_000_000), Decimal { units: 390_000_000 });
    assert_eq!(Decimal::from_units(-1), Decimal { units: -1 });
    assert_eq!(Decimal::from_whole(0), Decimal { units: 0 });
    assert_eq!(Decimal::from_whole(180), Decimal { units: 18_000_000_000 });
    assert_eq!(Decimal::from_whole(-300), Decimal { units: -30_000_000_000 });
    assert_eq!(
        Decimal::from_whole(i32::MAX),
        Decimal {
            units: 214_748_364_700_000_000
        }
    );
    assert_eq!(
        Decimal::from_whole(i32::MIN),
        Decimal {
            units: -214_748_364_800_000_000
        }
    );
    assert_eq!(geotrans::decimal::UNITS_PER_ONE, 100_000_000);
}

#[test]
fn a_mirror_has_seven_segments_in_the_order_of_their_ids() {
    let m1 = Mirror::<M1>::segments();
    let m2 = Mirror::<M2>::segments();
    assert_eq!(m1.len(), 7);
    assert_eq!(m2.len(), 7);
    for i in 0..7 {
        assert_eq!(m1[i].id(), i as i32 + 1);
        assert_eq!(m2[i].id(), i as i32 + 1);
    }
    assert!(matches!(m1[6].translation(), Origin::Axial { .. }));
    assert!(matches!(m2[6].translation(), Origin::Axial { .. }));
    assert!(m1[6].rotation().is_none());
    assert!(m1[0].rotation().is_some());
}

#[test]
fn rigid_body_motions_are_six_to_a_segment() {
    let motions: Vec<Motion<f64>> = (1..=7)
        .map(|sid| {
            let s = sid as f64;
            ([s + 0.1, s + 0.2, s + 0.3], [s + 0.4, s + 0.5, s + 0.6])
        })
        .collect();
    let rbm = Mirror::<M1>::rigid_body_motions(&motions);
    assert_eq!(rbm.len(), 42);
    for sid in 1..=7usize {
        let s = sid as f64;
        assert_eq!(
            rbm[6 * (sid - 1)..6 * sid],
            [s + 0.1, s + 0.2, s + 0.3, s + 0.4, s + 0.5, s + 0.6]
        );
    }
    assert_eq!(rbm[36..], [7.1, 7.2, 7.3, 7.4, 7.5, 7.6]);
}

#[test]
fn rigid_body_motions_keep_translations_before_angles() {
    let motions: Vec<Motion<i32>> = vec![([1, 2, 3], [4, 5, 6]), ([7, 8, 9], [10, 11, 12])];
    assert_eq!(
        Mirror::<M2>::rigid_body_motions(&motions),
        vec![1, 2, 3, 4, 5, 6, 7, 8, 9, 10, 11, 12]
    );
}

#[test]
fn no_motions_make_no_numbers() {
    let motions: Vec<Motion<f64>> = vec![];
    assert!(Mirror::<M1>::rigid_body_motions(&motions).is_empty());
}
