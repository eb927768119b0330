use hyped_boards_stm32f767zi::navigation::{
    decode_position_target_mm, decode_speed_accel_mmps, NavKinematics,
};

#[test]
fn decode_speed_and_accel_in_mmps() {
    // 1.234 m/s -> 1234 mm/s,  -0.500 m/s^2 -> -500 mm/s^2
    let bytes = 1234i32
        .to_le_bytes()
        .into_iter()
        .chain((-500i32).to_le_bytes())
        .collect::<Vec<u8>>();

    let (speed, accel) = decode_speed_accel_mmps(&bytes)
        .map(|(s, a)| (s as f32 / 1000.0, a as f32 / 1000.0))
        .expect("should parse");
    assert!((speed - 1.234).abs() < 0.0001);
    assert!((accel + 0.5).abs() < 0.0001);
}

#[test]
fn decode_position_and_target_in_mm() {
    // 12.345 m -> 12345 mm, 100.000 m -> 100000 mm
    let bytes = 12345i32
        .to_le_bytes()
        .into_iter()
        .chain(100_000i32.to_le_bytes())
        .collect::<Vec<u8>>();

    let (pos, target) = decode_position_target_mm(&bytes)
        .map(|(p, t)| (p as f32 / 1000.0, t as f32 / 1000.0))
        .expect("should parse");
    assert!((pos - 12.345).abs() < 0.0001);
    assert!((target - 100.0).abs() < 0.0001);
}

#[test]
fn nav_kinematics_merge_prefers_new_values() {
    let base = NavKinematics {
        position_m: Some(1.0),
        velocity_mps: Some(2.0),
        accel_mps2: None,
        target_position_m: Some(3.0),
    };
    let update = NavKinematics {
        position_m: Some(10.0),
        velocity_mps: None,
        accel_mps2: Some(-1.0),
        target_position_m: None,
    };
    let merged = base.merge(update);
    assert_eq!(merged.position_m, Some(10.0));
    assert_eq!(merged.velocity_mps, Some(2.0));
    assert_eq!(merged.accel_mps2, Some(-1.0));
    assert_eq!(merged.target_position_m, Some(3.0));
}

#[test]
fn decode_rejects_short_payloads() {
    assert_eq!(decode_speed_accel_mmps(&[1, 2, 3, 4, 5, 6, 7]), None);
    assert_eq!(decode_position_target_mm(&[]), None);
}

#[test]
fn decode_reads_exact_millimetres_and_ignores_trailing_bytes() {
    let mut bytes = Vec::new();
    bytes.extend_from_slice(&(-1i32).to_le_bytes());
    bytes.extend_from_slice(&i32::MAX.to_le_bytes());
    bytes.push(0xAA);
    assert_eq!(decode_speed_accel_mmps(&bytes), Some((-1, i32::MAX)));
    assert_eq!(decode_position_target_mm(&bytes), Some((-1, i32::MAX)));
}

#[test]
fn merge_laws_on_concrete_values() {
    let unknown: NavKinematics<f32> = NavKinematics::default();
    let k = NavKinematics {
        position_m: Some(1.5f32),
        velocity_mps: None,
        accel_mps2: Some(0.25),
        target_position_m: Some(9.0),
    };
    // an empty update changes nothing
    assert_eq!(k.merge(unknown), k);
    let a = NavKinematics { position_m: Some(2.0), ..unknown };
    let b = NavKinematics { velocity_mps: Some(3.0), position_m: Some(4.0), ..unknown };
    // grouping does not matter
    assert_eq!(k.merge(a).merge(b), k.merge(a.merge(b)));
    // an update received twice is received once
    assert_eq!(k.merge(b).merge(b), k.merge(b));
}
