use voltage_iec104::{
    Cp56Time2a, DataPoint, DataValue, DoublePointValue, MeasuredQuality, Quality,
    QualityDescriptor,
};

#[test]
fn test_data_point_creation() {
    let dp = DataPoint::new(1001, DataValue::Float(23.5f32.to_bits()));
    assert_eq!(dp.ioa, 1001);
    assert!(dp.is_good());
    if let DataValue::Float(bits) = dp.value {
        assert_eq!(f32::from_bits(bits), 23.5);
    } else {
        panic!("Expected Float value");
    }
}

#[test]
fn test_data_value_conversions() {
    assert_eq!(DataValue::Single(true).as_bool(), Some(true));
    assert_eq!(DataValue::Single(false).as_bool(), Some(false));
    if let DataValue::Float(bits) = DataValue::Float(1.5f32.to_bits()) {
        assert_eq!(f32::from_bits(bits), 1.5);
    }
    assert_eq!(DataValue::Scaled(100), DataValue::Scaled(100));
    assert_eq!(DataValue::Counter(12345), DataValue::Counter(12345));
}

#[test]
fn test_quality_flags() {
    assert!(Quality::good().is_good());
    assert!(!Quality::with_invalid(true).is_good());

    let q = Quality::from_qds(0x81); // IV + OV
    assert!(q.invalid());
    assert!(q.overflow());
    assert!(!q.blocked());
}

#[test]
fn test_quality_display() {
    assert_eq!(Quality::good().display_string(), "Good");
    assert_eq!(Quality::with_invalid(true).display_string(), "IV");

    let q = Quality::good().set_overflow(true).set_invalid(true);
    assert_eq!(q.display_string(), "OV|IV");
}

#[test]
fn test_data_point_with_quality() {
    let dp = DataPoint::with_quality(
        1001,
        DataValue::Float(50.0f32.to_bits()),
        Quality::with_invalid(true),
    );
    assert_eq!(dp.ioa, 1001);
    assert!(!dp.is_good());
    assert!(dp.quality.invalid());
}

#[test]
fn test_data_point_with_timestamp() {
    let ts = Cp56Time2a {
        milliseconds: 30000,
        minutes: 30,
        hours: 12,
        day: 15,
        day_of_week: 3,
        month: 6,
        year: 24,
        invalid: false,
        summer_time: false,
    };
    let dp = DataPoint::with_timestamp(
        1002,
        DataValue::Single(true),
        Quality::good(),
        ts,
    );
    assert_eq!(dp.ioa, 1002);
    assert!(dp.timestamp.is_some());
    assert_eq!(dp.timestamp.unwrap().hours, 12);
}

#[test]
fn test_data_value_as_bool() {
    // Single values
    assert_eq!(DataValue::Single(true).as_bool(), Some(true));
    assert_eq!(DataValue::Single(false).as_bool(), Some(false));

    // Double values
    assert_eq!(DataValue::Double(DoublePointValue::On).as_bool(), Some(true));
    assert_eq!(DataValue::Double(DoublePointValue::Off).as_bool(), Some(false));
    assert_eq!(DataValue::Double(DoublePointValue::Indeterminate).as_bool(), None);
    assert_eq!(DataValue::Double(DoublePointValue::IndeterminateOrFaulty).as_bool(), None);

    // Non-boolean types return None
    assert_eq!(DataValue::Float(1.0f32.to_bits()).as_bool(), None);
    assert_eq!(DataValue::Scaled(1).as_bool(), None);
    assert_eq!(DataValue::Counter(1).as_bool(), None);
}

#[test]
fn test_data_value_is_boolean() {
    assert!(DataValue::Single(true).is_boolean());
    assert!(DataValue::Double(DoublePointValue::On).is_boolean());
    assert!(!DataValue::Float(1.0f32.to_bits()).is_boolean());
    assert!(!DataValue::Scaled(1).is_boolean());
    assert!(!DataValue::Normalized(16384).is_boolean());
}

#[test]
fn test_data_value_is_numeric() {
    assert!(DataValue::Normalized(16384).is_numeric());
    assert!(DataValue::Scaled(100).is_numeric());
    assert!(DataValue::Float(1.0f32.to_bits()).is_numeric());
    assert!(DataValue::Counter(1000).is_numeric());
    assert!(DataValue::StepPosition(10).is_numeric());
    assert!(DataValue::BinaryCounter {
        value: 1,
        sequence: 0,
        carry: false,
        adjusted: false,
        invalid: false,
    }
    .is_numeric());

    // Boolean types are not numeric
    assert!(!DataValue::Single(true).is_numeric());
    assert!(!DataValue::Double(DoublePointValue::On).is_numeric());

    // Bitstring is not classified as numeric
    assert!(!DataValue::Bitstring(0).is_numeric());
}

#[test]
fn test_quality_from_quality_descriptor() {
    let qd = QualityDescriptor {
        blocked: true,
        substituted: true,
        not_topical: false,
        invalid: false,
    };
    let q = Quality::from_quality_descriptor(qd);
    assert!(q.blocked());
    assert!(q.substituted());
    assert!(!q.not_topical());
    assert!(!q.invalid());
    assert!(!q.overflow()); // Not in QualityDescriptor
}

#[test]
fn test_quality_from_measured_quality() {
    let mq = MeasuredQuality {
        overflow: true,
        blocked: false,
        substituted: true,
        not_topical: false,
        invalid: true,
    };
    let q = Quality::from_measured_quality(mq);
    assert!(q.overflow());
    assert!(!q.blocked());
    assert!(q.substituted());
    assert!(!q.not_topical());
    assert!(q.invalid());
}

#[test]
fn test_quality_from_bcr_flags() {
    // Test BCR flags: bits 5=carry, 6=adjusted, 7=invalid
    let q = Quality::from_bcr_flags(0xC0); // invalid + elapsed_time_invalid
    assert!(q.invalid());
    assert!(q.elapsed_time_invalid());
    assert!(!q.overflow());
    assert!(!q.blocked());
}

#[test]
fn test_quality_display_all_flags() {
    let q = Quality::good()
        .set_overflow(true)
        .set_blocked(true)
        .set_substituted(true)
        .set_not_topical(true)
        .set_invalid(true)
        .set_elapsed_time_invalid(true);
    let display = q.display_string();
    assert!(display.contains("OV"));
    assert!(display.contains("BL"));
    assert!(display.contains("SB"));
    assert!(display.contains("NT"));
    assert!(display.contains("IV"));
    assert!(display.contains("EI"));
}

#[test]
fn test_quality_display_single_flag() {
    let q = Quality::good().set_overflow(true);
    assert_eq!(q.display_string(), "OV");

    let q = Quality::good().set_blocked(true);
    assert_eq!(q.display_string(), "BL");

    let q = Quality::good().set_substituted(true);
    assert_eq!(q.display_string(), "SB");

    let q = Quality::good().set_not_topical(true);
    assert_eq!(q.display_string(), "NT");

    let q = Quality::good().set_elapsed_time_invalid(true);
    assert_eq!(q.display_string(), "EI");
}

#[test]
fn test_quality_from_qds_all_combinations() {
    // Test all individual QDS flags
    assert!(Quality::from_qds(0x01).overflow());
    assert!(Quality::from_qds(0x10).blocked());
    assert!(Quality::from_qds(0x20).substituted());
    assert!(Quality::from_qds(0x40).not_topical());
    assert!(Quality::from_qds(0x80).invalid());

    // Test combination
    let q = Quality::from_qds(0xF1);
    assert!(q.overflow());
    assert!(q.blocked());
    assert!(q.substituted());
    assert!(q.not_topical());
    assert!(q.invalid());
}

#[test]
fn test_quality_from_siq_diq_equivalence() {
    // SIQ and DIQ have same quality bit layout
    for byte in [0x00, 0x10, 0x20, 0x40, 0x80, 0xF0] {
        let siq = Quality::from_siq(byte);
        let diq = Quality::from_diq(byte);
        assert_eq!(siq.blocked(), diq.blocked());
        assert_eq!(siq.substituted(), diq.substituted());
        assert_eq!(siq.not_topical(), diq.not_topical());
        assert_eq!(siq.invalid(), diq.invalid());
    }
}

#[test]
fn test_data_point_as_bool_method() {
    let dp = DataPoint::new(1, DataValue::Single(true));
    assert_eq!(dp.as_bool(), Some(true));

    let dp = DataPoint::new(2, DataValue::Float(1.0f32.to_bits()));
    assert_eq!(dp.as_bool(), None);
}

#[test]
fn test_quality_packed_size() {
    // Verify Quality is only 1 byte (packed into u8)
    assert_eq!(std::mem::size_of::<Quality>(), 1);
}

#[test]
fn test_quality_builder_pattern() {
    // Test chained builder pattern
    let q = Quality::good()
        .set_overflow(true)
        .set_blocked(true)
        .set_substituted(true)
        .set_not_topical(true)
        .set_invalid(true)
        .set_elapsed_time_invalid(true);

    assert!(q.overflow());
    assert!(q.blocked());
    assert!(q.substituted());
    assert!(q.not_topical());
    assert!(q.invalid());
    assert!(q.elapsed_time_invalid());
    assert!(!q.is_good());
}

#[test]
fn test_quality_builder_toggle() {
    // Test setting and unsetting flags
    let q = Quality::good().set_invalid(true);
    assert!(q.invalid());

    let q = q.set_invalid(false);
    assert!(!q.invalid());
    assert!(q.is_good());
}

#[test]
fn test_quality_raw_roundtrip() {
    // Test raw byte roundtrip
    for raw in [0x00, 0x01, 0x02, 0x04, 0x08, 0x10, 0x20, 0x3F] {
        let q = Quality::from_raw(raw);
        assert_eq!(q.as_raw(), raw);
    }
}

#[test]
fn test_quality_with_invalid_constructor() {
    // Test the with_invalid convenience constructor
    let q = Quality::with_invalid(false);
    assert!(q.is_good());

    let q = Quality::with_invalid(true);
    assert!(!q.is_good());
    assert!(q.invalid());
}

#[test]
fn test_quality_const_evaluation() {
    // The canonical good and invalid qualities
    let good = Quality::good();
    let invalid = Quality::with_invalid(true);
    let is_good = good.is_good();
    let is_bad = invalid.is_good();

    assert!(is_good);
    assert!(!is_bad);
}

#[test]
fn test_quality_bit_isolation() {
    // Test each bit is isolated correctly
    let q = Quality::from_raw(0x01); // OV only
    assert!(q.overflow());
    assert!(!q.blocked());

    let q = Quality::from_raw(0x02); // BL only
    assert!(!q.overflow());
    assert!(q.blocked());
    assert!(!q.substituted());

    let q = Quality::from_raw(0x04); // SB only
    assert!(q.substituted());
    assert!(!q.not_topical());

    let q = Quality::from_raw(0x08); // NT only
    assert!(q.not_topical());
    assert!(!q.invalid());

    let q = Quality::from_raw(0x10); // IV only
    assert!(q.invalid());
    assert!(!q.elapsed_time_invalid());

    let q = Quality::from_raw(0x20); // EI only
    assert!(q.elapsed_time_invalid());
}

#[test]
fn test_quality_packing_every_qds_byte() {
    // For every byte, the packed quality uses only the five known bit
    // positions and every selector agrees with the corresponding input bit.
    for b in 0..=255u8 {
        let q = Quality::from_qds(b);
        assert_eq!(q.as_raw() & !0x1F, 0, "stray bits for QDS {:#04x}", b);
        assert_eq!(q.overflow(), b & 0x01 != 0);
        assert_eq!(q.blocked(), b & 0x10 != 0);
        assert_eq!(q.substituted(), b & 0x20 != 0);
        assert_eq!(q.not_topical(), b & 0x40 != 0);
        assert_eq!(q.invalid(), b & 0x80 != 0);
        assert!(!q.elapsed_time_invalid());
    }
}
