use asset_model::asset::{Asset, AssetValue};
use asset_model::errors::{UnsupportedOperationError, ValueError};
use asset_model::ids::{AccountId, AssetDefinitionId, AssetId};
use asset_model::metadata::Metadata;
use asset_model::numeric::Numeric;
use rust_decimal::prelude::FromPrimitive;
use rust_decimal::Decimal;

fn sample_asset_id() -> AssetId {
    AssetId::new(
        AssetDefinitionId::new("rose", "wonderland").unwrap(),
        AccountId::new("alice", "wonderland").unwrap(),
    )
}

#[test]
fn integral_inputs_have_scale_zero() {
    let n = Numeric::from_u32(100);
    assert_eq!(n.mantissa, 100);
    assert_eq!(n.scale, 0);
    let m = Numeric::from_u128(340_282_366_920_938_463_463);
    assert_eq!(m.mantissa, 340_282_366_920_938_463_463);
    assert_eq!(m.scale, 0);
}

#[test]
fn float_twelve_and_a_half_is_exact() {
    let decimal = Decimal::from_f64(12.5).unwrap();
    let n = Numeric::new(decimal.mantissa() as u128, decimal.scale());
    assert_eq!((n.mantissa, n.scale), (125, 1));
    let back = Decimal::from_i128_with_scale(n.mantissa as i128, n.scale);
    assert_eq!(back, decimal);
    assert_eq!(back.to_string(), "12.5");
}

#[test]
fn finite_floats_round_trip_through_mantissa_and_scale() {
    for f in [0.0f64, 0.1, 2.0, 3.25, 1234.5678, 1e10] {
        let decimal = Decimal::from_f64(f).unwrap();
        let n = Numeric::new(decimal.mantissa() as u128, decimal.scale());
        let back = Decimal::from_i128_with_scale(n.mantissa as i128, n.scale);
        assert_eq!(back, decimal);
    }
}

#[test]
fn non_decimal_floats_are_rejected() {
    assert!(Decimal::from_f64(f64::NAN).is_none());
    assert!(Decimal::from_f64(f64::INFINITY).is_none());
    assert!(Decimal::from_f64(f64::NEG_INFINITY).is_none());
    // The library's error for this rejection exists and is distinct.
    assert_ne!(ValueError::NotDecimal, ValueError::StoreAccess);
}

#[test]
fn decimal_rendering_is_exact() {
    assert_eq!(Numeric::new(125, 1).to_decimal_string(), "12.5");
    assert_eq!(Numeric::new(100, 0).to_decimal_string(), "100");
    assert_eq!(Numeric::new(0, 0).to_decimal_string(), "0");
    assert_eq!(Numeric::new(5, 3).to_decimal_string(), "0.005");
    assert_eq!(Numeric::new(0, 2).to_decimal_string(), "0.00");
    assert_eq!(Numeric::new(12345, 2).to_decimal_string(), "123.45");
    assert_eq!(
        Numeric::new(340_282_366_920_938_463_463_374_607_431_768_211_455, 0).to_decimal_string(),
        "340282366920938463463374607431768211455"
    );
    assert_eq!(Numeric::new(1, 40).to_decimal_string(), format!("0.{}1", "0".repeat(39)));
}

#[test]
fn decimal_rendering_matches_the_host_decimal() {
    for f in [12.5f64, 0.1, 3.25, 1234.5678] {
        let decimal = Decimal::from_f64(f).unwrap();
        let n = Numeric::new(decimal.mantissa() as u128, decimal.scale());
        assert_eq!(n.to_decimal_string(), decimal.to_string());
    }
}

#[test]
fn asset_value_entry_points_match_numeric() {
    match AssetValue::from_u32(7) {
        AssetValue::Numeric(n) => assert_eq!((n.mantissa, n.scale), (7, 0)),
        AssetValue::Store(_) => panic!("integral input must be numeric"),
    }
    match AssetValue::from_u128(9) {
        AssetValue::Numeric(n) => assert_eq!((n.mantissa, n.scale), (9, 0)),
        AssetValue::Store(_) => panic!("integral input must be numeric"),
    }
}

#[test]
fn numeric_value_reads_back_exactly() {
    let asset = Asset::new(sample_asset_id(), AssetValue::Numeric(Numeric::new(125, 1)));
    let n = asset.numeric_value().unwrap();
    assert_eq!((n.mantissa, n.scale), (125, 1));
}

#[test]
fn store_value_through_numeric_path_is_a_value_error() {
    let asset = Asset::new(sample_asset_id(), AssetValue::Store(Metadata::empty()));
    assert_eq!(asset.numeric_value().unwrap_err(), ValueError::StoreAccess);
}

#[test]
fn store_readback_is_unsupported() {
    let asset = Asset::new(sample_asset_id(), AssetValue::Store(Metadata::empty()));
    assert_eq!(asset.store_value().unwrap_err(), UnsupportedOperationError::StoreReadback);
}

#[test]
fn set_value_replaces_wholesale_and_keeps_the_id() {
    let mut asset = Asset::new(sample_asset_id(), AssetValue::from_u32(1));
    asset.set_value(AssetValue::from_u128(2));
    let n = asset.numeric_value().unwrap();
    assert_eq!((n.mantissa, n.scale), (2, 0));
    assert!(asset.id == sample_asset_id());
}

#[test]
fn empty_metadata_has_no_entries() {
    assert_eq!(Metadata::empty().len(), 0);
}
