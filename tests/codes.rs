use binance_async::error::BinanceError;
use binance_async::error::Code;
use binance_async::error::CodeError;
use binance_async::error::CommonCode;
use binance_async::error::FApiCode;
use binance_async::error::SApiCode;
use binance_async::error::WSApiCode;
use std::convert::TryFrom;

#[test]
fn filter_band_starts_at_minus_9000() {
    assert!(matches!(Code::<FApiCode>::classify(-9000), Ok(Code::Filter(-9000))));
    assert!(matches!(Code::<FApiCode>::classify(-9999), Ok(Code::Filter(-9999))));
    assert!(matches!(Code::<SApiCode>::classify(i16::MIN), Ok(Code::Filter(v)) if v == i16::MIN));
}

#[test]
fn minus_8999_is_in_the_api_band() {
    // No table has a code at -8999, so it does not decode.
    assert_eq!(Code::<FApiCode>::classify(-8999).unwrap_err(), CodeError::Unmapped);
    assert_eq!(Code::<SApiCode>::classify(-8999).unwrap_err(), CodeError::Unmapped);
}

#[test]
fn minus_3000_is_in_the_api_band() {
    assert_eq!(Code::<FApiCode>::classify(-3000).unwrap_err(), CodeError::Unmapped);
    assert!(matches!(
        Code::<SApiCode>::classify(-3021),
        Ok(Code::Api(SApiCode::PairAdminBanTrade))
    ));
    assert!(matches!(
        Code::<FApiCode>::classify(-4001),
        Ok(Code::Api(FApiCode::PriceLessThanZero))
    ));
}

#[test]
fn minus_2999_is_in_the_common_band() {
    assert_eq!(Code::<FApiCode>::classify(-2999).unwrap_err(), CodeError::Unmapped);
    assert!(matches!(
        Code::<FApiCode>::classify(-2028),
        Ok(Code::Common(CommonCode::MinLeverageRatio))
    ));
    // -1000 is in the common band even though the futures table also has it.
    assert!(matches!(Code::<FApiCode>::classify(-1000), Ok(Code::Common(CommonCode::Unknown))));
}

#[test]
fn zero_and_up_are_in_the_api_band() {
    assert!(matches!(
        Code::<WSApiCode>::classify(0),
        Ok(Code::Api(WSApiCode::UnknownProperty))
    ));
    assert!(matches!(Code::<WSApiCode>::classify(3), Ok(Code::Api(WSApiCode::InvalidJson))));
    assert_eq!(Code::<WSApiCode>::classify(4).unwrap_err(), CodeError::Unmapped);
    assert_eq!(Code::<FApiCode>::classify(0).unwrap_err(), CodeError::Unmapped);
}

#[test]
fn out_of_range_values_fail_before_classification() {
    assert_eq!(Code::<WSApiCode>::decode(32768).unwrap_err(), CodeError::OutOfRange);
    assert_eq!(Code::<WSApiCode>::decode(-32769).unwrap_err(), CodeError::OutOfRange);
    assert!(matches!(Code::<WSApiCode>::decode(-32768), Ok(Code::Filter(-32768))));
    assert!(matches!(Code::<WSApiCode>::decode(2), Ok(Code::Api(WSApiCode::InvalidRequest))));
    assert_eq!(Code::<WSApiCode>::decode(32767).unwrap_err(), CodeError::Unmapped);
}

#[test]
fn try_from_classifies() {
    assert!(matches!(Code::<WSApiCode>::try_from(1), Ok(Code::Api(WSApiCode::InvalidValueType))));
    assert!(matches!(Code::<WSApiCode>::try_from(-9001), Ok(Code::Filter(-9001))));
}

#[test]
fn code_values_round_trip() {
    assert_eq!(CommonCode::InvalidSignature.value(), -1022);
    assert_eq!(FApiCode::InvalidPriceSpreadThreshold.value(), -4086);
    assert_eq!(SApiCode::Pending.value(), -6019);
    assert_eq!(WSApiCode::InvalidJson.value(), 3);
    assert_eq!(CommonCode::from_i16(-1022), Some(CommonCode::InvalidSignature));
    assert_eq!(SApiCode::from_i16(-6019), Some(SApiCode::Pending));
    assert_eq!(CommonCode::from_i16(-1009), None);
    assert_eq!(Code::<SApiCode>::classify(-6019).unwrap().value(), -6019);
    assert_eq!(Code::<SApiCode>::classify(-9500).unwrap().value(), -9500);
}

#[test]
fn defaults() {
    assert_eq!(CommonCode::default(), CommonCode::Unknown);
    assert_eq!(FApiCode::default(), FApiCode::Unknown);
    assert_eq!(SApiCode::default(), SApiCode::Unknown);
    assert_eq!(WSApiCode::default(), WSApiCode::UnknownProperty);
    assert!(matches!(Code::<FApiCode>::default(), Code::Common(CommonCode::Unknown)));
    let e = BinanceError::<FApiCode>::default();
    assert_eq!(e.msg(), "");
}

#[test]
fn venue_error_keeps_code_and_message() {
    let e = BinanceError::new(Code::<FApiCode>::Filter(-9100), "too many orders".to_string());
    assert!(matches!(e.code(), Code::Filter(-9100)));
    assert_eq!(e.msg(), "too many orders");
}
