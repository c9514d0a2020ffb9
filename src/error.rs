//! The venue's error vocabulary: the three bands of signed 16-bit error
//! codes, and the error kinds that the client surfaces.

use vstd::prelude::*;

verus! {

/// Error codes shared by every endpoint of the venue.
#[derive(Clone, Copy, Debug, PartialEq, Eq, Structural)]
pub enum CommonCode {
    // 10xx General server or network issues
    Unknown,
    Disconnected,
    Unauthorized,
    TooManyRequests,
    DuplicateIp,
    NoSuchIp,
    UnexpectedResponse,
    Timeout,
    ErrorMessageReceived,
    IpNotOnWhiteList,
    InvalidMessage,
    UnknownOrderComposition,
    TooManyOrders,
    ServiceShuttingDown,
    UnsupportedOperation,
    InvalidTimestamp,
    InvalidSignature,
    StartTimeGreaterThanEndTime,
    NotFoundOrAllowed,
    // 11xx - 2xxx Request issues
    IllegalChars,
    TooManyParameters,
    MandatoryParameterEmptyOrMalformed,
    UnknownParameter,
    UnreadParameters,
    ParameterEmpty,
    ParameterNotRequired,
    BadAsset,
    BadAccount,
    BadInstrumentType,
    BadPrecision,
    NoDepth,
    WithdrawalNotNegative,
    TimeInForceNotRequired,
    InvalidTimeInForce,
    InvalidOrderType,
    InvalidSide,
    EmptyNewClientOrderId,
    EmptyOriginalClientOrderId,
    BadInterval,
    BadSymbol,
    InvalidListenKey,
    MoreThanXxHours,
    OptionalParametersBadCombination,
    InvalidParameter,
    BadReceiveWindow,
    // 20xx Processing issues
    BadApiId,
    NewOrderRejected,
    CancelRejected,
    NoSuchOrder,
    BadApiKeyFormat,
    RejectedApiKeyOrIp,
    NoTradingWindow,
    BalanceNotSufficient,
    MarginNotSufficient,
    UnableToFill,
    OrderWouldImmediatelyTrigger,
    ReduceOnlyReject,
    UserInLiquidation,
    PositionNotSufficient,
    MaxOpenOrderExceeded,
    ReduceOnlyOrderTypeNotSupported,
    MaxLeverageRatio,
    MinLeverageRatio,
}

impl CommonCode {
    /// The numeric value of each code.
    pub open spec fn spec_value(self) -> i16 {
        match self {
            CommonCode::Unknown => -1000i16,
            CommonCode::Disconnected => -1001i16,
            CommonCode::Unauthorized => -1002i16,
            CommonCode::TooManyRequests => -1003i16,
            CommonCode::DuplicateIp => -1004i16,
            CommonCode::NoSuchIp => -1005i16,
            CommonCode::UnexpectedResponse => -1006i16,
            CommonCode::Timeout => -1007i16,
            CommonCode::ErrorMessageReceived => -1010i16,
            CommonCode::IpNotOnWhiteList => -1011i16,
            CommonCode::InvalidMessage => -1013i16,
            CommonCode::UnknownOrderComposition => -1014i16,
            CommonCode::TooManyOrders => -1015i16,
            CommonCode::ServiceShuttingDown => -1016i16,
            CommonCode::UnsupportedOperation => -1020i16,
            CommonCode::InvalidTimestamp => -1021i16,
            CommonCode::InvalidSignature => -1022i16,
            CommonCode::StartTimeGreaterThanEndTime => -1023i16,
            CommonCode::NotFoundOrAllowed => -1099i16,
            CommonCode::IllegalChars => -1100i16,
            CommonCode::TooManyParameters => -1101i16,
            CommonCode::MandatoryParameterEmptyOrMalformed => -1102i16,
            CommonCode::UnknownParameter => -1103i16,
            CommonCode::UnreadParameters => -1104i16,
            CommonCode::ParameterEmpty => -1105i16,
            CommonCode::ParameterNotRequired => -1106i16,
            CommonCode::BadAsset => -1108i16,
            CommonCode::BadAccount => -1109i16,
            CommonCode::BadInstrumentType => -1110i16,
            CommonCode::BadPrecision => -1111i16,
            CommonCode::NoDepth => -1112i16,
            CommonCode::WithdrawalNotNegative => -1113i16,
            CommonCode::TimeInForceNotRequired => -1114i16,
            CommonCode::InvalidTimeInForce => -1115i16,
            CommonCode::InvalidOrderType => -1116i16,
            CommonCode::InvalidSide => -1117i16,
            CommonCode::EmptyNewClientOrderId => -1118i16,
            CommonCode::EmptyOriginalClientOrderId => -1119i16,
            CommonCode::BadInterval => -1120i16,
            CommonCode::BadSymbol => -1121i16,
            CommonCode::InvalidListenKey => -1125i16,
            CommonCode::MoreThanXxHours => -1127i16,
            CommonCode::OptionalParametersBadCombination => -1128i16,
            CommonCode::InvalidParameter => -1130i16,
            CommonCode::BadReceiveWindow => -1131i16,
            CommonCode::BadApiId => -2008i16,
            CommonCode::NewOrderRejected => -2010i16,
            CommonCode::CancelRejected => -2011i16,
            CommonCode::NoSuchOrder => -2013i16,
            CommonCode::BadApiKeyFormat => -2014i16,
            CommonCode::RejectedApiKeyOrIp => -2015i16,
            CommonCode::NoTradingWindow => -2016i16,
            CommonCode::BalanceNotSufficient => -2018i16,
            CommonCode::MarginNotSufficient => -2019i16,
            CommonCode::UnableToFill => -2020i16,
            CommonCode::OrderWouldImmediatelyTrigger => -2021i16,
            CommonCode::ReduceOnlyReject => -2022i16,
            CommonCode::UserInLiquidation => -2023i16,
            CommonCode::PositionNotSufficient => -2024i16,
            CommonCode::MaxOpenOrderExceeded => -2025i16,
            CommonCode::ReduceOnlyOrderTypeNotSupported => -2026i16,
            CommonCode::MaxLeverageRatio => -2027i16,
            CommonCode::MinLeverageRatio => -2028i16,
        }
    }

    /// The code with a given numeric value, if the table has one.
    pub open spec fn spec_from_i16(v: i16) -> Option<CommonCode> {
        match v {
            -1000 => Some(CommonCode::Unknown),
            -1001 => Some(CommonCode::Disconnected),
            -1002 => Some(CommonCode::Unauthorized),
            -1003 => Some(CommonCode::TooManyRequests),
            -1004 => Some(CommonCode::DuplicateIp),
            -1005 => Some(CommonCode::NoSuchIp),
            -1006 => Some(CommonCode::UnexpectedResponse),
            -1007 => Some(CommonCode::Timeout),
            -1010 => Some(CommonCode::ErrorMessageReceived),
            -1011 => Some(CommonCode::IpNotOnWhiteList),
            -1013 => Some(CommonCode::InvalidMessage),
            -1014 => Some(CommonCode::UnknownOrderComposition),
            -1015 => Some(CommonCode::TooManyOrders),
            -1016 => Some(CommonCode::ServiceShuttingDown),
            -1020 => Some(CommonCode::UnsupportedOperation),
            -1021 => Some(CommonCode::InvalidTimestamp),
            -1022 => Some(CommonCode::InvalidSignature),
            -1023 => Some(CommonCode::StartTimeGreaterThanEndTime),
            -1099 => Some(CommonCode::NotFoundOrAllowed),
            -1100 => Some(CommonCode::IllegalChars),
            -1101 => Some(CommonCode::TooManyParameters),
            -1102 => Some(CommonCode::MandatoryParameterEmptyOrMalformed),
            -1103 => Some(CommonCode::UnknownParameter),
            -1104 => Some(CommonCode::UnreadParameters),
            -1105 => Some(CommonCode::ParameterEmpty),
            -1106 => Some(CommonCode::ParameterNotRequired),
            -1108 => Some(CommonCode::BadAsset),
            -1109 => Some(CommonCode::BadAccount),
            -1110 => Some(CommonCode::BadInstrumentType),
            -1111 => Some(CommonCode::BadPrecision),
            -1112 => Some(CommonCode::NoDepth),
            -1113 => Some(CommonCode::WithdrawalNotNegative),
            -1114 => Some(CommonCode::TimeInForceNotRequired),
            -1115 => Some(CommonCode::InvalidTimeInForce),
            -1116 => Some(CommonCode::InvalidOrderType),
            -1117 => Some(CommonCode::InvalidSide),
            -1118 => Some(CommonCode::EmptyNewClientOrderId),
            -1119 => Some(CommonCode::EmptyOriginalClientOrderId),
            -1120 => Some(CommonCode::BadInterval),
            -1121 => Some(CommonCode::BadSymbol),
            -1125 => Some(CommonCode::InvalidListenKey),
            -1127 => Some(CommonCode::MoreThanXxHours),
            -1128 => Some(CommonCode::OptionalParametersBadCombination),
            -1130 => Some(CommonCode::InvalidParameter),
            -1131 => Some(CommonCode::BadReceiveWindow),
            -2008 => Some(CommonCode::BadApiId),
            -2010 => Some(CommonCode::NewOrderRejected),
            -2011 => Some(CommonCode::CancelRejected),
            -2013 => Some(CommonCode::NoSuchOrder),
            -2014 => Some(CommonCode::BadApiKeyFormat),
            -2015 => Some(CommonCode::RejectedApiKeyOrIp),
            -2016 => Some(CommonCode::NoTradingWindow),
            -2018 => Some(CommonCode::BalanceNotSufficient),
            -2019 => Some(CommonCode::MarginNotSufficient),
            -2020 => Some(CommonCode::UnableToFill),
            -2021 => Some(CommonCode::OrderWouldImmediatelyTrigger),
            -2022 => Some(CommonCode::ReduceOnlyReject),
            -2023 => Some(CommonCode::UserInLiquidation),
            -2024 => Some(CommonCode::PositionNotSufficient),
            -2025 => Some(CommonCode::MaxOpenOrderExceeded),
            -2026 => Some(CommonCode::ReduceOnlyOrderTypeNotSupported),
            -2027 => Some(CommonCode::MaxLeverageRatio),
            -2028 => Some(CommonCode::MinLeverageRatio),
            _ => None,
        }
    }

    pub fn value(&self) -> (r: i16)
        ensures
            r == self.spec_value(),
    {
        match self {
            CommonCode::Unknown => -1000,
            CommonCode::Disconnected => -1001,
            CommonCode::Unauthorized => -1002,
            CommonCode::TooManyRequests => -1003,
            CommonCode::DuplicateIp => -1004,
            CommonCode::NoSuchIp => -1005,
            CommonCode::UnexpectedResponse => -1006,
            CommonCode::Timeout => -1007,
            CommonCode::ErrorMessageReceived => -1010,
            CommonCode::IpNotOnWhiteList => -1011,
            CommonCode::InvalidMessage => -1013,
            CommonCode::UnknownOrderComposition => -1014,
            CommonCode::TooManyOrders => -1015,
            CommonCode::ServiceShuttingDown => -1016,
            CommonCode::UnsupportedOperation => -1020,
            CommonCode::InvalidTimestamp => -1021,
            CommonCode::InvalidSignature => -1022,
            CommonCode::StartTimeGreaterThanEndTime => -1023,
            CommonCode::NotFoundOrAllowed => -1099,
            CommonCode::IllegalChars => -1100,
            CommonCode::TooManyParameters => -1101,
            CommonCode::MandatoryParameterEmptyOrMalformed => -1102,
            CommonCode::UnknownParameter => -1103,
            CommonCode::UnreadParameters => -1104,
            CommonCode::ParameterEmpty => -1105,
            CommonCode::ParameterNotRequired => -1106,
            CommonCode::BadAsset => -1108,
            CommonCode::BadAccount => -1109,
            CommonCode::BadInstrumentType => -1110,
            CommonCode::BadPrecision => -1111,
            CommonCode::NoDepth => -1112,
            CommonCode::WithdrawalNotNegative => -1113,
            CommonCode::TimeInForceNotRequired => -1114,
            CommonCode::InvalidTimeInForce => -1115,
            CommonCode::InvalidOrderType => -1116,
            CommonCode::InvalidSide => -1117,
            CommonCode::EmptyNewClientOrderId => -1118,
            CommonCode::EmptyOriginalClientOrderId => -1119,
            CommonCode::BadInterval => -1120,
            CommonCode::BadSymbol => -1121,
            CommonCode::InvalidListenKey => -1125,
            CommonCode::MoreThanXxHours => -1127,
            CommonCode::OptionalParametersBadCombination => -1128,
            CommonCode::InvalidParameter => -1130,
            CommonCode::BadReceiveWindow => -1131,
            CommonCode::BadApiId => -2008,
            CommonCode::NewOrderRejected => -2010,
            CommonCode::CancelRejected => -2011,
            CommonCode::NoSuchOrder => -2013,
            CommonCode::BadApiKeyFormat => -2014,
            CommonCode::RejectedApiKeyOrIp => -2015,
            CommonCode::NoTradingWindow => -2016,
            CommonCode::BalanceNotSufficient => -2018,
            CommonCode::MarginNotSufficient => -2019,
            CommonCode::UnableToFill => -2020,
            CommonCode::OrderWouldImmediatelyTrigger => -2021,
            CommonCode::ReduceOnlyReject => -2022,
            CommonCode::UserInLiquidation => -2023,
            CommonCode::PositionNotSufficient => -2024,
            CommonCode::MaxOpenOrderExceeded => -2025,
            CommonCode::ReduceOnlyOrderTypeNotSupported => -2026,
            CommonCode::MaxLeverageRatio => -2027,
            CommonCode::MinLeverageRatio => -2028,
        }
    }

    pub fn from_i16(v: i16) -> (r: Option<CommonCode>)
        ensures
            r == Self::spec_from_i16(v),
    {
        match v {
            -1000 => Some(CommonCode::Unknown),
            -1001 => Some(CommonCode::Disconnected),
            -1002 => Some(CommonCode::Unauthorized),
            -1003 => Some(CommonCode::TooManyRequests),
            -1004 => Some(CommonCode::DuplicateIp),
            -1005 => Some(CommonCode::NoSuchIp),
            -1006 => Some(CommonCode::UnexpectedResponse),
            -1007 => Some(CommonCode::Timeout),
            -1010 => Some(CommonCode::ErrorMessageReceived),
            -1011 => Some(CommonCode::IpNotOnWhiteList),
            -1013 => Some(CommonCode::InvalidMessage),
            -1014 => Some(CommonCode::UnknownOrderComposition),
            -1015 => Some(CommonCode::TooManyOrders),
            -1016 => Some(CommonCode::ServiceShuttingDown),
            -1020 => Some(CommonCode::UnsupportedOperation),
            -1021 => Some(CommonCode::InvalidTimestamp),
            -1022 => Some(CommonCode::InvalidSignature),
            -1023 => Some(CommonCode::StartTimeGreaterThanEndTime),
            -1099 => Some(CommonCode::NotFoundOrAllowed),
            -1100 => Some(CommonCode::IllegalChars),
            -1101 => Some(CommonCode::TooManyParameters),
            -1102 => Some(CommonCode::MandatoryParameterEmptyOrMalformed),
            -1103 => Some(CommonCode::UnknownParameter),
            -1104 => Some(CommonCode::UnreadParameters),
            -1105 => Some(CommonCode::ParameterEmpty),
            -1106 => Some(CommonCode::ParameterNotRequired),
            -1108 => Some(CommonCode::BadAsset),
            -1109 => Some(CommonCode::BadAccount),
            -1110 => Some(CommonCode::BadInstrumentType),
            -1111 => Some(CommonCode::BadPrecision),
            -1112 => Some(CommonCode::NoDepth),
            -1113 => Some(CommonCode::WithdrawalNotNegative),
            -1114 => Some(CommonCode::TimeInForceNotRequired),
            -1115 => Some(CommonCode::InvalidTimeInForce),
            -1116 => Some(CommonCode::InvalidOrderType),
            -1117 => Some(CommonCode::InvalidSide),
            -1118 => Some(CommonCode::EmptyNewClientOrderId),
            -1119 => Some(CommonCode::EmptyOriginalClientOrderId),
            -1120 => Some(CommonCode::BadInterval),
            -1121 => Some(CommonCode::BadSymbol),
            -1125 => Some(CommonCode::InvalidListenKey),
            -1127 => Some(CommonCode::MoreThanXxHours),
            -1128 => Some(CommonCode::OptionalParametersBadCombination),
            -1130 => Some(CommonCode::InvalidParameter),
            -1131 => Some(CommonCode::BadReceiveWindow),
            -2008 => Some(CommonCode::BadApiId),
            -2010 => Some(CommonCode::NewOrderRejected),
            -2011 => Some(CommonCode::CancelRejected),
            -2013 => Some(CommonCode::NoSuchOrder),
            -2014 => Some(CommonCode::BadApiKeyFormat),
            -2015 => Some(CommonCode::RejectedApiKeyOrIp),
            -2016 => Some(CommonCode::NoTradingWindow),
            -2018 => Some(CommonCode::BalanceNotSufficient),
            -2019 => Some(CommonCode::MarginNotSufficient),
            -2020 => Some(CommonCode::UnableToFill),
            -2021 => Some(CommonCode::OrderWouldImmediatelyTrigger),
            -2022 => Some(CommonCode::ReduceOnlyReject),
            -2023 => Some(CommonCode::UserInLiquidation),
            -2024 => Some(CommonCode::PositionNotSufficient),
            -2025 => Some(CommonCode::MaxOpenOrderExceeded),
            -2026 => Some(CommonCode::ReduceOnlyOrderTypeNotSupported),
            -2027 => Some(CommonCode::MaxLeverageRatio),
            -2028 => Some(CommonCode::MinLeverageRatio),
            _ => None,
        }
    }
}

/// Error codes specific to the futures endpoints.
#[derive(Clone, Copy, Debug, PartialEq, Eq, Structural)]
pub enum FApiCode {
    Unknown,
    InvalidOrderStatus,
    PriceLessThanZero,
    PriceGreaterThanMaxPrice,
    QuantityLessThanZero,
    QuantityLessThanMinQuantity,
    QuantityLessThanMaxQuantity,
    StopPriceLessThanZero,
    StopPriceGreaterThanMaxPrice,
    TickSizeLessThanZero,
    MaxPriceLessThanMinPrice,
    MaxQuantityLessThanMinQuantity,
    StepSizeLessThanZero,
    MaxNumOfOrdersLessThanZero,
    PriceLessThanMinPrice,
    PriceNotIncreasedByTickSize,
    InvalidClientOrderIdLength,
    PriceHigherThanMultiplierUp,
    MultiplierUpLessThanZero,
    MultiplierDownLessThanZero,
    CompositeScaleOverflow,
    TargetStrategyInvalid,
    InvalidDepthLimit,
    WrongMarketStatus,
    QuantityNotIncreasedByStepSize,
    PriceLowerThanMultiplierDown,
    MultiplierDecimalLessThanZero,
    CommissionInvalid,
    InvalidAccountType,
    InvalidLeverage,
    InvalidTickSizePrecision,
    InvalidStepSizePrecision,
    InvalidWorkingType,
    ExceedMaxCancelOrderSize,
    InsuranceAccountNotFound,
    InvalidBalanceType,
    MaxStopOrderExceeded,
    NoNeedToChangeMarginType,
    ThereExistsOpenOrders,
    ThereExistsQuantity,
    AddIsolatedMarginReject,
    CrossBalanceInsufficient,
    IsolatedBalanceInsufficient,
    NoNeedToChangeAutoAddMargin,
    AutoAddCrossedMarginReject,
    AddIsolatedMarginNoPositionReject,
    AmountMustBePositive,
    InvalidApiKeyType,
    InvalidRsaPublicKey,
    MaxPriceTooLarge,
    NoNeedToChangePositionSide,
    InvalidPositionSide,
    PositionSideNotMatch,
    ReduceOnlyConflict,
    InvalidOptionsRequestType,
    InvalidOptionsTimeFrame,
    InvalidOptionsAmount,
    InvalidOptionsEventType,
    PositionSideChangeExistsOpenOrders,
    PositionSideChangeExistsQuantity,
    InvalidOptionsPremiumFee,
    InvalidClientOptionsIdLength,
    InvalidOptionsDirection,
    OptionsPremiumNotUpdate,
    OptionsPremiumInputLessThanZero,
    OptionsAmountBiggerThanUpper,
    OptionsPremiumOutputZero,
    OptionsPremiumTooDifferent,
    OptionsPremiumReachLimit,
    OptionsCommonError,
    InvalidOptionsId,
    OptionsUserNotFound,
    OptionsNotFound,
    InvalidBatchPlaceOrderSize,
    PlaceBatchOrdersFail,
    UpcomingMethod,
    InvalidNotionalLimitCoefficient,
    InvalidPriceSpreadThreshold,
}

impl FApiCode {
    /// The numeric value of each code.
    pub open spec fn spec_value(self) -> i16 {
        match self {
            FApiCode::Unknown => -1000i16,
            FApiCode::InvalidOrderStatus => -4000i16,
            FApiCode::PriceLessThanZero => -4001i16,
            FApiCode::PriceGreaterThanMaxPrice => -4002i16,
            FApiCode::QuantityLessThanZero => -4003i16,
            FApiCode::QuantityLessThanMinQuantity => -4004i16,
            FApiCode::QuantityLessThanMaxQuantity => -4005i16,
            FApiCode::StopPriceLessThanZero => -4006i16,
            FApiCode::StopPriceGreaterThanMaxPrice => -4007i16,
            FApiCode::TickSizeLessThanZero => -4008i16,
            FApiCode::MaxPriceLessThanMinPrice => -4009i16,
            FApiCode::MaxQuantityLessThanMinQuantity => -4010i16,
            FApiCode::StepSizeLessThanZero => -4011i16,
            FApiCode::MaxNumOfOrdersLessThanZero => -4012i16,
            FApiCode::PriceLessThanMinPrice => -4013i16,
            FApiCode::PriceNotIncreasedByTickSize => -4014i16,
            FApiCode::InvalidClientOrderIdLength => -4015i16,
            FApiCode::PriceHigherThanMultiplierUp => -4016i16,
            FApiCode::MultiplierUpLessThanZero => -4017i16,
            FApiCode::MultiplierDownLessThanZero => -4018i16,
            FApiCode::CompositeScaleOverflow => -4019i16,
            FApiCode::TargetStrategyInvalid => -4020i16,
            FApiCode::InvalidDepthLimit => -4021i16,
            FApiCode::WrongMarketStatus => -4022i16,
            FApiCode::QuantityNotIncreasedByStepSize => -4023i16,
            FApiCode::PriceLowerThanMultiplierDown => -4024i16,
            FApiCode::MultiplierDecimalLessThanZero => -4025i16,
            FApiCode::CommissionInvalid => -4026i16,
            FApiCode::InvalidAccountType => -4027i16,
            FApiCode::InvalidLeverage => -4028i16,
            FApiCode::InvalidTickSizePrecision => -4029i16,
            FApiCode::InvalidStepSizePrecision => -4030i16,
            FApiCode::InvalidWorkingType => -4031i16,
            FApiCode::ExceedMaxCancelOrderSize => -4032i16,
            FApiCode::InsuranceAccountNotFound => -4033i16,
            FApiCode::InvalidBalanceType => -4044i16,
            FApiCode::MaxStopOrderExceeded => -4045i16,
            FApiCode::NoNeedToChangeMarginType => -4046i16,
            FApiCode::ThereExistsOpenOrders => -4047i16,
            FApiCode::ThereExistsQuantity => -4048i16,
            FApiCode::AddIsolatedMarginReject => -4049i16,
            FApiCode::CrossBalanceInsufficient => -4050i16,
            FApiCode::IsolatedBalanceInsufficient => -4051i16,
            FApiCode::NoNeedToChangeAutoAddMargin => -4052i16,
            FApiCode::AutoAddCrossedMarginReject => -4053i16,
            FApiCode::AddIsolatedMarginNoPositionReject => -4054i16,
            FApiCode::AmountMustBePositive => -4055i16,
            FApiCode::InvalidApiKeyType => -4056i16,
            FApiCode::InvalidRsaPublicKey => -4057i16,
            FApiCode::MaxPriceTooLarge => -4058i16,
            FApiCode::NoNeedToChangePositionSide => -4059i16,
            FApiCode::InvalidPositionSide => -4060i16,
            FApiCode::PositionSideNotMatch => -4061i16,
            FApiCode::ReduceOnlyConflict => -4062i16,
            FApiCode::InvalidOptionsRequestType => -4063i16,
            FApiCode::InvalidOptionsTimeFrame => -4064i16,
            FApiCode::InvalidOptionsAmount => -4065i16,
            FApiCode::InvalidOptionsEventType => -4066i16,
            FApiCode::PositionSideChangeExistsOpenOrders => -4067i16,
            FApiCode::PositionSideChangeExistsQuantity => -4068i16,
            FApiCode::InvalidOptionsPremiumFee => -4069i16,
            FApiCode::InvalidClientOptionsIdLength => -4070i16,
            FApiCode::InvalidOptionsDirection => -4071i16,
            FApiCode::OptionsPremiumNotUpdate => -4072i16,
            FApiCode::OptionsPremiumInputLessThanZero => -4073i16,
            FApiCode::OptionsAmountBiggerThanUpper => -4074i16,
            FApiCode::OptionsPremiumOutputZero => -4075i16,
            FApiCode::OptionsPremiumTooDifferent => -4076i16,
            FApiCode::OptionsPremiumReachLimit => -4077i16,
            FApiCode::OptionsCommonError => -4078i16,
            FApiCode::InvalidOptionsId => -4079i16,
            FApiCode::OptionsUserNotFound => -4080i16,
            FApiCode::OptionsNotFound => -4081i16,
            FApiCode::InvalidBatchPlaceOrderSize => -4082i16,
            FApiCode::PlaceBatchOrdersFail => -4083i16,
            FApiCode::UpcomingMethod => -4084i16,
            FApiCode::InvalidNotionalLimitCoefficient => -4085i16,
            FApiCode::InvalidPriceSpreadThreshold => -4086i16,
        }
    }

    /// The code with a given numeric value, if the table has one.
    pub open spec fn spec_from_i16(v: i16) -> Option<FApiCode> {
        match v {
            -1000 => Some(FApiCode::Unknown),
            -4000 => Some(FApiCode::InvalidOrderStatus),
            -4001 => Some(FApiCode::PriceLessThanZero),
            -4002 => Some(FApiCode::PriceGreaterThanMaxPrice),
            -4003 => Some(FApiCode::QuantityLessThanZero),
            -4004 => Some(FApiCode::QuantityLessThanMinQuantity),
            -4005 => Some(FApiCode::QuantityLessThanMaxQuantity),
            -4006 => Some(FApiCode::StopPriceLessThanZero),
            -4007 => Some(FApiCode::StopPriceGreaterThanMaxPrice),
            -4008 => Some(FApiCode::TickSizeLessThanZero),
            -4009 => Some(FApiCode::MaxPriceLessThanMinPrice),
            -4010 => Some(FApiCode::MaxQuantityLessThanMinQuantity),
            -4011 => Some(FApiCode::StepSizeLessThanZero),
            -4012 => Some(FApiCode::MaxNumOfOrdersLessThanZero),
            -4013 => Some(FApiCode::PriceLessThanMinPrice),
            -4014 => Some(FApiCode::PriceNotIncreasedByTickSize),
            -4015 => Some(FApiCode::InvalidClientOrderIdLength),
            -4016 => Some(FApiCode::PriceHigherThanMultiplierUp),
            -4017 => Some(FApiCode::MultiplierUpLessThanZero),
            -4018 => Some(FApiCode::MultiplierDownLessThanZero),
            -4019 => Some(FApiCode::CompositeScaleOverflow),
            -4020 => Some(FApiCode::TargetStrategyInvalid),
            -4021 => Some(FApiCode::InvalidDepthLimit),
            -4022 => Some(FApiCode::WrongMarketStatus),
            -4023 => Some(FApiCode::QuantityNotIncreasedByStepSize),
            -4024 => Some(FApiCode::PriceLowerThanMultiplierDown),
            -4025 => Some(FApiCode::MultiplierDecimalLessThanZero),
            -4026 => Some(FApiCode::CommissionInvalid),
            -4027 => Some(FApiCode::InvalidAccountType),
            -4028 => Some(FApiCode::InvalidLeverage),
            -4029 => Some(FApiCode::InvalidTickSizePrecision),
            -4030 => Some(FApiCode::InvalidStepSizePrecision),
            -4031 => Some(FApiCode::InvalidWorkingType),
            -4032 => Some(FApiCode::ExceedMaxCancelOrderSize),
            -4033 => Some(FApiCode::InsuranceAccountNotFound),
            -4044 => Some(FApiCode::InvalidBalanceType),
            -4045 => Some(FApiCode::MaxStopOrderExceeded),
            -4046 => Some(FApiCode::NoNeedToChangeMarginType),
            -4047 => Some(FApiCode::ThereExistsOpenOrders),
            -4048 => Some(FApiCode::ThereExistsQuantity),
            -4049 => Some(FApiCode::AddIsolatedMarginReject),
            -4050 => Some(FApiCode::CrossBalanceInsufficient),
            -4051 => Some(FApiCode::IsolatedBalanceInsufficient),
            -4052 => Some(FApiCode::NoNeedToChangeAutoAddMargin),
            -4053 => Some(FApiCode::AutoAddCrossedMarginReject),
            -4054 => Some(FApiCode::AddIsolatedMarginNoPositionReject),
            -4055 => Some(FApiCode::AmountMustBePositive),
            -4056 => Some(FApiCode::InvalidApiKeyType),
            -4057 => Some(FApiCode::InvalidRsaPublicKey),
            -4058 => Some(FApiCode::MaxPriceTooLarge),
            -4059 => Some(FApiCode::NoNeedToChangePositionSide),
            -4060 => Some(FApiCode::InvalidPositionSide),
            -4061 => Some(FApiCode::PositionSideNotMatch),
            -4062 => Some(FApiCode::ReduceOnlyConflict),
            -4063 => Some(FApiCode::InvalidOptionsRequestType),
            -4064 => Some(FApiCode::InvalidOptionsTimeFrame),
            -4065 => Some(FApiCode::InvalidOptionsAmount),
            -4066 => Some(FApiCode::InvalidOptionsEventType),
            -4067 => Some(FApiCode::PositionSideChangeExistsOpenOrders),
            -4068 => Some(FApiCode::PositionSideChangeExistsQuantity),
            -4069 => Some(FApiCode::InvalidOptionsPremiumFee),
            -4070 => Some(FApiCode::InvalidClientOptionsIdLength),
            -4071 => Some(FApiCode::InvalidOptionsDirection),
            -4072 => Some(FApiCode::OptionsPremiumNotUpdate),
            -4073 => Some(FApiCode::OptionsPremiumInputLessThanZero),
            -4074 => Some(FApiCode::OptionsAmountBiggerThanUpper),
            -4075 => Some(FApiCode::OptionsPremiumOutputZero),
            -4076 => Some(FApiCode::OptionsPremiumTooDifferent),
            -4077 => Some(FApiCode::OptionsPremiumReachLimit),
            -4078 => Some(FApiCode::OptionsCommonError),
            -4079 => Some(FApiCode::InvalidOptionsId),
            -4080 => Some(FApiCode::OptionsUserNotFound),
            -4081 => Some(FApiCode::OptionsNotFound),
            -4082 => Some(FApiCode::InvalidBatchPlaceOrderSize),
            -4083 => Some(FApiCode::PlaceBatchOrdersFail),
            -4084 => Some(FApiCode::UpcomingMethod),
            -4085 => Some(FApiCode::InvalidNotionalLimitCoefficient),
            -4086 => Some(FApiCode::InvalidPriceSpreadThreshold),
            _ => None,
        }
    }

    pub fn value(&self) -> (r: i16)
        ensures
            r == self.spec_value(),
    {
        match self {
            FApiCode::Unknown => -1000,
            FApiCode::InvalidOrderStatus => -4000,
            FApiCode::PriceLessThanZero => -4001,
            FApiCode::PriceGreaterThanMaxPrice => -4002,
            FApiCode::QuantityLessThanZero => -4003,
            FApiCode::QuantityLessThanMinQuantity => -4004,
            FApiCode::QuantityLessThanMaxQuantity => -4005,
            FApiCode::StopPriceLessThanZero => -4006,
            FApiCode::StopPriceGreaterThanMaxPrice => -4007,
            FApiCode::TickSizeLessThanZero => -4008,
            FApiCode::MaxPriceLessThanMinPrice => -4009,
            FApiCode::MaxQuantityLessThanMinQuantity => -4010,
            FApiCode::StepSizeLessThanZero => -4011,
            FApiCode::MaxNumOfOrdersLessThanZero => -4012,
            FApiCode::PriceLessThanMinPrice => -4013,
            FApiCode::PriceNotIncreasedByTickSize => -4014,
            FApiCode::InvalidClientOrderIdLength => -4015,
            FApiCode::PriceHigherThanMultiplierUp => -4016,
            FApiCode::MultiplierUpLessThanZero => -4017,
            FApiCode::MultiplierDownLessThanZero => -4018,
            FApiCode::CompositeScaleOverflow => -4019,
            FApiCode::TargetStrategyInvalid => -4020,
            FApiCode::InvalidDepthLimit => -4021,
            FApiCode::WrongMarketStatus => -4022,
            FApiCode::QuantityNotIncreasedByStepSize => -4023,
            FApiCode::PriceLowerThanMultiplierDown => -4024,
            FApiCode::MultiplierDecimalLessThanZero => -4025,
            FApiCode::CommissionInvalid => -4026,
            FApiCode::InvalidAccountType => -4027,
            FApiCode::InvalidLeverage => -4028,
            FApiCode::InvalidTickSizePrecision => -4029,
            FApiCode::InvalidStepSizePrecision => -4030,
            FApiCode::InvalidWorkingType => -4031,
            FApiCode::ExceedMaxCancelOrderSize => -4032,
            FApiCode::InsuranceAccountNotFound => -4033,
            FApiCode::InvalidBalanceType => -4044,
            FApiCode::MaxStopOrderExceeded => -4045,
            FApiCode::NoNeedToChangeMarginType => -4046,
            FApiCode::ThereExistsOpenOrders => -4047,
            FApiCode::ThereExistsQuantity => -4048,
            FApiCode::AddIsolatedMarginReject => -4049,
            FApiCode::CrossBalanceInsufficient => -4050,
            FApiCode::IsolatedBalanceInsufficient => -4051,
            FApiCode::NoNeedToChangeAutoAddMargin => -4052,
            FApiCode::AutoAddCrossedMarginReject => -4053,
            FApiCode::AddIsolatedMarginNoPositionReject => -4054,
            FApiCode::AmountMustBePositive => -4055,
            FApiCode::InvalidApiKeyType => -4056,
            FApiCode::InvalidRsaPublicKey => -4057,
            FApiCode::MaxPriceTooLarge => -4058,
            FApiCode::NoNeedToChangePositionSide => -4059,
            FApiCode::InvalidPositionSide => -4060,
            FApiCode::PositionSideNotMatch => -4061,
            FApiCode::ReduceOnlyConflict => -4062,
            FApiCode::InvalidOptionsRequestType => -4063,
            FApiCode::InvalidOptionsTimeFrame => -4064,
            FApiCode::InvalidOptionsAmount => -4065,
            FApiCode::InvalidOptionsEventType => -4066,
            FApiCode::PositionSideChangeExistsOpenOrders => -4067,
            FApiCode::PositionSideChangeExistsQuantity => -4068,
            FApiCode::InvalidOptionsPremiumFee => -4069,
            FApiCode::InvalidClientOptionsIdLength => -4070,
            FApiCode::InvalidOptionsDirection => -4071,
            FApiCode::OptionsPremiumNotUpdate => -4072,
            FApiCode::OptionsPremiumInputLessThanZero => -4073,
            FApiCode::OptionsAmountBiggerThanUpper => -4074,
            FApiCode::OptionsPremiumOutputZero => -4075,
            FApiCode::OptionsPremiumTooDifferent => -4076,
            FApiCode::OptionsPremiumReachLimit => -4077,
            FApiCode::OptionsCommonError => -4078,
            FApiCode::InvalidOptionsId => -4079,
            FApiCode::OptionsUserNotFound => -4080,
            FApiCode::OptionsNotFound => -4081,
            FApiCode::InvalidBatchPlaceOrderSize => -4082,
            FApiCode::PlaceBatchOrdersFail => -4083,
            FApiCode::UpcomingMethod => -4084,
            FApiCode::InvalidNotionalLimitCoefficient => -4085,
            FApiCode::InvalidPriceSpreadThreshold => -4086,
        }
    }

    pub fn from_i16(v: i16) -> (r: Option<FApiCode>)
        ensures
            r == Self::spec_from_i16(v),
    {
        match v {
            -1000 => Some(FApiCode::Unknown),
            -4000 => Some(FApiCode::InvalidOrderStatus),
            -4001 => Some(FApiCode::PriceLessThanZero),
            -4002 => Some(FApiCode::PriceGreaterThanMaxPrice),
            -4003 => Some(FApiCode::QuantityLessThanZero),
            -4004 => Some(FApiCode::QuantityLessThanMinQuantity),
            -4005 => Some(FApiCode::QuantityLessThanMaxQuantity),
            -4006 => Some(FApiCode::StopPriceLessThanZero),
            -4007 => Some(FApiCode::StopPriceGreaterThanMaxPrice),
            -4008 => Some(FApiCode::TickSizeLessThanZero),
            -4009 => Some(FApiCode::MaxPriceLessThanMinPrice),
            -4010 => Some(FApiCode::MaxQuantityLessThanMinQuantity),
            -4011 => Some(FApiCode::StepSizeLessThanZero),
            -4012 => Some(FApiCode::MaxNumOfOrdersLessThanZero),
            -4013 => Some(FApiCode::PriceLessThanMinPrice),
            -4014 => Some(FApiCode::PriceNotIncreasedByTickSize),
            -4015 => Some(FApiCode::InvalidClientOrderIdLength),
            -4016 => Some(FApiCode::PriceHigherThanMultiplierUp),
            -4017 => Some(FApiCode::MultiplierUpLessThanZero),
            -4018 => Some(FApiCode::MultiplierDownLessThanZero),
            -4019 => Some(FApiCode::CompositeScaleOverflow),
            -4020 => Some(FApiCode::TargetStrategyInvalid),
            -4021 => Some(FApiCode::InvalidDepthLimit),
            -4022 => Some(FApiCode::WrongMarketStatus),
            -4023 => Some(FApiCode::QuantityNotIncreasedByStepSize),
            -4024 => Some(FApiCode::PriceLowerThanMultiplierDown),
            -4025 => Some(FApiCode::MultiplierDecimalLessThanZero),
            -4026 => Some(FApiCode::CommissionInvalid),
            -4027 => Some(FApiCode::InvalidAccountType),
            -4028 => Some(FApiCode::InvalidLeverage),
            -4029 => Some(FApiCode::InvalidTickSizePrecision),
            -4030 => Some(FApiCode::InvalidStepSizePrecision),
            -4031 => Some(FApiCode::InvalidWorkingType),
            -4032 => Some(FApiCode::ExceedMaxCancelOrderSize),
            -4033 => Some(FApiCode::InsuranceAccountNotFound),
            -4044 => Some(FApiCode::InvalidBalanceType),
            -4045 => Some(FApiCode::MaxStopOrderExceeded),
            -4046 => Some(FApiCode::NoNeedToChangeMarginType),
            -4047 => Some(FApiCode::ThereExistsOpenOrders),
            -4048 => Some(FApiCode::ThereExistsQuantity),
            -4049 => Some(FApiCode::AddIsolatedMarginReject),
            -4050 => Some(FApiCode::CrossBalanceInsufficient),
            -4051 => Some(FApiCode::IsolatedBalanceInsufficient),
            -4052 => Some(FApiCode::NoNeedToChangeAutoAddMargin),
            -4053 => Some(FApiCode::AutoAddCrossedMarginReject),
            -4054 => Some(FApiCode::AddIsolatedMarginNoPositionReject),
            -4055 => Some(FApiCode::AmountMustBePositive),
            -4056 => Some(FApiCode::InvalidApiKeyType),
            -4057 => Some(FApiCode::InvalidRsaPublicKey),
            -4058 => Some(FApiCode::MaxPriceTooLarge),
            -4059 => Some(FApiCode::NoNeedToChangePositionSide),
            -4060 => Some(FApiCode::InvalidPositionSide),
            -4061 => Some(FApiCode::PositionSideNotMatch),
            -4062 => Some(FApiCode::ReduceOnlyConflict),
            -4063 => Some(FApiCode::InvalidOptionsRequestType),
            -4064 => Some(FApiCode::InvalidOptionsTimeFrame),
            -4065 => Some(FApiCode::InvalidOptionsAmount),
            -4066 => Some(FApiCode::InvalidOptionsEventType),
            -4067 => Some(FApiCode::PositionSideChangeExistsOpenOrders),
            -4068 => Some(FApiCode::PositionSideChangeExistsQuantity),
            -4069 => Some(FApiCode::InvalidOptionsPremiumFee),
            -4070 => Some(FApiCode::InvalidClientOptionsIdLength),
            -4071 => Some(FApiCode::InvalidOptionsDirection),
            -4072 => Some(FApiCode::OptionsPremiumNotUpdate),
            -4073 => Some(FApiCode::OptionsPremiumInputLessThanZero),
            -4074 => Some(FApiCode::OptionsAmountBiggerThanUpper),
            -4075 => Some(FApiCode::OptionsPremiumOutputZero),
            -4076 => Some(FApiCode::OptionsPremiumTooDifferent),
            -4077 => Some(FApiCode::OptionsPremiumReachLimit),
            -4078 => Some(FApiCode::OptionsCommonError),
            -4079 => Some(FApiCode::InvalidOptionsId),
            -4080 => Some(FApiCode::OptionsUserNotFound),
            -4081 => Some(FApiCode::OptionsNotFound),
            -4082 => Some(FApiCode::InvalidBatchPlaceOrderSize),
            -4083 => Some(FApiCode::PlaceBatchOrdersFail),
            -4084 => Some(FApiCode::UpcomingMethod),
            -4085 => Some(FApiCode::InvalidNotionalLimitCoefficient),
            -4086 => Some(FApiCode::InvalidPriceSpreadThreshold),
            _ => None,
        }
    }
}

/// Error codes specific to the spot endpoints.
#[derive(Clone, Copy, Debug, PartialEq, Eq, Structural)]
pub enum SApiCode {
    Unknown,
    PairAdminBanTrade,
    AccountBanTrade,
    WarningMarginLevel,
    FewLiabilityLeft,
    InvalidEffectiveTime,
    ValidationFailed,
    NotValidMarginAsset,
    NotValidMarginPair,
    TransferFailed,
    AccountBanRepay,
    ProfitAndLossClearing,
    ListenKeyNotFound,
    PriceIndexNotFound,
    NotWhitelistUser,
    CapitalInvalid,
    CapitalInvalidGet,
    CapitalInvalidEmail,
    CapitalUnauthenticated,
    CapitalTooManyRequests,
    CapitalOnlySupportPrimaryAccount,
    CapitalAddressVerificationNotPass,
    CapitalAddressTagVerificationNotPass,
    AssetNotSupported,
    // 6xxx Savings issues
    DailyProductNotExists,
    DailyProductNotAccessible,
    DailyProductNotPurchasable,
    DailyLowerThanMinPurchaseLimit,
    DailyRedeemAmountError,
    DailyRedeemTimeError,
    DailyProductNotRedeemable,
    RequestFrequencyTooHigh,
    ExceededUserPurchaseLimit,
    BalanceNotEnough,
    PurchasingFailed,
    UpdateFailed,
    EmptyRequestBody,
    ParametersError,
    NotInWhitelist,
    AssetNotEnough,
    Pending,
}

impl SApiCode {
    /// The numeric value of each code.
    pub open spec fn spec_value(self) -> i16 {
        match self {
            SApiCode::Unknown => -1000i16,
            SApiCode::PairAdminBanTrade => -3021i16,
            SApiCode::AccountBanTrade => -3022i16,
            SApiCode::WarningMarginLevel => -3023i16,
            SApiCode::FewLiabilityLeft => -3024i16,
            SApiCode::InvalidEffectiveTime => -3025i16,
            SApiCode::ValidationFailed => -3026i16,
            SApiCode::NotValidMarginAsset => -3027i16,
            SApiCode::NotValidMarginPair => -3028i16,
            SApiCode::TransferFailed => -3029i16,
            SApiCode::AccountBanRepay => -3036i16,
            SApiCode::ProfitAndLossClearing => -3037i16,
            SApiCode::ListenKeyNotFound => -3038i16,
            SApiCode::PriceIndexNotFound => -3042i16,
            SApiCode::NotWhitelistUser => -3999i16,
            SApiCode::CapitalInvalid => -4001i16,
            SApiCode::CapitalInvalidGet => -4002i16,
            SApiCode::CapitalInvalidEmail => -4003i16,
            SApiCode::CapitalUnauthenticated => -4004i16,
            SApiCode::CapitalTooManyRequests => -4005i16,
            SApiCode::CapitalOnlySupportPrimaryAccount => -4006i16,
            SApiCode::CapitalAddressVerificationNotPass => -4007i16,
            SApiCode::CapitalAddressTagVerificationNotPass => -4008i16,
            SApiCode::AssetNotSupported => -5011i16,
            SApiCode::DailyProductNotExists => -6001i16,
            SApiCode::DailyProductNotAccessible => -6003i16,
            SApiCode::DailyProductNotPurchasable => -6004i16,
            SApiCode::DailyLowerThanMinPurchaseLimit => -6005i16,
            SApiCode::DailyRedeemAmountError => -6006i16,
            SApiCode::DailyRedeemTimeError => -6007i16,
            SApiCode::DailyProductNotRedeemable => -6008i16,
            SApiCode::RequestFrequencyTooHigh => -6009i16,
            SApiCode::ExceededUserPurchaseLimit => -6011i16,
            SApiCode::BalanceNotEnough => -6012i16,
            SApiCode::PurchasingFailed => -6013i16,
            SApiCode::UpdateFailed => -6014i16,
            SApiCode::EmptyRequestBody => -6015i16,
            SApiCode::ParametersError => -6016i16,
            SApiCode::NotInWhitelist => -6017i16,
            SApiCode::AssetNotEnough => -6018i16,
            SApiCode::Pending => -6019i16,
        }
    }

    /// The code with a given numeric value, if the table has one.
    pub open spec fn spec_from_i16(v: i16) -> Option<SApiCode> {
        match v {
            -1000 => Some(SApiCode::Unknown),
            -3021 => Some(SApiCode::PairAdminBanTrade),
            -3022 => Some(SApiCode::AccountBanTrade),
            -3023 => Some(SApiCode::WarningMarginLevel),
            -3024 => Some(SApiCode::FewLiabilityLeft),
            -3025 => Some(SApiCode::InvalidEffectiveTime),
            -3026 => Some(SApiCode::ValidationFailed),
            -3027 => Some(SApiCode::NotValidMarginAsset),
            -3028 => Some(SApiCode::NotValidMarginPair),
            -3029 => Some(SApiCode::TransferFailed),
            -3036 => Some(SApiCode::AccountBanRepay),
            -3037 => Some(SApiCode::ProfitAndLossClearing),
            -3038 => Some(SApiCode::ListenKeyNotFound),
            -3042 => Some(SApiCode::PriceIndexNotFound),
            -3999 => Some(SApiCode::NotWhitelistUser),
            -4001 => Some(SApiCode::CapitalInvalid),
            -4002 => Some(SApiCode::CapitalInvalidGet),
            -4003 => Some(SApiCode::CapitalInvalidEmail),
            -4004 => Some(SApiCode::CapitalUnauthenticated),
            -4005 => Some(SApiCode::CapitalTooManyRequests),
            -4006 => Some(SApiCode::CapitalOnlySupportPrimaryAccount),
            -4007 => Some(SApiCode::CapitalAddressVerificationNotPass),
            -4008 => Some(SApiCode::CapitalAddressTagVerificationNotPass),
            -5011 => Some(SApiCode::AssetNotSupported),
            -6001 => Some(SApiCode::DailyProductNotExists),
            -6003 => Some(SApiCode::DailyProductNotAccessible),
            -6004 => Some(SApiCode::DailyProductNotPurchasable),
            -6005 => Some(SApiCode::DailyLowerThanMinPurchaseLimit),
            -6006 => Some(SApiCode::DailyRedeemAmountError),
            -6007 => Some(SApiCode::DailyRedeemTimeError),
            -6008 => Some(SApiCode::DailyProductNotRedeemable),
            -6009 => Some(SApiCode::RequestFrequencyTooHigh),
            -6011 => Some(SApiCode::ExceededUserPurchaseLimit),
            -6012 => Some(SApiCode::BalanceNotEnough),
            -6013 => Some(SApiCode::PurchasingFailed),
            -6014 => Some(SApiCode::UpdateFailed),
            -6015 => Some(SApiCode::EmptyRequestBody),
            -6016 => Some(SApiCode::ParametersError),
            -6017 => Some(SApiCode::NotInWhitelist),
            -6018 => Some(SApiCode::AssetNotEnough),
            -6019 => Some(SApiCode::Pending),
            _ => None,
        }
    }

    pub fn value(&self) -> (r: i16)
        ensures
            r == self.spec_value(),
    {
        match self {
            SApiCode::Unknown => -1000,
            SApiCode::PairAdminBanTrade => -3021,
            SApiCode::AccountBanTrade => -3022,
            SApiCode::WarningMarginLevel => -3023,
            SApiCode::FewLiabilityLeft => -3024,
            SApiCode::InvalidEffectiveTime => -3025,
            SApiCode::ValidationFailed => -3026,
            SApiCode::NotValidMarginAsset => -3027,
            SApiCode::NotValidMarginPair => -3028,
            SApiCode::TransferFailed => -3029,
            SApiCode::AccountBanRepay => -3036,
            SApiCode::ProfitAndLossClearing => -3037,
            SApiCode::ListenKeyNotFound => -3038,
            SApiCode::PriceIndexNotFound => -3042,
            SApiCode::NotWhitelistUser => -3999,
            SApiCode::CapitalInvalid => -4001,
            SApiCode::CapitalInvalidGet => -4002,
            SApiCode::CapitalInvalidEmail => -4003,
            SApiCode::CapitalUnauthenticated => -4004,
            SApiCode::CapitalTooManyRequests => -4005,
            SApiCode::CapitalOnlySupportPrimaryAccount => -4006,
            SApiCode::CapitalAddressVerificationNotPass => -4007,
            SApiCode::CapitalAddressTagVerificationNotPass => -4008,
            SApiCode::AssetNotSupported => -5011,
            SApiCode::DailyProductNotExists => -6001,
            SApiCode::DailyProductNotAccessible => -6003,
            SApiCode::DailyProductNotPurchasable => -6004,
            SApiCode::DailyLowerThanMinPurchaseLimit => -6005,
            SApiCode::DailyRedeemAmountError => -6006,
            SApiCode::DailyRedeemTimeError => -6007,
            SApiCode::DailyProductNotRedeemable => -6008,
            SApiCode::RequestFrequencyTooHigh => -6009,
            SApiCode::ExceededUserPurchaseLimit => -6011,
            SApiCode::BalanceNotEnough => -6012,
            SApiCode::PurchasingFailed => -6013,
            SApiCode::UpdateFailed => -6014,
            SApiCode::EmptyRequestBody => -6015,
            SApiCode::ParametersError => -6016,
            SApiCode::NotInWhitelist => -6017,
            SApiCode::AssetNotEnough => -6018,
            SApiCode::Pending => -6019,
        }
    }

    pub fn from_i16(v: i16) -> (r: Option<SApiCode>)
        ensures
            r == Self::spec_from_i16(v),
    {
        match v {
            -1000 => Some(SApiCode::Unknown),
            -3021 => Some(SApiCode::PairAdminBanTrade),
            -3022 => Some(SApiCode::AccountBanTrade),
            -3023 => Some(SApiCode::WarningMarginLevel),
            -3024 => Some(SApiCode::FewLiabilityLeft),
            -3025 => Some(SApiCode::InvalidEffectiveTime),
            -3026 => Some(SApiCode::ValidationFailed),
            -3027 => Some(SApiCode::NotValidMarginAsset),
            -3028 => Some(SApiCode::NotValidMarginPair),
            -3029 => Some(SApiCode::TransferFailed),
            -3036 => Some(SApiCode::AccountBanRepay),
            -3037 => Some(SApiCode::ProfitAndLossClearing),
            -3038 => Some(SApiCode::ListenKeyNotFound),
            -3042 => Some(SApiCode::PriceIndexNotFound),
            -3999 => Some(SApiCode::NotWhitelistUser),
            -4001 => Some(SApiCode::CapitalInvalid),
            -4002 => Some(SApiCode::CapitalInvalidGet),
            -4003 => Some(SApiCode::CapitalInvalidEmail),
            -4004 => Some(SApiCode::CapitalUnauthenticated),
            -4005 => Some(SApiCode::CapitalTooManyRequests),
            -4006 => Some(SApiCode::CapitalOnlySupportPrimaryAccount),
            -4007 => Some(SApiCode::CapitalAddressVerificationNotPass),
            -4008 => Some(SApiCode::CapitalAddressTagVerificationNotPass),
            -5011 => Some(SApiCode::AssetNotSupported),
            -6001 => Some(SApiCode::DailyProductNotExists),
            -6003 => Some(SApiCode::DailyProductNotAccessible),
            -6004 => Some(SApiCode::DailyProductNotPurchasable),
            -6005 => Some(SApiCode::DailyLowerThanMinPurchaseLimit),
            -6006 => Some(SApiCode::DailyRedeemAmountError),
            -6007 => Some(SApiCode::DailyRedeemTimeError),
            -6008 => Some(SApiCode::DailyProductNotRedeemable),
            -6009 => Some(SApiCode::RequestFrequencyTooHigh),
            -6011 => Some(SApiCode::ExceededUserPurchaseLimit),
            -6012 => Some(SApiCode::BalanceNotEnough),
            -6013 => Some(SApiCode::PurchasingFailed),
            -6014 => Some(SApiCode::UpdateFailed),
            -6015 => Some(SApiCode::EmptyRequestBody),
            -6016 => Some(SApiCode::ParametersError),
            -6017 => Some(SApiCode::NotInWhitelist),
            -6018 => Some(SApiCode::AssetNotEnough),
            -6019 => Some(SApiCode::Pending),
            _ => None,
        }
    }
}

/// Error codes returned by the streaming endpoint for a command.
#[derive(Clone, Copy, Debug, PartialEq, Eq, Structural)]
pub enum WSApiCode {
    UnknownProperty,
    InvalidValueType,
    InvalidRequest,
    InvalidJson,
}

impl WSApiCode {
    /// The numeric value of each code.
    pub open spec fn spec_value(self) -> i16 {
        match self {
            WSApiCode::UnknownProperty => 0i16,
            WSApiCode::InvalidValueType => 1i16,
            WSApiCode::InvalidRequest => 2i16,
            WSApiCode::InvalidJson => 3i16,
        }
    }

    /// The code with a given numeric value, if the table has one.
    pub open spec fn spec_from_i16(v: i16) -> Option<WSApiCode> {
        match v {
            0 => Some(WSApiCode::UnknownProperty),
            1 => Some(WSApiCode::InvalidValueType),
            2 => Some(WSApiCode::InvalidRequest),
            3 => Some(WSApiCode::InvalidJson),
            _ => None,
        }
    }

    pub fn value(&self) -> (r: i16)
        ensures
            r == self.spec_value(),
    {
        match self {
            WSApiCode::UnknownProperty => 0,
            WSApiCode::InvalidValueType => 1,
            WSApiCode::InvalidRequest => 2,
            WSApiCode::InvalidJson => 3,
        }
    }

    pub fn from_i16(v: i16) -> (r: Option<WSApiCode>)
        ensures
            r == Self::spec_from_i16(v),
    {
        match v {
            0 => Some(WSApiCode::UnknownProperty),
            1 => Some(WSApiCode::InvalidValueType),
            2 => Some(WSApiCode::InvalidRequest),
            3 => Some(WSApiCode::InvalidJson),
            _ => None,
        }
    }
}

impl Default for CommonCode {
    fn default() -> (r: Self)
        ensures
            r == CommonCode::Unknown,
    {
        CommonCode::Unknown
    }
}

impl Default for FApiCode {
    fn default() -> (r: Self)
        ensures
            r == FApiCode::Unknown,
    {
        FApiCode::Unknown
    }
}

impl Default for SApiCode {
    fn default() -> (r: Self)
        ensures
            r == SApiCode::Unknown,
    {
        SApiCode::Unknown
    }
}

impl Default for WSApiCode {
    fn default() -> (r: Self)
        ensures
            r == WSApiCode::UnknownProperty,
    {
        WSApiCode::UnknownProperty
    }
}

/// A table of codes specific to one interface of the venue.
pub trait ApiCode: Sized + Copy {
    /// The numeric value of a code.
    spec fn spec_code_value(self) -> i16;

    /// The code of the table with a given numeric value, if any.
    spec fn spec_code_of(v: i16) -> Option<Self>;

    fn code_value(&self) -> (r: i16)
        ensures
            r == self.spec_code_value(),
    ;

    fn code_of(v: i16) -> (r: Option<Self>)
        ensures
            r == Self::spec_code_of(v),
    ;

    /// The code the table has for a value carries that value.
    proof fn lemma_code_of_keeps_value(v: i16)
        ensures
            Self::spec_code_of(v) matches Some(c) ==> c.spec_code_value() == v,
    ;
}

impl ApiCode for FApiCode {
    open spec fn spec_code_value(self) -> i16 {
        self.spec_value()
    }

    proof fn lemma_code_of_keeps_value(v: i16) {
    }

    open spec fn spec_code_of(v: i16) -> Option<Self> {
        Self::spec_from_i16(v)
    }

    fn code_value(&self) -> (r: i16) {
        self.value()
    }

    fn code_of(v: i16) -> (r: Option<Self>) {
        Self::from_i16(v)
    }
}

impl ApiCode for SApiCode {
    open spec fn spec_code_value(self) -> i16 {
        self.spec_value()
    }

    proof fn lemma_code_of_keeps_value(v: i16) {
    }

    open spec fn spec_code_of(v: i16) -> Option<Self> {
        Self::spec_from_i16(v)
    }

    fn code_value(&self) -> (r: i16) {
        self.value()
    }

    fn code_of(v: i16) -> (r: Option<Self>) {
        Self::from_i16(v)
    }
}

impl ApiCode for WSApiCode {
    open spec fn spec_code_value(self) -> i16 {
        self.spec_value()
    }

    proof fn lemma_code_of_keeps_value(v: i16) {
    }

    open spec fn spec_code_of(v: i16) -> Option<Self> {
        Self::spec_from_i16(v)
    }

    fn code_value(&self) -> (r: i16) {
        self.value()
    }

    fn code_of(v: i16) -> (r: Option<Self>) {
        Self::from_i16(v)
    }
}

/// The code the shared table has for a value carries that value.
pub proof fn lemma_common_code_keeps_value(v: i16)
    ensures
        CommonCode::spec_from_i16(v) matches Some(c) ==> c.spec_value() == v,
{
}

/// An error code of the venue, classified into its band.
#[derive(Clone, Copy, Debug)]
pub enum Code<C: ApiCode> {
    Common(CommonCode),
    Api(C),
    Filter(i16),
}

/// Why a number is not an error code.
#[derive(Clone, Copy, Debug, PartialEq, Eq, Structural)]
pub enum CodeError {
    /// The number does not fit in a signed 16-bit integer.
    OutOfRange,
    /// The number falls in the band of a table that has no code for it.
    Unmapped,
}

/// The filter band: every value at or below -9000.
pub open spec fn in_filter_band(v: int) -> bool {
    v <= -9000
}

/// The band of the interface-specific table: -8999 to -3000, and every
/// value from 0 up.
pub open spec fn in_api_band(v: int) -> bool {
    !in_filter_band(v) && (v <= -3000 || v >= 0)
}

/// The band of the shared table: -2999 to -1.
pub open spec fn in_common_band(v: int) -> bool {
    -3000 < v < 0
}

impl<C: ApiCode> Code<C> {
    /// The classification of a signed 16-bit value, bands tried in order.
    pub open spec fn spec_classify(v: i16) -> core::result::Result<Code<C>, CodeError> {
        if in_filter_band(v as int) {
            Ok(Code::Filter(v))
        } else if in_api_band(v as int) {
            match C::spec_code_of(v) {
                Some(c) => Ok(Code::Api(c)),
                None => Err(CodeError::Unmapped),
            }
        } else {
            match CommonCode::spec_from_i16(v) {
                Some(c) => Ok(Code::Common(c)),
                None => Err(CodeError::Unmapped),
            }
        }
    }

    /// The decoding of a wire integer: out of the signed 16-bit range it
    /// fails before any band is looked at.
    pub open spec fn spec_decode(v: i64) -> core::result::Result<Code<C>, CodeError> {
        if v < i16::MIN || v > i16::MAX {
            Err(CodeError::OutOfRange)
        } else {
            Self::spec_classify(v as i16)
        }
    }

    /// The numeric value of a classified code.
    pub open spec fn spec_value(self) -> i16 {
        match self {
            Code::Common(c) => c.spec_value(),
            Code::Api(c) => c.spec_code_value(),
            Code::Filter(v) => v,
        }
    }

    pub fn classify(v: i16) -> (r: core::result::Result<Code<C>, CodeError>)
        ensures
            r == Self::spec_classify(v),
    {
        if v <= -9000 {
            Ok(Code::Filter(v))
        } else if v <= -3000 || v >= 0 {
            match C::code_of(v) {
                Some(c) => Ok(Code::Api(c)),
                None => Err(CodeError::Unmapped),
            }
        } else {
            match CommonCode::from_i16(v) {
                Some(c) => Ok(Code::Common(c)),
                None => Err(CodeError::Unmapped),
            }
        }
    }

    /// Decodes an error code read from the wire as a 64-bit integer.
    pub fn decode(v: i64) -> (r: core::result::Result<Code<C>, CodeError>)
        ensures
            r == Self::spec_decode(v),
    {
        if v < i16::MIN as i64 || v > i16::MAX as i64 {
            Err(CodeError::OutOfRange)
        } else {
            Self::classify(v as i16)
        }
    }

    pub fn value(&self) -> (r: i16)
        ensures
            r == self.spec_value(),
    {
        match self {
            Code::Common(c) => c.value(),
            Code::Api(c) => c.code_value(),
            Code::Filter(v) => *v,
        }
    }
}

/// The three bands split the signed 16-bit range, each value lying in
/// exactly one; a classification that succeeds names the value's band and
/// keeps the value, and one that fails does so only for a value that its
/// band's table lacks.
pub proof fn lemma_classification_by_band<C: ApiCode>(v: i16)
    ensures
        in_filter_band(v as int) || in_api_band(v as int) || in_common_band(v as int),
        !(in_filter_band(v as int) && in_api_band(v as int)),
        !(in_filter_band(v as int) && in_common_band(v as int)),
        !(in_api_band(v as int) && in_common_band(v as int)),
        Code::<C>::spec_classify(v) matches Ok(c) ==> c.spec_value() == v,
        Code::<C>::spec_classify(v) matches Ok(Code::Filter(_)) <==> in_filter_band(v as int),
        Code::<C>::spec_classify(v) matches Ok(Code::Api(_)) <==> in_api_band(v as int)
            && C::spec_code_of(v) is Some,
        Code::<C>::spec_classify(v) matches Ok(Code::Common(_)) <==> in_common_band(v as int)
            && CommonCode::spec_from_i16(v) is Some,
        Code::<C>::spec_classify(v) is Err <==> (in_api_band(v as int) && C::spec_code_of(v) is None)
            || (in_common_band(v as int) && CommonCode::spec_from_i16(v) is None),
{
    C::lemma_code_of_keeps_value(v);
    lemma_common_code_keeps_value(v);
}

impl<C: ApiCode> TryFrom<i16> for Code<C> {
    type Error = CodeError;

    fn try_from(v: i16) -> (r: core::result::Result<Code<C>, CodeError>) {
        Self::classify(v)
    }
}

impl<C: ApiCode> vstd::std_specs::convert::TryFromSpecImpl<i16> for Code<C> {
    open spec fn obeys_try_from_spec() -> bool {
        true
    }

    open spec fn try_from_spec(v: i16) -> core::result::Result<Code<C>, CodeError> {
        Self::spec_classify(v)
    }
}

impl<C: ApiCode> Default for Code<C> {
    fn default() -> (r: Self)
        ensures
            r == Code::<C>::Common(CommonCode::Unknown),
    {
        Code::Common(CommonCode::Unknown)
    }
}

/// An error reported by the venue: a classified code and its message.
#[derive(Clone, Debug)]
pub struct BinanceError<C: ApiCode> {
    code: Code<C>,
    msg: String,
}

impl<C: ApiCode> BinanceError<C> {
    pub closed spec fn spec_code(&self) -> Code<C> {
        self.code
    }

    pub closed spec fn spec_msg(&self) -> Seq<char> {
        self.msg@
    }

    pub fn new(code: Code<C>, msg: String) -> (r: Self)
        ensures
            r.spec_code() == code,
            r.spec_msg() == msg@,
    {
        BinanceError { code, msg }
    }

    pub fn code(&self) -> (r: Code<C>)
        ensures
            r == self.spec_code(),
    {
        self.code
    }

    pub fn msg(&self) -> (r: &str)
        ensures
            r@ == self.spec_msg(),
    {
        self.msg.as_str()
    }
}

impl<C: ApiCode> Default for BinanceError<C> {
    fn default() -> (r: Self)
        ensures
            r.spec_code() == Code::<C>::Common(CommonCode::Unknown),
            r.spec_msg() == Seq::<char>::empty(),
    {
        BinanceError { code: Code::Common(CommonCode::Unknown), msg: String::new() }
    }
}

/// Every failure the client reports.
///
/// Transport and decode failures end the event sequence; the request-level
/// kinds (`WebsocketRequest`, `WebsocketRequestCancelled`,
/// `WebsocketRequestTimeout`) concern one command only; `WebsocketClosed` is
/// the immediate answer to a command issued after the session ended.
#[derive(Debug)]
pub enum ClientError<C: ApiCode> {
    ApiTimeout,
    BadRequest(BinanceError<C>),
    FirewallLimitReached,
    HttpRequest(reqwest::Error),
    IPAddressBanned,
    RequestEncoding(serde_urlencoded::ser::Error),
    RequestRateLimitReached,
    ResponseDecoding(serde_json::Error),
    Server(BinanceError<C>),
    Websocket(async_tungstenite::tungstenite::Error),
    WebsocketClosed,
    WebsocketRequest(BinanceError<C>),
    WebsocketRequestCancelled,
    WebsocketRequestTimeout,
}

impl<C: ApiCode> ClientError<C> {
    /// Failures of the connection itself, which end the event sequence.
    pub open spec fn is_transport(&self) -> bool {
        self is Websocket
    }

    /// Failures to decode a frame's envelope, which end the event sequence.
    pub open spec fn is_decode(&self) -> bool {
        self is ResponseDecoding
    }

    /// Failures scoped to a single command.
    pub open spec fn is_request_level(&self) -> bool {
        ||| self is WebsocketRequest
        ||| self is WebsocketRequestCancelled
        ||| self is WebsocketRequestTimeout
    }
}

/// A result whose failure is one of this client's errors.
pub type Result<T, C> = core::result::Result<T, ClientError<C>>;

} // verus!
