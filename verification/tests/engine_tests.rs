use yield_oracle::continuity::obtain_record_timestamp;
use yield_oracle::error::Error;
use yield_oracle::fixed_point::{checked_pow10, scaled_floor_div};
use yield_oracle::fx::{as_reply, check_feed_reply, get_fx_price, resolve_fx_price, OracleReply};
use yield_oracle::average::{previous_period, Averager};
use yield_oracle::key::{decode_record_key, encode_record_key, encode_yield_key, is_yield_key};
use yield_oracle::mock::MockFxOracle;
use yield_oracle::oracle::PriceOracle;
use yield_oracle::price::{
    calculate_expected_price, convert_to_seconds, get_price_with_yield, normalize_price,
};
use yield_oracle::store::RecordStore;
use yield_oracle::types::{Address, Asset, ConfigData, PriceData, Symbol};
use yield_oracle::yield_rate::validate_yield_rate;

const ONE: i128 = 100_000_000_000_000;

fn config(decimals: u32, resolution: u32, max_yield_deviation_percent: u32) -> ConfigData {
    ConfigData {
        admin: Address { id: "ADMIN".to_string() },
        period: 30_000_000,
        base_asset: Asset::Other(Symbol::new("USD")),
        decimals,
        resolution,
        fx_oracle_address: Address { id: "FEED".to_string() },
        max_yield_deviation_percent,
    }
}

fn quote(price: i128, timestamp: u64) -> OracleReply {
    OracleReply::Price(PriceData { price, timestamp })
}

fn answer(price: i128, timestamp: u64) -> Option<PriceData> {
    Some(PriceData { price, timestamp })
}

#[test]
fn record_key_layout() {
    assert_eq!(encode_record_key(0, 0), 0);
    assert_eq!(encode_record_key(0, 255), 255);
    assert_eq!(encode_record_key(1, 0), 1u128 << 64);
    assert_eq!(encode_record_key(600_000, 7), (600_000u128 << 64) | 7);
    assert_eq!(encode_record_key(u64::MAX, 255), (u128::from(u64::MAX) << 64) | 255);
}

#[test]
fn yield_key_sets_bit_eight() {
    assert_eq!(encode_yield_key(0, 0), 256);
    assert_eq!(encode_yield_key(600_000, 7), (600_000u128 << 64) | 256 | 7);
    assert_ne!(encode_yield_key(600_000, 7), encode_record_key(600_000, 7));
    assert_eq!(encode_yield_key(u64::MAX, 255), (u128::from(u64::MAX) << 64) | 511);
}

#[test]
fn record_keys_differ_by_timestamp_and_asset() {
    assert_ne!(encode_record_key(1, 2), encode_record_key(2, 1));
    assert_ne!(encode_record_key(1, 2), encode_record_key(1, 3));
    assert_ne!(encode_yield_key(1, 2), encode_yield_key(2, 2));
}

#[test]
fn powers_of_ten() {
    assert_eq!(checked_pow10(0), Some(1));
    assert_eq!(checked_pow10(1), Some(10));
    assert_eq!(checked_pow10(14), Some(ONE));
    assert_eq!(checked_pow10(38), Some(10i128.pow(38)));
    assert_eq!(checked_pow10(39), None);
    assert_eq!(checked_pow10(u32::MAX), None);
}

#[test]
fn scaled_floor_div_values() {
    assert_eq!(
        scaled_floor_div(154467226919499, 133928752749774, 14),
        Some(115335373284703)
    );
    assert_eq!(scaled_floor_div(231731687303715884105728, i128::MAX / 100, 14), Some(13));
    assert_eq!(scaled_floor_div(1, 3, 2), Some(33));
    assert_eq!(scaled_floor_div(2, 3, 2), Some(66));
    assert_eq!(scaled_floor_div(7, 7, 0), Some(1));
    assert_eq!(scaled_floor_div(0, 1, 14), Some(0));
}

#[test]
fn scaled_floor_div_refuses_bad_operands() {
    assert_eq!(scaled_floor_div(1, 0, 14), None);
    assert_eq!(scaled_floor_div(0, 0, 14), None);
    assert_eq!(scaled_floor_div(-1, 0, 14), None);
    assert_eq!(scaled_floor_div(0, -1, 14), None);
    assert_eq!(scaled_floor_div(-1, -1, 14), None);
    assert_eq!(scaled_floor_div(-1, 1, 14), None);
    assert_eq!(scaled_floor_div(1, -1, 14), None);
}

#[test]
fn scaled_floor_div_refuses_overflow() {
    assert_eq!(scaled_floor_div(i128::MAX / 100, 231731687303715884105728, 14), None);
    assert_eq!(scaled_floor_div(1, 1, 39), None);
    assert_eq!(scaled_floor_div(0, 1, 39), None);
    assert_eq!(scaled_floor_div(i128::MAX, 1, 0), Some(i128::MAX));
    assert_eq!(scaled_floor_div(i128::MAX, 1, 1), None);
}

#[test]
fn yield_rate_floor() {
    assert_eq!(validate_yield_rate(ONE, None, 14, 10), Ok(()));
    assert_eq!(validate_yield_rate(ONE - 1, None, 14, 10), Err(Error::InvalidYieldRate));
    assert_eq!(validate_yield_rate(0, None, 14, 10), Err(Error::InvalidYieldRate));
    assert_eq!(validate_yield_rate(-ONE, Some(ONE), 14, 10), Err(Error::InvalidYieldRate));
    assert_eq!(validate_yield_rate(1, None, 0, 10), Ok(()));
    assert_eq!(validate_yield_rate(i128::MAX, None, 39, 10), Err(Error::IntegerOverflow));
}

#[test]
fn first_yield_rate_ignores_deviation() {
    assert_eq!(validate_yield_rate(150 * ONE, None, 14, 0), Ok(()));
    assert_eq!(validate_yield_rate(i128::MAX, None, 14, 0), Ok(()));
    assert_eq!(validate_yield_rate(i128::MAX, None, 14, u32::MAX), Ok(()));
}

#[test]
fn yield_rate_rise_bound() {
    let prev = 105_000_000_000_000i128;
    assert_eq!(validate_yield_rate(110_000_000_000_000, Some(prev), 14, 10), Ok(()));
    assert_eq!(
        validate_yield_rate(117_000_000_000_000, Some(prev), 14, 10),
        Err(Error::YieldRateDeviationExceeded)
    );
    // a rise of 10.99 percent counts as 10, one of 11 as 11
    assert_eq!(validate_yield_rate(110_999_999_999_999, Some(ONE), 14, 10), Ok(()));
    assert_eq!(
        validate_yield_rate(111_000_000_000_000, Some(ONE), 14, 10),
        Err(Error::YieldRateDeviationExceeded)
    );
    assert_eq!(validate_yield_rate(ONE, Some(ONE), 14, 0), Ok(()));
    assert_eq!(validate_yield_rate(ONE + ONE / 100 - 1, Some(ONE), 14, 0), Ok(()));
    assert_eq!(
        validate_yield_rate(ONE + ONE / 100, Some(ONE), 14, 0),
        Err(Error::YieldRateDeviationExceeded)
    );
}

#[test]
fn yield_rate_drop_bound() {
    let prev = 110_000_000_000_000i128;
    assert_eq!(validate_yield_rate(108_900_000_000_000, Some(prev), 14, 10), Ok(()));
    assert_eq!(validate_yield_rate(109_500_000_000_000, Some(prev), 14, 10), Ok(()));
    assert_eq!(
        validate_yield_rate(107_800_000_000_000, Some(prev), 14, 10),
        Err(Error::YieldRateDecreased)
    );
    // a drop of 1.99 percent counts as 1, one of 2 as 2
    assert_eq!(validate_yield_rate(107_800_000_000_001, Some(prev), 14, 10), Ok(()));
    // the drop bound does not follow the configured deviation
    assert_eq!(
        validate_yield_rate(107_800_000_000_000, Some(prev), 14, 50),
        Err(Error::YieldRateDecreased)
    );
    assert_eq!(validate_yield_rate(108_900_000_000_000, Some(prev), 14, 0), Ok(()));
}

#[test]
fn yield_rate_overflow() {
    assert_eq!(
        validate_yield_rate(i128::MAX / 50, Some(ONE), 14, 10),
        Err(Error::IntegerOverflow)
    );
    assert_eq!(validate_yield_rate(i128::MAX, Some(ONE), 14, 10), Err(Error::IntegerOverflow));
    let prev = i128::MAX;
    assert_eq!(
        validate_yield_rate(prev - prev / 60, Some(prev), 14, 10),
        Err(Error::IntegerOverflow)
    );
    // a rise within the deviation whose hundredfold leaves 128 bits
    let prev = 1i128 << 100;
    assert_eq!(
        validate_yield_rate(prev + (1i128 << 121), Some(prev), 14, u32::MAX),
        Err(Error::IntegerOverflow)
    );
    assert_eq!(validate_yield_rate(prev + (1i128 << 120), Some(prev), 14, u32::MAX), Ok(()));
    assert_eq!(validate_yield_rate(ONE, Some(0), 14, 10), Err(Error::IntegerOverflow));
    assert_eq!(validate_yield_rate(ONE, Some(-1), 14, 10), Ok(()));
    assert_eq!(validate_yield_rate(ONE, Some(i128::MIN), 14, 10), Err(Error::IntegerOverflow));
}

#[test]
fn base_currency_rate_is_one() {
    let usd = Symbol::new("USD");
    assert!(usd.is_base_currency());
    assert!(!Symbol::new("MXN").is_base_currency());
    assert!(!Symbol::new("usd").is_base_currency());
    assert_eq!(get_fx_price(&usd, OracleReply::Unavailable, 600_000, 14, 300_000), Ok(ONE));
    assert_eq!(get_fx_price(&usd, OracleReply::NoPrice, 0, 0, 0), Ok(1));
    assert_eq!(get_fx_price(&usd, quote(-5, 1), 600_000, 2, 300_000), Ok(100));
    assert_eq!(
        get_fx_price(&usd, quote(5, 600), 600_000, 39, 300_000),
        Err(Error::IntegerOverflow)
    );
}

#[test]
fn feed_rate_is_checked() {
    let mxn = Symbol::new("MXN");
    assert_eq!(
        get_fx_price(&mxn, quote(57_000_000_000_000, 600), 600_000, 14, 300_000),
        Ok(57_000_000_000_000)
    );
    assert_eq!(
        get_fx_price(&mxn, OracleReply::Unavailable, 600_000, 14, 300_000),
        Err(Error::FxOracleUnavailable)
    );
    assert_eq!(
        get_fx_price(&mxn, OracleReply::NoPrice, 600_000, 14, 300_000),
        Err(Error::StaleFxPrice)
    );
    assert_eq!(
        get_fx_price(&mxn, quote(57_000_000_000_000, 0), 0, 14, 300_000),
        Err(Error::StaleFxPrice)
    );
    assert_eq!(
        get_fx_price(&mxn, quote(57_000_000_000_000, u64::MAX / 500), 600_000, 14, 300_000),
        Err(Error::IntegerOverflow)
    );
    assert_eq!(
        get_fx_price(&mxn, quote(0, 600), 600_000, 14, 300_000),
        Err(Error::InvalidFxPrice)
    );
    assert_eq!(
        get_fx_price(&mxn, quote(-1, 600), 600_000, 14, 300_000),
        Err(Error::InvalidFxPrice)
    );
    // the rate does not depend on the number of decimals
    assert_eq!(get_fx_price(&mxn, quote(1, 600), 600_000, 39, 300_000), Ok(1));
    // a caller that has told the currencies apart itself
    assert_eq!(resolve_fx_price(true, OracleReply::NoPrice, 600_000, 14, 300_000), Ok(ONE));
    assert_eq!(
        resolve_fx_price(false, OracleReply::NoPrice, 600_000, 14, 300_000),
        Err(Error::StaleFxPrice)
    );
    assert_eq!(resolve_fx_price(false, quote(9, 600), 600_000, 14, 300_000), Ok(9));
    assert_eq!(as_reply(Some(PriceData { price: 9, timestamp: 600 })), quote(9, 600));
}

#[test]
fn feed_drift_bound_is_sharp() {
    // two windows of 300 s: 600 s either way
    assert_eq!(check_feed_reply(quote(7, 1_200), 600_000, 300_000), Ok(7));
    assert_eq!(
        check_feed_reply(quote(7, 1_200), 599_999, 300_000),
        Err(Error::FxOracleTimestampDrift)
    );
    assert_eq!(check_feed_reply(quote(7, 600), 1_200_000, 300_000), Ok(7));
    assert_eq!(
        check_feed_reply(quote(7, 600), 1_200_001, 300_000),
        Err(Error::FxOracleTimestampDrift)
    );
    assert_eq!(
        check_feed_reply(quote(7, 9_999), 600_000, 300_000),
        Err(Error::FxOracleTimestampDrift)
    );
    assert_eq!(check_feed_reply(quote(7, 1), 1_000, 0), Ok(7));
    assert_eq!(check_feed_reply(quote(7, 1), 1_001, 0), Err(Error::FxOracleTimestampDrift));
    // drift is judged before the price
    assert_eq!(
        check_feed_reply(quote(0, 9_999), 600_000, 300_000),
        Err(Error::FxOracleTimestampDrift)
    );
    assert_eq!(
        check_feed_reply(quote(7, u64::MAX / 1000), 0, u32::MAX),
        Err(Error::FxOracleTimestampDrift)
    );
}

#[test]
fn price_composition() {
    assert_eq!(
        get_price_with_yield(105_000_000_000_000, 5_700_000_000_000, 14),
        Ok(5_985_000_000_000)
    );
    assert_eq!(
        get_price_with_yield(105 * ONE, 57_000_000_000_000, 14),
        Ok(5_985_000_000_000_000)
    );
    assert_eq!(get_price_with_yield(3, 5, 1), Ok(1));
    assert_eq!(get_price_with_yield(3, 3, 1), Ok(0));
    // rounding is downwards, also below zero
    assert_eq!(get_price_with_yield(1, -1, 1), Ok(-1));
    assert_eq!(get_price_with_yield(-15, 1, 1), Ok(-2));
    assert_eq!(get_price_with_yield(i128::MAX / 2, ONE, 14), Err(Error::IntegerOverflow));
    assert_eq!(get_price_with_yield(i128::MIN, -1, 0), Err(Error::IntegerOverflow));
    assert_eq!(get_price_with_yield(1, 1, 39), Err(Error::IntegerOverflow));
}

#[test]
fn base_currency_price_is_the_yield_rate() {
    for yield_rate in [ONE, 105_000_000_000_000, 123_456_789_012_345, i128::MAX / ONE] {
        let fx = get_fx_price(&Symbol::new("USD"), OracleReply::Unavailable, 600_000, 14, 300_000)
            .unwrap();
        assert_eq!(get_price_with_yield(yield_rate, fx, 14), Ok(yield_rate));
    }
    assert_eq!(get_price_with_yield(7, 1, 0), Ok(7));
}

#[test]
fn helper_values() {
    assert_eq!(convert_to_seconds(0), 0);
    assert_eq!(convert_to_seconds(999), 0);
    assert_eq!(convert_to_seconds(899_000), 899);
    assert_eq!(convert_to_seconds(u64::MAX), 18_446_744_073_709_551);
    assert_eq!(normalize_price(100), 10_000_000_000_000_000);
    assert_eq!(normalize_price(-3), -300_000_000_000_000);
    assert_eq!(normalize_price(0), 0);
    assert_eq!(calculate_expected_price(105 * ONE, 57_000_000_000_000, 14), 5_985_000_000_000_000);
    assert_eq!(calculate_expected_price(3, 5, 1), 1);
    assert_eq!(calculate_expected_price(-3, 5, 1), -1);
    assert_eq!(calculate_expected_price(-1, 1, 1), 0);
}

#[test]
fn reference_point_rules() {
    // no update yet
    assert_eq!(obtain_record_timestamp(0, 900, 300_000), 0);
    // the marker lies after the chain time
    assert_eq!(obtain_record_timestamp(900_001, 900, 300_000), 0);
    assert_eq!(obtain_record_timestamp(900_000, 900, 300_000), 900_000);
    assert_eq!(obtain_record_timestamp(600_000, 900, 300_000), 600_000);
    assert_eq!(obtain_record_timestamp(300_001, 900, 300_000), 300_001);
    // two windows back is too far
    assert_eq!(obtain_record_timestamp(300_000, 900, 300_000), 0);
    assert_eq!(obtain_record_timestamp(1, 900, 300_000), 0);
    assert_eq!(obtain_record_timestamp(900_000, 900, 0), 0);
    // chain times whose milliseconds leave 64 bits
    assert_eq!(obtain_record_timestamp(u64::MAX, u64::MAX, u32::MAX), 0);
    assert_eq!(obtain_record_timestamp(u64::MAX, u64::MAX / 1000 + 1, u32::MAX), u64::MAX);
}

#[test]
fn store_records_expire() {
    let mut store = RecordStore::new();
    assert_eq!(store.get(1, 0), None);
    store.set(1, 42, 10);
    assert_eq!(store.get(1, 10), Some(42));
    assert_eq!(store.get(1, 26), Some(42));
    assert_eq!(store.get(1, 27), None);
    assert_eq!(store.get(2, 10), None);
    store.set(1, 43, 10);
    assert_eq!(store.get(1, 10), Some(43));
}

#[test]
fn store_extends_time_to_live() {
    let mut store = RecordStore::new();
    store.set(1, 42, 10);
    // enough ledgers left: nothing changes
    store.extend_ttl(1, 16, 100, 10);
    assert_eq!(store.get(1, 27), None);
    store.extend_ttl(1, 17, 100, 10);
    assert_eq!(store.get(1, 110), Some(42));
    assert_eq!(store.get(1, 111), None);
    // an extension never shortens
    store.extend_ttl(1, 1000, 5, 10);
    assert_eq!(store.get(1, 110), Some(42));
    // an expired or missing record is not revived
    store.extend_ttl(1, 1000, 1000, 200);
    assert_eq!(store.get(1, 200), None);
    store.extend_ttl(9, 1000, 1000, 0);
    assert_eq!(store.get(9, 0), None);
}

#[test]
fn store_put_lives_as_long_as_asked() {
    let mut store = RecordStore::new();
    store.put(1, 42, 100, 10);
    assert_eq!(store.get(1, 110), Some(42));
    assert_eq!(store.get(1, 111), None);
    store.put(2, 7, 3, 10);
    assert_eq!(store.get(2, 26), Some(7));
    assert_eq!(store.get(2, 27), None);
    store.put(3, 7, u32::MAX, u32::MAX);
    assert_eq!(store.get(3, u32::MAX), Some(7));
}

#[test]
fn update_stores_price_and_yield_rate() {
    let mut oracle = PriceOracle::new(&config(14, 300_000, 10));
    oracle.set_ledger(900, 0);
    let mxn = Symbol::new("MXN");

    // yield 1.05 at a rate of 0.057
    let reply = answer(5_700_000_000_000, 600);
    assert_eq!(oracle.set_price(0, &mxn, 105_000_000_000_000, 600_000, 100, reply), Ok(()));
    assert_eq!(oracle.get_price(0, 600_000), Some(5_985_000_000_000));
    assert_eq!(oracle.get_last_yield_rate(0, 600_000), Some(105_000_000_000_000));
    assert_eq!(oracle.get_price(1, 600_000), None);
    assert_eq!(oracle.get_price(0, 900_000), None);
    oracle.set_last_timestamp(600_000);

    // a rise of 5 percent passes
    let reply = answer(5_700_000_000_000, 900);
    assert_eq!(oracle.set_price(0, &mxn, 110_000_000_000_000, 900_000, 100, reply), Ok(()));
    assert_eq!(oracle.get_price(0, 900_000), Some(6_270_000_000_000));

    // one of 11.4 percent from the same baseline does not
    assert_eq!(
        oracle.set_price(0, &mxn, 117_000_000_000_000, 900_000, 100, reply),
        Err(Error::YieldRateDeviationExceeded)
    );
    assert_eq!(oracle.get_price(0, 900_000), Some(6_270_000_000_000));
    assert_eq!(oracle.get_last_yield_rate(0, 900_000), Some(110_000_000_000_000));
}

#[test]
fn refused_update_stores_nothing() {
    let mut oracle = PriceOracle::new(&config(14, 300_000, 10));
    oracle.set_ledger(900, 0);
    let mxn = Symbol::new("MXN");
    let usd = Symbol::new("USD");

    let refusals = [
        (ONE - 1, answer(ONE, 600), Error::InvalidYieldRate),
        (ONE, None, Error::StaleFxPrice),
        (ONE, answer(ONE, 0), Error::StaleFxPrice),
        (ONE, answer(ONE, 9_999), Error::FxOracleTimestampDrift),
        (ONE, answer(0, 600), Error::InvalidFxPrice),
        (ONE, answer(ONE, u64::MAX), Error::IntegerOverflow),
        (i128::MAX, answer(ONE, 600), Error::IntegerOverflow),
    ];
    for (yield_rate, reply, error) in refusals {
        assert_eq!(oracle.set_price(3, &mxn, yield_rate, 600_000, 100, reply), Err(error));
        assert_eq!(oracle.get_price(3, 600_000), None);
        assert_eq!(oracle.get_last_yield_rate(3, 600_000), None);
    }
    // without a configured feed no answer counts
    let feed = oracle.get_fx_oracle_address().unwrap();
    oracle.clear_fx_oracle_address();
    assert_eq!(oracle.get_fx_oracle_address(), None);
    assert_eq!(
        oracle.set_price(3, &mxn, ONE, 600_000, 100, answer(ONE, 600)),
        Err(Error::FxOracleUnavailable)
    );
    assert_eq!(oracle.get_price(3, 600_000), None);
    // the yield rate is judged before the feed is looked at
    assert_eq!(oracle.set_price(3, &mxn, 0, 600_000, 100, None), Err(Error::InvalidYieldRate));
    // the base currency needs no feed
    assert_eq!(oracle.set_price(3, &usd, ONE + 5, 600_000, 100, None), Ok(()));
    assert_eq!(oracle.get_price(3, 600_000), Some(ONE + 5));
    oracle.set_fx_oracle_address(&feed);
    assert_eq!(oracle.get_fx_oracle_address(), Some(Address { id: "FEED".to_string() }));
    assert_eq!(oracle.set_price(4, &mxn, ONE, 600_000, 100, answer(ONE, 600)), Ok(()));
    assert_eq!(oracle.get_price(4, 600_000), Some(ONE));
}

#[test]
fn previous_rate_comes_from_the_reference_point() {
    let mut oracle = PriceOracle::new(&config(14, 300_000, 10));
    oracle.set_ledger(900, 0);
    let usd = Symbol::new("USD");
    assert_eq!(oracle.get_previous_yield_rate(0), None);
    assert_eq!(oracle.set_price(0, &usd, 2 * ONE, 600_000, 100, None), Ok(()));
    // without the marker the asset still counts as new
    assert_eq!(oracle.obtain_record_timestamp(), 0);
    assert_eq!(oracle.get_previous_yield_rate(0), None);
    oracle.set_last_timestamp(600_000);
    assert_eq!(oracle.obtain_record_timestamp(), 600_000);
    assert_eq!(oracle.get_previous_yield_rate(0), Some(2 * ONE));
    assert_eq!(oracle.get_previous_yield_rate(1), None);
    assert_eq!(
        oracle.set_price(0, &usd, ONE, 900_000, 100, None),
        Err(Error::YieldRateDecreased)
    );
    // after an outage of two windows history starts again
    oracle.set_ledger(1_200, 0);
    assert_eq!(oracle.obtain_record_timestamp(), 0);
    assert_eq!(oracle.set_price(0, &usd, ONE, 1_200_000, 100, None), Ok(()));
    assert_eq!(oracle.get_price(0, 1_200_000), Some(ONE));
}

#[test]
fn yield_rates_can_be_recorded_directly() {
    let mut oracle = PriceOracle::new(&config(14, 300_000, 10));
    oracle.set_ledger(900, 5);
    oracle.set_last_yield_rate(4, 600_000, 3 * ONE, 20);
    assert_eq!(oracle.get_last_yield_rate(4, 600_000), Some(3 * ONE));
    assert_eq!(oracle.get_price(4, 600_000), None);
    oracle.set_ledger(900, 25);
    assert_eq!(oracle.get_last_yield_rate(4, 600_000), Some(3 * ONE));
    oracle.set_ledger(900, 26);
    assert_eq!(oracle.get_last_yield_rate(4, 600_000), None);
}

#[test]
fn prices_expire_with_their_ledgers() {
    let mut oracle = PriceOracle::new(&config(14, 300_000, 10));
    oracle.set_ledger(900, 1_000);
    let usd = Symbol::new("USD");
    assert_eq!(oracle.set_price(0, &usd, ONE, 900_000, 50, None), Ok(()));
    assert_eq!(oracle.set_price(1, &usd, ONE, 900_000, 3, None), Ok(()));
    oracle.set_last_timestamp(900_000);
    oracle.set_ledger(900, 1_016);
    assert_eq!(oracle.get_price(0, 900_000), Some(ONE));
    assert_eq!(oracle.get_price(1, 900_000), Some(ONE));
    oracle.set_ledger(900, 1_017);
    assert_eq!(oracle.get_price(1, 900_000), None);
    assert_eq!(oracle.price(1, 900_000), None);
    assert_eq!(oracle.x_price(0, 1, 900_000), Ok(None));
    oracle.set_ledger(900, 1_050);
    assert_eq!(oracle.lastprice(0), Some(PriceData { price: ONE, timestamp: 900_000 }));
    oracle.set_ledger(900, 1_051);
    assert_eq!(oracle.lastprice(0), None);
    assert_eq!(oracle.twap(0, 1), Ok(None));
}

fn oracle_with_two_periods() -> PriceOracle {
    let mut oracle = PriceOracle::new(&config(14, 300_000, 10));
    oracle.set_ledger(900, 0);
    let usd = Symbol::new("USD");
    let eur = Symbol::new("EUR");
    let eur_rate = answer(110_000_000_000_000, 900);
    assert_eq!(oracle.set_price(0, &usd, 100 * ONE + 1, 600_000, 100, eur_rate), Ok(()));
    assert_eq!(oracle.set_price(1, &eur, 100 * ONE, 600_000, 100, eur_rate), Ok(()));
    oracle.set_last_timestamp(600_000);
    assert_eq!(oracle.set_price(0, &usd, 100 * ONE + 4, 900_000, 100, eur_rate), Ok(()));
    assert_eq!(oracle.set_price(1, &eur, 105 * ONE, 900_000, 100, eur_rate), Ok(()));
    oracle.set_last_timestamp(900_000);
    oracle
}

#[test]
fn twap_is_the_floor_of_the_mean() {
    let oracle = oracle_with_two_periods();
    // (100e14 + 1 + 100e14 + 4) / 2, rounded down
    assert_eq!(oracle.twap(0, 2), Ok(Some(100 * ONE + 2)));
    assert_eq!(oracle.twap(0, 1), Ok(Some(100 * ONE + 4)));
    assert_eq!(oracle.twap(1, 2), Ok(Some((110 * ONE + 11 * ONE * 105 / 10) / 2)));
    assert_eq!(oracle.twap(0, 0), Ok(None));
}

#[test]
fn twap_needs_every_period() {
    let mut oracle = oracle_with_two_periods();
    // the third period back has no price
    assert_eq!(oracle.twap(0, 3), Ok(None));
    assert_eq!(oracle.x_twap(0, 1, 3), Ok(None));
    // an asset without prices
    assert_eq!(oracle.twap(2, 1), Ok(None));
    assert_eq!(oracle.x_twap(0, 2, 1), Ok(None));
    assert_eq!(oracle.x_twap(2, 0, 2), Ok(None));
    // periods before time zero do not exist
    assert_eq!(oracle.twap(0, u32::MAX), Ok(None));
    // a gap in the middle
    oracle.set_ledger(1_500, 0);
    let usd = Symbol::new("USD");
    assert_eq!(oracle.set_price(0, &usd, 100 * ONE, 1_500_000, 100, None), Ok(()));
    oracle.set_last_timestamp(1_500_000);
    assert_eq!(oracle.twap(0, 1), Ok(Some(100 * ONE)));
    assert_eq!(oracle.twap(0, 2), Ok(None));
    assert_eq!(oracle.twap(0, 3), Ok(None));
    // without a reference point there is no average
    oracle.set_ledger(9_000, 0);
    assert_eq!(oracle.twap(0, 1), Ok(None));
}

#[test]
fn cross_prices() {
    let oracle = oracle_with_two_periods();
    let usd_price = 100 * ONE + 4;
    let eur_price = 105 * ONE * 11 / 10;
    assert_eq!(
        oracle.x_price(0, 1, 900_000),
        Ok(Some(PriceData { price: usd_price * ONE / eur_price, timestamp: 900_000 }))
    );
    assert_eq!(
        oracle.x_last_price(1, 0),
        Ok(Some(PriceData { price: eur_price * ONE / usd_price, timestamp: 900_000 }))
    );
    assert_eq!(
        oracle.x_price(0, 0, 600_000),
        Ok(Some(PriceData { price: ONE, timestamp: 600_000 }))
    );
    assert_eq!(oracle.x_price(0, 1, 600_001), Ok(None));
    assert_eq!(oracle.x_price(0, 2, 900_000), Ok(None));
    assert_eq!(oracle.x_price(2, 0, 900_000), Ok(None));
    let first = (100 * ONE + 1) * ONE / (110 * ONE);
    let second = usd_price * ONE / eur_price;
    assert_eq!(oracle.x_twap(0, 1, 2), Ok(Some((first + second) / 2)));
    assert_eq!(oracle.value(0, None, 900_000), Some(Some(usd_price)));
    assert_eq!(oracle.value(0, Some(1), 900_000), Some(Some(second)));
    assert_eq!(oracle.value(0, Some(2), 900_000), None);
}

#[test]
fn cross_price_overflow_is_reported() {
    let mut oracle = PriceOracle::new(&config(14, 300_000, 10));
    oracle.set_ledger(900, 0);
    let usd = Symbol::new("USD");
    let huge = i128::MAX / ONE;
    assert_eq!(oracle.set_price(0, &usd, huge, 900_000, 100, None), Ok(()));
    assert_eq!(oracle.set_price(1, &usd, ONE, 900_000, 100, None), Ok(()));
    oracle.set_last_timestamp(900_000);
    assert_eq!(oracle.x_price(0, 1, 900_000), Ok(Some(PriceData { price: huge, timestamp: 900_000 })));
    oracle.set_decimals(15);
    assert_eq!(oracle.x_price(0, 1, 900_000), Err(Error::IntegerOverflow));
    assert_eq!(oracle.x_last_price(0, 1), Err(Error::IntegerOverflow));
    assert_eq!(oracle.x_twap(0, 1, 1), Err(Error::IntegerOverflow));
    assert_eq!(oracle.value(0, Some(1), 900_000), Some(None));
    // a missing period outweighs an overflow
    assert_eq!(oracle.x_twap(0, 1, 2), Ok(None));
}

#[test]
fn twap_sum_overflow_is_reported() {
    let mut oracle = PriceOracle::new(&config(0, 10, u32::MAX));
    oracle.set_ledger(1, 0);
    let usd = Symbol::new("USD");
    assert_eq!(oracle.set_price(0, &usd, i128::MAX, 990, 100, None), Ok(()));
    assert_eq!(oracle.set_price(0, &usd, i128::MAX, 1_000, 100, None), Ok(()));
    oracle.set_last_timestamp(1_000);
    assert_eq!(oracle.twap(0, 1), Ok(Some(i128::MAX)));
    assert_eq!(oracle.twap(0, 2), Err(Error::IntegerOverflow));
    assert_eq!(oracle.twap(0, 3), Ok(None));
}

#[test]
fn settings_are_kept() {
    let mut oracle = PriceOracle::new(&config(14, 300_000, 10));
    assert_eq!(oracle.get_decimals(), 14);
    assert_eq!(oracle.get_resolution(), 300_000);
    assert_eq!(oracle.get_retention_period(), 30_000_000);
    assert_eq!(oracle.get_max_yield_deviation(), 10);
    assert_eq!(oracle.get_last_timestamp(), 0);
    oracle.set_decimals(7);
    oracle.set_resolution(60_000);
    oracle.set_retention_period(1);
    oracle.set_max_yield_deviation(3);
    oracle.set_last_timestamp(60_000);
    assert_eq!(oracle.get_decimals(), 7);
    assert_eq!(oracle.get_resolution(), 60_000);
    assert_eq!(oracle.get_retention_period(), 1);
    assert_eq!(oracle.get_max_yield_deviation(), 3);
    assert_eq!(oracle.get_last_timestamp(), 60_000);
}

#[test]
fn scripted_feed_rates() {
    let feed = MockFxOracle::new(900);
    assert_eq!(feed.last_timestamp(), 900);
    let rates = [
        ("MXN", 57_000_000_000_000i128),
        ("EUR", 110_000_000_000_000),
        ("GBP", 127_000_000_000_000),
        ("JPY", 6_500_000_000_000),
        ("CAD", 73_000_000_000_000),
        ("AUD", 65_000_000_000_000),
        ("CHF", 112_000_000_000_000),
        ("CNY", 100_000_000_000_000),
    ];
    for (name, price) in rates {
        let asset = Asset::Other(Symbol::new(name));
        assert_eq!(feed.lastprice(&asset), Some(PriceData { price, timestamp: 900 }));
        assert_eq!(feed.price(&asset, 5), Some(PriceData { price, timestamp: 900 }));
        assert_eq!(
            feed.reply(&Symbol::new(name)),
            OracleReply::Price(PriceData { price, timestamp: 900 })
        );
    }
    let token = Asset::Stellar(Address { id: "MXN".to_string() });
    assert_eq!(feed.lastprice(&token), Some(PriceData { price: ONE, timestamp: 900 }));
}

#[test]
fn scripted_feed_failures() {
    let mxn = Asset::Other(Symbol::new("MXN"));
    let mut feed = MockFxOracle::new(900);

    feed.set_error_mode(Some(Symbol::new("zero_timestamp")));
    assert_eq!(feed.last_timestamp(), 0);
    assert_eq!(feed.lastprice(&mxn), None);
    assert_eq!(feed.reply(&Symbol::new("MXN")), OracleReply::NoPrice);
    assert_eq!(feed.price(&mxn, 900), Some(PriceData { price: 57_000_000_000_000, timestamp: 0 }));

    feed.set_error_mode(Some(Symbol::new("none_price")));
    assert_eq!(feed.last_timestamp(), 900);
    assert_eq!(feed.lastprice(&mxn), None);

    feed.set_error_mode(Some(Symbol::new("negative_price")));
    assert_eq!(
        feed.lastprice(&mxn),
        Some(PriceData { price: -100_000_000_000_000, timestamp: 900 })
    );

    feed.set_error_mode(Some(Symbol::new("zero_price")));
    assert_eq!(feed.lastprice(&mxn), Some(PriceData { price: 0, timestamp: 900 }));

    feed.set_error_mode(Some(Symbol::new("something_else")));
    assert_eq!(
        feed.lastprice(&mxn),
        Some(PriceData { price: 57_000_000_000_000, timestamp: 900 })
    );

    feed.set_error_mode(Some(Symbol::new("zero_timestamp")));
    feed.set_custom_timestamp(1_201);
    assert_eq!(feed.last_timestamp(), 1_201);
    feed.set_custom_timestamp(0);
    feed.set_error_mode(None);
    assert_eq!(feed.last_timestamp(), 0);
    assert_eq!(feed.lastprice(&mxn), None);
    assert_eq!(as_reply(None), OracleReply::NoPrice);
}

#[test]
fn symbols_compare_by_name() {
    let symbol = Symbol::new("MXN");
    assert!(symbol.is_named("MXN"));
    assert!(!symbol.is_named("MX"));
    assert!(!symbol.is_named("mxn"));
    assert_eq!(symbol.clone(), symbol);
    assert_ne!(symbol, Symbol::new("EUR"));
}

#[test]
fn error_codes() {
    let codes = [
        (Error::AlreadyInitialized, 0u32),
        (Error::Unauthorized, 1),
        (Error::AssetMissing, 2),
        (Error::AssetAlreadyExists, 3),
        (Error::InvalidConfigVersion, 4),
        (Error::InvalidTimestamp, 5),
        (Error::InvalidUpdateLength, 6),
        (Error::AssetLimitExceeded, 7),
        (Error::FxLimitExceeded, 8),
        (Error::FxAlreadyExists, 9),
        (Error::StaleFxPrice, 10),
        (Error::FxArrayLengthMismatch, 11),
        (Error::InvalidYieldRate, 12),
        (Error::InvalidFxPrice, 13),
        (Error::FxOracleUnavailable, 14),
        (Error::IntegerOverflow, 15),
        (Error::FxOracleTimestampDrift, 16),
        (Error::YieldRateDecreased, 17),
        (Error::YieldRateDeviationExceeded, 18),
    ];
    for (error, code) in codes {
        assert_eq!(error.code(), code);
    }
}

#[test]
fn record_keys_decode() {
    for (timestamp, asset) in [(0u64, 0u8), (600_000, 7), (1, 255), (u64::MAX, 255), (u64::MAX, 0)] {
        let price_key = encode_record_key(timestamp, asset);
        let yield_key = encode_yield_key(timestamp, asset);
        assert_eq!(decode_record_key(price_key), (timestamp, asset));
        assert_eq!(decode_record_key(yield_key), (timestamp, asset));
        assert!(!is_yield_key(price_key));
        assert!(is_yield_key(yield_key));
    }
    assert_eq!(decode_record_key(u128::MAX), (u64::MAX, 255));
    assert!(is_yield_key(u128::MAX));
    assert!(!is_yield_key(0xff));
    assert!(!is_yield_key(0x200));
}

#[test]
fn periods_step_back_by_one_window() {
    assert_eq!(previous_period(900_000, 300_000), Some(600_000));
    assert_eq!(previous_period(300_000, 300_000), Some(0));
    assert_eq!(previous_period(299_999, 300_000), None);
    assert_eq!(previous_period(0, 1), None);
    assert_eq!(previous_period(5, 0), Some(5));
    assert_eq!(previous_period(u64::MAX, u32::MAX), Some(u64::MAX - u64::from(u32::MAX)));
}

#[test]
fn averager_rounds_down() {
    let mut averager = Averager::new();
    assert_eq!(averager.mean(), Ok(None));
    averager.add(Some(3));
    assert_eq!(averager.mean(), Ok(Some(3)));
    averager.add(Some(4));
    assert_eq!(averager.mean(), Ok(Some(3)));
    averager.add(Some(5));
    assert_eq!(averager.mean(), Ok(Some(4)));
    averager.add(Some(0));
    assert_eq!(averager.mean(), Ok(Some(3)));
}

#[test]
fn averager_reports_overflow() {
    let mut averager = Averager::new();
    averager.add(Some(i128::MAX));
    assert_eq!(averager.mean(), Ok(Some(i128::MAX)));
    averager.add(Some(1));
    assert_eq!(averager.mean(), Err(Error::IntegerOverflow));
    averager.add(Some(1));
    assert_eq!(averager.mean(), Err(Error::IntegerOverflow));

    let mut averager = Averager::new();
    averager.add(Some(1));
    averager.add(None);
    assert_eq!(averager.mean(), Err(Error::IntegerOverflow));
    averager.add(Some(1));
    assert_eq!(averager.mean(), Err(Error::IntegerOverflow));
}
