use solrush_dex::oracle::{
    read_feed_price, read_published_price, select_feed_price, MAX_PRICE_AGE_SECS,
};
use solrush_dex::perps::initialize_oracle_price;
use solrush_dex::pool_state::Address;
use solrush_dex::CustomError;

const ACCOUNT_SIZE: usize = 3312;
const MAGIC: u32 = 0xa1b2_c3d4;
const VERSION: u32 = 2;
const PRICE_ACCOUNT: u32 = 3;
const TRADING: u8 = 1;
const HALTED: u8 = 2;

/// The bytes of a price account of the feed, at an address that is a
/// multiple of eight within the buffer that is returned with its offset.
fn price_account(
    magic: u32,
    version: u32,
    account_type: u32,
    status: u8,
    price: i64,
    timestamp: i64,
    previous_price: i64,
    previous_timestamp: i64,
) -> (Vec<u8>, usize) {
    let mut buffer = vec![0u8; ACCOUNT_SIZE + 8];
    let start = buffer.as_ptr().align_offset(8);
    let account = &mut buffer[start..start + ACCOUNT_SIZE];
    account[0..4].copy_from_slice(&magic.to_le_bytes());
    account[4..8].copy_from_slice(&version.to_le_bytes());
    account[8..12].copy_from_slice(&account_type.to_le_bytes());
    account[96..104].copy_from_slice(&timestamp.to_le_bytes());
    account[184..192].copy_from_slice(&previous_price.to_le_bytes());
    account[200..208].copy_from_slice(&previous_timestamp.to_le_bytes());
    account[208..216].copy_from_slice(&price.to_le_bytes());
    account[224] = status;
    (buffer, start)
}

#[test]
fn trading_feed_gives_its_aggregate_price() {
    let (buffer, start) = price_account(MAGIC, VERSION, PRICE_ACCOUNT, TRADING, 101_500_000, 1000, 99, 900);
    let data = &buffer[start..start + ACCOUNT_SIZE];
    assert_eq!(read_feed_price(data, 1000), Ok(101_500_000));
    assert_eq!(read_feed_price(data, 1060), Ok(101_500_000));
    assert_eq!(read_feed_price(data, 940), Ok(101_500_000));
    assert_eq!(read_feed_price(data, 1061), Err(CustomError::OraclePriceUnavailable));
    assert_eq!(read_feed_price(data, 939), Err(CustomError::OraclePriceUnavailable));
}

#[test]
fn halted_feed_gives_its_previous_price() {
    let (buffer, start) = price_account(MAGIC, VERSION, PRICE_ACCOUNT, HALTED, 101_500_000, 1000, 99_000_000, 900);
    let data = &buffer[start..start + ACCOUNT_SIZE];
    assert_eq!(read_feed_price(data, 900), Ok(99_000_000));
    assert_eq!(read_feed_price(data, 960), Ok(99_000_000));
    assert_eq!(read_feed_price(data, 1000), Err(CustomError::OraclePriceUnavailable));
}

#[test]
fn bytes_that_are_no_price_account_give_no_price() {
    assert_eq!(read_feed_price(&[], 0), Err(CustomError::OraclePriceUnavailable));
    assert_eq!(read_feed_price(&[1, 2, 3], 0), Err(CustomError::OraclePriceUnavailable));
    let (buffer, start) = price_account(MAGIC + 1, VERSION, PRICE_ACCOUNT, TRADING, 5, 1000, 0, 0);
    assert_eq!(
        read_feed_price(&buffer[start..start + ACCOUNT_SIZE], 1000),
        Err(CustomError::OraclePriceUnavailable)
    );
    let (buffer, start) = price_account(MAGIC, VERSION + 1, PRICE_ACCOUNT, TRADING, 5, 1000, 0, 0);
    assert_eq!(
        read_feed_price(&buffer[start..start + ACCOUNT_SIZE], 1000),
        Err(CustomError::OraclePriceUnavailable)
    );
    let (buffer, start) = price_account(MAGIC, VERSION, PRICE_ACCOUNT - 1, TRADING, 5, 1000, 0, 0);
    assert_eq!(
        read_feed_price(&buffer[start..start + ACCOUNT_SIZE], 1000),
        Err(CustomError::OraclePriceUnavailable)
    );
    let (buffer, start) = price_account(MAGIC, VERSION, PRICE_ACCOUNT, TRADING, 5, 1000, 0, 0);
    // one byte short
    assert_eq!(
        read_feed_price(&buffer[start..start + ACCOUNT_SIZE - 1], 1000),
        Err(CustomError::OraclePriceUnavailable)
    );
    // not at a multiple of eight
    assert_eq!(
        read_feed_price(&buffer[start + 1..], 1000),
        Err(CustomError::OraclePriceUnavailable)
    );
    assert_eq!(read_feed_price(&buffer[start..start + ACCOUNT_SIZE], 1000), Ok(5));
}

#[test]
fn price_is_fresh_within_a_minute() {
    assert_eq!(MAX_PRICE_AGE_SECS, 60);
    assert_eq!(select_feed_price(None, 0), Err(CustomError::OraclePriceUnavailable));
    assert_eq!(select_feed_price(Some((7, 100)), 100), Ok(7));
    assert_eq!(select_feed_price(Some((-7, 100)), 160), Ok(-7));
    assert_eq!(select_feed_price(Some((7, 100)), 40), Ok(7));
    assert_eq!(select_feed_price(Some((7, 100)), 161), Err(CustomError::OraclePriceUnavailable));
    assert_eq!(select_feed_price(Some((7, 100)), 39), Err(CustomError::OraclePriceUnavailable));
    assert_eq!(
        select_feed_price(Some((7, i64::MIN)), i64::MAX),
        Err(CustomError::OraclePriceUnavailable)
    );
    assert_eq!(
        select_feed_price(Some((7, i64::MAX)), i64::MIN),
        Err(CustomError::OraclePriceUnavailable)
    );
    assert_eq!(select_feed_price(Some((i64::MIN, i64::MAX)), i64::MAX - 60), Ok(i64::MIN));
}

#[test]
fn published_price_is_read_as_it_is() {
    let oracle = initialize_oracle_price(Address { high: 0, low: 1 }, -42, 5, 255);
    assert_eq!(read_published_price(&oracle), -42);
}
