use vstd::prelude::*;
use crate::errors::CustomError;
use crate::perps_state::PerpsOraclePrice;

verus! {

/// How many seconds a feed's price may lie from the current time.
pub const MAX_PRICE_AGE_SECS: u64 = 60;

/// The price that a price account of the feed holds, and the time it was
/// published at; `None` where the bytes are not a price account.
///
/// Calls `pyth_sdk_solana::state::load_price_account` on the bytes and, on
/// the account it returns, `to_price_feed` and `get_price_unchecked`, which
/// give the aggregate price while the feed is trading and the previous one
/// otherwise. The outside function does not return where the bytes are long
/// enough and do not start at an address that is a multiple of eight; such
/// bytes are not handed to it and give `None`. Nothing is claimed of the
/// result: it depends on where the bytes lie in memory.
#[verifier::external_body]
fn load_feed_price(data: &[u8]) -> (loaded: Option<(i64, i64)>) {
    if data.as_ptr().align_offset(8) != 0 {
        return None;
    }
    match pyth_sdk_solana::state::load_price_account::<32, ()>(data) {
        Ok(account) => {
            let price = account.to_price_feed(&Default::default()).get_price_unchecked();
            Some((price.price, price.publish_time))
        },
        Err(_) => None,
    }
}

/// Whether a price published at `publish_time` is within `age` seconds of
/// `now`, before or after.
pub open spec fn is_fresh(publish_time: int, now: int, age: int) -> bool {
    -age <= publish_time - now <= age
}

/// What reading a feed gives for what was loaded from its account: the
/// price, where one was loaded and it is fresh at the time `now`, and
/// `OraclePriceUnavailable` otherwise.
pub open spec fn feed_price_outcome(loaded: Option<(i64, i64)>, now: i64) -> Result<
    i64,
    CustomError,
> {
    match loaded {
        Some((price, publish_time)) => if is_fresh(
            publish_time as int,
            now as int,
            MAX_PRICE_AGE_SECS as int,
        ) {
            Ok(price)
        } else {
            Err(CustomError::OraclePriceUnavailable)
        },
        None => Err(CustomError::OraclePriceUnavailable),
    }
}

/// Selects the price of what was loaded from a feed's account at the time
/// `now`: see `feed_price_outcome`.
pub fn select_feed_price(loaded: Option<(i64, i64)>, now: i64) -> (r: Result<i64, CustomError>)
    ensures
        r == feed_price_outcome(loaded, now),
{
    match loaded {
        None => Err(CustomError::OraclePriceUnavailable),
        Some((price, publish_time)) => {
            let distance: i128 = (publish_time as i128) - (now as i128);
            let age: i128 = MAX_PRICE_AGE_SECS as i128;
            if distance > age || distance < -age {
                Err(CustomError::OraclePriceUnavailable)
            } else {
                Ok(price)
            }
        },
    }
}

/// Reads the price of a feed from the bytes of its price account at the
/// time `now`. Whatever was loaded from the bytes, the result is what
/// `feed_price_outcome` gives for it; the only error is
/// `OraclePriceUnavailable`.
pub fn read_feed_price(data: &[u8], now: i64) -> (r: Result<i64, CustomError>)
    ensures
        exists|loaded: Option<(i64, i64)>| r == #[trigger] feed_price_outcome(loaded, now),
        r is Err ==> r == Err::<i64, CustomError>(CustomError::OraclePriceUnavailable),
{
    let loaded = load_feed_price(data);
    select_feed_price(loaded, now)
}

/// The price that the administrator published.
pub fn read_published_price(oracle: &PerpsOraclePrice) -> (price: i64)
    ensures
        price == oracle.price_i64,
{
    oracle.price_i64
}

} // verus!
