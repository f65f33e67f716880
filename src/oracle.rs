//! Reading the collateral price from the Pyth feed. The feed is never cached:
//! every health factor re-reads it.

use vstd::prelude::*;
use vstd::string::is_ascii;

use anchor_lang::prelude::Clock;
use pyth_solana_receiver_sdk::error::GetPriceError;
use pyth_solana_receiver_sdk::price_update::{
    get_feed_id_from_hex, PriceFeedMessage, PriceUpdateV2, VerificationLevel,
};

use crate::constants::{MAX_AGE, PRICE_FEED_DECIMAL_ADJUSTMENT, SOL_USD_FEED_ID};
use crate::error::ErrorCode;

verus! {

#[verifier::external_type_specification]
#[verifier::external_body]
pub struct ExGetPriceError(GetPriceError);

/// How many guardian signatures were checked on a price update.
#[derive(Debug, Clone, Copy, PartialEq, Eq, Structural)]
pub enum Verification {
    Partial { num_signatures: u8 },
    Full,
}

/// The last price update posted for a feed.
#[derive(Debug, Clone, Copy, PartialEq, Eq)]
pub struct PriceFeed {
    pub feed_id: [u8; 32],
    /// Raw price.
    pub price: i64,
    /// Unix time of publication, in seconds.
    pub publish_time: i64,
    pub verification: Verification,
}

/// A price read from the feed: the raw value and its publish time in seconds.
#[derive(Debug, Clone, Copy, PartialEq, Eq, Structural)]
pub struct PriceQuote {
    pub price: i64,
    pub publish_time: i64,
}

/// Value of a hexadecimal digit, or -1 for any other character.
pub open spec fn hex_value(c: char) -> int {
    let v = c as u32;
    if 48 <= v && v <= 57 {
        v - 48
    } else if 97 <= v && v <= 102 {
        v - 87
    } else if 65 <= v && v <= 70 {
        v - 55
    } else {
        -1
    }
}

/// The 64 digits of a feed id written with or without a two-character prefix.
pub open spec fn feed_id_digits(s: Seq<char>) -> Seq<char> {
    if s.len() == 66 {
        s.skip(2)
    } else {
        s
    }
}

/// `s` writes a 32-byte feed id in hexadecimal.
pub open spec fn is_feed_id_text(s: Seq<char>) -> bool {
    (s.len() == 64 || s.len() == 66) && forall|i: int|
        0 <= i < 64 ==> hex_value(#[trigger] feed_id_digits(s)[i]) >= 0
}

/// `id` is the feed id that `s` writes.
pub open spec fn decodes_feed_id(s: Seq<char>, id: Seq<u8>) -> bool {
    id.len() == 32 && forall|i: int|
        0 <= i < 32 ==> #[trigger] id[i] == 16 * hex_value(feed_id_digits(s)[2 * i]) + hex_value(
            feed_id_digits(s)[2 * i + 1],
        )
}

/// The quote was published no more than `max_age` seconds before `now`.
pub open spec fn is_fresh(q: PriceQuote, now: i64, max_age: u64) -> bool {
    q.publish_time + max_age >= now
}

/// `id` is the SOL/USD feed the engine reads.
pub open spec fn is_sol_usd_feed(id: Seq<u8>) -> bool {
    is_feed_id_text(SOL_USD_FEED_ID@) && decodes_feed_id(SOL_USD_FEED_ID@, id)
}

/// What reading `feed` at `now` gives: its price in the engine's scale when
/// it is fully verified, for the SOL/USD feed and at most `MAX_AGE` old.
pub open spec fn price_reading(feed: PriceFeed, now: i64) -> Result<u64, ErrorCode> {
    let q = PriceQuote { price: feed.price, publish_time: feed.publish_time };
    if feed.verification == Verification::Full && is_sol_usd_feed(feed.feed_id@) && is_fresh(
        q,
        now,
        MAX_AGE,
    ) {
        quote_price(q)
    } else {
        Err(ErrorCode::StaleOrInvalidPrice)
    }
}

/// The engine's USD-scaled price for a quote, or why it is unusable.
pub open spec fn quote_price(q: PriceQuote) -> Result<u64, ErrorCode> {
    if q.price <= 0 {
        Err(ErrorCode::StaleOrInvalidPrice)
    } else if q.price * PRICE_FEED_DECIMAL_ADJUSTMENT > u64::MAX {
        Err(ErrorCode::ArithmeticFault)
    } else {
        Ok((q.price * PRICE_FEED_DECIMAL_ADJUSTMENT) as u64)
    }
}

/// Relies on pyth_solana_receiver_sdk::price_update::get_feed_id_from_hex:
/// 64 hex digits, or 66 characters whose first two are skipped, decoded
/// by `hex::decode` (either case of letter); any other length or a non-hex
/// digit is an error. Slicing off the prefix needs ASCII text.
#[verifier::external_body]
fn feed_id_from_hex(s: &str) -> (r: Result<[u8; 32], GetPriceError>)
    requires
        is_ascii(s),
    ensures
        r is Ok <==> is_feed_id_text(s@),
        r is Ok ==> decodes_feed_id(s@, r->Ok_0@),
{
    get_feed_id_from_hex(s)
}

/// Relies on PriceUpdateV2::get_price_no_older_than, on an update built
/// from `f`: a fully verified update for `feed_id` whose publish time plus
/// `max_age` (saturating) reaches `now` yields its price and publish time;
/// anything else is an error. `max_age` must fit an `i64` (the call
/// unwraps that conversion).
#[verifier::external_body]
fn price_no_older_than(
    f: &PriceFeed,
    now: i64,
    max_age: u64,
    feed_id: &[u8; 32],
) -> (r: Result<PriceQuote, GetPriceError>)
    requires
        max_age <= i64::MAX,
    ensures
        r is Ok <==> (f.verification == Verification::Full && f.feed_id@ == feed_id@
            && f.publish_time + max_age >= now),
        r is Ok ==> r->Ok_0 == (PriceQuote { price: f.price, publish_time: f.publish_time }),
{
    let level = match f.verification {
        Verification::Partial { num_signatures } => VerificationLevel::Partial { num_signatures },
        Verification::Full => VerificationLevel::Full,
    };
    let price_message = PriceFeedMessage { feed_id: f.feed_id, price: f.price, conf: 0, exponent: 0,
        publish_time: f.publish_time, prev_publish_time: f.publish_time, ema_price: 0, ema_conf: 0 };
    let update = PriceUpdateV2 { write_authority: Default::default(), verification_level: level,
        price_message, posted_slot: 0 };
    let clock = Clock { unix_timestamp: now, ..Default::default() };
    let p = update.get_price_no_older_than(&clock, max_age, feed_id)?;
    Ok(PriceQuote { price: p.price, publish_time: p.publish_time })
}

/// Turns a quote into the engine's USD-scaled price: it must be positive.
pub fn validate_quote(q: PriceQuote) -> (r: Result<u64, ErrorCode>)
    ensures
        r == quote_price(q),
{
    if q.price <= 0 {
        return Err(ErrorCode::StaleOrInvalidPrice);
    }
    let scaled = (q.price as u64).checked_mul(PRICE_FEED_DECIMAL_ADJUSTMENT);
    match scaled {
        Some(p) => Ok(p),
        None => Err(ErrorCode::ArithmeticFault),
    }
}

/// Reads the SOL/USD price at time `now` (unix seconds). A price that is
/// older than `MAX_AGE`, for another feed, not fully verified, or not
/// positive is `StaleOrInvalidPrice`.
pub fn read_price(feed: &PriceFeed, now: i64) -> (r: Result<u64, ErrorCode>)
    ensures
        r == price_reading(*feed, now),
        r is Ok ==> r->Ok_0 > 0,
{
    proof {
        reveal_strlit("0xef0d8b6fda2ceba41da15d4095d1da392a0d2f8ed0c6c7bc0f4cfac8c280b56d");
    }
    let feed_id = match feed_id_from_hex(SOL_USD_FEED_ID) {
        Ok(id) => id,
        Err(_) => return Err(ErrorCode::StaleOrInvalidPrice),
    };
    proof {
        if is_sol_usd_feed(feed.feed_id@) {
            assert(feed.feed_id@ =~= feed_id@);
        }
    }
    let quote = match price_no_older_than(feed, now, MAX_AGE, &feed_id) {
        Ok(q) => q,
        Err(_) => return Err(ErrorCode::StaleOrInvalidPrice),
    };
    validate_quote(quote)
}


/// The engine's feed id constant is a well-formed 32-byte hexadecimal id,
/// so a fully verified, fresh, positive update for that feed is read.
pub proof fn sol_usd_feed_id_is_hex()
    ensures
        is_feed_id_text(SOL_USD_FEED_ID@),
{
    reveal_strlit("0xef0d8b6fda2ceba41da15d4095d1da392a0d2f8ed0c6c7bc0f4cfac8c280b56d");
    let d = feed_id_digits(SOL_USD_FEED_ID@);
    assert(d =~= "ef0d8b6fda2ceba41da15d4095d1da392a0d2f8ed0c6c7bc0f4cfac8c280b56d"@) by {
        reveal_strlit("ef0d8b6fda2ceba41da15d4095d1da392a0d2f8ed0c6c7bc0f4cfac8c280b56d");
    }
    assert forall|i: int| 0 <= i < 64 implies hex_value(#[trigger] d[i]) >= 0 by {
        reveal_strlit("ef0d8b6fda2ceba41da15d4095d1da392a0d2f8ed0c6c7bc0f4cfac8c280b56d");
    }
}

} // verus!
