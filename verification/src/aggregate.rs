use vstd::prelude::*;

use crate::json::{parse_json, parsed_json};
use crate::providers::{
    cc_market_cap, cc_supply, decode_dex, decode_gecko, dex_pairs_json, extract_cc, spec_dex_wf,
    spec_gecko, spec_pair,
};
use crate::timestamp::{is_rfc3339_utc, now_rfc3339};
use vstd::string::StringExecFns;

verus! {

/// The outcome of one upstream call, as the transport hands it over: the
/// text of the response body, or the text of the transport error.
#[derive(Debug)]
pub enum Fetched {
    Body(String),
    Transport(String),
}

/// Why an aggregation failed. A transport variant carries the transport
/// error's text for the provider it names.
#[derive(Debug)]
pub enum AggError {
    DexTransport(String),
    DexDecode,
    GeckoTransport(String),
    GeckoDecode,
    CcTransport(String),
    CcDecode,
    NoPairs,
}

/// The merged output record. Quantity fields hold the number text of the
/// upstream document they were taken from.
#[derive(Debug)]
pub struct AggregatedData {
    pub dex_token_name: String,
    pub dex_token_symbol: String,
    pub dex_price_usd: String,
    pub dex_liquidity_usd: String,
    pub dex_volume_24h: String,
    pub dex_market_cap: i64,
    pub btc_price: String,
    pub eth_price: String,
    pub btc_24h_change: String,
    pub btc_supply: String,
    pub btc_market_cap_cc: String,
    pub fetched_at: String,
}

/// The stage at which an aggregation stops, in the fixed order the stages
/// are examined in.
pub enum Stage {
    DexTransport,
    DexDecode,
    GeckoTransport,
    GeckoDecode,
    CcTransport,
    CcDecode,
    NoPairs,
    Success,
}

/// Whether a body text parses and decodes as the decentralized-exchange
/// response.
pub open spec fn dex_body_ok(s: Seq<char>) -> bool {
    parsed_json(s) matches Some(j) && spec_dex_wf(j)
}

/// Whether a body text parses and decodes as the market-data aggregator's
/// response.
pub open spec fn gecko_body_ok(s: Seq<char>) -> bool {
    parsed_json(s) matches Some(j) && spec_gecko(j) is Some
}

/// Whether a body text parses as JSON at all; the secondary provider asks
/// no more of its response.
pub open spec fn cc_body_ok(s: Seq<char>) -> bool {
    parsed_json(s) is Some
}

/// How many pairs a well-formed decentralized-exchange body holds.
pub open spec fn dex_pair_count(s: Seq<char>) -> int {
    dex_pairs_json(parsed_json(s).unwrap()).len() as int
}

/// The stage at which aggregating the three outcomes stops: the first of
/// transport failure, decode failure and the empty-pairs condition, taken
/// provider by provider in the fixed order.
pub open spec fn outcome_stage(dex: Fetched, gecko: Fetched, cc: Fetched) -> Stage {
    match dex {
        Fetched::Transport(_) => Stage::DexTransport,
        Fetched::Body(db) => if !dex_body_ok(db@) {
            Stage::DexDecode
        } else {
            match gecko {
                Fetched::Transport(_) => Stage::GeckoTransport,
                Fetched::Body(gb) => if !gecko_body_ok(gb@) {
                    Stage::GeckoDecode
                } else {
                    match cc {
                        Fetched::Transport(_) => Stage::CcTransport,
                        Fetched::Body(cb) => if !cc_body_ok(cb@) {
                            Stage::CcDecode
                        } else if dex_pair_count(db@) == 0 {
                            Stage::NoPairs
                        } else {
                            Stage::Success
                        },
                    }
                },
            }
        },
    }
}

/// The error a failing aggregation reports, stage by stage.
pub open spec fn expected_err(dex: Fetched, gecko: Fetched, cc: Fetched) -> AggError
    recommends
        !(outcome_stage(dex, gecko, cc) is Success),
{
    match dex {
        Fetched::Transport(e) => AggError::DexTransport(e),
        Fetched::Body(db) => if !dex_body_ok(db@) {
            AggError::DexDecode
        } else {
            match gecko {
                Fetched::Transport(e) => AggError::GeckoTransport(e),
                Fetched::Body(gb) => if !gecko_body_ok(gb@) {
                    AggError::GeckoDecode
                } else {
                    match cc {
                        Fetched::Transport(e) => AggError::CcTransport(e),
                        Fetched::Body(cb) => if !cc_body_ok(cb@) {
                            AggError::CcDecode
                        } else {
                            AggError::NoPairs
                        },
                    }
                },
            }
        },
    }
}

/// What the merged record holds when every stage succeeded: each field is
/// the one the matching upstream document carries, and the timestamp has
/// the RFC 3339 shape.
pub open spec fn good_record(
    a: AggregatedData,
    db: Seq<char>,
    gb: Seq<char>,
    cb: Seq<char>,
) -> bool {
    let first = spec_pair(dex_pairs_json(parsed_json(db).unwrap())[0]).unwrap();
    let g = spec_gecko(parsed_json(gb).unwrap()).unwrap();
    let cj = parsed_json(cb).unwrap();
    &&& a.dex_token_name == first.base_token.name
    &&& a.dex_token_symbol == first.base_token.symbol
    &&& a.dex_price_usd == first.price_usd
    &&& a.dex_liquidity_usd == first.liquidity.usd
    &&& a.dex_volume_24h == first.volume.h24
    &&& a.dex_market_cap == first.market_cap
    &&& a.btc_price == g.bitcoin.usd
    &&& a.eth_price == g.ethereum.usd
    &&& a.btc_24h_change == g.bitcoin.usd_24h_change
    &&& a.btc_supply@ == cc_supply(cj)
    &&& a.btc_market_cap_cc@ == cc_market_cap(cj)
    &&& is_rfc3339_utc(a.fetched_at@)
}

impl AggError {
    /// The human-readable message of this error; each stage gets a distinct
    /// text naming the provider and the stage that failed.
    pub open spec fn spec_message(&self) -> Seq<char> {
        match self {
            AggError::DexTransport(e) => "Desxcreener result failed: "@ + e@,
            AggError::DexDecode => "Dexscreener request failed: the response body did not decode"@,
            AggError::GeckoTransport(e) => "CoinGecko request failed: "@ + e@,
            AggError::GeckoDecode => "CoinGecko JSON parse failed: the response body did not decode"@,
            AggError::CcTransport(e) => "CryptoCompare request failed: "@ + e@,
            AggError::CcDecode => "CryptoCompare JSON parse failed: the response body did not decode"@,
            AggError::NoPairs => "No pairs found in DexScreener response"@,
        }
    }

    /// Render the message.
    pub fn message(&self) -> (r: String)
        ensures
            r@ == self.spec_message(),
    {
        match self {
            AggError::DexTransport(e) => "Desxcreener result failed: ".to_owned().concat(
                e.as_str(),
            ),
            AggError::DexDecode => "Dexscreener request failed: the response body did not decode".to_owned(),
            AggError::GeckoTransport(e) => "CoinGecko request failed: ".to_owned().concat(
                e.as_str(),
            ),
            AggError::GeckoDecode => "CoinGecko JSON parse failed: the response body did not decode".to_owned(),
            AggError::CcTransport(e) => "CryptoCompare request failed: ".to_owned().concat(
                e.as_str(),
            ),
            AggError::CcDecode => "CryptoCompare JSON parse failed: the response body did not decode".to_owned(),
            AggError::NoPairs => "No pairs found in DexScreener response".to_owned(),
        }
    }
}

/// Merge the three upstream outcomes into one record, or fail at the first
/// failing stage. Success is owed exactly when each outcome carries a body,
/// the first two bodies decode as their providers' shapes, the third parses
/// as JSON, and the pair sequence is not empty.
pub fn aggregate_response(dex: Fetched, gecko: Fetched, cc: Fetched) -> (r: Result<
    AggregatedData,
    AggError,
>)
    ensures
        r is Ok <==> outcome_stage(dex, gecko, cc) is Success,
        r matches Err(e) ==> e == expected_err(dex, gecko, cc),
        r matches Ok(a) ==> dex matches Fetched::Body(db) && gecko matches Fetched::Body(gb)
            && cc matches Fetched::Body(cb) && good_record(a, db@, gb@, cb@),
{
    let dex_body = match dex {
        Fetched::Body(b) => b,
        Fetched::Transport(e) => {
            return Err(AggError::DexTransport(e));
        },
    };
    let dj = match parse_json(dex_body.as_str()) {
        Some(j) => j,
        None => {
            return Err(AggError::DexDecode);
        },
    };
    let dex_data = match decode_dex(&dj) {
        Some(d) => d,
        None => {
            return Err(AggError::DexDecode);
        },
    };
    let gecko_body = match gecko {
        Fetched::Body(b) => b,
        Fetched::Transport(e) => {
            return Err(AggError::GeckoTransport(e));
        },
    };
    let gj = match parse_json(gecko_body.as_str()) {
        Some(j) => j,
        None => {
            return Err(AggError::GeckoDecode);
        },
    };
    let gecko_data = match decode_gecko(&gj) {
        Some(d) => d,
        None => {
            return Err(AggError::GeckoDecode);
        },
    };
    let cc_body = match cc {
        Fetched::Body(b) => b,
        Fetched::Transport(e) => {
            return Err(AggError::CcTransport(e));
        },
    };
    let cj = match parse_json(cc_body.as_str()) {
        Some(j) => j,
        None => {
            return Err(AggError::CcDecode);
        },
    };
    let fetched_at = now_rfc3339();
    if dex_data.pairs.len() == 0 {
        return Err(AggError::NoPairs);
    }
    let first = &dex_data.pairs[0];
    let (btc_supply, btc_market_cap_cc) = extract_cc(&cj);
    Ok(
        AggregatedData {
            dex_token_name: first.base_token.name.clone(),
            dex_token_symbol: first.base_token.symbol.clone(),
            dex_price_usd: first.price_usd.clone(),
            dex_liquidity_usd: first.liquidity.usd.clone(),
            dex_volume_24h: first.volume.h24.clone(),
            dex_market_cap: first.market_cap,
            btc_price: gecko_data.bitcoin.usd.clone(),
            eth_price: gecko_data.ethereum.usd.clone(),
            btc_24h_change: gecko_data.bitcoin.usd_24h_change.clone(),
            btc_supply,
            btc_market_cap_cc,
            fetched_at,
        },
    )
}

/// The health-check body: fixed text, no upstream call, no failure mode.
pub fn root_body() -> (r: &'static str)
    ensures
        r@ == "Root endpoint hit"@,
{
    "Root endpoint hit"
}

} // verus!
