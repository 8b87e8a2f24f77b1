use vstd::prelude::*;

use crate::json::{get, Json};

verus! {

// ---------------------------------------------------------------------------
// The decoded shapes of the three upstream providers.
//
// Numeric fields that carry a price, a volume or another measured quantity
// hold the literal text of the JSON number; fields that the upstream schema
// fixes as integers hold the integer itself.
// ---------------------------------------------------------------------------

/// The base-token descriptor of a decentralized-exchange pair.
#[derive(Debug)]
pub struct Token {
    pub address: String,
    pub name: String,
    pub symbol: String,
}

/// Trading volume of a pair over four windows, as JSON number text.
#[derive(Debug)]
pub struct Volume {
    pub h24: String,
    pub h6: String,
    pub h1: String,
    pub m5: String,
}

/// Liquidity of a pair, as JSON number text.
#[derive(Debug)]
pub struct Liquidity {
    pub usd: String,
    pub base: String,
    pub quote: String,
}

/// One trading pair from the decentralized-exchange provider.
#[derive(Debug)]
pub struct Pair {
    pub chain_id: String,
    pub pair_address: String,
    pub base_token: Token,
    pub price_usd: String,
    pub volume: Volume,
    pub liquidity: Liquidity,
    pub fdv: i64,
    pub market_cap: i64,
    pub pair_created_at: i64,
}

/// The decentralized-exchange provider's whole response.
#[derive(Debug)]
pub struct DexData {
    pub schema_version: String,
    pub pairs: Vec<Pair>,
}

/// One asset's record from the market-data aggregator, as JSON number text.
#[derive(Debug)]
pub struct CoinPrice {
    pub usd: String,
    pub usd_market_cap: String,
    pub usd_24h_vol: String,
    pub usd_24h_change: String,
}

/// The market-data aggregator's response: one record per fixed asset.
#[derive(Debug)]
pub struct CoinGeckoData {
    pub bitcoin: CoinPrice,
    pub ethereum: CoinPrice,
}

// ---------------------------------------------------------------------------
// Decoding, stated first as spec functions. A shape decodes only when the
// object binds exactly the expected fields, each of the expected kind.
// ---------------------------------------------------------------------------

/// How `j` decodes as a base-token descriptor, if it does.
pub open spec fn spec_token(j: Json) -> Option<Token> {
    match j {
        Json::Obj(fields) => if fields@.len() == 3 {
            match (get(j, "address"@), get(j, "name"@), get(j, "symbol"@)) {
                (
                    Some(Json::Str(address)),
                    Some(Json::Str(name)),
                    Some(Json::Str(symbol)),
                ) => Some(Token { address, name, symbol }),
                _ => None,
            }
        } else {
            None
        },
        _ => None,
    }
}

/// How `j` decodes as a volume record, if it does.
pub open spec fn spec_volume(j: Json) -> Option<Volume> {
    match j {
        Json::Obj(fields) => if fields@.len() == 4 {
            match (get(j, "h24"@), get(j, "h6"@), get(j, "h1"@), get(j, "m5"@)) {
                (
                    Some(Json::Num(h24, _)),
                    Some(Json::Num(h6, _)),
                    Some(Json::Num(h1, _)),
                    Some(Json::Num(m5, _)),
                ) => Some(Volume { h24, h6, h1, m5 }),
                _ => None,
            }
        } else {
            None
        },
        _ => None,
    }
}

/// How `j` decodes as a liquidity record, if it does.
pub open spec fn spec_liquidity(j: Json) -> Option<Liquidity> {
    match j {
        Json::Obj(fields) => if fields@.len() == 3 {
            match (get(j, "usd"@), get(j, "base"@), get(j, "quote"@)) {
                (
                    Some(Json::Num(usd, _)),
                    Some(Json::Num(base, _)),
                    Some(Json::Num(quote, _)),
                ) => Some(Liquidity { usd, base, quote }),
                _ => None,
            }
        } else {
            None
        },
        _ => None,
    }
}

/// How `j` decodes as a trading pair, if it does.
pub open spec fn spec_pair(j: Json) -> Option<Pair> {
    match j {
        Json::Obj(fields) => if fields@.len() == 9 {
            match (
                get(j, "chain_id"@),
                get(j, "pair_address"@),
                get(j, "base_token"@),
                get(j, "price_usd"@),
                get(j, "volume"@),
                get(j, "liquidity"@),
                get(j, "fdv"@),
                get(j, "market_cap"@),
                get(j, "pair_created_at"@),
            ) {
                (
                    Some(Json::Str(chain_id)),
                    Some(Json::Str(pair_address)),
                    Some(bt),
                    Some(Json::Str(price_usd)),
                    Some(vo),
                    Some(li),
                    Some(Json::Num(_, Some(fdv))),
                    Some(Json::Num(_, Some(market_cap))),
                    Some(Json::Num(_, Some(pair_created_at))),
                ) => match (spec_token(bt), spec_volume(vo), spec_liquidity(li)) {
                    (Some(base_token), Some(volume), Some(liquidity)) => Some(
                        Pair {
                            chain_id,
                            pair_address,
                            base_token,
                            price_usd,
                            volume,
                            liquidity,
                            fdv,
                            market_cap,
                            pair_created_at,
                        },
                    ),
                    _ => None,
                },
                _ => None,
            }
        } else {
            None
        },
        _ => None,
    }
}

/// Whether every element of `items` decodes as a trading pair.
pub open spec fn pairs_all_ok(items: Seq<Json>) -> bool {
    forall|i: int| 0 <= i < items.len() ==> spec_pair(#[trigger] items[i]) is Some
}

/// Whether `j` decodes as the decentralized-exchange response.
pub open spec fn spec_dex_wf(j: Json) -> bool {
    match j {
        Json::Obj(fields) => fields@.len() == 2 && (get(j, "schema_version"@) matches Some(
            Json::Str(_),
        )) && (get(j, "pairs"@) matches Some(Json::Arr(items)) && pairs_all_ok(items@)),
        _ => false,
    }
}

/// The schema-version text of a well-formed decentralized-exchange response.
pub open spec fn dex_schema_version(j: Json) -> String {
    match get(j, "schema_version"@) {
        Some(Json::Str(s)) => s,
        _ => arbitrary(),
    }
}

/// The raw pair documents of a well-formed decentralized-exchange response.
pub open spec fn dex_pairs_json(j: Json) -> Seq<Json> {
    match get(j, "pairs"@) {
        Some(Json::Arr(items)) => items@,
        _ => arbitrary(),
    }
}

/// How `j` decodes as one asset's market-data record, if it does.
pub open spec fn spec_coin_price(j: Json) -> Option<CoinPrice> {
    match j {
        Json::Obj(fields) => if fields@.len() == 4 {
            match (
                get(j, "usd"@),
                get(j, "usd_market_cap"@),
                get(j, "usd_24h_vol"@),
                get(j, "usd_24h_change"@),
            ) {
                (
                    Some(Json::Num(usd, _)),
                    Some(Json::Num(usd_market_cap, _)),
                    Some(Json::Num(usd_24h_vol, _)),
                    Some(Json::Num(usd_24h_change, _)),
                ) => Some(CoinPrice { usd, usd_market_cap, usd_24h_vol, usd_24h_change }),
                _ => None,
            }
        } else {
            None
        },
        _ => None,
    }
}

/// How `j` decodes as the market-data aggregator's response, if it does.
pub open spec fn spec_gecko(j: Json) -> Option<CoinGeckoData> {
    match j {
        Json::Obj(fields) => if fields@.len() == 2 {
            match (get(j, "bitcoin"@), get(j, "ethereum"@)) {
                (Some(b), Some(e)) => match (spec_coin_price(b), spec_coin_price(e)) {
                    (Some(bitcoin), Some(ethereum)) => Some(
                        CoinGeckoData { bitcoin, ethereum },
                    ),
                    _ => None,
                },
                _ => None,
            }
        } else {
            None
        },
        _ => None,
    }
}

// ---------------------------------------------------------------------------
// The loosely-typed secondary provider: fields are pulled out by path, and a
// missing or non-numeric leaf defaults to zero instead of failing.
// ---------------------------------------------------------------------------

/// The child of `j` under `key`, with `Null` standing in where `j` is not an
/// object or does not bind the key.
pub open spec fn child(j: Json, key: Seq<char>) -> Json {
    match get(j, key) {
        Some(v) => v,
        None => Json::Null,
    }
}

/// The number text bound to `key` in `j`, or `"0"` where there is none.
pub open spec fn num_text_or_zero(j: Json, key: Seq<char>) -> Seq<char> {
    match get(j, key) {
        Some(Json::Num(t, _)) => t@,
        _ => "0"@,
    }
}

/// The node of the secondary provider's response that holds the quoted
/// figures for the one asset against the one quote currency.
pub open spec fn cc_usd_node(j: Json) -> Json {
    child(child(child(j, "RAW"@), "BTC"@), "USD"@)
}

/// The circulating-supply figure of the secondary provider's response.
pub open spec fn cc_supply(j: Json) -> Seq<char> {
    num_text_or_zero(cc_usd_node(j), "SUPPLY"@)
}

/// The market-cap figure of the secondary provider's response.
pub open spec fn cc_market_cap(j: Json) -> Seq<char> {
    num_text_or_zero(cc_usd_node(j), "MKTCAP"@)
}

// ---------------------------------------------------------------------------
// Executable decoders, each pinned to its spec function.
// ---------------------------------------------------------------------------

/// Decode a base-token descriptor.
pub fn decode_token(j: &Json) -> (r: Option<Token>)
    ensures
        r == spec_token(*j),
{
    match j {
        Json::Obj(fields) => {
            if fields.len() != 3 {
                return None;
            }
        },
        _ => {
            return None;
        },
    }
    let address = match j.get_field("address") {
        Some(Json::Str(s)) => s.clone(),
        _ => {
            return None;
        },
    };
    let name = match j.get_field("name") {
        Some(Json::Str(s)) => s.clone(),
        _ => {
            return None;
        },
    };
    let symbol = match j.get_field("symbol") {
        Some(Json::Str(s)) => s.clone(),
        _ => {
            return None;
        },
    };
    Some(Token { address, name, symbol })
}

/// Decode a volume record.
pub fn decode_volume(j: &Json) -> (r: Option<Volume>)
    ensures
        r == spec_volume(*j),
{
    match j {
        Json::Obj(fields) => {
            if fields.len() != 4 {
                return None;
            }
        },
        _ => {
            return None;
        },
    }
    let h24 = match j.get_field("h24") {
        Some(Json::Num(t, _)) => t.clone(),
        _ => {
            return None;
        },
    };
    let h6 = match j.get_field("h6") {
        Some(Json::Num(t, _)) => t.clone(),
        _ => {
            return None;
        },
    };
    let h1 = match j.get_field("h1") {
        Some(Json::Num(t, _)) => t.clone(),
        _ => {
            return None;
        },
    };
    let m5 = match j.get_field("m5") {
        Some(Json::Num(t, _)) => t.clone(),
        _ => {
            return None;
        },
    };
    Some(Volume { h24, h6, h1, m5 })
}

/// Decode a liquidity record.
pub fn decode_liquidity(j: &Json) -> (r: Option<Liquidity>)
    ensures
        r == spec_liquidity(*j),
{
    match j {
        Json::Obj(fields) => {
            if fields.len() != 3 {
                return None;
            }
        },
        _ => {
            return None;
        },
    }
    let usd = match j.get_field("usd") {
        Some(Json::Num(t, _)) => t.clone(),
        _ => {
            return None;
        },
    };
    let base = match j.get_field("base") {
        Some(Json::Num(t, _)) => t.clone(),
        _ => {
            return None;
        },
    };
    let quote = match j.get_field("quote") {
        Some(Json::Num(t, _)) => t.clone(),
        _ => {
            return None;
        },
    };
    Some(Liquidity { usd, base, quote })
}

/// Decode one trading pair.
pub fn decode_pair(j: &Json) -> (r: Option<Pair>)
    ensures
        r == spec_pair(*j),
{
    match j {
        Json::Obj(fields) => {
            if fields.len() != 9 {
                return None;
            }
        },
        _ => {
            return None;
        },
    }
    let chain_id = match j.get_field("chain_id") {
        Some(Json::Str(s)) => s.clone(),
        _ => {
            return None;
        },
    };
    let pair_address = match j.get_field("pair_address") {
        Some(Json::Str(s)) => s.clone(),
        _ => {
            return None;
        },
    };
    let base_token = match j.get_field("base_token") {
        Some(bt) => match decode_token(bt) {
            Some(t) => t,
            None => {
                return None;
            },
        },
        None => {
            return None;
        },
    };
    let price_usd = match j.get_field("price_usd") {
        Some(Json::Str(s)) => s.clone(),
        _ => {
            return None;
        },
    };
    let volume = match j.get_field("volume") {
        Some(vo) => match decode_volume(vo) {
            Some(v) => v,
            None => {
                return None;
            },
        },
        None => {
            return None;
        },
    };
    let liquidity = match j.get_field("liquidity") {
        Some(li) => match decode_liquidity(li) {
            Some(l) => l,
            None => {
                return None;
            },
        },
        None => {
            return None;
        },
    };
    let fdv = match j.get_field("fdv") {
        Some(Json::Num(_, Some(v))) => *v,
        _ => {
            return None;
        },
    };
    let market_cap = match j.get_field("market_cap") {
        Some(Json::Num(_, Some(v))) => *v,
        _ => {
            return None;
        },
    };
    let pair_created_at = match j.get_field("pair_created_at") {
        Some(Json::Num(_, Some(v))) => *v,
        _ => {
            return None;
        },
    };
    Some(
        Pair {
            chain_id,
            pair_address,
            base_token,
            price_usd,
            volume,
            liquidity,
            fdv,
            market_cap,
            pair_created_at,
        },
    )
}

/// Decode the decentralized-exchange response: its schema version and every
/// pair in order.
pub fn decode_dex(j: &Json) -> (r: Option<DexData>)
    ensures
        r is Some <==> spec_dex_wf(*j),
        r matches Some(d) ==> {
            &&& d.schema_version == dex_schema_version(*j)
            &&& d.pairs@.len() == dex_pairs_json(*j).len()
            &&& forall|i: int|
                0 <= i < d.pairs@.len() ==> d.pairs@[i] == spec_pair(
                    #[trigger] dex_pairs_json(*j)[i],
                ).unwrap()
        },
{
    match j {
        Json::Obj(fields) => {
            if fields.len() != 2 {
                return None;
            }
        },
        _ => {
            return None;
        },
    }
    let schema_version = match j.get_field("schema_version") {
        Some(Json::Str(s)) => s.clone(),
        _ => {
            return None;
        },
    };
    let items = match j.get_field("pairs") {
        Some(Json::Arr(items)) => items,
        _ => {
            return None;
        },
    };
    let mut pairs: Vec<Pair> = Vec::new();
    let mut i: usize = 0;
    while i < items.len()
        invariant
            i <= items@.len(),
            pairs@.len() == i,
            dex_pairs_json(*j) == items@,
            forall|k: int|
                0 <= k < i ==> spec_pair(#[trigger] items@[k]) is Some && pairs@[k]
                    == spec_pair(items@[k]).unwrap(),
        decreases items@.len() - i,
    {
        match decode_pair(&items[i]) {
            Some(p) => pairs.push(p),
            None => {
                return None;
            },
        }
        i = i + 1;
    }
    Some(DexData { schema_version, pairs })
}

/// Decode one asset's market-data record.
pub fn decode_coin_price(j: &Json) -> (r: Option<CoinPrice>)
    ensures
        r == spec_coin_price(*j),
{
    match j {
        Json::Obj(fields) => {
            if fields.len() != 4 {
                return None;
            }
        },
        _ => {
            return None;
        },
    }
    let usd = match j.get_field("usd") {
        Some(Json::Num(t, _)) => t.clone(),
        _ => {
            return None;
        },
    };
    let usd_market_cap = match j.get_field("usd_market_cap") {
        Some(Json::Num(t, _)) => t.clone(),
        _ => {
            return None;
        },
    };
    let usd_24h_vol = match j.get_field("usd_24h_vol") {
        Some(Json::Num(t, _)) => t.clone(),
        _ => {
            return None;
        },
    };
    let usd_24h_change = match j.get_field("usd_24h_change") {
        Some(Json::Num(t, _)) => t.clone(),
        _ => {
            return None;
        },
    };
    Some(CoinPrice { usd, usd_market_cap, usd_24h_vol, usd_24h_change })
}

/// Decode the market-data aggregator's response.
pub fn decode_gecko(j: &Json) -> (r: Option<CoinGeckoData>)
    ensures
        r == spec_gecko(*j),
{
    match j {
        Json::Obj(fields) => {
            if fields.len() != 2 {
                return None;
            }
        },
        _ => {
            return None;
        },
    }
    let bitcoin = match j.get_field("bitcoin") {
        Some(b) => match decode_coin_price(b) {
            Some(p) => p,
            None => {
                return None;
            },
        },
        None => {
            return None;
        },
    };
    let ethereum = match j.get_field("ethereum") {
        Some(e) => match decode_coin_price(e) {
            Some(p) => p,
            None => {
                return None;
            },
        },
        None => {
            return None;
        },
    };
    Some(CoinGeckoData { bitcoin, ethereum })
}

/// One step down the secondary provider's tree: `None` stands for a node
/// that is missing or `Null`.
fn step<'a>(cur: Option<&'a Json>, key: &str) -> (r: Option<&'a Json>)
    ensures
        node(r) == child(node(cur), key@),
{
    match cur {
        Some(v) => v.get_field(key),
        None => None,
    }
}

/// The document a traversal cursor stands for.
pub open spec fn node(o: Option<&Json>) -> Json {
    match o {
        Some(v) => *v,
        None => Json::Null,
    }
}

/// The number text bound to `key` under the cursor, or `"0"`.
fn num_field_or_zero(cur: Option<&Json>, key: &str) -> (r: String)
    ensures
        r@ == num_text_or_zero(node(cur), key@),
{
    match cur {
        Some(v) => match v.get_field(key) {
            Some(Json::Num(t, _)) => t.clone(),
            _ => "0".to_owned(),
        },
        None => "0".to_owned(),
    }
}

/// Pull the circulating supply and the market cap out of the secondary
/// provider's response, each defaulting to `"0"` where the field is missing
/// or not a number.
pub fn extract_cc(j: &Json) -> (r: (String, String))
    ensures
        r.0@ == cc_supply(*j),
        r.1@ == cc_market_cap(*j),
{
    let raw = j.get_field("RAW");
    let btc = step(raw, "BTC");
    let usd = step(btc, "USD");
    let supply = num_field_or_zero(usd, "SUPPLY");
    let market_cap = num_field_or_zero(usd, "MKTCAP");
    (supply, market_cap)
}

} // verus!
