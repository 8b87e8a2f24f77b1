use vstd::prelude::*;

use crate::aggregate::{
    cc_body_ok, dex_body_ok, dex_pair_count, expected_err, gecko_body_ok, outcome_stage, AggError,
    Fetched,
};
use crate::json::{get, Json};
use crate::providers::{cc_market_cap, cc_supply, cc_usd_node};

verus! {

/// Law: when every upstream call hands a body over, the first two bodies
/// decode as their providers' shapes, the third parses as JSON, and the
/// pair sequence is not empty, aggregation reaches `Success`.
pub proof fn lemma_all_ok_succeeds(dex: Fetched, gecko: Fetched, cc: Fetched)
    requires
        dex matches Fetched::Body(db) && dex_body_ok(db@) && dex_pair_count(db@) > 0,
        gecko matches Fetched::Body(gb) && gecko_body_ok(gb@),
        cc matches Fetched::Body(cb) && cc_body_ok(cb@),
    ensures
        outcome_stage(dex, gecko, cc) is Success,
{
}

/// Law: a decentralized-exchange body whose pair sequence is empty is
/// reported as the no-pairs failure, whatever the sequence would have held,
/// provided the other two providers' bodies arrived and decode.
pub proof fn lemma_empty_pairs_rejected(dex: Fetched, gecko: Fetched, cc: Fetched)
    requires
        dex matches Fetched::Body(db) && dex_body_ok(db@) && dex_pair_count(db@) == 0,
        gecko matches Fetched::Body(gb) && gecko_body_ok(gb@),
        cc matches Fetched::Body(cb) && cc_body_ok(cb@),
    ensures
        outcome_stage(dex, gecko, cc) is NoPairs,
        expected_err(dex, gecko, cc) is NoPairs,
{
}

/// Law: a transport failure aborts the whole aggregation — the stage is
/// never `Success`, so no partial record is returned — and the first
/// failing provider in the fixed order is the one the error names, with
/// the transport error's own text carried along.
pub proof fn lemma_transport_failure_reported(dex: Fetched, gecko: Fetched, cc: Fetched)
    requires
        dex is Transport || gecko is Transport || cc is Transport,
    ensures
        !(outcome_stage(dex, gecko, cc) is Success),
        dex matches Fetched::Transport(e) ==> expected_err(dex, gecko, cc)
            == AggError::DexTransport(e),
        (dex is Body && dex_body_ok(dex->Body_0@) && gecko is Transport) ==> expected_err(
            dex,
            gecko,
            cc,
        ) == AggError::GeckoTransport(gecko->Transport_0),
        (dex is Body && dex_body_ok(dex->Body_0@) && gecko is Body && gecko_body_ok(
            gecko->Body_0@,
        ) && cc is Transport) ==> expected_err(dex, gecko, cc) == AggError::CcTransport(
            cc->Transport_0,
        ),
        dex is Transport ==> expected_err(dex, gecko, cc).spec_message()
            == "Desxcreener result failed: "@ + dex->Transport_0@,
        (dex is Body && dex_body_ok(dex->Body_0@) && gecko is Transport) ==> expected_err(
            dex,
            gecko,
            cc,
        ).spec_message() == "CoinGecko request failed: "@ + gecko->Transport_0@,
        (dex is Body && dex_body_ok(dex->Body_0@) && gecko is Body && gecko_body_ok(
            gecko->Body_0@,
        ) && cc is Transport) ==> expected_err(dex, gecko, cc).spec_message()
            == "CryptoCompare request failed: "@ + cc->Transport_0@,
{
}

/// Law: where the secondary provider's record omits the supply or the
/// market-cap field, the extracted figure is the zero text, not an error.
pub proof fn lemma_cc_missing_fields_default(j: Json)
    ensures
        get(cc_usd_node(j), "SUPPLY"@) is None ==> cc_supply(j) == "0"@,
        get(cc_usd_node(j), "MKTCAP"@) is None ==> cc_market_cap(j) == "0"@,
{
}

} // verus!
