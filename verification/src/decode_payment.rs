//! Decoding of payment-related reply bodies: routes, hops, payment records
//! and payment listings.

use vstd::prelude::*;

use crate::decode::{opt_str, req_bool, req_i64, req_str, req_u32};
use crate::jmodel::{bool_field, int_field, obj_field, opt_field, opt_str_field, str_field, JVal};
use crate::jwrap::{jas_array, jas_str, jget, jis_null, jmodel, jobj_entries};
use crate::strutil::str_eq;
use crate::types::{
    AmpRecord, Failure, FailureCode, HTLCAttempt, HTLCStatus, Hop, ListPaymentsResponse,
    MppRecord, Payment, PaymentFailureReason, PaymentStatus, Route, SendPaymentSyncResponse,
};
use crate::types::ChannelUpdate;

verus! {

/// The payment status named by a string, as the remote API spells it.
pub open spec fn payment_status_of(s: Seq<char>) -> Option<PaymentStatus> {
    if s == "UNKNOWN"@ {
        Some(PaymentStatus::UNKNOWN)
    } else if s == "IN_FLIGHT"@ {
        Some(PaymentStatus::IN_FLIGHT)
    } else if s == "SUCCEEDED"@ {
        Some(PaymentStatus::SUCCEEDED)
    } else if s == "FAILED"@ {
        Some(PaymentStatus::FAILED)
    } else {
        None
    }
}

/// Parse a payment status name; an unrecognized name is rejected.
pub fn parse_payment_status(s: &str) -> (r: Option<PaymentStatus>)
    ensures
        r == payment_status_of(s@),
{
    if str_eq(s, "UNKNOWN") {
        Some(PaymentStatus::UNKNOWN)
    } else if str_eq(s, "IN_FLIGHT") {
        Some(PaymentStatus::IN_FLIGHT)
    } else if str_eq(s, "SUCCEEDED") {
        Some(PaymentStatus::SUCCEEDED)
    } else if str_eq(s, "FAILED") {
        Some(PaymentStatus::FAILED)
    } else {
        None
    }
}

/// The payment failure reason named by a string.
pub open spec fn payment_failure_reason_of(s: Seq<char>) -> Option<PaymentFailureReason> {
    if s == "FAILURE_REASON_NONE"@ {
        Some(PaymentFailureReason::FAILURE_REASON_NONE)
    } else if s == "FAILURE_REASON_TIMEOUT"@ {
        Some(PaymentFailureReason::FAILURE_REASON_TIMEOUT)
    } else if s == "FAILURE_REASON_NO_ROUTE"@ {
        Some(PaymentFailureReason::FAILURE_REASON_NO_ROUTE)
    } else if s == "FAILURE_REASON_ERROR"@ {
        Some(PaymentFailureReason::FAILURE_REASON_ERROR)
    } else if s == "FAILURE_REASON_INCORRECT_PAYMENT_DETAILS"@ {
        Some(PaymentFailureReason::FAILURE_REASON_INCORRECT_PAYMENT_DETAILS)
    } else if s == "FAILURE_REASON_INSUFFICIENT_BALANCE"@ {
        Some(PaymentFailureReason::FAILURE_REASON_INSUFFICIENT_BALANCE)
    } else {
        None
    }
}

/// Parse a payment failure reason name; an unrecognized name is rejected.
pub fn parse_payment_failure_reason(s: &str) -> (r: Option<PaymentFailureReason>)
    ensures
        r == payment_failure_reason_of(s@),
{
    if str_eq(s, "FAILURE_REASON_NONE") {
        Some(PaymentFailureReason::FAILURE_REASON_NONE)
    } else if str_eq(s, "FAILURE_REASON_TIMEOUT") {
        Some(PaymentFailureReason::FAILURE_REASON_TIMEOUT)
    } else if str_eq(s, "FAILURE_REASON_NO_ROUTE") {
        Some(PaymentFailureReason::FAILURE_REASON_NO_ROUTE)
    } else if str_eq(s, "FAILURE_REASON_ERROR") {
        Some(PaymentFailureReason::FAILURE_REASON_ERROR)
    } else if str_eq(s, "FAILURE_REASON_INCORRECT_PAYMENT_DETAILS") {
        Some(PaymentFailureReason::FAILURE_REASON_INCORRECT_PAYMENT_DETAILS)
    } else if str_eq(s, "FAILURE_REASON_INSUFFICIENT_BALANCE") {
        Some(PaymentFailureReason::FAILURE_REASON_INSUFFICIENT_BALANCE)
    } else {
        None
    }
}

/// The HTLC status named by a string.
pub open spec fn htlc_status_of(s: Seq<char>) -> Option<HTLCStatus> {
    if s == "IN_FLIGHT"@ {
        Some(HTLCStatus::IN_FLIGHT)
    } else if s == "SUCCEEDED"@ {
        Some(HTLCStatus::SUCCEEDED)
    } else if s == "FAILED"@ {
        Some(HTLCStatus::FAILED)
    } else {
        None
    }
}

/// Parse an HTLC status name; an unrecognized name is rejected.
pub fn parse_htlc_status(s: &str) -> (r: Option<HTLCStatus>)
    ensures
        r == htlc_status_of(s@),
{
    if str_eq(s, "IN_FLIGHT") {
        Some(HTLCStatus::IN_FLIGHT)
    } else if str_eq(s, "SUCCEEDED") {
        Some(HTLCStatus::SUCCEEDED)
    } else if str_eq(s, "FAILED") {
        Some(HTLCStatus::FAILED)
    } else {
        None
    }
}

/// The wire-level failure code named by a string.
pub open spec fn failure_code_of(s: Seq<char>) -> Option<FailureCode> {
    if s == "RESERVED"@ {
        Some(FailureCode::RESERVED)
    } else if s == "INCORRECT_OR_UNKNOWN_PAYMENT_DETAILS"@ {
        Some(FailureCode::INCORRECT_OR_UNKNOWN_PAYMENT_DETAILS)
    } else if s == "INCORRECT_PAYMENT_AMOUNT"@ {
        Some(FailureCode::INCORRECT_PAYMENT_AMOUNT)
    } else if s == "FINAL_INCORRECT_CLTV_EXPIRY"@ {
        Some(FailureCode::FINAL_INCORRECT_CLTV_EXPIRY)
    } else if s == "FINAL_INCORRECT_HTLC_AMOUNT"@ {
        Some(FailureCode::FINAL_INCORRECT_HTLC_AMOUNT)
    } else if s == "FINAL_EXPIRY_TOO_SOON"@ {
        Some(FailureCode::FINAL_EXPIRY_TOO_SOON)
    } else if s == "INVALID_REALM"@ {
        Some(FailureCode::INVALID_REALM)
    } else if s == "EXPIRY_TOO_SOON"@ {
        Some(FailureCode::EXPIRY_TOO_SOON)
    } else if s == "INVALID_ONION_VERSION"@ {
        Some(FailureCode::INVALID_ONION_VERSION)
    } else if s == "INVALID_ONION_HMAC"@ {
        Some(FailureCode::INVALID_ONION_HMAC)
    } else if s == "INVALID_ONION_KEY"@ {
        Some(FailureCode::INVALID_ONION_KEY)
    } else if s == "AMOUNT_BELOW_MINIMUM"@ {
        Some(FailureCode::AMOUNT_BELOW_MINIMUM)
    } else if s == "FEE_INSUFFICIENT"@ {
        Some(FailureCode::FEE_INSUFFICIENT)
    } else if s == "INCORRECT_CLTV_EXPIRY"@ {
        Some(FailureCode::INCORRECT_CLTV_EXPIRY)
    } else if s == "CHANNEL_DISABLED"@ {
        Some(FailureCode::CHANNEL_DISABLED)
    } else if s == "TEMPORARY_CHANNEL_FAILURE"@ {
        Some(FailureCode::TEMPORARY_CHANNEL_FAILURE)
    } else if s == "REQUIRED_NODE_FEATURE_MISSING"@ {
        Some(FailureCode::REQUIRED_NODE_FEATURE_MISSING)
    } else if s == "REQUIRED_CHANNEL_FEATURE_MISSING"@ {
        Some(FailureCode::REQUIRED_CHANNEL_FEATURE_MISSING)
    } else if s == "UNKNOWN_NEXT_PEER"@ {
        Some(FailureCode::UNKNOWN_NEXT_PEER)
    } else if s == "TEMPORARY_NODE_FAILURE"@ {
        Some(FailureCode::TEMPORARY_NODE_FAILURE)
    } else if s == "PERMANENT_NODE_FAILURE"@ {
        Some(FailureCode::PERMANENT_NODE_FAILURE)
    } else if s == "PERMANENT_CHANNEL_FAILURE"@ {
        Some(FailureCode::PERMANENT_CHANNEL_FAILURE)
    } else if s == "EXPIRY_TOO_FAR"@ {
        Some(FailureCode::EXPIRY_TOO_FAR)
    } else if s == "MPP_TIMEOUT"@ {
        Some(FailureCode::MPP_TIMEOUT)
    } else if s == "INVALID_ONION_PAYLOAD"@ {
        Some(FailureCode::INVALID_ONION_PAYLOAD)
    } else if s == "INTERNAL_FAILURE"@ {
        Some(FailureCode::INTERNAL_FAILURE)
    } else if s == "UNKNOWN_FAILURE"@ {
        Some(FailureCode::UNKNOWN_FAILURE)
    } else if s == "UNREADABLE_FAILURE"@ {
        Some(FailureCode::UNREADABLE_FAILURE)
    } else {
        None
    }
}

/// Parse a failure code name; an unrecognized name is rejected.
pub fn parse_failure_code(s: &str) -> (r: Option<FailureCode>)
    ensures
        r == failure_code_of(s@),
{
    if str_eq(s, "RESERVED") {
        Some(FailureCode::RESERVED)
    } else if str_eq(s, "INCORRECT_OR_UNKNOWN_PAYMENT_DETAILS") {
        Some(FailureCode::INCORRECT_OR_UNKNOWN_PAYMENT_DETAILS)
    } else if str_eq(s, "INCORRECT_PAYMENT_AMOUNT") {
        Some(FailureCode::INCORRECT_PAYMENT_AMOUNT)
    } else if str_eq(s, "FINAL_INCORRECT_CLTV_EXPIRY") {
        Some(FailureCode::FINAL_INCORRECT_CLTV_EXPIRY)
    } else if str_eq(s, "FINAL_INCORRECT_HTLC_AMOUNT") {
        Some(FailureCode::FINAL_INCORRECT_HTLC_AMOUNT)
    } else if str_eq(s, "FINAL_EXPIRY_TOO_SOON") {
        Some(FailureCode::FINAL_EXPIRY_TOO_SOON)
    } else if str_eq(s, "INVALID_REALM") {
        Some(FailureCode::INVALID_REALM)
    } else if str_eq(s, "EXPIRY_TOO_SOON") {
        Some(FailureCode::EXPIRY_TOO_SOON)
    } else if str_eq(s, "INVALID_ONION_VERSION") {
        Some(FailureCode::INVALID_ONION_VERSION)
    } else if str_eq(s, "INVALID_ONION_HMAC") {
        Some(FailureCode::INVALID_ONION_HMAC)
    } else if str_eq(s, "INVALID_ONION_KEY") {
        Some(FailureCode::INVALID_ONION_KEY)
    } else if str_eq(s, "AMOUNT_BELOW_MINIMUM") {
        Some(FailureCode::AMOUNT_BELOW_MINIMUM)
    } else if str_eq(s, "FEE_INSUFFICIENT") {
        Some(FailureCode::FEE_INSUFFICIENT)
    } else if str_eq(s, "INCORRECT_CLTV_EXPIRY") {
        Some(FailureCode::INCORRECT_CLTV_EXPIRY)
    } else if str_eq(s, "CHANNEL_DISABLED") {
        Some(FailureCode::CHANNEL_DISABLED)
    } else if str_eq(s, "TEMPORARY_CHANNEL_FAILURE") {
        Some(FailureCode::TEMPORARY_CHANNEL_FAILURE)
    } else if str_eq(s, "REQUIRED_NODE_FEATURE_MISSING") {
        Some(FailureCode::REQUIRED_NODE_FEATURE_MISSING)
    } else if str_eq(s, "REQUIRED_CHANNEL_FEATURE_MISSING") {
        Some(FailureCode::REQUIRED_CHANNEL_FEATURE_MISSING)
    } else if str_eq(s, "UNKNOWN_NEXT_PEER") {
        Some(FailureCode::UNKNOWN_NEXT_PEER)
    } else if str_eq(s, "TEMPORARY_NODE_FAILURE") {
        Some(FailureCode::TEMPORARY_NODE_FAILURE)
    } else if str_eq(s, "PERMANENT_NODE_FAILURE") {
        Some(FailureCode::PERMANENT_NODE_FAILURE)
    } else if str_eq(s, "PERMANENT_CHANNEL_FAILURE") {
        Some(FailureCode::PERMANENT_CHANNEL_FAILURE)
    } else if str_eq(s, "EXPIRY_TOO_FAR") {
        Some(FailureCode::EXPIRY_TOO_FAR)
    } else if str_eq(s, "MPP_TIMEOUT") {
        Some(FailureCode::MPP_TIMEOUT)
    } else if str_eq(s, "INVALID_ONION_PAYLOAD") {
        Some(FailureCode::INVALID_ONION_PAYLOAD)
    } else if str_eq(s, "INTERNAL_FAILURE") {
        Some(FailureCode::INTERNAL_FAILURE)
    } else if str_eq(s, "UNKNOWN_FAILURE") {
        Some(FailureCode::UNKNOWN_FAILURE)
    } else if str_eq(s, "UNREADABLE_FAILURE") {
        Some(FailureCode::UNREADABLE_FAILURE)
    } else {
        None
    }
}

/// A well-formed multi-path auxiliary record.
pub open spec fn mpp_record_valid(j: JVal) -> bool {
    &&& str_field(j, "payment_addr"@) is Some
    &&& str_field(j, "total_amt_msat"@) is Some
}

/// The record a multi-path auxiliary object decodes to.
pub open spec fn mpp_record_rel(j: JVal, v: MppRecord) -> bool {
    &&& str_field(j, "payment_addr"@) == Some(v.payment_addr@)
    &&& str_field(j, "total_amt_msat"@) == Some(v.total_amt_msat@)
}

/// Decode a multi-path auxiliary record.
pub fn decode_mpp_record(v: &serde_json::Value) -> (r: Option<MppRecord>)
    ensures
        r is Some <==> mpp_record_valid(jmodel(*v)),
        r matches Some(m) ==> mpp_record_rel(jmodel(*v), m),
{
    let payment_addr = match req_str(v, "payment_addr") {
        Some(s) => s,
        None => {
            return None;
        },
    };
    let total_amt_msat = match req_str(v, "total_amt_msat") {
        Some(s) => s,
        None => {
            return None;
        },
    };
    Some(MppRecord { payment_addr, total_amt_msat })
}

/// A well-formed atomic multi-path auxiliary record.
pub open spec fn amp_record_valid(j: JVal) -> bool {
    &&& str_field(j, "root_share"@) is Some
    &&& str_field(j, "set_id"@) is Some
    &&& (int_field(j, "child_index"@) matches Some(n) && i64::MIN <= n <= i64::MAX)
}

/// The record an atomic multi-path auxiliary object decodes to.
pub open spec fn amp_record_rel(j: JVal, v: AmpRecord) -> bool {
    &&& str_field(j, "root_share"@) == Some(v.root_share@)
    &&& str_field(j, "set_id"@) == Some(v.set_id@)
    &&& int_field(j, "child_index"@) == Some(v.child_index as int)
}

/// Decode an atomic multi-path auxiliary record.
pub fn decode_amp_record(v: &serde_json::Value) -> (r: Option<AmpRecord>)
    ensures
        r is Some <==> amp_record_valid(jmodel(*v)),
        r matches Some(m) ==> amp_record_rel(jmodel(*v), m),
{
    let root_share = match req_str(v, "root_share") {
        Some(s) => s,
        None => {
            return None;
        },
    };
    let set_id = match req_str(v, "set_id") {
        Some(s) => s,
        None => {
            return None;
        },
    };
    let child_index = match req_i64(v, "child_index") {
        Some(n) => n,
        None => {
            return None;
        },
    };
    Some(AmpRecord { root_share, set_id, child_index })
}

/// A well-formed custom-records object: every value a string.
pub open spec fn custom_records_valid(j: JVal) -> bool {
    &&& j is Obj
    &&& forall|k: Seq<char>| #[trigger] j->Obj_0.contains_key(k) ==> j->Obj_0[k] is Str
}

/// The entry list a custom-records object decodes to: each key once, bound
/// to its string value, keys pairwise distinct, every key covered.
pub open spec fn custom_records_rel(j: JVal, es: Seq<(String, String)>) -> bool {
    &&& j is Obj
    &&& forall|i: int|
        0 <= i < es.len() ==> j->Obj_0.contains_key(#[trigger] es[i].0@) && j->Obj_0[es[i].0@]
            == JVal::Str(es[i].1@)
    &&& forall|i: int, l: int| 0 <= i < l < es.len() ==> es[i].0@ != es[l].0@
    &&& forall|k: Seq<char>|
        #[trigger] j->Obj_0.contains_key(k) ==> exists|i: int|
            0 <= i < es.len() && es[i].0@ == k
}

/// Decode a custom-records object into its entry list.
pub fn decode_custom_records(v: &serde_json::Value) -> (r: Option<Vec<(String, String)>>)
    ensures
        r is Some <==> custom_records_valid(jmodel(*v)),
        r matches Some(es) ==> custom_records_rel(jmodel(*v), es@),
{
    let entries = match jobj_entries(v) {
        Some(es) => es,
        None => {
            return None;
        },
    };
    let ghost jm = jmodel(*v);
    let mut out: Vec<(String, String)> = Vec::new();
    let mut i: usize = 0;
    while i < entries.len()
        invariant
            jm == jmodel(*v),
            jm is Obj,
            forall|l: int|
                0 <= l < entries@.len() ==> jm->Obj_0.contains_key(#[trigger] entries@[l].0@)
                    && jmodel(entries@[l].1) == jm->Obj_0[entries@[l].0@],
            forall|l: int, m: int|
                0 <= l < m < entries@.len() ==> entries@[l].0@ != entries@[m].0@,
            forall|k: Seq<char>|
                #[trigger] jm->Obj_0.contains_key(k) ==> exists|l: int|
                    0 <= l < entries@.len() && entries@[l].0@ == k,
            i <= entries@.len(),
            out@.len() == i,
            forall|l: int|
                0 <= l < i ==> #[trigger] out@[l].0@ == entries@[l].0@ && jmodel(entries@[l].1)
                    == JVal::Str(out@[l].1@),
        decreases entries@.len() - i,
    {
        let s = match jas_str(&entries[i].1) {
            Some(s) => s,
            None => {
                proof {
                    assert(jm->Obj_0.contains_key(entries@[i as int].0@));
                    assert(!(jm->Obj_0[entries@[i as int].0@] is Str));
                }
                return None;
            },
        };
        let key = entries[i].0.clone();
        out.push((key, s.to_owned()));
        i = i + 1;
    }
    proof {
        assert forall|k: Seq<char>| #[trigger] jm->Obj_0.contains_key(k) implies jm->Obj_0[k]
            is Str by {
            let l = choose|l: int| 0 <= l < entries@.len() && entries@[l].0@ == k;
            assert(out@[l].0@ == entries@[l].0@);
            assert(jmodel(entries@[l].1) == JVal::Str(out@[l].1@));
        }
        assert forall|k: Seq<char>| #[trigger] jm->Obj_0.contains_key(k) implies exists|l: int|
            0 <= l < out@.len() && out@[l].0@ == k by {
            let l = choose|l: int| 0 <= l < entries@.len() && entries@[l].0@ == k;
            assert(out@[l].0@ == entries@[l].0@);
            assert(out@[l].0@ == k);
        }
    }
    Some(out)
}

/// A well-formed hop object.
pub open spec fn hop_valid(j: JVal) -> bool {
    &&& str_field(j, "chan_id"@) is Some
    &&& str_field(j, "chan_capacity"@) is Some
    &&& str_field(j, "amt_to_forward"@) is Some
    &&& str_field(j, "fee"@) is Some
    &&& (int_field(j, "expiry"@) matches Some(n) && i64::MIN <= n <= i64::MAX)
    &&& str_field(j, "amt_to_forward_msat"@) is Some
    &&& str_field(j, "fee_msat"@) is Some
    &&& opt_str_field(j, "pub_key"@) is Some
    &&& bool_field(j, "tlv_payload"@) is Some
    &&& (match opt_field(j, "mpp_record"@) {
        None => true,
        Some(m) => mpp_record_valid(m),
    })
    &&& (match opt_field(j, "amp_record"@) {
        None => true,
        Some(a) => amp_record_valid(a),
    })
    &&& (obj_field(j, "custom_records"@) matches Some(c) && custom_records_valid(c))
    &&& str_field(j, "metadata"@) is Some
}

/// The record a hop object decodes to.
pub open spec fn hop_rel(j: JVal, h: Hop) -> bool {
    &&& str_field(j, "chan_id"@) == Some(h.chan_id@)
    &&& str_field(j, "chan_capacity"@) == Some(h.chan_capacity@)
    &&& str_field(j, "amt_to_forward"@) == Some(h.amt_to_forward@)
    &&& str_field(j, "fee"@) == Some(h.fee@)
    &&& int_field(j, "expiry"@) == Some(h.expiry as int)
    &&& str_field(j, "amt_to_forward_msat"@) == Some(h.amt_to_forward_msat@)
    &&& str_field(j, "fee_msat"@) == Some(h.fee_msat@)
    &&& (match opt_str_field(j, "pub_key"@) {
        Some(None) => h.pub_key is None,
        Some(Some(s)) => h.pub_key matches Some(p) && p@ == s,
        None => false,
    })
    &&& bool_field(j, "tlv_payload"@) == Some(h.tlv_payload)
    &&& (match opt_field(j, "mpp_record"@) {
        None => h.mpp_record is None,
        Some(m) => h.mpp_record matches Some(x) && mpp_record_rel(m, x),
    })
    &&& (match opt_field(j, "amp_record"@) {
        None => h.amp_record is None,
        Some(a) => h.amp_record matches Some(x) && amp_record_rel(a, x),
    })
    &&& (obj_field(j, "custom_records"@) matches Some(c) && custom_records_rel(
        c,
        h.custom_records@,
    ))
    &&& str_field(j, "metadata"@) == Some(h.metadata@)
}

/// Decode one hop of a route.
pub fn decode_hop(v: &serde_json::Value) -> (r: Option<Hop>)
    ensures
        r is Some <==> hop_valid(jmodel(*v)),
        r matches Some(h) ==> hop_rel(jmodel(*v), h) && h.wf(),
{
    let chan_id = match req_str(v, "chan_id") {
        Some(s) => s,
        None => {
            return None;
        },
    };
    let chan_capacity = match req_str(v, "chan_capacity") {
        Some(s) => s,
        None => {
            return None;
        },
    };
    let amt_to_forward = match req_str(v, "amt_to_forward") {
        Some(s) => s,
        None => {
            return None;
        },
    };
    let fee = match req_str(v, "fee") {
        Some(s) => s,
        None => {
            return None;
        },
    };
    let expiry = match req_i64(v, "expiry") {
        Some(n) => n,
        None => {
            return None;
        },
    };
    let amt_to_forward_msat = match req_str(v, "amt_to_forward_msat") {
        Some(s) => s,
        None => {
            return None;
        },
    };
    let fee_msat = match req_str(v, "fee_msat") {
        Some(s) => s,
        None => {
            return None;
        },
    };
    let pub_key = match opt_str(v, "pub_key") {
        Some(o) => o,
        None => {
            return None;
        },
    };
    let tlv_payload = match req_bool(v, "tlv_payload") {
        Some(b) => b,
        None => {
            return None;
        },
    };
    let mpp_record = match jget(v, "mpp_record") {
        None => None,
        Some(f) => {
            if jis_null(f) {
                None
            } else {
                match decode_mpp_record(f) {
                    Some(m) => Some(m),
                    None => {
                        return None;
                    },
                }
            }
        },
    };
    let amp_record = match jget(v, "amp_record") {
        None => None,
        Some(f) => {
            if jis_null(f) {
                None
            } else {
                match decode_amp_record(f) {
                    Some(a) => Some(a),
                    None => {
                        return None;
                    },
                }
            }
        },
    };
    let custom_records = match jget(v, "custom_records") {
        None => {
            return None;
        },
        Some(f) => match decode_custom_records(f) {
            Some(c) => c,
            None => {
                return None;
            },
        },
    };
    let metadata = match req_str(v, "metadata") {
        Some(s) => s,
        None => {
            return None;
        },
    };
    Some(
        Hop {
            chan_id,
            chan_capacity,
            amt_to_forward,
            fee,
            expiry,
            amt_to_forward_msat,
            fee_msat,
            pub_key,
            tlv_payload,
            mpp_record,
            amp_record,
            custom_records,
            metadata,
        },
    )
}

/// A well-formed route object.
pub open spec fn route_valid(j: JVal) -> bool {
    &&& (int_field(j, "total_time_lock"@) matches Some(n) && i64::MIN <= n <= i64::MAX)
    &&& str_field(j, "total_amt"@) is Some
    &&& str_field(j, "total_amt_msat"@) is Some
    &&& str_field(j, "total_fees"@) is Some
    &&& str_field(j, "total_fees_msat"@) is Some
    &&& (obj_field(j, "hops"@) matches Some(a) && a is Arr && (forall|i: int|
        0 <= i < a->Arr_0.len() ==> hop_valid(#[trigger] a->Arr_0[i])))
}

/// The record a route object decodes to.
pub open spec fn route_rel(j: JVal, v: Route) -> bool {
    &&& int_field(j, "total_time_lock"@) == Some(v.total_time_lock as int)
    &&& str_field(j, "total_amt"@) == Some(v.total_amt@)
    &&& str_field(j, "total_amt_msat"@) == Some(v.total_amt_msat@)
    &&& str_field(j, "total_fees"@) == Some(v.total_fees@)
    &&& str_field(j, "total_fees_msat"@) == Some(v.total_fees_msat@)
    &&& (obj_field(j, "hops"@) matches Some(a) && a is Arr && v.hops@.len() == a->Arr_0.len() && (
    forall|i: int| 0 <= i < a->Arr_0.len() ==> hop_rel(a->Arr_0[i], #[trigger] v.hops@[i])))
}

/// Decode a route object.
pub fn decode_route(v: &serde_json::Value) -> (r: Option<Route>)
    ensures
        r is Some <==> route_valid(jmodel(*v)),
        r matches Some(rt) ==> route_rel(jmodel(*v), rt),
{
    let total_time_lock = match req_i64(v, "total_time_lock") {
        Some(n) => n,
        None => {
            return None;
        },
    };
    let total_amt = match req_str(v, "total_amt") {
        Some(s) => s,
        None => {
            return None;
        },
    };
    let total_amt_msat = match req_str(v, "total_amt_msat") {
        Some(s) => s,
        None => {
            return None;
        },
    };
    let total_fees = match req_str(v, "total_fees") {
        Some(s) => s,
        None => {
            return None;
        },
    };
    let total_fees_msat = match req_str(v, "total_fees_msat") {
        Some(s) => s,
        None => {
            return None;
        },
    };
    let hops_field = match jget(v, "hops") {
        None => {
            return None;
        },
        Some(f) => f,
    };
    let arr = match jas_array(hops_field) {
        None => {
            return None;
        },
        Some(a) => a,
    };
    let ghost jarr = jmodel(*hops_field)->Arr_0;
    let mut hops: Vec<Hop> = Vec::new();
    let mut i: usize = 0;
    while i < arr.len()
        invariant
            obj_field(jmodel(*v), "hops"@) == Some(jmodel(*hops_field)),
            jmodel(*hops_field) is Arr,
            jarr == jmodel(*hops_field)->Arr_0,
            arr@.len() == jarr.len(),
            forall|l: int| 0 <= l < arr@.len() ==> jmodel(arr@[l]) == jarr[l],
            i <= arr@.len(),
            hops@.len() == i,
            forall|l: int| 0 <= l < i ==> hop_valid(#[trigger] jarr[l]),
            forall|l: int| 0 <= l < i ==> hop_rel(jarr[l], #[trigger] hops@[l]),
        decreases arr@.len() - i,
    {
        proof {
            assert(jmodel(arr@[i as int]) == jarr[i as int]);
        }
        let h = match decode_hop(&arr[i]) {
            Some(h) => h,
            None => {
                return None;
            },
        };
        let ghost prev = hops@;
        hops.push(h);
        proof {
            assert forall|l: int| 0 <= l < i + 1 implies hop_rel(
                jarr[l],
                #[trigger] hops@[l],
            ) by {
                if l < i {
                    assert(hops@[l] == prev[l]);
                    assert(hop_rel(jarr[l], prev[l]));
                } else {
                    assert(hops@[l] == h);
                }
            }
        }
        i = i + 1;
    }
    Some(Route { total_time_lock, total_amt, total_amt_msat, total_fees, total_fees_msat, hops })
}

/// A well-formed payment-send reply body.
pub open spec fn send_payment_response_valid(j: JVal) -> bool {
    &&& str_field(j, "payment_error"@) is Some
    &&& str_field(j, "payment_preimage"@) is Some
    &&& (match opt_field(j, "payment_route"@) {
        None => true,
        Some(rj) => route_valid(rj),
    })
    &&& str_field(j, "payment_hash"@) is Some
}

/// The record a payment-send reply body decodes to.
pub open spec fn send_payment_response_rel(j: JVal, v: SendPaymentSyncResponse) -> bool {
    &&& str_field(j, "payment_error"@) == Some(v.payment_error@)
    &&& str_field(j, "payment_preimage"@) == Some(v.payment_preimage@)
    &&& (match opt_field(j, "payment_route"@) {
        None => v.payment_route is None,
        Some(rj) => v.payment_route matches Some(rt) && route_rel(rj, rt),
    })
    &&& str_field(j, "payment_hash"@) == Some(v.payment_hash@)
}

/// Decode a payment-send reply body.
pub fn decode_send_payment_response(v: &serde_json::Value) -> (r: Option<SendPaymentSyncResponse>)
    ensures
        r is Some <==> send_payment_response_valid(jmodel(*v)),
        r matches Some(resp) ==> send_payment_response_rel(jmodel(*v), resp),
{
    let payment_error = match req_str(v, "payment_error") {
        Some(s) => s,
        None => {
            return None;
        },
    };
    let payment_preimage = match req_str(v, "payment_preimage") {
        Some(s) => s,
        None => {
            return None;
        },
    };
    let payment_route = match jget(v, "payment_route") {
        None => None,
        Some(f) => {
            if jis_null(f) {
                None
            } else {
                match decode_route(f) {
                    Some(rt) => Some(rt),
                    None => {
                        return None;
                    },
                }
            }
        },
    };
    let payment_hash = match req_str(v, "payment_hash") {
        Some(s) => s,
        None => {
            return None;
        },
    };
    Some(SendPaymentSyncResponse { payment_error, payment_preimage, payment_route, payment_hash })
}

/// A well-formed channel-update object.
pub open spec fn channel_update_valid(j: JVal) -> bool {
    &&& str_field(j, "signature"@) is Some
    &&& str_field(j, "chain_hash"@) is Some
    &&& str_field(j, "chan_id"@) is Some
    &&& (int_field(j, "timestamp"@) matches Some(n) && 0 <= n <= u32::MAX)
    &&& (int_field(j, "message_flags"@) matches Some(n) && 0 <= n <= u32::MAX)
    &&& (int_field(j, "channel_flags"@) matches Some(n) && 0 <= n <= u32::MAX)
    &&& (int_field(j, "time_lock_delta"@) matches Some(n) && 0 <= n <= u32::MAX)
    &&& str_field(j, "htlc_minimum_msat"@) is Some
    &&& (int_field(j, "base_fee"@) matches Some(n) && 0 <= n <= u32::MAX)
    &&& (int_field(j, "fee_rate"@) matches Some(n) && 0 <= n <= u32::MAX)
    &&& str_field(j, "htlc_maximum_msat"@) is Some
    &&& str_field(j, "extra_opaque_data"@) is Some
}

/// The record a channel-update object decodes to.
pub open spec fn channel_update_rel(j: JVal, v: ChannelUpdate) -> bool {
    &&& str_field(j, "signature"@) == Some(v.signature@)
    &&& str_field(j, "chain_hash"@) == Some(v.chain_hash@)
    &&& str_field(j, "chan_id"@) == Some(v.chan_id@)
    &&& int_field(j, "timestamp"@) == Some(v.timestamp as int)
    &&& int_field(j, "message_flags"@) == Some(v.message_flags as int)
    &&& int_field(j, "channel_flags"@) == Some(v.channel_flags as int)
    &&& int_field(j, "time_lock_delta"@) == Some(v.time_lock_delta as int)
    &&& str_field(j, "htlc_minimum_msat"@) == Some(v.htlc_minimum_msat@)
    &&& int_field(j, "base_fee"@) == Some(v.base_fee as int)
    &&& int_field(j, "fee_rate"@) == Some(v.fee_rate as int)
    &&& str_field(j, "htlc_maximum_msat"@) == Some(v.htlc_maximum_msat@)
    &&& str_field(j, "extra_opaque_data"@) == Some(v.extra_opaque_data@)
}

/// Decode a channel-update object.
pub fn decode_channel_update(v: &serde_json::Value) -> (r: Option<ChannelUpdate>)
    ensures
        r is Some <==> channel_update_valid(jmodel(*v)),
        r matches Some(u) ==> channel_update_rel(jmodel(*v), u),
{
    let signature = match req_str(v, "signature") {
        Some(s) => s,
        None => {
            return None;
        },
    };
    let chain_hash = match req_str(v, "chain_hash") {
        Some(s) => s,
        None => {
            return None;
        },
    };
    let chan_id = match req_str(v, "chan_id") {
        Some(s) => s,
        None => {
            return None;
        },
    };
    let timestamp = match req_u32(v, "timestamp") {
        Some(n) => n,
        None => {
            return None;
        },
    };
    let message_flags = match req_u32(v, "message_flags") {
        Some(n) => n,
        None => {
            return None;
        },
    };
    let channel_flags = match req_u32(v, "channel_flags") {
        Some(n) => n,
        None => {
            return None;
        },
    };
    let time_lock_delta = match req_u32(v, "time_lock_delta") {
        Some(n) => n,
        None => {
            return None;
        },
    };
    let htlc_minimum_msat = match req_str(v, "htlc_minimum_msat") {
        Some(s) => s,
        None => {
            return None;
        },
    };
    let base_fee = match req_u32(v, "base_fee") {
        Some(n) => n,
        None => {
            return None;
        },
    };
    let fee_rate = match req_u32(v, "fee_rate") {
        Some(n) => n,
        None => {
            return None;
        },
    };
    let htlc_maximum_msat = match req_str(v, "htlc_maximum_msat") {
        Some(s) => s,
        None => {
            return None;
        },
    };
    let extra_opaque_data = match req_str(v, "extra_opaque_data") {
        Some(s) => s,
        None => {
            return None;
        },
    };
    Some(
        ChannelUpdate {
            signature,
            chain_hash,
            chan_id,
            timestamp,
            message_flags,
            channel_flags,
            time_lock_delta,
            htlc_minimum_msat,
            base_fee,
            fee_rate,
            htlc_maximum_msat,
            extra_opaque_data,
        },
    )
}

/// A well-formed routing-failure object.
pub open spec fn failure_valid(j: JVal) -> bool {
    &&& (str_field(j, "code"@) matches Some(s) && failure_code_of(s) is Some)
    &&& (match opt_field(j, "channel_update"@) {
        None => true,
        Some(u) => channel_update_valid(u),
    })
    &&& str_field(j, "htlc_msat"@) is Some
    &&& str_field(j, "onion_sha_256"@) is Some
    &&& (int_field(j, "cltv_expiry"@) matches Some(n) && 0 <= n <= u32::MAX)
    &&& (int_field(j, "flags"@) matches Some(n) && 0 <= n <= u32::MAX)
    &&& (int_field(j, "failure_source_index"@) matches Some(n) && 0 <= n <= u32::MAX)
    &&& (int_field(j, "height"@) matches Some(n) && 0 <= n <= u32::MAX)
}

/// The record a routing-failure object decodes to.
pub open spec fn failure_rel(j: JVal, v: Failure) -> bool {
    &&& (str_field(j, "code"@) matches Some(s) && failure_code_of(s) == Some(v.code))
    &&& (match opt_field(j, "channel_update"@) {
        None => v.channel_update is None,
        Some(u) => v.channel_update matches Some(x) && channel_update_rel(u, x),
    })
    &&& str_field(j, "htlc_msat"@) == Some(v.htlc_msat@)
    &&& str_field(j, "onion_sha_256"@) == Some(v.onion_sha_256@)
    &&& int_field(j, "cltv_expiry"@) == Some(v.cltv_expiry as int)
    &&& int_field(j, "flags"@) == Some(v.flags as int)
    &&& int_field(j, "failure_source_index"@) == Some(v.failure_source_index as int)
    &&& int_field(j, "height"@) == Some(v.height as int)
}

/// Decode a routing-failure object.
pub fn decode_failure(v: &serde_json::Value) -> (r: Option<Failure>)
    ensures
        r is Some <==> failure_valid(jmodel(*v)),
        r matches Some(f) ==> failure_rel(jmodel(*v), f),
{
    let code_name = match req_str(v, "code") {
        Some(s) => s,
        None => {
            return None;
        },
    };
    let code = match parse_failure_code(code_name.as_str()) {
        Some(c) => c,
        None => {
            return None;
        },
    };
    let channel_update = match jget(v, "channel_update") {
        None => None,
        Some(f) => {
            if jis_null(f) {
                None
            } else {
                match decode_channel_update(f) {
                    Some(u) => Some(u),
                    None => {
                        return None;
                    },
                }
            }
        },
    };
    let htlc_msat = match req_str(v, "htlc_msat") {
        Some(s) => s,
        None => {
            return None;
        },
    };
    let onion_sha_256 = match req_str(v, "onion_sha_256") {
        Some(s) => s,
        None => {
            return None;
        },
    };
    let cltv_expiry = match req_u32(v, "cltv_expiry") {
        Some(n) => n,
        None => {
            return None;
        },
    };
    let flags = match req_u32(v, "flags") {
        Some(n) => n,
        None => {
            return None;
        },
    };
    let failure_source_index = match req_u32(v, "failure_source_index") {
        Some(n) => n,
        None => {
            return None;
        },
    };
    let height = match req_u32(v, "height") {
        Some(n) => n,
        None => {
            return None;
        },
    };
    Some(
        Failure {
            code,
            channel_update,
            htlc_msat,
            onion_sha_256,
            cltv_expiry,
            flags,
            failure_source_index,
            height,
        },
    )
}

/// A well-formed HTLC-attempt object.
pub open spec fn htlc_attempt_valid(j: JVal) -> bool {
    &&& str_field(j, "attempt_id"@) is Some
    &&& (str_field(j, "status"@) matches Some(s) && htlc_status_of(s) is Some)
    &&& (obj_field(j, "route"@) matches Some(rj) && route_valid(rj))
    &&& str_field(j, "attempt_time_ns"@) is Some
    &&& str_field(j, "resolve_time_ns"@) is Some
    &&& (match opt_field(j, "failure"@) {
        None => true,
        Some(f) => failure_valid(f),
    })
    &&& str_field(j, "preimage"@) is Some
}

/// The record an HTLC-attempt object decodes to.
pub open spec fn htlc_attempt_rel(j: JVal, v: HTLCAttempt) -> bool {
    &&& str_field(j, "attempt_id"@) == Some(v.attempt_id@)
    &&& (str_field(j, "status"@) matches Some(s) && htlc_status_of(s) == Some(v.status))
    &&& (obj_field(j, "route"@) matches Some(rj) && route_rel(rj, v.route))
    &&& str_field(j, "attempt_time_ns"@) == Some(v.attempt_time_ns@)
    &&& str_field(j, "resolve_time_ns"@) == Some(v.resolve_time_ns@)
    &&& (match opt_field(j, "failure"@) {
        None => v.failure is None,
        Some(f) => v.failure matches Some(x) && failure_rel(f, x),
    })
    &&& str_field(j, "preimage"@) == Some(v.preimage@)
}

/// Decode an HTLC-attempt object.
pub fn decode_htlc_attempt(v: &serde_json::Value) -> (r: Option<HTLCAttempt>)
    ensures
        r is Some <==> htlc_attempt_valid(jmodel(*v)),
        r matches Some(a) ==> htlc_attempt_rel(jmodel(*v), a),
{
    let attempt_id = match req_str(v, "attempt_id") {
        Some(s) => s,
        None => {
            return None;
        },
    };
    let status_name = match req_str(v, "status") {
        Some(s) => s,
        None => {
            return None;
        },
    };
    let status = match parse_htlc_status(status_name.as_str()) {
        Some(st) => st,
        None => {
            return None;
        },
    };
    let route = match jget(v, "route") {
        None => {
            return None;
        },
        Some(f) => match decode_route(f) {
            Some(rt) => rt,
            None => {
                return None;
            },
        },
    };
    let attempt_time_ns = match req_str(v, "attempt_time_ns") {
        Some(s) => s,
        None => {
            return None;
        },
    };
    let resolve_time_ns = match req_str(v, "resolve_time_ns") {
        Some(s) => s,
        None => {
            return None;
        },
    };
    let failure = match jget(v, "failure") {
        None => None,
        Some(f) => {
            if jis_null(f) {
                None
            } else {
                match decode_failure(f) {
                    Some(x) => Some(x),
                    None => {
                        return None;
                    },
                }
            }
        },
    };
    let preimage = match req_str(v, "preimage") {
        Some(s) => s,
        None => {
            return None;
        },
    };
    Some(
        HTLCAttempt {
            attempt_id,
            status,
            route,
            attempt_time_ns,
            resolve_time_ns,
            failure,
            preimage,
        },
    )
}

/// A well-formed payment object.
pub open spec fn payment_valid(j: JVal) -> bool {
    &&& str_field(j, "payment_hash"@) is Some
    &&& str_field(j, "payment_preimage"@) is Some
    &&& str_field(j, "payment_request"@) is Some
    &&& (str_field(j, "status"@) matches Some(s) && payment_status_of(s) is Some)
    &&& str_field(j, "fee_sat"@) is Some
    &&& str_field(j, "fee_msat"@) is Some
    &&& str_field(j, "value_sat"@) is Some
    &&& str_field(j, "value_msat"@) is Some
    &&& str_field(j, "creation_time_ns"@) is Some
    &&& (obj_field(j, "htlcs"@) matches Some(a) && a is Arr && (forall|i: int|
        0 <= i < a->Arr_0.len() ==> htlc_attempt_valid(#[trigger] a->Arr_0[i])))
    &&& str_field(j, "payment_index"@) is Some
    &&& (str_field(j, "failure_reason"@) matches Some(s) && payment_failure_reason_of(s) is Some)
}

/// The record a payment object decodes to.
pub open spec fn payment_rel(j: JVal, v: Payment) -> bool {
    &&& str_field(j, "payment_hash"@) == Some(v.payment_hash@)
    &&& str_field(j, "payment_preimage"@) == Some(v.payment_preimage@)
    &&& str_field(j, "payment_request"@) == Some(v.payment_request@)
    &&& (str_field(j, "status"@) matches Some(s) && payment_status_of(s) == Some(v.status))
    &&& str_field(j, "fee_sat"@) == Some(v.fee_sat@)
    &&& str_field(j, "fee_msat"@) == Some(v.fee_msat@)
    &&& str_field(j, "value_sat"@) == Some(v.value_sat@)
    &&& str_field(j, "value_msat"@) == Some(v.value_msat@)
    &&& str_field(j, "creation_time_ns"@) == Some(v.creation_time_ns@)
    &&& (obj_field(j, "htlcs"@) matches Some(a) && a is Arr && v.htlcs@.len() == a->Arr_0.len()
        && (forall|i: int|
        0 <= i < a->Arr_0.len() ==> htlc_attempt_rel(a->Arr_0[i], #[trigger] v.htlcs@[i])))
    &&& str_field(j, "payment_index"@) == Some(v.payment_index@)
    &&& (str_field(j, "failure_reason"@) matches Some(s) && payment_failure_reason_of(s) == Some(
        v.failure_reason,
    ))
}

/// Decode a payment object.
pub fn decode_payment(v: &serde_json::Value) -> (r: Option<Payment>)
    ensures
        r is Some <==> payment_valid(jmodel(*v)),
        r matches Some(p) ==> payment_rel(jmodel(*v), p),
{
    let payment_hash = match req_str(v, "payment_hash") {
        Some(s) => s,
        None => {
            return None;
        },
    };
    let payment_preimage = match req_str(v, "payment_preimage") {
        Some(s) => s,
        None => {
            return None;
        },
    };
    let payment_request = match req_str(v, "payment_request") {
        Some(s) => s,
        None => {
            return None;
        },
    };
    let status_name = match req_str(v, "status") {
        Some(s) => s,
        None => {
            return None;
        },
    };
    let status = match parse_payment_status(status_name.as_str()) {
        Some(st) => st,
        None => {
            return None;
        },
    };
    let fee_sat = match req_str(v, "fee_sat") {
        Some(s) => s,
        None => {
            return None;
        },
    };
    let fee_msat = match req_str(v, "fee_msat") {
        Some(s) => s,
        None => {
            return None;
        },
    };
    let value_sat = match req_str(v, "value_sat") {
        Some(s) => s,
        None => {
            return None;
        },
    };
    let value_msat = match req_str(v, "value_msat") {
        Some(s) => s,
        None => {
            return None;
        },
    };
    let creation_time_ns = match req_str(v, "creation_time_ns") {
        Some(s) => s,
        None => {
            return None;
        },
    };
    let htlcs_field = match jget(v, "htlcs") {
        None => {
            return None;
        },
        Some(f) => f,
    };
    let arr = match jas_array(htlcs_field) {
        None => {
            return None;
        },
        Some(a) => a,
    };
    let ghost jarr = jmodel(*htlcs_field)->Arr_0;
    let mut htlcs: Vec<HTLCAttempt> = Vec::new();
    let mut i: usize = 0;
    while i < arr.len()
        invariant
            obj_field(jmodel(*v), "htlcs"@) == Some(jmodel(*htlcs_field)),
            jmodel(*htlcs_field) is Arr,
            jarr == jmodel(*htlcs_field)->Arr_0,
            arr@.len() == jarr.len(),
            forall|l: int| 0 <= l < arr@.len() ==> jmodel(arr@[l]) == jarr[l],
            i <= arr@.len(),
            htlcs@.len() == i,
            forall|l: int| 0 <= l < i ==> htlc_attempt_valid(#[trigger] jarr[l]),
            forall|l: int| 0 <= l < i ==> htlc_attempt_rel(jarr[l], #[trigger] htlcs@[l]),
        decreases arr@.len() - i,
    {
        proof {
            assert(jmodel(arr@[i as int]) == jarr[i as int]);
        }
        let a = match decode_htlc_attempt(&arr[i]) {
            Some(a) => a,
            None => {
                return None;
            },
        };
        let ghost prev = htlcs@;
        htlcs.push(a);
        proof {
            assert forall|l: int| 0 <= l < i + 1 implies htlc_attempt_rel(
                jarr[l],
                #[trigger] htlcs@[l],
            ) by {
                if l < i {
                    assert(htlcs@[l] == prev[l]);
                    assert(htlc_attempt_rel(jarr[l], prev[l]));
                } else {
                    assert(htlcs@[l] == a);
                }
            }
        }
        i = i + 1;
    }
    let payment_index = match req_str(v, "payment_index") {
        Some(s) => s,
        None => {
            return None;
        },
    };
    let reason_name = match req_str(v, "failure_reason") {
        Some(s) => s,
        None => {
            return None;
        },
    };
    let failure_reason = match parse_payment_failure_reason(reason_name.as_str()) {
        Some(fr) => fr,
        None => {
            return None;
        },
    };
    Some(
        Payment {
            payment_hash,
            payment_preimage,
            payment_request,
            status,
            fee_sat,
            fee_msat,
            value_sat,
            value_msat,
            creation_time_ns,
            htlcs,
            payment_index,
            failure_reason,
        },
    )
}

/// A well-formed payment-listing reply body.
pub open spec fn list_payments_response_valid(j: JVal) -> bool {
    &&& (obj_field(j, "payments"@) matches Some(a) && a is Arr && (forall|i: int|
        0 <= i < a->Arr_0.len() ==> payment_valid(#[trigger] a->Arr_0[i])))
    &&& str_field(j, "first_index_offset"@) is Some
    &&& str_field(j, "last_index_offset"@) is Some
    &&& str_field(j, "total_num_payments"@) is Some
}

/// The record a payment-listing reply body decodes to.
pub open spec fn list_payments_response_rel(j: JVal, v: ListPaymentsResponse) -> bool {
    &&& (obj_field(j, "payments"@) matches Some(a) && a is Arr && v.payments@.len()
        == a->Arr_0.len() && (forall|i: int|
        0 <= i < a->Arr_0.len() ==> payment_rel(a->Arr_0[i], #[trigger] v.payments@[i])))
    &&& str_field(j, "first_index_offset"@) == Some(v.first_index_offset@)
    &&& str_field(j, "last_index_offset"@) == Some(v.last_index_offset@)
    &&& str_field(j, "total_num_payments"@) == Some(v.total_num_payments@)
}

/// Decode a payment-listing reply body.
pub fn decode_list_payments_response(v: &serde_json::Value) -> (r: Option<ListPaymentsResponse>)
    ensures
        r is Some <==> list_payments_response_valid(jmodel(*v)),
        r matches Some(resp) ==> list_payments_response_rel(jmodel(*v), resp),
{
    let payments_field = match jget(v, "payments") {
        None => {
            return None;
        },
        Some(f) => f,
    };
    let arr = match jas_array(payments_field) {
        None => {
            return None;
        },
        Some(a) => a,
    };
    let ghost jarr = jmodel(*payments_field)->Arr_0;
    let mut payments: Vec<Payment> = Vec::new();
    let mut i: usize = 0;
    while i < arr.len()
        invariant
            obj_field(jmodel(*v), "payments"@) == Some(jmodel(*payments_field)),
            jmodel(*payments_field) is Arr,
            jarr == jmodel(*payments_field)->Arr_0,
            arr@.len() == jarr.len(),
            forall|l: int| 0 <= l < arr@.len() ==> jmodel(arr@[l]) == jarr[l],
            i <= arr@.len(),
            payments@.len() == i,
            forall|l: int| 0 <= l < i ==> payment_valid(#[trigger] jarr[l]),
            forall|l: int| 0 <= l < i ==> payment_rel(jarr[l], #[trigger] payments@[l]),
        decreases arr@.len() - i,
    {
        proof {
            assert(jmodel(arr@[i as int]) == jarr[i as int]);
        }
        let p = match decode_payment(&arr[i]) {
            Some(p) => p,
            None => {
                return None;
            },
        };
        let ghost prev = payments@;
        payments.push(p);
        proof {
            assert forall|l: int| 0 <= l < i + 1 implies payment_rel(
                jarr[l],
                #[trigger] payments@[l],
            ) by {
                if l < i {
                    assert(payments@[l] == prev[l]);
                    assert(payment_rel(jarr[l], prev[l]));
                } else {
                    assert(payments@[l] == p);
                }
            }
        }
        i = i + 1;
    }
    let first_index_offset = match req_str(v, "first_index_offset") {
        Some(s) => s,
        None => {
            return None;
        },
    };
    let last_index_offset = match req_str(v, "last_index_offset") {
        Some(s) => s,
        None => {
            return None;
        },
    };
    let total_num_payments = match req_str(v, "total_num_payments") {
        Some(s) => s,
        None => {
            return None;
        },
    };
    Some(ListPaymentsResponse { payments, first_index_offset, last_index_offset, total_num_payments })
}

} // verus!
