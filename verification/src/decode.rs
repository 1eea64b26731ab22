//! Decoding of parsed JSON reply bodies into typed schema records.
//!
//! Each decoder returns `Some` exactly when the parsed value matches the
//! schema: every required field present with the right type, every optional
//! field absent, null, or well-typed.  Unknown extra fields are ignored.

use vstd::prelude::*;

use crate::jmodel::{bool_field, int_field, obj_field, opt_field, opt_str_field, str_field, JVal};
use crate::jwrap::{jas_bool, jas_i64, jas_str, jas_u64, jget, jis_null, jmodel};
use crate::strutil::str_eq;
use crate::types::{AddInvoiceResponse, InvoiceState, LookupInvoiceResponse};

verus! {

/// A required string field: the key's value as an owned string, if it is a
/// string.
pub(crate) fn req_str(v: &serde_json::Value, key: &str) -> (r: Option<String>)
    ensures
        r matches Some(s) ==> str_field(jmodel(*v), key@) == Some(s@),
        r is None ==> str_field(jmodel(*v), key@) is None,
{
    match jget(v, key) {
        None => None,
        Some(f) => match jas_str(f) {
            None => None,
            Some(s) => Some(s.to_owned()),
        },
    }
}

/// An optional string field: `Some(None)` when absent or null, `Some(Some)`
/// when a string, `None` when anything else.
pub(crate) fn opt_str(v: &serde_json::Value, key: &str) -> (r: Option<Option<String>>)
    ensures
        r is None ==> opt_str_field(jmodel(*v), key@) is None,
        r matches Some(o) ==> (o matches Some(s) && opt_str_field(jmodel(*v), key@) == Some(
            Some(s@),
        ) || o is None && opt_str_field(jmodel(*v), key@) == Some(None::<Seq<char>>)),
{
    match jget(v, key) {
        None => Some(None),
        Some(f) => {
            if jis_null(f) {
                Some(None)
            } else {
                match jas_str(f) {
                    None => None,
                    Some(s) => Some(Some(s.to_owned())),
                }
            }
        },
    }
}

/// A required boolean field.
pub(crate) fn req_bool(v: &serde_json::Value, key: &str) -> (r: Option<bool>)
    ensures
        r == bool_field(jmodel(*v), key@),
{
    match jget(v, key) {
        None => None,
        Some(f) => jas_bool(f),
    }
}

/// A required integer field within `i64` range.
pub(crate) fn req_i64(v: &serde_json::Value, key: &str) -> (r: Option<i64>)
    ensures
        r matches Some(n) ==> int_field(jmodel(*v), key@) == Some(n as int),
        r is None ==> !(int_field(jmodel(*v), key@) matches Some(n) && i64::MIN <= n
            <= i64::MAX),
{
    match jget(v, key) {
        None => None,
        Some(f) => jas_i64(f),
    }
}

/// A required integer field within `u32` range.
pub(crate) fn req_u32(v: &serde_json::Value, key: &str) -> (r: Option<u32>)
    ensures
        r matches Some(n) ==> int_field(jmodel(*v), key@) == Some(n as int),
        r is None ==> !(int_field(jmodel(*v), key@) matches Some(n) && 0 <= n <= u32::MAX),
{
    match jget(v, key) {
        None => None,
        Some(f) => match jas_u64(f) {
            None => None,
            Some(n) => {
                if n <= 0xFFFF_FFFFu64 {
                    Some(n as u32)
                } else {
                    None
                }
            },
        },
    }
}

/// The invoice state named by a string, as the remote API spells it.
pub open spec fn invoice_state_of(s: Seq<char>) -> Option<InvoiceState> {
    if s == "OPEN"@ {
        Some(InvoiceState::OPEN)
    } else if s == "SETTLED"@ {
        Some(InvoiceState::SETTLED)
    } else if s == "CANCELED"@ {
        Some(InvoiceState::CANCELED)
    } else if s == "ACCEPTED"@ {
        Some(InvoiceState::ACCEPTED)
    } else {
        None
    }
}

/// Parse an invoice state name; an unrecognized name is rejected rather
/// than defaulted.
pub fn parse_invoice_state(s: &str) -> (r: Option<InvoiceState>)
    ensures
        r == invoice_state_of(s@),
{
    if str_eq(s, "OPEN") {
        Some(InvoiceState::OPEN)
    } else if str_eq(s, "SETTLED") {
        Some(InvoiceState::SETTLED)
    } else if str_eq(s, "CANCELED") {
        Some(InvoiceState::CANCELED)
    } else if str_eq(s, "ACCEPTED") {
        Some(InvoiceState::ACCEPTED)
    } else {
        None
    }
}

/// A well-formed invoice-creation reply body.
pub open spec fn add_invoice_response_valid(j: JVal) -> bool {
    &&& str_field(j, "r_hash"@) is Some
    &&& str_field(j, "payment_request"@) is Some
    &&& str_field(j, "add_index"@) is Some
    &&& str_field(j, "payment_addr"@) is Some
}

/// The record an invoice-creation reply body decodes to.
pub open spec fn add_invoice_response_rel(j: JVal, v: AddInvoiceResponse) -> bool {
    &&& str_field(j, "r_hash"@) == Some(v.r_hash@)
    &&& str_field(j, "payment_request"@) == Some(v.payment_request@)
    &&& str_field(j, "add_index"@) == Some(v.add_index@)
    &&& str_field(j, "payment_addr"@) == Some(v.payment_addr@)
}

/// Decode an invoice-creation reply body.
pub fn decode_add_invoice_response(v: &serde_json::Value) -> (r: Option<AddInvoiceResponse>)
    ensures
        r is Some <==> add_invoice_response_valid(jmodel(*v)),
        r matches Some(resp) ==> add_invoice_response_rel(jmodel(*v), resp),
{
    let r_hash = match req_str(v, "r_hash") {
        Some(s) => s,
        None => {
            return None;
        },
    };
    let payment_request = match req_str(v, "payment_request") {
        Some(s) => s,
        None => {
            return None;
        },
    };
    let add_index = match req_str(v, "add_index") {
        Some(s) => s,
        None => {
            return None;
        },
    };
    let payment_addr = match req_str(v, "payment_addr") {
        Some(s) => s,
        None => {
            return None;
        },
    };
    Some(AddInvoiceResponse { r_hash, payment_request, add_index, payment_addr })
}

/// A well-formed invoice-lookup reply body.
pub open spec fn lookup_invoice_response_valid(j: JVal) -> bool {
    &&& str_field(j, "memo"@) is Some
    &&& str_field(j, "r_preimage"@) is Some
    &&& str_field(j, "r_hash"@) is Some
    &&& str_field(j, "value"@) is Some
    &&& str_field(j, "value_msat"@) is Some
    &&& bool_field(j, "settled"@) is Some
    &&& str_field(j, "settle_date"@) is Some
    &&& str_field(j, "creation_date"@) is Some
    &&& str_field(j, "payment_request"@) is Some
    &&& str_field(j, "expiry"@) is Some
    &&& (str_field(j, "state"@) matches Some(s) && invoice_state_of(s) is Some)
}

/// The record an invoice-lookup reply body decodes to.
pub open spec fn lookup_invoice_response_rel(j: JVal, v: LookupInvoiceResponse) -> bool {
    &&& str_field(j, "memo"@) == Some(v.memo@)
    &&& str_field(j, "r_preimage"@) == Some(v.r_preimage@)
    &&& str_field(j, "r_hash"@) == Some(v.r_hash@)
    &&& str_field(j, "value"@) == Some(v.value@)
    &&& str_field(j, "value_msat"@) == Some(v.value_msat@)
    &&& bool_field(j, "settled"@) == Some(v.settled)
    &&& str_field(j, "settle_date"@) == Some(v.settle_date@)
    &&& str_field(j, "creation_date"@) == Some(v.creation_date@)
    &&& str_field(j, "payment_request"@) == Some(v.payment_request@)
    &&& str_field(j, "expiry"@) == Some(v.expiry@)
    &&& (str_field(j, "state"@) matches Some(s) && invoice_state_of(s) == Some(v.state))
}

/// Decode an invoice-lookup reply body.
pub fn decode_lookup_invoice_response(v: &serde_json::Value) -> (r: Option<LookupInvoiceResponse>)
    ensures
        r is Some <==> lookup_invoice_response_valid(jmodel(*v)),
        r matches Some(resp) ==> lookup_invoice_response_rel(jmodel(*v), resp),
{
    let memo = match req_str(v, "memo") {
        Some(s) => s,
        None => {
            return None;
        },
    };
    let r_preimage = match req_str(v, "r_preimage") {
        Some(s) => s,
        None => {
            return None;
        },
    };
    let r_hash = match req_str(v, "r_hash") {
        Some(s) => s,
        None => {
            return None;
        },
    };
    let value = match req_str(v, "value") {
        Some(s) => s,
        None => {
            return None;
        },
    };
    let value_msat = match req_str(v, "value_msat") {
        Some(s) => s,
        None => {
            return None;
        },
    };
    let settled = match req_bool(v, "settled") {
        Some(b) => b,
        None => {
            return None;
        },
    };
    let settle_date = match req_str(v, "settle_date") {
        Some(s) => s,
        None => {
            return None;
        },
    };
    let creation_date = match req_str(v, "creation_date") {
        Some(s) => s,
        None => {
            return None;
        },
    };
    let payment_request = match req_str(v, "payment_request") {
        Some(s) => s,
        None => {
            return None;
        },
    };
    let expiry = match req_str(v, "expiry") {
        Some(s) => s,
        None => {
            return None;
        },
    };
    let state_name = match req_str(v, "state") {
        Some(s) => s,
        None => {
            return None;
        },
    };
    let state = match parse_invoice_state(state_name.as_str()) {
        Some(st) => st,
        None => {
            return None;
        },
    };
    Some(
        LookupInvoiceResponse {
            memo,
            r_preimage,
            r_hash,
            value,
            value_msat,
            settled,
            settle_date,
            creation_date,
            payment_request,
            expiry,
            state,
        },
    )
}

} // verus!
