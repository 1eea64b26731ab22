//! JSON serialization of request bodies and rendering of query strings.
//!
//! Each request type has one wire form, stated by a spec function; the
//! executable encoders produce exactly that form.  Fields appear in
//! declaration order; absent optional fields are encoded as `null`.

use vstd::prelude::*;

use crate::dec::{bool_dec, dec_int_of, dec_of, i32_dec, i64_dec, u64_dec};
use crate::hex::{hex_digit, hex_digit_char};
use crate::types::{AddInvoiceRequest, FeeLimit, ListPaymentsRequest, SendPaymentSyncRequest};

verus! {

/// The JSON string-literal encoding of one character.
pub open spec fn esc_char(c: char) -> Seq<char> {
    if c == '"' {
        "\\\""@
    } else if c == '\\' {
        "\\\\"@
    } else if (c as u32) < 32 {
        "\\u00"@ + Seq::<char>::empty().push(hex_digit(((c as u32) / 16) as u8)).push(
            hex_digit(((c as u32) % 16) as u8),
        )
    } else {
        Seq::<char>::empty().push(c)
    }
}

/// The body of a JSON string literal: every character escaped as needed.
pub open spec fn json_escaped(s: Seq<char>) -> Seq<char>
    decreases s.len(),
{
    if s.len() == 0 {
        Seq::<char>::empty()
    } else {
        json_escaped(s.drop_last()) + esc_char(s.last())
    }
}

/// A JSON string literal.
pub open spec fn json_str_lit(s: Seq<char>) -> Seq<char> {
    "\""@ + json_escaped(s) + "\""@
}

/// An optional string field value: a string literal, or `null`.
pub open spec fn json_opt_str(o: Option<String>) -> Seq<char> {
    match o {
        Some(s) => json_str_lit(s@),
        None => "null"@,
    }
}

/// An optional 32-bit integer field value: a number, or `null`.
pub open spec fn json_opt_i32(o: Option<i32>) -> Seq<char> {
    match o {
        Some(n) => dec_int_of(n as int),
        None => "null"@,
    }
}

/// An optional 64-bit integer field value: a number, or `null`.
pub open spec fn json_opt_i64(o: Option<i64>) -> Seq<char> {
    match o {
        Some(n) => dec_int_of(n as int),
        None => "null"@,
    }
}

/// An optional boolean field value: `true`, `false`, or `null`.
pub open spec fn json_opt_bool(o: Option<bool>) -> Seq<char> {
    match o {
        Some(b) => bool_dec(b),
        None => "null"@,
    }
}

/// The elements of a JSON array of byte values, comma separated.
pub open spec fn json_bytes_inner(s: Seq<u8>) -> Seq<char>
    decreases s.len(),
{
    if s.len() == 0 {
        Seq::<char>::empty()
    } else if s.len() == 1 {
        dec_of(s[0] as nat)
    } else {
        json_bytes_inner(s.drop_last()) + ","@ + dec_of(s.last() as nat)
    }
}

/// A JSON array of byte values.
pub open spec fn json_bytes(s: Seq<u8>) -> Seq<char> {
    "["@ + json_bytes_inner(s) + "]"@
}

/// An optional byte-array field value: an array, or `null`.
pub open spec fn json_opt_bytes(o: Option<Vec<u8>>) -> Seq<char> {
    match o {
        Some(v) => json_bytes(v@),
        None => "null"@,
    }
}

/// The JSON encoding of a fee limit.
pub open spec fn json_fee_limit(f: FeeLimit) -> Seq<char> {
    "{\"fixed\":"@ + json_opt_str(f.fixed) + ",\"fixed_msat\":"@ + json_opt_str(f.fixed_msat)
        + ",\"percent\":"@ + json_opt_str(f.percent) + "}"@
}

/// An optional fee-limit field value: an object, or `null`.
pub open spec fn json_opt_fee_limit(o: Option<FeeLimit>) -> Seq<char> {
    match o {
        Some(f) => json_fee_limit(f),
        None => "null"@,
    }
}

/// The JSON body of an invoice-creation request.
pub open spec fn add_invoice_request_json(r: AddInvoiceRequest) -> Seq<char> {
    "{\"memo\":"@ + json_opt_str(r.memo) + ",\"r_preimage\":"@ + json_opt_str(r.r_preimage)
        + ",\"value_msat\":"@ + dec_of(r.value_msat as nat) + ",\"description_hash\":"@
        + json_opt_str(r.description_hash) + ",\"expiry\":"@ + dec_int_of(r.expiry as int)
        + ",\"fallback_addr\":"@ + json_opt_str(r.fallback_addr) + ",\"cltv_expiry\":"@
        + json_opt_i32(r.cltv_expiry) + "}"@
}

/// The JSON body of a payment-send request.
pub open spec fn send_payment_request_json(r: SendPaymentSyncRequest) -> Seq<char> {
    "{\"dest\":"@ + json_opt_str(r.dest) + ",\"amt\":"@ + json_opt_str(r.amt) + ",\"amt_msat\":"@
        + json_opt_str(r.amt_msat) + ",\"payment_hash\":"@ + json_opt_str(r.payment_hash)
        + ",\"payment_request\":"@ + json_str_lit(r.payment_request@) + ",\"final_cltv_delta\":"@
        + json_opt_i32(r.final_cltv_delta) + ",\"fee_limit\":"@ + json_opt_fee_limit(r.fee_limit)
        + ",\"outgoing_chan_id\":"@ + json_opt_str(r.outgoing_chan_id) + ",\"last_hop_pubkey\":"@
        + json_opt_str(r.last_hop_pubkey) + ",\"cltv_limit\":"@ + json_opt_i64(r.cltv_limit)
        + ",\"allow_self_payment\":"@ + json_opt_bool(r.allow_self_payment)
        + ",\"dest_features\":"@ + json_opt_bytes(r.dest_features) + ",\"payment_addr\":"@
        + json_opt_str(r.payment_addr) + "}"@
}

/// The query string of a payment-listing request.
pub open spec fn list_payments_query(r: ListPaymentsRequest) -> Seq<char> {
    "include_incomplete="@ + bool_dec(r.include_incomplete) + "&index_offset="@ + dec_of(
        r.index_offset as nat,
    ) + "&max_payments="@ + dec_of(r.max_payments as nat) + "&reversed="@ + bool_dec(r.reversed)
        + "&count_total_payments="@ + bool_dec(r.count_total_payments) + "&creation_date_start="@
        + dec_of(r.creation_date_start as nat) + "&creation_date_end="@ + dec_of(
        r.creation_date_end as nat,
    )
}

/// Serializing an invoice request renders its millisatoshi amount in
/// decimal; reading that rendering back yields exactly the amount that was
/// set: serialization loses no precision on amount fields.
pub proof fn lemma_invoice_amount_round_trip(r: AddInvoiceRequest)
    ensures
        crate::dec::dec_val(dec_of(r.value_msat as nat)) == Some(r.value_msat as nat),
{
    crate::dec::lemma_dec_round_trip(r.value_msat as nat);
}

fn append_esc_char(out: &mut String, c: char)
    ensures
        final(out)@ == old(out)@ + esc_char(c),
{
    let ghost base = out@;
    if c == '"' {
        out.append("\\\"");
    } else if c == '\\' {
        out.append("\\\\");
    } else if (c as u32) < 32 {
        out.append("\\u00");
        let v = c as u32;
        out.push(hex_digit_char((v / 16) as u8));
        out.push(hex_digit_char((v % 16) as u8));
        proof {
            assert(out@ =~= base + esc_char(c));
        }
    } else {
        out.push(c);
        proof {
            assert(out@ =~= base + esc_char(c));
        }
    }
}

/// Append a JSON string literal for the given string.
fn append_json_str(out: &mut String, s: &str)
    ensures
        final(out)@ == old(out)@ + json_str_lit(s@),
{
    let ghost base = out@;
    out.append("\"");
    let n = s.unicode_len();
    let mut i: usize = 0;
    while i < n
        invariant
            n == s@.len(),
            i <= n,
            out@ == base + "\""@ + json_escaped(s@.take(i as int)),
        decreases n - i,
    {
        let c = s.get_char(i);
        let ghost before = out@;
        append_esc_char(out, c);
        proof {
            assert(s@.take(i + 1int).drop_last() =~= s@.take(i as int));
            assert(s@.take(i + 1int).last() == s@[i as int]);
            assert(out@ =~= base + "\""@ + json_escaped(s@.take(i + 1int)));
        }
        i = i + 1;
    }
    out.append("\"");
    proof {
        assert(s@.take(n as int) =~= s@);
        assert(out@ =~= base + json_str_lit(s@));
    }
}

/// Append an optional string field value.
fn append_opt_str(out: &mut String, o: &Option<String>)
    ensures
        final(out)@ == old(out)@ + json_opt_str(*o),
{
    match o {
        None => out.append("null"),
        Some(s) => append_json_str(out, s.as_str()),
    }
}

/// Append a boolean value.
fn append_bool(out: &mut String, b: bool)
    ensures
        final(out)@ == old(out)@ + bool_dec(b),
{
    if b {
        out.append("true");
    } else {
        out.append("false");
    }
}

/// Append an optional boolean field value.
fn append_opt_bool(out: &mut String, o: &Option<bool>)
    ensures
        final(out)@ == old(out)@ + json_opt_bool(*o),
{
    match o {
        None => out.append("null"),
        Some(b) => append_bool(out, *b),
    }
}

/// Append an optional 32-bit integer field value.
fn append_opt_i32(out: &mut String, o: &Option<i32>)
    ensures
        final(out)@ == old(out)@ + json_opt_i32(*o),
{
    match o {
        None => out.append("null"),
        Some(n) => {
            let d = i32_dec(*n);
            out.append(d.as_str());
        },
    }
}

/// Append an optional 64-bit integer field value.
fn append_opt_i64(out: &mut String, o: &Option<i64>)
    ensures
        final(out)@ == old(out)@ + json_opt_i64(*o),
{
    match o {
        None => out.append("null"),
        Some(n) => {
            let d = i64_dec(*n);
            out.append(d.as_str());
        },
    }
}

/// Append a JSON array of byte values.
fn append_bytes(out: &mut String, bytes: &Vec<u8>)
    ensures
        final(out)@ == old(out)@ + json_bytes(bytes@),
{
    let ghost base = out@;
    out.append("[");
    let mut i: usize = 0;
    while i < bytes.len()
        invariant
            i <= bytes@.len(),
            out@ == base + "["@ + json_bytes_inner(bytes@.take(i as int)),
        decreases bytes@.len() - i,
    {
        if i > 0 {
            out.append(",");
        }
        let d = u64_dec(bytes[i] as u64);
        out.append(d.as_str());
        proof {
            assert(bytes@.take(i + 1int).drop_last() =~= bytes@.take(i as int));
            assert(bytes@.take(i + 1int).last() == bytes@[i as int]);
            if i == 0 {
                assert(bytes@.take(1int).len() == 1);
                assert(bytes@.take(1int)[0] == bytes@[0]);
                assert(out@ =~= base + "["@ + json_bytes_inner(bytes@.take(1int)));
            } else {
                assert(out@ =~= base + "["@ + json_bytes_inner(bytes@.take(i + 1int)));
            }
        }
        i = i + 1;
    }
    out.append("]");
    proof {
        assert(bytes@.take(bytes@.len() as int) =~= bytes@);
        assert(out@ =~= base + json_bytes(bytes@));
    }
}

/// Append an optional byte-array field value.
fn append_opt_bytes(out: &mut String, o: &Option<Vec<u8>>)
    ensures
        final(out)@ == old(out)@ + json_opt_bytes(*o),
{
    match o {
        None => out.append("null"),
        Some(v) => append_bytes(out, v),
    }
}

/// Append an optional fee-limit field value.
fn append_opt_fee_limit(out: &mut String, o: &Option<FeeLimit>)
    ensures
        final(out)@ == old(out)@ + json_opt_fee_limit(*o),
{
    let ghost base = out@;
    match o {
        None => out.append("null"),
        Some(f) => {
            out.append("{\"fixed\":");
            append_opt_str(out, &f.fixed);
            out.append(",\"fixed_msat\":");
            append_opt_str(out, &f.fixed_msat);
            out.append(",\"percent\":");
            append_opt_str(out, &f.percent);
            out.append("}");
            proof {
                assert(out@ =~= base + json_fee_limit(*f));
            }
        },
    }
}

/// Serialize an invoice-creation request to its JSON body.
pub fn encode_add_invoice_request(r: &AddInvoiceRequest) -> (s: String)
    ensures
        s@ == add_invoice_request_json(*r),
{
    let mut out = String::new();
    out.append("{\"memo\":");
    append_opt_str(&mut out, &r.memo);
    out.append(",\"r_preimage\":");
    append_opt_str(&mut out, &r.r_preimage);
    out.append(",\"value_msat\":");
    let v = u64_dec(r.value_msat);
    out.append(v.as_str());
    out.append(",\"description_hash\":");
    append_opt_str(&mut out, &r.description_hash);
    out.append(",\"expiry\":");
    let e = i32_dec(r.expiry);
    out.append(e.as_str());
    out.append(",\"fallback_addr\":");
    append_opt_str(&mut out, &r.fallback_addr);
    out.append(",\"cltv_expiry\":");
    append_opt_i32(&mut out, &r.cltv_expiry);
    out.append("}");
    proof {
        assert(out@ =~= add_invoice_request_json(*r));
    }
    out
}

/// Serialize a payment-send request to its JSON body.
pub fn encode_send_payment_request(r: &SendPaymentSyncRequest) -> (s: String)
    ensures
        s@ == send_payment_request_json(*r),
{
    let mut out = String::new();
    out.append("{\"dest\":");
    append_opt_str(&mut out, &r.dest);
    out.append(",\"amt\":");
    append_opt_str(&mut out, &r.amt);
    out.append(",\"amt_msat\":");
    append_opt_str(&mut out, &r.amt_msat);
    out.append(",\"payment_hash\":");
    append_opt_str(&mut out, &r.payment_hash);
    out.append(",\"payment_request\":");
    append_json_str(&mut out, r.payment_request.as_str());
    out.append(",\"final_cltv_delta\":");
    append_opt_i32(&mut out, &r.final_cltv_delta);
    out.append(",\"fee_limit\":");
    append_opt_fee_limit(&mut out, &r.fee_limit);
    out.append(",\"outgoing_chan_id\":");
    append_opt_str(&mut out, &r.outgoing_chan_id);
    out.append(",\"last_hop_pubkey\":");
    append_opt_str(&mut out, &r.last_hop_pubkey);
    out.append(",\"cltv_limit\":");
    append_opt_i64(&mut out, &r.cltv_limit);
    out.append(",\"allow_self_payment\":");
    append_opt_bool(&mut out, &r.allow_self_payment);
    out.append(",\"dest_features\":");
    append_opt_bytes(&mut out, &r.dest_features);
    out.append(",\"payment_addr\":");
    append_opt_str(&mut out, &r.payment_addr);
    out.append("}");
    proof {
        assert(out@ =~= send_payment_request_json(*r));
    }
    out
}

/// Render a payment-listing request as the query string of the listing
/// endpoint.
pub fn encode_list_payments_query(r: &ListPaymentsRequest) -> (s: String)
    ensures
        s@ == list_payments_query(*r),
{
    let mut out = String::new();
    out.append("include_incomplete=");
    append_bool(&mut out, r.include_incomplete);
    out.append("&index_offset=");
    let d1 = u64_dec(r.index_offset);
    out.append(d1.as_str());
    out.append("&max_payments=");
    let d2 = u64_dec(r.max_payments);
    out.append(d2.as_str());
    out.append("&reversed=");
    append_bool(&mut out, r.reversed);
    out.append("&count_total_payments=");
    append_bool(&mut out, r.count_total_payments);
    out.append("&creation_date_start=");
    let d3 = u64_dec(r.creation_date_start);
    out.append(d3.as_str());
    out.append("&creation_date_end=");
    let d4 = u64_dec(r.creation_date_end);
    out.append(d4.as_str());
    proof {
        assert(out@ =~= list_payments_query(*r));
    }
    out
}

} // verus!
