use lnd_rest::dec::{i32_dec, i64_dec, parse_u64_dec, u64_dec};
use lnd_rest::encode::{
    encode_add_invoice_request, encode_list_payments_query, encode_send_payment_request,
};
use lnd_rest::hex::hex_upper;
use lnd_rest::types::{
    AddInvoiceRequest, FeeLimit, ListPaymentsRequest, SendPaymentSyncRequest,
};

#[test]
fn hex_of_01ab_is_01ab() {
    let bytes: Vec<u8> = vec![0x01, 0xAB];
    assert_eq!(hex_upper(&bytes), "01AB");
}

#[test]
fn hex_of_empty_is_empty() {
    let bytes: Vec<u8> = Vec::new();
    assert_eq!(hex_upper(&bytes), "");
}

#[test]
fn hex_is_twice_as_long_and_uppercase() {
    let bytes: Vec<u8> = vec![0x00, 0x0F, 0x10, 0xFF, 0x7A];
    let h = hex_upper(&bytes);
    assert_eq!(h.len(), 2 * bytes.len());
    assert!(h.chars().all(|c| c.is_ascii_digit() || ('A'..='F').contains(&c)));
    assert_eq!(h, "000F10FF7A");
}

#[test]
fn hex_is_deterministic() {
    let bytes: Vec<u8> = vec![0xDE, 0xAD, 0xBE, 0xEF];
    assert_eq!(hex_upper(&bytes), hex_upper(&bytes.clone()));
}

#[test]
fn decimal_rendering_is_exact() {
    assert_eq!(u64_dec(0), "0");
    assert_eq!(u64_dec(7), "7");
    assert_eq!(u64_dec(1000), "1000");
    assert_eq!(u64_dec(u64::MAX), "18446744073709551615");
    assert_eq!(i64_dec(-5), "-5");
    assert_eq!(i64_dec(i64::MIN), "-9223372036854775808");
    assert_eq!(i64_dec(i64::MAX), "9223372036854775807");
    assert_eq!(i32_dec(-42), "-42");
    assert_eq!(i32_dec(i32::MIN), "-2147483648");
}

#[test]
fn decimal_round_trips_through_parse() {
    for v in [0u64, 1, 9, 10, 123456789, u64::MAX] {
        assert_eq!(parse_u64_dec(&u64_dec(v)), Some(v));
    }
}

#[test]
fn parse_rejects_non_decimal() {
    assert_eq!(parse_u64_dec(""), None);
    assert_eq!(parse_u64_dec("12a"), None);
    assert_eq!(parse_u64_dec("-1"), None);
    assert_eq!(parse_u64_dec("18446744073709551616"), None);
}

#[test]
fn default_invoice_request_serializes_exactly() {
    let req = AddInvoiceRequest::default();
    assert_eq!(
        encode_add_invoice_request(&req),
        "{\"memo\":null,\"r_preimage\":null,\"value_msat\":0,\"description_hash\":null,\
         \"expiry\":0,\"fallback_addr\":null,\"cltv_expiry\":null}"
    );
}

#[test]
fn invoice_request_serializes_amount_and_memo() {
    let req = AddInvoiceRequest {
        memo: Some(String::from("a\"b\\c\n")),
        r_preimage: None,
        value_msat: 18446744073709551615,
        description_hash: None,
        expiry: 3600,
        fallback_addr: None,
        cltv_expiry: Some(-1),
    };
    let s = encode_add_invoice_request(&req);
    assert_eq!(
        s,
        "{\"memo\":\"a\\\"b\\\\c\\u000A\",\"r_preimage\":null,\
         \"value_msat\":18446744073709551615,\"description_hash\":null,\
         \"expiry\":3600,\"fallback_addr\":null,\"cltv_expiry\":-1}"
    );
    // The encoded body is itself well-formed JSON holding the exact amount.
    let v: serde_json::Value = serde_json::from_str(&s).unwrap();
    assert_eq!(v.get("value_msat").unwrap().as_u64(), Some(u64::MAX));
    assert_eq!(v.get("memo").unwrap().as_str(), Some("a\"b\\c\n"));
}

#[test]
fn default_payment_request_serializes_exactly() {
    let req = SendPaymentSyncRequest::default();
    assert_eq!(
        encode_send_payment_request(&req),
        "{\"dest\":null,\"amt\":null,\"amt_msat\":null,\"payment_hash\":null,\
         \"payment_request\":\"\",\"final_cltv_delta\":null,\"fee_limit\":null,\
         \"outgoing_chan_id\":null,\"last_hop_pubkey\":null,\"cltv_limit\":null,\
         \"allow_self_payment\":null,\"dest_features\":null,\"payment_addr\":null}"
    );
}

#[test]
fn payment_request_serializes_fee_limit_and_features() {
    let req = SendPaymentSyncRequest {
        payment_request: String::from("lnbc1xyz"),
        fee_limit: Some(FeeLimit {
            fixed: Some(String::from("10")),
            fixed_msat: None,
            percent: None,
        }),
        dest_features: Some(vec![8, 9]),
        allow_self_payment: Some(true),
        cltv_limit: Some(-2),
        ..Default::default()
    };
    assert_eq!(
        encode_send_payment_request(&req),
        "{\"dest\":null,\"amt\":null,\"amt_msat\":null,\"payment_hash\":null,\
         \"payment_request\":\"lnbc1xyz\",\"final_cltv_delta\":null,\
         \"fee_limit\":{\"fixed\":\"10\",\"fixed_msat\":null,\"percent\":null},\
         \"outgoing_chan_id\":null,\"last_hop_pubkey\":null,\"cltv_limit\":-2,\
         \"allow_self_payment\":true,\"dest_features\":[8,9],\"payment_addr\":null}"
    );
}

#[test]
fn list_query_with_zero_max_payments_is_still_formed() {
    let req = ListPaymentsRequest::default();
    assert_eq!(
        encode_list_payments_query(&req),
        "include_incomplete=false&index_offset=0&max_payments=0&reversed=false\
         &count_total_payments=false&creation_date_start=0&creation_date_end=0"
    );
}

#[test]
fn list_query_renders_all_fields() {
    let req = ListPaymentsRequest {
        include_incomplete: true,
        index_offset: 5,
        max_payments: 100,
        reversed: true,
        count_total_payments: true,
        creation_date_start: 1700000000,
        creation_date_end: 1700003600,
    };
    assert_eq!(
        encode_list_payments_query(&req),
        "include_incomplete=true&index_offset=5&max_payments=100&reversed=true\
         &count_total_payments=true&creation_date_start=1700000000\
         &creation_date_end=1700003600"
    );
}

#[test]
fn hex_matches_reference_formatting_for_every_byte() {
    for b in 0u8..=255 {
        let bytes: Vec<u8> = vec![b];
        assert_eq!(hex_upper(&bytes), format!("{:02X}", b));
    }
}
