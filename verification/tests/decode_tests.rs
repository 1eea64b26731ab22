use lnd_rest::node::{
    check_status, decode_add_invoice_reply, decode_list_payments_reply,
    decode_lookup_invoice_reply, decode_pay_invoice_reply, NodeError,
};
use lnd_rest::types::{FailureCode, HTLCStatus, InvoiceState, PaymentFailureReason, PaymentStatus};

#[test]
fn ok_status_passes_body_through() {
    let r = check_status(200, String::from("body"));
    assert_eq!(r, Ok(String::from("body")));
}

#[test]
fn non_ok_status_is_remote_error() {
    let r = check_status(404, String::from("not found"));
    assert_eq!(
        r,
        Err(NodeError::RemoteError { status: 404, body: String::from("not found") })
    );
}

#[test]
fn add_invoice_reply_decodes() {
    let body = "{\"r_hash\":\"aGFzaA==\",\"payment_request\":\"lnbc1xyz\",\
                \"add_index\":\"7\",\"payment_addr\":\"YWRkcg==\"}";
    let r = decode_add_invoice_reply(200, body).unwrap();
    assert_eq!(r.r_hash, "aGFzaA==");
    assert_eq!(r.payment_request, "lnbc1xyz");
    assert_eq!(r.add_index, "7");
    assert_eq!(r.payment_addr, "YWRkcg==");
}

#[test]
fn add_invoice_reply_ignores_unknown_fields() {
    let body = "{\"r_hash\":\"aA==\",\"payment_request\":\"p\",\"add_index\":\"1\",\
                \"payment_addr\":\"YQ==\",\"something_new\":42}";
    assert!(decode_add_invoice_reply(200, body).is_ok());
}

#[test]
fn missing_r_hash_is_decode_error() {
    let body = "{\"payment_request\":\"lnbc1xyz\",\"add_index\":\"7\",\
                \"payment_addr\":\"YWRkcg==\"}";
    assert_eq!(decode_add_invoice_reply(200, body), Err(NodeError::DecodeError));
}

#[test]
fn wrongly_typed_field_is_decode_error() {
    let body = "{\"r_hash\":5,\"payment_request\":\"p\",\"add_index\":\"1\",\
                \"payment_addr\":\"a\"}";
    assert_eq!(decode_add_invoice_reply(200, body), Err(NodeError::DecodeError));
}

#[test]
fn status_404_is_never_decoded_as_success() {
    let body = "{\"r_hash\":\"aGFzaA==\",\"payment_request\":\"lnbc1xyz\",\
                \"add_index\":\"7\",\"payment_addr\":\"YWRkcg==\"}";
    let r = decode_add_invoice_reply(404, body);
    assert_eq!(
        r,
        Err(NodeError::RemoteError { status: 404, body: String::from(body) })
    );
}

#[test]
fn malformed_json_is_decode_error() {
    assert_eq!(decode_add_invoice_reply(200, "{not json"), Err(NodeError::DecodeError));
}

fn lookup_body(state: &str) -> String {
    format!(
        "{{\"memo\":\"m\",\"r_preimage\":\"cHJl\",\"r_hash\":\"aGFzaA==\",\
         \"value\":\"1\",\"value_msat\":\"1000\",\"settled\":true,\
         \"settle_date\":\"100\",\"creation_date\":\"90\",\
         \"payment_request\":\"lnbc1xyz\",\"expiry\":\"3600\",\"state\":\"{}\"}}",
        state
    )
}

#[test]
fn lookup_invoice_reply_decodes() {
    let r = decode_lookup_invoice_reply(200, &lookup_body("SETTLED")).unwrap();
    assert_eq!(r.memo, "m");
    assert_eq!(r.value_msat, "1000");
    assert!(r.settled);
    assert_eq!(r.state, InvoiceState::SETTLED);
}

#[test]
fn each_invoice_state_name_decodes() {
    for (name, state) in [
        ("OPEN", InvoiceState::OPEN),
        ("SETTLED", InvoiceState::SETTLED),
        ("CANCELED", InvoiceState::CANCELED),
        ("ACCEPTED", InvoiceState::ACCEPTED),
    ] {
        let r = decode_lookup_invoice_reply(200, &lookup_body(name)).unwrap();
        assert_eq!(r.state, state);
    }
}

#[test]
fn unknown_invoice_state_is_decode_error() {
    let r = decode_lookup_invoice_reply(200, &lookup_body("BOGUS"));
    assert_eq!(r, Err(NodeError::DecodeError));
}

#[test]
fn lookup_unknown_hash_surfaces_remote_error() {
    let r = decode_lookup_invoice_reply(404, "{\"error\":\"unable to locate invoice\"}");
    assert!(matches!(r, Err(NodeError::RemoteError { status: 404, .. })));
}

#[test]
fn payment_error_in_ok_reply_is_successful_decode() {
    let body = "{\"payment_error\":\"insufficient_balance\",\"payment_preimage\":\"\",\
                \"payment_route\":null,\"payment_hash\":\"aGFzaA==\"}";
    let r = decode_pay_invoice_reply(200, body).unwrap();
    assert!(!r.payment_error.is_empty());
    assert_eq!(r.payment_error, "insufficient_balance");
    assert_eq!(r.payment_preimage, "");
    assert!(r.payment_route.is_none());
}

const HOP: &str = "{\"chan_id\":\"123\",\"chan_capacity\":\"100000\",\
    \"amt_to_forward\":\"1\",\"fee\":\"0\",\"expiry\":640000,\
    \"amt_to_forward_msat\":\"1000\",\"fee_msat\":\"10\",\"pub_key\":\"02abc\",\
    \"tlv_payload\":true,\
    \"mpp_record\":{\"payment_addr\":\"cGE=\",\"total_amt_msat\":\"1000\"},\
    \"amp_record\":null,\
    \"custom_records\":{\"5482373484\":\"deadbeef\"},\"metadata\":\"\"}";

fn route_body() -> String {
    format!(
        "{{\"total_time_lock\":640144,\"total_amt\":\"1\",\"total_amt_msat\":\"1000\",\
         \"total_fees\":\"0\",\"total_fees_msat\":\"10\",\"hops\":[{}]}}",
        HOP
    )
}

#[test]
fn pay_invoice_reply_with_route_decodes() {
    let body = format!(
        "{{\"payment_error\":\"\",\"payment_preimage\":\"cHJl\",\
         \"payment_route\":{},\"payment_hash\":\"aGFzaA==\"}}",
        route_body()
    );
    let r = decode_pay_invoice_reply(200, &body).unwrap();
    assert_eq!(r.payment_error, "");
    let route = r.payment_route.unwrap();
    assert_eq!(route.total_time_lock, 640144);
    assert_eq!(route.hops.len(), 1);
    let hop = &route.hops[0];
    assert_eq!(hop.chan_id, "123");
    assert_eq!(hop.expiry, 640000);
    assert_eq!(hop.pub_key.as_deref(), Some("02abc"));
    let mpp = hop.mpp_record.as_ref().unwrap();
    assert_eq!(mpp.total_amt_msat, "1000");
    assert!(hop.amp_record.is_none());
    assert_eq!(hop.custom_records.len(), 1);
    assert_eq!(hop.custom_records[0].0, "5482373484");
    assert_eq!(hop.custom_records[0].1, "deadbeef");
}

#[test]
fn hop_with_non_string_custom_record_is_decode_error() {
    let body = "{\"payment_error\":\"\",\"payment_preimage\":\"\",\
        \"payment_route\":{\"total_time_lock\":0,\"total_amt\":\"0\",\
        \"total_amt_msat\":\"0\",\"total_fees\":\"0\",\"total_fees_msat\":\"0\",\
        \"hops\":[{\"chan_id\":\"1\",\"chan_capacity\":\"1\",\"amt_to_forward\":\"1\",\
        \"fee\":\"0\",\"expiry\":1,\"amt_to_forward_msat\":\"1\",\"fee_msat\":\"0\",\
        \"tlv_payload\":false,\"custom_records\":{\"k\":7},\"metadata\":\"\"}]},\
        \"payment_hash\":\"\"}";
    assert_eq!(decode_pay_invoice_reply(200, body), Err(NodeError::DecodeError));
}

fn payment_body() -> String {
    format!(
        "{{\"payment_hash\":\"aGFzaA==\",\"payment_preimage\":\"cHJl\",\
         \"payment_request\":\"lnbc1xyz\",\"status\":\"SUCCEEDED\",\
         \"fee_sat\":\"0\",\"fee_msat\":\"10\",\"value_sat\":\"1\",\
         \"value_msat\":\"1000\",\"creation_time_ns\":\"1700000000000000000\",\
         \"htlcs\":[{{\"attempt_id\":\"1\",\"status\":\"FAILED\",\"route\":{},\
         \"attempt_time_ns\":\"1\",\"resolve_time_ns\":\"2\",\
         \"failure\":{{\"code\":\"TEMPORARY_CHANNEL_FAILURE\",\
         \"channel_update\":{{\"signature\":\"sig\",\"chain_hash\":\"ch\",\
         \"chan_id\":\"123\",\"timestamp\":1700000000,\"message_flags\":1,\
         \"channel_flags\":0,\"time_lock_delta\":40,\"htlc_minimum_msat\":\"1\",\
         \"base_fee\":1000,\"fee_rate\":1,\"htlc_maximum_msat\":\"99\",\
         \"extra_opaque_data\":\"\"}},\"htlc_msat\":\"1000\",\"onion_sha_256\":\"\",\
         \"cltv_expiry\":640000,\"flags\":0,\"failure_source_index\":1,\
         \"height\":800000}},\"preimage\":\"\"}}],\
         \"payment_index\":\"5\",\"failure_reason\":\"FAILURE_REASON_NONE\"}}",
        route_body()
    )
}

#[test]
fn list_payments_reply_decodes() {
    let body = format!(
        "{{\"payments\":[{}],\"first_index_offset\":\"5\",\
         \"last_index_offset\":\"5\",\"total_num_payments\":\"1\"}}",
        payment_body()
    );
    let r = decode_list_payments_reply(200, &body).unwrap();
    assert_eq!(r.payments.len(), 1);
    assert_eq!(r.first_index_offset, "5");
    assert_eq!(r.total_num_payments, "1");
    let p = &r.payments[0];
    assert_eq!(p.status, PaymentStatus::SUCCEEDED);
    assert_eq!(p.failure_reason, PaymentFailureReason::FAILURE_REASON_NONE);
    assert_eq!(p.value_msat, "1000");
    assert_eq!(p.htlcs.len(), 1);
    let a = &p.htlcs[0];
    assert_eq!(a.status, HTLCStatus::FAILED);
    assert_eq!(a.route.hops.len(), 1);
    let f = a.failure.as_ref().unwrap();
    assert_eq!(f.code, FailureCode::TEMPORARY_CHANNEL_FAILURE);
    let u = f.channel_update.as_ref().unwrap();
    assert_eq!(u.timestamp, 1700000000);
    assert_eq!(u.base_fee, 1000);
}

#[test]
fn empty_payment_list_decodes() {
    let body = "{\"payments\":[],\"first_index_offset\":\"0\",\
                \"last_index_offset\":\"0\",\"total_num_payments\":\"0\"}";
    let r = decode_list_payments_reply(200, body).unwrap();
    assert!(r.payments.is_empty());
}

#[test]
fn payment_with_out_of_range_number_is_decode_error() {
    let body = format!(
        "{{\"payments\":[],\"first_index_offset\":\"0\",\
         \"last_index_offset\":\"0\",\"total_num_payments\":{}}}",
        "7"
    );
    // total_num_payments must be a string on the wire, not a number.
    assert_eq!(decode_list_payments_reply(200, &body), Err(NodeError::DecodeError));
}

#[test]
fn unknown_failure_reason_is_decode_error() {
    let body = payment_body().replace("FAILURE_REASON_NONE", "FAILURE_REASON_LATER_VERSION");
    let wrapped = format!(
        "{{\"payments\":[{}],\"first_index_offset\":\"5\",\
         \"last_index_offset\":\"5\",\"total_num_payments\":\"1\"}}",
        body
    );
    assert_eq!(decode_list_payments_reply(200, &wrapped), Err(NodeError::DecodeError));
}

#[test]
fn hop_without_optional_records_decodes() {
    let body = "{\"payment_error\":\"\",\"payment_preimage\":\"\",\
        \"payment_route\":{\"total_time_lock\":10,\"total_amt\":\"1\",\
        \"total_amt_msat\":\"1000\",\"total_fees\":\"0\",\"total_fees_msat\":\"0\",\
        \"hops\":[{\"chan_id\":\"1\",\"chan_capacity\":\"2\",\"amt_to_forward\":\"1\",\
        \"fee\":\"0\",\"expiry\":-3,\"amt_to_forward_msat\":\"1000\",\"fee_msat\":\"0\",\
        \"tlv_payload\":false,\"custom_records\":{},\"metadata\":\"\"}]},\
        \"payment_hash\":\"aGFzaA==\"}";
    let r = decode_pay_invoice_reply(200, body).unwrap();
    let route = r.payment_route.unwrap();
    let hop = &route.hops[0];
    assert!(hop.pub_key.is_none());
    assert!(hop.mpp_record.is_none());
    assert!(hop.amp_record.is_none());
    assert!(hop.custom_records.is_empty());
    assert_eq!(hop.expiry, -3);
}

#[test]
fn amp_record_decodes() {
    let body = "{\"payment_error\":\"\",\"payment_preimage\":\"\",\
        \"payment_route\":{\"total_time_lock\":10,\"total_amt\":\"1\",\
        \"total_amt_msat\":\"1000\",\"total_fees\":\"0\",\"total_fees_msat\":\"0\",\
        \"hops\":[{\"chan_id\":\"1\",\"chan_capacity\":\"2\",\"amt_to_forward\":\"1\",\
        \"fee\":\"0\",\"expiry\":1,\"amt_to_forward_msat\":\"1000\",\"fee_msat\":\"0\",\
        \"tlv_payload\":true,\
        \"amp_record\":{\"root_share\":\"cnM=\",\"set_id\":\"c2k=\",\"child_index\":7},\
        \"custom_records\":{},\"metadata\":\"\"}]},\"payment_hash\":\"\"}";
    let r = decode_pay_invoice_reply(200, body).unwrap();
    let route = r.payment_route.unwrap();
    let amp = route.hops[0].amp_record.as_ref().unwrap();
    assert_eq!(amp.root_share, "cnM=");
    assert_eq!(amp.child_index, 7);
}

#[test]
fn route_keeps_hop_order() {
    let hop = |id: &str| {
        format!(
            "{{\"chan_id\":\"{}\",\"chan_capacity\":\"2\",\"amt_to_forward\":\"1\",\
             \"fee\":\"0\",\"expiry\":1,\"amt_to_forward_msat\":\"1000\",\"fee_msat\":\"0\",\
             \"tlv_payload\":false,\"custom_records\":{{}},\"metadata\":\"\"}}",
            id
        )
    };
    let body = format!(
        "{{\"payment_error\":\"\",\"payment_preimage\":\"\",\
         \"payment_route\":{{\"total_time_lock\":10,\"total_amt\":\"1\",\
         \"total_amt_msat\":\"1000\",\"total_fees\":\"0\",\"total_fees_msat\":\"0\",\
         \"hops\":[{},{},{}]}},\"payment_hash\":\"\"}}",
        hop("a"),
        hop("b"),
        hop("c")
    );
    let r = decode_pay_invoice_reply(200, &body).unwrap();
    let route = r.payment_route.unwrap();
    let ids: Vec<&str> = route.hops.iter().map(|h| h.chan_id.as_str()).collect();
    assert_eq!(ids, vec!["a", "b", "c"]);
}

#[test]
fn out_of_range_number_field_is_decode_error() {
    // expiry far beyond i64 range arrives as floating point and is rejected
    let body = "{\"payment_error\":\"\",\"payment_preimage\":\"\",\
        \"payment_route\":{\"total_time_lock\":100000000000000000000,\
        \"total_amt\":\"1\",\"total_amt_msat\":\"1000\",\"total_fees\":\"0\",\
        \"total_fees_msat\":\"0\",\"hops\":[]},\"payment_hash\":\"\"}";
    assert_eq!(decode_pay_invoice_reply(200, body), Err(NodeError::DecodeError));
}

#[test]
fn number_encoded_as_string_is_decode_error() {
    let body = "{\"payment_error\":\"\",\"payment_preimage\":\"\",\
        \"payment_route\":{\"total_time_lock\":\"10\",\"total_amt\":\"1\",\
        \"total_amt_msat\":\"1000\",\"total_fees\":\"0\",\"total_fees_msat\":\"0\",\
        \"hops\":[]},\"payment_hash\":\"\"}";
    assert_eq!(decode_pay_invoice_reply(200, body), Err(NodeError::DecodeError));
}

#[test]
fn u32_field_out_of_range_is_decode_error() {
    let body = payment_body().replace("\"timestamp\":1700000000", "\"timestamp\":4294967296");
    let wrapped = format!(
        "{{\"payments\":[{}],\"first_index_offset\":\"5\",\
         \"last_index_offset\":\"5\",\"total_num_payments\":\"1\"}}",
        body
    );
    assert_eq!(decode_list_payments_reply(200, &wrapped), Err(NodeError::DecodeError));
}

#[test]
fn payment_with_no_htlcs_decodes() {
    let body = "{\"payments\":[{\"payment_hash\":\"aA==\",\"payment_preimage\":\"\",\
        \"payment_request\":\"\",\"status\":\"IN_FLIGHT\",\"fee_sat\":\"0\",\
        \"fee_msat\":\"0\",\"value_sat\":\"1\",\"value_msat\":\"1000\",\
        \"creation_time_ns\":\"1\",\"htlcs\":[],\"payment_index\":\"1\",\
        \"failure_reason\":\"FAILURE_REASON_NONE\"}],\"first_index_offset\":\"1\",\
        \"last_index_offset\":\"1\",\"total_num_payments\":\"1\"}";
    let r = decode_list_payments_reply(200, body).unwrap();
    assert_eq!(r.payments[0].status, PaymentStatus::IN_FLIGHT);
    assert!(r.payments[0].htlcs.is_empty());
}

#[test]
fn lookup_with_unsettled_invoice_decodes() {
    let body = lookup_body("OPEN").replace("\"settled\":true", "\"settled\":false");
    let r = decode_lookup_invoice_reply(200, &body).unwrap();
    assert!(!r.settled);
    assert_eq!(r.state, InvoiceState::OPEN);
}
