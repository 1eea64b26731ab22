use lnd_rest::node::{Node, NodeError};
use lnd_rest::types::ListPaymentsRequest;

const TEST_CERT_PEM: &str = "-----BEGIN CERTIFICATE-----
MIIBfzCCASWgAwIBAgIUGc8n6d+3iMXw/i5UguQDw/IlvywwCgYIKoZIzj0EAwIw
FDESMBAGA1UEAwwJbG9jYWxob3N0MCAXDTI2MTAxMjA5NTEzNVoYDzIxMjYwOTE4
MDk1MTM1WjAUMRIwEAYDVQQDDAlsb2NhbGhvc3QwWTATBgcqhkjOPQIBBggqhkjO
PQMBBwNCAASRlXZo9FD7k1gxuwsLQ96NmGY9BEwWL7bX7wXj3aZDsk3WgTob3qsy
w5ipFUKl2yrjwu6TAiSOMq70TorDgEvTo1MwUTAdBgNVHQ4EFgQUF68YwDqmngq1
gMnh+YK6hlvyc9wwHwYDVR0jBBgwFoAUF68YwDqmngq1gMnh+YK6hlvyc9wwDwYD
VR0TAQH/BAUwAwEB/zAKBggqhkjOPQQDAgNIADBFAiBeN4eG+rwLnpmkmqv5mAOU
Tlw9hOQdl8YKpRLbE7KBwAIhALH3FfzW+wz8ZKpdC0m/DuzFT1ZqSxZWP02043Vx
h2VK
-----END CERTIFICATE-----
";

fn test_node() -> Node {
    let macaroon: Vec<u8> = vec![0x01, 0xAB];
    let cert: Vec<u8> = TEST_CERT_PEM.as_bytes().to_vec();
    Node::init(String::from("https://node.example:8080"), &macaroon, &cert).unwrap()
}

#[test]
fn init_derives_uppercase_hex_header() {
    let node = test_node();
    assert_eq!(node.auth_header_value(), "01AB");
}

#[test]
fn init_twice_gives_identical_header_values() {
    let a = test_node();
    let b = test_node();
    assert_eq!(a.auth_header_value(), b.auth_header_value());
    assert_eq!(a.host, b.host);
}

#[test]
fn init_rejects_malformed_certificate() {
    let macaroon: Vec<u8> = vec![0x01];
    let cert: Vec<u8> = b"this is not a certificate".to_vec();
    let r = Node::init(String::from("https://node.example"), &macaroon, &cert);
    assert!(matches!(r, Err(NodeError::CredentialError)));
}

#[test]
fn init_accepts_empty_macaroon() {
    let macaroon: Vec<u8> = Vec::new();
    let cert: Vec<u8> = TEST_CERT_PEM.as_bytes().to_vec();
    let node = Node::init(String::from("https://node.example"), &macaroon, &cert).unwrap();
    assert_eq!(node.auth_header_value(), "");
}

#[test]
fn endpoint_urls_are_formed_from_host() {
    let node = test_node();
    assert_eq!(node.invoices_url(), "https://node.example:8080/v1/invoices");
    assert_eq!(
        node.invoice_url("cafebabe"),
        "https://node.example:8080/v1/invoice/cafebabe"
    );
    assert_eq!(
        node.transactions_url(),
        "https://node.example:8080/v1/channels/transactions"
    );
}

#[test]
fn payments_url_carries_query_even_with_zero_max() {
    let node = test_node();
    let req = ListPaymentsRequest::default();
    assert_eq!(
        node.payments_url(&req),
        "https://node.example:8080/v1/payments?include_incomplete=false&index_offset=0\
         &max_payments=0&reversed=false&count_total_payments=false\
         &creation_date_start=0&creation_date_end=0"
    );
}

#[test]
fn handle_clones_for_sharing() {
    let node = test_node();
    let copy = node.clone();
    assert_eq!(copy.auth_header_value(), node.auth_header_value());
    assert_eq!(copy.host, node.host);
    assert_eq!(copy.invoices_url(), node.invoices_url());
}
