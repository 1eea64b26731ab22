//! The client handle and the pure halves of each operation.
//!
//! A [`Node`] holds the remote host address, the derived authentication
//! header value, and a configured HTTP client.  Each operation of the
//! remote API is split into a pure request-building half (URL and body) and
//! a pure reply-decoding half (status check and body decode); the network
//! exchange between the two is left to the caller.

use vstd::prelude::*;

use crate::decode::{
    add_invoice_response_rel, add_invoice_response_valid, decode_add_invoice_response,
    decode_lookup_invoice_response, lookup_invoice_response_rel, lookup_invoice_response_valid,
};
use crate::decode_payment::{
    decode_list_payments_response, decode_send_payment_response, list_payments_response_rel,
    list_payments_response_valid, send_payment_response_rel, send_payment_response_valid,
};
use crate::encode::{
    encode_add_invoice_request, encode_list_payments_query, encode_send_payment_request,
    list_payments_query,
};
use crate::hex::{hex_upper, hex_upper_of, is_upper_hex_char, lemma_hex_upper_shape};
use crate::jwrap::{json_val_of, parse_json};
use crate::types::{
    AddInvoiceRequest, AddInvoiceResponse, ListPaymentsRequest, ListPaymentsResponse,
    LookupInvoiceResponse, SendPaymentSyncRequest, SendPaymentSyncResponse,
};

verus! {

/// The ways an operation can fail.
///
/// `RemoteError` carries the HTTP status and the error body of a non-OK
/// reply; `DecodeError` marks an OK reply whose body does not match the
/// schema.  The two are kept distinct: the first reports the node's
/// refusal, the second a schema mismatch.
#[derive(Clone, Debug, PartialEq, Eq)]
pub enum NodeError {
    /// A credential or certificate file could not be read.
    IoError(String),
    /// The certificate or credential material was rejected.
    CredentialError,
    /// The request never completed: DNS, TCP or TLS failure.
    TransportError(String),
    /// The remote answered with a status other than 200.
    RemoteError { status: u16, body: String },
    /// The remote answered 200 but the body does not match the schema.
    DecodeError,
}

#[verifier::external_type_specification]
#[verifier::external_body]
pub struct ExClient(reqwest::Client);

/// Relies on reqwest::Client::clone: the client is a shared handle, and a
/// clone reaches the same node with the same configuration.  Nothing is
/// claimed of the clone; it lets a [`Node`] be cloned and shared.
pub assume_specification[ <reqwest::Client as Clone>::clone ](c: &reqwest::Client) -> reqwest::Client;

/// Whether the TLS backend accepts this buffer as PEM certificate material
/// when a client is built over it; acceptance depends on the bytes alone.
/// (reqwest also consults the process-global default crypto provider when
/// it builds the client; this library and its I/O shell install none, so
/// the compiled-in default decides, the same way in every process.)
pub uninterp spec fn cert_accepted(pem: Seq<u8>) -> bool;

/// How many certificate blocks the TLS backend reads from a PEM buffer:
/// `None` when a block is malformed, otherwise the number of blocks read.
/// The outcome depends on the bytes alone.
pub uninterp spec fn pem_cert_count(pem: Seq<u8>) -> Option<nat>;

/// Relies on reqwest::Certificate::from_pem_bundle: reads every certificate
/// block of the buffer and fails on a malformed one.
#[verifier::external_body]
fn pem_bundle_size(pem: &Vec<u8>) -> (r: Option<usize>)
    ensures
        r matches Some(n) ==> pem_cert_count(pem@) == Some(n as nat),
        r is None ==> pem_cert_count(pem@) is None,
{
    match reqwest::Certificate::from_pem_bundle(pem) {
        Ok(certs) => Some(certs.len()),
        Err(_) => None,
    }
}

/// True of the characters this crate allows in a header name: a safe
/// subset of what HTTP header names may hold, on which http's header-name
/// conversion never fails.
pub open spec fn is_header_name_char(c: char) -> bool {
    ('a' <= c && c <= 'z') || ('A' <= c && c <= 'Z') || ('0' <= c && c <= '9') || c == '-'
}

/// Relies on reqwest::Certificate::from_pem, reqwest::Client::builder,
/// ClientBuilder::add_root_certificate, ClientBuilder::tls_built_in_root_certs,
/// ClientBuilder::default_headers, ClientBuilder::build, and on http's
/// HeaderMap::insert, HeaderValue::from_str and HeaderValue::set_sensitive:
/// builds a client that trusts only the given certificate — the TLS
/// backend's built-in roots are switched off, so the root store holds
/// nothing else — and attaches the header `header_name: auth_hex`, marked
/// sensitive, to every request.  The name is a short non-empty run of
/// letters, digits and dashes — http's name parser refuses names longer
/// than 65,535 bytes, so the length bound keeps HeaderMap::insert from
/// panicking — and the value visible ASCII, which HeaderValue::from_str
/// cannot reject; the outcome rests on the certificate buffer alone.
#[verifier::external_body]
fn build_client(cert_pem: &Vec<u8>, header_name: &'static str, auth_hex: &String) -> (r: Option<
    reqwest::Client,
>)
    requires
        0 < header_name@.len() <= 64,
        forall|i: int| 0 <= i < header_name@.len() ==> is_header_name_char(header_name@[i]),
        forall|i: int| 0 <= i < auth_hex@.len() ==> is_upper_hex_char(auth_hex@[i]),
    ensures
        r is Some <==> cert_accepted(cert_pem@),
{
    let cert = reqwest::Certificate::from_pem(cert_pem).ok()?;
    let mut val = reqwest::header::HeaderValue::from_str(auth_hex).ok()?;
    val.set_sensitive(true);
    let mut headers = reqwest::header::HeaderMap::new();
    headers.insert(header_name, val);
    let builder = reqwest::Client::builder().add_root_certificate(cert);
    builder.tls_built_in_root_certs(false).default_headers(headers).build().ok()
}

/// Encapsulate what is needed to talk to one node: its address, the
/// derived authentication header value, and the configured HTTP client.
///
/// The handle is read-only after construction and may be cloned and shared
/// across call sites.  It deliberately has no `Debug` form: the header
/// value it carries is a credential and stays out of diagnostics.
#[derive(Clone)]
pub struct Node {
    /// The host address of the node.
    pub host: String,
    /// The credential file's bytes as uppercase hexadecimal: the value of
    /// the authentication header.
    pub macaroon_hex: String,
    /// The HTTP client used to reach the node.  It trusts only the pinned
    /// certificate and carries the credential header, marked sensitive so
    /// that diagnostics do not print it.
    pub client: reqwest::Client,
}

impl Node {
    /// Initialize a handle from the raw bytes of the credential and
    /// certificate files.
    ///
    /// The credential bytes are rendered as uppercase hexadecimal and
    /// carried on every request as the `Grpc-Metadata-macaroon` header; the
    /// certificate becomes the only trust anchor.  Fails with
    /// `CredentialError` exactly when the certificate material is rejected:
    /// when no certificate block can be read from it, or when the TLS
    /// backend refuses what was read.
    pub fn init(host: String, macaroon: &Vec<u8>, cert_pem: &Vec<u8>) -> (r: Result<
        Node,
        NodeError,
    >)
        ensures
            r is Ok <==> (pem_cert_count(cert_pem@) matches Some(c) && c > 0 && cert_accepted(
                cert_pem@,
            )),
            r matches Ok(n) ==> n.host == host && n.macaroon_hex@ == hex_upper_of(macaroon@),
            r matches Err(e) ==> e is CredentialError,
    {
        match pem_bundle_size(cert_pem) {
            Some(c) => {
                if c == 0 {
                    return Err(NodeError::CredentialError);
                }
            },
            None => {
                return Err(NodeError::CredentialError);
            },
        }
        let macaroon_hex = hex_upper(macaroon);
        proof {
            lemma_hex_upper_shape(macaroon@);
            reveal_strlit("Grpc-Metadata-macaroon");
            assert("Grpc-Metadata-macaroon"@.len() == 22);
            assert(forall|i: int|
                0 <= i < 22 ==> is_header_name_char(#[trigger] "Grpc-Metadata-macaroon"@[i]));
        }
        let client = match build_client(cert_pem, "Grpc-Metadata-macaroon", &macaroon_hex) {
            Some(c) => c,
            None => {
                return Err(NodeError::CredentialError);
            },
        };
        Ok(Node { host, macaroon_hex, client })
    }

    /// The value of the authentication header this handle sends.
    pub fn auth_header_value(&self) -> (r: &String)
        ensures
            r == &self.macaroon_hex,
    {
        &self.macaroon_hex
    }

    /// The URL of the invoice-creation endpoint.
    pub fn invoices_url(&self) -> (r: String)
        ensures
            r@ == self.host@ + "/v1/invoices"@,
    {
        let mut u = self.host.clone();
        u.append("/v1/invoices");
        u
    }

    /// The URL of the invoice-lookup endpoint for one payment hash.
    pub fn invoice_url(&self, payment_hash: &str) -> (r: String)
        ensures
            r@ == self.host@ + "/v1/invoice/"@ + payment_hash@,
    {
        let mut u = self.host.clone();
        u.append("/v1/invoice/");
        u.append(payment_hash);
        proof {
            assert(u@ =~= self.host@ + "/v1/invoice/"@ + payment_hash@);
        }
        u
    }

    /// The URL of the payment-send endpoint.
    pub fn transactions_url(&self) -> (r: String)
        ensures
            r@ == self.host@ + "/v1/channels/transactions"@,
    {
        let mut u = self.host.clone();
        u.append("/v1/channels/transactions");
        u
    }

    /// The URL of the payment-listing endpoint, with the request's fields
    /// as query parameters.
    pub fn payments_url(&self, req: &ListPaymentsRequest) -> (r: String)
        ensures
            r@ == self.host@ + "/v1/payments?"@ + list_payments_query(*req),
    {
        let mut u = self.host.clone();
        u.append("/v1/payments?");
        let q = encode_list_payments_query(req);
        u.append(q.as_str());
        proof {
            assert(u@ =~= self.host@ + "/v1/payments?"@ + list_payments_query(*req));
        }
        u
    }

    /// The JSON body of an invoice-creation request.
    pub fn add_invoice_body(&self, invoice: &AddInvoiceRequest) -> (r: String)
        ensures
            r@ == crate::encode::add_invoice_request_json(*invoice),
    {
        encode_add_invoice_request(invoice)
    }

    /// The JSON body of a payment-send request.
    pub fn pay_invoice_body(&self, payment_request: &SendPaymentSyncRequest) -> (r: String)
        ensures
            r@ == crate::encode::send_payment_request_json(*payment_request),
    {
        encode_send_payment_request(payment_request)
    }
}

/// Pass an OK reply through unchanged; turn any other status into
/// `RemoteError` carrying the status and the error body.  A non-OK reply
/// is never decoded as success.
pub fn check_status(status: u16, body: String) -> (r: Result<String, NodeError>)
    ensures
        status == 200 ==> (r matches Ok(b) && b@ == body@),
        status != 200 ==> (r matches Err(e) && e == (NodeError::RemoteError { status, body })),
{
    if status == 200 {
        Ok(body)
    } else {
        Err(NodeError::RemoteError { status, body })
    }
}

/// Decode an invoice-creation reply from its status and body.
pub fn decode_add_invoice_reply(status: u16, body: &str) -> (r: Result<
    AddInvoiceResponse,
    NodeError,
>)
    ensures
        status != 200 ==> (r matches Err(e) && e matches NodeError::RemoteError {
            status: s,
            body: b,
        } && s == status && b@ == body@),
        status == 200 && json_val_of(body@) is None ==> (r matches Err(e) && e is DecodeError),
        status == 200 && json_val_of(body@) is Some ==> (match r {
            Ok(resp) => add_invoice_response_valid(json_val_of(body@)->Some_0) && add_invoice_response_rel(
                json_val_of(body@)->Some_0,
                resp,
            ),
            Err(e) => e is DecodeError && !add_invoice_response_valid(json_val_of(body@)->Some_0),
        }),
{
    if status != 200 {
        return Err(NodeError::RemoteError { status, body: body.to_owned() });
    }
    let v = match parse_json(body) {
        Some(v) => v,
        None => {
            return Err(NodeError::DecodeError);
        },
    };
    match decode_add_invoice_response(&v) {
        Some(resp) => Ok(resp),
        None => Err(NodeError::DecodeError),
    }
}

/// Decode an invoice-lookup reply from its status and body.
pub fn decode_lookup_invoice_reply(status: u16, body: &str) -> (r: Result<
    LookupInvoiceResponse,
    NodeError,
>)
    ensures
        status != 200 ==> (r matches Err(e) && e matches NodeError::RemoteError {
            status: s,
            body: b,
        } && s == status && b@ == body@),
        status == 200 && json_val_of(body@) is None ==> (r matches Err(e) && e is DecodeError),
        status == 200 && json_val_of(body@) is Some ==> (match r {
            Ok(resp) => lookup_invoice_response_valid(json_val_of(body@)->Some_0) && lookup_invoice_response_rel(
                json_val_of(body@)->Some_0,
                resp,
            ),
            Err(e) => e is DecodeError && !lookup_invoice_response_valid(json_val_of(body@)->Some_0),
        }),
{
    if status != 200 {
        return Err(NodeError::RemoteError { status, body: body.to_owned() });
    }
    let v = match parse_json(body) {
        Some(v) => v,
        None => {
            return Err(NodeError::DecodeError);
        },
    };
    match decode_lookup_invoice_response(&v) {
        Some(resp) => Ok(resp),
        None => Err(NodeError::DecodeError),
    }
}

/// Decode a payment-send reply from its status and body.
///
/// An OK reply whose body carries a non-empty `payment_error` still
/// decodes successfully: the caller, not the client, classifies it.
pub fn decode_pay_invoice_reply(status: u16, body: &str) -> (r: Result<
    SendPaymentSyncResponse,
    NodeError,
>)
    ensures
        status != 200 ==> (r matches Err(e) && e matches NodeError::RemoteError {
            status: s,
            body: b,
        } && s == status && b@ == body@),
        status == 200 && json_val_of(body@) is None ==> (r matches Err(e) && e is DecodeError),
        status == 200 && json_val_of(body@) is Some ==> (match r {
            Ok(resp) => send_payment_response_valid(json_val_of(body@)->Some_0) && send_payment_response_rel(
                json_val_of(body@)->Some_0,
                resp,
            ),
            Err(e) => e is DecodeError && !send_payment_response_valid(json_val_of(body@)->Some_0),
        }),
{
    if status != 200 {
        return Err(NodeError::RemoteError { status, body: body.to_owned() });
    }
    let v = match parse_json(body) {
        Some(v) => v,
        None => {
            return Err(NodeError::DecodeError);
        },
    };
    match decode_send_payment_response(&v) {
        Some(resp) => Ok(resp),
        None => Err(NodeError::DecodeError),
    }
}

/// Decode a payment-listing reply from its status and body.
pub fn decode_list_payments_reply(status: u16, body: &str) -> (r: Result<
    ListPaymentsResponse,
    NodeError,
>)
    ensures
        status != 200 ==> (r matches Err(e) && e matches NodeError::RemoteError {
            status: s,
            body: b,
        } && s == status && b@ == body@),
        status == 200 && json_val_of(body@) is None ==> (r matches Err(e) && e is DecodeError),
        status == 200 && json_val_of(body@) is Some ==> (match r {
            Ok(resp) => list_payments_response_valid(json_val_of(body@)->Some_0) && list_payments_response_rel(
                json_val_of(body@)->Some_0,
                resp,
            ),
            Err(e) => e is DecodeError && !list_payments_response_valid(json_val_of(body@)->Some_0),
        }),
{
    if status != 200 {
        return Err(NodeError::RemoteError { status, body: body.to_owned() });
    }
    let v = match parse_json(body) {
        Some(v) => v,
        None => {
            return Err(NodeError::DecodeError);
        },
    };
    match decode_list_payments_response(&v) {
        Some(resp) => Ok(resp),
        None => Err(NodeError::DecodeError),
    }
}

/// Two handles built from the same credential bytes carry the same
/// authentication header value: the derivation is deterministic.
pub proof fn lemma_init_header_deterministic(n1: Node, n2: Node, macaroon: Seq<u8>)
    requires
        n1.macaroon_hex@ == hex_upper_of(macaroon),
        n2.macaroon_hex@ == hex_upper_of(macaroon),
    ensures
        n1.macaroon_hex@ == n2.macaroon_hex@,
{
}

} // verus!
