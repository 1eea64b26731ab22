//! Data types mirroring the remote node's request and response schema.
//!
//! Every numeric amount that the remote API transmits as a decimal string is
//! kept as a `String` here, so that no precision is lost to floating point.
//! Binary fields (hashes, preimages, addresses) are base64-encoded strings.

use vstd::prelude::*;

verus! {

/// Represent a base64 encoded string.
pub type Base64String = String;

/// Represent the possible states of an invoice.
#[derive(Clone, Copy, Debug, PartialEq, Eq, Structural)]
pub enum InvoiceState {
    /// The invoice is open and awaiting payment.
    OPEN,
    /// The invoice has been settled and the payment has been confirmed.
    SETTLED,
    /// The invoice has been canceled and is no longer valid.
    CANCELED,
    /// The invoice has been accepted but not yet settled.
    ACCEPTED,
}

/// Represent the possible statuses of a payment.
#[allow(nonstandard_style)]
#[derive(Clone, Copy, Debug, PartialEq, Eq, Structural)]
pub enum PaymentStatus {
    /// The payment status is unknown.
    UNKNOWN,
    /// The payment is currently in flight.
    IN_FLIGHT,
    /// The payment completed successfully.
    SUCCEEDED,
    /// The payment failed.
    FAILED,
}

/// Represent the possible failure reasons of a payment.
#[allow(nonstandard_style)]
#[derive(Clone, Copy, Debug, PartialEq, Eq, Structural)]
pub enum PaymentFailureReason {
    /// Payment isn't failed (yet).
    FAILURE_REASON_NONE,
    /// There are more routes to try, but the payment timeout was exceeded.
    FAILURE_REASON_TIMEOUT,
    /// All possible routes were tried and failed permanently, or there were
    /// no routes to the destination at all.
    FAILURE_REASON_NO_ROUTE,
    /// A non-recoverable error has occurred.
    FAILURE_REASON_ERROR,
    /// Payment details incorrect (unknown hash, invalid amount or invalid
    /// final CLTV delta).
    FAILURE_REASON_INCORRECT_PAYMENT_DETAILS,
    /// Insufficient local balance.
    FAILURE_REASON_INSUFFICIENT_BALANCE,
}

/// Represent the possible statuses of an HTLCAttempt.
#[allow(nonstandard_style)]
#[derive(Clone, Copy, Debug, PartialEq, Eq, Structural)]
pub enum HTLCStatus {
    /// The HTLC is currently in flight.
    IN_FLIGHT,
    /// The HTLC completed successfully.
    SUCCEEDED,
    /// The HTLC failed.
    FAILED,
}

/// Represent the possible failure reasons of an HTLCAttempt.
#[allow(nonstandard_style)]
#[derive(Clone, Copy, Debug, PartialEq, Eq, Structural)]
pub enum FailureCode {
    /// Reserved failure reason.
    RESERVED,
    /// Incorrect or unknown payment details.
    INCORRECT_OR_UNKNOWN_PAYMENT_DETAILS,
    /// Incorrect payment amount.
    INCORRECT_PAYMENT_AMOUNT,
    /// Final incorrect CLTV expiry.
    FINAL_INCORRECT_CLTV_EXPIRY,
    /// Final incorrect HTLC amount.
    FINAL_INCORRECT_HTLC_AMOUNT,
    /// Final expiry too soon.
    FINAL_EXPIRY_TOO_SOON,
    /// Invalid realm.
    INVALID_REALM,
    /// Expiry too soon.
    EXPIRY_TOO_SOON,
    /// Invalid onion version.
    INVALID_ONION_VERSION,
    /// Invalid onion HMAC.
    INVALID_ONION_HMAC,
    /// Invalid onion key.
    INVALID_ONION_KEY,
    /// Amount below minimum.
    AMOUNT_BELOW_MINIMUM,
    /// Fee insufficient.
    FEE_INSUFFICIENT,
    /// Incorrect CLTV expiry.
    INCORRECT_CLTV_EXPIRY,
    /// Channel disabled.
    CHANNEL_DISABLED,
    /// Temporary channel failure.
    TEMPORARY_CHANNEL_FAILURE,
    /// Required node feature missing.
    REQUIRED_NODE_FEATURE_MISSING,
    /// Required channel feature missing.
    REQUIRED_CHANNEL_FEATURE_MISSING,
    /// Unknown next peer.
    UNKNOWN_NEXT_PEER,
    /// Temporary node failure.
    TEMPORARY_NODE_FAILURE,
    /// Permanent node failure.
    PERMANENT_NODE_FAILURE,
    /// Permanent channel failure.
    PERMANENT_CHANNEL_FAILURE,
    /// Expiry too far.
    EXPIRY_TOO_FAR,
    /// MPP timeout.
    MPP_TIMEOUT,
    /// Invalid onion payload.
    INVALID_ONION_PAYLOAD,
    /// Internal failure.
    INTERNAL_FAILURE,
    /// Unknown failure.
    UNKNOWN_FAILURE,
    /// An unreadable failure result is returned if the received failure
    /// message cannot be decrypted.
    UNREADABLE_FAILURE,
}

/// Details of an invoice to be created on the node.
#[derive(Debug)]
pub struct AddInvoiceRequest {
    pub memo: Option<String>,
    pub r_preimage: Option<String>,
    pub value_msat: u64,
    pub description_hash: Option<String>,
    pub expiry: i32,
    pub fallback_addr: Option<String>,
    pub cltv_expiry: Option<i32>,
}

impl Default for AddInvoiceRequest {
    /// An empty request: every optional field absent, amount and expiry zero.
    fn default() -> (r: Self)
        ensures
            r == (AddInvoiceRequest {
                memo: None,
                r_preimage: None,
                value_msat: 0u64,
                description_hash: None,
                expiry: 0i32,
                fallback_addr: None,
                cltv_expiry: None,
            }),
    {
        AddInvoiceRequest {
            memo: None,
            r_preimage: None,
            value_msat: 0,
            description_hash: None,
            expiry: 0,
            fallback_addr: None,
            cltv_expiry: None,
        }
    }
}

/// The node's reply to a successful invoice creation.
#[derive(Clone, Debug, PartialEq, Eq)]
pub struct AddInvoiceResponse {
    pub r_hash: Base64String,
    pub payment_request: String,
    pub add_index: String,
    pub payment_addr: Base64String,
}

/// The node's reply to an invoice lookup.
#[derive(Clone, Debug, PartialEq, Eq)]
pub struct LookupInvoiceResponse {
    pub memo: String,
    pub r_preimage: Base64String,
    pub r_hash: Base64String,
    pub value: String,
    pub value_msat: String,
    pub settled: bool,
    pub settle_date: String,
    pub creation_date: String,
    pub payment_request: String,
    pub expiry: String,
    pub state: InvoiceState,
}

/// An upper bound on the routing fee a payment may incur.
#[derive(Clone, Debug, PartialEq, Eq)]
pub struct FeeLimit {
    pub fixed: Option<String>,
    pub fixed_msat: Option<String>,
    pub percent: Option<String>,
}

/// Details of a payment to be sent by the node.
#[derive(Debug)]
pub struct SendPaymentSyncRequest {
    pub dest: Option<Base64String>,
    pub amt: Option<String>,
    pub amt_msat: Option<String>,
    pub payment_hash: Option<Base64String>,
    pub payment_request: String,
    pub final_cltv_delta: Option<i32>,
    pub fee_limit: Option<FeeLimit>,
    pub outgoing_chan_id: Option<String>,
    pub last_hop_pubkey: Option<Base64String>,
    pub cltv_limit: Option<i64>,
    pub allow_self_payment: Option<bool>,
    pub dest_features: Option<Vec<u8>>,
    pub payment_addr: Option<Base64String>,
}

impl Default for SendPaymentSyncRequest {
    /// An empty request: every optional field absent, empty payment request.
    fn default() -> (r: Self)
        ensures
            r.dest is None && r.amt is None && r.amt_msat is None,
            r.payment_hash is None && r.payment_request@ == Seq::<char>::empty(),
            r.final_cltv_delta is None && r.fee_limit is None,
            r.outgoing_chan_id is None && r.last_hop_pubkey is None,
            r.cltv_limit is None && r.allow_self_payment is None,
            r.dest_features is None && r.payment_addr is None,
    {
        SendPaymentSyncRequest {
            dest: None,
            amt: None,
            amt_msat: None,
            payment_hash: None,
            payment_request: String::new(),
            final_cltv_delta: None,
            fee_limit: None,
            outgoing_chan_id: None,
            last_hop_pubkey: None,
            cltv_limit: None,
            allow_self_payment: None,
            dest_features: None,
            payment_addr: None,
        }
    }
}

/// Auxiliary record carried by the final hop of a multi-path payment.
#[derive(Clone, Debug, PartialEq, Eq)]
pub struct MppRecord {
    pub payment_addr: Base64String,
    pub total_amt_msat: String,
}

/// Auxiliary record carried by a hop of an atomic multi-path payment.
#[derive(Clone, Debug, PartialEq, Eq)]
pub struct AmpRecord {
    pub root_share: Base64String,
    pub set_id: Base64String,
    pub child_index: i64,
}

/// One forwarding step of a payment route.
///
/// `custom_records` is an open key/value map of custom records; it is kept
/// as an ordered list of entries whose keys [`Hop::wf`] requires to be
/// pairwise distinct, so that the list stands for a map.
#[derive(Clone, Debug, PartialEq, Eq)]
pub struct Hop {
    pub chan_id: String,
    pub chan_capacity: String,
    pub amt_to_forward: String,
    pub fee: String,
    pub expiry: i64,
    pub amt_to_forward_msat: String,
    pub fee_msat: String,
    pub pub_key: Option<String>,
    pub tlv_payload: bool,
    pub mpp_record: Option<MppRecord>,
    pub amp_record: Option<AmpRecord>,
    pub custom_records: Vec<(String, String)>,
    pub metadata: Base64String,
}

impl Hop {
    /// Well-formedness: the custom-records entry list stands for a map, so
    /// its keys are pairwise distinct.  Decoding establishes this.
    pub open spec fn wf(self) -> bool {
        forall|i: int, l: int|
            0 <= i < l < self.custom_records@.len() ==> self.custom_records@[i].0@
                != self.custom_records@[l].0@
    }
}

/// The ordered sequence of hops a payment traverses.
#[derive(Clone, Debug, PartialEq, Eq)]
pub struct Route {
    pub total_time_lock: i64,
    pub total_amt: String,
    pub total_amt_msat: String,
    pub total_fees: String,
    pub total_fees_msat: String,
    pub hops: Vec<Hop>,
}

/// The node's reply to a payment send.
///
/// A non-empty `payment_error` reports an application-level failure inside
/// an HTTP 200 reply; classifying it is left to the caller.
#[derive(Clone, Debug, PartialEq, Eq)]
pub struct SendPaymentSyncResponse {
    pub payment_error: String,
    pub payment_preimage: Base64String,
    pub payment_route: Option<Route>,
    pub payment_hash: Base64String,
}

/// Selection and pagination parameters for a payment listing.
#[derive(Debug)]
pub struct ListPaymentsRequest {
    pub include_incomplete: bool,
    pub index_offset: u64,
    pub max_payments: u64,
    pub reversed: bool,
    pub count_total_payments: bool,
    pub creation_date_start: u64,
    pub creation_date_end: u64,
}

impl Default for ListPaymentsRequest {
    /// An empty request: every flag false, every bound and offset zero.
    fn default() -> (r: Self)
        ensures
            r == (ListPaymentsRequest {
                include_incomplete: false,
                index_offset: 0u64,
                max_payments: 0u64,
                reversed: false,
                count_total_payments: false,
                creation_date_start: 0u64,
                creation_date_end: 0u64,
            }),
    {
        ListPaymentsRequest {
            include_incomplete: false,
            index_offset: 0,
            max_payments: 0,
            reversed: false,
            count_total_payments: false,
            creation_date_start: 0,
            creation_date_end: 0,
        }
    }
}

/// A signed update to a channel's forwarding policy, attached to a failure.
#[derive(Clone, Debug, PartialEq, Eq)]
pub struct ChannelUpdate {
    pub signature: String,
    pub chain_hash: String,
    pub chan_id: String,
    pub timestamp: u32,
    pub message_flags: u32,
    pub channel_flags: u32,
    pub time_lock_delta: u32,
    pub htlc_minimum_msat: String,
    pub base_fee: u32,
    pub fee_rate: u32,
    pub htlc_maximum_msat: String,
    pub extra_opaque_data: String,
}

/// A routing failure reported for one HTLC attempt.
#[derive(Clone, Debug, PartialEq, Eq)]
pub struct Failure {
    pub code: FailureCode,
    pub channel_update: Option<ChannelUpdate>,
    pub htlc_msat: String,
    pub onion_sha_256: String,
    pub cltv_expiry: u32,
    pub flags: u32,
    pub failure_source_index: u32,
    pub height: u32,
}

/// One HTLC attempt made while executing a payment.
#[derive(Clone, Debug, PartialEq, Eq)]
pub struct HTLCAttempt {
    pub attempt_id: String,
    pub status: HTLCStatus,
    pub route: Route,
    pub attempt_time_ns: String,
    pub resolve_time_ns: String,
    pub failure: Option<Failure>,
    pub preimage: String,
}

/// One payment known to the node.
#[derive(Clone, Debug, PartialEq, Eq)]
pub struct Payment {
    pub payment_hash: Base64String,
    pub payment_preimage: Base64String,
    pub payment_request: String,
    pub status: PaymentStatus,
    pub fee_sat: String,
    pub fee_msat: String,
    pub value_sat: String,
    pub value_msat: String,
    pub creation_time_ns: String,
    pub htlcs: Vec<HTLCAttempt>,
    pub payment_index: String,
    pub failure_reason: PaymentFailureReason,
}

/// The node's reply to a payment listing.
#[derive(Clone, Debug, PartialEq, Eq)]
pub struct ListPaymentsResponse {
    pub payments: Vec<Payment>,
    pub first_index_offset: String,
    pub last_index_offset: String,
    pub total_num_payments: String,
}

} // verus!
