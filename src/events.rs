//! The events of the futures user-data and market streams, how a payload's
//! event kind is found from its marker text, and how fields written either
//! as text or natively are read.
use vstd::prelude::*;

use crate::error::StreamError;
use crate::text::{
    chars_of, contains, decimal, find_in, lemma_decimal_reads_back, parse_unsigned, same_text,
    unsigned_value,
};

verus! {

/// The kind of a stream event, one for each marker.
#[derive(Debug, Clone, Copy, PartialEq, Eq, Structural)]
pub enum EventKind {
    OrderTrade,
    AccountUpdate,
    LeverageUpdate,
    ListenKeyExpired,
    AggTrade,
}

/// Marker of an order or trade update.
pub const ORDER_TRADE_UPDATE: &'static str = "ORDER_TRADE_UPDATE";

/// Marker of a balance and position update.
pub const ACCOUNT_UPDATE: &'static str = "ACCOUNT_UPDATE";

/// Marker of an account configuration (leverage) update.
pub const ACCOUNT_CONFIG_UPDATE: &'static str = "ACCOUNT_CONFIG_UPDATE";

/// Marker of the expiry of the listen key.
pub const LISTEN_KEY_EXPIRED: &'static str = "listenKeyExpired";

/// Marker of an aggregated trade.
pub const AGGREGATED_TRADE: &'static str = "aggTrade";

/// The marker text that identifies each kind of event.
pub open spec fn marker(kind: EventKind) -> Seq<char> {
    match kind {
        EventKind::OrderTrade => ORDER_TRADE_UPDATE@,
        EventKind::AccountUpdate => ACCOUNT_UPDATE@,
        EventKind::LeverageUpdate => ACCOUNT_CONFIG_UPDATE@,
        EventKind::ListenKeyExpired => LISTEN_KEY_EXPIRED@,
        EventKind::AggTrade => AGGREGATED_TRADE@,
    }
}

/// The kind of the first marker, in priority order, that occurs in the
/// payload text; `None` where none does.
pub open spec fn kind_of(payload: Seq<char>) -> Option<EventKind> {
    if contains(payload, marker(EventKind::OrderTrade)) {
        Some(EventKind::OrderTrade)
    } else if contains(payload, marker(EventKind::AccountUpdate)) {
        Some(EventKind::AccountUpdate)
    } else if contains(payload, marker(EventKind::LeverageUpdate)) {
        Some(EventKind::LeverageUpdate)
    } else if contains(payload, marker(EventKind::ListenKeyExpired)) {
        Some(EventKind::ListenKeyExpired)
    } else if contains(payload, marker(EventKind::AggTrade)) {
        Some(EventKind::AggTrade)
    } else {
        None
    }
}

/// The position of each kind in the order in which markers are tested.
pub open spec fn priority(kind: EventKind) -> nat {
    match kind {
        EventKind::OrderTrade => 0,
        EventKind::AccountUpdate => 1,
        EventKind::LeverageUpdate => 2,
        EventKind::ListenKeyExpired => 3,
        EventKind::AggTrade => 4,
    }
}

/// A payload is of kind `k` exactly when `k`'s marker occurs in it and no
/// marker tested before `k`'s does, whatever later markers it holds.
pub proof fn law_marker_priority(payload: Seq<char>, k: EventKind)
    ensures
        kind_of(payload) == Some(k) <==> (contains(payload, marker(k)) && forall|j: EventKind|
            priority(j) < priority(k) ==> !contains(payload, #[trigger] marker(j))),
{
    assert forall|j: EventKind| priority(j) < priority(k) && kind_of(payload) == Some(k) implies !contains(
        payload,
        #[trigger] marker(j),
    ) by {
        match j {
            EventKind::OrderTrade => {},
            EventKind::AccountUpdate => {},
            EventKind::LeverageUpdate => {},
            EventKind::ListenKeyExpired => {},
            EventKind::AggTrade => {},
        }
    }
}

/// A payload in which exactly one marker occurs is of that marker's kind.
pub proof fn law_single_marker(payload: Seq<char>, k: EventKind)
    requires
        contains(payload, marker(k)),
        forall|j: EventKind| j != k ==> !contains(payload, #[trigger] marker(j)),
    ensures
        kind_of(payload) == Some(k),
{
    law_marker_priority(payload, k);
}

/// Finds the event kind of a payload by its markers, tested in priority
/// order; a payload with no marker is unrecognized.
pub fn classify_payload(payload: &str) -> (r: Result<EventKind, StreamError>)
    ensures
        kind_of(payload@) is Some ==> r == Ok::<EventKind, StreamError>(kind_of(payload@)->0),
        kind_of(payload@) is None ==> (r matches Err(StreamError::Unrecognized(t)) && t@
            == payload@),
{
    let text = chars_of(payload);
    if find_in(&text, &chars_of(ORDER_TRADE_UPDATE)) {
        Ok(EventKind::OrderTrade)
    } else if find_in(&text, &chars_of(ACCOUNT_UPDATE)) {
        Ok(EventKind::AccountUpdate)
    } else if find_in(&text, &chars_of(ACCOUNT_CONFIG_UPDATE)) {
        Ok(EventKind::LeverageUpdate)
    } else if find_in(&text, &chars_of(LISTEN_KEY_EXPIRED)) {
        Ok(EventKind::ListenKeyExpired)
    } else if find_in(&text, &chars_of(AGGREGATED_TRADE)) {
        Ok(EventKind::AggTrade)
    } else {
        Err(StreamError::Unrecognized(String::from_str(payload)))
    }
}


/// A field that the exchange writes either as text or as a native JSON
/// value, as the decoder finds it.
#[derive(Debug, Clone)]
pub enum FieldValue {
    Null,
    Bool(bool),
    /// A number that is a whole number from 0 to `u64::MAX`.
    Unsigned(u64),
    /// Any other number.
    OtherNumber,
    Text(String),
    /// An array or an object.
    Compound,
}

/// The integer that a field denotes: a native integer as it is, a text
/// holding an optional `+` and decimal digits by its value where that fits
/// in 64 bits; nothing for any other field.
pub open spec fn integer_field(f: FieldValue) -> Option<u64> {
    match f {
        FieldValue::Unsigned(n) => Some(n),
        FieldValue::Text(t) => match unsigned_value(t@) {
            Some(v) => if v <= u64::MAX {
                Some(v as u64)
            } else {
                None
            },
            None => None,
        },
        _ => None,
    }
}

/// The boolean that a field denotes: a native boolean as it is, the texts
/// `true` and `false` by their meaning; nothing for any other field.
pub open spec fn bool_field(f: FieldValue) -> Option<bool> {
    match f {
        FieldValue::Bool(b) => Some(b),
        FieldValue::Text(t) => if t@ == "true"@ {
            Some(true)
        } else if t@ == "false"@ {
            Some(false)
        } else {
            None
        },
        _ => None,
    }
}

/// Reads an integer field written either as text or as a number.
pub fn string_or_integer(f: &FieldValue) -> (r: Option<u64>)
    ensures
        r == integer_field(*f),
{
    match f {
        FieldValue::Unsigned(n) => Some(*n),
        FieldValue::Text(t) => parse_unsigned(t.as_str()),
        _ => None,
    }
}

/// Reads a boolean field written either as text or natively.
pub fn string_or_bool(f: &FieldValue) -> (r: Option<bool>)
    ensures
        r == bool_field(*f),
{
    match f {
        FieldValue::Bool(b) => Some(*b),
        FieldValue::Text(t) => {
            if same_text(t.as_str(), "true") {
                Some(true)
            } else if same_text(t.as_str(), "false") {
                Some(false)
            } else {
                None
            }
        },
        _ => None,
    }
}

/// An integer field decodes to the same value whether it is written as
/// decimal text or as a native number; an array or an object does not
/// decode.
pub proof fn law_integer_text_or_number(n: u64, text: String)
    requires
        text@ == decimal(n as nat),
    ensures
        integer_field(FieldValue::Text(text)) == Some(n),
        integer_field(FieldValue::Unsigned(n)) == Some(n),
        integer_field(FieldValue::Compound) is None,
{
    lemma_decimal_reads_back(n as nat);
}

/// A boolean field decodes to the same value whether it is written as
/// `true`/`false` text or natively; an array or an object does not decode.
pub proof fn law_bool_text_or_native(b: bool, text: String)
    requires
        text@ == (if b {
            "true"@
        } else {
            "false"@
        }),
    ensures
        bool_field(FieldValue::Text(text)) == Some(b),
        bool_field(FieldValue::Bool(b)) == Some(b),
        bool_field(FieldValue::Compound) is None,
{
    reveal_strlit("true");
    reveal_strlit("false");
    assert("true"@.len() != "false"@.len());
}

/// The server's notice that the listen key of a user-data stream expired.
#[derive(Debug, Clone)]
pub struct ListenKeyExpiredEvent {
    pub event_type: String,
    pub event_time: u64,
}

/// The server's notice that the leverage of a symbol changed.
#[derive(Debug, Clone)]
pub struct LeverageUpdateEvent {
    pub event_type: String,
    pub transaction_time: u64,
    pub event_time: u64,
    pub event: LeverageUpdate,
}

/// The symbol and its new leverage.
#[derive(Debug, Clone)]
pub struct LeverageUpdate {
    pub symbol: String,
    pub position_amount: u64,
}

/// The exchange's plain acknowledgement of a request.
#[derive(Debug, Clone)]
pub struct Response {
    pub code: u64,
    pub msg: String,
}

} // verus!
