//! The message types the service exchanges with its callers and backends.
//!
//! Optional sub-messages are `Option` fields, as on the wire: a request is
//! checked for the presence of every required sub-field before any
//! cryptographic or backend work is attempted.

use vstd::prelude::*;

verus! {

/// A decimal-safe monetary amount.
#[derive(Debug, Clone, PartialEq, Eq)]
pub struct Money {
    pub currency_code: String,
    pub units: i64,
    pub nanos: i32,
}

/// A point in time: seconds of the Unix epoch plus a nanosecond part.
#[derive(Debug, Clone, Copy, PartialEq, Eq, Structural)]
pub struct Timestamp {
    pub seconds: i64,
    pub nanos: i32,
}

/// A candidate flight as the flight inventory backend reports it. Read-only
/// for this service.
#[derive(Debug, Clone, PartialEq, Eq)]
pub struct Flight {
    pub id: String,
    pub origin_id: String,
    pub destination_id: String,
    pub departure_time: Option<Timestamp>,
    pub arrival_time: Option<Timestamp>,
}

/// An airport record from the flight inventory backend.
#[derive(Debug, Clone, PartialEq, Eq)]
pub struct Airport {
    pub id: String,
    pub iata: String,
}

/// Passenger data echoed through to the ticket issuance backend.
#[derive(Debug, Clone, PartialEq, Eq)]
pub struct PassengerDetails {
    pub name: String,
    pub email: String,
}

/// A ticket record as the ticket issuance backend owns it.
#[derive(Debug, Clone, PartialEq, Eq)]
pub struct Ticket {
    pub id: String,
    pub flight_id: String,
    pub passenger: Option<PassengerDetails>,
    pub reservation_datetime: Option<Timestamp>,
}

/// A priced, time-limited, signed offer returned to the caller. The tag
/// authenticates `(flight id, price, expiration)`; the offer's own fields are
/// the claims a purchase must echo back.
#[derive(Debug, Clone, PartialEq, Eq)]
pub struct Offer {
    pub flight: Option<Flight>,
    pub price: Option<Money>,
    pub expiration: Option<Timestamp>,
    pub tag: Vec<u8>,
}

/// The claims a purchase request echoes back from an offer.
#[derive(Debug, Clone, PartialEq, Eq)]
pub struct OfferClaims {
    pub flight_id: String,
    pub price: Option<Money>,
    pub expiration: Option<Timestamp>,
}

/// A request to turn a previously issued offer into a ticket.
#[derive(Debug, Clone, PartialEq, Eq)]
pub struct PurchaseOfferRequest {
    pub offer: Option<OfferClaims>,
    pub tag: Vec<u8>,
    pub data: Option<PassengerDetails>,
}

/// A search request as the caller phrases it.
#[derive(Debug, Clone, PartialEq, Eq)]
pub struct SearchOffersRequest {
    pub departure_airport: String,
    pub arrival_airport: String,
    pub departure_date: String,
}

/// A search request as the flight inventory backend phrases it.
#[derive(Debug, Clone, PartialEq, Eq)]
pub struct SearchFlightsRequest {
    pub origin_id: String,
    pub destination_id: String,
    pub departure_day: String,
}

} // verus!
