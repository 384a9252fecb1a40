//! The decisions behind the backend gateway.
//!
//! The calls themselves are connection-bound work at the service's edge;
//! what is decided about their payloads — reading a price out of an
//! estimation response, resolving an airport to its IATA code, shaping the
//! ticket record to issue — is plain logic on plain values and lives here.

use crate::error::ApplicationError;
use crate::messages::{Airport, Money, PassengerDetails, Ticket, Timestamp};
use vstd::prelude::*;

verus! {

/// The fixed amount substituted for a real estimate when the fake pricing
/// toggle is on. A testing escape hatch, never for production.
pub fn fake_price_estimate() -> (m: Money)
    ensures
        m.currency_code@ == "USD"@,
        m.units == 100,
        m.nanos == 0,
{
    Money { currency_code: "USD".to_owned(), units: 100, nanos: 0 }
}

/// Reads the price out of a successful estimation response. An estimator
/// that answers success with no price violates its contract: that is an
/// unexpected error, not a backend-reported failure.
pub fn price_from_estimation(price: Option<Money>) -> (r: Result<Money, ApplicationError>)
    ensures
        price is Some ==> r == Ok::<Money, ApplicationError>(price->0),
        price is None ==> r is Err && (r->Err_0 matches ApplicationError::UnexpectedError(m)
            && m@ == "no price found in response from priceestimator"@),
{
    match price {
        Some(p) => Ok(p),
        None => Err(
            ApplicationError::unexpected_error("no price found in response from priceestimator"),
        ),
    }
}

/// Whether the airport list carries an airport with this id.
pub open spec fn has_airport(airports: Seq<Airport>, id: Seq<char>) -> bool {
    exists|i: int| 0 <= i < airports.len() && airports[i].id@ == id
}

/// Resolves an airport id to its IATA code against the list the airports
/// backend returned. When the same id occurs more than once, the last
/// occurrence wins. An id the backend does not know is an unexpected error:
/// the flight naming it came from that same backend.
pub fn iata_lookup(airports: &Vec<Airport>, airport_id: &String) -> (r: Result<
    String,
    ApplicationError,
>)
    ensures
        r is Ok <==> has_airport(airports@, airport_id@),
        r is Ok ==> exists|i: int|
            0 <= i < airports@.len() && #[trigger] airports@[i].id@ == airport_id@
                && r->Ok_0@ == airports@[i].iata@ && (forall|j: int|
                i < j < airports@.len() ==> airports@[j].id@ != airport_id@),
        r is Err ==> (r->Err_0 matches ApplicationError::UnexpectedError(m) && m@
            == "airport not found in response from airports service"@),
{
    let mut found: Option<String> = None;
    let mut i: usize = 0;
    while i < airports.len()
        invariant
            i <= airports@.len(),
            found is Some ==> exists|k: int|
                0 <= k < i && #[trigger] airports@[k].id@ == airport_id@ && found->0@
                    == airports@[k].iata@ && (forall|j: int|
                    k < j < i ==> airports@[j].id@ != airport_id@),
            found is None ==> forall|k: int| 0 <= k < i ==> airports@[k].id@ != airport_id@,
        decreases airports@.len() - i,
    {
        if airports[i].id == *airport_id {
            found = Some(airports[i].iata.clone());
        }
        i = i + 1;
    }
    match found {
        Some(iata) => Ok(iata),
        None => Err(
            ApplicationError::unexpected_error(
                "airport not found in response from airports service",
            ),
        ),
    }
}

/// Shapes the ticket record handed to the issuance backend: the flight, the
/// passenger and the reservation time. Every other field is the backend's
/// to fill.
pub fn ticket_request(
    flight_id: String,
    passenger: PassengerDetails,
    reservation_time: Timestamp,
) -> (t: Ticket)
    ensures
        t.flight_id == flight_id,
        t.passenger == Some(passenger),
        t.reservation_datetime == Some(reservation_time),
        t.id@ == Seq::<char>::empty(),
{
    Ticket {
        id: String::new(),
        flight_id,
        passenger: Some(passenger),
        reservation_datetime: Some(reservation_time),
    }
}

} // verus!
