//! The offer lifecycle: searching produces signed offers, purchasing redeems
//! one.
//!
//! A search fans out one price estimation per candidate flight; the batch
//! either yields a fully priced, fully signed offer list in the flights'
//! own order, or nothing at all. A purchase first checks the request's
//! shape, then the tag, and only a verified offer reaches ticket issuance.

use crate::error::ApplicationError;
use crate::messages::{
    Flight, Money, Offer, PassengerDetails, PurchaseOfferRequest, SearchFlightsRequest,
    SearchOffersRequest, Timestamp,
};
use crate::tokens::{tag_matches, verify_outcome, TagManager, TokenVerifyError};
use vstd::prelude::*;

verus! {

/// How long an offer stays valid, in seconds: fifteen minutes.
pub const OFFER_TTL_SECONDS: i64 = 900;

/// The single expiration instant shared by every offer of one search batch,
/// so that no flight's validity can be extended selectively.
pub fn offer_expiration(now: i64) -> (r: i64)
    requires
        now + OFFER_TTL_SECONDS <= i64::MAX,
    ensures
        r == now + OFFER_TTL_SECONDS,
{
    now + OFFER_TTL_SECONDS
}

impl From<SearchOffersRequest> for SearchFlightsRequest {
    fn from(value: SearchOffersRequest) -> (r: Self) {
        SearchFlightsRequest {
            origin_id: value.departure_airport,
            destination_id: value.arrival_airport,
            departure_day: value.departure_date,
        }
    }
}

impl vstd::std_specs::convert::FromSpecImpl<SearchOffersRequest> for SearchFlightsRequest {
    open spec fn obeys_from_spec() -> bool {
        true
    }

    open spec fn from_spec(value: SearchOffersRequest) -> Self {
        SearchFlightsRequest {
            origin_id: value.departure_airport,
            destination_id: value.arrival_airport,
            departure_day: value.departure_date,
        }
    }
}

/// What it means for `o` to be the offer for `flight` at `price`, expiring
/// at `expiration`, signed under `secret`.
pub open spec fn offer_for(
    secret: Seq<u8>,
    flight: Flight,
    price: Money,
    expiration: i64,
    o: Offer,
) -> bool {
    &&& o.flight == Some(flight)
    &&& o.price == Some(price)
    &&& o.expiration == Some(Timestamp { seconds: expiration, nanos: 0 })
    &&& tag_matches(
        secret,
        flight.id@,
        expiration,
        price.currency_code@,
        price.units,
        price.nanos,
        o.tag@,
    )
}

/// Assembles one signed offer from a flight and its estimated price.
pub fn create_offer(flight: Flight, price: Money, expiration: i64, tm: &TagManager) -> (o: Offer)
    ensures
        offer_for(tm@, flight, price, expiration, o),
{
    let tag = tm.generate_tag(flight.id.as_str(), &price, expiration);
    Offer {
        tag,
        flight: Some(flight),
        price: Some(price),
        expiration: Some(Timestamp { seconds: expiration, nanos: 0 }),
    }
}

/// Joins the fan-out positionally: the i-th price estimate belongs to the
/// i-th flight. Either every estimate succeeded and the result carries one
/// signed offer per flight, in the flights' own order, or the whole batch
/// fails with the first failure's error and no offers at all.
#[verifier::loop_isolation(false)]
pub fn assemble_offers(
    tm: &TagManager,
    flights: Vec<Flight>,
    prices: Vec<Result<Money, ApplicationError>>,
    expiration: i64,
) -> (r: Result<Vec<Offer>, ApplicationError>)
    requires
        flights@.len() == prices@.len(),
    ensures
        r is Ok <==> (forall|i: int| 0 <= i < prices@.len() ==> prices@[i] is Ok),
        r is Ok ==> r->Ok_0@.len() == flights@.len(),
        r is Ok ==> forall|i: int|
            0 <= i < flights@.len() ==> offer_for(
                tm@,
                flights@[i],
                prices@[i]->Ok_0,
                expiration,
                #[trigger] r->Ok_0@[i],
            ),
        r is Err ==> exists|i: int|
            0 <= i < prices@.len() && #[trigger] prices@[i] == Err::<Money, ApplicationError>(
                r->Err_0,
            ) && (forall|j: int| 0 <= j < i ==> prices@[j] is Ok),
{
    let ghost all_flights = flights@;
    let ghost all_prices = prices@;
    let mut flights = flights;
    let mut prices = prices;
    let mut offers: Vec<Offer> = Vec::new();
    let n = flights.len();
    let mut i: usize = 0;
    while i < n
        invariant
            n == all_flights.len(),
            all_prices.len() == all_flights.len(),
            i <= n,
            flights@ == all_flights.skip(i as int),
            prices@ == all_prices.skip(i as int),
            offers@.len() == i,
            forall|j: int| 0 <= j < i ==> all_prices[j] is Ok,
            forall|j: int|
                0 <= j < i ==> offer_for(
                    tm@,
                    all_flights[j],
                    all_prices[j]->Ok_0,
                    expiration,
                    #[trigger] offers@[j],
                ),
        decreases n - i,
    {
        let f = flights.remove(0);
        let p = prices.remove(0);
        proof {
            assert(f == all_flights[i as int]);
            assert(p == all_prices[i as int]);
            assert(all_flights.skip(i as int).remove(0) =~= all_flights.skip(i as int + 1));
            assert(all_prices.skip(i as int).remove(0) =~= all_prices.skip(i as int + 1));
        }
        match p {
            Ok(price) => {
                let o = create_offer(f, price, expiration, tm);
                offers.push(o);
            },
            Err(e) => {
                proof {
                    assert(all_prices[i as int] == Err::<Money, ApplicationError>(e));
                }
                return Err(e);
            },
        }
        i = i + 1;
    }
    Ok(offers)
}

/// Why a purchase request was turned away without any backend work.
#[derive(Debug, Clone, Copy, PartialEq, Eq)]
pub enum PurchaseRejection {
    /// A required sub-field was absent from the request.
    InvalidRequest,
    /// The echoed claims and tag did not verify.
    InvalidOffer(TokenVerifyError),
}

/// Whether every required sub-field of a purchase request is present.
pub open spec fn purchase_request_well_formed(req: PurchaseOfferRequest) -> bool {
    &&& req.data is Some
    &&& req.offer is Some
    &&& req.offer->0.price is Some
    &&& req.offer->0.expiration is Some
}

/// The exact decision a purchase request meets at time `now`: rejected for
/// shape before anything else, then exactly as verification of the echoed
/// claims and tag goes; only on success do the flight id and the passenger
/// go forward to ticket issuance.
pub open spec fn purchase_decision(
    secret: Seq<u8>,
    req: PurchaseOfferRequest,
    now: i64,
) -> Result<(String, PassengerDetails), PurchaseRejection> {
    if !purchase_request_well_formed(req) {
        Err(PurchaseRejection::InvalidRequest)
    } else {
        let claims = req.offer->0;
        let price = claims.price->0;
        let expiration = claims.expiration->0.seconds;
        match verify_outcome(
            secret,
            claims.flight_id@,
            expiration,
            price.currency_code@,
            price.units,
            price.nanos,
            req.tag@,
            now,
        ) {
            Ok(_) => Ok((claims.flight_id, req.data->0)),
            Err(e) => Err(PurchaseRejection::InvalidOffer(e)),
        }
    }
}

/// Checks the shape of a purchase request and verifies its claims against
/// the clock `now`. No backend is consulted: a rejected request performs no
/// ticket work at all.
pub fn authorize_purchase_at(tm: &TagManager, request: PurchaseOfferRequest, now: i64) -> (r:
    Result<(String, PassengerDetails), PurchaseRejection>)
    ensures
        r == purchase_decision(tm@, request, now),
{
    let PurchaseOfferRequest { offer, tag, data } = request;
    let (claims, passenger) = match (offer, data) {
        (Some(claims), Some(passenger)) => (claims, passenger),
        _ => {
            return Err(PurchaseRejection::InvalidRequest);
        },
    };
    let (price, expiration) = match (&claims.price, &claims.expiration) {
        (Some(price), Some(expiration)) => (price, expiration.seconds),
        _ => {
            return Err(PurchaseRejection::InvalidRequest);
        },
    };
    match tm.verify_offer_at(claims.flight_id.as_str(), price, expiration, tag.as_slice(), now) {
        Ok(_) => Ok((claims.flight_id, passenger)),
        Err(e) => Err(PurchaseRejection::InvalidOffer(e)),
    }
}

/// As `authorize_purchase_at`, against the clock of the moment of the call.
pub fn authorize_purchase(tm: &TagManager, request: PurchaseOfferRequest) -> (r: Result<
    (String, PassengerDetails),
    PurchaseRejection,
>)
    ensures
        exists|now: i64| r == purchase_decision(tm@, request, now),
{
    let now = crate::tokens::current_unix_time();
    let r = authorize_purchase_at(tm, request, now);
    proof {
        assert(r == purchase_decision(tm@, request, now));
    }
    r
}

} // verus!
