use salesvc::error::ApplicationError;
use salesvc::gateway::{fake_price_estimate, iata_lookup, price_from_estimation, ticket_request};
use salesvc::messages::{
    Airport, Flight, Money, OfferClaims, PassengerDetails, PurchaseOfferRequest,
    SearchFlightsRequest, SearchOffersRequest, Timestamp,
};
use salesvc::sale::{
    assemble_offers, authorize_purchase_at, create_offer, offer_expiration, PurchaseRejection,
    OFFER_TTL_SECONDS,
};
use salesvc::tokens::{TagManager, TokenVerifyError};

fn money(currency: &str, units: i64, nanos: i32) -> Money {
    Money {
        currency_code: String::from(currency),
        units,
        nanos,
    }
}

fn flight(id: &str, origin: &str, destination: &str) -> Flight {
    Flight {
        id: String::from(id),
        origin_id: String::from(origin),
        destination_id: String::from(destination),
        departure_time: Some(Timestamp {
            seconds: 1_717_200_000,
            nanos: 0,
        }),
        arrival_time: Some(Timestamp {
            seconds: 1_717_221_600,
            nanos: 0,
        }),
    }
}

fn passenger(name: &str) -> PassengerDetails {
    PassengerDetails {
        name: String::from(name),
        email: String::from("traveler@example.com"),
    }
}

#[test]
fn expiration_is_fifteen_minutes_out() {
    assert_eq!(OFFER_TTL_SECONDS, 900);
    assert_eq!(offer_expiration(1_700_000_000), 1_700_000_900);
}

#[test]
fn search_request_maps_fields() {
    let r = SearchFlightsRequest::from(SearchOffersRequest {
        departure_airport: String::from("SFO"),
        arrival_airport: String::from("JFK"),
        departure_date: String::from("2024-06-01"),
    });
    assert_eq!(r.origin_id, "SFO");
    assert_eq!(r.destination_id, "JFK");
    assert_eq!(r.departure_day, "2024-06-01");
}

#[test]
fn offers_keep_search_order() {
    let tm = TagManager::new(b"secret".to_vec());
    let flights = vec![
        flight("A", "SFO", "JFK"),
        flight("B", "SFO", "JFK"),
        flight("C", "SFO", "JFK"),
    ];
    let prices = vec![
        Ok(money("USD", 100, 0)),
        Ok(money("USD", 200, 0)),
        Ok(money("USD", 300, 0)),
    ];
    let offers = assemble_offers(&tm, flights, prices, 1_700_000_900).unwrap();
    assert_eq!(offers.len(), 3);
    assert_eq!(offers[0].flight.as_ref().unwrap().id, "A");
    assert_eq!(offers[1].flight.as_ref().unwrap().id, "B");
    assert_eq!(offers[2].flight.as_ref().unwrap().id, "C");
    assert_eq!(offers[0].price.as_ref().unwrap().units, 100);
    assert_eq!(offers[1].price.as_ref().unwrap().units, 200);
    assert_eq!(offers[2].price.as_ref().unwrap().units, 300);
    for offer in &offers {
        assert_eq!(offer.expiration.unwrap().seconds, 1_700_000_900);
        assert_eq!(offer.tag.len(), 32);
    }
}

#[test]
fn one_failed_estimate_fails_the_whole_search() {
    let tm = TagManager::new(b"secret".to_vec());
    let flights = vec![
        flight("A", "SFO", "JFK"),
        flight("B", "SFO", "JFK"),
        flight("C", "SFO", "JFK"),
    ];
    let prices = vec![
        Ok(money("USD", 100, 0)),
        Err(ApplicationError::UnexpectedError(
            "no price found in response from priceestimator",
        )),
        Ok(money("USD", 300, 0)),
    ];
    let r = assemble_offers(&tm, flights, prices, 1_700_000_900);
    match r {
        Err(ApplicationError::UnexpectedError(m)) => {
            assert_eq!(m, "no price found in response from priceestimator")
        }
        _ => panic!("expected the batch to fail with the estimator's error"),
    }
}

#[test]
fn search_and_purchase_scenario() {
    let tm = TagManager::new(b"secret".to_vec());
    let now = 1_717_200_000;
    let expiration = offer_expiration(now);
    let flights = vec![flight("F1", "SFO", "JFK")];
    let prices = vec![Ok(money("USD", 120, 0))];
    let offers = assemble_offers(&tm, flights, prices, expiration).unwrap();
    assert_eq!(offers.len(), 1);
    let offer = &offers[0];
    assert_eq!(offer.flight.as_ref().unwrap().id, "F1");
    assert_eq!(offer.price.as_ref().unwrap().units, 120);
    assert_eq!(offer.expiration.unwrap().seconds, now + 900);

    // Echoed back within the validity window, the offer verifies and the
    // purchase goes forward.
    let request = PurchaseOfferRequest {
        offer: Some(OfferClaims {
            flight_id: String::from("F1"),
            price: Some(money("USD", 120, 0)),
            expiration: Some(Timestamp {
                seconds: expiration,
                nanos: 0,
            }),
        }),
        tag: offer.tag.clone(),
        data: Some(passenger("Ada")),
    };
    let (flight_id, details) = authorize_purchase_at(&tm, request.clone(), now + 60).unwrap();
    assert_eq!(flight_id, "F1");
    assert_eq!(details.name, "Ada");

    // Sixteen minutes later the same echo is expired.
    let r = authorize_purchase_at(&tm, request, now + 960);
    assert_eq!(
        r,
        Err(PurchaseRejection::InvalidOffer(TokenVerifyError::Expired))
    );
}

#[test]
fn tampered_tag_is_rejected_before_any_ticket_work() {
    let tm = TagManager::new(b"secret".to_vec());
    let now = 1_717_200_000;
    let expiration = offer_expiration(now);
    let price = money("USD", 120, 0);
    let mut tag = tm.generate_tag("F1", &price, expiration);
    let last = tag.len() - 1;
    tag[last] ^= 0x01;
    let request = PurchaseOfferRequest {
        offer: Some(OfferClaims {
            flight_id: String::from("F1"),
            price: Some(price),
            expiration: Some(Timestamp {
                seconds: expiration,
                nanos: 0,
            }),
        }),
        tag,
        data: Some(passenger("Ada")),
    };
    // The rejection comes out of the decision itself: no flight id and no
    // passenger ever reach the ticket backend.
    let r = authorize_purchase_at(&tm, request, now);
    assert_eq!(
        r,
        Err(PurchaseRejection::InvalidOffer(
            TokenVerifyError::InvalidSignature
        ))
    );
}

#[test]
fn malformed_purchase_requests_are_rejected_first() {
    let tm = TagManager::new(b"secret".to_vec());
    let claims = OfferClaims {
        flight_id: String::from("F1"),
        price: Some(money("USD", 120, 0)),
        expiration: Some(Timestamp {
            seconds: 1_717_200_900,
            nanos: 0,
        }),
    };
    let tag = tm.generate_tag("F1", &money("USD", 120, 0), 1_717_200_900);

    let missing_offer = PurchaseOfferRequest {
        offer: None,
        tag: tag.clone(),
        data: Some(passenger("Ada")),
    };
    assert_eq!(
        authorize_purchase_at(&tm, missing_offer, 1_717_200_000),
        Err(PurchaseRejection::InvalidRequest)
    );

    let missing_data = PurchaseOfferRequest {
        offer: Some(claims.clone()),
        tag: tag.clone(),
        data: None,
    };
    assert_eq!(
        authorize_purchase_at(&tm, missing_data, 1_717_200_000),
        Err(PurchaseRejection::InvalidRequest)
    );

    let missing_price = PurchaseOfferRequest {
        offer: Some(OfferClaims {
            price: None,
            ..claims.clone()
        }),
        tag: tag.clone(),
        data: Some(passenger("Ada")),
    };
    assert_eq!(
        authorize_purchase_at(&tm, missing_price, 1_717_200_000),
        Err(PurchaseRejection::InvalidRequest)
    );

    let missing_expiration = PurchaseOfferRequest {
        offer: Some(OfferClaims {
            expiration: None,
            ..claims
        }),
        tag,
        data: Some(passenger("Ada")),
    };
    assert_eq!(
        authorize_purchase_at(&tm, missing_expiration, 1_717_200_000),
        Err(PurchaseRejection::InvalidRequest)
    );
}

#[test]
fn created_offer_carries_its_claims() {
    let tm = TagManager::new(b"secret".to_vec());
    let f = flight("F1", "SFO", "JFK");
    let p = money("USD", 120, 0);
    let offer = create_offer(f, p, 1_717_200_900, &tm);
    assert_eq!(offer.flight.as_ref().unwrap().id, "F1");
    assert_eq!(offer.price.as_ref().unwrap().units, 120);
    assert_eq!(offer.expiration.unwrap().seconds, 1_717_200_900);
    assert_eq!(offer.expiration.unwrap().nanos, 0);
    assert_eq!(
        tm.verify_offer_at("F1", &money("USD", 120, 0), 1_717_200_900, &offer.tag, 1_717_200_000),
        Ok(())
    );
}

#[test]
fn estimation_without_price_is_a_contract_violation() {
    match price_from_estimation(None) {
        Err(ApplicationError::UnexpectedError(m)) => {
            assert_eq!(m, "no price found in response from priceestimator")
        }
        _ => panic!("expected an unexpected-response error"),
    }
    assert_eq!(price_from_estimation(Some(money("USD", 7, 0))), Ok(money("USD", 7, 0)));
}

#[test]
fn fake_price_is_one_hundred_dollars() {
    let m = fake_price_estimate();
    assert_eq!(m.currency_code, "USD");
    assert_eq!(m.units, 100);
    assert_eq!(m.nanos, 0);
}

#[test]
fn airport_lookup_takes_the_last_occurrence() {
    let airports = vec![
        Airport {
            id: String::from("a1"),
            iata: String::from("SFO"),
        },
        Airport {
            id: String::from("a2"),
            iata: String::from("JFK"),
        },
        Airport {
            id: String::from("a1"),
            iata: String::from("OAK"),
        },
    ];
    assert_eq!(iata_lookup(&airports, &String::from("a2")), Ok(String::from("JFK")));
    assert_eq!(iata_lookup(&airports, &String::from("a1")), Ok(String::from("OAK")));
    match iata_lookup(&airports, &String::from("a3")) {
        Err(ApplicationError::UnexpectedError(m)) => {
            assert_eq!(m, "airport not found in response from airports service")
        }
        _ => panic!("expected an unknown airport to be an unexpected error"),
    }
}

#[test]
fn ticket_request_shape() {
    let t = ticket_request(
        String::from("F1"),
        passenger("Ada"),
        Timestamp {
            seconds: 1_717_200_060,
            nanos: 42,
        },
    );
    assert_eq!(t.id, "");
    assert_eq!(t.flight_id, "F1");
    assert_eq!(t.passenger.unwrap().name, "Ada");
    assert_eq!(t.reservation_datetime.unwrap().seconds, 1_717_200_060);
    assert_eq!(t.reservation_datetime.unwrap().nanos, 42);
}

#[test]
fn configuration_defaults() {
    assert_eq!(salesvc::config::default_port(), 50051);
    assert_eq!(salesvc::config::default_flightmngr_url(), "grpc://flightmngr:50051");
    assert_eq!(salesvc::config::default_priceest_url(), "grpc://priceest:50051");
    assert_eq!(salesvc::config::default_ticketsvc_url(), "grpc://ticketsvc:50051");
}
