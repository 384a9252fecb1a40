//! Configuration defaults for the backend addresses.
//!
//! The values come from the environment at bootstrap; these are the
//! defaults that stand in for absent entries. The signing secret has no
//! default on purpose: a process without one must fail to start.

use vstd::prelude::*;

verus! {

/// Where the three backends live, and the local-testing pricing toggle.
#[derive(Debug, Clone, PartialEq, Eq)]
pub struct DependencyConfig {
    pub flightmngr_url: String,
    pub priceest_url: String,
    pub ticketsvc_url: String,
    pub fake_price: bool,
}

pub fn default_port() -> (r: u16)
    ensures
        r == 50051,
{
    50051
}

pub fn default_flightmngr_url() -> (r: String)
    ensures
        r@ == "grpc://flightmngr:50051"@,
{
    "grpc://flightmngr:50051".to_owned()
}

pub fn default_priceest_url() -> (r: String)
    ensures
        r@ == "grpc://priceest:50051"@,
{
    "grpc://priceest:50051".to_owned()
}

pub fn default_ticketsvc_url() -> (r: String)
    ensures
        r@ == "grpc://ticketsvc:50051"@,
{
    "grpc://ticketsvc:50051".to_owned()
}

} // verus!
