//! The binding of a request type to its hash algorithm, and the marker of
//! response types.

use crate::common::enums::Version;
use crate::signer::HashAlgorithm;
use vstd::prelude::*;

verus! {

/// The algorithm the gateway validates signatures with for an API version:
/// SHA-1 on the legacy version 3 endpoints, SHA3-256 on the current ones.
pub open spec fn algorithm_for_version(version: Version) -> HashAlgorithm {
    match version {
        Version::Three => HashAlgorithm::Sha1,
        Version::Seven => HashAlgorithm::Sha3_256,
    }
}

/// A request of the gateway. Each request type is bound to exactly one hash
/// algorithm, the one its endpoint validates signatures with.
pub trait LiqPayRequest {
    /// The algorithm this request type is bound to.
    spec fn spec_hash_algorithm() -> HashAlgorithm;

    /// The API version the constructors of this request type address.
    spec fn spec_version() -> Version;

    /// The bound algorithm is the one the gateway expects for the version
    /// the request is addressed to.
    proof fn lemma_algorithm_fits_version()
        ensures
            Self::spec_hash_algorithm() == algorithm_for_version(Self::spec_version()),
    ;

    /// The algorithm this request type is bound to.
    fn hash_algorithm() -> (r: HashAlgorithm)
        ensures
            r == Self::spec_hash_algorithm(),
    ;
}

/// A response of the gateway.
pub trait LiqPayResponse {}

}
