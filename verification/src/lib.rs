//! A whitelist-gated mint program core: a singleton global configuration, one
//! eligibility record per participant, one single-use metadata placeholder per
//! prospective token unit, and the admin-gated operations that create, mutate
//! and destroy them, together with the composite mint operation.

pub mod authority;
pub mod codec;
pub mod errors;
pub mod keys;
pub mod laws;
pub mod ledger;
pub mod mint;
pub mod model;
pub mod records;

use vstd::prelude::*;
use crate::errors::NftMintError;

verus! {

/// Accepts exactly the expected greeting: Ok when `uri` reads "hello1", the
/// invalid-input failure otherwise.
pub fn str_test(uri: &str) -> (r: Result<(), NftMintError>)
    ensures
        r is Ok <==> uri@ == "hello1"@,
        r is Err ==> r == Err::<(), NftMintError>(NftMintError::InvalidInputError),
{
    let hello: String = "hello1".to_owned();
    let given: String = uri.to_owned();
    if given == hello {
        Ok(())
    } else {
        Err(NftMintError::InvalidInputError)
    }
}

} // verus!

