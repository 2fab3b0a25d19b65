use vstd::prelude::*;
use rand::RngExt;
use rand::SeedableRng;
use crate::base64url::is_alphanumeric;

verus! {

/// The system's random source could not seed a generator. Only a failed
/// seeding in this module makes one, so holding one shows that the source
/// failed.
#[derive(Debug)]
pub struct TokenSourceFailure {
    seeding: (),
}

/// Seeds a `rand::rngs::StdRng` from the system's random source with
/// `SeedableRng::try_from_rng(&mut SysRng)` and draws `len` characters from it
/// with the `rand::distr::Alphanumeric` distribution. When seeding fails the
/// result is that failure; when it succeeds, the contract states only what
/// holds of every draw: the length and that each character is an ASCII
/// letter or digit. Which characters are drawn is left unsaid.
#[verifier::external_body]
pub(crate) fn random_alphanumeric(len: usize) -> (r: Result<String, TokenSourceFailure>)
    ensures
        r matches Ok(s) ==> s@.len() == len && forall|i: int| 0 <= i < s@.len() ==> is_alphanumeric(#[trigger] s@[i]),
{
    match rand::rngs::StdRng::try_from_rng(&mut rand::rngs::SysRng) {
        Ok(rng) => Ok(rng.sample_iter(&rand::distr::Alphanumeric).take(len).map(char::from).collect()),
        Err(_) => Err(TokenSourceFailure { seeding: () }),
    }
}

} // verus!
