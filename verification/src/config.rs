//! Resolution of the run's hash algorithm from an explicit override and a
//! persisted default.

use vstd::prelude::*;
use crate::algorithm::{decoded, recognized, HashAlgorithm};

verus! {

/// The key of the persisted setting that holds the default algorithm's name.
pub const HASH_ALGORITHM_KEY: &'static str = "HASH_ALGORITHM";

/// No usable hash algorithm could be resolved: the run cannot proceed.
#[derive(Clone, Copy, Debug, PartialEq, Eq, Structural)]
pub struct ConfigurationError;

impl ConfigurationError {
    /// The text shown to the user for this error.
    pub fn message(&self) -> (r: &'static str)
        ensures
            r@ == "no resolvable hash algorithm"@,
    {
        "no resolvable hash algorithm"
    }
}

/// The precedence between the two sources: an override wins; without one the
/// persisted value is taken; without either there is no algorithm.
pub open spec fn resolved(
    explicit: Option<HashAlgorithm>,
    persisted: Option<HashAlgorithm>,
) -> Result<HashAlgorithm, ConfigurationError> {
    match explicit {
        Some(algorithm) => Ok(algorithm),
        None => match persisted {
            Some(algorithm) => Ok(algorithm),
            None => Err(ConfigurationError),
        },
    }
}

/// Picks the hash algorithm of a run. Both arguments are already decoded: a
/// text that names no algorithm arrives here as `None`.
pub fn resolve(explicit: Option<HashAlgorithm>, persisted: Option<HashAlgorithm>) -> (r: Result<
    HashAlgorithm,
    ConfigurationError,
>)
    ensures
        r == resolved(explicit, persisted),
        explicit is Some ==> r == Ok::<HashAlgorithm, ConfigurationError>(explicit->0),
        explicit is None && persisted is Some ==> r == Ok::<HashAlgorithm, ConfigurationError>(
            persisted->0,
        ),
        explicit is None && persisted is None ==> r == Err::<HashAlgorithm, ConfigurationError>(
            ConfigurationError,
        ),
{
    match explicit {
        Some(algorithm) => Ok(algorithm),
        None => match persisted {
            Some(algorithm) => Ok(algorithm),
            None => Err(ConfigurationError),
        },
    }
}

/// An override that names an algorithm is returned whatever the persisted
/// setting holds: another algorithm, a text that names none, or nothing.
pub proof fn law_valid_override_is_returned(explicit: Seq<char>, persisted: Option<Seq<char>>)
    requires
        recognized(explicit) is Some,
    ensures
        resolved(decoded(Some(explicit)), decoded(persisted)) == Ok::<
            HashAlgorithm,
            ConfigurationError,
        >(recognized(explicit)->0),
{
}

/// Without an override, or with one that names no algorithm, a persisted
/// value that names one is returned.
pub proof fn law_valid_persisted_value_is_returned(
    explicit: Option<Seq<char>>,
    persisted: Seq<char>,
)
    requires
        decoded(explicit) is None,
        recognized(persisted) is Some,
    ensures
        resolved(decoded(explicit), decoded(Some(persisted))) == Ok::<
            HashAlgorithm,
            ConfigurationError,
        >(recognized(persisted)->0),
{
}

/// Where neither source names an algorithm, resolution fails.
pub proof fn law_nothing_usable_is_an_error(
    explicit: Option<Seq<char>>,
    persisted: Option<Seq<char>>,
)
    requires
        decoded(explicit) is None,
        decoded(persisted) is None,
    ensures
        resolved(decoded(explicit), decoded(persisted)) == Err::<
            HashAlgorithm,
            ConfigurationError,
        >(ConfigurationError),
{
}

} // verus!
