//! Sponge-based Winternitz one-time-signature private key generator.
//!
//! The generator checks the entropy, sizes the key and judges what the sponge
//! gave back. The sponge itself is handed in as a function from the entropy
//! and the length of the key to the squeezed trits.

use vstd::prelude::*;
use std::marker::PhantomData;

verus! {

/// Length of a hash, and of the entropy, in trits.
pub const HASH_LENGTH: usize = 243;

/// Length of one fragment of a signature, in trits.
pub const SIGNATURE_FRAGMENT_LENGTH: usize = 6561;

/// A balanced trit.
#[derive(Clone, Copy, Debug, PartialEq, Eq, Hash, Structural)]
pub enum Btrit {
    NegOne,
    Zero,
    PlusOne,
}

/// The security level of a key: how many fragments it has.
#[derive(Clone, Copy, Debug, PartialEq, Eq, Hash, Structural)]
pub enum WotsSecurityLevel {
    Low,
    Medium,
    High,
}

impl WotsSecurityLevel {
    /// The number of fragments of a key of this level.
    pub open spec fn spec_fragments(self) -> nat {
        match self {
            WotsSecurityLevel::Low => 1,
            WotsSecurityLevel::Medium => 2,
            WotsSecurityLevel::High => 3,
        }
    }

    /// Returns the number of fragments of a key of this level.
    pub fn fragments(&self) -> (n: usize)
        ensures
            n == self.spec_fragments(),
    {
        match self {
            WotsSecurityLevel::Low => 1,
            WotsSecurityLevel::Medium => 2,
            WotsSecurityLevel::High => 3,
        }
    }
}

/// What can go wrong when building a generator or generating a key.
#[derive(Clone, Copy, Debug, PartialEq, Eq, Structural)]
pub enum WotsError {
    /// The builder was given no security level.
    MissingSecurityLevel,
    /// The sponge failed, or did not fill the key.
    FailedSpongeOperation,
    /// The entropy does not have `HASH_LENGTH` trits; the length it has.
    InvalidEntropyLength(usize),
    /// The last trit of the entropy is not zero.
    NonNullEntropyLastTrit,
}

/// A private key: the trits squeezed out of the sponge.
pub struct WotsPrivateKey<S> {
    pub state: Vec<Btrit>,
    pub marker: PhantomData<S>,
}

/// Builder of a private key generator.
#[must_use]
pub struct WotsSpongePrivateKeyGeneratorBuilder<S> {
    pub security_level: Option<WotsSecurityLevel>,
    pub marker: PhantomData<S>,
}

impl<S> Default for WotsSpongePrivateKeyGeneratorBuilder<S> {
    fn default() -> (builder: Self)
        ensures
            builder.security_level is None,
    {
        WotsSpongePrivateKeyGeneratorBuilder { security_level: None, marker: PhantomData }
    }
}

impl<S> WotsSpongePrivateKeyGeneratorBuilder<S> {
    /// Sets the security level of the private key. A level set before is
    /// replaced.
    pub fn with_security_level(self, security_level: WotsSecurityLevel) -> (builder: Self)
        ensures
            builder.security_level == Some(security_level),
    {
        WotsSpongePrivateKeyGeneratorBuilder {
            security_level: Some(security_level),
            marker: PhantomData,
        }
    }

    /// Builds the private key generator. Fails exactly when no security level
    /// was set.
    pub fn build(self) -> (generator: Result<WotsSpongePrivateKeyGenerator<S>, WotsError>)
        ensures
            match self.security_level {
                Some(level) => generator matches Ok(g) && g.security_level == level,
                None => generator == Err::<WotsSpongePrivateKeyGenerator<S>, WotsError>(
                    WotsError::MissingSecurityLevel,
                ),
            },
    {
        match self.security_level {
            Some(security_level) => Ok(
                WotsSpongePrivateKeyGenerator { security_level, marker: PhantomData },
            ),
            None => Err(WotsError::MissingSecurityLevel),
        }
    }
}

/// Sponge-based private key generator.
pub struct WotsSpongePrivateKeyGenerator<S> {
    pub security_level: WotsSecurityLevel,
    pub marker: PhantomData<S>,
}

/// What is wrong with `entropy`, if anything: it must have exactly
/// `HASH_LENGTH` trits, the last of them zero. The length is judged first.
pub open spec fn entropy_error(entropy: Seq<Btrit>) -> Option<WotsError> {
    if entropy.len() != HASH_LENGTH {
        Some(WotsError::InvalidEntropyLength(entropy.len() as usize))
    } else if entropy[HASH_LENGTH - 1] != Btrit::Zero {
        Some(WotsError::NonNullEntropyLastTrit)
    } else {
        None
    }
}

/// Checks the entropy of a key.
pub fn check_entropy(entropy: &Vec<Btrit>) -> (checked: Result<(), WotsError>)
    ensures
        match entropy_error(entropy@) {
            Some(error) => checked == Err::<(), WotsError>(error),
            None => checked is Ok,
        },
{
    if entropy.len() != HASH_LENGTH {
        return Err(WotsError::InvalidEntropyLength(entropy.len()));
    }
    if entropy[HASH_LENGTH - 1] != Btrit::Zero {
        return Err(WotsError::NonNullEntropyLastTrit);
    }
    Ok(())
}

impl<S> WotsSpongePrivateKeyGenerator<S> {
    /// The length of the keys of this generator, in trits: one signature
    /// fragment for each fragment of the security level.
    pub open spec fn spec_key_length(self) -> nat {
        self.security_level.spec_fragments() * SIGNATURE_FRAGMENT_LENGTH as nat
    }

    /// Returns the length of the keys of this generator, in trits.
    pub fn key_length(&self) -> (length: usize)
        ensures
            length == self.spec_key_length(),
            length == 6561 || length == 13122 || length == 19683,
    {
        self.security_level.fragments() * SIGNATURE_FRAGMENT_LENGTH
    }

    /// The key that this generator makes of what the sponge gave back: the
    /// squeezed trits if the sponge succeeded and filled the key, the error
    /// `FailedSpongeOperation` otherwise.
    pub open spec fn key_of<E>(self, digest: Result<Vec<Btrit>, E>) -> Result<
        WotsPrivateKey<S>,
        WotsError,
    > {
        match digest {
            Ok(state) if state@.len() == self.spec_key_length() => Ok(
                WotsPrivateKey { state, marker: PhantomData },
            ),
            _ => Err(WotsError::FailedSpongeOperation),
        }
    }

    /// Makes a key of what the sponge gave back.
    pub fn key_from_digest<E>(&self, digest: Result<Vec<Btrit>, E>) -> (key: Result<
        WotsPrivateKey<S>,
        WotsError,
    >)
        ensures
            key == self.key_of(digest),
    {
        let length = self.key_length();
        match digest {
            Ok(state) => {
                if state.len() == length {
                    Ok(WotsPrivateKey { state, marker: PhantomData })
                } else {
                    Err(WotsError::FailedSpongeOperation)
                }
            },
            Err(_) => Err(WotsError::FailedSpongeOperation),
        }
    }

    /// Derives a private key from entropy. The entropy must have exactly
    /// `HASH_LENGTH` trits, the last of them zero; otherwise the sponge is not
    /// run. `sponge` absorbs the entropy and squeezes as many trits as the key
    /// is long; the key is made of one of the results it can give for them.
    pub fn generate_from_entropy<E, F: Fn(&Vec<Btrit>, usize) -> Result<Vec<Btrit>, E>>(
        &self,
        entropy: &Vec<Btrit>,
        sponge: F,
    ) -> (key: Result<WotsPrivateKey<S>, WotsError>)
        requires
            entropy_error(entropy@) is None ==> sponge.requires(
                (entropy, self.spec_key_length() as usize),
            ),
        ensures
            match entropy_error(entropy@) {
                Some(error) => key == Err::<WotsPrivateKey<S>, WotsError>(error),
                None => exists|digest: Result<Vec<Btrit>, E>|
                    sponge.ensures((entropy, self.spec_key_length() as usize), digest) && key
                        == self.key_of(digest),
            },
    {
        match check_entropy(entropy) {
            Err(error) => Err(error),
            Ok(_) => {
                let digest = sponge(entropy, self.key_length());
                self.key_from_digest(digest)
            },
        }
    }
}

} // verus!
