use anni_provider::ProviderError;
use vstd::prelude::*;

use crate::credential::Credential;
use crate::handle::{ProviderHandle, ProviderState};
use crate::record::{record_bytes, record_fits};
use crate::store::CredentialStore;

verus! {

/// What an operator asks of a rotation.
#[derive(Debug)]
pub enum RotationRequest {
    /// Build the provider anew from this credential.
    Replace(Credential),
    /// Build the provider anew under the credential in use, reloading the
    /// catalogue.
    Reload,
}

#[derive(Debug)]
pub enum RotationError {
    /// The supplied credential has an empty refresh token.
    EmptyCredential,
    /// Building the new provider, or computing its fingerprint, failed.
    Provider(ProviderError),
}

/// The credential that a rotation builds its provider from, or the reason
/// the request is refused before anything is built.
pub fn prepare_rotation(request: RotationRequest, in_use: &Credential) -> (r: Result<
    Credential,
    RotationError,
>)
    ensures
        match request {
            RotationRequest::Replace(c) => if c@.is_valid() {
                r is Ok && r->Ok_0@ == c@
            } else {
                r is Err && r->Err_0 is EmptyCredential
            },
            RotationRequest::Reload => r is Ok && r->Ok_0@ == in_use@,
        },
{
    match request {
        RotationRequest::Replace(c) => if c.is_valid() {
            Ok(c)
        } else {
            Err(RotationError::EmptyCredential)
        },
        RotationRequest::Reload => Ok(in_use.duplicate()),
    }
}

/// The state a rotation leaves in the handle: the new provider, its
/// fingerprint and the time of the rotation when it was built, and the state
/// before it, untouched, when building failed.
pub open spec fn rotated_state<P>(
    before: ProviderState<P>,
    built: Result<(P, String), ProviderError>,
    now: u64,
) -> ProviderState<P> {
    match built {
        Ok((provider, fingerprint)) => ProviderState {
            provider,
            content_fingerprint: fingerprint,
            last_reload: now,
        },
        Err(_) => before,
    }
}

/// A rotation that took effect.
#[derive(Debug)]
pub struct Rotation {
    /// The fingerprint of the new provider, for the caller.
    pub fingerprint: String,
    /// The credential the new provider was built from; the renewal loop
    /// adopts it.
    pub credential: Credential,
    /// Whether the store's record was replaced, so that the durable medium
    /// must be written.
    pub saved: bool,
}

/// Completes a rotation once the new provider has been built from
/// `credential` (and its fingerprint computed), or has failed to be: on
/// success it saves the credential when it differs from the one in use and
/// publishes the new state; on failure the handle and the store keep what
/// they hold.
pub fn finish_rotation<P>(
    handle: &mut ProviderHandle<P>,
    store: &mut CredentialStore,
    in_use: &Credential,
    credential: Credential,
    built: Result<(P, String), ProviderError>,
    now: u64,
) -> (r: Result<Rotation, RotationError>)
    ensures
        final(handle)@ == rotated_state(old(handle)@, built, now),
        match built {
            Err(e) => {
                &&& r is Err && r->Err_0 == RotationError::Provider(e)
                &&& final(store)@ == old(store)@
            },
            Ok((_, fingerprint)) => {
                &&& r is Ok
                &&& r->Ok_0.fingerprint@ == fingerprint@
                &&& r->Ok_0.credential@ == credential@
                &&& r->Ok_0.saved == (credential@ != in_use@ && record_fits(credential@))
                &&& if r->Ok_0.saved {
                    final(store)@ == Some(record_bytes(credential@))
                } else {
                    final(store)@ == old(store)@
                }
            },
        },
{
    match built {
        Err(e) => Err(RotationError::Provider(e)),
        Ok((provider, fingerprint)) => {
            let saved = if credential.same_as(in_use) {
                false
            } else {
                match store.save(&credential) {
                    Ok(()) => true,
                    Err(_) => false,
                }
            };
            let published = fingerprint.clone();
            handle.rotate(ProviderState { provider, content_fingerprint: fingerprint, last_reload: now });
            Ok(Rotation { fingerprint: published, credential, saved })
        },
    }
}

/// A rotation whose provider could not be built leaves the state as it was:
/// a read after it observes the previous provider and its fingerprint.
pub proof fn lemma_failed_rotation_keeps_fingerprint<P>(
    before: ProviderState<P>,
    error: ProviderError,
    now: u64,
)
    ensures
        rotated_state(before, Err(error), now) == before,
{
}

} // verus!
