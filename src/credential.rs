use vstd::prelude::*;

verus! {

/// A credential as plain values: the refresh token, the instant (in seconds)
/// at which the access token obtained with it expires, and the fingerprint of
/// the refresh token that it replaced.
pub struct CredentialModel {
    pub refresh_token: Seq<char>,
    pub access_token_expiry: u64,
    pub prior_fingerprint: Seq<char>,
}

impl CredentialModel {
    /// A credential can be used only when its refresh token is non-empty.
    pub open spec fn is_valid(self) -> bool {
        self.refresh_token.len() > 0
    }

    pub open spec fn is_expired(self, now: u64) -> bool {
        now >= self.access_token_expiry
    }
}

/// The OAuth credential of the drive: a long-lived refresh token and the
/// expiry of the short-lived access token that was last exchanged for it.
#[derive(Debug)]
pub struct Credential {
    pub refresh_token: String,
    pub access_token_expiry: u64,
    pub fingerprint_of_prior_refresh_token: String,
}

impl View for Credential {
    type V = CredentialModel;

    open spec fn view(&self) -> CredentialModel {
        CredentialModel {
            refresh_token: self.refresh_token@,
            access_token_expiry: self.access_token_expiry,
            prior_fingerprint: self.fingerprint_of_prior_refresh_token@,
        }
    }
}

/// The model of an optional credential.
pub open spec fn model_of(c: Option<Credential>) -> Option<CredentialModel> {
    match c {
        Some(c) => Some(c@),
        None => None,
    }
}

/// `a + b`, or the largest `u64` when the sum does not fit.
pub open spec fn saturating_sum(a: u64, b: u64) -> u64 {
    if a + b <= u64::MAX {
        (a + b) as u64
    } else {
        u64::MAX
    }
}

impl Credential {
    pub fn new(
        refresh_token: String,
        access_token_expiry: u64,
        fingerprint_of_prior_refresh_token: String,
    ) -> (c: Credential)
        ensures
            c@.refresh_token == refresh_token@,
            c@.access_token_expiry == access_token_expiry,
            c@.prior_fingerprint == fingerprint_of_prior_refresh_token@,
    {
        Credential { refresh_token, access_token_expiry, fingerprint_of_prior_refresh_token }
    }

    pub fn is_valid(&self) -> (r: bool)
        ensures
            r == self@.is_valid(),
    {
        !self.refresh_token.as_str().is_empty()
    }

    /// Whether the access token has expired at `now`.
    pub fn is_expired(&self, now: u64) -> (r: bool)
        ensures
            r == self@.is_expired(now),
    {
        now >= self.access_token_expiry
    }

    /// A second credential with the same contents.
    pub fn duplicate(&self) -> (r: Credential)
        ensures
            r@ == self@,
    {
        Credential {
            refresh_token: self.refresh_token.clone(),
            access_token_expiry: self.access_token_expiry,
            fingerprint_of_prior_refresh_token: self.fingerprint_of_prior_refresh_token.clone(),
        }
    }

    /// Whether both credentials hold the same contents.
    pub fn same_as(&self, other: &Credential) -> (r: bool)
        ensures
            r == (self@ == other@),
    {
        self.refresh_token == other.refresh_token && self.access_token_expiry
            == other.access_token_expiry && self.fingerprint_of_prior_refresh_token
            == other.fingerprint_of_prior_refresh_token
    }

    /// The credential after a successful exchange of this one's refresh
    /// token. The endpoint may return a new refresh token; when it returns
    /// none, or an empty one, the exchanged token stays in use. The new access
    /// token expires `expires_in` seconds after `now`.
    pub fn renewed(
        &self,
        returned_token: Option<String>,
        expires_in: u64,
        now: u64,
        prior_fingerprint: String,
    ) -> (r: Credential)
        ensures
            r@.refresh_token == match returned_token {
                Some(t) => if t@.len() > 0 {
                    t@
                } else {
                    self@.refresh_token
                },
                None => self@.refresh_token,
            },
            r@.access_token_expiry == saturating_sum(now, expires_in),
            r@.prior_fingerprint == prior_fingerprint@,
    {
        let refresh_token = match returned_token {
            Some(t) => if t.as_str().is_empty() {
                self.refresh_token.clone()
            } else {
                t
            },
            None => self.refresh_token.clone(),
        };
        let access_token_expiry = if expires_in <= u64::MAX - now {
            now + expires_in
        } else {
            u64::MAX
        };
        Credential {
            refresh_token,
            access_token_expiry,
            fingerprint_of_prior_refresh_token: prior_fingerprint,
        }
    }
}

/// A candidate that takes part in startup reconciliation: an invalid record
/// counts as absent.
pub open spec fn usable(c: Option<CredentialModel>) -> Option<CredentialModel> {
    match c {
        Some(m) => if m.is_valid() {
            Some(m)
        } else {
            None
        },
        None => None,
    }
}

/// The credential adopted at startup, and whether it must be written back to
/// the store. The bootstrap credential wins only when it is strictly newer
/// than the persisted one, or when nothing usable is persisted.
pub open spec fn adopted(
    persisted: Option<CredentialModel>,
    bootstrap: Option<CredentialModel>,
) -> Option<(CredentialModel, bool)> {
    match (usable(persisted), usable(bootstrap)) {
        (None, None) => None,
        (None, Some(b)) => Some((b, true)),
        (Some(p), None) => Some((p, false)),
        (Some(p), Some(b)) => if b.access_token_expiry > p.access_token_expiry {
            Some((b, true))
        } else {
            Some((p, false))
        },
    }
}

/// The outcome of startup reconciliation.
#[derive(Debug)]
pub struct Startup {
    pub credential: Credential,
    /// Set when the adopted credential is not yet the persisted one.
    pub persist: bool,
}

#[derive(Debug, PartialEq, Eq, Structural)]
pub enum StartupError {
    /// Neither the store nor the secret source holds a usable credential.
    NoCredential,
}

/// Chooses the credential to boot with, from the persisted record and the
/// bootstrap secret, either of which may be missing.
pub fn reconcile(persisted: Option<Credential>, bootstrap: Option<Credential>) -> (r: Result<
    Startup,
    StartupError,
>)
    ensures
        match adopted(model_of(persisted), model_of(bootstrap)) {
            None => r == Err::<Startup, StartupError>(StartupError::NoCredential),
            Some((c, p)) => r is Ok && r->Ok_0.credential@ == c && r->Ok_0.persist == p,
        },
{
    let persisted = match persisted {
        Some(c) => if c.is_valid() {
            Some(c)
        } else {
            None
        },
        None => None,
    };
    let bootstrap = match bootstrap {
        Some(c) => if c.is_valid() {
            Some(c)
        } else {
            None
        },
        None => None,
    };
    match (persisted, bootstrap) {
        (None, None) => Err(StartupError::NoCredential),
        (None, Some(b)) => Ok(Startup { credential: b, persist: true }),
        (Some(p), None) => Ok(Startup { credential: p, persist: false }),
        (Some(p), Some(b)) => {
            if b.access_token_expiry > p.access_token_expiry {
                Ok(Startup { credential: b, persist: true })
            } else {
                Ok(Startup { credential: p, persist: false })
            }
        },
    }
}

} // verus!
