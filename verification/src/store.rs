//! The credential store: a named key-value partition holding the two
//! entries "ssid" and "pass", modelled as plain data, with the load and
//! store routines and their laws.
use vstd::prelude::*;

use crate::WifiError;
use crate::credentials::Credentials;
use crate::credentials::MAX_NAME_LEN;
use crate::credentials::MAX_SECRET_LEN;
use crate::credentials::is_trimmed;
use crate::credentials::lemma_trim_spec_idempotent;
use crate::credentials::lemma_trim_spec_trimmed;
use crate::credentials::trim;
use crate::credentials::trim_spec;

verus! {

/// The persistent partition as the library sees it: whether it can be
/// reached at all, and the two string entries under the "ssid" and
/// "pass" keys. The surrounding application mirrors this value to and
/// from the device's own partition.
pub struct NvStore {
    /// The partition can be opened; when false every read misses and
    /// every write is rejected.
    pub available: bool,
    /// The entry under the "ssid" key.
    pub ssid: Option<Vec<u8>>,
    /// The entry under the "pass" key.
    pub pass: Option<Vec<u8>>,
}

/// The mathematical value of an [`NvStore`].
#[verifier::ext_equal]
pub struct NvStoreView {
    pub available: bool,
    pub ssid: Option<Seq<u8>>,
    pub pass: Option<Seq<u8>>,
}

impl View for NvStore {
    type V = NvStoreView;

    open spec fn view(&self) -> NvStoreView {
        NvStoreView {
            available: self.available,
            ssid: match self.ssid {
                Option::Some(v) => Option::Some(v@),
                Option::None => Option::None,
            },
            pass: match self.pass {
                Option::Some(v) => Option::Some(v@),
                Option::None => Option::None,
            },
        }
    }
}

impl NvStore {
    /// A reachable partition with no stored record.
    pub fn empty() -> (r: NvStore)
        ensures
            r@.available,
            r@.ssid is None,
            r@.pass is None,
    {
        NvStore { available: true, ssid: None, pass: None }
    }
}

/// What storing a record does: the trimmed fields are written verbatim
/// when they fit their bounds and the partition is reachable; an
/// oversize field is rejected as [`WifiError::CredentialTooLong`] and an
/// unreachable partition as [`WifiError::StorageFault`], leaving the
/// store unchanged either way.
pub open spec fn store_spec(s: NvStoreView, name: Seq<u8>, secret: Seq<u8>) -> (NvStoreView, Result<
    (),
    WifiError,
>) {
    let tn = trim_spec(name);
    let ts = trim_spec(secret);
    if tn.len() > MAX_NAME_LEN || ts.len() > MAX_SECRET_LEN {
        (s, Err(WifiError::CredentialTooLong))
    } else if !s.available {
        (s, Err(WifiError::StorageFault))
    } else {
        (NvStoreView { available: true, ssid: Some(tn), pass: Some(ts) }, Ok(()))
    }
}

/// The fallback taken when either entry is missing or unreadable: the
/// compiled-in defaults are trimmed, checked against the bounds, written
/// back best-effort (a write failure is swallowed so boot can proceed),
/// and returned.
pub open spec fn fallback_spec(s: NvStoreView, d_name: Seq<u8>, d_secret: Seq<u8>) -> (NvStoreView, Result<
    (Seq<u8>, Seq<u8>),
    WifiError,
>) {
    let tn = trim_spec(d_name);
    let ts = trim_spec(d_secret);
    if tn.len() > MAX_NAME_LEN || ts.len() > MAX_SECRET_LEN {
        (s, Err(WifiError::CredentialTooLong))
    } else if s.available {
        (NvStoreView { available: true, ssid: Some(tn), pass: Some(ts) }, Ok((tn, ts)))
    } else {
        (s, Ok((tn, ts)))
    }
}

/// What loading returns: with both entries present the trimmed pair,
/// rejecting a field whose trimmed value exceeds its bound as
/// [`WifiError::CredentialTooLong`] with no write performed; otherwise
/// the fallback to the defaults.
pub open spec fn load_spec(s: NvStoreView, d_name: Seq<u8>, d_secret: Seq<u8>) -> (NvStoreView, Result<
    (Seq<u8>, Seq<u8>),
    WifiError,
>) {
    if s.available {
        match (s.ssid, s.pass) {
            (Some(n), Some(p)) => {
                let tn = trim_spec(n);
                let tp = trim_spec(p);
                if tn.len() > MAX_NAME_LEN || tp.len() > MAX_SECRET_LEN {
                    (s, Err(WifiError::CredentialTooLong))
                } else {
                    (s, Ok((tn, tp)))
                }
            },
            _ => fallback_spec(s, d_name, d_secret),
        }
    } else {
        fallback_spec(s, d_name, d_secret)
    }
}

/// Writes the record's trimmed fields into the partition; see
/// [`store_spec`] for exactly when each error comes.
pub fn store(s: &mut NvStore, record: &Credentials) -> (r: Result<(), WifiError>)
    ensures
        ({
            let (s2, rr) = store_spec(old(s)@, record.name@, record.secret@);
            final(s)@ == s2 && r == rr
        }),
{
    let tn = trim(&record.name);
    let ts = trim(&record.secret);
    if tn.len() > MAX_NAME_LEN || ts.len() > MAX_SECRET_LEN {
        return Err(WifiError::CredentialTooLong);
    }
    if !s.available {
        return Err(WifiError::StorageFault);
    }
    s.ssid = Some(tn);
    s.pass = Some(ts);
    proof {
        assert(s@ =~= store_spec(old(s)@, record.name@, record.secret@).0);
    }
    Ok(())
}

/// Reads the record back, trimming padding from both fields; on a miss
/// or an unreachable partition, falls back to the given defaults and
/// persists them best-effort. See [`load_spec`] for exactly when each
/// error comes; a returned record is trimmed and within bounds.
pub fn load(s: &mut NvStore, defaults: &Credentials) -> (r: Result<Credentials, WifiError>)
    ensures
        ({
            let (s2, rr) = load_spec(old(s)@, defaults.name@, defaults.secret@);
            &&& final(s)@ == s2
            &&& match (r, rr) {
                (Ok(c), Ok(p)) => c.name@ == p.0 && c.secret@ == p.1,
                (Err(e1), Err(e2)) => e1 == e2,
                _ => false,
            }
        }),
        r matches Ok(c) ==> c.wf() && is_trimmed(c.name@) && is_trimmed(c.secret@),
{
    proof {
        lemma_trim_spec_trimmed(defaults.name@);
        lemma_trim_spec_trimmed(defaults.secret@);
    }
    if s.available {
        match (&s.ssid, &s.pass) {
            (Some(n), Some(p)) => {
                proof {
                    lemma_trim_spec_trimmed(n@);
                    lemma_trim_spec_trimmed(p@);
                }
                let tn = trim(n);
                let tp = trim(p);
                if tn.len() > MAX_NAME_LEN || tp.len() > MAX_SECRET_LEN {
                    return Err(WifiError::CredentialTooLong);
                }
                return Ok(Credentials { name: tn, secret: tp });
            },
            _ => {},
        }
    }
    let tn = trim(&defaults.name);
    let tp = trim(&defaults.secret);
    if tn.len() > MAX_NAME_LEN || tp.len() > MAX_SECRET_LEN {
        return Err(WifiError::CredentialTooLong);
    }
    if s.available {
        s.ssid = Some(trim(&defaults.name));
        s.pass = Some(trim(&defaults.secret));
        proof {
            assert(s@ =~= load_spec(old(s)@, defaults.name@, defaults.secret@).0);
        }
    }
    Ok(Credentials { name: tn, secret: tp })
}

/// Round-trip law: storing a record whose trimmed fields fit the bounds
/// succeeds, and a load straight after returns exactly that trimmed
/// pair, touching the store no further.
pub proof fn lemma_store_then_load_round_trip(
    s: NvStoreView,
    name: Seq<u8>,
    secret: Seq<u8>,
    d_name: Seq<u8>,
    d_secret: Seq<u8>,
)
    requires
        s.available,
        trim_spec(name).len() <= MAX_NAME_LEN,
        trim_spec(secret).len() <= MAX_SECRET_LEN,
    ensures
        ({
            let (s1, r1) = store_spec(s, name, secret);
            let (s2, r2) = load_spec(s1, d_name, d_secret);
            &&& r1 == Ok::<(), WifiError>(())
            &&& s2 == s1
            &&& r2 == Ok::<(Seq<u8>, Seq<u8>), WifiError>((trim_spec(name), trim_spec(secret)))
        }),
{
    lemma_trim_spec_idempotent(name);
    lemma_trim_spec_idempotent(secret);
}

/// Oversize law, store side: a record with a trimmed field over its
/// bound is rejected as `CredentialTooLong` and nothing is written.
pub proof fn lemma_store_rejects_oversize(s: NvStoreView, name: Seq<u8>, secret: Seq<u8>)
    requires
        trim_spec(name).len() > MAX_NAME_LEN || trim_spec(secret).len() > MAX_SECRET_LEN,
    ensures
        store_spec(s, name, secret) == (s, Err::<(), WifiError>(WifiError::CredentialTooLong)),
{
}

/// Oversize law, load side: a stored entry whose trimmed value exceeds
/// its bound makes the load fail as `CredentialTooLong`, never silently
/// truncating, and leaves the store unchanged.
pub proof fn lemma_load_rejects_oversize(s: NvStoreView, d_name: Seq<u8>, d_secret: Seq<u8>)
    requires
        s.available,
        s.ssid is Some,
        s.pass is Some,
        (s.ssid matches Some(n) && trim_spec(n).len() > MAX_NAME_LEN) || (s.pass matches Some(p)
            && trim_spec(p).len() > MAX_SECRET_LEN),
    ensures
        load_spec(s, d_name, d_secret) == (
            s,
            Err::<(Seq<u8>, Seq<u8>), WifiError>(WifiError::CredentialTooLong),
        ),
{
}

/// Defaults law: with no complete stored record, a load returns the
/// trimmed compiled-in defaults and leaves the store populated with
/// those same defaults, so that a second load returns the identical
/// pair from the fast path without changing the store again.
pub proof fn lemma_load_defaults_idempotent(s: NvStoreView, d_name: Seq<u8>, d_secret: Seq<u8>)
    requires
        s.available,
        s.ssid is None || s.pass is None,
        trim_spec(d_name).len() <= MAX_NAME_LEN,
        trim_spec(d_secret).len() <= MAX_SECRET_LEN,
    ensures
        ({
            let (s1, r1) = load_spec(s, d_name, d_secret);
            let (s2, r2) = load_spec(s1, d_name, d_secret);
            &&& r1 == Ok::<(Seq<u8>, Seq<u8>), WifiError>((trim_spec(d_name), trim_spec(d_secret)))
            &&& s1.available && s1.ssid == Some(trim_spec(d_name)) && s1.pass == Some(
                trim_spec(d_secret),
            )
            &&& s2 == s1
            &&& r2 == r1
        }),
{
    lemma_trim_spec_idempotent(d_name);
    lemma_trim_spec_idempotent(d_secret);
}

} // verus!
