//! A deterministic network interface: its answers to the configure,
//! start and connect calls and to every "is connected" poll are plain
//! data fixed up front, so a whole connection sequence is a function of
//! this value. It stands in for the radio in tests and host-side runs;
//! on a device the same calls go to the hardware instead.
use vstd::prelude::*;

verus! {

/// How the client configuration authenticates. The secret travels with
/// the configuration either way; whether the interface uses it is the
/// caller's policy.
#[derive(Clone, Copy, PartialEq, Eq, Debug, Structural)]
pub enum AuthMode {
    /// Open authentication: the secret is carried but not offered.
    Open,
    /// Passphrase authentication with the configured secret.
    Passphrase,
}

/// The scripted poll outcome: polls beyond the end of the script report
/// a link that is down.
pub open spec fn poll_at(script: Seq<bool>, i: int) -> bool {
    0 <= i < script.len() && script[i]
}

/// A network interface whose behaviour is scripted: the three accept
/// flags answer the configure, start and connect calls, and `link_up`
/// answers each successive "is connected" poll.
pub struct SimRadio {
    /// Whether a configure call is accepted.
    pub accept_configure: bool,
    /// Whether a start call is accepted.
    pub accept_start: bool,
    /// Whether a connect request, initial or after a reconnect cycle, is
    /// accepted.
    pub accept_connect: bool,
    /// The scripted "is connected" answer for each successive poll.
    pub link_up: Vec<bool>,
    /// How many polls have been made.
    pub polled: u32,
    /// How many disconnect-and-reconnect cycles have been issued.
    pub reconnects: u32,
    /// Whether a client configuration has been applied.
    pub configured: bool,
    /// The network name last configured.
    pub cfg_name: Vec<u8>,
    /// The secret last configured.
    pub cfg_secret: Vec<u8>,
    /// The authentication mode last configured.
    pub cfg_auth: AuthMode,
    /// Whether the interface has been started.
    pub started: bool,
}

/// The parts of the interface that no call of the connection sequence
/// changes: the scripted behaviour itself.
pub open spec fn same_script(a: SimRadio, b: SimRadio) -> bool {
    &&& a.accept_configure == b.accept_configure
    &&& a.accept_start == b.accept_start
    &&& a.accept_connect == b.accept_connect
    &&& a.link_up@ == b.link_up@
}

/// The configuration state of the interface.
pub open spec fn same_config(a: SimRadio, b: SimRadio) -> bool {
    &&& a.configured == b.configured
    &&& a.cfg_name@ == b.cfg_name@
    &&& a.cfg_secret@ == b.cfg_secret@
    &&& a.cfg_auth == b.cfg_auth
    &&& a.started == b.started
}

impl SimRadio {
    /// A fresh interface with the given scripted behaviour: nothing
    /// configured, nothing polled yet.
    pub fn new(accept_configure: bool, accept_start: bool, accept_connect: bool, link_up: Vec<
        bool,
    >) -> (r: SimRadio)
        ensures
            r.accept_configure == accept_configure,
            r.accept_start == accept_start,
            r.accept_connect == accept_connect,
            r.link_up@ == link_up@,
            r.polled == 0,
            r.reconnects == 0,
            !r.configured,
            !r.started,
    {
        SimRadio {
            accept_configure,
            accept_start,
            accept_connect,
            link_up,
            polled: 0,
            reconnects: 0,
            configured: false,
            cfg_name: Vec::new(),
            cfg_secret: Vec::new(),
            cfg_auth: AuthMode::Open,
            started: false,
        }
    }

    /// An interface that accepts every call and follows the poll script.
    pub fn accepting(link_up: Vec<bool>) -> (r: SimRadio)
        ensures
            r.accept_configure && r.accept_start && r.accept_connect,
            r.link_up@ == link_up@,
            r.polled == 0,
            r.reconnects == 0,
            !r.configured,
            !r.started,
    {
        SimRadio::new(true, true, true, link_up)
    }

    /// Applies a client configuration; accepted or rejected as scripted.
    pub fn configure(&mut self, name: &Vec<u8>, secret: &Vec<u8>, auth: AuthMode) -> (ok: bool)
        ensures
            ok == old(self).accept_configure,
            same_script(*final(self), *old(self)),
            final(self).polled == old(self).polled,
            final(self).reconnects == old(self).reconnects,
            final(self).started == old(self).started,
            ok ==> final(self).configured && final(self).cfg_name@ == name@
                && final(self).cfg_secret@ == secret@ && final(self).cfg_auth == auth,
            !ok ==> same_config(*final(self), *old(self)),
    {
        if self.accept_configure {
            self.configured = true;
            self.cfg_name = clone_bytes(name);
            self.cfg_secret = clone_bytes(secret);
            self.cfg_auth = auth;
            true
        } else {
            false
        }
    }

    /// Starts the interface; accepted or rejected as scripted.
    pub fn start(&mut self) -> (ok: bool)
        ensures
            ok == old(self).accept_start,
            same_script(*final(self), *old(self)),
            final(self).polled == old(self).polled,
            final(self).reconnects == old(self).reconnects,
            final(self).configured == old(self).configured,
            final(self).cfg_name@ == old(self).cfg_name@,
            final(self).cfg_secret@ == old(self).cfg_secret@,
            final(self).cfg_auth == old(self).cfg_auth,
            final(self).started == (old(self).started || ok),
    {
        if self.accept_start {
            self.started = true;
            true
        } else {
            false
        }
    }

    /// Issues the initial connect request; accepted or rejected as
    /// scripted. The interface state does not change.
    pub fn request_connect(&mut self) -> (ok: bool)
        ensures
            ok == old(self).accept_connect,
            *final(self) == *old(self),
    {
        self.accept_connect
    }

    /// Issues one explicit disconnect-and-reconnect cycle to clear stuck
    /// radio state, counting it; the fresh connect request is accepted
    /// or rejected as scripted.
    pub fn reconnect_cycle(&mut self) -> (ok: bool)
        requires
            old(self).reconnects < u32::MAX,
        ensures
            ok == old(self).accept_connect,
            final(self).reconnects == old(self).reconnects + 1,
            same_script(*final(self), *old(self)),
            same_config(*final(self), *old(self)),
            final(self).polled == old(self).polled,
    {
        self.reconnects = self.reconnects + 1;
        self.accept_connect
    }

    /// Polls whether the link is up, consuming the next scripted answer.
    pub fn poll_link(&mut self) -> (up: bool)
        requires
            old(self).polled < u32::MAX,
        ensures
            final(self).polled == old(self).polled + 1,
            up == poll_at(old(self).link_up@, old(self).polled as int),
            same_script(*final(self), *old(self)),
            same_config(*final(self), *old(self)),
            final(self).reconnects == old(self).reconnects,
    {
        let i = self.polled as usize;
        let up = if i < self.link_up.len() {
            self.link_up[i]
        } else {
            false
        };
        self.polled = self.polled + 1;
        up
    }
}

/// A byte-for-byte copy of a value.
fn clone_bytes(v: &Vec<u8>) -> (r: Vec<u8>)
    ensures
        r@ == v@,
{
    let mut r: Vec<u8> = Vec::new();
    let mut i: usize = 0;
    while i < v.len()
        invariant
            i <= v.len(),
            r@ == v@.subrange(0, i as int),
        decreases v.len() - i,
    {
        r.push(v[i]);
        proof {
            assert(r@ =~= v@.subrange(0, i + 1));
        }
        i = i + 1;
    }
    proof {
        assert(r@ =~= v@);
    }
    r
}

} // verus!
