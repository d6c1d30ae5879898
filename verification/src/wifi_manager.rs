//! Wifi connection state manager.
//!
//! The manager owns the only handle to the radio and serialises every
//! operation, so its externally observable state is always one of two
//! values: started (access point up, not attached to any network) or
//! connected (attached with an assigned address). The radio driver and
//! the credential store are external: their outcomes enter the functions
//! here as plain values (`link_up`, the store contents), and every state
//! transition and reply is decided, and proved, here.

use vstd::prelude::*;
use vstd::pervasive::unreached;

verus! {

/// Longest network name the radio accepts.
pub const MAX_SSID: usize = 32;

/// Longest network secret the radio accepts.
pub const MAX_PASS: usize = 64;

/// A credential pair with an optional channel hint.
#[derive(Debug)]
pub struct WifiCredentials {
    pub ssid: String,
    pub pass: String,
    pub channel: Option<u8>,
}

/// The mathematical value of a credential pair.
pub struct CredsView {
    pub ssid: Seq<char>,
    pub pass: Seq<char>,
    pub channel: Option<u8>,
}

impl View for WifiCredentials {
    type V = CredsView;

    open spec fn view(&self) -> CredsView {
        CredsView { ssid: self.ssid@, pass: self.pass@, channel: self.channel }
    }
}

impl WifiCredentials {
    /// Both texts fit the radio's bounds.
    pub open spec fn wf(self) -> bool {
        self@.ssid.len() <= MAX_SSID && self@.pass.len() <= MAX_PASS
    }
}

impl Clone for WifiCredentials {
    fn clone(&self) -> (c: Self)
        ensures
            c@ == self@,
    {
        WifiCredentials { ssid: self.ssid.clone(), pass: self.pass.clone(), channel: self.channel }
    }
}

/// What the credential store persists: name and secret under a fixed key
/// pair. The channel hint is deliberately not persisted, forcing
/// renegotiation on reconnect.
#[derive(Debug)]
pub struct StoredCredentials {
    pub ssid: String,
    pub pass: String,
}

impl StoredCredentials {
    pub open spec fn wf(self) -> bool {
        self.ssid@.len() <= MAX_SSID && self.pass@.len() <= MAX_PASS
    }
}

impl WifiCredentials {
    /// Interpret the store's contents as loaded once at startup: present
    /// entries become credentials with no channel hint. The store only
    /// ever holds entries written through `store`, so they are bounded.
    pub fn load(stored: &Option<StoredCredentials>) -> (r: Option<WifiCredentials>)
        requires
            stored matches Some(s) ==> s.wf(),
        ensures
            r is Some <==> stored is Some,
            r matches Some(c) ==> stored matches Some(s) && c.ssid@ == s.ssid@ && c.pass@ == s.pass@
                && c.channel is None && c.wf(),
    {
        match stored {
            Some(s) => Some(
                WifiCredentials { ssid: s.ssid.clone(), pass: s.pass.clone(), channel: None },
            ),
            None => None,
        }
    }

    /// Persist this pair, replacing whatever the store held. Only
    /// bounded pairs are ever written, so loading stays total.
    pub fn store(self, stored: &mut Option<StoredCredentials>)
        requires
            self.wf(),
        ensures
            (*final(stored)) matches Some(s) && s.ssid@ == self.ssid@ && s.pass@ == self.pass@
                && s.wf(),
    {
        *stored = Some(StoredCredentials { ssid: self.ssid, pass: self.pass });
    }

    /// Erase the persisted pair.
    pub fn erase(stored: &mut Option<StoredCredentials>)
        ensures
            (*final(stored)) is None,
    {
        *stored = None;
    }
}

/// The radio wrapped, not yet configured.
pub struct WifiBase {}

/// Configured for mixed access-point and station operation. `sta` mirrors
/// the station credentials set in the radio's configuration, if any.
pub struct WifiMixed {
    pub sta: Option<WifiCredentials>,
}

/// Configured and started.
pub struct WifiMixedStarted(pub WifiMixed);

/// Started and attached to a remote network.
pub struct WifiMixedConnected(pub WifiMixedStarted);

/// The two externally observable states. Transitions consume one state
/// value and produce the next, so no operation can see an intermediate.
pub enum WifiState {
    Started(WifiMixedStarted),
    Connected(WifiMixedConnected),
}

impl WifiMixed {
    /// The configured station credentials, as a mathematical value.
    pub open spec fn sta_view(self) -> Option<CredsView> {
        match self.sta {
            Some(c) => Some(c@),
            None => None,
        }
    }
}

impl WifiState {
    /// The station credentials configured in the radio, whatever the state.
    pub open spec fn creds_view(self) -> Option<CredsView> {
        match self {
            WifiState::Started(s) => s.0.sta_view(),
            WifiState::Connected(c) => c.0.0.sta_view(),
        }
    }

    /// Being connected implies a queryable station configuration, and any
    /// configured credentials fit the radio's bounds.
    pub open spec fn wf(self) -> bool {
        &&& (self is Connected ==> self.creds_view() is Some)
        &&& (match self.creds_view() {
            Some(c) => c.ssid.len() <= MAX_SSID && c.pass.len() <= MAX_PASS,
            None => true,
        })
    }
}

impl WifiBase {
    /// Wrap the radio.
    pub fn new() -> WifiBase {
        WifiBase {}
    }

    /// Apply the initial mixed configuration: access point only, no
    /// station credentials yet.
    pub fn configure(self) -> (m: WifiMixed)
        ensures
            m.sta_view() is None,
    {
        WifiMixed { sta: None }
    }
}

impl WifiMixed {
    /// Start the radio.
    pub fn start(self) -> (s: WifiMixedStarted)
        ensures
            s == WifiMixedStarted(self),
    {
        WifiMixedStarted(self)
    }

    /// Set the target network's credentials, start the radio and attempt
    /// association. `link_up` is the radio's outcome: association plus
    /// address assignment within the bounded wait. Success attaches;
    /// failure leaves the radio started with the credentials configured.
    pub fn connect(self, creds: WifiCredentials, link_up: bool) -> (s: WifiState)
        requires
            creds.wf(),
        ensures
            s == spec_try_connect(creds, link_up),
            s.creds_view() == Some(creds@),
            s is Connected <==> link_up,
            s.wf(),
    {
        let configured = WifiMixed { sta: Some(creds) };
        let started = configured.start();
        if link_up {
            WifiState::Connected(WifiMixedConnected(started))
        } else {
            WifiState::Started(started)
        }
    }
}

impl WifiMixedStarted {
    /// Stop the radio, keeping the configuration.
    pub fn stop(self) -> (m: WifiMixed)
        ensures
            m == self.0,
    {
        self.0
    }
}

impl WifiMixedConnected {
    /// Detach from the remote network, keeping the radio started.
    pub fn disconnect(self) -> (s: WifiMixedStarted)
        ensures
            s == self.0,
    {
        self.0
    }

    /// The credentials of the network this state is attached to.
    pub fn get_creds(&self) -> (c: WifiCredentials)
        requires
            self.0.0.sta_view() is Some,
        ensures
            Some(c@) == self.0.0.sta_view(),
    {
        match &self.0.0.sta {
            Some(c) => c.clone(),
            None => unreached(),
        }
    }
}

/// One visible network found by a scan.
#[derive(Debug)]
pub struct AccessPointInfo {
    pub ssid: String,
    pub channel: u8,
    pub signal_strength: i8,
}

/// The manager's reply to a status query.
#[derive(Debug)]
pub enum WifiStatus {
    Connected { ssid: String },
    Started,
}

/// The commands the control surface may send to the manager's worker.
pub enum WifiManagerCmd {
    Scan,
    TryConnect(TryConnectArgs),
    Disconnect,
    GetStatus,
    SaveCredentialsNvs,
}

/// Arguments of a connect request.
pub struct TryConnectArgs {
    pub creds: WifiCredentials,
    pub store_on_connect: bool,
}

/// Operation invalid for the current connection state.
#[derive(Debug, Clone, Copy, PartialEq, Eq, Structural)]
pub enum APIError {
    NotConnected,
}

impl APIError {
    /// A human-readable description.
    pub fn message(&self) -> (r: String)
        ensures
            r@ == "Wifi is not connected"@,
    {
        String::from_str("Wifi is not connected")
    }
}

/// What a disconnect command does: from connected, detach and return to
/// started with the configuration kept; from started, reject.
pub open spec fn spec_disconnect(s: WifiState) -> (WifiState, Result<(), APIError>) {
    match s {
        WifiState::Connected(c) => (WifiState::Started(c.0), Ok(())),
        WifiState::Started(st) => (WifiState::Started(st), Err(APIError::NotConnected)),
    }
}

/// What a connect command leaves behind, whatever the prior state: the
/// requested credentials configured, attached exactly when the radio
/// reported the link up.
pub open spec fn spec_try_connect(creds: WifiCredentials, link_up: bool) -> WifiState {
    if link_up {
        WifiState::Connected(WifiMixedConnected(WifiMixedStarted(WifiMixed { sta: Some(creds) })))
    } else {
        WifiState::Started(WifiMixedStarted(WifiMixed { sta: Some(creds) }))
    }
}

/// One command of a connect/disconnect sequence, with the radio outcome
/// that answered it.
pub enum ConnCmd {
    TryConnect(WifiCredentials, bool),
    Disconnect,
}

/// The state one command leaves behind.
pub open spec fn spec_conn_step(s: WifiState, c: ConnCmd) -> WifiState {
    match c {
        ConnCmd::TryConnect(creds, link_up) => spec_try_connect(creds, link_up),
        ConnCmd::Disconnect => spec_disconnect(s).0,
    }
}

/// The state a whole command sequence leaves behind.
pub open spec fn spec_conn_run(s: WifiState, cmds: Seq<ConnCmd>) -> WifiState
    decreases cmds.len(),
{
    if cmds.len() == 0 {
        s
    } else {
        spec_conn_step(spec_conn_run(s, cmds.drop_last()), cmds.last())
    }
}

/// After any sequence of connect and disconnect commands the manager's
/// externally observable state is one of the two legal values — started
/// or connected, never an intermediate — and stays well-formed: being
/// connected still implies a queryable, bounded station configuration.
pub proof fn lemma_command_sequence_observable(s: WifiState, cmds: Seq<ConnCmd>)
    requires
        s.wf(),
        forall|i: int|
            0 <= i < cmds.len() ==> (#[trigger] cmds[i] matches ConnCmd::TryConnect(c, _)
                ==> c.wf()),
    ensures
        spec_conn_run(s, cmds) is Started || spec_conn_run(s, cmds) is Connected,
        spec_conn_run(s, cmds).wf(),
    decreases cmds.len(),
{
    if cmds.len() > 0 {
        assert(forall|i: int|
            0 <= i < cmds.drop_last().len() ==> #[trigger] cmds.drop_last()[i] == cmds[i]);
        lemma_command_sequence_observable(s, cmds.drop_last());
        assert(cmds[cmds.len() - 1] == cmds.last());
    }
}

/// The manager: sole owner of the connection state. Its worker processes
/// one command at a time; each handler below is one command's transition.
pub struct WifiManager {
    pub state: WifiState,
}

impl WifiManager {
    pub open spec fn wf(self) -> bool {
        self.state.wf()
    }

    /// Startup: if the store held credentials they were attempted
    /// (`link_up` is that attempt's outcome); otherwise the radio is
    /// merely started as an access point.
    pub fn new(stored: Option<WifiCredentials>, link_up: bool) -> (m: WifiManager)
        requires
            stored matches Some(c) ==> c.wf(),
        ensures
            m.wf(),
            stored is None ==> m.state == WifiState::Started(
                WifiMixedStarted(WifiMixed { sta: None }),
            ),
            stored matches Some(c) ==> m.state == spec_try_connect(c, link_up)
                && m.state.creds_view() == Some(c@) && (m.state is Connected <==> link_up),
    {
        let mixed = WifiBase::new().configure();
        match stored {
            Some(creds) => WifiManager { state: mixed.connect(creds, link_up) },
            None => WifiManager { state: WifiState::Started(mixed.start()) },
        }
    }

    /// Scan for visible networks. Legal in either state and changes
    /// nothing; the found list (the radio's outcome) is the reply.
    pub fn handle_scan(&self, found: Vec<AccessPointInfo>) -> (r: Vec<AccessPointInfo>)
        ensures
            r@ == found@,
    {
        found
    }

    /// Attempt to attach to the requested network. From connected this
    /// first detaches. `link_up` is the radio's association outcome; the
    /// reply says whether the manager is now connected. On success with
    /// `store_on_connect` the credentials are persisted; otherwise the
    /// store is untouched.
    pub fn handle_try_connect(
        &mut self,
        args: TryConnectArgs,
        link_up: bool,
        stored: &mut Option<StoredCredentials>,
    ) -> (connected: bool)
        requires
            args.creds.wf(),
        ensures
            final(self).state == spec_try_connect(args.creds, link_up),
            final(self).state.creds_view() == Some(args.creds@),
            final(self).state is Connected <==> link_up,
            final(self).wf(),
            connected == link_up,
            link_up && args.store_on_connect ==> ((*final(stored)) matches Some(s)
                && s.ssid@ == args.creds@.ssid && s.pass@ == args.creds@.pass),
            !(link_up && args.store_on_connect) ==> *final(stored) == *old(stored),
    {
        let mut state = WifiState::Started(WifiMixedStarted(WifiMixed { sta: None }));
        core::mem::swap(&mut state, &mut self.state);
        self.state = match state {
            WifiState::Started(m) => m.stop().connect(args.creds, link_up),
            WifiState::Connected(m) => m.disconnect().stop().connect(args.creds, link_up),
        };
        match &self.state {
            WifiState::Connected(c) => {
                if args.store_on_connect {
                    c.get_creds().store(stored);
                }
                true
            },
            WifiState::Started(_) => false,
        }
    }

    /// Detach from the current network, or reject if not attached.
    pub fn handle_disconnect(&mut self) -> (r: Result<(), APIError>)
        ensures
            (final(self).state, r) == spec_disconnect(old(self).state),
            old(self).wf() ==> final(self).wf(),
    {
        let mut state = WifiState::Started(WifiMixedStarted(WifiMixed { sta: None }));
        core::mem::swap(&mut state, &mut self.state);
        match state {
            WifiState::Connected(m) => {
                self.state = WifiState::Started(m.disconnect().stop().start());
                Ok(())
            },
            WifiState::Started(s) => {
                self.state = WifiState::Started(s);
                Err(APIError::NotConnected)
            },
        }
    }

    /// Report the current state without side effects.
    pub fn handle_get_status(&self) -> (r: WifiStatus)
        requires
            self.wf(),
        ensures
            self.state is Started ==> r is Started,
            self.state is Connected ==> (r matches WifiStatus::Connected { ssid }
                && self.state.creds_view() matches Some(cv) && ssid@ == cv.ssid),
    {
        match &self.state {
            WifiState::Started(_) => WifiStatus::Started,
            WifiState::Connected(m) => WifiStatus::Connected { ssid: m.get_creds().ssid },
        }
    }

    /// Persist the currently associated network's credentials, or reject
    /// if not attached. The store changes exactly when the reply is `Ok`.
    pub fn handle_save_credentials(&self, stored: &mut Option<StoredCredentials>) -> (r: Result<
        (),
        APIError,
    >)
        requires
            self.wf(),
        ensures
            self.state is Connected ==> ({
                &&& r is Ok
                &&& (*final(stored)) matches Some(s) && self.state.creds_view() matches Some(cv)
                    && s.ssid@ == cv.ssid && s.pass@ == cv.pass
            }),
            self.state is Started ==> r == Err::<(), APIError>(APIError::NotConnected)
                && *final(stored) == *old(stored),
    {
        match &self.state {
            WifiState::Started(_) => Err(APIError::NotConnected),
            WifiState::Connected(m) => {
                m.get_creds().store(stored);
                Ok(())
            },
        }
    }
}

/// After any disconnect the state is started, so a second disconnect in a
/// row is rejected with `NotConnected` and changes nothing: the command
/// sequence can never observe an intermediate state between the two.
pub proof fn lemma_disconnect_twice(s: WifiState)
    ensures
        ({
            let (s1, r1) = spec_disconnect(s);
            let (s2, r2) = spec_disconnect(s1);
            &&& s2 == s1
            &&& r2 == Err::<(), APIError>(APIError::NotConnected)
            &&& (s is Connected ==> r1 == Ok::<(), APIError>(()))
            &&& (s is Started ==> r1 == Err::<(), APIError>(APIError::NotConnected))
        }),
{
}

} // verus!
