//! The session lifecycle: the single ephemeral server instance with its
//! advertised address, its bearer token, and the liveness state machine
//! that notices a stalled or vanished peer. All decisions are made
//! here; binding sockets, sleeping and serving requests are the
//! embedding process's business.

use vstd::prelude::*;

use crate::auth::generate_token;
use crate::numfmt::{dec_digits, u64_to_string};
use crate::order::views_of;

verus! {

broadcast use vstd::seq::group_seq_axioms;

/// Where the peer-liveness state machine stands.
#[derive(Clone, Copy, Debug, PartialEq, Eq, Structural)]
pub enum LivenessStatus {
    /// Session started, no peer seen yet.
    Waiting,
    /// A peer has pinged and is considered present.
    Connected,
    /// The caller has marked the peer as actively transferring.
    Syncing,
    /// A present peer fell silent beyond the inactivity threshold.
    TimedOut,
}

/// The status after a ping: a waiting or timed-out session greets the
/// peer as connected; an already active one keeps its mode.
pub open spec fn ping_next(s: LivenessStatus) -> LivenessStatus {
    match s {
        LivenessStatus::Waiting => LivenessStatus::Connected,
        LivenessStatus::TimedOut => LivenessStatus::Connected,
        LivenessStatus::Connected => LivenessStatus::Connected,
        LivenessStatus::Syncing => LivenessStatus::Syncing,
    }
}

/// The status after the caller marks a transfer: only a present peer
/// can be syncing.
pub open spec fn syncing_next(s: LivenessStatus) -> LivenessStatus {
    match s {
        LivenessStatus::Connected => LivenessStatus::Syncing,
        LivenessStatus::Syncing => LivenessStatus::Syncing,
        other => other,
    }
}

/// The status after a monitor wake-up: a present peer whose idle time
/// exceeded the threshold has timed out; everything else stands.
pub open spec fn monitor_next(s: LivenessStatus, idle_exceeded: bool) -> LivenessStatus {
    match s {
        LivenessStatus::Connected => if idle_exceeded {
            LivenessStatus::TimedOut
        } else {
            LivenessStatus::Connected
        },
        LivenessStatus::Syncing => if idle_exceeded {
            LivenessStatus::TimedOut
        } else {
            LivenessStatus::Syncing
        },
        other => other,
    }
}

/// The liveness record: the current status and when the peer was last
/// heard from, in milliseconds of wall-clock time.
#[derive(Clone, Copy, Debug)]
pub struct LivenessState {
    pub status: LivenessStatus,
    pub last_activity_ms: i64,
}

impl LivenessState {
    /// A fresh session: waiting, timestamped at session start.
    pub fn new(now_ms: i64) -> (r: LivenessState)
        ensures
            r.status == LivenessStatus::Waiting,
            r.last_activity_ms == now_ms,
    {
        LivenessState { status: LivenessStatus::Waiting, last_activity_ms: now_ms }
    }

    /// A ping arrived: greet the peer and refresh the activity clock.
    pub fn on_ping(&mut self, now_ms: i64)
        ensures
            final(self).status == ping_next(old(self).status),
            final(self).last_activity_ms == now_ms,
    {
        match self.status {
            LivenessStatus::Waiting => {
                self.status = LivenessStatus::Connected;
            },
            LivenessStatus::TimedOut => {
                self.status = LivenessStatus::Connected;
            },
            _ => {
            },
        }
        self.last_activity_ms = now_ms;
    }

    /// A protocol or file request arrived: refresh the activity clock.
    pub fn on_activity(&mut self, now_ms: i64)
        ensures
            final(self).status == old(self).status,
            final(self).last_activity_ms == now_ms,
    {
        self.last_activity_ms = now_ms;
    }

    /// The caller marks the peer as actively transferring.
    pub fn mark_syncing(&mut self, now_ms: i64)
        ensures
            final(self).status == syncing_next(old(self).status),
            final(self).last_activity_ms == now_ms,
    {
        match self.status {
            LivenessStatus::Connected => {
                self.status = LivenessStatus::Syncing;
            },
            _ => {
            },
        }
        self.last_activity_ms = now_ms;
    }

    /// The background monitor woke: a present peer idle beyond the
    /// threshold has timed out. The activity clock is left alone.
    pub fn on_monitor_tick(&mut self, now_ms: i64, threshold_ms: i64)
        requires
            0 <= old(self).last_activity_ms <= now_ms,
            0 <= threshold_ms,
        ensures
            final(self).status == monitor_next(
                old(self).status,
                now_ms - old(self).last_activity_ms > threshold_ms,
            ),
            final(self).last_activity_ms == old(self).last_activity_ms,
    {
        let idle_exceeded = now_ms - self.last_activity_ms > threshold_ms;
        match self.status {
            LivenessStatus::Connected => {
                if idle_exceeded {
                    self.status = LivenessStatus::TimedOut;
                }
            },
            LivenessStatus::Syncing => {
                if idle_exceeded {
                    self.status = LivenessStatus::TimedOut;
                }
            },
            _ => {
            },
        }
    }

    /// Session stop: back to the initial state.
    pub fn reset(&mut self)
        ensures
            final(self).status == LivenessStatus::Waiting,
            final(self).last_activity_ms == old(self).last_activity_ms,
    {
        self.status = LivenessStatus::Waiting;
    }
}

/// The liveness cycle behaves as advertised: a new session waits; a
/// ping connects it; staying idle beyond the threshold times it out;
/// a later ping reconnects; a stop waits again.
pub proof fn lemma_liveness_cycle()
    ensures
        ping_next(LivenessStatus::Waiting) == LivenessStatus::Connected,
        monitor_next(LivenessStatus::Connected, true) == LivenessStatus::TimedOut,
        monitor_next(LivenessStatus::Connected, false) == LivenessStatus::Connected,
        monitor_next(LivenessStatus::Syncing, true) == LivenessStatus::TimedOut,
        ping_next(LivenessStatus::TimedOut) == LivenessStatus::Connected,
        monitor_next(LivenessStatus::Waiting, true) == LivenessStatus::Waiting,
        monitor_next(LivenessStatus::TimedOut, true) == LivenessStatus::TimedOut,
{
}

/// What a session advertises: address, port, base URL and the public
/// endpoints.
#[derive(Debug)]
#[verifier::ext_equal]
pub struct ServerInfo {
    pub ip: String,
    pub port: u16,
    pub url: String,
    pub endpoints: Vec<String>,
}

/// The base URL of a session at `ip` and `port`.
pub open spec fn url_spec(ip: Seq<char>, port: u16) -> Seq<char> {
    seq!['h', 't', 't', 'p', ':', '/', '/'] + ip + seq![':'] + dec_digits(port as nat)
}

/// How a session's advertised record relates to its address: the URL
/// is composed of the address, and the public endpoints are the two
/// health paths.
pub open spec fn info_for(info: ServerInfo, ip: Seq<char>, port: u16) -> bool {
    &&& info.ip@ == ip
    &&& info.port == port
    &&& info.url@ == url_spec(ip, port)
    &&& views_of(info.endpoints@) =~= seq!["/ping"@, "/connection"@]
}

/// Whether two advertised records carry the same content.
pub open spec fn same_info(a: ServerInfo, b: ServerInfo) -> bool {
    &&& a.ip == b.ip
    &&& a.port == b.port
    &&& a.url == b.url
    &&& a.endpoints@ == b.endpoints@
}

/// The advertised record for a session at `ip` and `port`.
pub fn build_server_info(ip: &str, port: u16) -> (r: ServerInfo)
    ensures
        info_for(r, ip@, port),
{
    let mut url = String::new();
    url.append("http://");
    url.append(ip);
    url.append(":");
    let p = u64_to_string(port as u64);
    url.append(p.as_str());
    let mut endpoints: Vec<String> = Vec::new();
    endpoints.push(String::from_str("/ping"));
    endpoints.push(String::from_str("/connection"));
    let ip_string = String::from_str(ip);
    proof {
        reveal_strlit("http://");
        reveal_strlit(":");
        assert("http://"@ =~= seq!['h', 't', 't', 'p', ':', '/', '/']);
        assert(":"@ =~= seq![':']);
        assert(url@ =~= url_spec(ip@, port));
        assert(views_of(endpoints@) =~= seq!["/ping"@, "/connection"@]);
    }
    ServerInfo { ip: ip_string, port, url, endpoints }
}

fn clone_server_info(info: &ServerInfo) -> (r: ServerInfo)
    ensures
        same_info(r, *info),
{
    let mut endpoints: Vec<String> = Vec::new();
    let mut i: usize = 0;
    while i < info.endpoints.len()
        invariant
            i <= info.endpoints@.len(),
            endpoints@ =~= info.endpoints@.subrange(0, i as int),
        decreases info.endpoints@.len() - i,
    {
        endpoints.push(info.endpoints[i].clone());
        proof {
            assert(endpoints@ =~= info.endpoints@.subrange(0, i + 1));
        }
        i += 1;
    }
    proof {
        assert(endpoints@ =~= info.endpoints@);
    }
    ServerInfo { ip: info.ip.clone(), port: info.port, url: info.url.clone(), endpoints }
}

/// The first free port at or above `base`, given the bind outcome for
/// each candidate in order; none when the whole range is taken.
pub fn choose_port(base: u16, bindable: &Vec<bool>) -> (r: Option<u16>)
    requires
        base + bindable@.len() <= u16::MAX + 1,
    ensures
        (match r {
            Some(p) => exists|i: int|
                0 <= i < bindable@.len() && #[trigger] bindable@[i] && p == base + i && forall|
                    j: int,
                |
                    0 <= j < i ==> !bindable@[j],
            None => forall|j: int| 0 <= j < bindable@.len() ==> !bindable@[j],
        }),
{
    let mut i: usize = 0;
    while i < bindable.len()
        invariant
            i <= bindable@.len(),
            base + bindable@.len() <= u16::MAX + 1,
            forall|j: int| 0 <= j < i ==> !bindable@[j],
        decreases bindable@.len() - i,
    {
        if bindable[i] {
            let ghost witness = i as int;
            let p = base + (i as u16);
            assert(bindable@[witness] && p == base + witness);
            return Some(p);
        }
        i += 1;
    }
    None
}

/// What a `/ping` answers: a fixed greeting and the current time.
#[derive(Debug)]
pub struct PingResponse {
    pub message: String,
    pub status: String,
    pub timestamp: String,
}

/// What a pairing code carries: the advertised session record and the
/// time it was issued.
#[derive(Debug)]
pub struct QrPayload {
    pub ip: String,
    pub port: u16,
    pub url: String,
    pub endpoints: Vec<String>,
    pub timestamp: String,
}

/// Relies on chrono's Utc::now().to_rfc3339(): the current wall-clock
/// instant in RFC 3339 form. The clock decides the value, so nothing
/// is assumed of it.
#[verifier::external_body]
fn now_rfc3339() -> String {
    chrono::Utc::now().to_rfc3339()
}

/// The answer to a `/ping`: the fixed greeting, stamped now.
pub fn ping_response() -> (r: PingResponse)
    ensures
        r.message@ == "pong"@,
        r.status@ == "ok"@,
{
    let ts = now_rfc3339();
    PingResponse {
        message: String::from_str("pong"),
        status: String::from_str("ok"),
        timestamp: ts,
    }
}

/// How a session starts: freshly, or not at all because one is
/// already running (its record is handed back unchanged).
pub enum StartOutcome {
    /// The session was started and advertises this record.
    Started(ServerInfo),
    /// A session is already running with this record; no second
    /// listener may exist.
    AlreadyRunning(ServerInfo),
}

/// A start against a running session: nothing changed, and the
/// existing record came back.
pub open spec fn refused_start(pre: ApiServer, post: ApiServer, r: StartOutcome) -> bool {
    &&& post == pre
    &&& (r matches StartOutcome::AlreadyRunning(i) && (pre.server_info matches Some(p)
        && same_info(i, p)))
}

/// A start of a fresh session: the advertised record is composed from
/// the address, a 36-character bearer token is issued, and liveness
/// waits, stamped now.
pub open spec fn fresh_start(
    post: ApiServer,
    r: StartOutcome,
    ip: Seq<char>,
    port: u16,
    now_ms: i64,
) -> bool {
    &&& (r matches StartOutcome::Started(i) ==> info_for(i, ip, port) && (post.server_info matches
        Some(cur) && same_info(cur, i)))
    &&& r is Started
    &&& (post.token matches Some(t) && t@.len() == 36)
    &&& post.liveness.status == LivenessStatus::Waiting
    &&& post.liveness.last_activity_ms == now_ms
}

/// The session singleton: the advertised record, the bearer token and
/// the liveness state of the one running instance, or none.
pub struct ApiServer {
    pub server_info: Option<ServerInfo>,
    pub token: Option<String>,
    pub liveness: LivenessState,
}

impl ApiServer {
    /// No session running.
    pub fn new() -> (r: ApiServer)
        ensures
            r.server_info is None,
            r.token is None,
            r.liveness.status == LivenessStatus::Waiting,
    {
        ApiServer {
            server_info: None,
            token: None,
            liveness: LivenessState::new(0),
        }
    }

    /// Starts the one session at the given address, issuing a fresh
    /// bearer token and resetting liveness — unless a session already
    /// runs, in which case nothing changes and the existing record is
    /// returned. Two listeners can never be live at once.
    pub fn start(&mut self, ip: &str, port: u16, now_ms: i64) -> (r: StartOutcome)
        ensures
            old(self).server_info is Some ==> refused_start(*old(self), *final(self), r),
            old(self).server_info is None ==> fresh_start(*final(self), r, ip@, port, now_ms),
    {
        match &self.server_info {
            Some(info) => {
                let existing = clone_server_info(info);
                StartOutcome::AlreadyRunning(existing)
            },
            None => {
                let info = build_server_info(ip, port);
                let given = clone_server_info(&info);
                self.server_info = Some(info);
                self.token = Some(generate_token());
                self.liveness = LivenessState::new(now_ms);
                StartOutcome::Started(given)
            },
        }
    }

    /// Stops the session: the record and token are cleared and the
    /// liveness status returns to its initial state. Stopping a
    /// stopped session changes nothing.
    pub fn stop(&mut self)
        ensures
            final(self).server_info is None,
            final(self).token is None,
            final(self).liveness.status == LivenessStatus::Waiting,
            final(self).liveness.last_activity_ms == old(self).liveness.last_activity_ms,
    {
        self.server_info = None;
        self.token = None;
        self.liveness.reset();
    }

    /// Whether a session is running.
    pub fn is_running(&self) -> (r: bool)
        ensures
            r == (self.server_info is Some),
    {
        self.server_info.is_some()
    }

    /// The advertised record of the running session, if any.
    pub fn get_server_info(&self) -> (r: Option<ServerInfo>)
        ensures
            (r matches Some(i) ==> self.server_info matches Some(cur) && same_info(i, cur)),
            (r is None) == (self.server_info is None),
    {
        match &self.server_info {
            Some(info) => Some(clone_server_info(info)),
            None => None,
        }
    }

    /// The pairing payload of the running session, stamped now; none
    /// when no session runs.
    pub fn generate_qr_data(&self) -> (r: Option<QrPayload>)
        ensures
            (r matches Some(q) ==> self.server_info matches Some(cur) && q.ip == cur.ip && q.port
                == cur.port && q.url == cur.url && q.endpoints@ == cur.endpoints@),
            (r is None) == (self.server_info is None),
    {
        match &self.server_info {
            Some(info) => {
                let copy = clone_server_info(info);
                let ts = now_rfc3339();
                Some(
                    QrPayload {
                        ip: copy.ip,
                        port: copy.port,
                        url: copy.url,
                        endpoints: copy.endpoints,
                        timestamp: ts,
                    },
                )
            },
            None => None,
        }
    }
}

} // verus!
