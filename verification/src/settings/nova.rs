//! Paired devices: pairing, discovery, and the peers' configuration.
use vstd::prelude::*;
use vstd::string::*;
use vstd::utf8::{decode_utf8, encode_utf8, is_char_boundary};

use crate::proto::PeerView;
use crate::seqs::{any, kept, kept_step};
use crate::state::{by_device_id, merged, peer_devices, AppState};
use crate::text::{chars_of, code_point, decimal, decimal_text, lines, lines_of, same, trim, trimmed};
use crate::wire::{opt, texts, Call, Method, Request, Value, ValueView};

verus! {

/// The port that is scanned while the local engine's own is not known.
pub const DEFAULT_PORT: u16 = 27655;

/// A service that a scan found.
#[derive(Debug)]
pub enum FoundPeer {
    Nova { addr: String, device_id: String, name: String, ticket: String, trusted: bool },
    Open { addr: String },
}

/// The engine of this device.
#[derive(Debug)]
pub struct LocalDevice {
    pub device_id: String,
    pub name: String,
    pub port: u16,
    pub ticket: String,
}

/// The dialog that configures a peer.
#[derive(Debug)]
pub struct EditPeer {
    pub device_id: String,
    pub name: String,
    pub endpoint: String,
    pub role: String,
}

/// The page.
#[derive(Debug)]
pub struct NovaPage {
    pub local: Option<LocalDevice>,
    /// What was typed: the other engine's ticket, its code, the ranges to scan.
    pub endpoint: String,
    pub code: String,
    pub ranges: String,
    pub peers: Vec<PeerView>,
    pub found: Vec<FoundPeer>,
    /// The code that this engine hands out, good for one pairing.
    pub pairing_code: Option<String>,
    pub edit: Option<EditPeer>,
    pub error: Option<String>,
    pub status: Option<String>,
    pub busy: bool,
}

/// A call under way, and what is said when it went well.
pub struct NovaCall {
    pub request: Request,
    pub success: &'static str,
}

/// What a scan delivers.
#[derive(Debug)]
pub enum ScanEvent {
    Found(FoundPeer),
    /// The scan is over, perhaps with an error.
    Done { error: Option<String> },
    /// The stream is over.
    Ended,
    /// There was no stream.
    Failed { error: String },
}

/// Whether a peer with that id is among the peers.
pub open spec fn knows(peers: Seq<PeerView>, id: Seq<char>) -> bool {
    any(peers, |p: PeerView| p.device_id@ == id)
}

/// Whether some peer is new.
pub open spec fn gained(before: Seq<PeerView>, after: Seq<PeerView>) -> bool {
    exists|i: int| 0 <= i < after.len() && !knows(before, (#[trigger] after[i]).device_id@)
}

/// Whether a text is a pairing code: six digits.
pub open spec fn is_code(s: Seq<char>) -> bool {
    s.len() == 6 && forall|i: int| 0 <= i < 6 ==> '0' <= #[trigger] s[i] && s[i] <= '9'
}

/// The condition of being worth a scan.
pub open spec fn not_blank() -> spec_fn(Seq<char>) -> bool {
    |l: Seq<char>| l.len() > 0
}

/// The ranges that a text names: its lines, trimmed, without the blank ones.
pub open spec fn ranges_of(text: Seq<char>) -> Seq<Seq<char>> {
    kept(lines_of(text).map_values(|l: Seq<char>| trimmed(l)), not_blank())
}

/// The page with a call under way.
pub open spec fn calling(p: NovaPage) -> NovaPage {
    NovaPage { busy: true, error: None, status: None, ..p }
}

/// The text of an option.
pub open spec fn says(o: Option<String>, text: Seq<char>) -> bool {
    opt(o) == Some(text)
}

/// A call about one device.
pub open spec fn device_call(method: Method, device: Seq<char>) -> Call {
    Call { method, params: Map::empty().insert("deviceId"@, ValueView::Text(device)) }
}

/// Whether a call is made, and which.
pub open spec fn makes(
    r: Option<NovaCall>,
    wanted: bool,
    call: Call,
    success: Seq<char>,
) -> bool {
    match r {
        Some(c) => wanted && c.request@ == call && c.success@ == success,
        None => !wanted,
    }
}

fn find_peer(peers: &Vec<PeerView>, id: &str) -> (r: bool)
    ensures
        r == knows(peers@, id@),
{
    let mut i: usize = 0;
    while i < peers.len()
        invariant
            i <= peers@.len(),
            forall|j: int| 0 <= j < i ==> (#[trigger] peers@[j]).device_id@ != id@,
        decreases peers@.len() - i,
    {
        if same(peers[i].device_id.as_str(), id) {
            return true;
        }
        i += 1;
    }
    false
}

fn code_is_valid(code: &str) -> (r: bool)
    ensures
        r == is_code(code@),
{
    let cs: Vec<char> = chars_of(code);
    if cs.len() != 6 {
        return false;
    }
    let mut i: usize = 0;
    while i < 6
        invariant
            i <= 6,
            cs@ == code@,
            cs@.len() == 6,
            forall|j: int| 0 <= j < i ==> '0' <= #[trigger] cs@[j] && cs@[j] <= '9',
        decreases 6 - i,
    {
        let u: u32 = code_point(cs[i]);
        if u < 48 || u > 57 {
            assert(!('0' <= cs@[i as int] && cs@[i as int] <= '9'));
            return false;
        }
        i += 1;
    }
    true
}

/// The ranges that a text names.
pub fn scan_ranges(text: &str) -> (r: Vec<String>)
    ensures
        texts(r@) == ranges_of(text@),
{
    let all: Vec<String> = lines(text);
    let ghost f = |l: Seq<char>| trimmed(l);
    let ghost cut = lines_of(text@).map_values(f);
    let mut r: Vec<String> = Vec::new();
    let mut i: usize = 0;
    assert(all@.map_values(|l: String| l@).len() == all@.len());
    assert(texts(r@) =~= kept(cut.take(0), not_blank()));
    while i < all.len()
        invariant
            i <= all@.len() == cut.len(),
            f == (|l: Seq<char>| trimmed(l)),
            all@.map_values(|l: String| l@) == lines_of(text@),
            cut == lines_of(text@).map_values(f),
            texts(r@) == kept(cut.take(i as int), not_blank()),
        decreases all@.len() - i,
    {
        proof {
            kept_step(cut, not_blank(), i as int);
            assert(all@.map_values(|l: String| l@)[i as int] == all@[i as int]@);
            assert(cut[i as int] == trimmed(all@[i as int]@));
        }
        let line: String = trim(all[i].as_str());
        if !line.as_str().is_empty() {
            let ghost had = r@;
            let ghost name = line@;
            r.push(line);
            assert(texts(r@) =~= texts(had).push(name));
        }
        i += 1;
    }
    assert(cut.take(i as int) =~= cut);
    r
}

fn prefixed(head: &str, tail: &str) -> (s: String)
    ensures
        s@ == head@ + tail@,
{
    let mut s: String = head.to_owned();
    s.append(tail);
    s
}

impl NovaPage {
    pub fn new() -> (p: NovaPage)
        ensures
            p.local is None,
            p.endpoint@.len() == 0,
            p.code@.len() == 0,
            p.ranges@ == "10.0.0.0/24"@,
            p.peers@.len() == 0,
            p.found@.len() == 0,
            p.pairing_code is None,
            p.edit is None,
            p.error is None,
            p.status is None,
            !p.busy,
    {
        NovaPage {
            local: None,
            endpoint: String::new(),
            code: String::new(),
            ranges: "10.0.0.0/24".to_owned(),
            peers: Vec::new(),
            found: Vec::new(),
            pairing_code: None,
            edit: None,
            error: None,
            status: None,
            busy: false,
        }
    }

    /// A frame of the watch of peers. A new peer used up this engine's code,
    /// which is then no longer shown.
    pub fn on_peers(&mut self, peers: Vec<PeerView>)
        ensures
            ({
                let new_peer = gained(old(self).peers@, peers@);
                &&& new_peer ==> says(final(self).status, "device paired"@)
                &&& *final(self) == (if new_peer {
                    NovaPage {
                        peers,
                        pairing_code: None,
                        status: final(self).status,
                        ..*old(self)
                    }
                } else {
                    NovaPage { peers, ..*old(self) }
                })
            }),
    {
        let mut new_peer: bool = false;
        let mut i: usize = 0;
        while i < peers.len() && !new_peer
            invariant
                *self == *old(self),
                i <= peers@.len(),
                new_peer ==> gained(self.peers@, peers@),
                !new_peer ==> forall|j: int|
                    0 <= j < i ==> knows(self.peers@, (#[trigger] peers@[j]).device_id@),
            decreases peers@.len() - i + (if new_peer { 0int } else { 1 }),
        {
            if !find_peer(&self.peers, peers[i].device_id.as_str()) {
                assert(!knows(self.peers@, peers@[i as int].device_id@));
                new_peer = true;
            } else {
                i += 1;
            }
        }
        self.peers = peers;
        if new_peer {
            self.pairing_code = None;
            self.status = Some("device paired".to_owned());
        }
    }

    /// The calls of a refresh: this engine's identity, and the peers.
    pub fn refresh(&self, state: &AppState) -> (r: Option<(Request, Request)>)
        ensures
            match r {
                Some((local, peers)) => state.engine is Some && local@ == (Call {
                    method: Method::NovaLocalDevice,
                    params: Map::empty(),
                }) && peers@ == (Call { method: Method::NovaListPeers, params: Map::empty() }),
                None => state.engine is None,
            },
    {
        if state.engine.is_none() {
            return None;
        }
        Some((Request::new(Method::NovaLocalDevice), Request::new(Method::NovaListPeers)))
    }

    /// The replies to a refresh, as far as they could be read. The peers also go
    /// to the app's devices.
    pub fn on_refreshed(
        &mut self,
        state: &mut AppState,
        local: Option<LocalDevice>,
        peers: Option<Vec<PeerView>>,
    )
        requires
            old(state).echoes.wf(),
        ensures
            final(state).echoes.wf(),
            old(state).wf() ==> final(state).wf(),
            *final(self) == (NovaPage {
                local,
                peers: match peers {
                    Some(p) => p,
                    None => old(self).peers,
                },
                ..*old(self)
            }),
            match peers {
                None => *final(state) == *old(state),
                Some(p) => final(state).nova_devices@ == peer_devices(p@) && final(state).devices@
                    == crate::order::ordered(
                    merged(old(state).workspace_devices@, peer_devices(p@)),
                    by_device_id(),
                ) && *final(state) == (AppState {
                    nova_devices: final(state).nova_devices,
                    devices: final(state).devices,
                    ..*old(state)
                }),
            },
    {
        self.local = local;
        if let Some(p) = peers {
            state.on_peers(&p);
            self.peers = p;
        }
    }

    fn call(&mut self, state: &AppState, request: Request, success: &'static str) -> (r: Option<
        NovaCall,
    >)
        ensures
            makes(r, state.engine is Some, request@, success@),
            *final(self) == (if state.engine is Some {
                calling(*old(self))
            } else {
                *old(self)
            }),
    {
        if state.engine.is_none() {
            return None;
        }
        self.busy = true;
        self.error = None;
        self.status = None;
        Some(NovaCall { request, success })
    }

    /// Asks for a pairing code.
    pub fn begin_pairing(&mut self, state: &AppState) -> (r: Option<NovaCall>)
        ensures
            makes(
                r,
                state.engine is Some,
                Call { method: Method::NovaBeginPairing, params: Map::empty() },
                "pairing code ready"@,
            ),
            *final(self) == (if state.engine is Some {
                calling(*old(self))
            } else {
                *old(self)
            }),
    {
        self.call(state, Request::new(Method::NovaBeginPairing), "pairing code ready")
    }

    /// Pairs with the engine whose ticket and code were typed.
    pub fn pair(&mut self, state: &AppState) -> (r: Option<NovaCall>)
        ensures
            ({
                let endpoint = trimmed(old(self).endpoint@);
                let code = trimmed(old(self).code@);
                let valid = endpoint.len() > 0 && is_code(code);
                &&& makes(
                    r,
                    valid && state.engine is Some,
                    Call {
                        method: Method::NovaPairPeer,
                        params: Map::empty().insert("endpoint"@, ValueView::Text(endpoint)).insert(
                            "code"@,
                            ValueView::Text(code),
                        ),
                    },
                    "device paired"@,
                )
                &&& valid ==> *final(self) == (if state.engine is Some {
                    calling(*old(self))
                } else {
                    *old(self)
                })
                &&& !valid ==> says(
                    final(self).error,
                    "enter a peer's iroh ticket and 6-digit code"@,
                ) && *final(self) == (NovaPage { error: final(self).error, ..*old(self) })
            }),
    {
        let endpoint: String = trim(self.endpoint.as_str());
        let code: String = trim(self.code.as_str());
        if endpoint.as_str().is_empty() || !code_is_valid(code.as_str()) {
            self.error = Some("enter a peer's iroh ticket and 6-digit code".to_owned());
            return None;
        }
        let request: Request = Request::new(Method::NovaPairPeer).with_text(
            "endpoint",
            endpoint.as_str(),
        ).with_text("code", code.as_str());
        self.call(state, request, "device paired")
    }

    /// Scans the ranges that were typed.
    pub fn run_scan(&mut self, state: &AppState) -> (r: Option<Request>)
        ensures
            ({
                let ranges = ranges_of(old(self).ranges@);
                let port = match old(self).local {
                    Some(l) => l.port,
                    None => DEFAULT_PORT,
                };
                if ranges.len() == 0 {
                    &&& r is None
                    &&& says(final(self).error, "add at least one cidr range"@)
                    &&& *final(self) == (NovaPage { error: final(self).error, ..*old(self) })
                } else if state.engine is None {
                    r is None && *final(self) == *old(self)
                } else {
                    &&& r matches Some(request) && request@ == (Call {
                        method: Method::NovaScan,
                        params: Map::empty().insert("ranges"@, ValueView::List(ranges)).insert(
                            "port"@,
                            ValueView::Int(port as int),
                        ),
                    })
                    &&& final(self).found@.len() == 0
                    &&& *final(self) == (NovaPage {
                        found: final(self).found,
                        ..calling(*old(self))
                    })
                }
            }),
    {
        let ranges: Vec<String> = scan_ranges(self.ranges.as_str());
        assert(texts(ranges@).len() == ranges@.len());
        if ranges.len() == 0 {
            self.error = Some("add at least one cidr range".to_owned());
            return None;
        }
        if state.engine.is_none() {
            return None;
        }
        self.error = None;
        self.status = None;
        self.busy = true;
        self.found = Vec::new();
        let port: u16 = match &self.local {
            Some(l) => l.port,
            None => DEFAULT_PORT,
        };
        Some(
            Request::new(Method::NovaScan).with("ranges", Value::List(ranges)).with(
                "port",
                Value::Int(port as u64),
            ),
        )
    }

    /// An event of a scan. The result tells whether the scan goes on.
    pub fn on_scan(&mut self, event: ScanEvent) -> (more: bool)
        ensures
            more == event is Found,
            match event {
                ScanEvent::Found(peer) => final(self).found@ == old(self).found@.push(peer)
                    && *final(self) == (NovaPage { found: final(self).found, ..*old(self) }),
                ScanEvent::Failed { error } => says(
                    final(self).error,
                    "scan failed: "@ + error@,
                ) && *final(self) == (NovaPage {
                    busy: false,
                    error: final(self).error,
                    ..*old(self)
                }),
                ScanEvent::Done { error: Some(error) } => says(
                    final(self).error,
                    "scan failed: "@ + error@,
                ) && *final(self) == (NovaPage {
                    busy: false,
                    error: final(self).error,
                    ..*old(self)
                }),
                _ => if old(self).error is Some {
                    *final(self) == (NovaPage { busy: false, ..*old(self) })
                } else {
                    says(final(self).status, "scan complete"@) && *final(self) == (NovaPage {
                        busy: false,
                        status: final(self).status,
                        ..*old(self)
                    })
                },
            },
    {
        match event {
            ScanEvent::Found(peer) => {
                self.found.push(peer);
                true
            },
            ScanEvent::Failed { error } => {
                self.busy = false;
                self.error = Some(prefixed("scan failed: ", error.as_str()));
                false
            },
            ScanEvent::Done { error } => {
                if let Some(e) = error {
                    self.error = Some(prefixed("scan failed: ", e.as_str()));
                }
                self.finish_scan();
                false
            },
            ScanEvent::Ended => {
                self.finish_scan();
                false
            },
        }
    }

    fn finish_scan(&mut self)
        ensures
            if old(self).error is Some {
                *final(self) == (NovaPage { busy: false, ..*old(self) })
            } else {
                says(final(self).status, "scan complete"@) && *final(self) == (NovaPage {
                    busy: false,
                    status: final(self).status,
                    ..*old(self)
                })
            },
    {
        self.busy = false;
        if self.error.is_none() {
            self.status = Some("scan complete".to_owned());
        }
    }

    /// The reply to a call: what went wrong, or the new code, or that it went
    /// well. The result tells whether to refresh.
    pub fn on_reply(
        &mut self,
        method: Method,
        success: &'static str,
        reply: Result<Option<String>, String>,
    ) -> (refresh: bool)
        ensures
            refresh == (reply is Ok && method != Method::NovaBeginPairing),
            match reply {
                Err(error) => says(final(self).error, success@ + " failed: "@ + error@)
                    && *final(self) == (NovaPage {
                    busy: false,
                    error: final(self).error,
                    ..*old(self)
                }),
                Ok(code) => if method == Method::NovaBeginPairing {
                    *final(self) == (NovaPage { busy: false, pairing_code: code, ..*old(self) })
                } else {
                    &&& says(final(self).status, success@)
                    &&& method == Method::NovaPairPeer ==> final(self).code@.len() == 0
                    &&& *final(self) == (NovaPage {
                        busy: false,
                        status: final(self).status,
                        code: if method == Method::NovaPairPeer {
                            final(self).code
                        } else {
                            old(self).code
                        },
                        ..*old(self)
                    })
                },
            },
    {
        self.busy = false;
        match reply {
            Err(error) => {
                let mut s: String = prefixed(success, " failed: ");
                s.append(error.as_str());
                self.error = Some(s);
                false
            },
            Ok(code) => {
                if method == Method::NovaBeginPairing {
                    self.pairing_code = code;
                    false
                } else {
                    self.status = Some(success.to_owned());
                    if method == Method::NovaPairPeer {
                        self.code = String::new();
                    }
                    true
                }
            },
        }
    }

    /// Takes a ticket over from the scan.
    pub fn use_address(&mut self, address: String)
        ensures
            *final(self) == (NovaPage { endpoint: address, ..*old(self) }),
    {
        self.endpoint = address;
    }

    /// The ticket to copy.
    pub fn copy_ticket(&mut self) -> (ticket: Option<String>)
        ensures
            match old(self).local {
                None => ticket is None && *final(self) == *old(self),
                Some(l) => ticket == Some(l.ticket) && says(
                    final(self).status,
                    "iroh ticket copied"@,
                ) && *final(self) == (NovaPage { status: final(self).status, ..*old(self) }),
            },
    {
        match &self.local {
            None => None,
            Some(l) => {
                let ticket: String = l.ticket.clone();
                self.status = Some("iroh ticket copied".to_owned());
                Some(ticket)
            },
        }
    }

    /// Tries the connection to a peer.
    pub fn test_peer(&mut self, state: &AppState, device_id: &str) -> (r: Option<NovaCall>)
        ensures
            makes(
                r,
                state.engine is Some,
                device_call(Method::NovaTestPeer, device_id@),
                "direct connection verified"@,
            ),
            *final(self) == (if state.engine is Some {
                calling(*old(self))
            } else {
                *old(self)
            }),
    {
        let request: Request = Request::new(Method::NovaTestPeer).with_text("deviceId", device_id);
        self.call(state, request, "direct connection verified")
    }

    /// Ends the trust in a peer.
    pub fn revoke(&mut self, state: &AppState, device_id: &str) -> (r: Option<NovaCall>)
        ensures
            makes(
                r,
                state.engine is Some,
                device_call(Method::NovaRevokePeer, device_id@),
                "device revoked"@,
            ),
            *final(self) == (if state.engine is Some {
                calling(*old(self))
            } else {
                *old(self)
            }),
    {
        let request: Request = Request::new(Method::NovaRevokePeer).with_text("deviceId", device_id);
        self.call(state, request, "device revoked")
    }

    /// Forgets a peer.
    pub fn forget(&mut self, state: &AppState, device_id: &str) -> (r: Option<NovaCall>)
        ensures
            makes(
                r,
                state.engine is Some,
                device_call(Method::NovaForgetPeer, device_id@),
                "device forgotten"@,
            ),
            *final(self) == (if state.engine is Some {
                calling(*old(self))
            } else {
                *old(self)
            }),
    {
        let request: Request = Request::new(Method::NovaForgetPeer).with_text("deviceId", device_id);
        self.call(state, request, "device forgotten")
    }

    /// Opens the dialog that configures a peer.
    pub fn open_edit(&mut self, peer: &PeerView)
        ensures
            *final(self) == (NovaPage {
                edit: Some(
                    EditPeer {
                        device_id: peer.device_id,
                        name: peer.name,
                        endpoint: peer.endpoint,
                        role: peer.role,
                    },
                ),
                ..*old(self)
            }),
    {
        self.edit = Some(
            EditPeer {
                device_id: peer.device_id.clone(),
                name: peer.name.clone(),
                endpoint: peer.endpoint.clone(),
                role: peer.role.clone(),
            },
        );
    }

    /// Closes the dialog and changes nothing.
    pub fn cancel_edit(&mut self)
        ensures
            *final(self) == (NovaPage { edit: None, ..*old(self) }),
    {
        self.edit = None;
    }

    /// Switches the role in the dialog between admin and peer.
    pub fn toggle_role(&mut self)
        ensures
            match old(self).edit {
                None => *final(self) == *old(self),
                Some(e) => {
                    &&& final(self).edit matches Some(now) && now.role@ == (if e.role@ == "admin"@ {
                        "peer"@
                    } else {
                        "admin"@
                    }) && now == (EditPeer { role: now.role, ..e })
                    &&& *final(self) == (NovaPage { edit: final(self).edit, ..*old(self) })
                },
            },
    {
        match &mut self.edit {
            None => {},
            Some(e) => {
                let admin: bool = same(e.role.as_str(), "admin");
                e.role = if admin {
                    "peer".to_owned()
                } else {
                    "admin".to_owned()
                };
            },
        }
    }

    /// Saves what the dialog holds, and closes it.
    pub fn save_edit(&mut self, state: &AppState) -> (r: Option<NovaCall>)
        ensures
            match old(self).edit {
                None => r is None && *final(self) == *old(self),
                Some(e) => {
                    let closed = NovaPage { edit: None, ..*old(self) };
                    &&& makes(
                        r,
                        state.engine is Some,
                        Call {
                            method: Method::NovaUpdatePeer,
                            params: Map::empty().insert(
                                "deviceId"@,
                                ValueView::Text(e.device_id@),
                            ).insert("name"@, ValueView::Text(trimmed(e.name@))).insert(
                                "endpoint"@,
                                ValueView::Text(trimmed(e.endpoint@)),
                            ).insert("role"@, ValueView::Text(e.role@)),
                        },
                        "device updated"@,
                    )
                    &&& *final(self) == (if state.engine is Some {
                        calling(closed)
                    } else {
                        closed
                    })
                },
            },
    {
        let edit: Option<EditPeer> = self.edit.take();
        match edit {
            None => None,
            Some(e) => {
                let name: String = trim(e.name.as_str());
                let endpoint: String = trim(e.endpoint.as_str());
                let request: Request = Request::new(Method::NovaUpdatePeer).with_text(
                    "deviceId",
                    e.device_id.as_str(),
                ).with_text("name", name.as_str()).with_text(
                    "endpoint",
                    endpoint.as_str(),
                ).with_text("role", e.role.as_str());
                self.call(state, request, "device updated")
            },
        }
    }
}

/// Peers that are known are no gain: only a new peer uses up a code.
pub proof fn known_peers_are_no_gain(peers: Seq<PeerView>)
    ensures
        !gained(peers, peers),
{
    assert forall|i: int| 0 <= i < peers.len() implies knows(
        peers,
        (#[trigger] peers[i]).device_id@,
    ) by {
        let id = peers[i].device_id@;
        assert((|p: PeerView| p.device_id@ == id)(peers[i]));
    }
}

/// Whether a ticket can be cut in the middle: it is short, or characters begin
/// where it is cut.
pub open spec fn can_shorten(ticket: Seq<char>) -> bool {
    let bytes = encode_utf8(ticket);
    bytes.len() <= 32 || (is_char_boundary(bytes, 20) && is_char_boundary(bytes, bytes.len() - 8))
}

/// The beginning and the end of a long ticket.
pub open spec fn shortened(ticket: Seq<char>) -> Seq<char> {
    let bytes = encode_utf8(ticket);
    if bytes.len() <= 32 {
        ticket
    } else {
        decode_utf8(bytes.subrange(0, 20)) + "\u{2026}"@ + decode_utf8(
            bytes.subrange(bytes.len() - 8, bytes.len() as int),
        )
    }
}

/// The beginning and the end of a long ticket.
pub fn short_ticket(ticket: &str) -> (s: String)
    requires
        can_shorten(ticket@),
    ensures
        s@ == shortened(ticket@),
{
    broadcast use vstd::utf8::encode_utf8_decode_utf8;

    let n: usize = ticket.as_bytes().len();
    if n <= 32 {
        return ticket.to_owned();
    }
    let head: &str = ticket.split_at(20).0;
    let tail: &str = ticket.split_at(n - 8).1;
    proof {
        let bytes = encode_utf8(ticket@);
        assert(encode_utf8(head@) =~= bytes.subrange(0, 20));
        assert(encode_utf8(tail@) =~= bytes.subrange(n - 8, n as int));
        assert(decode_utf8(encode_utf8(head@)) == head@);
        assert(decode_utf8(encode_utf8(tail@)) == tail@);
    }
    let mut s: String = head.to_owned();
    s.append("\u{2026}");
    s.append(tail);
    s
}

/// A ticket of ASCII characters can always be shortened.
pub proof fn ascii_tickets_shorten(ticket: Seq<char>)
    requires
        vstd::utf8::is_ascii_chars(ticket),
    ensures
        can_shorten(ticket),
{
    let bytes = encode_utf8(ticket);
    vstd::utf8::is_ascii_chars_encode_utf8(ticket);
    vstd::utf8::encode_utf8_valid_utf8(ticket);
    if bytes.len() > 32 {
        vstd::utf8::is_char_boundary_iff_not_is_continuation_byte(bytes, 20);
        vstd::utf8::is_char_boundary_iff_not_is_continuation_byte(bytes, bytes.len() - 8);
        assert(ticket[20] as u8 == bytes[20]);
        assert(ticket[bytes.len() - 8] as u8 == bytes[bytes.len() - 8]);
        assert forall|b: u8| b < 0x80 implies !#[trigger] vstd::utf8::is_continuation_byte(b) by {
            assert(b < 0x80 ==> !(0x80u8 <= b && b <= 0xbf));
        }
    }
}

/// The line about this engine.
pub open spec fn local_text(local: Option<LocalDevice>) -> Seq<char> {
    match local {
        Some(l) => l.name@ + " \u{b7} "@ + l.device_id@ + " \u{b7} port "@ + decimal(l.port as nat),
        None => "loading local identity\u{2026}"@,
    }
}

pub fn local_line(local: &Option<LocalDevice>) -> (s: String)
    ensures
        s@ == local_text(*local),
{
    match local {
        None => "loading local identity\u{2026}".to_owned(),
        Some(l) => {
            let mut s: String = l.name.clone();
            s.append(" \u{b7} ");
            s.append(l.device_id.as_str());
            s.append(" \u{b7} port ");
            s.append(decimal_text(l.port as u64).as_str());
            s
        },
    }
}

/// The line about a peer.
pub open spec fn peer_text(p: PeerView) -> Seq<char> {
    p.platform@ + " \u{b7} "@ + p.role@ + " \u{b7} "@ + shortened(p.endpoint@) + (if p.revoked {
        " \u{b7} revoked"@
    } else {
        ""@
    })
}

pub fn peer_line(p: &PeerView) -> (s: String)
    requires
        can_shorten(p.endpoint@),
    ensures
        s@ == peer_text(*p),
{
    let mut s: String = p.platform.clone();
    s.append(" \u{b7} ");
    s.append(p.role.as_str());
    s.append(" \u{b7} ");
    s.append(short_ticket(p.endpoint.as_str()).as_str());
    if p.revoked {
        s.append(" \u{b7} revoked");
    } else {
        s.append("");
    }
    s
}

/// A row of a scan: what it is called, where it is, the ticket to use, and
/// whether it is trusted.
#[derive(Debug)]
pub struct FoundRow {
    pub title: String,
    pub detail: String,
    pub ticket: Option<String>,
    pub trusted: bool,
}

/// Whether a row shows what a scan found.
pub open spec fn row_shows(r: FoundRow, peer: FoundPeer) -> bool {
    match peer {
        FoundPeer::Nova { addr, device_id, name, ticket, trusted } => {
            &&& r.title@ == name@
            &&& r.detail@ == device_id@ + " \u{b7} "@ + addr@
            &&& opt(r.ticket) == Some(ticket@)
            &&& r.trusted == trusted
        },
        FoundPeer::Open { addr } => {
            &&& r.title@ == "Unknown service"@
            &&& r.detail@ == addr@
            &&& r.ticket is None
            &&& !r.trusted
        },
    }
}

/// The row of something that a scan found.
pub fn found_row(peer: &FoundPeer) -> (r: FoundRow)
    ensures
        row_shows(r, *peer),
{
    match peer {
        FoundPeer::Nova { addr, device_id, name, ticket, trusted } => {
            let mut detail: String = device_id.clone();
            detail.append(" \u{b7} ");
            detail.append(addr.as_str());
            FoundRow {
                title: name.clone(),
                detail,
                ticket: Some(ticket.clone()),
                trusted: *trusted,
            }
        },
        FoundPeer::Open { addr } => FoundRow {
            title: "Unknown service".to_owned(),
            detail: addr.clone(),
            ticket: None,
            trusted: false,
        },
    }
}

/// A row of the peers.
#[derive(Debug)]
pub struct PeerRow {
    pub device_id: String,
    pub name: String,
    pub detail: String,
}

/// The page in one frame.
#[derive(Debug)]
pub struct NovaFrame {
    pub local_line: String,
    pub badge: String,
    pub pair_label: &'static str,
    pub scan_label: &'static str,
    pub found: Vec<FoundRow>,
    /// Without rows no device is paired.
    pub peers: Vec<PeerRow>,
}

impl NovaPage {
    /// The page in one frame.
    pub fn frame(&self) -> (f: NovaFrame)
        requires
            forall|i: int|
                0 <= i < self.peers@.len() ==> can_shorten((#[trigger] self.peers@[i]).endpoint@),
        ensures
            f.local_line@ == local_text(self.local),
            f.badge@ == (match self.pairing_code {
                Some(code) => code@,
                None => "not pairing"@,
            }),
            f.pair_label@ == (if self.busy {
                "Connecting\u{2026}"@
            } else {
                "Pair device"@
            }),
            f.scan_label@ == (if self.busy {
                "Scanning\u{2026}"@
            } else {
                "Scan"@
            }),
            f.found@.len() == self.found@.len(),
            forall|i: int|
                0 <= i < f.found@.len() ==> row_shows(#[trigger] f.found@[i], self.found@[i]),
            f.peers@.len() == self.peers@.len(),
            forall|i: int|
                0 <= i < f.peers@.len() ==> (#[trigger] f.peers@[i]).device_id
                    == self.peers@[i].device_id && f.peers@[i].name == self.peers@[i].name
                    && f.peers@[i].detail@ == peer_text(self.peers@[i]),
    {
        let mut found: Vec<FoundRow> = Vec::new();
        let mut i: usize = 0;
        while i < self.found.len()
            invariant
                i <= self.found@.len(),
                found@.len() == i,
                forall|j: int| 0 <= j < i ==> row_shows(#[trigger] found@[j], self.found@[j]),
            decreases self.found@.len() - i,
        {
            found.push(found_row(&self.found[i]));
            i += 1;
        }
        let mut peers: Vec<PeerRow> = Vec::new();
        let mut k: usize = 0;
        while k < self.peers.len()
            invariant
                k <= self.peers@.len(),
                forall|j: int|
                    0 <= j < self.peers@.len() ==> can_shorten(
                        (#[trigger] self.peers@[j]).endpoint@,
                    ),
                peers@.len() == k,
                forall|j: int|
                    0 <= j < k ==> (#[trigger] peers@[j]).device_id == self.peers@[j].device_id
                        && peers@[j].name == self.peers@[j].name && peers@[j].detail@ == peer_text(
                        self.peers@[j],
                    ),
            decreases self.peers@.len() - k,
        {
            let p: &PeerView = &self.peers[k];
            peers.push(
                PeerRow {
                    device_id: p.device_id.clone(),
                    name: p.name.clone(),
                    detail: peer_line(p),
                },
            );
            k += 1;
        }
        NovaFrame {
            local_line: local_line(&self.local),
            badge: match &self.pairing_code {
                Some(code) => code.clone(),
                None => "not pairing".to_owned(),
            },
            pair_label: if self.busy {
                "Connecting\u{2026}"
            } else {
                "Pair device"
            },
            scan_label: if self.busy {
                "Scanning\u{2026}"
            } else {
                "Scan"
            },
            found,
            peers,
        }
    }
}

}
