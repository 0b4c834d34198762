//! What the sidecar's `tailscale status --json` document says about the
//! local node and its peers, and how each peer is shown.
//!
//! The JSON text itself is decoded elsewhere into a [`RawStatus`]; this module
//! turns that document into the [`NetworkStatus`] the GUI displays.

use vstd::prelude::*;
use crate::text::{
    chars_le, chars_of, clone_opt_string, clone_string, clone_strings, lemma_seq_le_total,
    lemma_seq_le_trans, lowered, owned, seq_le, string_from_chars, to_lower, trim_end_char,
    trim_end_char_chars,
};

verus! {

/// How traffic to a peer currently flows.
#[derive(Debug, Clone, Copy, PartialEq, Eq, Structural)]
pub enum ConnKind {
    P2p,
    DerpRelay,
    PeerRelay,
    Idle,
    Offline,
    Unknown,
}

/// One peer as the GUI shows it.
#[derive(Debug, Clone)]
pub struct PeerView {
    pub id: String,
    pub hostname: String,
    pub ips: Vec<String>,
    pub online: bool,
    pub active: bool,
    pub conn: ConnKind,
    pub relay: Option<String>,
    pub cur_addr: Option<String>,
    pub latency_ms: Option<u32>,
    /// Cumulative bytes sent to this peer (`tailscale status` TxBytes).
    pub tx_bytes: u64,
    /// Cumulative bytes received from this peer (`tailscale status` RxBytes).
    pub rx_bytes: u64,
}

/// The local node and its peers.
#[derive(Debug, Clone)]
pub struct NetworkStatus {
    pub backend_state: String,
    /// Empty when the service is an older build that does not report it.
    pub self_id: String,
    pub self_ips: Vec<String>,
    pub self_hostname: String,
    pub peers: Vec<PeerView>,
}

/// The fields of one node entry of `tailscale status --json` that are read;
/// each is absent when the document leaves it out.
#[derive(Debug, Clone)]
pub struct RawPeer {
    pub id: Option<String>,
    pub host_name: Option<String>,
    pub dns_name: Option<String>,
    pub tailscale_ips: Option<Vec<String>>,
    pub cur_addr: Option<String>,
    pub relay: Option<String>,
    pub peer_relay: Option<String>,
    pub online: Option<bool>,
    pub active: Option<bool>,
    pub tx_bytes: Option<u64>,
    pub rx_bytes: Option<u64>,
}

/// A node entry with every field absent.
pub open spec fn empty_raw_peer() -> RawPeer {
    RawPeer {
        id: None,
        host_name: None,
        dns_name: None,
        tailscale_ips: None,
        cur_addr: None,
        relay: None,
        peer_relay: None,
        online: None,
        active: None,
        tx_bytes: None,
        rx_bytes: None,
    }
}

impl Default for RawPeer {
    fn default() -> (r: Self)
        ensures
            r == empty_raw_peer(),
    {
        RawPeer {
            id: None,
            host_name: None,
            dns_name: None,
            tailscale_ips: None,
            cur_addr: None,
            relay: None,
            peer_relay: None,
            online: None,
            active: None,
            tx_bytes: None,
            rx_bytes: None,
        }
    }
}

/// The whole `tailscale status --json` document, as far as it is read:
/// `BackendState`, `Self`, and the `Peer` object as (key, entry) pairs.
#[derive(Debug, Clone)]
pub struct RawStatus {
    pub backend_state: Option<String>,
    pub self_node: Option<RawPeer>,
    pub peers: Vec<(String, RawPeer)>,
}

// ---------------------------------------------------------------------------
// Specification
// ---------------------------------------------------------------------------

/// Present and not the empty string.
pub open spec fn opt_non_empty(o: Option<String>) -> bool {
    match o {
        Some(s) => s@.len() > 0,
        None => false,
    }
}

pub open spec fn opt_chars_or(o: Option<String>, dflt: Seq<char>) -> Seq<char> {
    match o {
        Some(s) => s@,
        None => dflt,
    }
}

/// The connection kind of a peer: offline unless reported online; then a
/// direct address wins over a peer relay, which wins over a DERP relay; with
/// none of them, an active peer is of unknown kind and an inactive one idle.
pub open spec fn conn_kind_of(p: RawPeer) -> ConnKind {
    if p.online != Some(true) {
        ConnKind::Offline
    } else if opt_non_empty(p.cur_addr) {
        ConnKind::P2p
    } else if opt_non_empty(p.peer_relay) {
        ConnKind::PeerRelay
    } else if opt_non_empty(p.relay) {
        ConnKind::DerpRelay
    } else if p.active == Some(true) {
        ConnKind::Unknown
    } else {
        ConnKind::Idle
    }
}

/// The name shown for a peer: its host name, else its DNS name without
/// trailing dots, else its key in the `Peer` object.
pub open spec fn shown_hostname(key: Seq<char>, p: RawPeer) -> Seq<char> {
    match p.host_name {
        Some(h) => h@,
        None => match p.dns_name {
            Some(d) => trim_end_char(d@, '.'),
            None => key,
        },
    }
}

pub open spec fn filtered(o: Option<String>) -> Option<String> {
    if opt_non_empty(o) {
        o
    } else {
        None
    }
}

/// `v` is how the peer entry `p` under key `key` is shown.
pub open spec fn is_view_of(v: PeerView, key: Seq<char>, p: RawPeer) -> bool {
    &&& v.id@ == opt_chars_or(p.id, key)
    &&& v.hostname@ == shown_hostname(key, p)
    &&& v.ips@ == (match p.tailscale_ips {
        Some(ips) => ips@,
        None => Seq::<String>::empty(),
    })
    &&& v.online == (p.online == Some(true))
    &&& v.active == (p.active == Some(true))
    &&& v.conn == conn_kind_of(p)
    &&& v.relay == filtered(p.relay)
    &&& v.cur_addr == filtered(p.cur_addr)
    &&& v.latency_ms is None
    &&& v.tx_bytes == (match p.tx_bytes {
        Some(n) => n,
        None => 0u64,
    })
    &&& v.rx_bytes == (match p.rx_bytes {
        Some(n) => n,
        None => 0u64,
    })
}

/// The key by which peers are ordered: the shown host name, lowercased.
pub open spec fn sort_key(v: PeerView) -> Seq<char> {
    lowered(v.hostname@)
}

/// `perm` maps each of `n` positions to a distinct one of `n` positions.
pub open spec fn is_permutation(perm: Seq<int>, n: int) -> bool {
    &&& perm.len() == n
    &&& forall|i: int| 0 <= i < n ==> 0 <= #[trigger] perm[i] < n
    &&& forall|i: int, j: int| 0 <= i < j < n ==> #[trigger] perm[i] != #[trigger] perm[j]
}

/// `peers` shows the entries of `raw`, each once, with `perm` telling which
/// entry each position shows.
pub open spec fn shows_entries(peers: Seq<PeerView>, raw: Seq<(String, RawPeer)>, perm: Seq<int>) -> bool {
    &&& peers.len() == raw.len()
    &&& is_permutation(perm, raw.len() as int)
    &&& forall|i: int|
        0 <= i < peers.len() ==> is_view_of(
            #[trigger] peers[i],
            raw[perm[i]].0@,
            raw[perm[i]].1,
        )
}

/// Ordered by [`sort_key`]; entries with equal keys keep the order of the
/// raw entries they show (`perm` maps each to its raw entry), that is, the
/// order in which the decoder listed them.
pub open spec fn sorted_stably(peers: Seq<PeerView>, perm: Seq<int>) -> bool {
    &&& forall|i: int, j: int|
        0 <= i < j < peers.len() ==> seq_le(
            sort_key(#[trigger] peers[i]),
            sort_key(#[trigger] peers[j]),
        )
    &&& forall|i: int, j: int|
        0 <= i < j < peers.len() && sort_key(#[trigger] peers[i]) == sort_key(#[trigger] peers[j])
            ==> perm[i] < perm[j]
}

/// The `Self` entry, or an entry with every field absent.
pub open spec fn self_entry(raw: RawStatus) -> RawPeer {
    match raw.self_node {
        Some(n) => n,
        None => empty_raw_peer(),
    }
}

/// `st` is the status that the document `raw` describes.
pub open spec fn is_status_of(st: NetworkStatus, raw: RawStatus) -> bool {
    let me = self_entry(raw);
    &&& st.backend_state@ == opt_chars_or(raw.backend_state, "Unknown"@)
    &&& st.self_id@ == opt_chars_or(me.id, Seq::empty())
    &&& st.self_ips@ == (match me.tailscale_ips {
        Some(ips) => ips@,
        None => Seq::<String>::empty(),
    })
    &&& st.self_hostname@ == (match me.host_name {
        Some(h) => h@,
        None => opt_chars_or(me.dns_name, "local"@),
    })
    &&& exists|perm: Seq<int>|
        shows_entries(st.peers@, raw.peers@, perm) && sorted_stably(st.peers@, perm)
}

// ---------------------------------------------------------------------------
// Implementation
// ---------------------------------------------------------------------------

/// A direct address wins: an online peer with a non-empty current address
/// talks peer to peer, whether or not it is active and whatever relays it
/// also reports.
pub proof fn lemma_direct_address_wins(p: RawPeer)
    requires
        p.online == Some(true),
        p.cur_addr matches Some(a) && a@.len() > 0,
    ensures
        conn_kind_of(p) == ConnKind::P2p,
{
}

/// How traffic flows, case by case: a peer not reported online is offline;
/// an online one without a direct address goes through its peer relay when
/// it has one, else through its DERP relay when it has one, and with neither
/// it is of unknown kind when active and idle otherwise.
pub proof fn lemma_conn_kind_cases(p: RawPeer)
    ensures
        p.online != Some(true) ==> conn_kind_of(p) == ConnKind::Offline,
        p.online == Some(true) && !(p.cur_addr matches Some(a) && a@.len() > 0) ==> {
            if p.peer_relay matches Some(r) && r@.len() > 0 {
                conn_kind_of(p) == ConnKind::PeerRelay
            } else if p.relay matches Some(r) && r@.len() > 0 {
                conn_kind_of(p) == ConnKind::DerpRelay
            } else if p.active == Some(true) {
                conn_kind_of(p) == ConnKind::Unknown
            } else {
                conn_kind_of(p) == ConnKind::Idle
            }
        },
{
}

/// Peers are listed by name, ignoring ASCII case: where every shown name is
/// ASCII, a name that is before another once capitals are made small is
/// listed first; and names with no capitals are listed in name order.
pub proof fn lemma_listed_by_name(peers: Seq<PeerView>, perm: Seq<int>, i: int, j: int)
    requires
        sorted_stably(peers, perm),
        0 <= i < j < peers.len(),
        forall|k: int| 0 <= k < peers.len() ==> crate::text::all_ascii(#[trigger] peers[k].hostname@),
    ensures
        seq_le(
            peers[i].hostname@.map_values(|c: char| crate::text::ascii_lower_char(c)),
            peers[j].hostname@.map_values(|c: char| crate::text::ascii_lower_char(c)),
        ),
        (forall|c: int| 0 <= c < peers[i].hostname@.len() ==> !('A' <= #[trigger] peers[i].hostname@[c] <= 'Z'))
            && (forall|c: int| 0 <= c < peers[j].hostname@.len() ==> !('A' <= #[trigger] peers[j].hostname@[c] <= 'Z'))
            ==> seq_le(peers[i].hostname@, peers[j].hostname@),
{
    let hi = peers[i].hostname@;
    let hj = peers[j].hostname@;
    assert(crate::text::all_ascii(hi));
    assert(crate::text::all_ascii(hj));
    assert(seq_le(sort_key(peers[i]), sort_key(peers[j])));
    if (forall|c: int| 0 <= c < hi.len() ==> !('A' <= #[trigger] hi[c] <= 'Z')) && (forall|c: int|
        0 <= c < hj.len() ==> !('A' <= #[trigger] hj[c] <= 'Z')) {
        assert(hi.map_values(|c: char| crate::text::ascii_lower_char(c)) =~= hi);
        assert(hj.map_values(|c: char| crate::text::ascii_lower_char(c)) =~= hj);
    }
}

/// How traffic to `peer` flows (see [`conn_kind_of`]).
pub fn classify(peer: &RawPeer) -> (k: ConnKind)
    ensures
        k == conn_kind_of(*peer),
{
    let online = match peer.online {
        Some(b) => b,
        None => false,
    };
    if !online {
        return ConnKind::Offline;
    }
    if non_empty(&peer.cur_addr) {
        return ConnKind::P2p;
    }
    if non_empty(&peer.peer_relay) {
        return ConnKind::PeerRelay;
    }
    if non_empty(&peer.relay) {
        return ConnKind::DerpRelay;
    }
    let active = match peer.active {
        Some(b) => b,
        None => false,
    };
    if active {
        ConnKind::Unknown
    } else {
        ConnKind::Idle
    }
}

fn non_empty(v: &Option<String>) -> (b: bool)
    ensures
        b == opt_non_empty(*v),
{
    match v {
        Some(s) => !s.as_str().is_empty(),
        None => false,
    }
}

fn filter_non_empty(v: &Option<String>) -> (r: Option<String>)
    ensures
        r == filtered(*v),
{
    if non_empty(v) {
        clone_opt_string(v)
    } else {
        None
    }
}

/// How the entry `peer` under key `key` of the `Peer` object is shown.
pub fn peer_to_view(key: &str, peer: &RawPeer) -> (v: PeerView)
    ensures
        is_view_of(v, key@, *peer),
{
    let hostname = match &peer.host_name {
        Some(h) => clone_string(h),
        None => match &peer.dns_name {
            Some(d) => {
                let dv = chars_of(d.as_str());
                let t = trim_end_char_chars(&dv, '.');
                string_from_chars(&t)
            },
            None => owned(key),
        },
    };
    let id = match &peer.id {
        Some(s) => clone_string(s),
        None => owned(key),
    };
    let ips = match &peer.tailscale_ips {
        Some(v) => clone_strings(v),
        None => Vec::new(),
    };
    PeerView {
        id,
        hostname,
        ips,
        online: match peer.online {
            Some(b) => b,
            None => false,
        },
        active: match peer.active {
            Some(b) => b,
            None => false,
        },
        conn: classify(peer),
        relay: filter_non_empty(&peer.relay),
        cur_addr: filter_non_empty(&peer.cur_addr),
        latency_ms: None,
        tx_bytes: match peer.tx_bytes {
            Some(n) => n,
            None => 0,
        },
        rx_bytes: match peer.rx_bytes {
            Some(n) => n,
            None => 0,
        },
    }
}

/// The status that the `tailscale status --json` document `raw` describes:
/// the backend state (`"Unknown"` when absent), the local node's id, addresses
/// and name (`"local"` when it has neither host nor DNS name), and every peer
/// shown once, ordered by lowercased name.
pub fn status_from_raw(raw: &RawStatus) -> (st: NetworkStatus)
    ensures
        is_status_of(st, *raw),
{
    let n = raw.peers.len();
    let mut peers: Vec<PeerView> = Vec::new();
    let mut keys: Vec<Vec<char>> = Vec::new();
    let ghost mut perm: Seq<int> = Seq::empty();
    for i in 0..n
        invariant
            n == raw.peers.len(),
            peers.len() == i,
            keys.len() == i,
            perm.len() == i,
            forall|a: int| 0 <= a < i ==> 0 <= #[trigger] perm[a] < i,
            forall|a: int, b: int| 0 <= a < b < i ==> #[trigger] perm[a] != #[trigger] perm[b],
            forall|a: int|
                0 <= a < i ==> is_view_of(
                    #[trigger] peers@[a],
                    raw.peers@[perm[a]].0@,
                    raw.peers@[perm[a]].1,
                ),
            forall|a: int| 0 <= a < i ==> (#[trigger] keys@[a])@ == sort_key(peers@[a]),
            forall|a: int, b: int|
                0 <= a < b < i ==> seq_le((#[trigger] keys@[a])@, (#[trigger] keys@[b])@),
            forall|a: int, b: int|
                0 <= a < b < i && (#[trigger] keys@[a])@ == (#[trigger] keys@[b])@ ==> perm[a]
                    < perm[b],
    {
        let entry = &raw.peers[i];
        let v = peer_to_view(entry.0.as_str(), &entry.1);
        let lower = to_lower(v.hostname.as_str());
        let k = chars_of(lower.as_str());
        let mut pos: usize = 0;
        while pos < keys.len() && chars_le(&keys[pos], &k)
            invariant
                pos <= keys.len(),
                forall|j: int| 0 <= j < pos ==> seq_le((#[trigger] keys@[j])@, k@),
            decreases keys.len() - pos,
        {
            pos += 1;
        }
        let ghost old_keys = keys@;
        let ghost old_perm = perm;
        proof {
            if pos < keys.len() {
                assert(!seq_le(keys@[pos as int]@, k@));
                lemma_seq_le_total(keys@[pos as int]@, k@);
                assert forall|j: int| pos <= j < old_keys.len() implies seq_le(
                    k@,
                    (#[trigger] old_keys[j])@,
                ) && old_keys[j]@ != k@ by {
                    if j > pos {
                        lemma_seq_le_trans(k@, old_keys[pos as int]@, old_keys[j]@);
                    }
                }
            }
        }
        peers.insert(pos, v);
        keys.insert(pos, k);
        proof {
            perm = perm.insert(pos as int, i as int);
            assert forall|a: int, b: int| 0 <= a < b < i + 1 implies seq_le(
                (#[trigger] keys@[a])@,
                (#[trigger] keys@[b])@,
            ) by {
                if b == pos {
                    assert(keys@[a] == old_keys[a]);
                } else if a == pos {
                    assert(keys@[b] == old_keys[b - 1]);
                } else {
                    let a0 = if a < pos { a } else { a - 1 };
                    let b0 = if b < pos { b } else { b - 1 };
                    assert(keys@[a] == old_keys[a0]);
                    assert(keys@[b] == old_keys[b0]);
                }
            }
            assert forall|a: int, b: int|
                0 <= a < b < i + 1 && (#[trigger] keys@[a])@ == (#[trigger] keys@[b])@ implies perm[a]
                < perm[b] by {
                if b == pos {
                    assert(perm[a] == old_perm[a]);
                } else if a == pos {
                    assert(keys@[b] == old_keys[b - 1]);
                } else {
                    let a0 = if a < pos { a } else { a - 1 };
                    let b0 = if b < pos { b } else { b - 1 };
                    assert(keys@[a] == old_keys[a0]);
                    assert(keys@[b] == old_keys[b0]);
                    assert(perm[a] == old_perm[a0]);
                    assert(perm[b] == old_perm[b0]);
                }
            }
            assert forall|a: int, b: int| 0 <= a < b < i + 1 implies #[trigger] perm[a]
                != #[trigger] perm[b] by {
                if a != pos && b != pos {
                    let a0 = if a < pos { a } else { a - 1 };
                    let b0 = if b < pos { b } else { b - 1 };
                    assert(perm[a] == old_perm[a0]);
                    assert(perm[b] == old_perm[b0]);
                }
            }
            assert forall|a: int| 0 <= a < i + 1 implies is_view_of(
                #[trigger] peers@[a],
                raw.peers@[perm[a]].0@,
                raw.peers@[perm[a]].1,
            ) && (#[trigger] keys@[a])@ == sort_key(peers@[a]) && 0 <= perm[a] < i + 1 by {
                if a != pos {
                    let a0 = if a < pos { a } else { a - 1 };
                    assert(perm[a] == old_perm[a0]);
                }
            }
        }
    }
    proof {
        assert forall|a: int, b: int| 0 <= a < b < n implies seq_le(
            sort_key(#[trigger] peers@[a]),
            sort_key(#[trigger] peers@[b]),
        ) by {
            assert(seq_le(keys@[a]@, keys@[b]@));
        }
        assert forall|a: int, b: int|
            0 <= a < b < n && sort_key(#[trigger] peers@[a]) == sort_key(#[trigger] peers@[b])
            implies perm[a] < perm[b] by {
            assert(keys@[a]@ == keys@[b]@);
        }
    }
    let (self_id, self_ips, self_hostname) = match &raw.self_node {
        Some(me) => (
            match &me.id {
                Some(s) => clone_string(s),
                None => String::new(),
            },
            match &me.tailscale_ips {
                Some(v) => clone_strings(v),
                None => Vec::new(),
            },
            match &me.host_name {
                Some(h) => clone_string(h),
                None => match &me.dns_name {
                    Some(d) => clone_string(d),
                    None => owned("local"),
                },
            },
        ),
        None => (String::new(), Vec::new(), owned("local")),
    };
    let st = NetworkStatus {
        backend_state: match &raw.backend_state {
            Some(s) => clone_string(s),
            None => owned("Unknown"),
        },
        self_id,
        self_ips,
        self_hostname,
        peers,
    };
    assert(shows_entries(st.peers@, raw.peers@, perm) && sorted_stably(st.peers@, perm));
    st
}

} // verus!
