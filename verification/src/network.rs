//! Connection vocabulary and the bookkeeping behind peer discovery: which
//! peers mDNS has resolved, where each one can be reached, and how a
//! user-supplied connect target is interpreted.
use vstd::prelude::*;
use vstd::string::*;
use crate::fingerprint::push_char;
use crate::protocol::Message;

verus! {

/// TCP port every FlowControl server listens on.
pub const PORT: u16 = 7878;

#[derive(Debug, Clone, Copy, PartialEq, Eq, Structural)]
pub enum ConnectionState {
    Disconnected,
    Browsing,
    Advertising,
    Connecting,
    Connected,
}

/// A discovered peer: its mDNS full service name and its display name.
#[derive(Debug, Clone)]
pub struct Peer {
    pub id: String,
    pub name: String,
}

/// Events the network layer hands to the coordinator.
#[derive(Debug)]
pub enum NetworkEvent<F> {
    MessageReceived(Message<F>),
    StateChanged(ConnectionState),
    PeersUpdated(Vec<Peer>),
}

/// Failures of the network layer. `Io` carries the text of the underlying
/// I/O error.
#[derive(Debug)]
pub enum NetworkError {
    ConnectionFailed(String),
    SendFailed(String),
    Io(String),
}

/// The human-readable form of each error.
pub open spec fn spec_network_error_text(e: NetworkError) -> Seq<char> {
    match e {
        NetworkError::ConnectionFailed(s) => "connection failed: "@ + s@,
        NetworkError::SendFailed(s) => "send failed: "@ + s@,
        NetworkError::Io(s) => "io error: "@ + s@,
    }
}

impl NetworkError {
    /// The error's message, as shown to the user.
    pub fn message(&self) -> (text: String)
        ensures
            text@ == spec_network_error_text(*self),
    {
        match self {
            NetworkError::ConnectionFailed(s) => String::from_str("connection failed: ").concat(s.as_str()),
            NetworkError::SendFailed(s) => String::from_str("send failed: ").concat(s.as_str()),
            NetworkError::Io(s) => String::from_str("io error: ").concat(s.as_str()),
        }
    }
}

/// An IPv4 socket address.
#[derive(Debug, Clone, Copy, PartialEq, Eq)]
pub struct PeerAddr {
    pub ip: [u8; 4],
    pub port: u16,
}

/// One address a resolved mDNS service advertises. Only IPv4 addresses are
/// used for connecting.
pub enum HostAddress {
    V4([u8; 4]),
    V6,
}

/// The first IPv4 address among `addresses`, if any.
pub open spec fn spec_first_v4(addresses: Seq<HostAddress>) -> Option<[u8; 4]>
    decreases addresses.len(),
{
    if addresses.len() == 0 {
        None
    } else {
        match addresses[0] {
            HostAddress::V4(ip) => Some(ip),
            HostAddress::V6 => spec_first_v4(addresses.drop_first()),
        }
    }
}

/// `s` without its trailing run of `c` (`str::trim_end_matches` with a char).
pub open spec fn spec_trim_end(s: Seq<char>, c: char) -> Seq<char>
    decreases s.len(),
{
    if s.len() > 0 && s.last() == c {
        spec_trim_end(s.drop_last(), c)
    } else {
        s
    }
}

/// Trimming removes exactly the trailing run of `c`: what remains is a
/// prefix of `s` that does not end in `c`, and everything cut off is `c`.
pub proof fn lemma_trim_end_cuts_trailing_run(s: Seq<char>, c: char)
    ensures
        spec_trim_end(s, c).len() <= s.len(),
        spec_trim_end(s, c) == s.take(spec_trim_end(s, c).len() as int),
        forall|k: int| spec_trim_end(s, c).len() <= k < s.len() ==> #[trigger] s[k] == c,
        spec_trim_end(s, c).len() == 0 || spec_trim_end(s, c).last() != c,
    decreases s.len(),
{
    if s.len() > 0 && s.last() == c {
        let init = s.drop_last();
        lemma_trim_end_cuts_trailing_run(init, c);
        let r = spec_trim_end(init, c);
        assert(init.take(r.len() as int) =~= s.take(r.len() as int));
        assert forall|k: int| r.len() <= k < s.len() implies #[trigger] s[k] == c by {
            if k < init.len() {
                assert(init[k] == s[k]);
            }
        }
    } else {
        assert(s.take(s.len() as int) =~= s);
    }
}

/// The address used for a resolved service is its first IPv4 address:
/// there is one exactly when some address is IPv4, and every address before
/// it is IPv6.
pub proof fn lemma_first_v4_is_first(addresses: Seq<HostAddress>)
    ensures
        spec_first_v4(addresses) is None <==> (forall|j: int| 0 <= j < addresses.len() ==> (#[trigger] addresses[j]) is V6),
        forall|i: int|
            0 <= i < addresses.len() && (#[trigger] addresses[i]) is V4
                && (forall|j: int| 0 <= j < i ==> addresses[j] is V6)
                ==> spec_first_v4(addresses) == Some(addresses[i]->V4_0),
    decreases addresses.len(),
{
    if addresses.len() > 0 {
        let rest = addresses.drop_first();
        lemma_first_v4_is_first(rest);
        assert(forall|j: int| 0 <= j < rest.len() ==> #[trigger] rest[j] == addresses[j + 1]);
        match addresses[0] {
            HostAddress::V4(ip) => {
                assert(spec_first_v4(addresses) == Some(ip));
            },
            HostAddress::V6 => {
                assert(spec_first_v4(addresses) == spec_first_v4(rest));
                if spec_first_v4(rest) is None {
                    assert forall|j: int| 0 <= j < addresses.len() implies (#[trigger] addresses[j]) is V6 by {
                        if j > 0 {
                            assert(rest[j - 1] == addresses[j]);
                        }
                    }
                } else {
                    let j0 = choose|j: int| 0 <= j < rest.len() && !((#[trigger] rest[j]) is V6);
                    assert(addresses[j0 + 1] == rest[j0]);
                }
                assert forall|i: int|
                    0 <= i < addresses.len() && (#[trigger] addresses[i]) is V4
                        && (forall|j: int| 0 <= j < i ==> addresses[j] is V6)
                        implies spec_first_v4(addresses) == Some(addresses[i]->V4_0) by {
                    assert(i > 0);
                    assert(rest[i - 1] == addresses[i]);
                    assert forall|j: int| 0 <= j < i - 1 implies rest[j] is V6 by {
                        assert(rest[j] == addresses[j + 1]);
                    }
                }
            },
        }
    }
}

/// The first `n` characters of `s`.
fn prefix_string(s: &str, n: usize) -> (out: String)
    requires
        n <= s@.len(),
    ensures
        out@ == s@.take(n as int),
{
    let mut out = String::new();
    let mut i: usize = 0;
    while i < n
        invariant
            i <= n <= s@.len(),
            out@ == s@.take(i as int),
        decreases n - i,
    {
        push_char(&mut out, s.get_char(i));
        i = i + 1;
        assert(s@.take(i as int) =~= s@.take(i - 1).push(s@[i - 1]));
    }
    out
}

/// `s` with every trailing `'.'` removed, as mDNS host names end in a dot.
pub fn trim_trailing_dots(s: &str) -> (out: String)
    ensures
        out@ == spec_trim_end(s@, '.'),
{
    let len = s.unicode_len();
    let mut j: usize = len;
    proof {
        assert(s@.take(len as int) =~= s@);
    }
    while j > 0 && s.get_char(j - 1) == '.'
        invariant
            j <= len == s@.len(),
            spec_trim_end(s@.take(j as int), '.') == spec_trim_end(s@, '.'),
        decreases j,
    {
        assert(s@.take(j as int).drop_last() =~= s@.take(j - 1));
        j = j - 1;
    }
    proof {
        assert(spec_trim_end(s@.take(j as int), '.') == s@.take(j as int));
    }
    prefix_string(s, j)
}

/// What mDNS tells us about one service instance.
pub enum DiscoveryEvent {
    /// A service was resolved: full name, host name, advertised addresses
    /// (in the order reported) and port.
    Resolved { fullname: String, hostname: String, addresses: Vec<HostAddress>, port: u16 },
    /// The service with this full name went away.
    Removed { fullname: String },
    /// Anything else (search started or stopped, service found but not yet resolved).
    Other,
}

/// Discovered peers in discovery order, each with the address it was last
/// resolved at. A peer resolved twice is listed twice; its address is the
/// latest one.
pub struct PeerRegistry {
    pub entries: Vec<(Peer, PeerAddr)>,
}

/// The peer list: the registry's peers in discovery order.
pub open spec fn spec_peer_list(entries: Seq<(Peer, PeerAddr)>) -> Seq<Peer>
    decreases entries.len(),
{
    if entries.len() == 0 {
        seq![]
    } else {
        spec_peer_list(entries.drop_last()).push(entries.last().0)
    }
}

/// The address of the latest entry for `id`.
pub open spec fn spec_addr_of(entries: Seq<(Peer, PeerAddr)>, id: Seq<char>) -> Option<PeerAddr>
    decreases entries.len(),
{
    if entries.len() == 0 {
        None
    } else if entries.last().0.id@ == id {
        Some(entries.last().1)
    } else {
        spec_addr_of(entries.drop_last(), id)
    }
}

/// The entries whose peer id differs from `id`, in order.
pub open spec fn spec_without(entries: Seq<(Peer, PeerAddr)>, id: Seq<char>) -> Seq<(Peer, PeerAddr)>
    decreases entries.len(),
{
    if entries.len() == 0 {
        seq![]
    } else if entries.last().0.id@ == id {
        spec_without(entries.drop_last(), id)
    } else {
        spec_without(entries.drop_last(), id).push(entries.last())
    }
}

fn copy_peer(p: &Peer) -> (q: Peer)
    ensures
        q == *p,
{
    Peer { id: p.id.clone(), name: p.name.clone() }
}

impl PeerRegistry {
    pub fn new() -> (r: Self)
        ensures
            r.entries@ == Seq::<(Peer, PeerAddr)>::empty(),
    {
        PeerRegistry { entries: Vec::new() }
    }

    /// A copy of the peer list.
    pub fn peers(&self) -> (list: Vec<Peer>)
        ensures
            list@ == spec_peer_list(self.entries@),
    {
        let mut list: Vec<Peer> = Vec::new();
        let mut i: usize = 0;
        while i < self.entries.len()
            invariant
                i <= self.entries@.len(),
                list@ == spec_peer_list(self.entries@.take(i as int)),
            decreases self.entries@.len() - i,
        {
            list.push(copy_peer(&self.entries[i].0));
            i = i + 1;
            assert(self.entries@.take(i as int).drop_last() =~= self.entries@.take(i - 1));
        }
        assert(self.entries@.take(i as int) =~= self.entries@);
        list
    }

    /// Where the peer with this id was last resolved, if it is known.
    pub fn addr_of(&self, id: &String) -> (addr: Option<PeerAddr>)
        ensures
            addr == spec_addr_of(self.entries@, id@),
    {
        let mut i: usize = self.entries.len();
        proof {
            assert(self.entries@.take(i as int) =~= self.entries@);
        }
        while i > 0
            invariant
                i <= self.entries@.len(),
                spec_addr_of(self.entries@.take(i as int), id@) == spec_addr_of(self.entries@, id@),
            decreases i,
        {
            assert(self.entries@.take(i as int).drop_last() =~= self.entries@.take(i - 1));
            if self.entries[i - 1].0.id == *id {
                return Some(self.entries[i - 1].1);
            }
            i = i - 1;
        }
        None
    }

    /// Forgets every peer whose id is `id`.
    pub fn remove(&mut self, id: &String)
        ensures
            final(self).entries@ == spec_without(old(self).entries@, id@),
    {
        let mut old_entries: Vec<(Peer, PeerAddr)> = Vec::new();
        std::mem::swap(&mut old_entries, &mut self.entries);
        let ghost orig = old_entries@;
        let mut kept: Vec<(Peer, PeerAddr)> = Vec::new();
        let mut i: usize = 0;
        while i < old_entries.len()
            invariant
                orig == old_entries@,
                i <= orig.len(),
                kept@ == spec_without(orig.take(i as int), id@),
            decreases orig.len() - i,
        {
            let entry = &old_entries[i];
            assert(orig.take(i + 1).drop_last() =~= orig.take(i as int));
            if entry.0.id != *id {
                kept.push((copy_peer(&entry.0), entry.1));
            }
            i = i + 1;
        }
        assert(orig.take(i as int) =~= orig);
        self.entries = kept;
    }

    /// Forgets every peer.
    pub fn clear(&mut self)
        ensures
            final(self).entries@ == Seq::<(Peer, PeerAddr)>::empty(),
    {
        self.entries = Vec::new();
    }

    /// Applies one mDNS event. A resolved service with an IPv4 address is
    /// appended (named after its host, trailing dots removed) and the new
    /// peer list is returned; a resolved service without one is skipped.
    /// A removed service is forgotten and the new peer list is returned.
    /// Other events change nothing.
    pub fn apply(&mut self, event: DiscoveryEvent) -> (updated: Option<Vec<Peer>>)
        ensures
            match event {
                DiscoveryEvent::Resolved { fullname, hostname, addresses, port } => match spec_first_v4(addresses@) {
                    Some(ip) => final(self).entries@ == old(self).entries@.push((
                        Peer { id: fullname, name: final(self).entries@.last().0.name },
                        PeerAddr { ip, port },
                    )) && final(self).entries@.last().0.name@ == spec_trim_end(hostname@, '.')
                        && updated is Some,
                    None => final(self).entries@ == old(self).entries@ && updated is None,
                },
                DiscoveryEvent::Removed { fullname } => final(self).entries@ == spec_without(old(self).entries@, fullname@)
                    && updated is Some,
                DiscoveryEvent::Other => final(self).entries@ == old(self).entries@ && updated is None,
            },
            updated matches Some(list) ==> list@ == spec_peer_list(final(self).entries@),
    {
        match event {
            DiscoveryEvent::Resolved { fullname, hostname, addresses, port } => {
                let mut i: usize = 0;
                let mut found: Option<[u8; 4]> = None;
                proof {
                    assert(addresses@.skip(0) =~= addresses@);
                }
                while i < addresses.len() && found.is_none()
                    invariant
                        i <= addresses@.len(),
                        spec_first_v4(addresses@) == (match found {
                            Some(ip) => Some(ip),
                            None => spec_first_v4(addresses@.skip(i as int)),
                        }),
                    decreases addresses@.len() - i,
                {
                    assert(addresses@.skip(i as int).drop_first() =~= addresses@.skip(i + 1));
                    match &addresses[i] {
                        HostAddress::V4(ip) => {
                            found = Some(*ip);
                        },
                        HostAddress::V6 => {},
                    }
                    i = i + 1;
                }
                match found {
                    Some(ip) => {
                        let name = trim_trailing_dots(hostname.as_str());
                        self.entries.push((Peer { id: fullname, name }, PeerAddr { ip, port }));
                        Some(self.peers())
                    },
                    None => {
                        proof {
                            assert(addresses@.skip(addresses@.len() as int) =~= Seq::<HostAddress>::empty());
                        }
                        None
                    },
                }
            },
            DiscoveryEvent::Removed { fullname } => {
                self.remove(&fullname);
                Some(self.peers())
            },
            DiscoveryEvent::Other => None,
        }
    }
}

/// After resolving, a peer is reachable at the address it was just resolved at.
pub proof fn lemma_resolved_peer_reachable(entries: Seq<(Peer, PeerAddr)>, peer: Peer, addr: PeerAddr)
    ensures
        spec_addr_of(entries.push((peer, addr)), peer.id@) == Some(addr),
        spec_peer_list(entries.push((peer, addr))) == spec_peer_list(entries).push(peer),
{
    assert(entries.push((peer, addr)).drop_last() =~= entries);
}

/// After removal, the removed id is neither listed nor reachable, and every
/// other id keeps its address.
pub proof fn lemma_removed_peer_unreachable(entries: Seq<(Peer, PeerAddr)>, id: Seq<char>, other: Seq<char>)
    ensures
        spec_addr_of(spec_without(entries, id), id) is None,
        forall|i: int| 0 <= i < spec_peer_list(spec_without(entries, id)).len()
            ==> (#[trigger] spec_peer_list(spec_without(entries, id))[i]).id@ != id,
        other != id ==> spec_addr_of(spec_without(entries, id), other) == spec_addr_of(entries, other),
    decreases entries.len(),
{
    if entries.len() > 0 {
        lemma_removed_peer_unreachable(entries.drop_last(), id, other);
        let w = spec_without(entries.drop_last(), id);
        if entries.last().0.id@ != id {
            assert(w.push(entries.last()).drop_last() =~= w);
            let l = spec_peer_list(w.push(entries.last()));
            assert(l =~= spec_peer_list(w).push(entries.last().0));
        }
    }
}

/// The peer list holds one peer per entry, in the entries' order.
pub proof fn lemma_peer_list_in_order(entries: Seq<(Peer, PeerAddr)>)
    ensures
        spec_peer_list(entries).len() == entries.len(),
        forall|i: int| 0 <= i < entries.len() ==> #[trigger] spec_peer_list(entries)[i] == entries[i].0,
    decreases entries.len(),
{
    if entries.len() > 0 {
        lemma_peer_list_in_order(entries.drop_last());
    }
}

/// A peer id is reachable exactly when some entry has it, and then at the
/// address of the latest such entry (the one at the highest index).
pub proof fn lemma_addr_of_is_latest(entries: Seq<(Peer, PeerAddr)>, id: Seq<char>)
    ensures
        spec_addr_of(entries, id) is None <==> (forall|j: int| 0 <= j < entries.len() ==> (#[trigger] entries[j]).0.id@ != id),
        forall|i: int|
            0 <= i < entries.len() && (#[trigger] entries[i]).0.id@ == id
                && (forall|j: int| i < j < entries.len() ==> entries[j].0.id@ != id)
                ==> spec_addr_of(entries, id) == Some(entries[i].1),
    decreases entries.len(),
{
    if entries.len() > 0 {
        let init = entries.drop_last();
        lemma_addr_of_is_latest(init, id);
        let n = entries.len() - 1;
        if entries[n].0.id@ != id {
            if spec_addr_of(entries, id) is None {
                assert forall|j: int| 0 <= j < entries.len() implies (#[trigger] entries[j]).0.id@ != id by {
                    if j < n {
                        assert(init[j] == entries[j]);
                    }
                }
            } else {
                let j0 = choose|j: int| 0 <= j < init.len() && (#[trigger] init[j]).0.id@ == id;
                assert(entries[j0] == init[j0]);
            }
            assert forall|i: int|
                0 <= i < entries.len() && (#[trigger] entries[i]).0.id@ == id
                    && (forall|j: int| i < j < entries.len() ==> entries[j].0.id@ != id)
                    implies spec_addr_of(entries, id) == Some(entries[i].1) by {
                assert(i < n);
                assert(init[i] == entries[i]);
                assert forall|j: int| i < j < init.len() implies init[j].0.id@ != id by {
                    assert(init[j] == entries[j]);
                }
            }
        }
    }
}

/// Removing an id keeps exactly the entries with other ids: none of what
/// remains has that id, and every entry with another id remains.
pub proof fn lemma_without_keeps_others(entries: Seq<(Peer, PeerAddr)>, id: Seq<char>)
    ensures
        forall|k: int| 0 <= k < spec_without(entries, id).len() ==> (#[trigger] spec_without(entries, id)[k]).0.id@ != id,
        forall|i: int| 0 <= i < entries.len() && (#[trigger] entries[i]).0.id@ != id
            ==> spec_without(entries, id).contains(entries[i]),
        spec_without(entries, id).len() <= entries.len(),
    decreases entries.len(),
{
    if entries.len() > 0 {
        let init = entries.drop_last();
        lemma_without_keeps_others(init, id);
        let w = spec_without(init, id);
        let n = entries.len() - 1;
        if entries[n].0.id@ == id {
            assert forall|i: int| 0 <= i < entries.len() && (#[trigger] entries[i]).0.id@ != id
                implies spec_without(entries, id).contains(entries[i]) by {
                assert(init[i] == entries[i]);
            }
        } else {
            let w2 = w.push(entries[n]);
            assert forall|k: int| 0 <= k < w2.len() implies (#[trigger] w2[k]).0.id@ != id by {
                if k < w.len() {
                    assert(w2[k] == w[k]);
                }
            }
            assert forall|i: int| 0 <= i < entries.len() && (#[trigger] entries[i]).0.id@ != id
                implies w2.contains(entries[i]) by {
                if i == n {
                    assert(w2[w.len() as int] == entries[i]);
                } else {
                    assert(init[i] == entries[i]);
                    let k = choose|k: int| 0 <= k < w.len() && w[k] == entries[i];
                    assert(w2[k] == entries[i]);
                }
            }
        }
    }
}

/// The first peer in `peers` whose id is `id`.
pub open spec fn spec_find_peer(peers: Seq<Peer>, id: Seq<char>) -> Option<Peer>
    decreases peers.len(),
{
    if peers.len() == 0 {
        None
    } else if peers[0].id@ == id {
        Some(peers[0])
    } else {
        spec_find_peer(peers.drop_first(), id)
    }
}

/// A connect request names a discovered peer exactly when some listed peer
/// has that id, and then it is the first such peer (the one at the lowest
/// index) that is chosen.
pub proof fn lemma_find_peer_is_first_match(peers: Seq<Peer>, id: Seq<char>)
    ensures
        spec_find_peer(peers, id) is None <==> (forall|j: int| 0 <= j < peers.len() ==> (#[trigger] peers[j]).id@ != id),
        forall|i: int|
            0 <= i < peers.len() && (#[trigger] peers[i]).id@ == id && (forall|j: int| 0 <= j < i ==> peers[j].id@ != id)
                ==> spec_find_peer(peers, id) == Some(peers[i]),
    decreases peers.len(),
{
    if peers.len() > 0 {
        let rest = peers.drop_first();
        lemma_find_peer_is_first_match(rest, id);
        if peers[0].id@ != id {
            assert forall|j: int| 0 <= j < rest.len() implies #[trigger] rest[j] == peers[j + 1] by {}
            if spec_find_peer(peers, id) is None {
                assert forall|j: int| 0 <= j < peers.len() implies (#[trigger] peers[j]).id@ != id by {
                    if j > 0 {
                        assert(rest[j - 1] == peers[j]);
                    }
                }
            } else {
                let j0 = choose|j: int| 0 <= j < rest.len() && (#[trigger] rest[j]).id@ == id;
                assert(peers[j0 + 1].id@ == id);
            }
            assert forall|i: int|
                0 <= i < peers.len() && (#[trigger] peers[i]).id@ == id && (forall|j: int| 0 <= j < i ==> peers[j].id@ != id)
                    implies spec_find_peer(peers, id) == Some(peers[i]) by {
                assert(i > 0);
                assert(rest[i - 1] == peers[i]);
                assert forall|j: int| 0 <= j < i - 1 implies rest[j].id@ != id by {
                    assert(rest[j] == peers[j + 1]);
                }
            }
        }
    }
}

/// How a user-supplied connect request is to be carried out.
pub enum ConnectTarget {
    /// A peer discovered over mDNS, reached at its resolved address.
    Discovered(Peer),
    /// A bare address, `host:port`, to be dialled directly.
    Direct(String),
}

/// The address dialled for a connect request that names no discovered
/// peer: the text itself, with the default port added when it names none.
pub open spec fn spec_direct_address(id: Seq<char>) -> Seq<char> {
    if id.contains(':') {
        id
    } else {
        id + ":7878"@
    }
}

/// Interprets a connect request: the first discovered peer with this id, or
/// else the id itself as an address (default port 7878 when it has none).
pub fn resolve_connect_target(peers: &Vec<Peer>, id: &String) -> (target: ConnectTarget)
    ensures
        match target {
            ConnectTarget::Discovered(p) => spec_find_peer(peers@, id@) == Some(p),
            ConnectTarget::Direct(addr) => spec_find_peer(peers@, id@) is None
                && addr@ == spec_direct_address(id@),
        },
{
    let mut i: usize = 0;
    proof {
        assert(peers@.skip(0) =~= peers@);
    }
    while i < peers.len()
        invariant
            i <= peers@.len(),
            spec_find_peer(peers@, id@) == spec_find_peer(peers@.skip(i as int), id@),
        decreases peers@.len() - i,
    {
        if peers[i].id == *id {
            return ConnectTarget::Discovered(copy_peer(&peers[i]));
        }
        assert(peers@.skip(i as int).drop_first() =~= peers@.skip(i + 1));
        i = i + 1;
    }
    let text = id.as_str();
    let n = text.unicode_len();
    let mut j: usize = 0;
    let mut has_colon = false;
    while j < n
        invariant
            j <= n == id@.len(),
            text@ == id@,
            has_colon == id@.take(j as int).contains(':'),
        decreases n - j,
    {
        if text.get_char(j) == ':' {
            has_colon = true;
        }
        j = j + 1;
        assert(id@.take(j as int) =~= id@.take(j - 1).push(id@[j - 1]));
        proof {
            let t = id@.take(j as int);
            let p = id@.take(j - 1);
            assert(t =~= p.push(id@[j - 1]));
            if id@[j - 1] == ':' {
                assert(t[j - 1] == ':');
            }
            if t.contains(':') {
                let k = choose|k: int| 0 <= k < t.len() && #[trigger] t[k] == ':';
                if k < j - 1 {
                    assert(p[k] == ':');
                }
            }
            if p.contains(':') {
                let k = choose|k: int| 0 <= k < p.len() && #[trigger] p[k] == ':';
                assert(t[k] == ':');
            }
        }
    }
    assert(id@.take(n as int) =~= id@);
    assert(peers@.skip(i as int) =~= Seq::<Peer>::empty());
    if has_colon {
        ConnectTarget::Direct(id.clone())
    } else {
        ConnectTarget::Direct(id.clone().concat(":7878"))
    }
}

/// Whether `c` is alphabetic or numeric in the Unicode sense.
pub uninterp spec fn spec_is_alphanumeric(c: char) -> bool;

/// Calls `char::is_alphanumeric`, which the standard library documents as
/// "alphabetic or numeric" over the Unicode tables; only named here.
#[verifier::external_body]
fn is_alphanumeric(c: char) -> (b: bool)
    ensures
        b == spec_is_alphanumeric(c),
{
    c.is_alphanumeric()
}

/// The DNS-safe form of a device name: every character that is not
/// alphanumeric becomes a dash.
pub open spec fn spec_host_slug(name: Seq<char>) -> Seq<char> {
    Seq::new(name.len(), |i: int| if spec_is_alphanumeric(name[i]) { name[i] } else { '-' })
}

/// The mDNS host name a server advertises for a device name.
pub fn service_host_name(name: &str) -> (host: String)
    ensures
        host@ == spec_host_slug(name@) + ".local."@,
{
    let n = name.unicode_len();
    let mut out = String::new();
    let mut i: usize = 0;
    while i < n
        invariant
            i <= n == name@.len(),
            out@ == spec_host_slug(name@).take(i as int),
        decreases n - i,
    {
        let c = name.get_char(i);
        if is_alphanumeric(c) {
            push_char(&mut out, c);
        } else {
            push_char(&mut out, '-');
        }
        i = i + 1;
        assert(out@ =~= spec_host_slug(name@).take(i as int));
    }
    assert(spec_host_slug(name@).take(n as int) =~= spec_host_slug(name@));
    out.concat(".local.")
}

} // verus!
