//! Timed discovery of reachable peers: announcements that arrive within a
//! window are kept per identity, the first one of each identity wins, and
//! the caller's own identity is left out.

use vstd::prelude::*;

verus! {

/// How long, in seconds, the scan behind a listing of peers lasts.
pub const LIST_SCOUTING_INTERVAL: u64 = 2;

/// The part a runtime plays on the bus.
#[derive(Clone, Copy, Debug, PartialEq, Eq, Structural)]
pub enum Role {
    Router,
    Peer,
    Client,
}

/// The bit that stands for a role in a role mask.
pub open spec fn role_bit(role: Role) -> usize {
    match role {
        Role::Router => 1,
        Role::Peer => 2,
        Role::Client => 4,
    }
}

/// The mask of all three roles.
pub const ALL_ROLES: usize = 7;

/// The bit that stands for `role` in a role mask.
pub fn role_bits(role: Role) -> (r: usize)
    ensures
        r == role_bit(role),
{
    match role {
        Role::Router => 1,
        Role::Peer => 2,
        Role::Client => 4,
    }
}

/// Whether `role` is among those that `mask` asks for.
pub open spec fn role_in_mask(role: Role, mask: usize) -> bool {
    role_bit(role) & mask != 0
}

/// The mask that the listing flags ask for: the first of router, peer and
/// client that is set, or all three roles where none is.
pub fn role_mask(router: bool, peer: bool, client: bool) -> (r: usize)
    ensures
        r == (if router {
            role_bit(Role::Router)
        } else if peer {
            role_bit(Role::Peer)
        } else if client {
            role_bit(Role::Client)
        } else {
            ALL_ROLES
        }),
{
    if router {
        role_bits(Role::Router)
    } else if peer {
        role_bits(Role::Peer)
    } else if client {
        role_bits(Role::Client)
    } else {
        ALL_ROLES
    }
}

/// A peer as its announcement describes it.
#[derive(Clone, Debug)]
pub struct PeerRecord {
    pub id: u128,
    pub role: Role,
    pub locators: Vec<String>,
}

/// Whether some announcement in `s` comes from `id`.
pub open spec fn announced(s: Seq<PeerRecord>, id: u128) -> bool {
    exists|i: int| 0 <= i < s.len() && (#[trigger] s[i]).id == id
}

/// The peer table that a scan builds from `announcements`, in order of
/// first sighting: one record per identity, the first announcement of
/// each, with `self_id` left out.
pub open spec fn scanned(self_id: u128, announcements: Seq<PeerRecord>) -> Seq<PeerRecord>
    decreases announcements.len(),
{
    if announcements.len() == 0 {
        Seq::empty()
    } else {
        let before = scanned(self_id, announcements.drop_last());
        let h = announcements.last();
        if h.id == self_id || announced(before, h.id) {
            before
        } else {
            before.push(h)
        }
    }
}

/// Whether announcement `k` is the first one of its identity.
pub open spec fn first_sighting(announcements: Seq<PeerRecord>, k: int) -> bool {
    0 <= k < announcements.len() && forall|j: int|
        0 <= j < k ==> (#[trigger] announcements[j]).id != announcements[k].id
}

/// A scan never holds the caller's own identity, whatever announcements
/// arrived, one from the caller included.
pub proof fn lemma_scan_excludes_self(self_id: u128, announcements: Seq<PeerRecord>)
    ensures
        forall|i: int|
            0 <= i < scanned(self_id, announcements).len() ==> (#[trigger] scanned(
                self_id,
                announcements,
            )[i]).id != self_id,
    decreases announcements.len(),
{
    if announcements.len() > 0 {
        lemma_scan_excludes_self(self_id, announcements.drop_last());
    }
}

/// Each announced identity has a first sighting.
proof fn lemma_first_sighting_exists(announcements: Seq<PeerRecord>, j: int)
    requires
        0 <= j < announcements.len(),
    ensures
        exists|k: int|
            #![trigger first_sighting(announcements, k)]
            0 <= k <= j && first_sighting(announcements, k) && announcements[k].id
                == announcements[j].id,
    decreases j,
{
    if !first_sighting(announcements, j) {
        let j2 = choose|j2: int|
            0 <= j2 < j && (#[trigger] announcements[j2]).id == announcements[j].id;
        lemma_first_sighting_exists(announcements, j2);
    }
}

/// A scan keeps one record per identity: the identities in its table are
/// distinct, each identity other than the caller's that was announced has
/// its first announcement in the table, and each record of the table is
/// such a first announcement. Later announcements of a known identity
/// change nothing.
pub proof fn lemma_scan_keeps_first_sighting(self_id: u128, announcements: Seq<PeerRecord>)
    ensures
        forall|i: int, j: int|
            0 <= i < j < scanned(self_id, announcements).len() ==> (#[trigger] scanned(
                self_id,
                announcements,
            )[i]).id != (#[trigger] scanned(self_id, announcements)[j]).id,
        forall|k: int|
            first_sighting(announcements, k) && announcements[k].id != self_id ==> exists|i: int|
                0 <= i < scanned(self_id, announcements).len() && #[trigger] scanned(
                    self_id,
                    announcements,
                )[i] == announcements[k],
        forall|i: int|
            0 <= i < scanned(self_id, announcements).len() ==> exists|k: int|
                first_sighting(announcements, k) && #[trigger] scanned(self_id, announcements)[i]
                    == announcements[k],
    decreases announcements.len(),
{
    let s = scanned(self_id, announcements);
    if announcements.len() > 0 {
        let prior = announcements.drop_last();
        let n = announcements.len() - 1;
        let h = announcements.last();
        let s0 = scanned(self_id, prior);
        lemma_scan_keeps_first_sighting(self_id, prior);
        assert forall|k: int| first_sighting(prior, k) implies first_sighting(
            announcements,
            k,
        ) by {
            assert forall|j: int| 0 <= j < k implies (#[trigger] announcements[j]).id
                != announcements[k].id by {
                assert(prior[j] == announcements[j]);
            }
        }
        assert forall|k: int| 0 <= k < n && first_sighting(announcements, k) implies first_sighting(
            prior,
            k,
        ) by {
            assert forall|j: int| 0 <= j < k implies (#[trigger] prior[j]).id != prior[k].id by {
                assert(prior[j] == announcements[j]);
            }
        }
        if h.id == self_id || announced(s0, h.id) {
            assert(s == s0);
            assert forall|k: int|
                first_sighting(announcements, k) && announcements[k].id
                    != self_id implies exists|i: int|
                0 <= i < s.len() && #[trigger] s[i] == announcements[k] by {
                if k == n {
                    let i = choose|i: int| 0 <= i < s0.len() && (#[trigger] s0[i]).id == h.id;
                    let k2 = choose|k2: int| first_sighting(prior, k2) && s0[i] == prior[k2];
                    assert(announcements[k2].id == announcements[k].id);
                } else {
                    assert(first_sighting(prior, k));
                    assert(prior[k] == announcements[k]);
                }
            }
            assert forall|i: int| 0 <= i < s.len() implies exists|k: int|
                first_sighting(announcements, k) && #[trigger] s[i] == announcements[k] by {
                let k = choose|k: int| first_sighting(prior, k) && s0[i] == prior[k];
                assert(first_sighting(announcements, k));
            }
        } else {
            assert(s == s0.push(h));
            assert forall|i: int, j: int| 0 <= i < j < s.len() implies (#[trigger] s[i]).id
                != (#[trigger] s[j]).id by {
                if j == s0.len() {
                    assert(s[i] == s0[i]);
                }
            }
            assert forall|k: int|
                first_sighting(announcements, k) && announcements[k].id
                    != self_id implies exists|i: int|
                0 <= i < s.len() && #[trigger] s[i] == announcements[k] by {
                if k == n {
                    assert(s[s0.len() as int] == h);
                } else {
                    assert(first_sighting(prior, k));
                    assert(prior[k] == announcements[k]);
                    let i = choose|i: int| 0 <= i < s0.len() && #[trigger] s0[i] == prior[k];
                    assert(s[i] == s0[i]);
                }
            }
            assert(first_sighting(announcements, n)) by {
                if !first_sighting(announcements, n) {
                    let j = choose|j: int|
                        0 <= j < n && (#[trigger] announcements[j]).id == h.id;
                    assert(prior[j] == announcements[j]);
                    lemma_first_sighting_exists(prior, j);
                    let k = choose|k: int|
                        0 <= k <= j && first_sighting(prior, k) && prior[k].id == prior[j].id;
                    let i = choose|i: int| 0 <= i < s0.len() && #[trigger] s0[i] == prior[k];
                    assert(s0[i].id == h.id);
                }
            }
            assert forall|i: int| 0 <= i < s.len() implies exists|k: int|
                first_sighting(announcements, k) && #[trigger] s[i] == announcements[k] by {
                if i == s0.len() {
                    assert(s[i] == announcements[n]);
                } else {
                    assert(s[i] == s0[i]);
                    let k = choose|k: int| first_sighting(prior, k) && s0[i] == prior[k];
                    assert(first_sighting(announcements, k));
                }
            }
        }
    }
}

/// Whether a record of `peers` has identity `id`.
fn knows(peers: &Vec<PeerRecord>, id: u128) -> (r: bool)
    ensures
        r == announced(peers@, id),
{
    let mut i: usize = 0;
    while i < peers.len()
        invariant
            i <= peers@.len(),
            forall|j: int| 0 <= j < i ==> (#[trigger] peers@[j]).id != id,
        decreases peers@.len() - i,
    {
        if peers[i].id == id {
            assert(announced(peers@, id));
            return true;
        }
        i = i + 1;
    }
    false
}

/// The scan that is under way: the peers seen so far and the time at
/// which the window closes.
pub struct DiscoverySession {
    self_id: u128,
    deadline: u64,
    peers: Vec<PeerRecord>,
    seen: Ghost<Seq<PeerRecord>>,
}

impl DiscoverySession {
    /// The identity that the scan leaves out.
    pub closed spec fn self_identity(&self) -> u128 {
        self.self_id
    }

    /// The time, in milliseconds, at which the window closes.
    pub closed spec fn closes_at(&self) -> u64 {
        self.deadline
    }

    /// The announcements that arrived within the window, in order.
    pub closed spec fn announcements(&self) -> Seq<PeerRecord> {
        self.seen@
    }

    /// The table matches the announcements.
    pub closed spec fn wf(&self) -> bool {
        self.peers@ == scanned(self.self_id, self.seen@)
    }

    /// Opens a scan at time `now_ms` for `window_secs` seconds that leaves
    /// out `self_id`; a window that would end past the clock's range ends
    /// at its last instant.
    pub fn open(self_id: u128, now_ms: u64, window_secs: u64) -> (r: DiscoverySession)
        ensures
            r.wf(),
            r.self_identity() == self_id,
            r.announcements() == Seq::<PeerRecord>::empty(),
            r.closes_at() == if now_ms + window_secs * 1000 <= u64::MAX {
                (now_ms + window_secs * 1000) as u64
            } else {
                u64::MAX
            },
    {
        let span = window_secs.checked_mul(1000);
        let deadline = match span {
            Some(s) => now_ms.saturating_add(s),
            None => u64::MAX,
        };
        DiscoverySession { self_id, deadline, peers: Vec::new(), seen: Ghost(Seq::empty()) }
    }

    /// Whether the window is still open at time `now_ms`.
    pub fn is_open(&self, now_ms: u64) -> (r: bool)
        ensures
            r == (now_ms < self.closes_at()),
    {
        now_ms < self.deadline
    }

    /// Takes in an announcement that arrived at time `now_ms`: one within
    /// the window joins the announcements, and its peer joins the table
    /// unless it is the caller or was seen before. Returns whether it
    /// arrived within the window.
    pub fn observe(&mut self, now_ms: u64, hello: PeerRecord) -> (r: bool)
        requires
            old(self).wf(),
        ensures
            final(self).wf(),
            r == (now_ms < old(self).closes_at()),
            final(self).self_identity() == old(self).self_identity(),
            final(self).closes_at() == old(self).closes_at(),
            final(self).announcements() == if r {
                old(self).announcements().push(hello)
            } else {
                old(self).announcements()
            },
    {
        if now_ms >= self.deadline {
            return false;
        }
        let ghost before = self.seen@;
        proof {
            self.seen = Ghost(before.push(hello));
            assert(self.seen@.drop_last() =~= before);
        }
        if hello.id == self.self_id {
            return true;
        }
        if knows(&self.peers, hello.id) {
            return true;
        }
        self.peers.push(hello);
        true
    }

    /// The peers found so far, in order of first sighting.
    pub fn peers(&self) -> (r: &Vec<PeerRecord>)
        requires
            self.wf(),
        ensures
            r@ == scanned(self.self_identity(), self.announcements()),
    {
        &self.peers
    }

    /// Closes the scan and hands out its table.
    pub fn finish(self) -> (r: Vec<PeerRecord>)
        requires
            self.wf(),
        ensures
            r@ == scanned(self.self_identity(), self.announcements()),
    {
        self.peers
    }
}

/// The identity and role of each of `peers` whose role is in `mask`, in
/// order.
pub open spec fn listed(peers: Seq<PeerRecord>, mask: usize) -> Seq<(u128, Role)>
    decreases peers.len(),
{
    if peers.len() == 0 {
        Seq::empty()
    } else {
        let before = listed(peers.drop_last(), mask);
        let p = peers.last();
        if role_in_mask(p.role, mask) {
            before.push((p.id, p.role))
        } else {
            before
        }
    }
}

/// The identity and role of each peer whose role is in `mask`.
pub fn list_peers(peers: &Vec<PeerRecord>, mask: usize) -> (r: Vec<(u128, Role)>)
    ensures
        r@ == listed(peers@, mask),
{
    let mut r: Vec<(u128, Role)> = Vec::new();
    let mut i: usize = 0;
    while i < peers.len()
        invariant
            i <= peers@.len(),
            r@ == listed(peers@.subrange(0, i as int), mask),
        decreases peers@.len() - i,
    {
        let p = &peers[i];
        assert(peers@.subrange(0, i + 1).drop_last() =~= peers@.subrange(0, i as int));
        if role_bits(p.role) & mask != 0 {
            r.push((p.id, p.role));
        }
        i = i + 1;
    }
    assert(peers@.subrange(0, i as int) =~= peers@);
    r
}

} // verus!
