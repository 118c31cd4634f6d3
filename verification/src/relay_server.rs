use vstd::prelude::*;

verus! {

broadcast use vstd::seq_lib::group_filter_ensures;

/// The relay server's side of the circuit protocol: the reservation table
/// and the circuits currently being forwarded. Peers are known to the
/// relay by their identifier key.
pub struct RelayServer {
    /// How many simultaneous reservations the capacity policy admits.
    pub capacity: usize,
    /// The peers holding an active reservation, each at most once.
    pub reservations: Vec<u64>,
    /// The circuits being relayed, as (dialer, listener) pairs.
    pub circuits: Vec<(u64, u64)>,
}

/// How the relay answered a reservation request.
#[derive(Clone, Copy, Debug, PartialEq, Eq, Structural)]
pub enum ReservationOutcome {
    /// The relay will forward inbound circuits for this peer.
    Accepted,
    /// The capacity policy refused the lease.
    Denied,
}

/// How the relay answered a dial referencing a listening peer.
#[derive(Clone, Copy, Debug, PartialEq, Eq, Structural)]
pub enum DialOutcome {
    /// The target holds an active reservation: the circuit is now relayed.
    CircuitOpened,
    /// The target holds no active reservation: the dial is rejected — an
    /// explicit answer, never a silent drop.
    Rejected,
}

impl RelayServer {
    /// Each peer holds at most one reservation, and the table respects
    /// the capacity policy.
    pub open spec fn wf(self) -> bool {
        &&& forall|i: int, j: int|
            0 <= i < j < self.reservations@.len() ==> #[trigger] self.reservations@[i]
                != #[trigger] self.reservations@[j]
        &&& self.reservations@.len() <= self.capacity
    }

    /// Whether a peer holds an active reservation.
    pub open spec fn has_reservation(self, peer: u64) -> bool {
        self.reservations@.contains(peer)
    }

    /// A relay with no reservations and no circuits.
    pub fn new(capacity: usize) -> (s: RelayServer)
        ensures
            s.wf(),
            s.capacity == capacity,
            s.reservations@ =~= Seq::<u64>::empty(),
            s.circuits@ =~= Seq::<(u64, u64)>::empty(),
    {
        RelayServer { capacity, reservations: Vec::new(), circuits: Vec::new() }
    }

    /// A listening peer asks for a lease. The relay accepts exactly when
    /// the peer already holds one (a renewal) or the capacity policy has
    /// room; acceptance grants the lease and disturbs nobody else's.
    pub fn handle_reservation_request(&mut self, peer: u64) -> (r: ReservationOutcome)
        requires
            old(self).wf(),
        ensures
            final(self).wf(),
            final(self).capacity == old(self).capacity,
            final(self).circuits@ == old(self).circuits@,
            r is Accepted <==> (old(self).has_reservation(peer) || old(self).reservations@.len()
                < old(self).capacity),
            r is Accepted ==> final(self).has_reservation(peer),
            forall|q: u64|
                q != peer ==> (final(self).has_reservation(q) <==> old(self).has_reservation(q)),
            r is Denied ==> final(self).reservations@ == old(self).reservations@,
    {
        if contains_key(&self.reservations, peer) {
            ReservationOutcome::Accepted
        } else if self.reservations.len() < self.capacity {
            self.reservations.push(peer);
            proof {
                assert(self.reservations@[self.reservations@.len() - 1] == peer);
                assert forall|q: u64| q != peer implies (self.has_reservation(q) <==> old(
                    self,
                ).has_reservation(q)) by {
                    if old(self).has_reservation(q) {
                        let w = choose|w: int|
                            0 <= w < old(self).reservations@.len() && old(self).reservations@[w]
                                == q;
                        assert(self.reservations@[w] == q);
                    }
                    if self.has_reservation(q) {
                        let w = choose|w: int|
                            0 <= w < self.reservations@.len() && self.reservations@[w] == q;
                        assert(w < old(self).reservations@.len());
                        assert(old(self).reservations@[w] == q);
                    }
                }
            }
            ReservationOutcome::Accepted
        } else {
            ReservationOutcome::Denied
        }
    }

    /// A lease ran out or its holder went away: drop it. Every other
    /// peer's reservation stands as it was.
    pub fn expire_reservation(&mut self, peer: u64)
        requires
            old(self).wf(),
        ensures
            final(self).wf(),
            final(self).capacity == old(self).capacity,
            final(self).circuits@ == old(self).circuits@,
            !final(self).has_reservation(peer),
            forall|q: u64|
                q != peer ==> (final(self).has_reservation(q) <==> old(self).has_reservation(q)),
    {
        let ghost prior = self.reservations@;
        let mut kept: Vec<u64> = Vec::new();
        let mut i: usize = 0;
        while i < self.reservations.len()
            invariant
                i <= prior.len(),
                self.reservations@ == prior,
                kept@ == prior.take(i as int).filter(|k: u64| k != peer),
            decreases prior.len() - i,
        {
            let k = self.reservations[i];
            proof {
                assert(prior.take(i + 1 as int).drop_last() =~= prior.take(i as int));
                reveal_with_fuel(Seq::filter, 2);
            }
            if k != peer {
                kept.push(k);
            }
            i += 1;
        }
        proof {
            assert(prior.take(prior.len() as int) =~= prior);
        }
        self.reservations = kept;
        proof {
            let f = |k: u64| k != peer;
            assert forall|a: int, b: int|
                0 <= a < b < self.reservations@.len() implies #[trigger] self.reservations@[a]
                != #[trigger] self.reservations@[b] by {
                lemma_distinct_filter(prior, f, a, b);
            }
            if self.reservations@.contains(peer) {
                let w = choose|w: int|
                    0 <= w < self.reservations@.len() && self.reservations@[w] == peer;
                assert(f(self.reservations@[w]));
            }
            assert forall|q: u64| q != peer implies (self.has_reservation(q) <==> old(
                self,
            ).has_reservation(q)) by {
                if prior.contains(q) {
                    let w = choose|w: int| 0 <= w < prior.len() && prior[w] == q;
                    assert(prior.filter(f).contains(prior[w]));
                }
                if self.reservations@.contains(q) {
                    lemma_filter_subset(prior, f, q);
                }
            }
        }
    }

    /// A dialer references a listening peer. The dial is rejected exactly
    /// when that peer holds no active reservation; otherwise the relay
    /// opens a circuit between the two and starts forwarding.
    pub fn handle_dial_request(&mut self, dialer: u64, target: u64) -> (r: DialOutcome)
        requires
            old(self).wf(),
        ensures
            final(self).wf(),
            final(self).capacity == old(self).capacity,
            final(self).reservations@ == old(self).reservations@,
            r is Rejected <==> !old(self).has_reservation(target),
            r is CircuitOpened ==> final(self).circuits@ == old(self).circuits@.push(
                (dialer, target),
            ),
            r is Rejected ==> final(self).circuits@ == old(self).circuits@,
    {
        if contains_key(&self.reservations, target) {
            self.circuits.push((dialer, target));
            DialOutcome::CircuitOpened
        } else {
            DialOutcome::Rejected
        }
    }

    /// The relay forwards a circuit's payload transparently: the bytes
    /// handed on are exactly the bytes taken in, neither inspected nor
    /// altered.
    pub fn forward_payload(&self, payload: Vec<u8>) -> (out: Vec<u8>)
        ensures
            out@ == payload@,
    {
        payload
    }
}

fn contains_key(keys: &Vec<u64>, x: u64) -> (r: bool)
    ensures
        r == keys@.contains(x),
{
    let mut i: usize = 0;
    while i < keys.len()
        invariant
            i <= keys@.len(),
            forall|j: int| 0 <= j < i ==> keys@[j] != x,
        decreases keys@.len() - i,
    {
        if keys[i] == x {
            return true;
        }
        i += 1;
    }
    false
}

proof fn lemma_filter_subset(s: Seq<u64>, f: spec_fn(u64) -> bool, x: u64)
    requires
        s.filter(f).contains(x),
    ensures
        s.contains(x),
    decreases s.len(),
{
    reveal(Seq::filter);
    if s.len() == 0 {
    } else {
        let prefix = s.drop_last();
        if f(s.last()) && x == s.last() {
            assert(s[s.len() - 1] == x);
        } else {
            assert(prefix.filter(f).contains(x));
            lemma_filter_subset(prefix, f, x);
            let w = choose|w: int| 0 <= w < prefix.len() && prefix[w] == x;
            assert(s[w] == x);
        }
    }
}

proof fn lemma_distinct_filter(s: Seq<u64>, f: spec_fn(u64) -> bool, i: int, j: int)
    requires
        forall|a: int, b: int| 0 <= a < b < s.len() ==> #[trigger] s[a] != #[trigger] s[b],
        0 <= i < j < s.filter(f).len(),
    ensures
        s.filter(f)[i] != s.filter(f)[j],
    decreases s.len(),
{
    reveal(Seq::filter);
    if s.len() == 0 {
    } else {
        let last = s.last();
        let prefix = s.drop_last();
        if f(last) && j == s.filter(f).len() - 1 {
            assert(s.filter(f)[j] == last);
            assert(prefix.filter(f)[i] == s.filter(f)[i]);
            assert(prefix.filter(f).contains(prefix.filter(f)[i]));
            lemma_filter_subset(prefix, f, prefix.filter(f)[i]);
            let w = choose|w: int| 0 <= w < prefix.len() && prefix[w] == prefix.filter(f)[i];
            assert(s[w] == prefix.filter(f)[i]);
            assert(s[w] != last);
        } else {
            lemma_distinct_filter(prefix, f, i, j);
            assert(prefix.filter(f)[i] == s.filter(f)[i]);
            assert(prefix.filter(f)[j] == s.filter(f)[j]);
        }
    }
}

} // verus!
