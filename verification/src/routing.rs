//! Deterministic session-to-port routing.
//!
//! The supervisor turns an inclusive media port range into one worker per
//! port.  The signaling bridge then picks the worker that serves a session by
//! indexing the ascending port list with the session id modulo the number of
//! ports.  The port list is sorted by construction, so a session id resolves
//! to the same port for the life of the configuration.

use vstd::prelude::*;

verus! {

/// A routing table: the ascending list of configured media ports.
///
/// The sender handles that reach each port's worker live beside this table in
/// the embedding program; the table itself carries only the ports, which is
/// all the routing decision needs.
pub struct RoutingTable {
    ports: Vec<u16>,
}

/// The port that serves `session_id` out of `ports`: the entry at index
/// `session_id mod len(ports)`, or `None` when no port is configured.
pub open spec fn spec_port_for(ports: Seq<u16>, session_id: u64) -> Option<u16> {
    if ports.len() == 0 {
        None
    } else {
        Some(ports[session_id as int % ports.len() as int])
    }
}

/// The ports of the inclusive range `min..=max`, ascending.
pub open spec fn spec_port_range(min: u16, max: u16) -> Seq<u16> {
    if min <= max {
        Seq::new((max - min + 1) as nat, |i: int| (min + i) as u16)
    } else {
        Seq::empty()
    }
}

impl RoutingTable {
    /// The ports the table holds, in order.
    pub closed spec fn view(&self) -> Seq<u16> {
        self.ports@
    }

    /// The table is well formed when its ports are strictly ascending, hence
    /// sorted and free of duplicates.
    pub open spec fn wf(&self) -> bool {
        forall|i: int, j: int| 0 <= i < j < self@.len() ==> self@[i] < self@[j]
    }

    /// Builds the table for the inclusive media port range `min..=max`, one
    /// worker per port; an empty range yields an empty table.
    pub fn from_range(min: u16, max: u16) -> (table: RoutingTable)
        ensures
            table@ == spec_port_range(min, max),
            table.wf(),
    {
        let mut ports: Vec<u16> = Vec::new();
        if min <= max {
            let count: usize = (max - min) as usize + 1;
            let mut k: usize = 0;
            while k < count
                invariant
                    count == max - min + 1,
                    k <= count,
                    ports@.len() == k as int,
                    forall|i: int| 0 <= i < k as int ==> ports@[i] == min + i,
                decreases count - k,
            {
                ports.push(min + (k as u16));
                k = k + 1;
            }
        }
        let table = RoutingTable { ports };
        proof {
            assert(table@ =~= spec_port_range(min, max));
        }
        table
    }

    /// Builds the table from ports gathered in any order — say, the keys of
    /// an unordered map — sorting them ascending and dropping duplicates
    /// before anything indexes them: an unsorted list would let the same
    /// session resolve to different ports across rebuilds.
    pub fn from_ports(ports: &Vec<u16>) -> (table: RoutingTable)
        ensures
            table.wf(),
            forall|p: u16| table@.contains(p) <==> ports@.contains(p),
    {
        let mut sorted: Vec<u16> = Vec::new();
        let n = ports.len();
        let mut k: usize = 0;
        while k < n
            invariant
                k <= n,
                n == ports@.len(),
                forall|a: int, b: int| 0 <= a < b < sorted@.len() ==> sorted@[a] < sorted@[b],
                forall|p: u16|
                    sorted@.contains(p) <==> ports@.subrange(0, k as int).contains(p),
            decreases n - k,
        {
            let p = ports[k];
            let mut j: usize = 0;
            while j < sorted.len() && sorted[j] < p
                invariant
                    j <= sorted@.len(),
                    k < n,
                    n == ports@.len(),
                    p == ports@[k as int],
                    forall|i: int| 0 <= i < j ==> sorted@[i] < p,
                    forall|a: int, b: int| 0 <= a < b < sorted@.len() ==> sorted@[a] < sorted@[b],
                    forall|x: u16|
                        sorted@.contains(x) <==> ports@.subrange(0, k as int).contains(x),
                decreases sorted@.len() - j,
            {
                j = j + 1;
            }
            let ghost before = sorted@;
            if j == sorted.len() || sorted[j] != p {
                sorted.insert(j, p);
                proof {
                    before.insert_ensures(j as int, p);
                    assert forall|a: int, b: int|
                        0 <= a < b < sorted@.len() implies sorted@[a] < sorted@[b] by {
                        if b < j {
                            assert(sorted@[a] == before[a] && sorted@[b] == before[b]);
                        } else if a < j && b == j {
                            assert(sorted@[a] == before[a] && sorted@[b] == p);
                        } else if a < j && b > j {
                            assert(sorted@[a] == before[a] && sorted@[b] == before[b - 1]);
                            if b - 1 > j - 1 && j <= before.len() && j < before.len() {
                                assert(before[j as int] > p);
                            }
                            if b - 1 == j - 1 {
                            } else {
                                assert(before[b - 1] >= before[j as int]) by {
                                    if j < b - 1 {
                                        assert(before[j as int] < before[b - 1]);
                                    }
                                }
                            }
                        } else if a == j {
                            assert(sorted@[a] == p && sorted@[b] == before[b - 1]);
                            assert(b - 1 >= j);
                            assert(before[j as int] > p);
                            if b - 1 > j {
                                assert(before[j as int] < before[b - 1]);
                            }
                        } else {
                            assert(sorted@[a] == before[a - 1] && sorted@[b] == before[b - 1]);
                        }
                    }
                    assert forall|x: u16|
                        sorted@.contains(x) <==> (before.contains(x) || x == p) by {
                        if sorted@.contains(x) {
                            let i = choose|i: int| 0 <= i < sorted@.len() && sorted@[i] == x;
                            if i < j {
                                assert(before[i] == x);
                            } else if i == j {
                                assert(x == p);
                            } else {
                                assert(before[i - 1] == x);
                            }
                        }
                        if before.contains(x) {
                            let i = choose|i: int| 0 <= i < before.len() && before[i] == x;
                            if i < j {
                                assert(sorted@[i] == x);
                            } else {
                                assert(sorted@[i + 1] == x);
                            }
                        }
                        if x == p {
                            assert(sorted@[j as int] == x);
                        }
                    }
                }
            } else {
                proof {
                    assert(sorted@[j as int] == p);
                    assert(sorted@.contains(p));
                }
            }
            proof {
                assert(ports@.subrange(0, k + 1) =~= ports@.subrange(0, k as int).push(p));
                assert forall|x: u16|
                    ports@.subrange(0, k + 1).contains(x) <==> (ports@.subrange(
                        0,
                        k as int,
                    ).contains(x) || x == p) by {
                    let shorter = ports@.subrange(0, k as int);
                    let longer = ports@.subrange(0, k + 1);
                    if longer.contains(x) {
                        let i = choose|i: int| 0 <= i < longer.len() && longer[i] == x;
                        if i < k {
                            assert(shorter[i] == x);
                        } else {
                            assert(x == p);
                        }
                    }
                    if shorter.contains(x) {
                        let i = choose|i: int| 0 <= i < shorter.len() && shorter[i] == x;
                        assert(longer[i] == x);
                    }
                    if x == p {
                        assert(longer[k as int] == x);
                    }
                }
                assert forall|x: u16|
                    sorted@.contains(x) <==> ports@.subrange(0, k + 1).contains(x) by {
                    assert(sorted@.contains(x) <==> (before.contains(x) || x == p));
                    assert(before.contains(x) <==> ports@.subrange(0, k as int).contains(x));
                    assert(ports@.subrange(0, k + 1).contains(x) <==> (ports@.subrange(
                        0,
                        k as int,
                    ).contains(x) || x == p));
                }
            }
            k = k + 1;
        }
        proof {
            assert(ports@.subrange(0, n as int) =~= ports@);
        }
        RoutingTable { ports: sorted }
    }

    /// The number of configured ports.
    pub fn len(&self) -> (n: usize)
        ensures
            n == self@.len(),
    {
        self.ports.len()
    }

    /// Whether no media port is configured.
    pub fn is_empty(&self) -> (empty: bool)
        ensures
            empty <==> self@.len() == 0,
    {
        self.ports.len() == 0
    }

    /// The port at a given index, for callers that walk the table.
    pub fn port_at(&self, idx: usize) -> (port: u16)
        requires
            idx < self@.len(),
        ensures
            port == self@[idx as int],
    {
        self.ports[idx]
    }

    /// Picks the worker port that serves `session_id`, or `None` when the
    /// table is empty.  The choice is a pure function of the table and the
    /// session id, so all signaling and media for one session reach the same
    /// worker.
    pub fn port_for_session(&self, session_id: u64) -> (r: Option<u16>)
        ensures
            r == spec_port_for(self@, session_id),
    {
        if self.ports.len() == 0 {
            None
        } else {
            let idx: usize = (session_id % (self.ports.len() as u64)) as usize;
            Some(self.ports[idx])
        }
    }
}

/// Sharding is deterministic: for one port list, routing the same session id
/// twice selects the same port.
pub proof fn lemma_sharding_deterministic(
    ports: Seq<u16>,
    session_id: u64,
    r1: Option<u16>,
    r2: Option<u16>,
)
    requires
        r1 == spec_port_for(ports, session_id),
        r2 == spec_port_for(ports, session_id),
    ensures
        r1 == r2,
{
}

/// Whenever at least one port is configured, the chosen port is one of the
/// configured ports.
pub proof fn lemma_chosen_port_configured(ports: Seq<u16>, session_id: u64)
    requires
        ports.len() > 0,
    ensures
        spec_port_for(ports, session_id) matches Some(p) && ports.contains(p),
{
    let idx = session_id as int % ports.len() as int;
    assert(0 <= idx < ports.len());
    assert(ports[idx] == spec_port_for(ports, session_id)->Some_0);
}

/// With a single configured port, every session is served by that port.
pub proof fn lemma_single_port_serves_all(ports: Seq<u16>, session_id: u64)
    requires
        ports.len() == 1,
    ensures
        spec_port_for(ports, session_id) == Some(ports[0]),
{
}

/// Routing one session never depends on any other session: two session ids
/// with equal residues modulo the table length are served by the same port,
/// and the table alone fixes the outcome.
pub proof fn lemma_routing_independent(ports: Seq<u16>, s1: u64, s2: u64)
    requires
        ports.len() > 0,
        s1 as int % ports.len() as int == s2 as int % ports.len() as int,
    ensures
        spec_port_for(ports, s1) == spec_port_for(ports, s2),
{
}

} // verus!
