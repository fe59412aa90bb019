use vstd::prelude::*;
use crate::session_payload::SessionPayload;

verus! {

/// An IPv4 transport endpoint: address (big-endian `u32`) and port.
#[derive(Debug, Clone, Copy, PartialEq, Eq, Hash, Structural)]
pub struct Endpoint {
    pub ip: u32,
    pub port: u16,
}

/// The composite key of a live session: the client's UDP endpoint, its
/// tunnel address, and the endpoint of its control connection.
#[derive(Debug, Clone, Copy, PartialEq, Eq, Hash, Structural)]
pub struct SessionIdentity {
    pub udp: Endpoint,
    pub tunnel_ipv4: u32,
    pub tcp: Endpoint,
}

/// Two identities that share none of their three components.
pub open spec fn disjoint(a: SessionIdentity, b: SessionIdentity) -> bool {
    &&& a.udp != b.udp
    &&& a.tunnel_ipv4 != b.tunnel_ipv4
    &&& a.tcp != b.tcp
}

/// Entries whose identities pairwise share no component.
pub open spec fn pairwise_disjoint(s: Seq<(SessionIdentity, SessionPayload)>) -> bool {
    forall|i: int, j: int|
        0 <= i < s.len() && 0 <= j < s.len() && i != j ==> disjoint(#[trigger] s[i].0, #[trigger] s[j].0)
}

/// An identity that shares no component with any entry.
pub open spec fn admissible(s: Seq<(SessionIdentity, SessionPayload)>, id: SessionIdentity) -> bool {
    forall|i: int| 0 <= i < s.len() ==> disjoint(#[trigger] s[i].0, id)
}

/// The entry whose UDP endpoint is `ep`, if any.
pub open spec fn lookup_udp(s: Seq<(SessionIdentity, SessionPayload)>, ep: Endpoint) -> Option<
    (SessionIdentity, SessionPayload),
> {
    if exists|i: int| 0 <= i < s.len() && s[i].0.udp == ep {
        Some(s[choose|i: int| 0 <= i < s.len() && s[i].0.udp == ep])
    } else {
        None
    }
}

/// The entry whose tunnel address is `ip`, if any.
pub open spec fn lookup_tunnel(s: Seq<(SessionIdentity, SessionPayload)>, ip: u32) -> Option<
    (SessionIdentity, SessionPayload),
> {
    if exists|i: int| 0 <= i < s.len() && s[i].0.tunnel_ipv4 == ip {
        Some(s[choose|i: int| 0 <= i < s.len() && s[i].0.tunnel_ipv4 == ip])
    } else {
        None
    }
}

/// The entry whose control connection is `ep`, if any.
pub open spec fn lookup_tcp(s: Seq<(SessionIdentity, SessionPayload)>, ep: Endpoint) -> Option<
    (SessionIdentity, SessionPayload),
> {
    if exists|i: int| 0 <= i < s.len() && s[i].0.tcp == ep {
        Some(s[choose|i: int| 0 <= i < s.len() && s[i].0.tcp == ep])
    } else {
        None
    }
}

/// Why an insertion was refused: a component of the identity is already taken.
#[derive(Debug, Clone, Copy, PartialEq, Eq, Structural)]
pub enum RegistryError {
    UdpEndpointInUse,
    TunnelAddressInUse,
    TcpEndpointInUse,
}

/// The process-wide table of live sessions. No two entries share a UDP
/// endpoint, a tunnel address or a control connection.
pub struct SessionRegistry {
    entries: Vec<(SessionIdentity, SessionPayload)>,
}

impl View for SessionRegistry {
    type V = Seq<(SessionIdentity, SessionPayload)>;

    closed spec fn view(&self) -> Seq<(SessionIdentity, SessionPayload)> {
        self.entries@
    }
}

impl SessionRegistry {
    #[verifier::type_invariant]
    spec fn inv(&self) -> bool {
        pairwise_disjoint(self.entries@)
    }

    pub fn new() -> (r: SessionRegistry)
        ensures
            r@ == Seq::<(SessionIdentity, SessionPayload)>::empty(),
            pairwise_disjoint(r@),
    {
        SessionRegistry { entries: Vec::new() }
    }

    pub fn len(&self) -> (r: usize)
        ensures
            r == self@.len(),
    {
        self.entries.len()
    }

    /// Inserts a session unless a component of its identity is taken.
    pub fn insert(&mut self, id: SessionIdentity, value: SessionPayload) -> (r: Result<(), RegistryError>)
        ensures
            pairwise_disjoint(final(self)@),
            r is Ok == admissible(old(self)@, id),
            r is Ok ==> final(self)@ == old(self)@.push((id, value)),
            r is Err ==> final(self)@ == old(self)@,
            r == Err::<(), RegistryError>(RegistryError::UdpEndpointInUse) ==> lookup_udp(old(self)@, id.udp) is Some,
            r == Err::<(), RegistryError>(RegistryError::TunnelAddressInUse) ==> lookup_tunnel(old(self)@, id.tunnel_ipv4) is Some,
            r == Err::<(), RegistryError>(RegistryError::TcpEndpointInUse) ==> lookup_tcp(old(self)@, id.tcp) is Some,
    {
        proof {
            use_type_invariant(&*self);
        }
        let mut i: usize = 0;
        while i < self.entries.len()
            invariant
                pairwise_disjoint(self.entries@),
                i <= self.entries@.len(),
                forall|j: int| 0 <= j < i ==> disjoint(#[trigger] self.entries@[j].0, id),
            decreases self.entries@.len() - i,
        {
            let other = self.entries[i].0;
            if other.udp == id.udp {
                return Err(RegistryError::UdpEndpointInUse);
            }
            if other.tunnel_ipv4 == id.tunnel_ipv4 {
                return Err(RegistryError::TunnelAddressInUse);
            }
            if other.tcp == id.tcp {
                return Err(RegistryError::TcpEndpointInUse);
            }
            i = i + 1;
        }
        let mut entries: Vec<(SessionIdentity, SessionPayload)> = Vec::new();
        std::mem::swap(&mut entries, &mut self.entries);
        entries.push((id, value));
        proof {
            let s = entries@;
            assert forall|a: int, b: int|
                0 <= a < s.len() && 0 <= b < s.len() && a != b implies disjoint(#[trigger] s[a].0, #[trigger] s[b].0) by {
                if a < old(self)@.len() && b < old(self)@.len() {
                    assert(s[a] == old(self)@[a] && s[b] == old(self)@[b]);
                } else if a < old(self)@.len() {
                    assert(s[a] == old(self)@[a]);
                } else {
                    assert(s[b] == old(self)@[b]);
                }
            }
        }
        self.entries = entries;
        Ok(())
    }

    /// The position of the entry with the given identity, if any.
    fn position(&self, id: &SessionIdentity) -> (r: Option<usize>)
        ensures
            r matches Some(i) ==> i < self@.len() && self@[i as int].0 == *id,
            r is None ==> forall|i: int| 0 <= i < self@.len() ==> (#[trigger] self@[i]).0 != *id,
    {
        let mut i: usize = 0;
        while i < self.entries.len()
            invariant
                i <= self.entries@.len(),
                forall|j: int| 0 <= j < i ==> (#[trigger] self.entries@[j]).0 != *id,
            decreases self.entries@.len() - i,
        {
            if self.entries[i].0 == *id {
                return Some(i);
            }
            i = i + 1;
        }
        None
    }

    /// Removes the session with the given identity, and returns what it held.
    pub fn remove(&mut self, id: &SessionIdentity) -> (r: Option<SessionPayload>)
        ensures
            pairwise_disjoint(final(self)@),
            r is Some == exists|i: int| 0 <= i < old(self)@.len() && (#[trigger] old(self)@[i]).0 == *id,
            r matches Some(p) ==> (exists|i: int|
                0 <= i < old(self)@.len() && (#[trigger] old(self)@[i]) == (*id, p) && final(self)@ == old(self)@.remove(i)),
            r is None ==> final(self)@ == old(self)@,
    {
        proof {
            use_type_invariant(&*self);
        }
        let i = match self.position(id) {
            Some(i) => i,
            None => return None,
        };
        let mut entries: Vec<(SessionIdentity, SessionPayload)> = Vec::new();
        std::mem::swap(&mut entries, &mut self.entries);
        let (_, value) = entries.remove(i);
        proof {
            let s = entries@;
            let o = old(self)@;
            assert forall|a: int, b: int|
                0 <= a < s.len() && 0 <= b < s.len() && a != b implies disjoint(#[trigger] s[a].0, #[trigger] s[b].0) by {
                let oa = if a < i { a } else { a + 1 };
                let ob = if b < i { b } else { b + 1 };
                assert(s[a] == o[oa] && s[b] == o[ob]);
            }
            assert(o[i as int] == (*id, value));
        }
        self.entries = entries;
        Some(value)
    }

    /// The session whose client UDP endpoint is `ep`.
    pub fn find_by_udp_endpoint(&self, ep: Endpoint) -> (r: Option<(SessionIdentity, &SessionPayload)>)
        ensures
            r is Some == lookup_udp(self@, ep) is Some,
            r matches Some((id, p)) ==> lookup_udp(self@, ep) == Some((id, *p)),
    {
        proof {
            use_type_invariant(self);
        }
        let mut i: usize = 0;
        while i < self.entries.len()
            invariant
                pairwise_disjoint(self.entries@),
                i <= self.entries@.len(),
                forall|j: int| 0 <= j < i ==> (#[trigger] self.entries@[j]).0.udp != ep,
            decreases self.entries@.len() - i,
        {
            if self.entries[i].0.udp == ep {
                proof {
                    let s = self@;
                    assert(s[i as int].0.udp == ep);
                    let c = choose|k: int| 0 <= k < s.len() && s[k].0.udp == ep;
                    if c != i {
                        assert(disjoint(s[c].0, s[i as int].0));
                    }
                }
                return Some((self.entries[i].0, &self.entries[i].1));
            }
            i = i + 1;
        }
        None
    }

    /// The session whose tunnel address is `ip`.
    pub fn find_by_tunnel_ipv4(&self, ip: u32) -> (r: Option<(SessionIdentity, &SessionPayload)>)
        ensures
            r is Some == lookup_tunnel(self@, ip) is Some,
            r matches Some((id, p)) ==> lookup_tunnel(self@, ip) == Some((id, *p)),
    {
        proof {
            use_type_invariant(self);
        }
        let mut i: usize = 0;
        while i < self.entries.len()
            invariant
                pairwise_disjoint(self.entries@),
                i <= self.entries@.len(),
                forall|j: int| 0 <= j < i ==> (#[trigger] self.entries@[j]).0.tunnel_ipv4 != ip,
            decreases self.entries@.len() - i,
        {
            if self.entries[i].0.tunnel_ipv4 == ip {
                proof {
                    let s = self@;
                    assert(s[i as int].0.tunnel_ipv4 == ip);
                    let c = choose|k: int| 0 <= k < s.len() && s[k].0.tunnel_ipv4 == ip;
                    if c != i {
                        assert(disjoint(s[c].0, s[i as int].0));
                    }
                }
                return Some((self.entries[i].0, &self.entries[i].1));
            }
            i = i + 1;
        }
        None
    }

    /// The identity of the session whose control connection is `ep`.
    pub fn find_by_tcp_endpoint(&self, ep: Endpoint) -> (r: Option<SessionIdentity>)
        ensures
            r is Some == lookup_tcp(self@, ep) is Some,
            r matches Some(id) ==> lookup_tcp(self@, ep) matches Some(e) && e.0 == id,
    {
        proof {
            use_type_invariant(self);
        }
        let mut i: usize = 0;
        while i < self.entries.len()
            invariant
                pairwise_disjoint(self.entries@),
                i <= self.entries@.len(),
                forall|j: int| 0 <= j < i ==> (#[trigger] self.entries@[j]).0.tcp != ep,
            decreases self.entries@.len() - i,
        {
            if self.entries[i].0.tcp == ep {
                proof {
                    let s = self@;
                    assert(s[i as int].0.tcp == ep);
                    let c = choose|k: int| 0 <= k < s.len() && s[k].0.tcp == ep;
                    if c != i {
                        assert(disjoint(s[c].0, s[i as int].0));
                    }
                }
                return Some(self.entries[i].0);
            }
            i = i + 1;
        }
        None
    }

    /// Removes the session that a closing control connection owns, if any,
    /// and returns its identity.
    pub fn evict_connection(&mut self, tcp: Endpoint) -> (r: Option<SessionIdentity>)
        ensures
            pairwise_disjoint(final(self)@),
            r is Some == lookup_tcp(old(self)@, tcp) is Some,
            r matches Some(id) ==> (lookup_tcp(old(self)@, tcp) matches Some(e) && e.0 == id
                && exists|i: int| 0 <= i < old(self)@.len() && (#[trigger] old(self)@[i]) == e
                    && final(self)@ == old(self)@.remove(i)),
            r is None ==> final(self)@ == old(self)@,
            lookup_tcp(final(self)@, tcp) is None,
    {
        proof {
            use_type_invariant(&*self);
        }
        match self.find_by_tcp_endpoint(tcp) {
            Some(id) => {
                let removed = self.remove(&id);
                proof {
                    use_type_invariant(&*self);
                    let o = old(self)@;
                    let c = choose|k: int| 0 <= k < o.len() && o[k].0.tcp == tcp;
                    let i = choose|i: int| 0 <= i < o.len() && (#[trigger] o[i]) == (id, removed->0) && self@ == o.remove(i);
                    if i != c {
                        assert(disjoint(o[i].0, o[c].0));
                    }
                    assert forall|k: int| 0 <= k < self@.len() implies (#[trigger] self@[k]).0.tcp != tcp by {
                        let ok = if k < i { k } else { k + 1 };
                        assert(self@[k] == o[ok]);
                        assert(disjoint(o[ok].0, o[i].0));
                    }
                }
                Some(id)
            },
            None => None,
        }
    }
}

/// No two live sessions share a tunnel address: every registry that
/// construction and the mutators leave is pairwise disjoint, and in such a
/// table two distinct entries have distinct tunnel addresses.
pub proof fn lemma_tunnel_addresses_unique(entries: Seq<(SessionIdentity, SessionPayload)>, i: int, j: int)
    requires
        pairwise_disjoint(entries),
        0 <= i < entries.len(),
        0 <= j < entries.len(),
        i != j,
    ensures
        entries[i].0.tunnel_ipv4 != entries[j].0.tunnel_ipv4,
{
    assert(disjoint(entries[i].0, entries[j].0));
}

} // verus!
