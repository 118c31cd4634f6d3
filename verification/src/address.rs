use vstd::prelude::*;

use crate::identity::NodeIdentity;

verus! {

/// One protocol segment of a structured network address.
#[derive(Debug, PartialEq, Eq)]
pub enum Segment {
    /// An IPv4 host: a dotted quad, or a name the dialer resolves first.
    Ip4(String),
    /// An IPv6 host.
    Ip6(String),
    /// A stream-transport endpoint on the given port.
    Tcp(u16),
    /// A datagram-transport endpoint on the given port.
    Udp(u16),
    /// The secure datagram transport layered over the datagram endpoint.
    QuicV1,
    /// A circuit through the relay that the preceding segments reach.
    P2pCircuit,
    /// The identity (base58 text) of the peer the address denotes.
    P2p(String),
}

/// The mathematical value of a segment: the same shape over character
/// sequences.
pub enum SegView {
    Ip4(Seq<char>),
    Ip6(Seq<char>),
    Tcp(u16),
    Udp(u16),
    QuicV1,
    P2pCircuit,
    P2p(Seq<char>),
}

impl View for Segment {
    type V = SegView;

    open spec fn view(&self) -> SegView {
        match self {
            Segment::Ip4(h) => SegView::Ip4(h@),
            Segment::Ip6(h) => SegView::Ip6(h@),
            Segment::Tcp(p) => SegView::Tcp(*p),
            Segment::Udp(p) => SegView::Udp(*p),
            Segment::QuicV1 => SegView::QuicV1,
            Segment::P2pCircuit => SegView::P2pCircuit,
            Segment::P2p(id) => SegView::P2p(id@),
        }
    }
}

/// A structured, protocol-stack-tagged network address: a stack of
/// segments, composed and decomposed at the tail.
#[derive(Debug, PartialEq, Eq)]
pub struct NetworkAddress {
    pub segments: Vec<Segment>,
}

impl View for NetworkAddress {
    type V = Seq<SegView>;

    open spec fn view(&self) -> Seq<SegView> {
        self.segments@.map(|i: int, s: Segment| s@)
    }
}

impl Clone for Segment {
    fn clone(&self) -> (res: Self)
        ensures
            res == self,
    {
        match self {
            Segment::Ip4(h) => Segment::Ip4(h.clone()),
            Segment::Ip6(h) => Segment::Ip6(h.clone()),
            Segment::Tcp(p) => Segment::Tcp(*p),
            Segment::Udp(p) => Segment::Udp(*p),
            Segment::QuicV1 => Segment::QuicV1,
            Segment::P2pCircuit => Segment::P2pCircuit,
            Segment::P2p(id) => Segment::P2p(id.clone()),
        }
    }
}

impl Clone for NetworkAddress {
    fn clone(&self) -> (res: Self)
        ensures
            res.segments@ =~= self.segments@,
            res@ =~= self@,
    {
        let mut segments: Vec<Segment> = Vec::new();
        let mut i: usize = 0;
        while i < self.segments.len()
            invariant
                i <= self.segments@.len(),
                segments@ =~= self.segments@.take(i as int),
            decreases self.segments@.len() - i,
        {
            segments.push(self.segments[i].clone());
            proof {
                assert(self.segments@.take((i + 1) as int) =~= self.segments@.take(
                    i as int,
                ).push(self.segments@[i as int]));
            }
            i += 1;
        }
        proof {
            assert(self.segments@.take(self.segments@.len() as int) =~= self.segments@);
        }
        NetworkAddress { segments }
    }
}

impl NetworkAddress {
    /// The address with no segments.
    pub fn empty() -> (a: NetworkAddress)
        ensures
            a@ =~= Seq::<SegView>::empty(),
    {
        NetworkAddress { segments: Vec::new() }
    }

    pub fn len(&self) -> (n: usize)
        ensures
            n == self@.len(),
    {
        self.segments.len()
    }

    /// Compose: append one segment at the tail.
    pub fn with_segment(self, seg: Segment) -> (a: NetworkAddress)
        ensures
            a@ =~= self@.push(seg@),
    {
        let mut segments = self.segments;
        segments.push(seg);
        NetworkAddress { segments }
    }

    /// Decompose: strip the tail segment, if there is one.
    pub fn strip_last(&mut self) -> (r: Option<Segment>)
        ensures
            old(self)@.len() == 0 ==> r is None && final(self)@ =~= old(self)@,
            old(self)@.len() > 0 ==> (r matches Some(seg) && seg@ == old(self)@.last()
                && final(self)@ =~= old(self)@.drop_last()),
    {
        self.segments.pop()
    }
}

/// What is left of an address after stripping `n` segments from its tail.
pub open spec fn strip_tail(addr: Seq<SegView>, n: nat) -> Seq<SegView> {
    if n <= addr.len() {
        addr.take(addr.len() - n)
    } else {
        Seq::empty()
    }
}

/// Composition and decomposition round-trip: appending any run of segments
/// to an address and then stripping the same number of segments from the
/// tail returns the original address.
pub proof fn lemma_compose_then_strip(addr: Seq<SegView>, appended: Seq<SegView>)
    ensures
        strip_tail(addr + appended, appended.len()) =~= addr,
{
}

/// The one-segment round-trip, as `with_segment` and `strip_last` state it:
/// pushing a segment and dropping the tail returns the original address.
pub proof fn lemma_push_then_drop_last(addr: Seq<SegView>, seg: SegView)
    ensures
        addr.push(seg).drop_last() =~= addr,
        addr.push(seg).last() == seg,
{
}

/// The decimal digit character for a value below ten.
pub open spec fn dec_digit(d: nat) -> char {
    if d == 0 {
        '0'
    } else if d == 1 {
        '1'
    } else if d == 2 {
        '2'
    } else if d == 3 {
        '3'
    } else if d == 4 {
        '4'
    } else if d == 5 {
        '5'
    } else if d == 6 {
        '6'
    } else if d == 7 {
        '7'
    } else if d == 8 {
        '8'
    } else {
        '9'
    }
}

/// The decimal text of a number, most significant digit first, with no
/// leading zeroes (a bare zero for zero).
pub open spec fn dec_rep(n: nat) -> Seq<char>
    decreases n,
{
    if n < 10 {
        seq![dec_digit(n)]
    } else {
        dec_rep(n / 10).push(dec_digit(n % 10))
    }
}

fn digit_str(d: u64) -> (s: &'static str)
    requires
        d < 10,
    ensures
        s@ =~= seq![dec_digit(d as nat)],
{
    proof {
        reveal_strlit("0");
        reveal_strlit("1");
        reveal_strlit("2");
        reveal_strlit("3");
        reveal_strlit("4");
        reveal_strlit("5");
        reveal_strlit("6");
        reveal_strlit("7");
        reveal_strlit("8");
        reveal_strlit("9");
    }
    match d {
        0 => "0",
        1 => "1",
        2 => "2",
        3 => "3",
        4 => "4",
        5 => "5",
        6 => "6",
        7 => "7",
        8 => "8",
        _ => "9",
    }
}

/// The decimal text of a number.
pub fn u64_to_dec(n: u64) -> (s: String)
    ensures
        s@ =~= dec_rep(n as nat),
    decreases n,
{
    if n < 10 {
        digit_str(n).to_owned()
    } else {
        let mut s = u64_to_dec(n / 10);
        s.append(digit_str(n % 10));
        s
    }
}

/// The text of one segment, as it stands in a rendered address.
pub open spec fn render_seg(seg: SegView) -> Seq<char> {
    match seg {
        SegView::Ip4(h) => "/ip4/"@ + h,
        SegView::Ip6(h) => "/ip6/"@ + h,
        SegView::Tcp(p) => "/tcp/"@ + dec_rep(p as nat),
        SegView::Udp(p) => "/udp/"@ + dec_rep(p as nat),
        SegView::QuicV1 => "/quic-v1"@,
        SegView::P2pCircuit => "/p2p-circuit"@,
        SegView::P2p(id) => "/p2p/"@ + id,
    }
}

/// The text of a whole address: its segments' texts, in order.
pub open spec fn render_addr(segs: Seq<SegView>) -> Seq<char>
    decreases segs.len(),
{
    if segs.len() == 0 {
        Seq::empty()
    } else {
        render_addr(segs.drop_last()) + render_seg(segs.last())
    }
}

fn render_segment(seg: &Segment) -> (s: String)
    ensures
        s@ =~= render_seg(seg@),
{
    match seg {
        Segment::Ip4(h) => {
            let mut s = ("/ip4/").to_owned();
            s.append(h.as_str());
            s
        },
        Segment::Ip6(h) => {
            let mut s = ("/ip6/").to_owned();
            s.append(h.as_str());
            s
        },
        Segment::Tcp(p) => {
            let mut s = ("/tcp/").to_owned();
            let digits = u64_to_dec(*p as u64);
            s.append(digits.as_str());
            s
        },
        Segment::Udp(p) => {
            let mut s = ("/udp/").to_owned();
            let digits = u64_to_dec(*p as u64);
            s.append(digits.as_str());
            s
        },
        Segment::QuicV1 => ("/quic-v1").to_owned(),
        Segment::P2pCircuit => ("/p2p-circuit").to_owned(),
        Segment::P2p(id) => {
            let mut s = ("/p2p/").to_owned();
            s.append(id.as_str());
            s
        },
    }
}

impl NetworkAddress {
    /// Render the address as text, segment by segment.
    pub fn render(&self) -> (s: String)
        ensures
            s@ =~= render_addr(self@),
    {
        let mut s = String::new();
        let mut i: usize = 0;
        while i < self.segments.len()
            invariant
                i <= self.segments.len(),
                s@ =~= render_addr(self@.take(i as int)),
            decreases self.segments.len() - i,
        {
            let piece = render_segment(&self.segments[i]);
            s.append(piece.as_str());
            proof {
                let taken = self@.take((i + 1) as int);
                assert(taken.drop_last() =~= self@.take(i as int));
                assert(taken.last() == self@[i as int]);
            }
            i += 1;
        }
        proof {
            assert(self@.take(self.segments@.len() as int) =~= self@);
        }
        s
    }
}

/// Whether the address grammar of the transport layer accepts a piece of
/// text. Parsing is a pure function of the text alone.
pub uninterp spec fn multiaddr_accepts(s: Seq<char>) -> bool;

/// Relies on `Multiaddr::from_str` (through `str::parse`): whether a piece
/// of text is a well-formed multiaddress is decided by the text alone.
#[verifier::external_body]
fn multiaddr_parses(s: &str) -> (r: bool)
    ensures
        r == multiaddr_accepts(s@),
{
    s.parse::<libp2p::Multiaddr>().is_ok()
}

impl NetworkAddress {
    /// Render the address and hold the text to the transport layer's
    /// address grammar: the text comes back only if the grammar accepts
    /// it, so a caller that dials it cannot trip on a malformed address.
    pub fn checked_render(&self) -> (r: Option<String>)
        ensures
            r matches Some(s) ==> s@ =~= render_addr(self@) && multiaddr_accepts(s@),
            r is None ==> !multiaddr_accepts(render_addr(self@)),
    {
        let s = self.render();
        if multiaddr_parses(s.as_str()) {
            Some(s)
        } else {
            None
        }
    }
}

/// The relay endpoint as the dialer composes it: the host over IPv4 or
/// IPv6, then the relay's stream-transport port.
pub fn relay_endpoint(host: &str, port: u16, use_ipv6: bool) -> (a: NetworkAddress)
    ensures
        use_ipv6 ==> a@ =~= seq![SegView::Ip6(host@), SegView::Tcp(port)],
        !use_ipv6 ==> a@ =~= seq![SegView::Ip4(host@), SegView::Tcp(port)],
{
    let ip = if use_ipv6 {
        Segment::Ip6(host.to_owned())
    } else {
        Segment::Ip4(host.to_owned())
    };
    let mut segments: Vec<Segment> = Vec::new();
    segments.push(ip);
    segments.push(Segment::Tcp(port));
    NetworkAddress { segments }
}

/// The address a dialer uses to reach a remote peer through the relay:
/// the relay's address, the circuit marker, then the remote identity.
pub fn circuit_dial_address(relay: NetworkAddress, remote: &NodeIdentity) -> (a: NetworkAddress)
    ensures
        a@ =~= relay@.push(SegView::P2pCircuit).push(SegView::P2p(remote.peer_id@)),
{
    relay.with_segment(Segment::P2pCircuit).with_segment(Segment::P2p(remote.peer_id.clone()))
}

/// The address a listener reserves on: the relay's address, then the
/// circuit marker.
pub fn circuit_listen_address(relay: NetworkAddress) -> (a: NetworkAddress)
    ensures
        a@ =~= relay@.push(SegView::P2pCircuit),
{
    relay.with_segment(Segment::P2pCircuit)
}

} // verus!
