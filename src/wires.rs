//! The graph's wires and the connection protocol.
//!
//! A wire runs from an output pin to an input pin. An output pin may drive
//! any number of wires; an input pin is fed by at most one. The host decides
//! on each new wire ([`ConnectVerdict`]); [`Wires::apply_connection`] carries
//! the decision out without ever leaving an input pin with two wires.
use vstd::prelude::*;

verus! {

/// An output pin: the node's identifier and the output's index.
#[derive(Clone, Copy, Debug, PartialEq, Eq, Hash, Structural)]
pub struct OutPinId {
    pub node: u64,
    pub output: u64,
}

/// An input pin: the node's identifier and the input's index.
#[derive(Clone, Copy, Debug, PartialEq, Eq, Hash, Structural)]
pub struct InPinId {
    pub node: u64,
    pub input: u64,
}

/// A wire from an output pin to an input pin.
#[derive(Clone, Copy, Debug, PartialEq, Eq, Hash, Structural)]
pub struct Wire {
    pub out_pin: OutPinId,
    pub in_pin: InPinId,
}

/// The host's decision on a wire that a gesture asks for.
#[derive(Clone, Copy, Debug, PartialEq, Eq, Structural)]
pub enum ConnectVerdict {
    /// Add the wire if its input pin is free; leave the wires as they are otherwise.
    Accept,
    /// Disconnect whatever feeds the input pin, then add the wire.
    Replace,
    /// Add nothing.
    Reject,
}

/// Some wire of `wires` feeds `pin`.
pub open spec fn has_incoming(wires: Set<Wire>, pin: InPinId) -> bool {
    exists|w: Wire| #[trigger] wires.contains(w) && w.in_pin == pin
}

/// `wires` without the wires that feed `pin`.
pub open spec fn without_incoming(wires: Set<Wire>, pin: InPinId) -> Set<Wire> {
    wires.filter(|w: Wire| w.in_pin != pin)
}

/// No input pin is fed by two wires.
pub open spec fn single_incoming(wires: Set<Wire>) -> bool {
    forall|a: Wire, b: Wire|
        #[trigger] wires.contains(a) && #[trigger] wires.contains(b) && a.in_pin == b.in_pin ==> a
            == b
}

/// The wires after the host's `verdict` on `wire` is carried out.
pub open spec fn connection_result(wires: Set<Wire>, wire: Wire, verdict: ConnectVerdict) -> Set<Wire> {
    match verdict {
        ConnectVerdict::Accept => if has_incoming(wires, wire.in_pin) {
            wires
        } else {
            wires.insert(wire)
        },
        ConnectVerdict::Replace => without_incoming(wires, wire.in_pin).insert(wire),
        ConnectVerdict::Reject => wires,
    }
}

/// The wires after carrying out each decision of `requests` in turn, from no wires.
pub open spec fn connect_all(requests: Seq<(Wire, ConnectVerdict)>) -> Set<Wire>
    decreases requests.len(),
{
    if requests.len() == 0 {
        Set::empty()
    } else {
        let (wire, verdict) = requests.last();
        connection_result(connect_all(requests.drop_last()), wire, verdict)
    }
}

/// Carrying out a decision keeps every input pin fed by at most one wire.
pub proof fn lemma_connection_keeps_single_incoming(
    wires: Set<Wire>,
    wire: Wire,
    verdict: ConnectVerdict,
)
    requires
        single_incoming(wires),
    ensures
        single_incoming(connection_result(wires, wire, verdict)),
{
    let r = connection_result(wires, wire, verdict);
    assert forall|a: Wire, b: Wire|
        #[trigger] r.contains(a) && #[trigger] r.contains(b) && a.in_pin == b.in_pin implies a
        == b by {
        if verdict == ConnectVerdict::Accept && !has_incoming(wires, wire.in_pin) {
            if a != wire && b == wire {
                assert(wires.contains(a) && a.in_pin == wire.in_pin);
            }
            if a == wire && b != wire {
                assert(wires.contains(b) && b.in_pin == wire.in_pin);
            }
        }
    }
}

/// After any sequence of connections carried out through the protocol, every
/// input pin is fed by at most one wire.
pub proof fn lemma_connect_all_single_incoming(requests: Seq<(Wire, ConnectVerdict)>)
    ensures
        single_incoming(connect_all(requests)),
    decreases requests.len(),
{
    if requests.len() > 0 {
        lemma_connect_all_single_incoming(requests.drop_last());
        let (wire, verdict) = requests.last();
        lemma_connection_keeps_single_incoming(connect_all(requests.drop_last()), wire, verdict);
    }
}

/// Removing an entry of a sequence without duplicates removes exactly that
/// entry from its set.
pub(crate) proof fn lemma_remove_to_set<A>(s: Seq<A>, i: int)
    requires
        s.no_duplicates(),
        0 <= i < s.len(),
    ensures
        s.remove(i).to_set() =~= s.to_set().remove(s[i]),
{
    let r = s.remove(i);
    assert forall|x: A| r.to_set().contains(x) <==> s.to_set().remove(s[i]).contains(x) by {
        if r.to_set().contains(x) {
            assert(r.contains(x));
            let j = choose|j: int| 0 <= j < r.len() && r[j] == x;
            if j < i {
                assert(s[j] == x);
            } else {
                assert(s[j + 1] == x);
            }
            assert(s.contains(x));
        }
        if s.to_set().remove(s[i]).contains(x) {
            assert(s.contains(x));
            let j = choose|j: int| 0 <= j < s.len() && s[j] == x;
            assert(j != i);
            if j < i {
                assert(r[j] == x);
            } else {
                assert(r[j - 1] == x);
            }
            assert(r.contains(x));
        }
    }
}

/// The wires of a graph.
pub struct Wires {
    wires: Vec<Wire>,
}

impl View for Wires {
    type V = Set<Wire>;

    closed spec fn view(&self) -> Set<Wire> {
        self.wires@.to_set()
    }
}

impl Wires {
    /// Well-formed: each wire is stored once and no input pin is fed twice.
    pub closed spec fn wf(&self) -> bool {
        self.wires@.no_duplicates() && single_incoming(self@)
    }

    /// A well-formed set of wires has no input pin fed by two wires.
    pub proof fn lemma_wf_single_incoming(&self)
        requires
            self.wf(),
        ensures
            single_incoming(self@),
    {
    }

    /// No wires.
    pub fn new() -> (r: Wires)
        ensures
            r.wf(),
            r@ == Set::<Wire>::empty(),
    {
        let r = Wires { wires: Vec::new() };
        assert(r@ =~= Set::<Wire>::empty());
        r
    }

    /// The number of wires.
    pub fn len(&self) -> (r: usize)
        requires
            self.wf(),
        ensures
            r == self@.len(),
    {
        proof {
            self.wires@.unique_seq_to_set();
        }
        self.wires.len()
    }

    /// Where the wire into `pin` is stored, if there is one.
    fn find_incoming(&self, pin: InPinId) -> (r: Option<usize>)
        requires
            self.wf(),
        ensures
            match r {
                Some(i) => i < self.wires@.len() && self.wires@[i as int].in_pin == pin
                    && has_incoming(self@, pin),
                None => !has_incoming(self@, pin),
            },
    {
        let mut i: usize = 0;
        while i < self.wires.len()
            invariant
                i <= self.wires@.len(),
                forall|j: int| 0 <= j < i ==> self.wires@[j].in_pin != pin,
            decreases self.wires@.len() - i,
        {
            if self.wires[i].in_pin == pin {
                proof {
                    assert(self.wires@.contains(self.wires@[i as int]));
                    assert(self@.contains(self.wires@[i as int]));
                }
                return Some(i);
            }
            i = i + 1;
        }
        proof {
            if has_incoming(self@, pin) {
                let w = choose|w: Wire| self@.contains(w) && w.in_pin == pin;
                assert(self.wires@.contains(w));
            }
        }
        None
    }

    /// The output pin that feeds `pin`, if any.
    pub fn wire_into(&self, pin: InPinId) -> (r: Option<OutPinId>)
        requires
            self.wf(),
        ensures
            match r {
                Some(out_pin) => self@.contains(Wire { out_pin, in_pin: pin }),
                None => !has_incoming(self@, pin),
            },
    {
        match self.find_incoming(pin) {
            Some(i) => {
                proof {
                    assert(self.wires@.contains(self.wires@[i as int]));
                }
                Some(self.wires[i].out_pin)
            },
            None => None,
        }
    }

    /// Whether `wire` is present.
    pub fn contains(&self, wire: Wire) -> (r: bool)
        requires
            self.wf(),
        ensures
            r == self@.contains(wire),
    {
        match self.wire_into(wire.in_pin) {
            Some(out_pin) => out_pin == wire.out_pin,
            None => false,
        }
    }

    /// Adds `wire` if its input pin is free; returns whether it was added.
    pub fn connect(&mut self, wire: Wire) -> (r: bool)
        requires
            old(self).wf(),
        ensures
            final(self).wf(),
            r == !has_incoming(old(self)@, wire.in_pin),
            final(self)@ == (if r {
                old(self)@.insert(wire)
            } else {
                old(self)@
            }),
    {
        match self.find_incoming(wire.in_pin) {
            Some(_) => false,
            None => {
                proof {
                    self.wires@.lemma_push_to_set_commute(wire);
                    if self.wires@.contains(wire) {
                        assert(self@.contains(wire));
                    }
                }
                self.wires.push(wire);
                proof {
                    lemma_connection_keeps_single_incoming(
                        old(self)@,
                        wire,
                        ConnectVerdict::Accept,
                    );
                }
                true
            },
        }
    }

    /// Removes the wire into `pin`, if any; returns whether one was removed.
    pub fn drop_inputs(&mut self, pin: InPinId) -> (r: bool)
        requires
            old(self).wf(),
        ensures
            final(self).wf(),
            r == has_incoming(old(self)@, pin),
            final(self)@ == without_incoming(old(self)@, pin),
    {
        match self.find_incoming(pin) {
            Some(i) => {
                let ghost w = self.wires@[i as int];
                proof {
                    lemma_remove_to_set(self.wires@, i as int);
                    assert(self.wires@.contains(w));
                }
                self.wires.remove(i);
                proof {
                    assert(final(self)@ =~= without_incoming(old(self)@, pin)) by {
                        assert forall|x: Wire| old(self)@.contains(x) && x.in_pin == pin implies x
                            == w by {}
                    }
                }
                true
            },
            None => {
                assert(self@ =~= without_incoming(self@, pin));
                false
            },
        }
    }

    /// Removes `wire`, if present; returns whether it was removed.
    pub fn disconnect(&mut self, wire: Wire) -> (r: bool)
        requires
            old(self).wf(),
        ensures
            final(self).wf(),
            r == old(self)@.contains(wire),
            final(self)@ == old(self)@.remove(wire),
    {
        if self.contains(wire) {
            self.drop_inputs(wire.in_pin);
            assert(self@ =~= old(self)@.remove(wire));
            true
        } else {
            assert(self@ =~= old(self)@.remove(wire));
            false
        }
    }

    /// Carries out the host's `verdict` on `wire`; returns whether `wire` was added.
    pub fn apply_connection(&mut self, wire: Wire, verdict: ConnectVerdict) -> (r: bool)
        requires
            old(self).wf(),
        ensures
            final(self).wf(),
            final(self)@ == connection_result(old(self)@, wire, verdict),
            r == (verdict == ConnectVerdict::Replace || verdict == ConnectVerdict::Accept
                && !has_incoming(old(self)@, wire.in_pin)),
    {
        match verdict {
            ConnectVerdict::Accept => self.connect(wire),
            ConnectVerdict::Replace => {
                self.drop_inputs(wire.in_pin);
                let added = self.connect(wire);
                assert(added);
                true
            },
            ConnectVerdict::Reject => false,
        }
    }
}

} // verus!
