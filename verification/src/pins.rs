//! Pin identities and the per-pin capability tokens.
//!
//! A [`Token`] is an ownership credential: whoever holds it has the exclusive
//! right to reconfigure that pin. The issuing [`Tokens`] set hands each
//! credential out at most once while the peripheral is enabled, and the
//! peripheral cannot be disabled until every credential is back, so no pin
//! can be mid-use when its clock stops.

use vstd::prelude::*;

use crate::bits;
use crate::init_state::{Disabled, Enabled};

verus! {

/// The identity of one physical pin: an immutable pair of port index and
/// single-bit mask. Exactly one identity exists per physical pin.
#[derive(Clone, Copy, PartialEq, Eq, Structural, Debug)]
pub struct PinId {
    /// The index of the port the pin belongs to.
    pub port: usize,
    /// The pin's bit within its port's registers.
    pub mask: u32,
}

impl PinId {
    /// A pin identity is well formed when its mask selects exactly one bit.
    pub open spec fn wf(&self) -> bool {
        exists|b: u32| b < 32 && self.mask == (1u32 << b)
    }

    /// Whether the pin lies on one of the first `num_ports` ports.
    pub open spec fn in_range(&self, num_ports: int) -> bool {
        (self.port as int) < num_ports
    }

    /// The identity of bit `bit` on port `port`.
    pub fn new(port: usize, bit: u32) -> (id: PinId)
        requires
            bit < 32,
        ensures
            id.port == port,
            id.mask == (1u32 << bit),
            id.wf(),
    {
        PinId { port, mask: 1u32 << bit }
    }
}

/// A capability credential for one pin. It can be moved but neither cloned
/// nor constructed outside the issuing token set, so at most one live token
/// exists per pin as long as every token comes out of [`Tokens::take`].
pub struct Token {
    id: PinId,
    bit: u32,
}

impl Token {
    /// The identity of the pin this token grants authority over.
    pub closed spec fn id(&self) -> PinId {
        self.id
    }

    /// The bit position of the pin within its port.
    pub closed spec fn bit(&self) -> u32 {
        self.bit
    }

    /// The internal consistency of the credential: the mask is the single
    /// bit at the stored position.
    pub open spec fn wf(&self) -> bool {
        &&& self.bit() < 32

        &&& self.id().mask == (1u32 << self.bit())
    }

    /// The port index, for callers outside the proof.
    pub fn port(&self) -> (p: usize)
        ensures
            p == self.id().port,
    {
        self.id.port
    }

    /// The single-bit mask, for callers outside the proof.
    pub fn mask(&self) -> (m: u32)
        ensures
            m == self.id().mask,
    {
        self.id.mask
    }

    /// A copy of the pin identity this token stands for.
    pub fn pin_id(&self) -> (id: PinId)
        ensures
            id == self.id(),
    {
        self.id
    }
}

/// The set of pin credentials a GPIO peripheral issues. While the peripheral
/// is enabled, each credential can be taken out at most once; disabling the
/// peripheral demands the set to be complete again.
pub struct Tokens<State> {
    present: Vec<bool>,
    num_ports: usize,
    state: State,
}

impl<State> Tokens<State> {
    /// How many ports the set covers.
    pub closed spec fn num_ports(&self) -> int {
        self.num_ports as int
    }

    /// The set's internal consistency: one slot per pin of every port.
    pub closed spec fn wf(&self) -> bool {
        self.present@.len() == (self.num_ports as int) * 32
    }

    /// Whether the credential for bit `bit` of port `port` is still in the
    /// set (has not been taken out).
    pub closed spec fn has_token(&self, port: int, bit: int) -> bool {
        &&& 0 <= port < self.num_ports()

        &&& 0 <= bit < 32

        &&& self.present@[port * 32 + bit]
    }

    /// Whether every credential is in the set.
    pub open spec fn complete(&self) -> bool {
        forall|p: int, b: int|
            0 <= p < self.num_ports() && 0 <= b < 32 ==> #[trigger] self.has_token(p, b)
    }

    /// Issue a full set: one credential per pin of `num_ports` ports.
    pub(crate) fn new_complete(num_ports: usize, state: State) -> (t: Tokens<State>)
        requires
            num_ports * 32 <= usize::MAX,
        ensures
            t.num_ports() == num_ports,
            t.wf(),
            t.complete(),
    {
        let total: usize = num_ports * 32;
        let mut present: Vec<bool> = Vec::new();
        let mut i: usize = 0;
        while i < total
            invariant
                i <= total,
                present@.len() == i,
                forall|k: int| 0 <= k < i ==> present@[k],
            decreases total - i,
        {
            present.push(true);
            i = i + 1;
        }
        Tokens { present, num_ports, state }
    }
}

impl Tokens<Enabled> {
    /// Take the credential for bit `bit` of port `port` out of the set, if it
    /// is still there. A second call for the same pin returns `None` until
    /// the credential is given back: this is what makes two live handles to
    /// one pin unrepresentable.
    pub fn take(&mut self, port: usize, bit: u32) -> (r: Option<Token>)
        requires
            old(self).wf(),
            port < old(self).num_ports(),
            bit < 32,
        ensures
            final(self).wf(),
            final(self).num_ports() == old(self).num_ports(),
            r.is_some() <==> old(self).has_token(port as int, bit as int),
            !final(self).has_token(port as int, bit as int),
            forall|p: int, b: int|
                0 <= p < old(self).num_ports() && 0 <= b < 32 && !(p == port as int && b
                    == bit as int) ==> #[trigger] final(self).has_token(p, b) == old(
                    self,
                ).has_token(p, b),
            match r {
                Some(t) => t.id() == (PinId { port, mask: 1u32 << bit }) && t.bit() == bit
                    && t.wf(),
                None => *final(self) == *old(self),
            },
    {
        let _slots: usize = self.present.len();
        let idx: usize = port * 32 + (bit as usize);
        if self.present[idx] {
            self.present[idx] = false;
            Some(Token { id: PinId { port, mask: 1u32 << bit }, bit })
        } else {
            None
        }
    }

    /// Return a credential to the set. The credential can only have come out
    /// of [`Tokens::take`], so its pin's slot is empty.
    pub fn give_back(&mut self, token: Token)
        requires
            old(self).wf(),
            token.wf(),
            (token.id().port as int) < old(self).num_ports(),
            !old(self).has_token(token.id().port as int, token.bit() as int),
        ensures
            final(self).wf(),
            final(self).num_ports() == old(self).num_ports(),
            final(self).has_token(token.id().port as int, token.bit() as int),
            forall|p: int, b: int|
                0 <= p < old(self).num_ports() && 0 <= b < 32 && !(p == token.id().port as int && b
                    == token.bit() as int) ==> #[trigger] final(self).has_token(p, b) == old(
                    self,
                ).has_token(p, b),
    {
        let _slots: usize = self.present.len();
        let idx: usize = token.id.port * 32 + (token.bit as usize);
        self.present[idx] = true;
    }

    /// Flip the whole set to the disabled state. Only the peripheral calls
    /// this, and only once every credential is back.
    pub(crate) fn switch_state(self) -> (t: Tokens<Disabled>)
        ensures
            t.num_ports() == self.num_ports(),
            t.wf() == self.wf(),
            forall|p: int, b: int|
                #![trigger t.has_token(p, b)]
                0 <= p < self.num_ports() && 0 <= b < 32 ==> t.has_token(p, b) == self.has_token(
                    p,
                    b,
                ),
    {
        Tokens { present: self.present, num_ports: self.num_ports, state: Disabled }
    }
}

impl Tokens<Disabled> {
    /// Flip the whole set to the enabled state, making its credentials
    /// available. Only the peripheral calls this.
    pub(crate) fn switch_state(self) -> (t: Tokens<Enabled>)
        ensures
            t.num_ports() == self.num_ports(),
            t.wf() == self.wf(),
            forall|p: int, b: int|
                #![trigger t.has_token(p, b)]
                0 <= p < self.num_ports() && 0 <= b < 32 ==> t.has_token(p, b) == self.has_token(
                    p,
                    b,
                ),
    {
        Tokens { present: self.present, num_ports: self.num_ports, state: Enabled }
    }
}

/// Different pins never share register bits: two distinct well-formed pin
/// identities lie on different ports or have disjoint masks. Together with
/// the register block's write-isolation lemma, this is why one pin's
/// operations can never disturb another pin's observed level.
pub proof fn lemma_distinct_pins_disjoint(a: PinId, b: PinId)
    requires
        a.wf(),
        b.wf(),
        a != b,
    ensures
        a.port != b.port || a.mask & b.mask == 0,
{
    if a.port == b.port {
        let ba = choose|x: u32| x < 32 && a.mask == (1u32 << x);
        let bb = choose|x: u32| x < 32 && b.mask == (1u32 << x);
        if ba == bb {
            assert(a.mask == b.mask);
            assert(a == b);
        } else {
            bits::lemma_single_bits_disjoint(ba, bb);
        }
    }
}

/// The two directions a runtime-reconfigurable pin can currently have.
#[derive(Clone, Copy, PartialEq, Eq, Structural, Debug)]
pub enum DynamicPinDirection {
    /// The pin currently senses its level.
    Input,
    /// The pin currently drives its level.
    Output,
}

} // verus!
