//! The owner of the I/O port space. A driver gets a port only by claiming
//! it here, and no port can be claimed twice.

use vstd::prelude::*;

verus! {

/// The capability to read and write one I/O port.
pub struct Port {
    number: u16,
}

impl Port {
    /// The port's number.
    pub closed spec fn view(&self) -> u16 {
        self.number
    }

    /// The port's number.
    pub fn number(&self) -> (r: u16)
        ensures
            r == self@,
    {
        self.number
    }
}

/// Why a claim was refused.
#[derive(Clone, Copy, Debug, PartialEq, Eq, Structural)]
pub enum PortError {
    /// The port was handed out before.
    AlreadyClaimed(u16),
}

/// The sole holder of the I/O port space.
pub struct PortManager {
    claimed: Vec<u16>,
}

impl PortManager {
    /// The ports handed out so far.
    pub closed spec fn view(&self) -> Set<u16> {
        Set::new(|p: u16| self.claimed@.contains(p))
    }

    /// An owner that has handed out no port.
    pub fn new() -> (r: Self)
        ensures
            r@ == Set::<u16>::empty(),
    {
        let r = PortManager { claimed: Vec::new() };
        assert(r@ =~= Set::<u16>::empty());
        r
    }

    /// Whether `port` was handed out.
    pub fn is_claimed(&self, port: u16) -> (r: bool)
        ensures
            r == self@.contains(port),
    {
        let mut i: usize = 0;
        while i < self.claimed.len()
            invariant
                i <= self.claimed@.len(),
                forall|j: int| 0 <= j < i ==> self.claimed@[j] != port,
            decreases self.claimed@.len() - i,
        {
            if self.claimed[i] == port {
                return true;
            }
            i = i + 1;
        }
        false
    }

    /// Hands out a port that nobody holds yet.
    pub fn claim(&mut self, port: u16) -> (r: Port)
        requires
            !old(self)@.contains(port),
        ensures
            r@ == port,
            final(self)@ == old(self)@.insert(port),
    {
        self.claimed.push(port);
        assert forall|p: u16| #[trigger] self.claimed@.contains(p) <==> (old(self).claimed@.contains(p)
            || p == port) by {
            if self.claimed@.contains(p) && p != port {
                let j = choose|j: int| 0 <= j < self.claimed@.len() && self.claimed@[j] == p;
                assert(old(self).claimed@[j] == p);
            }
            if p == port {
                assert(self.claimed@[self.claimed@.len() - 1] == p);
            }
            if old(self).claimed@.contains(p) {
                let j = choose|j: int| 0 <= j < old(self).claimed@.len() && old(self).claimed@[j] == p;
                assert(self.claimed@[j] == p);
            }
        }
        assert(self@ =~= old(self)@.insert(port));
        Port { number: port }
    }

    /// Hands out `port`, or reports that it is held already.
    pub fn try_claim(&mut self, port: u16) -> (r: Result<Port, PortError>)
        ensures
            r is Ok <==> !old(self)@.contains(port),
            r is Ok ==> r->Ok_0@ == port && final(self)@ == old(self)@.insert(port),
            r is Err ==> r->Err_0 == PortError::AlreadyClaimed(port) && final(self)@ == old(
                self,
            )@,
    {
        if self.is_claimed(port) {
            Err(PortError::AlreadyClaimed(port))
        } else {
            Ok(self.claim(port))
        }
    }
}

} // verus!
