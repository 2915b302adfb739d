//! A captured network packet: a zero-copy view into engine-owned memory, or
//! an explicit owned copy.

use std::rc::Rc;
use vstd::prelude::*;
use vstd::slice::slice_to_vec;

verus! {

/// A network packet delivered by the capture engine.
pub enum Packet<'p> {
    /// Borrowed content is wrapped into `Rc` to advise the compiler that
    /// `Packet` is neither `Sync` nor `Send`. The engine owns the borrowed
    /// memory, and the next poll on the same session may overwrite it, so a
    /// borrowed packet must not be retained past that poll.
    Borrowed(Rc<&'p [u8]>),
    /// Owned version of the packet: the contents have been explicitly
    /// copied, so it stays valid across later polls.
    Owned(Vec<u8>),
}

impl<'p> View for Packet<'p> {
    type V = Seq<u8>;

    open spec fn view(&self) -> Seq<u8> {
        match self {
            Packet::Borrowed(packet) => packet@,
            Packet::Owned(packet) => packet@,
        }
    }
}

impl<'p> Packet<'p> {
    /// Make a borrowed `Packet` out of the buffer a poll returned. The
    /// packet's bytes are exactly the buffer's bytes.
    pub fn from_slice(buf: &'p [u8]) -> (p: Packet<'p>)
        ensures
            p is Borrowed,
            p@ == buf@,
    {
        Packet::Borrowed(Rc::new(buf))
    }

    /// Copy the packet's bytes into a fresh vector.
    pub fn to_vec(&self) -> (v: Vec<u8>)
        ensures
            v@ == self@,
    {
        match self {
            Packet::Borrowed(packet) => slice_to_vec(**packet),
            Packet::Owned(packet) => slice_to_vec(packet.as_slice()),
        }
    }

    /// Copy the packet into its owned form. This is the only safe way to
    /// retain packet data across polls: the owned packet holds the same
    /// bytes and no longer refers to engine-owned memory.
    pub fn to_owned(&self) -> (p: Packet<'p>)
        ensures
            p is Owned,
            p@ == self@,
    {
        Packet::Owned(self.to_vec())
    }
}

/// Law: converting a packet to its owned form round-trips the bytes. For
/// every packet `p`, any result `owned` of `p.to_owned()` and any results
/// `v1` of `owned.to_vec()` and `v2` of `p.to_vec()` satisfy `v1 == v2`:
/// `p.to_owned().to_vec() == p.to_vec()`.
pub proof fn lemma_owned_round_trip(p: Packet, owned: Packet, v1: Vec<u8>, v2: Vec<u8>)
    requires
        call_ensures(Packet::to_owned, (&p,), owned),
        call_ensures(Packet::to_vec, (&owned,), v1),
        call_ensures(Packet::to_vec, (&p,), v2),
    ensures
        v1@ == v2@,
{
}

} // verus!
