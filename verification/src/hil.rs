//! Contracts of the hardware collaborators the driver consumes: a synchronous
//! register bus and a periodic timer. Concrete peripherals implement these
//! traits; the driver is verified against the contracts alone.

use vstd::prelude::*;

verus! {

/// One write issued on the bus: the device address and the payload bytes.
pub ghost struct BusWrite {
    pub addr: u8,
    pub data: Seq<u8>,
}

/// A synchronous register bus (an inter-integrated-circuit master, here).
/// Its abstract state is: whether it is powered, the responses its upcoming
/// two-byte reads will return (front first), and the log of writes issued so
/// far. Reads and writes are assumed always to complete; a device response
/// being available is expressed as the response sequence being non-empty.
pub trait Bus {
    /// The two-byte responses that upcoming reads will return, front first.
    spec fn upcoming(&self) -> Seq<(u8, u8)>;

    /// Whether the bus peripheral is powered.
    spec fn powered(&self) -> bool;

    /// Every write issued so far, oldest first.
    spec fn writes(&self) -> Seq<BusWrite>;

    fn enable(&mut self)
        ensures
            final(self).powered(),
            final(self).upcoming() == old(self).upcoming(),
            final(self).writes() == old(self).writes(),
    ;

    fn disable(&mut self)
        ensures
            !final(self).powered(),
            final(self).upcoming() == old(self).upcoming(),
            final(self).writes() == old(self).writes(),
    ;

    fn write(&mut self, addr: u8, data: &[u8])
        ensures
            final(self).powered() == old(self).powered(),
            final(self).upcoming() == old(self).upcoming(),
            final(self).writes() == old(self).writes().push((BusWrite { addr: addr, data: data@ })),
    ;

    fn read2(&mut self, addr: u8) -> (r: (u8, u8))
        requires
            old(self).upcoming().len() > 0,
        ensures
            final(self).powered() == old(self).powered(),
            final(self).writes() == old(self).writes(),
            r == old(self).upcoming()[0],
            final(self).upcoming() == old(self).upcoming().skip(1),
    ;
}

/// A periodic timer. Its abstract state is the interval it is armed with,
/// if any; arming it replaces any earlier interval.
pub trait Timer {
    /// The interval the timer is currently armed with.
    spec fn period(&self) -> Option<u32>;

    fn repeat(&mut self, interval: u32)
        ensures
            final(self).period() == Some(interval),
    ;
}

} // verus!
