//! The clock domain that every pipeline of the process shares. It is set up
//! once, by whoever asks first, and never changes afterwards.

use vstd::prelude::*;

verus! {

/// The shared timing reference: the time of the system clock at the moment
/// the domain was set up, in nanoseconds.
#[derive(Clone, Copy, Debug, PartialEq, Eq, Structural)]
pub struct ClockDomain {
    pub base_time: u64,
}

/// Why the clock domain could not be set up.
#[derive(Clone, Copy, Debug, PartialEq, Eq, Structural)]
pub enum ClockError {
    /// The time source gave no reading.
    TimeSourceUnavailable,
}

/// What a cell holds after it was asked for its domain with the given
/// reading of the time source at hand.
pub open spec fn settled(held: Option<ClockDomain>, reading: Option<u64>) -> Option<ClockDomain> {
    match (held, reading) {
        (Some(d), _) => Some(d),
        (None, Some(t)) => Some(ClockDomain { base_time: t }),
        (None, None) => None,
    }
}

/// The place of the clock domain: empty until the first pipeline asks.
#[derive(Debug)]
pub struct ClockCell {
    slot: Option<ClockDomain>,
}

impl View for ClockCell {
    type V = Option<ClockDomain>;

    closed spec fn view(&self) -> Option<ClockDomain> {
        self.slot
    }
}

impl ClockCell {
    /// An empty cell.
    pub fn new() -> (cell: ClockCell)
        ensures
            cell@.is_none(),
    {
        ClockCell { slot: None }
    }

    /// The domain, if it has been set up.
    pub fn get(&self) -> (r: Option<ClockDomain>)
        ensures
            r == self@,
    {
        self.slot
    }

    /// The domain; the first caller sets it up from its reading of the time
    /// source. Every later caller gets the same domain, whatever its own
    /// reading. Without a reading an empty cell stays empty and the call
    /// fails.
    pub fn get_or_init(&mut self, reading: Option<u64>) -> (r: Result<ClockDomain, ClockError>)
        ensures
            final(self)@ == settled(old(self)@, reading),
            r.is_ok() <==> old(self)@.is_some() || reading.is_some(),
            (match r {
                Ok(d) => final(self)@ == Some(d),
                Err(e) => e == ClockError::TimeSourceUnavailable && old(self)@.is_none()
                    && reading.is_none(),
            }),
    {
        match (self.slot, reading) {
            (Some(d), _) => Ok(d),
            (None, Some(t)) => {
                let d = ClockDomain { base_time: t };
                self.slot = Some(d);
                Ok(d)
            },
            (None, None) => Err(ClockError::TimeSourceUnavailable),
        }
    }

    /// The domain; where the cell is empty, and only then, the time source
    /// is read, by calling `read`, and the domain is set up from its
    /// reading.
    pub fn get_or_init_with<F: FnOnce() -> Option<u64>>(&mut self, read: F) -> (r: Result<
        ClockDomain,
        ClockError,
    >)
        requires
            old(self)@.is_none() ==> read.requires(()),
        ensures
            old(self)@.is_some() ==> final(self)@ == old(self)@ && r == Ok::<
                ClockDomain,
                ClockError,
            >(old(self)@.unwrap()),
            old(self)@.is_none() ==> (exists|reading: Option<u64>|
                read.ensures((), reading) && final(self)@ == settled(None, reading) && r.is_ok()
                    == reading.is_some()),
            (match r {
                Ok(d) => final(self)@ == Some(d),
                Err(e) => e == ClockError::TimeSourceUnavailable && final(self)@.is_none(),
            }),
    {
        match self.slot {
            Some(d) => Ok(d),
            None => {
                let reading = read();
                self.get_or_init(reading)
            },
        }
    }
}

/// Once set up, the domain is the same for every caller: a second request
/// leaves the cell as the first left it, and returns what the first
/// returned, whatever the two readings were.
pub proof fn domain_is_set_once(held: Option<ClockDomain>, first: Option<u64>, second: Option<u64>)
    requires
        held.is_some() || first.is_some(),
    ensures
        settled(held, first).is_some(),
        settled(settled(held, first), second) == settled(held, first),
{
}

} // verus!
