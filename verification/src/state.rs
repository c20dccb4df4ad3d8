//! What a rotator keeps for itself while it runs: the addresses it has
//! assigned, the symbols it draws from, and how far it has come.

use vstd::prelude::*;

use crate::address::symbol_texts;
use crate::address::symbols;
use crate::address::texts;
use crate::pool::AddressPool;
use crate::pool::accepts;
use crate::pool::offered;

verus! {

/// Where a rotator stands in its life.
#[derive(Debug, Clone, Copy, PartialEq, Eq, Structural)]
pub enum Phase {
    /// Built, and not started yet.
    Idle,
    /// Assigning a new address at every interval.
    Rotating,
    /// Taking the assigned addresses from the device again.
    Draining,
    /// At its end.
    Stopped,
}

/// The state of a rotator as plain values.
pub struct RotationModel {
    /// The addresses that were assigned and not yet given up, oldest first.
    pub pool: Seq<Seq<char>>,
    /// Where the rotator stands.
    pub phase: Phase,
    /// While draining, the place in the pool of the address that is being
    /// taken away. It is 0 in any other phase.
    pub cursor: int,
}

impl RotationModel {
    /// The state after the drain has begun. An empty pool needs no drain:
    /// the rotator has stopped. Else the cursor stands at the oldest address.
    pub open spec fn drain_begun(self) -> RotationModel {
        if self.pool.len() == 0 {
            RotationModel { phase: Phase::Stopped, cursor: 0, ..self }
        } else {
            RotationModel { phase: Phase::Draining, cursor: 0, ..self }
        }
    }

    /// The state after the address under the cursor was dealt with. The
    /// cursor moves on to the next address. Behind the last address the
    /// pool is emptied and the rotator has stopped.
    pub open spec fn drain_advanced(self) -> RotationModel {
        if self.cursor + 1 < self.pool.len() {
            RotationModel { cursor: self.cursor + 1, ..self }
        } else {
            RotationModel { pool: Seq::empty(), phase: Phase::Stopped, cursor: 0 }
        }
    }

    /// The address under the cursor, while the rotator is draining.
    pub open spec fn draining(self) -> Option<Seq<char>> {
        if self.phase == Phase::Draining && 0 <= self.cursor < self.pool.len() {
            Some(self.pool[self.cursor])
        } else {
            None
        }
    }
}

/// The state of a rotator.
#[derive(Debug, PartialEq)]
pub struct RotationState {
    addresses: AddressPool,
    available_chars: Vec<String>,
    phase: Phase,
    cursor: usize,
}

impl View for RotationState {
    type V = RotationModel;

    closed spec fn view(&self) -> RotationModel {
        RotationModel { pool: self.addresses@, phase: self.phase, cursor: self.cursor as int }
    }
}

impl RotationState {
    /// No address is held twice, the symbols are those of the alphabet, and
    /// the cursor stands at an address of the pool while draining and at 0 else.
    pub closed spec fn wf(&self) -> bool {
        &&& self.addresses.wf()
        &&& texts(self.available_chars@) == symbol_texts()
        &&& self.phase == Phase::Draining ==> self.cursor < self.addresses@.len()
        &&& self.phase != Phase::Draining ==> self.cursor == 0
    }

    /// What well-formedness says of the plain values.
    pub proof fn lemma_wf(&self)
        requires
            self.wf(),
        ensures
            self@.pool.no_duplicates(),
            self@.phase == Phase::Draining ==> 0 <= self@.cursor < self@.pool.len(),
            self@.phase != Phase::Draining ==> self@.cursor == 0,
    {
    }

    /// The state of a rotator that has done nothing yet.
    pub fn new() -> (state: Self)
        ensures
            state.wf(),
            state@ == (RotationModel { pool: Seq::empty(), phase: Phase::Idle, cursor: 0 }),
    {
        RotationState {
            addresses: AddressPool::new(),
            available_chars: symbols(),
            phase: Phase::Idle,
            cursor: 0,
        }
    }

    /// A state of its own with the same values.
    pub fn duplicate(&self) -> (state: Self)
        ensures
            state@ == self@,
            self.wf() ==> state.wf(),
    {
        RotationState {
            addresses: self.addresses.duplicate(),
            available_chars: symbols(),
            phase: self.phase,
            cursor: self.cursor,
        }
    }

    /// Where the rotator stands.
    pub fn phase(&self) -> (phase: Phase)
        ensures
            phase == self@.phase,
    {
        self.phase
    }

    /// The addresses that are assigned at present, oldest first.
    pub fn addresses(&self) -> (addresses: &Vec<String>)
        ensures
            texts(addresses@) == self@.pool,
    {
        self.addresses.all()
    }

    /// The symbols that groups are drawn from.
    pub(crate) fn symbols(&self) -> (symbols: &Vec<String>)
        requires
            self.wf(),
        ensures
            texts(symbols@) == symbol_texts(),
    {
        &self.available_chars
    }

    /// Takes an address into the pool unless it is there already, and says
    /// whether it was taken in.
    pub(crate) fn record(&mut self, address: String) -> (recorded: bool)
        requires
            old(self).wf(),
        ensures
            final(self).wf(),
            recorded == accepts(old(self)@.pool, address@),
            final(self)@ == (RotationModel {
                pool: offered(old(self)@.pool, address@),
                ..old(self)@
            }),
    {
        self.addresses.try_add(address)
    }

    /// Goes over to assigning addresses.
    pub(crate) fn begin_rotation(&mut self)
        requires
            old(self).wf(),
        ensures
            final(self).wf(),
            final(self)@ == (RotationModel { phase: Phase::Rotating, cursor: 0, ..old(self)@ }),
    {
        self.phase = Phase::Rotating;
        self.cursor = 0;
    }

    /// Goes over to taking the addresses away again, and hands out the
    /// oldest of them. With an empty pool there is nothing to take away, and
    /// the rotator stops at once.
    pub(crate) fn begin_drain(&mut self) -> (first: Option<String>)
        requires
            old(self).wf(),
        ensures
            final(self).wf(),
            final(self)@ == old(self)@.drain_begun(),
            first is Some <==> old(self)@.pool.len() > 0,
            first is Some ==> first->0@ == old(self)@.pool[0],
    {
        self.cursor = 0;
        match self.addresses.get(0) {
            Some(address) => {
                let first = address.clone();
                self.phase = Phase::Draining;
                Some(first)
            },
            None => {
                self.phase = Phase::Stopped;
                None
            },
        }
    }

    /// Moves on to the next address that is to be taken away, and hands it
    /// out. Behind the last one the pool is emptied and the rotator stops.
    pub(crate) fn advance_drain(&mut self) -> (next: Option<String>)
        requires
            old(self).wf(),
            old(self)@.phase == Phase::Draining,
        ensures
            final(self).wf(),
            final(self)@ == old(self)@.drain_advanced(),
            next is Some <==> old(self)@.cursor + 1 < old(self)@.pool.len(),
            next is Some ==> next->0@ == old(self)@.pool[old(self)@.cursor + 1],
    {
        let held = self.addresses.len();
        let following = if self.cursor < held {
            self.addresses.get(self.cursor + 1)
        } else {
            None
        };
        match following {
            Some(address) => {
                let next = address.clone();
                self.cursor = self.cursor + 1;
                Some(next)
            },
            None => {
                self.addresses.clear();
                self.phase = Phase::Stopped;
                self.cursor = 0;
                None
            },
        }
    }

    /// Gives up all addresses at once: hands them out, oldest first, empties
    /// the pool and stops.
    pub(crate) fn release_all(&mut self) -> (released: Vec<String>)
        requires
            old(self).wf(),
        ensures
            final(self).wf(),
            texts(released@) == old(self)@.pool,
            final(self)@ == (RotationModel { pool: Seq::empty(), phase: Phase::Stopped, cursor: 0 }),
    {
        let released = self.addresses.take_all();
        self.phase = Phase::Stopped;
        self.cursor = 0;
        released
    }
}

} // verus!
