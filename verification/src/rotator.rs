//! The rotator: its configuration, the addresses it has assigned, and the
//! steps by which it assigns new ones.

use vstd::prelude::*;

use crate::address::compose_address;
use crate::address::is_address;
use crate::address::is_hextet;
use crate::address::is_symbol;
use crate::address::join_symbols;
use crate::address::lemma_symbol_texts;
use crate::address::symbol_texts;
use crate::address::texts;
use crate::block::IpBlock;
use crate::command::IpCommand;
use crate::command::IpCommandModel;
use crate::command::Operation;
use crate::command::apply_add;
use crate::command::apply_delete;
use crate::error::ConfigFault;
use crate::error::RotatorError;
use crate::pool::accepts;
use crate::pool::offered;
use crate::random::pick;
use crate::state::Phase;
use crate::state::RotationModel;
use crate::state::RotationState;

verus! {

/// How often a rotator makes up an address in one cycle before it gives up.
pub const GENERATION_ATTEMPTS: usize = 8;

/// What a list of commands says, command by command.
pub open spec fn command_models(commands: Seq<IpCommand>) -> Seq<IpCommandModel> {
    Seq::new(commands.len(), |i: int| commands[i]@)
}

/// The commands that take the addresses of a pool from a device, oldest first.
pub open spec fn removals(device: Seq<char>, pool: Seq<Seq<char>>) -> Seq<IpCommandModel> {
    Seq::new(
        pool.len(),
        |i: int| IpCommandModel { operation: Operation::Delete, address: pool[i], device },
    )
}

/// What a rotator holds, as plain values.
pub struct RotatorModel {
    pub device: Seq<char>,
    pub sleep_time: u16,
    pub block: IpBlock,
    pub network: Seq<char>,
    pub count: u16,
    pub state: RotationModel,
}

impl RotatorModel {
    /// The same configuration with another state.
    pub open spec fn with_state(self, state: RotationModel) -> RotatorModel {
        RotatorModel { state, ..self }
    }

    /// The rotator after an address was offered to its pool.
    pub open spec fn offered(self, address: Seq<char>) -> RotatorModel {
        self.with_state(
            RotationModel { pool: offered(self.state.pool, address), ..self.state },
        )
    }

    /// Whether `after` is this rotator once it has assigned the address: the
    /// address is one of the rotator's block under its prefix, the pool did
    /// not hold it, and now holds it at its end. Nothing else has changed.
    pub open spec fn assigned(self, address: Seq<char>, after: RotatorModel) -> bool {
        &&& is_address(address, self.network, self.block)
        &&& accepts(self.state.pool, address)
        &&& after == self.with_state(
            RotationModel { pool: self.state.pool.push(address), ..self.state },
        )
    }

    /// The first thing that keeps the configuration from being used, if there is one.
    pub open spec fn fault(self) -> Option<ConfigFault> {
        if self.device.len() == 0 {
            Some(ConfigFault::Device)
        } else if self.network.len() == 0 {
            Some(ConfigFault::Network)
        } else if self.count == 0 {
            Some(ConfigFault::Count)
        } else if self.sleep_time == 0 {
            Some(ConfigFault::Interval)
        } else {
            None
        }
    }
}

/// A rotator of addresses on one device.
#[derive(Debug, PartialEq)]
pub struct Rotator<'a> {
    /// The device whose addresses are rotated.
    pub device: &'a str,
    /// The seconds between two assignments.
    pub sleep_time: u16,
    /// The block size of the addresses.
    pub block: IpBlock,
    /// The prefix that all addresses begin with.
    pub network: &'a str,
    /// The largest number of addresses that are assigned at one time.
    pub count: u16,
    /// What the rotator keeps for itself.
    pub state: RotationState,
}

impl<'a> View for Rotator<'a> {
    type V = RotatorModel;

    open spec fn view(&self) -> RotatorModel {
        RotatorModel {
            device: self.device@,
            sleep_time: self.sleep_time,
            block: self.block,
            network: self.network@,
            count: self.count,
            state: self.state@,
        }
    }
}

/// A string that is drawn from the symbols of the alphabet holds one symbol.
proof fn lemma_one_symbol(symbols: Seq<String>, drawn: String)
    requires
        texts(symbols) == symbol_texts(),
        symbols.contains(drawn),
    ensures
        drawn@.len() == 1,
        is_symbol(drawn@[0]),
{
    lemma_symbol_texts();
    let at = choose|i: int| 0 <= i < symbols.len() && symbols[i] == drawn;
    assert(drawn@ == texts(symbols)[at]);
}

impl<'a> Rotator<'a> {
    /// What the rotator keeps for itself is in order.
    pub open spec fn wf(&self) -> bool {
        self.state.wf()
    }

    /// A rotator with no device and no prefix, for blocks of 64 bits, five
    /// addresses and an interval of ten seconds.
    pub fn builder() -> (rotator: Self)
        ensures
            rotator.wf(),
            rotator@ == (RotatorModel {
                device: ""@,
                sleep_time: 10,
                block: IpBlock::CIDR64,
                network: ""@,
                count: 5,
                state: RotationModel { pool: Seq::empty(), phase: Phase::Idle, cursor: 0 },
            }),
    {
        Rotator {
            device: "",
            sleep_time: 10,
            block: IpBlock::CIDR64,
            network: "",
            count: 5,
            state: RotationState::new(),
        }
    }

    /// Sets the block size.
    pub fn block(&mut self, block: IpBlock) -> (rotator: &mut Self)
        ensures
            rotator@ == (RotatorModel { block, ..old(self)@ }),
            rotator.state == old(self).state,
            *final(self) == *final(rotator),
    {
        self.block = block;
        self
    }

    /// Sets the prefix.
    pub fn network(&mut self, network: &'a str) -> (rotator: &mut Self)
        ensures
            rotator@ == (RotatorModel { network: network@, ..old(self)@ }),
            rotator.state == old(self).state,
            *final(self) == *final(rotator),
    {
        self.network = network;
        self
    }

    /// Sets the interval, in seconds.
    pub fn sleep_time(&mut self, sleep_time: u16) -> (rotator: &mut Self)
        ensures
            rotator@ == (RotatorModel { sleep_time, ..old(self)@ }),
            rotator.state == old(self).state,
            *final(self) == *final(rotator),
    {
        self.sleep_time = sleep_time;
        self
    }

    /// Sets the device.
    pub fn device(&mut self, device: &'a str) -> (rotator: &mut Self)
        ensures
            rotator@ == (RotatorModel { device: device@, ..old(self)@ }),
            rotator.state == old(self).state,
            *final(self) == *final(rotator),
    {
        self.device = device;
        self
    }

    /// Sets the number of addresses.
    pub fn count(&mut self, count: u16) -> (rotator: &mut Self)
        ensures
            rotator@ == (RotatorModel { count, ..old(self)@ }),
            rotator.state == old(self).state,
            *final(self) == *final(rotator),
    {
        self.count = count;
        self
    }

    /// A rotator of its own with what this one holds.
    pub fn build(&mut self) -> (rotator: Self)
        ensures
            rotator@ == old(self)@,
            old(self).wf() ==> rotator.wf(),
            *final(self) == *old(self),
    {
        Rotator {
            block: self.block,
            count: self.count,
            device: self.device,
            network: self.network,
            sleep_time: self.sleep_time,
            state: self.state.duplicate(),
        }
    }

    /// Says whether the configuration can be used: the device and the prefix
    /// are not empty, and neither the number of addresses nor the interval is zero.
    pub fn validate(&self) -> (verdict: Result<(), RotatorError>)
        ensures
            verdict is Ok <==> self@.fault() is None,
            verdict is Err ==> self@.fault() is Some && verdict->Err_0 == RotatorError::InvalidConfig(
                self@.fault()->0,
            ),
    {
        if self.device.is_empty() {
            Err(RotatorError::InvalidConfig(ConfigFault::Device))
        } else if self.network.is_empty() {
            Err(RotatorError::InvalidConfig(ConfigFault::Network))
        } else if self.count == 0 {
            Err(RotatorError::InvalidConfig(ConfigFault::Count))
        } else if self.sleep_time == 0 {
            Err(RotatorError::InvalidConfig(ConfigFault::Interval))
        } else {
            Ok(())
        }
    }

    /// Draws a group: four symbols of the alphabet, each drawn on its own.
    pub fn gen(&self) -> (hextet: String)
        requires
            self.wf(),
        ensures
            is_hextet(hextet@),
    {
        let mut rng = rand::thread_rng();
        let symbols = self.state.symbols();
        proof {
            lemma_symbol_texts();
        }
        let first = pick(symbols, &mut rng).unwrap();
        let second = pick(symbols, &mut rng).unwrap();
        let third = pick(symbols, &mut rng).unwrap();
        let fourth = pick(symbols, &mut rng).unwrap();
        proof {
            lemma_one_symbol(symbols@, *first);
            lemma_one_symbol(symbols@, *second);
            lemma_one_symbol(symbols@, *third);
            lemma_one_symbol(symbols@, *fourth);
        }
        join_symbols(first.as_str(), second.as_str(), third.as_str(), fourth.as_str())
    }

    /// Makes up an address under the prefix: as many groups as the block
    /// asks for, each drawn by `gen`.
    pub fn generate_ip(&mut self) -> (address: String)
        requires
            old(self).wf(),
        ensures
            is_address(address@, old(self)@.network, old(self)@.block),
            *final(self) == *old(self),
    {
        let wanted = self.block.groups();
        let mut hextets: Vec<String> = Vec::new();
        while hextets.len() < wanted
            invariant
                *self == *old(self),
                self.wf(),
                wanted == self.block.spec_groups(),
                hextets@.len() <= wanted,
                forall|i: int| 0 <= i < hextets@.len() ==> is_hextet(#[trigger] texts(hextets@)[i]),
            decreases wanted - hextets@.len(),
        {
            let ghost before = hextets@;
            let hextet = self.gen();
            hextets.push(hextet);
            assert forall|i: int| 0 <= i < hextets@.len() implies is_hextet(
                #[trigger] texts(hextets@)[i],
            ) by {
                if i < before.len() {
                    assert(texts(hextets@)[i] == texts(before)[i]);
                }
            }
        }
        compose_address(self.network, &hextets, self.block)
    }

    /// Decides what becomes of a candidate that was made up in a cycle, the
    /// attempts of the cycle counted from 0. A candidate that the pool does
    /// not hold is taken in and handed back. One that it holds is thrown
    /// away: there is none to hand back, and after the last attempt of the
    /// cycle the generation is exhausted.
    pub fn consider(&mut self, candidate: String, attempt: usize) -> (verdict: Result<
        Option<String>,
        RotatorError,
    >)
        requires
            old(self).wf(),
        ensures
            final(self).wf(),
            final(self)@ == old(self)@.offered(candidate@),
            match verdict {
                Ok(Some(address)) => accepts(old(self)@.state.pool, candidate@) && address@
                    == candidate@,
                Ok(None) => !accepts(old(self)@.state.pool, candidate@) && attempt + 1
                    < GENERATION_ATTEMPTS,
                Err(error) => {
                    &&& !accepts(old(self)@.state.pool, candidate@)
                    &&& attempt + 1 >= GENERATION_ATTEMPTS
                    &&& error == RotatorError::GenerationExhausted
                },
            },
    {
        let address = candidate.clone();
        if self.state.record(candidate) {
            Ok(Some(address))
        } else if attempt < GENERATION_ATTEMPTS - 1 {
            Ok(None)
        } else {
            Err(RotatorError::GenerationExhausted)
        }
    }

    /// Makes up an address that is not assigned yet and takes it into the
    /// pool. An address that the pool holds already is thrown away and
    /// another one made up, `GENERATION_ATTEMPTS` times at most; if all of
    /// them were in the pool, the pool stays as it was. With an empty pool
    /// the first address is taken.
    pub fn create_unique_ip(&mut self) -> (address: Result<String, RotatorError>)
        requires
            old(self).wf(),
        ensures
            final(self).wf(),
            match address {
                Ok(text) => old(self)@.assigned(text@, final(self)@),
                Err(error) => {
                    &&& error == RotatorError::GenerationExhausted
                    &&& final(self)@ == old(self)@
                    &&& old(self)@.state.pool.len() > 0
                },
            },
    {
        let mut attempt: usize = 0;
        loop
            invariant
                self.wf(),
                self@ == old(self)@,
                attempt < GENERATION_ATTEMPTS,
            decreases GENERATION_ATTEMPTS - attempt,
        {
            let candidate = self.generate_ip();
            match self.consider(candidate, attempt) {
                Ok(Some(address)) => {
                    return Ok(address);
                },
                Ok(None) => {
                    attempt += 1;
                },
                Err(error) => {
                    return Err(error);
                },
            }
        }
    }

    /// Assigns a new address: makes one up that is not assigned yet, takes
    /// it into the pool, and hands out the command that adds it to the
    /// device. The address stays in the pool whatever becomes of the command.
    pub fn add_ip(&mut self) -> (command: Result<IpCommand, RotatorError>)
        requires
            old(self).wf(),
        ensures
            final(self).wf(),
            match command {
                Ok(add) => {
                    &&& add@.operation == Operation::Add
                    &&& add@.device == old(self)@.device
                    &&& old(self)@.assigned(add@.address, final(self)@)
                },
                Err(error) => {
                    &&& error == RotatorError::GenerationExhausted
                    &&& final(self)@ == old(self)@
                    &&& old(self)@.state.pool.len() > 0
                },
            },
    {
        match self.create_unique_ip() {
            Ok(address) => Ok(apply_add(self.device, address.as_str())),
            Err(error) => Err(error),
        }
    }

    /// Gives up all addresses: hands out, oldest first, the commands that
    /// take them from the device, empties the pool and stops.
    pub fn cleanup_addresses(&mut self) -> (commands: Vec<IpCommand>)
        requires
            old(self).wf(),
        ensures
            final(self).wf(),
            command_models(commands@) == removals(old(self)@.device, old(self)@.state.pool),
            final(self)@ == old(self)@.with_state(
                RotationModel { pool: Seq::empty(), phase: Phase::Stopped, cursor: 0 },
            ),
    {
        let released = self.state.release_all();
        let mut commands: Vec<IpCommand> = Vec::new();
        let mut i: usize = 0;
        while i < released.len()
            invariant
                i <= released@.len(),
                commands@.len() == i,
                self.device == old(self).device,
                forall|j: int|
                    0 <= j < i ==> (#[trigger] commands@[j])@ == (IpCommandModel {
                        operation: Operation::Delete,
                        address: texts(released@)[j],
                        device: self.device@,
                    }),
            decreases released@.len() - i,
        {
            commands.push(apply_delete(self.device, released[i].as_str()));
            i += 1;
        }
        commands
    }
}

} // verus!
