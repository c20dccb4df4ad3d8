//! The timed rotation as a machine: the rotator is told what has happened,
//! and says what is to be done next. Whoever drives it runs the commands
//! and waits out the intervals.

use vstd::prelude::*;

use crate::command::IpCommand;
use crate::command::IpCommandModel;
use crate::command::Operation;
use crate::command::apply_delete;
use crate::error::OsError;
use crate::error::RotatorError;
use crate::rotator::Rotator;
use crate::rotator::RotatorModel;
use crate::state::Phase;
use crate::state::RotationModel;

verus! {

/// What a rotator is told.
#[derive(Debug, PartialEq, Eq)]
pub enum Event {
    /// The rotation is to begin.
    Start,
    /// The command that the rotator handed out last has been run, and this is how it ended.
    Applied(Result<(), OsError>),
    /// The interval that the rotator asked to wait has passed.
    IntervalElapsed,
    /// The rotation is to end.
    Shutdown,
}

/// What a rotator wants done.
#[derive(Debug, Clone, PartialEq, Eq)]
pub enum Action {
    /// Run the command, and tell how it ended.
    Apply(IpCommand),
    /// Wait for so many seconds, and tell when they have passed. A request
    /// to end the rotation may cut the wait short.
    Wait(u16),
    /// Let the operator know of the error. The rotator goes on with
    /// whatever it is told next.
    Report(RotatorError),
    /// The event asked for nothing in this phase.
    Nothing,
    /// The rotator has stopped.
    Done,
}

impl RotatorModel {
    /// The command that takes the address under the cursor from the device,
    /// while the rotator is draining.
    pub open spec fn removal(self) -> Option<IpCommandModel> {
        match self.state.draining() {
            Some(address) => Some(
                IpCommandModel { operation: Operation::Delete, address, device: self.device },
            ),
            None => None,
        }
    }

    /// Whether the action is the one that a draining rotator asks for: the
    /// removal of the address under its cursor, or nothing more once it has stopped.
    pub open spec fn removes(self, action: Action) -> bool {
        match self.removal() {
            Some(removal) => action matches Action::Apply(command) && command@ == removal,
            None => action == Action::Done,
        }
    }

    /// Whether `after` and the action are what one cycle of the rotation
    /// leads to. The rotator is then rotating. Either it has assigned a new
    /// address and asks for the command that adds it to the device, or all
    /// the addresses it made up were assigned already, and it reports that
    /// and has changed nothing else.
    pub open spec fn cycles(self, after: RotatorModel, action: Action) -> bool {
        let rotating = self.with_state(
            RotationModel { phase: Phase::Rotating, cursor: 0, ..self.state },
        );
        match action {
            Action::Apply(command) => {
                &&& command@.operation == Operation::Add
                &&& command@.device == self.device
                &&& rotating.assigned(command@.address, after)
            },
            Action::Report(error) => {
                &&& error == RotatorError::GenerationExhausted
                &&& after == rotating
                &&& self.state.pool.len() > 0
            },
            _ => false,
        }
    }

    /// Whether `after` and the action are what the begin of the drain leads to.
    pub open spec fn winds_down(self, after: RotatorModel, action: Action) -> bool {
        &&& after == self.with_state(self.state.drain_begun())
        &&& after.removes(action)
    }

    /// Whether `after` and the action are what the rotator comes to when it
    /// is told of the event.
    ///
    /// An idle rotator that is told to start checks its configuration,
    /// reports what is wrong with it, and else runs its first cycle at once.
    /// A rotating one waits after a command that went well, reports one that
    /// failed, and at the end of an interval runs the next cycle, or begins
    /// the drain when it holds as many addresses as it may. A request to end
    /// begins the drain. A draining rotator goes on to the next address
    /// however the last command ended. A stopped one stays so.
    pub open spec fn step(self, event: Event, after: RotatorModel, action: Action) -> bool {
        match (self.state.phase, event) {
            (Phase::Idle, Event::Start) => match self.fault() {
                Some(fault) => after == self && action == Action::Report(
                    RotatorError::InvalidConfig(fault),
                ),
                None => self.cycles(after, action),
            },
            (Phase::Rotating, Event::Applied(Ok(_))) => after == self && action == Action::Wait(
                self.sleep_time,
            ),
            (Phase::Rotating, Event::Applied(Err(error))) => after == self && action
                == Action::Report(RotatorError::OsOperationFailed(error)),
            (Phase::Rotating, Event::IntervalElapsed) => if self.state.pool.len() < self.count {
                self.cycles(after, action)
            } else {
                self.winds_down(after, action)
            },
            (Phase::Idle, Event::Shutdown) | (Phase::Rotating, Event::Shutdown) => self.winds_down(
                after,
                action,
            ),
            (Phase::Draining, Event::Applied(_)) => {
                &&& after == self.with_state(self.state.drain_advanced())
                &&& after.removes(action)
            },
            (Phase::Stopped, _) => after == self && action == Action::Done,
            _ => after == self && action == Action::Nothing,
        }
    }
}

impl<'a> Rotator<'a> {
    /// One cycle of the rotation: a new address, and the command that adds it.
    fn cycle(&mut self) -> (action: Action)
        requires
            old(self).wf(),
        ensures
            final(self).wf(),
            old(self)@.cycles(final(self)@, action),
    {
        self.state.begin_rotation();
        match self.add_ip() {
            Ok(command) => Action::Apply(command),
            Err(error) => Action::Report(error),
        }
    }

    /// The command that takes the address from the device, or the end if there is none.
    fn removal_of(&self, address: Option<String>) -> (action: Action)
        requires
            address is Some <==> self@.removal() is Some,
            address is Some ==> address->0@ == self@.removal()->0.address,
        ensures
            self@.removes(action),
    {
        match address {
            Some(text) => Action::Apply(apply_delete(self.device, text.as_str())),
            None => Action::Done,
        }
    }

    /// Tells the rotator what has happened, and learns what is to be done next.
    pub fn rotate(&mut self, event: Event) -> (action: Action)
        requires
            old(self).wf(),
        ensures
            final(self).wf(),
            old(self)@.step(event, final(self)@, action),
    {
        proof {
            self.state.lemma_wf();
        }
        match self.state.phase() {
            Phase::Idle => match event {
                Event::Start => match self.validate() {
                    Err(error) => Action::Report(error),
                    Ok(_) => self.cycle(),
                },
                Event::Shutdown => {
                    let first = self.state.begin_drain();
                    self.removal_of(first)
                },
                _ => Action::Nothing,
            },
            Phase::Rotating => match event {
                Event::Applied(Ok(_)) => Action::Wait(self.sleep_time),
                Event::Applied(Err(error)) => Action::Report(RotatorError::OsOperationFailed(error)),
                Event::IntervalElapsed => {
                    if self.state.addresses().len() < self.count as usize {
                        self.cycle()
                    } else {
                        let first = self.state.begin_drain();
                        self.removal_of(first)
                    }
                },
                Event::Shutdown => {
                    let first = self.state.begin_drain();
                    self.removal_of(first)
                },
                Event::Start => Action::Nothing,
            },
            Phase::Draining => match event {
                Event::Applied(_) => {
                    let next = self.state.advance_drain();
                    self.removal_of(next)
                },
                _ => Action::Nothing,
            },
            Phase::Stopped => Action::Done,
        }
    }
}

} // verus!
