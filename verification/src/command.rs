//! The commands that change the address list of a device, and the reading of how one ended.

use vstd::prelude::*;

use crate::address::texts;
use crate::error::OsError;

verus! {

/// The two ways in which the address list of a device is changed.
#[derive(Debug, Clone, Copy, PartialEq, Eq, Structural)]
pub enum Operation {
    /// An address is assigned to the device.
    Add,
    /// An address is taken from the device.
    Delete,
}

/// One call of the system's `ip` tool on an address of a device.
#[derive(Debug, Clone, PartialEq, Eq)]
pub struct IpCommand {
    /// Whether the address is assigned or taken away.
    pub operation: Operation,
    /// The address, with its block size behind a slash.
    pub address: String,
    /// The device whose address list is changed.
    pub device: String,
}

/// What a command says: its operation, and the texts of its address and device.
pub struct IpCommandModel {
    pub operation: Operation,
    pub address: Seq<char>,
    pub device: Seq<char>,
}

impl View for IpCommand {
    type V = IpCommandModel;

    open spec fn view(&self) -> IpCommandModel {
        IpCommandModel {
            operation: self.operation,
            address: self.address@,
            device: self.device@,
        }
    }
}

/// The word by which the `ip` tool knows an operation.
pub open spec fn verb_text(operation: Operation) -> Seq<char> {
    match operation {
        Operation::Add => "add"@,
        Operation::Delete => "del"@,
    }
}

impl IpCommandModel {
    /// The arguments that the command hands to the `ip` tool.
    pub open spec fn arguments(self) -> Seq<Seq<char>> {
        seq!["-6"@, "addr"@, verb_text(self.operation), self.address, "dev"@, self.device]
    }
}

/// The command that assigns an address to a device.
pub fn apply_add(device: &str, address: &str) -> (command: IpCommand)
    ensures
        command@ == (IpCommandModel { operation: Operation::Add, address: address@, device: device@ }),
{
    IpCommand {
        operation: Operation::Add,
        address: address.to_owned(),
        device: device.to_owned(),
    }
}

/// The command that takes an address from a device.
pub fn apply_delete(device: &str, address: &str) -> (command: IpCommand)
    ensures
        command@ == (IpCommandModel {
            operation: Operation::Delete,
            address: address@,
            device: device@,
        }),
{
    IpCommand {
        operation: Operation::Delete,
        address: address.to_owned(),
        device: device.to_owned(),
    }
}

impl IpCommand {
    /// The name of the tool that carries the command out.
    pub fn program() -> (program: &'static str)
        ensures
            program@ == "ip"@,
    {
        "ip"
    }

    /// The arguments for the tool: the address family, the object, the
    /// operation, the address, and the device behind the word `dev`.
    pub fn arguments(&self) -> (arguments: Vec<String>)
        ensures
            texts(arguments@) == self@.arguments(),
    {
        let verb = match self.operation {
            Operation::Add => "add",
            Operation::Delete => "del",
        };
        let mut arguments: Vec<String> = Vec::new();
        arguments.push("-6".to_owned());
        arguments.push("addr".to_owned());
        arguments.push(verb.to_owned());
        arguments.push(self.address.clone());
        arguments.push("dev".to_owned());
        arguments.push(self.device.clone());
        arguments
    }

    /// Reads how a run of the command ended. The run went well if the tool
    /// left with the exit code 0. Any other end is an error that carries the
    /// operation, the exit code if there was one, and what the tool said.
    pub fn outcome(&self, status: Option<i32>, diagnostic: String) -> (outcome: Result<(), OsError>)
        ensures
            outcome is Ok <==> status == Some(0i32),
            outcome is Err ==> outcome->Err_0 == (OsError {
                operation: self.operation,
                status,
                diagnostic,
            }),
    {
        match status {
            Some(0) => Ok(()),
            _ => Err(OsError { operation: self.operation, status, diagnostic }),
        }
    }
}

} // verus!
