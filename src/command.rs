use vstd::prelude::*;

use crate::types::{Identifier, Register};

verus! {

/// A lightweight descriptor of a finalize command, used by tooling that only
/// needs its operand count.
pub trait FinalizeCommandTrait: Sized {
    spec fn spec_num_operands(&self) -> nat;

    /// Returns the number of operands.
    fn num_operands(&self) -> (r: usize)
        ensures
            r as nat == self.spec_num_operands(),
    ;
}

/// The capabilities that the validator reads from a command.
pub trait CommandTrait: Sized {
    type FinalizeCommand: FinalizeCommandTrait;

    spec fn spec_destinations(&self) -> Seq<Register>;

    spec fn spec_branch_to(&self) -> Option<Identifier>;

    spec fn spec_position(&self) -> Option<Identifier>;

    spec fn spec_is_call(&self) -> bool;

    spec fn spec_is_cast_to_record(&self) -> bool;

    spec fn spec_is_write(&self) -> bool;

    /// Returns the destination registers of the command.
    fn destinations(&self) -> (r: &[Register])
        ensures
            r@ == self.spec_destinations(),
    ;

    /// Returns the branch target, if the command is a branch command.
    fn branch_to(&self) -> (r: Option<Identifier>)
        ensures
            r == self.spec_branch_to(),
    ;

    /// Returns the position name, if the command is a position command.
    fn position(&self) -> (r: Option<Identifier>)
        ensures
            r == self.spec_position(),
    ;

    /// Returns `true` if the command is a call instruction.
    fn is_call(&self) -> (r: bool)
        ensures
            r == self.spec_is_call(),
    ;

    /// Returns `true` if the command is a cast to record instruction.
    fn is_cast_to_record(&self) -> (r: bool)
        ensures
            r == self.spec_is_cast_to_record(),
    ;

    /// Returns `true` if the command is a write operation.
    fn is_write(&self) -> (r: bool)
        ensures
            r == self.spec_is_write(),
    ;
}

/// The operand count of a command.
#[derive(Clone, Copy, Debug, PartialEq, Eq, Structural)]
pub struct FinalizeCommand {
    pub operands: usize,
}

impl FinalizeCommandTrait for FinalizeCommand {
    open spec fn spec_num_operands(&self) -> nat {
        self.operands as nat
    }

    fn num_operands(&self) -> (r: usize) {
        self.operands
    }
}

/// A command described by the capabilities the validator reads.
#[derive(Clone, Debug)]
pub struct Command {
    pub destinations: Vec<Register>,
    pub branch_to: Option<Identifier>,
    pub position: Option<Identifier>,
    pub is_call: bool,
    pub is_cast_to_record: bool,
    pub is_write: bool,
}

impl Command {
    /// A plain command writing to the given registers: no branch, no
    /// position, no call, no cast, no storage write.
    pub fn new(destinations: Vec<Register>) -> (r: Self)
        ensures
            r.destinations@ == destinations@,
            r.branch_to is None,
            r.position is None,
            !r.is_call,
            !r.is_cast_to_record,
            !r.is_write,
    {
        Command {
            destinations,
            branch_to: None,
            position: None,
            is_call: false,
            is_cast_to_record: false,
            is_write: false,
        }
    }
}

impl CommandTrait for Command {
    type FinalizeCommand = FinalizeCommand;

    open spec fn spec_destinations(&self) -> Seq<Register> {
        self.destinations@
    }

    open spec fn spec_branch_to(&self) -> Option<Identifier> {
        self.branch_to
    }

    open spec fn spec_position(&self) -> Option<Identifier> {
        self.position
    }

    open spec fn spec_is_call(&self) -> bool {
        self.is_call
    }

    open spec fn spec_is_cast_to_record(&self) -> bool {
        self.is_cast_to_record
    }

    open spec fn spec_is_write(&self) -> bool {
        self.is_write
    }

    fn destinations(&self) -> (r: &[Register]) {
        self.destinations.as_slice()
    }

    fn branch_to(&self) -> (r: Option<Identifier>) {
        self.branch_to
    }

    fn position(&self) -> (r: Option<Identifier>) {
        self.position
    }

    fn is_call(&self) -> (r: bool) {
        self.is_call
    }

    fn is_cast_to_record(&self) -> (r: bool) {
        self.is_cast_to_record
    }

    fn is_write(&self) -> (r: bool) {
        self.is_write
    }
}

} // verus!
