use vstd::prelude::*;

use indexmap::IndexSet;

use crate::command::CommandTrait;
use crate::error::FinalizeError;
use crate::input_set::{
    holds_input, input_set_contains, input_set_get, input_set_insert, input_set_items, input_set_len,
    input_set_new,
};
use crate::types::{Identifier, Input, PlaintextType, Register};

verus! {

/// The most position labels a finalize program may define.
pub const MAX_POSITIONS: usize = 255;

/// The bounds a finalize program is held to, fixed by the network it runs on.
#[derive(Clone, Copy, Debug, PartialEq, Eq, Structural)]
pub struct FinalizeLimits {
    pub max_inputs: usize,
    pub max_commands: usize,
    pub max_writes: u16,
}

/// The number of commands in `s` that write to storage.
pub open spec fn write_count<C: CommandTrait>(s: Seq<C>) -> nat
    decreases s.len(),
{
    if s.len() == 0 {
        0
    } else {
        write_count(s.drop_last()) + if s.last().spec_is_write() {
            1nat
        } else {
            0nat
        }
    }
}

/// A command that may stand in finalize at all: no call, no cast to a
/// record, and only locators as destinations.
pub open spec fn admissible<C: CommandTrait>(c: C) -> bool {
    &&& !c.spec_is_call()
    &&& !c.spec_is_cast_to_record()
    &&& forall|j: int|
        0 <= j < c.spec_destinations().len() ==> (#[trigger] c.spec_destinations()[j]) is Locator
}

/// The finalize program of a function, assembled one input and one command
/// at a time, each checked against the rules before it is accepted.
pub struct FinalizeCore<C: CommandTrait> {
    name: Identifier,
    limits: FinalizeLimits,
    inputs: IndexSet<Input>,
    commands: Vec<C>,
    num_writes: u16,
    positions: Vec<(Identifier, usize)>,
}

impl<C: CommandTrait> FinalizeCore<C> {
    /// The name of the associated function.
    pub closed spec fn spec_name(&self) -> Identifier {
        self.name
    }

    /// The bounds the program is held to.
    pub closed spec fn spec_limits(&self) -> FinalizeLimits {
        self.limits
    }

    /// The declared inputs, in order of declaration.
    pub closed spec fn spec_inputs(&self) -> Seq<Input> {
        input_set_items(self.inputs)
    }

    /// The accepted commands, in order of execution.
    pub closed spec fn spec_commands(&self) -> Seq<C> {
        self.commands@
    }

    /// The number of accepted commands that write to storage.
    pub closed spec fn spec_num_writes(&self) -> nat {
        self.num_writes as nat
    }

    /// The defined labels, each with the index of the command it names, in
    /// order of definition.
    pub closed spec fn spec_positions(&self) -> Seq<(Identifier, usize)> {
        self.positions@
    }

    /// `label` is already defined by an accepted position command.
    pub open spec fn label_defined(&self, label: Identifier) -> bool {
        exists|i: int| 0 <= i < self.spec_positions().len() && (#[trigger] self.spec_positions()[i]).0 == label
    }

    /// The state invariant of a finalize program under construction.
    pub closed spec fn wf(&self) -> bool {
        let inputs = input_set_items(self.inputs);
        let commands = self.commands@;
        let positions = self.positions@;
        &&& inputs.len() <= self.limits.max_inputs
        &&& forall|i: int, j: int|
            #![trigger inputs[i], inputs[j]]
            0 <= i < j < inputs.len() ==> !inputs[i].same(&inputs[j])
        &&& forall|i: int| 0 <= i < inputs.len() ==> (#[trigger] inputs[i]).register is Locator
        &&& commands.len() <= self.limits.max_commands
        &&& self.num_writes <= self.limits.max_writes
        &&& self.num_writes == write_count(commands)
        &&& forall|k: int| 0 <= k < commands.len() ==> admissible(#[trigger] commands[k])
        &&& positions.len() <= MAX_POSITIONS
        &&& forall|i: int, j: int|
            0 <= i < j < positions.len() ==> (#[trigger] positions[i]).0 != (#[trigger] positions[j]).0
        &&& forall|i: int|
            0 <= i < positions.len() ==> {
                &&& (#[trigger] positions[i]).1 < commands.len()
                &&& commands[positions[i].1 as int].spec_position() == Some(positions[i].0)
            }
        &&& forall|k: int|
            0 <= k < commands.len() && (#[trigger] commands[k]).spec_position() is Some ==> exists|i: int|
                0 <= i < positions.len() && #[trigger] positions[i] == (
                commands[k].spec_position()->0,
                k as usize,
            )
        &&& forall|k: int, i: int|
            0 <= k < commands.len() && 0 <= i < positions.len() && (#[trigger] commands[k]).spec_branch_to()
                == Some((#[trigger] positions[i]).0) ==> k <= positions[i].1
    }

    /// The error `add_input(input)` returns, or `None` when it accepts it.
    pub open spec fn input_error(&self, input: Input) -> Option<FinalizeError> {
        if self.spec_commands().len() > 0 {
            Some(FinalizeError::OrderingViolation)
        } else if self.spec_inputs().len() >= self.spec_limits().max_inputs {
            Some(FinalizeError::CapacityExceeded)
        } else if holds_input(self.spec_inputs(), input) {
            Some(FinalizeError::DuplicateDeclaration)
        } else if !(input.register is Locator) {
            Some(FinalizeError::InvalidRegisterKind)
        } else {
            None
        }
    }

    /// The error `add_command(command)` returns, or `None` when it accepts it.
    pub open spec fn command_error(&self, command: C) -> Option<FinalizeError> {
        if self.spec_commands().len() >= self.spec_limits().max_commands {
            Some(FinalizeError::CapacityExceeded)
        } else if self.spec_num_writes() >= self.spec_limits().max_writes {
            Some(FinalizeError::CapacityExceeded)
        } else if command.spec_is_call() {
            Some(FinalizeError::ForbiddenOperation)
        } else if command.spec_is_cast_to_record() {
            Some(FinalizeError::ForbiddenOperation)
        } else if exists|j: int|
            0 <= j < command.spec_destinations().len() && !((#[trigger] command.spec_destinations()[j]) is Locator) {
            Some(FinalizeError::InvalidRegisterKind)
        } else if command.spec_branch_to() is Some && self.label_defined(command.spec_branch_to()->0) {
            Some(FinalizeError::InvalidBranchTarget)
        } else if command.spec_position() is Some && self.label_defined(command.spec_position()->0) {
            Some(FinalizeError::DuplicateDeclaration)
        } else if command.spec_position() is Some && self.spec_positions().len() >= MAX_POSITIONS {
            Some(FinalizeError::CapacityExceeded)
        } else {
            None
        }
    }

    /// `next` is `self` with `input` appended to the inputs.
    pub open spec fn after_input(&self, next: Self, input: Input) -> bool {
        &&& next.spec_name() == self.spec_name()
        &&& next.spec_limits() == self.spec_limits()
        &&& next.spec_inputs() == self.spec_inputs().push(input)
        &&& next.spec_commands() == self.spec_commands()
        &&& next.spec_num_writes() == self.spec_num_writes()
        &&& next.spec_positions() == self.spec_positions()
    }

    /// `next` is `self` with `command` appended: the write count grows by
    /// one for a write, and a position label is bound to the command's index.
    pub open spec fn after_command(&self, next: Self, command: C) -> bool {
        &&& next.spec_name() == self.spec_name()
        &&& next.spec_limits() == self.spec_limits()
        &&& next.spec_inputs() == self.spec_inputs()
        &&& next.spec_commands() == self.spec_commands().push(command)
        &&& next.spec_num_writes() == self.spec_num_writes() + if command.spec_is_write() {
            1nat
        } else {
            0nat
        }
        &&& next.spec_positions() == match command.spec_position() {
            Some(label) => self.spec_positions().push((label, self.spec_commands().len() as usize)),
            None => self.spec_positions(),
        }
    }

    /// Initializes a new, empty finalize with the given name and bounds.
    pub fn new(name: Identifier, limits: FinalizeLimits) -> (r: Self)
        ensures
            r.wf(),
            r.spec_name() == name,
            r.spec_limits() == limits,
            r.spec_inputs().len() == 0,
            r.spec_commands().len() == 0,
            r.spec_num_writes() == 0,
            r.spec_positions().len() == 0,
    {
        FinalizeCore {
            name,
            limits,
            inputs: input_set_new(),
            commands: Vec::new(),
            num_writes: 0,
            positions: Vec::new(),
        }
    }

    /// Returns the index in the position list at which `label` is defined.
    fn find_label(&self, label: Identifier) -> (r: Option<usize>)
        ensures
            r is Some <==> self.label_defined(label),
            r matches Some(i) ==> i < self.spec_positions().len() && self.spec_positions()[i as int].0 == label,
    {
        let mut i: usize = 0;
        while i < self.positions.len()
            invariant
                i <= self.positions@.len(),
                forall|j: int| 0 <= j < i ==> (#[trigger] self.positions@[j]).0 != label,
            decreases self.positions@.len() - i,
        {
            if self.positions[i].0.0 == label.0 {
                return Some(i);
            }
            i = i + 1;
        }
        None
    }

    /// Adds the input statement to finalize.
    pub fn add_input(&mut self, input: Input) -> (r: Result<(), FinalizeError>)
        requires
            old(self).wf(),
        ensures
            final(self).wf(),
            match old(self).input_error(input) {
                Some(e) => r == Err::<(), FinalizeError>(e) && *final(self) == *old(self),
                None => r is Ok && old(self).after_input(*final(self), input),
            },
    {
        if self.commands.len() != 0 {
            return Err(FinalizeError::OrderingViolation);
        }
        if input_set_len(&self.inputs) >= self.limits.max_inputs {
            return Err(FinalizeError::CapacityExceeded);
        }
        if input_set_contains(&self.inputs, &input) {
            return Err(FinalizeError::DuplicateDeclaration);
        }
        if !input.register.is_locator() {
            return Err(FinalizeError::InvalidRegisterKind);
        }
        input_set_insert(&mut self.inputs, input);
        Ok(())
    }
    /// Adds the given command to finalize, after every rule has been checked;
    /// on an error nothing changes.
    pub fn add_command(&mut self, command: C) -> (r: Result<(), FinalizeError>)
        requires
            old(self).wf(),
        ensures
            final(self).wf(),
            match old(self).command_error(command) {
                Some(e) => r == Err::<(), FinalizeError>(e) && *final(self) == *old(self),
                None => r is Ok && old(self).after_command(*final(self), command),
            },
    {
        if self.commands.len() >= self.limits.max_commands {
            return Err(FinalizeError::CapacityExceeded);
        }
        if self.num_writes >= self.limits.max_writes {
            return Err(FinalizeError::CapacityExceeded);
        }
        if command.is_call() {
            return Err(FinalizeError::ForbiddenOperation);
        }
        if command.is_cast_to_record() {
            return Err(FinalizeError::ForbiddenOperation);
        }
        let destinations = command.destinations();
        let mut j: usize = 0;
        while j < destinations.len()
            invariant
                self.wf(),
                self.commands@.len() < self.limits.max_commands,
                self.num_writes < self.limits.max_writes,
                !command.spec_is_call(),
                !command.spec_is_cast_to_record(),
                destinations@ == command.spec_destinations(),
                j <= destinations@.len(),
                forall|k: int| 0 <= k < j ==> (#[trigger] destinations@[k]) is Locator,
            decreases destinations@.len() - j,
        {
            if !destinations[j].is_locator() {
                assert(!(command.spec_destinations()[j as int] is Locator));
                return Err(FinalizeError::InvalidRegisterKind);
            }
            j = j + 1;
        }
        assert(admissible(command));
        if let Some(target) = command.branch_to() {
            if self.find_label(target).is_some() {
                return Err(FinalizeError::InvalidBranchTarget);
            }
        }
        let index = self.commands.len();
        let ghost old_self = *self;
        if let Some(label) = command.position() {
            if self.find_label(label).is_some() {
                return Err(FinalizeError::DuplicateDeclaration);
            }
            if self.positions.len() >= MAX_POSITIONS {
                return Err(FinalizeError::CapacityExceeded);
            }
            self.positions.push((label, index));
        }
        if command.is_write() {
            self.num_writes = self.num_writes + 1;
        }
        self.commands.push(command);
        proof {
            let commands = self.commands@;
            let positions = self.positions@;
            assert(commands.drop_last() =~= old_self.commands@);
            assert forall|k: int|
                0 <= k < commands.len() && (#[trigger] commands[k]).spec_position() is Some implies exists|i: int|
                0 <= i < positions.len() && #[trigger] positions[i] == (
                commands[k].spec_position()->0,
                k as usize,
            ) by {
                if k == index {
                    assert(positions[positions.len() - 1] == (commands[k].spec_position()->0, k as usize));
                } else {
                    assert(old_self.commands@[k] == commands[k]);
                    let i = choose|i: int|
                        0 <= i < old_self.positions@.len() && #[trigger] old_self.positions@[i] == (
                        commands[k].spec_position()->0,
                        k as usize,
                    );
                    assert(positions[i] == old_self.positions@[i]);
                }
            }
        }
        Ok(())
    }
    /// Returns the name of the associated function.
    pub fn name(&self) -> (r: &Identifier)
        ensures
            *r == self.spec_name(),
    {
        &self.name
    }

    /// Returns the bounds this finalize is held to.
    pub fn limits(&self) -> (r: FinalizeLimits)
        ensures
            r == self.spec_limits(),
    {
        self.limits
    }

    /// Returns the finalize inputs, in order of declaration.
    pub fn inputs(&self) -> (r: &IndexSet<Input>)
        ensures
            input_set_items(*r) == self.spec_inputs(),
    {
        &self.inputs
    }

    /// Returns the finalize input types, in order of declaration.
    pub fn input_types(&self) -> (r: Vec<PlaintextType>)
        ensures
            r@.len() == self.spec_inputs().len(),
            forall|i: int| 0 <= i < r@.len() ==> #[trigger] r@[i] == self.spec_inputs()[i].plaintext_type,
    {
        let mut types: Vec<PlaintextType> = Vec::new();
        let mut i: usize = 0;
        let len = input_set_len(&self.inputs);
        while i < len
            invariant
                len == self.spec_inputs().len(),
                i <= len,
                types@.len() == i,
                forall|j: int| 0 <= j < i ==> #[trigger] types@[j] == self.spec_inputs()[j].plaintext_type,
            decreases len - i,
        {
            if let Some(input) = input_set_get(&self.inputs, i) {
                types.push(input.plaintext_type());
            }
            i = i + 1;
        }
        types
    }

    /// Returns the finalize commands, in order of execution.
    pub fn commands(&self) -> (r: &[C])
        ensures
            r@ == self.spec_commands(),
    {
        self.commands.as_slice()
    }

    /// Returns the number of write commands.
    pub fn num_writes(&self) -> (r: u16)
        ensures
            r as nat == self.spec_num_writes(),
    {
        self.num_writes
    }

    /// Returns the defined labels, each with the index of the command it
    /// names, in order of definition.
    pub fn positions(&self) -> (r: &[(Identifier, usize)])
        ensures
            r@ == self.spec_positions(),
    {
        self.positions.as_slice()
    }

    /// Returns the index of the command that `label` names, if it is defined.
    pub fn position_index(&self, label: Identifier) -> (r: Option<usize>)
        requires
            self.wf(),
        ensures
            r is Some <==> self.label_defined(label),
            forall|i: int|
                0 <= i < self.spec_positions().len() && (#[trigger] self.spec_positions()[i]).0 == label
                    ==> r == Some(self.spec_positions()[i].1),
    {
        match self.find_label(label) {
            Some(i) => Some(self.positions[i].1),
            None => None,
        }
    }
}

} // verus!

verus! {

/// Accepted inputs are pairwise distinct, within the input bound, and each
/// binds a locator register.
pub proof fn lemma_inputs_valid<C: CommandTrait>(core: FinalizeCore<C>)
    requires
        core.wf(),
    ensures
        core.spec_inputs().len() <= core.spec_limits().max_inputs,
        forall|i: int, j: int|
            #![trigger core.spec_inputs()[i], core.spec_inputs()[j]]
            0 <= i < j < core.spec_inputs().len() ==> !core.spec_inputs()[i].same(&core.spec_inputs()[j]),
        forall|i: int| 0 <= i < core.spec_inputs().len() ==> (#[trigger] core.spec_inputs()[i]).register is Locator,
{
}

/// Once a command has been accepted, every input is refused as out of order.
pub proof fn lemma_no_input_after_command<C: CommandTrait>(
    before: FinalizeCore<C>,
    command: C,
    after: FinalizeCore<C>,
    input: Input,
)
    requires
        before.wf(),
        before.command_error(command) is None,
        before.after_command(after, command),
    ensures
        after.input_error(input) == Some(FinalizeError::OrderingViolation),
{
}

/// A command with the same destinations, branch target, position label and
/// write flag as an accepted position command is refused: its label is
/// already defined. When no bound or forbidden operation refuses it first,
/// the error is a branch to a defined label, or else the duplicate label.
pub proof fn lemma_repeated_position_refused<C: CommandTrait>(core: FinalizeCore<C>, k: int, command: C)
    requires
        core.wf(),
        0 <= k < core.spec_commands().len(),
        core.spec_commands()[k].spec_position() is Some,
        command.spec_destinations() == core.spec_commands()[k].spec_destinations(),
        command.spec_branch_to() == core.spec_commands()[k].spec_branch_to(),
        command.spec_position() == core.spec_commands()[k].spec_position(),
        command.spec_is_write() == core.spec_commands()[k].spec_is_write(),
    ensures
        core.command_error(command) is Some,
        core.spec_commands().len() < core.spec_limits().max_commands
            && core.spec_num_writes() < core.spec_limits().max_writes && !command.spec_is_call()
            && !command.spec_is_cast_to_record() ==> core.command_error(command) == Some(
            if command.spec_branch_to() is Some && core.label_defined(command.spec_branch_to()->0) {
                FinalizeError::InvalidBranchTarget
            } else {
                FinalizeError::DuplicateDeclaration
            },
        ),
{
    let commands = core.spec_commands();
    assert(admissible(commands[k]));
    let i = choose|i: int|
        0 <= i < core.spec_positions().len() && #[trigger] core.spec_positions()[i] == (
        commands[k].spec_position()->0,
        k as usize,
    );
    assert(core.label_defined(command.spec_position()->0));
}

/// The write count is the number of accepted commands that write.
pub proof fn lemma_num_writes_counts_writes<C: CommandTrait>(core: FinalizeCore<C>)
    requires
        core.wf(),
    ensures
        core.spec_num_writes() == write_count(core.spec_commands()),
{
}

/// Every defined label names the command, within the sequence, whose
/// position is that label; and every position command has its label defined
/// at its own index.
pub proof fn lemma_positions_name_their_commands<C: CommandTrait>(core: FinalizeCore<C>)
    requires
        core.wf(),
    ensures
        forall|i: int|
            0 <= i < core.spec_positions().len() ==> {
                &&& (#[trigger] core.spec_positions()[i]).1 < core.spec_commands().len()
                &&& core.spec_commands()[core.spec_positions()[i].1 as int].spec_position() == Some(
                    core.spec_positions()[i].0,
                )
            },
        forall|i: int, j: int|
            #![trigger core.spec_positions()[i], core.spec_positions()[j]]
            0 <= i < j < core.spec_positions().len() ==> core.spec_positions()[i].0 != core.spec_positions()[j].0,
        forall|k: int|
            0 <= k < core.spec_commands().len() && (#[trigger] core.spec_commands()[k]).spec_position() is Some
                ==> exists|i: int|
                0 <= i < core.spec_positions().len() && #[trigger] core.spec_positions()[i] == (
                core.spec_commands()[k].spec_position()->0,
                k as usize,
            ),
{
    assert forall|k: int|
        0 <= k < core.spec_commands().len() && (#[trigger] core.spec_commands()[k]).spec_position() is Some
            implies exists|i: int|
            0 <= i < core.spec_positions().len() && #[trigger] core.spec_positions()[i] == (
            core.spec_commands()[k].spec_position()->0,
            k as usize,
        ) by {
        assert(core.commands@[k] == core.spec_commands()[k]);
        let i = choose|i: int|
            0 <= i < core.positions@.len() && #[trigger] core.positions@[i] == (
            core.commands@[k].spec_position()->0,
            k as usize,
        );
        assert(core.spec_positions()[i] == core.positions@[i]);
    }
}

/// Once the write bound is reached, every command is refused for capacity,
/// whether or not it writes.
pub proof fn lemma_write_bound_closes<C: CommandTrait>(core: FinalizeCore<C>, command: C)
    requires
        core.wf(),
        core.spec_num_writes() == core.spec_limits().max_writes,
    ensures
        core.command_error(command) == Some(FinalizeError::CapacityExceeded),
{
}

/// Branches only point forward: a branch never targets a label defined at
/// an earlier command.
pub proof fn lemma_branches_forward<C: CommandTrait>(core: FinalizeCore<C>)
    requires
        core.wf(),
    ensures
        forall|k: int, i: int|
            0 <= k < core.spec_commands().len() && 0 <= i < core.spec_positions().len()
                && (#[trigger] core.spec_commands()[k]).spec_branch_to() == Some(
                (#[trigger] core.spec_positions()[i]).0,
            ) ==> k <= core.spec_positions()[i].1,
{
}

/// Every accepted command is admissible: no call, no cast to a record, only
/// locator destinations.
pub proof fn lemma_commands_admissible<C: CommandTrait>(core: FinalizeCore<C>)
    requires
        core.wf(),
    ensures
        core.spec_commands().len() <= core.spec_limits().max_commands,
        core.spec_num_writes() <= core.spec_limits().max_writes,
        forall|k: int| 0 <= k < core.spec_commands().len() ==> admissible(#[trigger] core.spec_commands()[k]),
{
}

} // verus!
