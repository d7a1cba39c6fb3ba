use finalize_core::{
    Command, CommandTrait, FinalizeCommand, FinalizeCommandTrait, FinalizeCore, FinalizeError,
    FinalizeLimits, Identifier, Input, LiteralType, PlaintextType, Register, MAX_POSITIONS,
};

const TRANSFER: u64 = 1;
const END: u64 = 2;
const LOOP: u64 = 3;

fn limits() -> FinalizeLimits {
    FinalizeLimits { max_inputs: 16, max_commands: 1024, max_writes: 16 }
}

fn transfer_core() -> FinalizeCore<Command> {
    FinalizeCore::new(Identifier::new(TRANSFER), limits())
}

fn u64_input(locator: u64) -> Input {
    Input::new(Register::Locator(locator), PlaintextType::Literal(LiteralType::U64))
}

fn plain(locator: u64) -> Command {
    Command::new(vec![Register::Locator(locator)])
}

fn branch(target: u64) -> Command {
    let mut c = Command::new(vec![]);
    c.branch_to = Some(Identifier::new(target));
    c
}

fn position(label: u64) -> Command {
    let mut c = Command::new(vec![]);
    c.position = Some(Identifier::new(label));
    c
}

fn write() -> Command {
    let mut c = Command::new(vec![]);
    c.is_write = true;
    c
}

#[test]
fn scenario_a_duplicate_input() {
    let mut f = transfer_core();
    assert_eq!(*f.name(), Identifier::new(TRANSFER));
    assert_eq!(f.add_input(u64_input(0)), Ok(()));
    assert_eq!(f.add_input(u64_input(0)), Err(FinalizeError::DuplicateDeclaration));
    assert_eq!(f.inputs().len(), 1);
}

#[test]
fn scenario_b_forward_branch_only() {
    let mut f = transfer_core();
    assert_eq!(f.add_command(branch(END)), Ok(()));
    assert_eq!(f.add_command(position(END)), Ok(()));
    assert_eq!(f.position_index(Identifier::new(END)), Some(f.commands().len() - 1));
    assert_eq!(f.positions(), &[(Identifier::new(END), 1)]);
    assert_eq!(f.add_command(branch(END)), Err(FinalizeError::InvalidBranchTarget));
    assert_eq!(f.commands().len(), 2);
}

#[test]
fn scenario_c_duplicate_position() {
    let mut f = transfer_core();
    assert_eq!(f.add_command(position(LOOP)), Ok(()));
    assert_eq!(f.positions().len(), 1);
    assert_eq!(f.add_command(position(LOOP)), Err(FinalizeError::DuplicateDeclaration));
    assert_eq!(f.positions().len(), 1);
    assert_eq!(f.commands().len(), 1);
}

#[test]
fn scenario_d_write_bound_closes_all_commands() {
    let mut f = transfer_core();
    for _ in 0..16 {
        assert_eq!(f.add_command(write()), Ok(()));
    }
    assert_eq!(f.num_writes(), 16);
    let before = f.commands().len();
    assert_eq!(f.add_command(plain(0)), Err(FinalizeError::CapacityExceeded));
    assert_eq!(f.commands().len(), before);
    assert_eq!(f.add_command(write()), Err(FinalizeError::CapacityExceeded));
    assert_eq!(f.num_writes(), 16);
}

#[test]
fn scenario_e_call_forbidden() {
    let mut f = transfer_core();
    let mut c = plain(0);
    c.is_call = true;
    assert_eq!(f.add_command(c), Err(FinalizeError::ForbiddenOperation));
    assert_eq!(f.commands().len(), 0);
    assert_eq!(f.num_writes(), 0);
    assert_eq!(f.positions().len(), 0);
    // Inputs may still be declared: nothing was accepted.
    assert_eq!(f.add_input(u64_input(0)), Ok(()));
}

#[test]
fn cast_to_record_forbidden() {
    let mut f = transfer_core();
    let mut c = plain(0);
    c.is_cast_to_record = true;
    assert_eq!(f.add_command(c), Err(FinalizeError::ForbiddenOperation));
    assert_eq!(f.commands().len(), 0);
}

#[test]
fn input_after_command_is_out_of_order() {
    let mut f = transfer_core();
    assert_eq!(f.add_input(u64_input(0)), Ok(()));
    assert_eq!(f.add_command(plain(1)), Ok(()));
    assert_eq!(f.add_input(u64_input(1)), Err(FinalizeError::OrderingViolation));
    assert_eq!(f.add_input(u64_input(0)), Err(FinalizeError::OrderingViolation));
    assert_eq!(f.inputs().len(), 1);
    assert_eq!(f.commands().len(), 1);
}

#[test]
fn input_bound_is_exact() {
    let mut f: FinalizeCore<Command> = FinalizeCore::new(
        Identifier::new(TRANSFER),
        FinalizeLimits { max_inputs: 2, max_commands: 8, max_writes: 2 },
    );
    assert_eq!(f.add_input(u64_input(0)), Ok(()));
    assert_eq!(f.add_input(u64_input(1)), Ok(()));
    assert_eq!(f.add_input(u64_input(2)), Err(FinalizeError::CapacityExceeded));
    assert_eq!(f.inputs().len(), 2);
}

#[test]
fn input_with_zero_bound_is_refused() {
    let mut f: FinalizeCore<Command> = FinalizeCore::new(
        Identifier::new(TRANSFER),
        FinalizeLimits { max_inputs: 0, max_commands: 8, max_writes: 2 },
    );
    assert_eq!(f.add_input(u64_input(0)), Err(FinalizeError::CapacityExceeded));
}

#[test]
fn input_member_register_refused() {
    let mut f = transfer_core();
    let input = Input::new(
        Register::Member(0, vec![Identifier::new(7)]),
        PlaintextType::Literal(LiteralType::U64),
    );
    assert_eq!(f.add_input(input), Err(FinalizeError::InvalidRegisterKind));
    assert_eq!(f.inputs().len(), 0);
}

#[test]
fn same_register_other_type_is_distinct() {
    let mut f = transfer_core();
    assert_eq!(f.add_input(u64_input(0)), Ok(()));
    let other = Input::new(Register::Locator(0), PlaintextType::Literal(LiteralType::Field));
    assert_eq!(f.add_input(other), Ok(()));
    assert_eq!(f.inputs().len(), 2);
}

#[test]
fn input_types_keep_declaration_order() {
    let mut f = transfer_core();
    assert_eq!(f.add_input(u64_input(0)), Ok(()));
    let s = Input::new(Register::Locator(1), PlaintextType::Struct(Identifier::new(9)));
    assert_eq!(f.add_input(s), Ok(()));
    let b = Input::new(Register::Locator(2), PlaintextType::Literal(LiteralType::Boolean));
    assert_eq!(f.add_input(b), Ok(()));
    assert_eq!(
        f.input_types(),
        vec![
            PlaintextType::Literal(LiteralType::U64),
            PlaintextType::Struct(Identifier::new(9)),
            PlaintextType::Literal(LiteralType::Boolean),
        ]
    );
    assert_eq!(f.inputs()[1].register(), &Register::Locator(1));
}

#[test]
fn member_destination_refused() {
    let mut f = transfer_core();
    let c = Command::new(vec![Register::Locator(0), Register::Member(1, vec![Identifier::new(4)])]);
    assert_eq!(f.add_command(c), Err(FinalizeError::InvalidRegisterKind));
    assert_eq!(f.commands().len(), 0);
}

#[test]
fn command_bound_is_exact() {
    let mut f: FinalizeCore<Command> = FinalizeCore::new(
        Identifier::new(TRANSFER),
        FinalizeLimits { max_inputs: 2, max_commands: 2, max_writes: 2 },
    );
    assert_eq!(f.add_command(plain(0)), Ok(()));
    assert_eq!(f.add_command(plain(1)), Ok(()));
    assert_eq!(f.add_command(plain(2)), Err(FinalizeError::CapacityExceeded));
    assert_eq!(f.commands().len(), 2);
}

#[test]
fn position_bound_is_exact() {
    let mut f = transfer_core();
    for label in 0..MAX_POSITIONS as u64 {
        assert_eq!(f.add_command(position(100 + label)), Ok(()));
    }
    assert_eq!(f.positions().len(), 255);
    assert_eq!(f.add_command(position(99)), Err(FinalizeError::CapacityExceeded));
    assert_eq!(f.positions().len(), 255);
    assert_eq!(f.commands().len(), 255);
    // A command without a position is still accepted.
    assert_eq!(f.add_command(plain(0)), Ok(()));
}

#[test]
fn num_writes_counts_write_commands() {
    let mut f = transfer_core();
    assert_eq!(f.add_command(write()), Ok(()));
    assert_eq!(f.add_command(plain(0)), Ok(()));
    assert_eq!(f.add_command(write()), Ok(()));
    let mut refused = write();
    refused.is_call = true;
    assert_eq!(f.add_command(refused), Err(FinalizeError::ForbiddenOperation));
    assert_eq!(f.num_writes(), 2);
    let count = f.commands().iter().filter(|c| c.is_write()).count();
    assert_eq!(f.num_writes() as usize, count);
}

#[test]
fn positions_name_their_commands() {
    let mut f = transfer_core();
    assert_eq!(f.add_command(plain(0)), Ok(()));
    assert_eq!(f.add_command(position(LOOP)), Ok(()));
    assert_eq!(f.add_command(write()), Ok(()));
    assert_eq!(f.add_command(position(END)), Ok(()));
    for (label, index) in f.positions() {
        assert_eq!(f.commands()[*index].position(), Some(*label));
    }
    assert_eq!(f.position_index(Identifier::new(LOOP)), Some(1));
    assert_eq!(f.position_index(Identifier::new(END)), Some(3));
    assert_eq!(f.position_index(Identifier::new(TRANSFER)), None);
}

#[test]
fn repeated_position_command_refused_unchanged() {
    let mut f = transfer_core();
    let mut c = position(LOOP);
    c.is_write = true;
    c.destinations = vec![Register::Locator(3)];
    assert_eq!(f.add_command(c.clone()), Ok(()));
    assert_eq!(f.add_command(c), Err(FinalizeError::DuplicateDeclaration));
    assert_eq!(f.commands().len(), 1);
    assert_eq!(f.num_writes(), 1);
    assert_eq!(f.positions(), &[(Identifier::new(LOOP), 0)]);
}

#[test]
fn repeated_branching_position_command_refused_as_branch() {
    let mut f = transfer_core();
    let mut c = position(END);
    c.branch_to = Some(Identifier::new(END));
    assert_eq!(f.add_command(c.clone()), Ok(()));
    assert_eq!(f.positions(), &[(Identifier::new(END), 0)]);
    assert_eq!(f.add_command(c), Err(FinalizeError::InvalidBranchTarget));
    assert_eq!(f.commands().len(), 1);
}

#[test]
fn branch_to_undefined_label_accepted_repeatedly() {
    let mut f = transfer_core();
    assert_eq!(f.add_command(branch(END)), Ok(()));
    assert_eq!(f.add_command(branch(END)), Ok(()));
    assert_eq!(f.positions().len(), 0);
    assert_eq!(f.commands().len(), 2);
}

#[test]
fn register_equality_compares_paths() {
    let a = Register::Member(1, vec![Identifier::new(1), Identifier::new(2)]);
    let b = Register::Member(1, vec![Identifier::new(1), Identifier::new(2)]);
    let c = Register::Member(1, vec![Identifier::new(1), Identifier::new(3)]);
    let d = Register::Member(1, vec![Identifier::new(1)]);
    assert!(a == b);
    assert!(a != c);
    assert!(a != d);
    assert!(Register::Locator(1) != Register::Member(1, vec![]));
    assert!(Register::Locator(1) == Register::Locator(1));
    assert!(a.is_locator() == false);
    assert!(Register::Locator(5).is_locator());
}

#[test]
fn limits_are_kept() {
    let f = transfer_core();
    assert_eq!(f.limits(), limits());
    assert_eq!(f.num_writes(), 0);
}

#[test]
fn operand_count_is_reported() {
    assert_eq!(FinalizeCommand { operands: 3 }.num_operands(), 3);
}

#[test]
fn error_messages_differ() {
    let kinds = [
        FinalizeError::OrderingViolation,
        FinalizeError::CapacityExceeded,
        FinalizeError::DuplicateDeclaration,
        FinalizeError::InvalidRegisterKind,
        FinalizeError::ForbiddenOperation,
        FinalizeError::InvalidBranchTarget,
    ];
    for (i, a) in kinds.iter().enumerate() {
        assert!(!a.message().is_empty());
        for b in kinds.iter().skip(i + 1) {
            assert_ne!(a.message(), b.message());
        }
    }
}
