//! Construction-time validation of finalize programs: an ordered list of
//! inputs and commands whose structural safety rules (capacity bounds,
//! register kinds, forbidden operations, forward-only branches and unique
//! position labels) are checked as each item is added.

mod command;
mod error;
mod finalize;
mod input_set;
mod types;

pub use command::{Command, CommandTrait, FinalizeCommand, FinalizeCommandTrait};
pub use error::FinalizeError;
pub use input_set::{holds_input, input_set_items};
pub use types::{Identifier, Input, LiteralType, PlaintextType, Register};
pub use finalize::{
    admissible, lemma_branches_forward, lemma_commands_admissible, lemma_inputs_valid,
    lemma_no_input_after_command, lemma_num_writes_counts_writes, lemma_positions_name_their_commands,
    lemma_repeated_position_refused, lemma_write_bound_closes, write_count, FinalizeCore, FinalizeLimits,
    MAX_POSITIONS,
};
