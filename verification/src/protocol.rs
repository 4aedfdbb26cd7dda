//! The protocol that destroys one file: its stages, the operations it asks
//! for, and what it decides when it is told how an operation went.

use vstd::prelude::*;
use vstd::arithmetic::div_mod::{lemma_mod_adds, lemma_mod_self_0};
use crate::chunks::{chunk_len, chunk_size};
use crate::config::ShredConfig;
use crate::error::{classified, Failure, IoFault, Phase, ShredError};
use crate::random::RandomError;

verus! {


/// How many names are tried for one file before the rename is given up.
pub const NAME_ATTEMPTS: u32 = 8;

/// Where the machine stands: which operation it has asked for and waits on.
#[derive(Clone, Copy, Debug, PartialEq, Eq, Structural)]
pub enum Stage {
    /// Nothing has been asked for yet.
    Ready,
    /// The file is being opened for writing.
    Opening,
    /// The file's length is being read.
    Measuring,
    /// The cursor is being put back to the start for pass `pass`.
    Rewinding { length: u64, pass: u32 },
    /// The chunk at `offset` of pass `pass` is being written.
    Writing { length: u64, pass: u32, offset: u64 },
    /// Pass `pass` is being flushed to stable storage.
    Flushing { length: u64, pass: u32 },
    /// The cursor is being put back to the start before the truncation.
    Resetting,
    /// The file is being cut down to no bytes.
    Truncating,
    /// The truncation is being flushed.
    Settling,
    /// The host is looking whether the chosen name is taken; `attempts`
    /// more names may be tried after this one.
    Probing { attempts: u32 },
    /// The file is being renamed to the chosen name.
    Renaming,
    /// The renamed file is being removed.
    Unlinking,
    /// The file is gone.
    Destroyed,
    /// The work was given up.
    Halted(Failure),
}

/// What the host is asked to do next.
#[derive(Clone, Copy, Debug, PartialEq, Eq, Structural)]
pub enum Action {
    /// Open the file at the machine's path for writing, without creating it.
    Open,
    /// Report the file's length.
    Measure,
    /// Put the cursor at offset 0.
    Rewind,
    /// Write the machine's chunk, which has `len` bytes, at the cursor.
    Write { len: usize },
    /// Flush the file's data to stable storage.
    Sync,
    /// Set the file's length to 0.
    Truncate,
    /// Report whether anything exists at the machine's target.
    Probe,
    /// Close the file and rename it from the machine's path to its target.
    Rename,
    /// Remove the file at the machine's target.
    Unlink,
    /// Nothing more: the file was destroyed.
    Finish,
    /// Nothing more: the work failed as given.
    Abort(Failure),
}

/// What the host reports of the operation it was asked for.
#[derive(Clone, Copy, Debug, PartialEq, Eq, Structural)]
pub enum Event {
    /// The machine is being started.
    Begin,
    /// The operation succeeded.
    Completed,
    /// The file has this many bytes.
    Size(u64),
    /// Whether something exists at the probed path.
    Present(bool),
    /// The operation failed.
    Failed(IoFault),
}

/// What the machine means to do about an event, before any random bytes
/// are drawn.
#[derive(Clone, Copy, Debug, PartialEq, Eq, Structural)]
pub enum Intent {
    /// Move to the stage and ask for the action.
    Plain(Stage, Action),
    /// Draw a fresh block and write the chunk at `offset`.
    Overwrite { length: u64, pass: u32, offset: u64 },
    /// Draw a fresh name and probe it; `attempts` more may follow.
    Name { attempts: u32 },
}

/// The phase that a stage belongs to.
pub open spec fn phase_of(stage: Stage) -> Phase {
    match stage {
        Stage::Ready | Stage::Opening => Phase::Open,
        Stage::Measuring => Phase::Measure,
        Stage::Rewinding { .. } | Stage::Writing { .. } | Stage::Flushing { .. } => Phase::Overwrite,
        Stage::Resetting | Stage::Truncating | Stage::Settling => Phase::Truncate,
        Stage::Probing { .. } | Stage::Renaming => Phase::Rename,
        Stage::Unlinking | Stage::Destroyed => Phase::Unlink,
        Stage::Halted(failure) => failure.phase,
    }
}

/// Giving up with a failure.
pub open spec fn halting(failure: Failure) -> Intent {
    Intent::Plain(Stage::Halted(failure), Action::Abort(failure))
}

/// The failure of a host that reports what it was not asked for.
pub open spec fn confusion(stage: Stage) -> Failure {
    Failure { kind: ShredError::IoFailure, phase: phase_of(stage) }
}

/// What the machine means to do in `stage` when it is told `event`.
///
/// A failed operation halts the file's protocol in the phase it belongs to:
/// no later step is taken and nothing is tried again. So does an event that
/// does not answer what was asked.
pub open spec fn intent(stage: Stage, config: ShredConfig, event: Event) -> Intent {
    match stage {
        Stage::Destroyed => Intent::Plain(Stage::Destroyed, Action::Finish),
        Stage::Halted(failure) => halting(failure),
        _ => match event {
            Event::Failed(fault) => halting(Failure::raised(fault, phase_of(stage))),
            _ => match (stage, event) {
                (Stage::Ready, Event::Begin) => Intent::Plain(Stage::Opening, Action::Open),
                (Stage::Opening, Event::Completed) => Intent::Plain(
                    Stage::Measuring,
                    Action::Measure,
                ),
                (Stage::Measuring, Event::Size(length)) => Intent::Plain(
                    Stage::Rewinding { length, pass: 0 },
                    Action::Rewind,
                ),
                (Stage::Rewinding { length, pass }, Event::Completed) => if length == 0 {
                    Intent::Plain(Stage::Flushing { length, pass }, Action::Sync)
                } else {
                    Intent::Overwrite { length, pass, offset: 0 }
                },
                (Stage::Writing { length, pass, offset }, Event::Completed) => if length - offset
                    <= config.block_size() {
                    Intent::Plain(Stage::Flushing { length, pass }, Action::Sync)
                } else {
                    Intent::Overwrite {
                        length,
                        pass,
                        offset: (offset + config.block_size()) as u64,
                    }
                },
                (Stage::Flushing { length, pass }, Event::Completed) => if pass + 1
                    < config.passes() {
                    Intent::Plain(
                        Stage::Rewinding { length, pass: (pass + 1) as u32 },
                        Action::Rewind,
                    )
                } else {
                    Intent::Plain(Stage::Resetting, Action::Rewind)
                },
                (Stage::Resetting, Event::Completed) => Intent::Plain(
                    Stage::Truncating,
                    Action::Truncate,
                ),
                (Stage::Truncating, Event::Completed) => Intent::Plain(
                    Stage::Settling,
                    Action::Sync,
                ),
                (Stage::Settling, Event::Completed) => Intent::Name {
                    attempts: (NAME_ATTEMPTS - 1) as u32,
                },
                (Stage::Probing { attempts }, Event::Present(taken)) => if !taken {
                    Intent::Plain(Stage::Renaming, Action::Rename)
                } else if attempts > 0 {
                    Intent::Name { attempts: (attempts - 1) as u32 }
                } else {
                    halting(confusion(stage))
                },
                (Stage::Renaming, Event::Completed) => Intent::Plain(
                    Stage::Unlinking,
                    Action::Unlink,
                ),
                (Stage::Unlinking, Event::Completed) => Intent::Plain(
                    Stage::Destroyed,
                    Action::Finish,
                ),
                _ => halting(confusion(stage)),
            },
        },
    }
}

/// A failed operation halts the protocol in the phase of that operation,
/// with the error that the fault stands for.
pub proof fn lemma_failure_halts(stage: Stage, config: ShredConfig, fault: IoFault)
    requires
        !(stage is Destroyed),
        !(stage is Halted),
    ensures
        intent(stage, config, Event::Failed(fault)) == halting(
            Failure::raised(fault, phase_of(stage)),
        ),
{
}

/// Once halted, the machine asks for no further operation, whatever it is
/// told: nothing is tried again, and the failure stays the same.
pub proof fn lemma_halted_stays(failure: Failure, config: ShredConfig, event: Event)
    ensures
        intent(Stage::Halted(failure), config, event) == halting(failure),
{
}

/// A file that cannot be opened is not touched: the opening is the first
/// operation asked for, and where it fails the protocol halts at once, with
/// `NotFound` for a file that is not there.
pub proof fn lemma_unopened_file_is_untouched(config: ShredConfig, fault: IoFault)
    ensures
        intent(Stage::Ready, config, Event::Begin) == Intent::Plain(Stage::Opening, Action::Open),
        intent(Stage::Opening, config, Event::Failed(fault)) == halting(
            Failure { kind: classified(fault), phase: Phase::Open },
        ),
        classified(IoFault::Missing) == ShredError::NotFound,
{
}

/// Whether a stage can arise under a configuration: passes are counted from
/// 0 below the configured number, and chunks start at multiples of the
/// block size inside the file.
pub open spec fn stage_fits(stage: Stage, config: ShredConfig) -> bool {
    match stage {
        Stage::Rewinding { length, pass } => pass < config.passes(),
        Stage::Flushing { length, pass } => pass < config.passes(),
        Stage::Writing { length, pass, offset } => {
            &&& pass < config.passes()
            &&& offset < length
            &&& offset as int % config.block_size() as int == 0
        },
        _ => true,
    }
}

/// Whether what an intent leads to can arise under a configuration.
pub open spec fn intent_fits(meant: Intent, config: ShredConfig) -> bool {
    match meant {
        Intent::Plain(stage, _) => stage_fits(stage, config),
        Intent::Overwrite { length, pass, offset } => stage_fits(
            Stage::Writing { length, pass, offset },
            config,
        ),
        Intent::Name { attempts } => attempts < NAME_ATTEMPTS,
    }
}

/// From a stage that can arise, every event leads to one that can arise.
pub proof fn lemma_intent_fits(stage: Stage, config: ShredConfig, event: Event)
    requires
        config.wf(),
        stage_fits(stage, config),
        stage matches Stage::Probing { attempts } ==> attempts < NAME_ATTEMPTS,
    ensures
        intent_fits(intent(stage, config, event), config),
{
    if let Stage::Writing { length, pass, offset } = stage {
        let block = config.block_size() as int;
        lemma_mod_adds(offset as int, block, block);
        lemma_mod_self_0(block);
    }
}

/// What becomes of the wish to overwrite the chunk at `offset`, given
/// whether the block of random bytes could be drawn.
pub open spec fn overwrite_settled(
    length: u64,
    pass: u32,
    offset: u64,
    block: usize,
    drawn: bool,
) -> (Stage, Action) {
    if drawn {
        (
            Stage::Writing { length, pass, offset },
            Action::Write { len: chunk_len(length as nat, offset as nat, block as nat) as usize },
        )
    } else {
        let failure = Failure { kind: ShredError::RandomSourceUnavailable, phase: Phase::Overwrite };
        (Stage::Halted(failure), Action::Abort(failure))
    }
}

/// What becomes of the wish to probe a fresh name, given whether one could
/// be drawn.
pub open spec fn name_settled(attempts: u32, drawn: bool) -> (Stage, Action) {
    if drawn {
        (Stage::Probing { attempts }, Action::Probe)
    } else {
        let failure = Failure { kind: ShredError::RandomSourceUnavailable, phase: Phase::Rename };
        (Stage::Halted(failure), Action::Abort(failure))
    }
}

/// Decides what to do in `stage` about `event`.
pub fn decide(stage: Stage, config: &ShredConfig, event: Event) -> (meant: Intent)
    requires
        config.wf(),
        stage_fits(stage, *config),
    ensures
        meant == intent(stage, *config, event),
{
    match stage {
        Stage::Destroyed => Intent::Plain(Stage::Destroyed, Action::Finish),
        Stage::Halted(failure) => Intent::Plain(Stage::Halted(failure), Action::Abort(failure)),
        _ => match event {
            Event::Failed(fault) => {
                let failure = Failure::from_fault(fault, stage_phase(stage));
                Intent::Plain(Stage::Halted(failure), Action::Abort(failure))
            },
            _ => match (stage, event) {
                (Stage::Ready, Event::Begin) => Intent::Plain(Stage::Opening, Action::Open),
                (Stage::Opening, Event::Completed) => Intent::Plain(
                    Stage::Measuring,
                    Action::Measure,
                ),
                (Stage::Measuring, Event::Size(length)) => Intent::Plain(
                    Stage::Rewinding { length, pass: 0 },
                    Action::Rewind,
                ),
                (Stage::Rewinding { length, pass }, Event::Completed) => if length == 0 {
                    Intent::Plain(Stage::Flushing { length, pass }, Action::Sync)
                } else {
                    Intent::Overwrite { length, pass, offset: 0 }
                },
                (Stage::Writing { length, pass, offset }, Event::Completed) => if length - offset
                    <= config.block_size() as u64 {
                    Intent::Plain(Stage::Flushing { length, pass }, Action::Sync)
                } else {
                    Intent::Overwrite { length, pass, offset: offset + config.block_size() as u64 }
                },
                (Stage::Flushing { length, pass }, Event::Completed) => if pass + 1
                    < config.passes() {
                    Intent::Plain(Stage::Rewinding { length, pass: pass + 1 }, Action::Rewind)
                } else {
                    Intent::Plain(Stage::Resetting, Action::Rewind)
                },
                (Stage::Resetting, Event::Completed) => Intent::Plain(
                    Stage::Truncating,
                    Action::Truncate,
                ),
                (Stage::Truncating, Event::Completed) => Intent::Plain(
                    Stage::Settling,
                    Action::Sync,
                ),
                (Stage::Settling, Event::Completed) => Intent::Name { attempts: NAME_ATTEMPTS - 1 },
                (Stage::Probing { attempts }, Event::Present(taken)) => if !taken {
                    Intent::Plain(Stage::Renaming, Action::Rename)
                } else if attempts > 0 {
                    Intent::Name { attempts: attempts - 1 }
                } else {
                    let failure = Failure { kind: ShredError::IoFailure, phase: Phase::Rename };
                    Intent::Plain(Stage::Halted(failure), Action::Abort(failure))
                },
                (Stage::Renaming, Event::Completed) => Intent::Plain(
                    Stage::Unlinking,
                    Action::Unlink,
                ),
                (Stage::Unlinking, Event::Completed) => Intent::Plain(
                    Stage::Destroyed,
                    Action::Finish,
                ),
                _ => {
                    let failure = Failure {
                        kind: ShredError::IoFailure,
                        phase: stage_phase(stage),
                    };
                    Intent::Plain(Stage::Halted(failure), Action::Abort(failure))
                },
            },
        },
    }
}

/// The phase that a stage belongs to.
pub fn stage_phase(stage: Stage) -> (phase: Phase)
    ensures
        phase == phase_of(stage),
{
    match stage {
        Stage::Ready | Stage::Opening => Phase::Open,
        Stage::Measuring => Phase::Measure,
        Stage::Rewinding { .. } | Stage::Writing { .. } | Stage::Flushing { .. } => Phase::Overwrite,
        Stage::Resetting | Stage::Truncating | Stage::Settling => Phase::Truncate,
        Stage::Probing { .. } | Stage::Renaming => Phase::Rename,
        Stage::Unlinking | Stage::Destroyed => Phase::Unlink,
        Stage::Halted(failure) => failure.phase,
    }
}

/// Settles the wish to overwrite the chunk at `offset`, given how the
/// drawing of the random block went.
pub fn settle_overwrite(
    length: u64,
    pass: u32,
    offset: u64,
    block: usize,
    drawn: Result<(), RandomError>,
) -> (next: (Stage, Action))
    requires
        offset < length,
        block > 0,
    ensures
        next == overwrite_settled(length, pass, offset, block, drawn is Ok),
{
    match drawn {
        Ok(()) => (
            Stage::Writing { length, pass, offset },
            Action::Write { len: chunk_size(length, offset, block) },
        ),
        Err(_) => {
            let failure = Failure {
                kind: ShredError::RandomSourceUnavailable,
                phase: Phase::Overwrite,
            };
            (Stage::Halted(failure), Action::Abort(failure))
        },
    }
}

/// Settles the wish to probe a fresh name, given how the drawing of the
/// name went.
pub fn settle_name(attempts: u32, drawn: &Result<Vec<u8>, RandomError>) -> (next: (Stage, Action))
    ensures
        next == name_settled(attempts, drawn is Ok),
{
    match drawn {
        Ok(_) => (Stage::Probing { attempts }, Action::Probe),
        Err(_) => {
            let failure = Failure {
                kind: ShredError::RandomSourceUnavailable,
                phase: Phase::Rename,
            };
            (Stage::Halted(failure), Action::Abort(failure))
        },
    }
}

/// An upper bound on the operations that the machine can still ask for.
pub open spec fn steps_left(stage: Stage, config: ShredConfig) -> nat {
    let naming = 3 + NAME_ATTEMPTS as nat;
    match stage {
        Stage::Destroyed | Stage::Halted(_) => 0,
        Stage::Unlinking => 1,
        Stage::Renaming => 2,
        Stage::Probing { attempts } => 3 + attempts as nat,
        Stage::Settling => naming,
        Stage::Truncating => naming + 1,
        Stage::Resetting => naming + 2,
        Stage::Flushing { length, pass } => naming + 3 + passes_left(length, pass, config),
        Stage::Writing { length, pass, offset } => naming + 4 + passes_left(length, pass, config)
            + (length - offset) as nat,
        Stage::Rewinding { length, pass } => naming + 5 + passes_left(length, pass, config)
            + length as nat,
        Stage::Measuring => naming + 6 + config.passes() as nat * (u64::MAX as nat + 3),
        Stage::Opening => naming + 7 + config.passes() as nat * (u64::MAX as nat + 3),
        Stage::Ready => naming + 8 + config.passes() as nat * (u64::MAX as nat + 3),
    }
}

/// The share of `steps_left` that the passes after `pass` account for.
pub open spec fn passes_left(length: u64, pass: u32, config: ShredConfig) -> nat {
    ((config.passes() - 1 - pass) * (length + 3)) as nat
}

/// A pass accounts for three steps more than the file has bytes.
proof fn lemma_passes_left_step(length: u64, pass: u32, config: ShredConfig)
    requires
        1 <= pass + 1 <= config.passes(),
    ensures
        pass > 0 ==> passes_left(length, (pass - 1) as u32, config) == passes_left(
            length,
            pass,
            config,
        ) + length + 3,
        passes_left(length, pass, config) + (pass + 1) * (length + 3) == config.passes() * (length
            + 3),
{
    let passes = config.passes() as int;
    assert(0 <= (passes - 1 - pass) * (length + 3)) by (nonlinear_arith)
        requires
            pass < passes,
            length >= 0,
    ;
    assert((passes - pass) * (length + 3) == (passes - 1 - pass) * (length + 3) + length + 3)
        by (nonlinear_arith);
    assert((passes - 1 - pass) * (length + 3) + (pass + 1) * (length + 3) == passes * (length + 3))
        by (nonlinear_arith);
}

/// All the passes over a file of any length account for no more steps than
/// those over the longest file.
proof fn lemma_whole_passes_bounded(length: u64, config: ShredConfig)
    ensures
        config.passes() * (length + 3) <= config.passes() * (u64::MAX + 3),
{
    let passes = config.passes() as int;
    assert(passes * (length + 3) <= passes * (u64::MAX + 3)) by (nonlinear_arith)
        requires
            passes >= 0,
            length <= u64::MAX,
    ;
}

/// The stage and the action that an intent leads to, given whether the
/// random bytes it needs could be drawn.
pub open spec fn outcome_of(meant: Intent, config: ShredConfig, drawn: bool) -> (Stage, Action) {
    match meant {
        Intent::Plain(stage, action) => (stage, action),
        Intent::Overwrite { length, pass, offset } => overwrite_settled(
            length,
            pass,
            offset,
            config.block_size(),
            drawn,
        ),
        Intent::Name { attempts } => name_settled(attempts, drawn),
    }
}

/// The protocol ends: every step that does not end it brings the end
/// nearer, so that no operation is asked for without bound.
pub proof fn lemma_steps_run_out(stage: Stage, config: ShredConfig, event: Event, drawn: bool)
    requires
        config.wf(),
        stage_fits(stage, config),
        stage matches Stage::Probing { attempts } ==> attempts < NAME_ATTEMPTS,
        !(stage is Destroyed),
        !(stage is Halted),
    ensures
        steps_left(outcome_of(intent(stage, config, event), config, drawn).0, config) < steps_left(
            stage,
            config,
        ),
{
    match stage {
        Stage::Measuring => {
            if let Event::Size(length) = event {
                lemma_passes_left_step(length, 0, config);
                lemma_whole_passes_bounded(length, config);
            }
        },
        Stage::Flushing { length, pass } => {
            if pass + 1 < config.passes() {
                lemma_passes_left_step(length, (pass + 1) as u32, config);
            }
        },
        _ => {},
    }
}

} // verus!
