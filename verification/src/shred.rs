//! The destruction of one file, as a machine that the host drives: it asks
//! for one file operation at a time and is told how each one went.

use vstd::prelude::*;
use vstd::slice::slice_subrange;
use crate::chunks::chunk_len;
use crate::config::ShredConfig;
use crate::error::Failure;
use crate::name::{is_name, random_name};
use crate::path::{directory_part, file_name, lemma_sibling_parts, sibling_path};
use crate::protocol::{
    decide, intent, lemma_intent_fits, outcome_of, settle_name, settle_overwrite, stage_fits,
    Action, Event, Intent, Stage, NAME_ATTEMPTS,
};
use crate::random::fill;

verus! {

/// A target that disguises a path: it lies in the same directory, under a
/// generated name that is not the path's own.
pub open spec fn is_disguise(path: Seq<u8>, target: Seq<u8>) -> bool {
    &&& directory_part(target) == directory_part(path)
    &&& is_name(file_name(target))
    &&& file_name(target) != file_name(path)
}

/// The machine that destroys one file.
pub struct Shredder {
    config: ShredConfig,
    path: Vec<u8>,
    stage: Stage,
    buffer: Vec<u8>,
    staged: usize,
    target: Vec<u8>,
}

/// What a machine is, to its driver.
pub struct ShredderView {
    /// The configuration it was made with.
    pub config: ShredConfig,
    /// The path of the file to destroy.
    pub path: Seq<u8>,
    /// Where it stands.
    pub stage: Stage,
    /// The bytes of the write it last asked for.
    pub chunk: Seq<u8>,
    /// The path that the file is renamed to.
    pub target: Seq<u8>,
}

/// What holds of every machine, whatever it was told: its stage can arise
/// under its configuration, a pending write has the size of its chunk, and
/// from the probing of a name on the target disguises the path.
pub open spec fn coherent(v: ShredderView) -> bool {
    &&& v.config.wf()
    &&& stage_fits(v.stage, v.config)
    &&& (v.stage matches Stage::Writing { length, pass, offset } ==> v.chunk.len() == chunk_len(
        length as nat,
        offset as nat,
        v.config.block_size() as nat,
    ))
    &&& (v.stage matches Stage::Probing { attempts } ==> attempts < NAME_ATTEMPTS)
    &&& (v.stage is Probing || v.stage is Renaming || v.stage is Unlinking ==> is_disguise(
        v.path,
        v.target,
    ))
}

/// How one step relates the machine before it, the event, the machine
/// after it and the action asked for.
///
/// Configuration and path never change. What is meant is `intent` of the
/// stage and the event. Where that needs random bytes, the step either goes
/// on as meant or halts because none could be drawn.
pub open spec fn stepped(
    before: ShredderView,
    event: Event,
    after: ShredderView,
    action: Action,
) -> bool {
    &&& after.config == before.config
    &&& after.path == before.path
    &&& coherent(after)
    &&& {
        let meant = intent(before.stage, before.config, event);
        &&& {
            ||| (after.stage, action) == outcome_of(meant, before.config, true)
            ||| (after.stage, action) == outcome_of(meant, before.config, false)
        }
        &&& (meant is Name && after.stage is Probing || after.target == before.target)
        &&& (meant is Plain ==> after.chunk == before.chunk)
    }
}

impl View for Shredder {
    type V = ShredderView;

    closed spec fn view(&self) -> ShredderView {
        ShredderView {
            config: self.config,
            path: self.path@,
            stage: self.stage,
            chunk: self.buffer@.take(self.staged as int),
            target: self.target@,
        }
    }
}

impl Shredder {
    /// The buffer is one block, and the pending write lies within it.
    pub closed spec fn inv(&self) -> bool {
        &&& self.buffer@.len() == self.config.block_size()
        &&& self.staged <= self.buffer@.len()
    }

    /// The machine is sound.
    pub open spec fn wf(&self) -> bool {
        self.inv() && coherent(self@)
    }

    /// A machine for the file at `path`, which has asked for nothing yet.
    pub fn new(path: Vec<u8>, config: ShredConfig) -> (machine: Shredder)
        requires
            config.wf(),
        ensures
            machine.wf(),
            machine@.config == config,
            machine@.path == path@,
            machine@.stage == Stage::Ready,
            machine@.chunk.len() == 0,
            machine@.target.len() == 0,
    {
        let mut buffer: Vec<u8> = Vec::new();
        let mut i: usize = 0;
        while i < config.block_size()
            invariant
                i <= config.block_size(),
                buffer@.len() == i,
            decreases config.block_size() - i,
        {
            buffer.push(0u8);
            i = i + 1;
        }
        Shredder { config, path, stage: Stage::Ready, buffer, staged: 0, target: Vec::new() }
    }

    /// Takes the report of the operation last asked for, or `Begin`, and
    /// says what to do next.
    ///
    /// What it means to do is `intent` of its stage and the event. Where
    /// that needs random bytes, the entropy source decides between going on
    /// and halting with `RandomSourceUnavailable`: a chunk is never written
    /// from a block that was not freshly drawn, and a file is never renamed
    /// to a name that was not.
    pub fn step(&mut self, event: Event) -> (action: Action)
        requires
            old(self).wf(),
        ensures
            final(self).wf(),
            stepped(old(self)@, event, final(self)@, action),
    {
        proof {
            lemma_intent_fits(self.stage, self.config, event);
        }
        let meant = decide(self.stage, &self.config, event);
        match meant {
            Intent::Plain(stage, action) => {
                self.stage = stage;
                action
            },
            Intent::Overwrite { length, pass, offset } => {
                let drawn = fill(&mut self.buffer);
                let (stage, action) = settle_overwrite(
                    length,
                    pass,
                    offset,
                    self.config.block_size(),
                    drawn,
                );
                if let Action::Write { len } = action {
                    self.staged = len;
                }
                self.stage = stage;
                action
            },
            Intent::Name { attempts } => {
                let drawn = random_name(&self.path);
                let (stage, action) = settle_name(attempts, &drawn);
                if let Ok(name) = drawn {
                    self.target = sibling_path(&self.path, &name);
                    proof {
                        lemma_sibling_parts(self.path@, name@);
                    }
                }
                self.stage = stage;
                action
            },
        }
    }

    /// The bytes of the write last asked for: the front of a block that
    /// was freshly drawn for it.
    pub fn chunk(&self) -> (data: &[u8])
        requires
            self.wf(),
        ensures
            data@ == self@.chunk,
    {
        slice_subrange(self.buffer.as_slice(), 0, self.staged)
    }

    /// The path of the file to destroy.
    pub fn path(&self) -> (path: &Vec<u8>)
        ensures
            path@ == self@.path,
    {
        &self.path
    }

    /// The path that the file is renamed to, once a name was drawn.
    pub fn target(&self) -> (target: &Vec<u8>)
        ensures
            target@ == self@.target,
    {
        &self.target
    }

    /// Where the machine stands.
    pub fn stage(&self) -> (stage: Stage)
        ensures
            stage == self@.stage,
    {
        self.stage
    }

    /// The configuration the machine was made with.
    pub fn config(&self) -> (config: ShredConfig)
        ensures
            config == self@.config,
    {
        self.config
    }

    /// How the work ended: `None` while it goes on.
    pub fn outcome(&self) -> (ended: Option<Result<(), Failure>>)
        ensures
            ended == concluded(self@.stage),
    {
        match self.stage {
            Stage::Destroyed => Some(Ok(())),
            Stage::Halted(failure) => Some(Err(failure)),
            _ => None,
        }
    }
}

/// How the work ended in a stage: `None` while it goes on.
pub open spec fn concluded(stage: Stage) -> Option<Result<(), Failure>> {
    match stage {
        Stage::Destroyed => Some(Ok(())),
        Stage::Halted(failure) => Some(Err(failure)),
        _ => None,
    }
}

} // verus!
