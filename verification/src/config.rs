//! How thoroughly a file is overwritten.

use vstd::prelude::*;

verus! {

/// The most passes a configuration may ask for.
pub const MAX_PASSES: u32 = 64;

/// The largest block a configuration may ask for: 16 MiB.
pub const MAX_BLOCK_SIZE: usize = 16777216;

/// The number of passes used when nothing else is asked for.
pub const DEFAULT_PASSES: u32 = 7;

/// The block size used when nothing else is asked for.
pub const DEFAULT_BLOCK_SIZE: usize = 4096;

/// The number of overwrite passes and the size of the blocks they write.
#[derive(Clone, Copy, Debug, PartialEq, Eq, Structural)]
pub struct ShredConfig {
    passes: u32,
    block_size: usize,
}

/// Whether a pass count and a block size make a configuration.
pub open spec fn acceptable(passes: u32, block_size: usize) -> bool {
    &&& 1 <= passes <= MAX_PASSES
    &&& 1 <= block_size <= MAX_BLOCK_SIZE
}

impl ShredConfig {
    /// The pass count.
    pub closed spec fn spec_passes(&self) -> u32 {
        self.passes
    }

    /// The block size.
    pub closed spec fn spec_block_size(&self) -> usize {
        self.block_size
    }

    /// Every configuration that can be built is within the bounds.
    pub open spec fn wf(&self) -> bool {
        acceptable(self.spec_passes(), self.spec_block_size())
    }

    /// A configuration with the given values, if they are within the bounds.
    pub fn new(passes: u32, block_size: usize) -> (config: Option<ShredConfig>)
        ensures
            config is Some <==> acceptable(passes, block_size),
            config matches Some(c) ==> c.wf() && c.spec_passes() == passes && c.spec_block_size()
                == block_size,
    {
        if 1 <= passes && passes <= MAX_PASSES && 1 <= block_size && block_size <= MAX_BLOCK_SIZE {
            Some(ShredConfig { passes, block_size })
        } else {
            None
        }
    }

    /// Seven passes in blocks of 4096 bytes.
    pub fn standard() -> (config: ShredConfig)
        ensures
            config.wf(),
            config.spec_passes() == DEFAULT_PASSES,
            config.spec_block_size() == DEFAULT_BLOCK_SIZE,
    {
        ShredConfig { passes: DEFAULT_PASSES, block_size: DEFAULT_BLOCK_SIZE }
    }

    /// The pass count.
    #[verifier::when_used_as_spec(spec_passes)]
    pub fn passes(&self) -> (n: u32)
        ensures
            n == self.spec_passes(),
    {
        self.passes
    }

    /// The block size.
    #[verifier::when_used_as_spec(spec_block_size)]
    pub fn block_size(&self) -> (n: usize)
        ensures
            n == self.spec_block_size(),
    {
        self.block_size
    }
}

} // verus!
