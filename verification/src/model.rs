//! What the protocol does to a file, shown on a model of the file and of
//! the directory that holds it.

use vstd::prelude::*;
use crate::chunks::chunk_len;
use crate::path::file_name;
use crate::protocol::{Action, Event, Stage};
use crate::shred::{coherent, stepped, ShredderView};

verus! {

/// A file and the names in its directory, as far as the protocol touches
/// them.
pub struct World {
    /// The bytes of the file.
    pub content: Seq<u8>,
    /// Where the next write goes.
    pub cursor: nat,
    /// The bytes that were written, one write after the other from the
    /// start, since the cursor was last put there.
    pub laid: Seq<u8>,
    /// The names of the entries of the directory that holds the file.
    pub names: Set<Seq<u8>>,
}

/// The world after `data` was written at the cursor: the bytes replace what
/// was there and lengthen the file where they reach beyond its end.
pub open spec fn written(world: World, data: Seq<u8>) -> World {
    let end = world.cursor + data.len();
    let tail = if end < world.content.len() {
        world.content.subrange(end as int, world.content.len() as int)
    } else {
        Seq::empty()
    };
    World {
        content: world.content.take(world.cursor as int) + data + tail,
        cursor: end,
        laid: if world.cursor == world.laid.len() {
            world.laid + data
        } else {
            world.laid
        },
        ..world
    }
}

/// The world after the cursor was put at the start.
pub open spec fn rewound(world: World) -> World {
    World { cursor: 0, laid: Seq::empty(), ..world }
}

/// The world after the file was cut down to no bytes.
pub open spec fn truncated(world: World) -> World {
    World { content: Seq::empty(), laid: Seq::empty(), ..world }
}

/// The world after the entry `from` was renamed to `to`.
pub open spec fn renamed(world: World, from: Seq<u8>, to: Seq<u8>) -> World {
    World { names: world.names.remove(from).insert(to), ..world }
}

/// The world after the entry `name` was removed.
pub open spec fn unlinked(world: World, name: Seq<u8>) -> World {
    World { names: world.names.remove(name), ..world }
}

/// A write within the file keeps its length, puts the data where the cursor
/// was and leaves every other byte as it was.
pub proof fn lemma_written_within(world: World, data: Seq<u8>)
    requires
        world.cursor + data.len() <= world.content.len(),
    ensures
        written(world, data).content.len() == world.content.len(),
        written(world, data).content.subrange(
            world.cursor as int,
            (world.cursor + data.len()) as int,
        ) == data,
        forall|i: int|
            0 <= i < world.content.len() && !(world.cursor <= i < world.cursor + data.len())
                ==> written(world, data).content[i] == world.content[i],
{
    let after = written(world, data).content;
    assert(after.subrange(world.cursor as int, (world.cursor + data.len()) as int) =~= data);
}

/// A write that reaches beyond the end makes the file longer: a whole block
/// written where only the rest of the file was due would grow the file.
pub proof fn lemma_written_beyond(world: World, data: Seq<u8>)
    requires
        world.cursor <= world.content.len(),
        world.cursor + data.len() > world.content.len(),
    ensures
        written(world, data).content.len() == world.cursor + data.len(),
        written(world, data).content.len() > world.content.len(),
{
}

/// The host did what the machine last asked for, it succeeded, and the
/// event says so.
pub open spec fn obeyed(before: ShredderView, world: World, event: Event, after: World) -> bool {
    match before.stage {
        Stage::Ready => event == Event::Begin && after == world,
        Stage::Opening => event == Event::Completed && after == world,
        Stage::Measuring => event == Event::Size(world.content.len() as u64) && after == world
            && world.content.len() <= u64::MAX,
        Stage::Rewinding { .. } | Stage::Resetting => event == Event::Completed && after
            == rewound(world),
        Stage::Writing { .. } => event == Event::Completed && after == written(
            world,
            before.chunk,
        ),
        Stage::Flushing { .. } | Stage::Settling => event == Event::Completed && after == world,
        Stage::Truncating => event == Event::Completed && after == truncated(world),
        Stage::Probing { .. } => event == Event::Present(
            world.names.contains(file_name(before.target)),
        ) && after == world,
        Stage::Renaming => event == Event::Completed && after == renamed(
            world,
            file_name(before.path),
            file_name(before.target),
        ),
        Stage::Unlinking => event == Event::Completed && after == unlinked(
            world,
            file_name(before.target),
        ),
        Stage::Destroyed | Stage::Halted(_) => after == world,
    }
}

/// What holds of the world while the machine waits in its stage, given the
/// names that the directory had at the start.
///
/// Through every pass the file keeps the length that was measured. A chunk
/// is written where the file up to it holds what the pass has written so
/// far, and a pass is flushed when the whole file holds what the pass has
/// written. The file is empty from the truncation on. The
/// directory keeps its names until the rename, which takes a name that was
/// free; at the end only the file's own name is gone.
pub open spec fn sound(v: ShredderView, world: World, names: Set<Seq<u8>>) -> bool {
    match v.stage {
        Stage::Ready | Stage::Opening | Stage::Measuring | Stage::Resetting | Stage::Truncating => {
            world.names == names
        },
        Stage::Rewinding { length, pass } => {
            &&& world.names == names
            &&& world.content.len() == length
        },
        Stage::Writing { length, pass, offset } => {
            &&& world.names == names
            &&& world.content.len() == length
            &&& world.cursor == offset
            &&& world.laid == world.content.take(offset as int)
        },
        Stage::Flushing { length, pass } => {
            &&& world.names == names
            &&& world.content.len() == length
            &&& world.laid == world.content
        },
        Stage::Settling | Stage::Probing { .. } => {
            &&& world.names == names
            &&& world.content.len() == 0
        },
        Stage::Renaming => {
            &&& world.names == names
            &&& world.content.len() == 0
            &&& !names.contains(file_name(v.target))
        },
        Stage::Unlinking => {
            &&& world.names == names.remove(file_name(v.path)).insert(file_name(v.target))
            &&& world.content.len() == 0
            &&& !names.contains(file_name(v.target))
        },
        Stage::Destroyed => world.names == names.remove(file_name(v.path)),
        Stage::Halted(_) => true,
    }
}

/// Every step on an obedient host keeps the world sound.
pub proof fn lemma_step_keeps_sound(
    before: ShredderView,
    world: World,
    names: Set<Seq<u8>>,
    event: Event,
    next: World,
    after: ShredderView,
    action: Action,
)
    requires
        coherent(before),
        sound(before, world, names),
        obeyed(before, world, event, next),
        stepped(before, event, after, action),
    ensures
        sound(after, next, names),
{
    match before.stage {
        Stage::Rewinding { length, pass } => {
            assert(next.laid =~= next.content.take(0));
            if length == 0 {
                assert(next.laid =~= next.content);
            }
        },
        Stage::Writing { length, pass, offset } => {
            let block = before.config.block_size() as nat;
            assert(before.chunk.len() == chunk_len(length as nat, offset as nat, block));
            lemma_written_within(world, before.chunk);
            let end = offset + before.chunk.len();
            assert(world.laid.len() == offset);
            assert(next.laid =~= next.content.take(end as int));
            if length - offset <= block {
                assert(next.content.take(end as int) =~= next.content);
            }
        },
        Stage::Unlinking => {
            let own = file_name(before.path);
            let new = file_name(before.target);
            assert(names.remove(own).insert(new).remove(new) =~= names.remove(own));
        },
        _ => {},
    }
}

/// When a pass is flushed, the file has the length that was measured and
/// holds, byte for byte, what the pass has written: nothing of what it held
/// before the pass is left.
pub proof fn lemma_pass_covers_file(v: ShredderView, world: World, names: Set<Seq<u8>>)
    requires
        sound(v, world, names),
        v.stage is Flushing,
    ensures
        world.content.len() == v.stage->Flushing_length,
        world.content == world.laid,
{
}

/// Two files on which a pass has written the same bytes hold the same
/// bytes when the pass is flushed, whatever each of them held before.
pub proof fn lemma_pass_forgets_content(
    v: ShredderView,
    one: World,
    other: World,
    names: Set<Seq<u8>>,
)
    requires
        sound(v, one, names),
        sound(v, other, names),
        v.stage is Flushing,
        one.laid == other.laid,
    ensures
        one.content == other.content,
{
}

/// When the file is renamed it has no bytes, and the name it gets is free
/// and not its own.
pub proof fn lemma_renamed_when_empty(v: ShredderView, world: World, names: Set<Seq<u8>>)
    requires
        coherent(v),
        sound(v, world, names),
        v.stage is Renaming,
    ensures
        world.content.len() == 0,
        !world.names.contains(file_name(v.target)),
        file_name(v.target) != file_name(v.path),
{
}

/// When the file is destroyed, its name is gone from the directory, and
/// every other name that was there is there still.
pub proof fn lemma_destroyed_leaves_no_entry(v: ShredderView, world: World, names: Set<Seq<u8>>)
    requires
        sound(v, world, names),
        v.stage is Destroyed,
    ensures
        !world.names.contains(file_name(v.path)),
        forall|name: Seq<u8>| name != file_name(v.path) ==> (world.names.contains(name)
            <==> names.contains(name)),
{
}

} // verus!
