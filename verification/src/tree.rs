//! What the walk does to a tree, shown on a model of the tree: every file
//! is destroyed and every directory removed, each directory after all that
//! it holds.

use vstd::prelude::*;
use crate::walk::{
    blamed, entered, is_failure, noted, proceeded, scheduled, walked, TargetKind, TaskView,
    Waiting, WalkAction, WalkEvent, WalkerView,
};

verus! {

/// A tree of the file system: a file, or a directory with its entries in
/// the order in which the host lists them.
pub enum Tree {
    File(Seq<u8>),
    Directory(Seq<u8>, Seq<Tree>),
}

/// Something that the walk has the host destroy.
pub enum Deed {
    /// The file at the path is destroyed.
    Shred(Seq<u8>),
    /// The directory at the path is removed.
    Remove(Seq<u8>),
}

/// The path of a tree's root.
pub open spec fn root_of(tree: Tree) -> Seq<u8> {
    match tree {
        Tree::File(path) => path,
        Tree::Directory(path, _) => path,
    }
}

/// The deeds that destroy a tree, in post-order: what a directory holds
/// goes before the directory itself.
pub open spec fn order(tree: Tree) -> Seq<Deed>
    decreases tree,
{
    match tree {
        Tree::File(path) => seq![Deed::Shred(path)],
        Tree::Directory(path, entries) => orders(entries).push(Deed::Remove(path)),
    }
}

/// The deeds that destroy a list of trees, one tree after the other.
pub open spec fn orders(trees: Seq<Tree>) -> Seq<Deed>
    decreases trees,
{
    if trees.len() == 0 {
        Seq::empty()
    } else {
        order(trees[0]) + orders(trees.subrange(1, trees.len() as int))
    }
}

/// What stands on the walker's agenda: a tree still to be visited, or a
/// directory that only has to be removed.
pub enum Item {
    Visit(Tree),
    Leave(Seq<u8>),
}

/// The task that stands for an item.
pub open spec fn task_of(item: Item) -> TaskView {
    match item {
        Item::Visit(tree) => TaskView { path: root_of(tree), leave: false },
        Item::Leave(path) => TaskView { path, leave: true },
    }
}

/// The deeds that an item stands for.
pub open spec fn deeds_of(item: Item) -> Seq<Deed> {
    match item {
        Item::Visit(tree) => order(tree),
        Item::Leave(path) => seq![Deed::Remove(path)],
    }
}

/// The deeds that a plan stands for, the item on top first.
pub open spec fn due(plan: Seq<Item>) -> Seq<Deed>
    decreases plan.len(),
{
    if plan.len() == 0 {
        Seq::empty()
    } else {
        deeds_of(plan.last()) + due(plan.drop_last())
    }
}

/// The visits of a list of trees as they are put on a plan: the first tree
/// on top.
pub open spec fn visits(trees: Seq<Tree>) -> Seq<Item> {
    Seq::new(trees.len(), |i: int| Item::Visit(trees[trees.len() - 1 - i]))
}

/// The paths under which the host lists a directory's entries.
pub open spec fn listing(trees: Seq<Tree>) -> Seq<Seq<u8>> {
    Seq::new(trees.len(), |i: int| root_of(trees[i]))
}

/// The tasks that stand for a plan.
pub open spec fn tasks(plan: Seq<Item>) -> Seq<TaskView> {
    Seq::new(plan.len(), |i: int| task_of(plan[i]))
}

/// What the walk has done and has left to do, in terms of the tree.
pub struct Survey {
    /// The items that stand behind the walker's agenda.
    pub plan: Seq<Item>,
    /// The item that the walker is dealing with.
    pub at: Option<Item>,
    /// The deeds that the host was asked for so far.
    pub done: Seq<Deed>,
}

/// The survey after the next item was taken up.
pub open spec fn taken(s: Survey) -> Survey {
    if s.plan.len() == 0 {
        Survey { at: None, ..s }
    } else {
        let item = s.plan.last();
        Survey {
            plan: s.plan.drop_last(),
            at: Some(item),
            done: match item {
                Item::Visit(_) => s.done,
                Item::Leave(path) => s.done.push(Deed::Remove(path)),
            },
        }
    }
}

/// The survey after the walker was told `event` while it waited.
pub open spec fn surveyed(s: Survey, waiting: Waiting, event: WalkEvent) -> Survey {
    match (waiting, s.at) {
        (Waiting::Kind, Some(Item::Visit(Tree::File(path)))) => Survey {
            done: s.done.push(Deed::Shred(path)),
            ..s
        },
        (Waiting::Kind, _) => s,
        (Waiting::Finished, _) => s,
        _ => taken(s),
    }
}

/// The survey after the walker was handed the entries of the directory it
/// is at.
pub open spec fn surveyed_entries(s: Survey) -> Survey {
    match s.at {
        Some(Item::Visit(Tree::Directory(path, entries))) => taken(
            Survey { plan: s.plan.push(Item::Leave(path)) + visits(entries), ..s },
        ),
        _ => s,
    }
}

/// The host tells the truth about the tree: a directory is reported as one
/// and nothing else is. How a destruction or a removal ended is left open.
pub open spec fn answers(v: WalkerView, s: Survey, event: WalkEvent) -> bool {
    match v.waiting {
        Waiting::Start => event == WalkEvent::Begin,
        Waiting::Kind => event matches WalkEvent::Kind(kind) && (kind == TargetKind::Directory
            <==> s.at matches Some(Item::Visit(Tree::Directory(_, _)))),
        Waiting::Entries => false,
        Waiting::Shredded | Waiting::Removed => event is Completed || is_failure(event),
        Waiting::Finished => true,
    }
}

/// The walker is on course through the tree at `root`: its agenda stands
/// for the plan, and what was done, what is being done and what is due
/// make up the post-order of the tree.
pub open spec fn on_course(v: WalkerView, s: Survey, root: Tree) -> bool {
    &&& v.agenda == tasks(s.plan)
    &&& match v.waiting {
        Waiting::Start => s.at is None && s.done + due(s.plan) == order(root),
        Waiting::Kind => {
            &&& s.at matches Some(Item::Visit(tree))
            &&& root_of(tree) == v.current
            &&& s.done + order(tree) + due(s.plan) == order(root)
        },
        Waiting::Entries => {
            &&& s.at matches Some(Item::Visit(Tree::Directory(path, entries)))
            &&& path == v.current
            &&& s.done + order(Tree::Directory(path, entries)) + due(s.plan) == order(root)
        },
        Waiting::Shredded => {
            &&& s.at matches Some(Item::Visit(Tree::File(path)))
            &&& path == v.current
            &&& s.done + due(s.plan) == order(root)
        },
        Waiting::Removed => {
            &&& s.at matches Some(Item::Leave(path))
            &&& path == v.current
            &&& s.done + due(s.plan) == order(root)
        },
        Waiting::Finished => s.plan.len() == 0 && s.done == order(root),
    }
}

/// What was done grows by exactly the deed that the walker asks for.
pub open spec fn recorded(
    before: Seq<Deed>,
    action: WalkAction,
    current: Seq<u8>,
    after: Seq<Deed>,
) -> bool {
    match action {
        WalkAction::Shred => after == before.push(Deed::Shred(current)),
        WalkAction::RemoveDirectory => after == before.push(Deed::Remove(current)),
        _ => after == before,
    }
}

/// The survey at the start of the walk through a tree.
pub open spec fn outset(root: Tree) -> Survey {
    Survey { plan: seq![Item::Visit(root)], at: None, done: Seq::empty() }
}

/// An item put on a plan comes due before the rest.
pub proof fn lemma_due_push(plan: Seq<Item>, item: Item)
    ensures
        due(plan.push(item)) == deeds_of(item) + due(plan),
{
    assert(plan.push(item).drop_last() =~= plan);
}

/// The entries of a directory put on a plan come due in their order,
/// before the rest.
pub proof fn lemma_due_visits(plan: Seq<Item>, trees: Seq<Tree>)
    ensures
        due(plan + visits(trees)) == orders(trees) + due(plan),
    decreases trees.len(),
{
    if trees.len() == 0 {
        assert(plan + visits(trees) =~= plan);
        assert(orders(trees) + due(plan) =~= due(plan));
    } else {
        let rest = trees.subrange(1, trees.len() as int);
        let whole = plan + visits(trees);
        assert(whole.last() == Item::Visit(trees[0]));
        assert(whole.drop_last() =~= plan + visits(rest));
        lemma_due_visits(plan, rest);
        assert(due(whole) == order(trees[0]) + (orders(rest) + due(plan)));
        assert(order(trees[0]) + (orders(rest) + due(plan)) =~= orders(trees) + due(plan));
    }
}

/// Taking up the next item keeps the walker on course.
proof fn lemma_taken(v: WalkerView, s: Survey, root: Tree)
    requires
        v.agenda == tasks(s.plan),
        s.done + due(s.plan) == order(root),
    ensures
        on_course(proceeded(v).0, taken(s), root),
        recorded(s.done, proceeded(v).1, proceeded(v).0.current, taken(s).done),
{
    if s.plan.len() == 0 {
        assert(s.done + due(s.plan) =~= s.done);
    } else {
        let item = s.plan.last();
        let rest = s.plan.drop_last();
        assert(v.agenda.last() == task_of(item));
        assert(v.agenda.drop_last() =~= tasks(rest));
        match item {
            Item::Visit(tree) => {
                assert(s.done + order(tree) + due(rest) =~= s.done + due(s.plan));
            },
            Item::Leave(path) => {
                assert(s.done.push(Deed::Remove(path)) + due(rest) =~= s.done + due(s.plan));
            },
        }
    }
}

/// At the start the walker is on course.
pub proof fn lemma_outset(v: WalkerView, root: Tree)
    requires
        v.agenda == seq![TaskView { path: root_of(root), leave: false }],
        v.waiting == Waiting::Start,
    ensures
        on_course(v, outset(root), root),
{
    let s = outset(root);
    assert(tasks(s.plan) =~= v.agenda);
    assert(s.plan =~= Seq::<Item>::empty().push(Item::Visit(root)));
    lemma_due_push(Seq::empty(), Item::Visit(root));
    assert(due(Seq::<Item>::empty()) =~= Seq::<Deed>::empty());
    assert(due(s.plan) =~= order(root));
    assert(s.done + due(s.plan) =~= order(root));
}

/// Every step on a truthful host keeps the walker on course, whether the
/// destruction or removal that it reports succeeded or failed; and the
/// walker asks for exactly the deeds that the survey counts as done.
pub proof fn lemma_step_on_course(v: WalkerView, s: Survey, root: Tree, event: WalkEvent)
    requires
        on_course(v, s, root),
        answers(v, s, event),
    ensures
        on_course(walked(v, event).0, surveyed(s, v.waiting, event), root),
        recorded(
            s.done,
            walked(v, event).1,
            walked(v, event).0.current,
            surveyed(s, v.waiting, event).done,
        ),
{
    match v.waiting {
        Waiting::Start => {
            lemma_taken(v, s, root);
        },
        Waiting::Kind => {
            match s.at {
                Some(Item::Visit(Tree::File(path))) => {
                    assert(s.done.push(Deed::Shred(path)) + due(s.plan) =~= s.done + order(
                        Tree::File(path),
                    ) + due(s.plan));
                },
                _ => {},
            }
        },
        Waiting::Shredded | Waiting::Removed => {
            if is_failure(event) {
                lemma_taken(noted(v, blamed(v.waiting, event)), s, root);
            } else {
                lemma_taken(v, s, root);
            }
        },
        _ => {},
    }
}

/// Handing over the entries of the directory that the walker is at keeps
/// it on course.
pub proof fn lemma_enter_on_course(
    v: WalkerView,
    s: Survey,
    root: Tree,
    path: Seq<u8>,
    entries: Seq<Tree>,
)
    requires
        on_course(v, s, root),
        v.waiting == Waiting::Entries,
        s.at == Some(Item::Visit(Tree::Directory(path, entries))),
    ensures
        on_course(entered(v, listing(entries)).0, surveyed_entries(s), root),
        recorded(
            s.done,
            entered(v, listing(entries)).1,
            entered(v, listing(entries)).0.current,
            surveyed_entries(s).done,
        ),
{
    let plan = s.plan.push(Item::Leave(path)) + visits(entries);
    let agenda = scheduled(v.agenda, v.current, listing(entries));
    assert(agenda =~= tasks(plan));
    lemma_due_visits(s.plan.push(Item::Leave(path)), entries);
    lemma_due_push(s.plan, Item::Leave(path));
    assert(s.done + due(plan) =~= s.done + order(Tree::Directory(path, entries)) + due(s.plan));
    lemma_taken(WalkerView { agenda, ..v }, Survey { plan, ..s }, root);
}

/// When the walk is over, the host was asked for exactly the post-order of
/// the tree.
pub proof fn lemma_finished_in_post_order(v: WalkerView, s: Survey, root: Tree)
    requires
        on_course(v, s, root),
        v.waiting == Waiting::Finished,
    ensures
        s.done == order(root),
{
}

} // verus!
