//! A model of the extraction root: each action stores a node under a path,
//! and the laws of the planner are stated and proved over that model.

use vstd::prelude::*;
use crate::entry::{EntryData, is_dir_entry, skipped};
use crate::plan::{ActionData, entry_actions, plan_actions, plan_actions_upto};

verus! {

/// A node of the extraction root: a directory, or a file with its bytes.
pub enum FsNode {
    Dir,
    File(Seq<u8>),
}

/// The tree after one action. Creating a directory tolerates pre-existence
/// and a file write overwrites, so both are stores; permission bits do not
/// change the tree.
pub open spec fn apply_action(fs: Map<Seq<char>, FsNode>, a: ActionData) -> Map<Seq<char>, FsNode> {
    match a {
        ActionData::MkDir(p) => fs.insert(p, FsNode::Dir),
        ActionData::WriteFile(p, d) => fs.insert(p, FsNode::File(d)),
        ActionData::SetMode(_, _) => fs,
    }
}

/// The tree after a sequence of actions, applied in order.
pub open spec fn apply_actions(fs: Map<Seq<char>, FsNode>, acts: Seq<ActionData>) -> Map<
    Seq<char>,
    FsNode,
>
    decreases acts.len(),
{
    if acts.len() == 0 {
        fs
    } else {
        apply_actions(apply_action(fs, acts[0]), acts.drop_first())
    }
}

/// The store of one action, as a map of its own.
pub open spec fn write_of(a: ActionData) -> Map<Seq<char>, FsNode> {
    match a {
        ActionData::MkDir(p) => Map::empty().insert(p, FsNode::Dir),
        ActionData::WriteFile(p, d) => Map::empty().insert(p, FsNode::File(d)),
        ActionData::SetMode(_, _) => Map::empty(),
    }
}

/// The stores of a sequence of actions, later actions overriding earlier.
pub open spec fn writes_of(acts: Seq<ActionData>) -> Map<Seq<char>, FsNode>
    decreases acts.len(),
{
    if acts.len() == 0 {
        Map::empty()
    } else {
        write_of(acts[0]).union_prefer_right(writes_of(acts.drop_first()))
    }
}

/// Applying actions only overrides the starting tree with their stores.
pub proof fn lemma_apply_is_union(fs: Map<Seq<char>, FsNode>, acts: Seq<ActionData>)
    ensures
        apply_actions(fs, acts) == fs.union_prefer_right(writes_of(acts)),
    decreases acts.len(),
{
    if acts.len() == 0 {
        assert(fs.union_prefer_right(writes_of(acts)) =~= fs);
    } else {
        lemma_apply_is_union(apply_action(fs, acts[0]), acts.drop_first());
        assert(apply_action(fs, acts[0]).union_prefer_right(writes_of(acts.drop_first())) =~= fs
            .union_prefer_right(writes_of(acts)));
    }
}

/// Running the same extraction twice over any starting tree leaves the tree
/// the first run produced: directories tolerate pre-existence and files are
/// overwritten, so a second run stores the very same nodes.
pub proof fn lemma_apply_idempotent(fs: Map<Seq<char>, FsNode>, acts: Seq<ActionData>)
    ensures
        apply_actions(apply_actions(fs, acts), acts) == apply_actions(fs, acts),
{
    lemma_apply_is_union(fs, acts);
    lemma_apply_is_union(fs.union_prefer_right(writes_of(acts)), acts);
    assert(fs.union_prefer_right(writes_of(acts)).union_prefer_right(writes_of(acts)) =~= fs
        .union_prefer_right(writes_of(acts)));
}

/// Applying a concatenation applies the two halves in order.
pub proof fn lemma_apply_actions_concat(
    fs: Map<Seq<char>, FsNode>,
    a: Seq<ActionData>,
    b: Seq<ActionData>,
)
    ensures
        apply_actions(fs, a + b) == apply_actions(apply_actions(fs, a), b),
    decreases a.len(),
{
    if a.len() == 0 {
        assert(a + b =~= b);
    } else {
        assert((a + b).drop_first() =~= a.drop_first() + b);
        assert((a + b)[0] == a[0]);
        lemma_apply_actions_concat(apply_action(fs, a[0]), a.drop_first(), b);
    }
}

/// The node an entry puts on disk.
pub open spec fn entry_node(e: EntryData) -> FsNode {
    if is_dir_entry(e) {
        FsNode::Dir
    } else {
        FsNode::File(e.data)
    }
}

/// The tree described by the first `i` entries themselves: each processed
/// entry stores its node under its safe path, later entries overriding
/// earlier ones.
pub open spec fn entry_tree_upto(es: Seq<EntryData>, i: int) -> Map<Seq<char>, FsNode>
    decreases i,
{
    if i <= 0 {
        Map::empty()
    } else {
        let fs = entry_tree_upto(es, i - 1);
        let e = es[i - 1];
        if skipped(e) {
            fs
        } else {
            fs.insert(e.safe_path.unwrap(), entry_node(e))
        }
    }
}

/// The tree described by the archive's entries.
pub open spec fn entry_tree(es: Seq<EntryData>) -> Map<Seq<char>, FsNode> {
    entry_tree_upto(es, es.len() as int)
}

/// One entry's actions store exactly its node under its safe path; a skipped
/// entry stores nothing.
pub proof fn lemma_entry_actions_tree(fs: Map<Seq<char>, FsNode>, e: EntryData)
    ensures
        skipped(e) ==> apply_actions(fs, entry_actions(e)) == fs,
        !skipped(e) ==> apply_actions(fs, entry_actions(e)) == fs.insert(
            e.safe_path.unwrap(),
            entry_node(e),
        ),
{
    if !skipped(e) {
        let p = e.safe_path.unwrap();
        let first = if is_dir_entry(e) {
            ActionData::MkDir(p)
        } else {
            ActionData::WriteFile(p, e.data)
        };
        let acts = entry_actions(e);
        let fs1 = apply_action(fs, first);
        assert(fs1 == fs.insert(p, entry_node(e)));
        match e.mode {
            Some(m) => {
                let sm = ActionData::SetMode(p, m);
                assert(acts =~= seq![first, sm]);
                assert(seq![first, sm].drop_first() =~= seq![sm]);
                assert(apply_actions(fs, seq![first, sm]) == apply_actions(fs1, seq![sm]));
                assert(seq![sm].drop_first() =~= Seq::<ActionData>::empty());
                assert(apply_actions(fs1, seq![sm]) == apply_actions(
                    apply_action(fs1, sm),
                    Seq::<ActionData>::empty(),
                ));
                assert(apply_action(fs1, sm) == fs1);
            },
            None => {
                assert(acts =~= seq![first]);
                assert(seq![first].drop_first() =~= Seq::<ActionData>::empty());
                assert(apply_actions(fs, seq![first]) == apply_actions(
                    fs1,
                    Seq::<ActionData>::empty(),
                ));
            },
        }
    }
}

/// Running the planned actions against an empty extraction root produces on
/// disk exactly the tree the archive's entries describe: structure and file
/// byte-contents match the entries, entries with no safe name excluded.
pub proof fn lemma_plan_builds_entry_tree(es: Seq<EntryData>)
    ensures
        apply_actions(Map::empty(), plan_actions(es)) == entry_tree(es),
{
    lemma_plan_builds_entry_tree_upto(es, es.len() as int);
}

proof fn lemma_plan_builds_entry_tree_upto(es: Seq<EntryData>, i: int)
    requires
        0 <= i <= es.len(),
    ensures
        apply_actions(Map::empty(), plan_actions_upto(es, i)) == entry_tree_upto(es, i),
    decreases i,
{
    if i > 0 {
        lemma_plan_builds_entry_tree_upto(es, i - 1);
        lemma_apply_actions_concat(
            Map::empty(),
            plan_actions_upto(es, i - 1),
            entry_actions(es[i - 1]),
        );
        lemma_entry_actions_tree(entry_tree_upto(es, i - 1), es[i - 1]);
    }
}

/// A directory entry never produces a regular-file write.
pub proof fn lemma_dir_entry_no_file_write(e: EntryData)
    requires
        is_dir_entry(e),
    ensures
        forall|j: int|
            0 <= j < entry_actions(e).len() ==> !(#[trigger] entry_actions(e)[j] is WriteFile),
{
}

/// A processed non-directory entry writes exactly one file, under its safe
/// path and with the entry's bytes; when those bytes are as many as the
/// declared uncompressed size, the written file's length is that size.
pub proof fn lemma_file_entry_one_write(e: EntryData)
    requires
        !skipped(e),
        !is_dir_entry(e),
    ensures
        entry_actions(e)[0] == ActionData::WriteFile(e.safe_path.unwrap(), e.data),
        forall|j: int|
            1 <= j < entry_actions(e).len() ==> !(#[trigger] entry_actions(e)[j] is WriteFile),
        e.data.len() == e.size ==> (entry_actions(e)[0] matches ActionData::WriteFile(_, d)
            && d.len() == e.size),
{
}

} // verus!
