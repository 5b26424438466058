//! Planning: which lines are printed and which filesystem actions are
//! performed for each entry, in archive index order.

use vstd::prelude::*;
use crate::entry::{EntryData, ZipEntry, entry_is_dir, is_dir_entry, skipped};
use crate::format::{
    comment_line, dir_line, file_line, render_comment_line, render_dir_line, render_file_line,
};

verus! {

/// One filesystem action of the extraction.
///
/// `MkDir` creates the directory and all missing ancestors; `WriteFile`
/// creates any missing ancestor directories, then creates or truncates the
/// file and writes the given bytes; `SetMode` applies permission bits to an
/// already created path, on platforms that support them.
#[derive(Debug, PartialEq, Eq)]
pub enum FsAction {
    MkDir(String),
    WriteFile(String, Vec<u8>),
    SetMode(String, u32),
}

/// The mathematical model of a filesystem action.
pub enum ActionData {
    MkDir(Seq<char>),
    WriteFile(Seq<char>, Seq<u8>),
    SetMode(Seq<char>, u32),
}

impl DeepView for FsAction {
    type V = ActionData;

    open spec fn deep_view(&self) -> ActionData {
        match self {
            FsAction::MkDir(p) => ActionData::MkDir(p@),
            FsAction::WriteFile(p, d) => ActionData::WriteFile(p@, d@),
            FsAction::SetMode(p, m) => ActionData::SetMode(p@, *m),
        }
    }
}

/// The single progress line of a processed entry.
pub open spec fn progress_line(i: nat, e: EntryData) -> Seq<char>
    recommends
        !skipped(e),
{
    if is_dir_entry(e) {
        dir_line(i, e.safe_path.unwrap())
    } else {
        file_line(i, e.safe_path.unwrap(), e.size)
    }
}

/// The lines printed for entry `i`: nothing for a skipped entry, otherwise
/// the progress line, preceded by a comment line exactly when the comment is
/// non-empty.
pub open spec fn entry_lines(i: nat, e: EntryData) -> Seq<Seq<char>> {
    if skipped(e) {
        seq![]
    } else if e.comment.len() > 0 {
        seq![comment_line(i, e.comment), progress_line(i, e)]
    } else {
        seq![progress_line(i, e)]
    }
}

/// The permission action of an entry, where the archive records mode bits.
pub open spec fn mode_actions(e: EntryData) -> Seq<ActionData>
    recommends
        !skipped(e),
{
    match e.mode {
        Some(m) => seq![ActionData::SetMode(e.safe_path.unwrap(), m)],
        None => seq![],
    }
}

/// The filesystem actions of entry `i`: nothing for a skipped entry; a
/// directory creation for a directory entry, a file write for any other,
/// followed by the permission action where mode bits are recorded.
pub open spec fn entry_actions(e: EntryData) -> Seq<ActionData> {
    if skipped(e) {
        seq![]
    } else if is_dir_entry(e) {
        seq![ActionData::MkDir(e.safe_path.unwrap())] + mode_actions(e)
    } else {
        seq![ActionData::WriteFile(e.safe_path.unwrap(), e.data)] + mode_actions(e)
    }
}

/// The lines and actions of one processed entry.
#[derive(Debug)]
pub struct EntryPlan {
    pub lines: Vec<String>,
    pub actions: Vec<FsAction>,
}

/// Plans one entry: `None` exactly for a skipped entry, otherwise its lines
/// and actions.
pub fn plan_entry(i: usize, e: &ZipEntry) -> (r: Option<EntryPlan>)
    ensures
        (r is Some) == !skipped(e.deep_view()),
        r matches Some(p) ==> p.lines.deep_view() == entry_lines(i as nat, e.deep_view())
            && p.actions.deep_view() == entry_actions(e.deep_view()),
{
    let path = match &e.safe_path {
        None => {
            return None;
        },
        Some(p) => p,
    };
    let mut lines: Vec<String> = Vec::new();
    let mut actions: Vec<FsAction> = Vec::new();
    if !e.comment.as_str().is_empty() {
        lines.push(render_comment_line(i as u64, e.comment.as_str()));
    }
    if entry_is_dir(e) {
        lines.push(render_dir_line(i as u64, path.as_str()));
        actions.push(FsAction::MkDir(path.clone()));
    } else {
        lines.push(render_file_line(i as u64, path.as_str(), e.size));
        let data = e.data.clone();
        proof {
            assert(forall|j: int| 0 <= j < e.data@.len() ==> data@[j] == e.data@[j]);
            assert(data@ =~= e.data@);
        }
        actions.push(FsAction::WriteFile(path.clone(), data));
    }
    if let Some(m) = e.mode {
        actions.push(FsAction::SetMode(path.clone(), m));
    }
    proof {
        assert(lines.deep_view() =~~= entry_lines(i as nat, e.deep_view()));
        assert(actions.deep_view() =~~= entry_actions(e.deep_view()));
    }
    Some(EntryPlan { lines, actions })
}

/// The lines of the first `i` entries, in archive index order.
pub open spec fn plan_lines_upto(es: Seq<EntryData>, i: int) -> Seq<Seq<char>>
    decreases i,
{
    if i <= 0 {
        seq![]
    } else {
        plan_lines_upto(es, i - 1) + entry_lines((i - 1) as nat, es[i - 1])
    }
}

/// The lines of the whole archive.
pub open spec fn plan_lines(es: Seq<EntryData>) -> Seq<Seq<char>> {
    plan_lines_upto(es, es.len() as int)
}

/// The actions of the first `i` entries, in archive index order.
pub open spec fn plan_actions_upto(es: Seq<EntryData>, i: int) -> Seq<ActionData>
    decreases i,
{
    if i <= 0 {
        seq![]
    } else {
        plan_actions_upto(es, i - 1) + entry_actions(es[i - 1])
    }
}

/// The actions of the whole archive.
pub open spec fn plan_actions(es: Seq<EntryData>) -> Seq<ActionData> {
    plan_actions_upto(es, es.len() as int)
}

/// For every processed entry exactly one line of the progress form is
/// printed, last in the entry's group; a comment line precedes it exactly
/// when the entry's comment is non-empty, and a skipped entry prints
/// nothing.
pub proof fn lemma_entry_lines_shape(i: nat, e: EntryData)
    ensures
        skipped(e) ==> entry_lines(i, e) == Seq::<Seq<char>>::empty(),
        !skipped(e) ==> entry_lines(i, e).last() == progress_line(i, e),
        (!skipped(e) && e.comment.len() == 0) ==> entry_lines(i, e) == seq![progress_line(i, e)],
        (!skipped(e) && e.comment.len() > 0) ==> entry_lines(i, e) == seq![
            comment_line(i, e.comment),
            progress_line(i, e),
        ],
{
    if skipped(e) {
        assert(entry_lines(i, e) =~= Seq::<Seq<char>>::empty());
    }
}

/// The printed output is grouped by entry, in archive index order: the
/// whole archive's lines are the per-entry groups, concatenated in order.
pub proof fn lemma_plan_lines_grouped(es: Seq<EntryData>)
    ensures
        plan_lines(es) == Seq::new(es.len(), |j: int| entry_lines(j as nat, es[j])).flatten(),
{
    let groups = Seq::new(es.len(), |j: int| entry_lines(j as nat, es[j]));
    lemma_plan_lines_upto_flatten(es, es.len() as int);
    assert(groups.subrange(0, es.len() as int) =~= groups);
    groups.lemma_flatten_and_flatten_alt_are_equivalent();
}

proof fn lemma_plan_lines_upto_flatten(es: Seq<EntryData>, i: int)
    requires
        0 <= i <= es.len(),
    ensures
        plan_lines_upto(es, i) == Seq::new(
            es.len(),
            |j: int| entry_lines(j as nat, es[j]),
        ).subrange(0, i).flatten_alt(),
    decreases i,
{
    let groups = Seq::new(es.len(), |j: int| entry_lines(j as nat, es[j]));
    if i == 0 {
        assert(groups.subrange(0, 0) =~= Seq::<Seq<Seq<char>>>::empty());
    } else {
        lemma_plan_lines_upto_flatten(es, i - 1);
        assert(groups.subrange(0, i).drop_last() =~= groups.subrange(0, i - 1));
        assert(groups.subrange(0, i).last() == entry_lines((i - 1) as nat, es[i - 1]));
    }
}

/// The whole extraction: every line in print order, every action in
/// execution order.
#[derive(Debug)]
pub struct Plan {
    pub lines: Vec<String>,
    pub actions: Vec<FsAction>,
}

/// Plans a whole archive, entry by entry in index order.
pub fn plan_entries(entries: &Vec<ZipEntry>) -> (p: Plan)
    ensures
        p.lines.deep_view() == plan_lines(entries.deep_view()),
        p.actions.deep_view() == plan_actions(entries.deep_view()),
{
    let mut lines: Vec<String> = Vec::new();
    let mut actions: Vec<FsAction> = Vec::new();
    let n = entries.len();
    for i in 0..n
        invariant
            n == entries@.len(),
            lines.deep_view() == plan_lines_upto(entries.deep_view(), i as int),
            actions.deep_view() == plan_actions_upto(entries.deep_view(), i as int),
    {
        match plan_entry(i, &entries[i]) {
            None => {
                proof {
                    assert(entries.deep_view()[i as int] == entries@[i as int].deep_view());
                    assert(lines.deep_view() =~~= plan_lines_upto(
                        entries.deep_view(),
                        i as int + 1,
                    ));
                    assert(actions.deep_view() =~~= plan_actions_upto(
                        entries.deep_view(),
                        i as int + 1,
                    ));
                }
            },
            Some(ep) => {
                let mut ep = ep;
                let ghost old_lines = lines.deep_view();
                let ghost old_actions = actions.deep_view();
                let ghost ep_lines = ep.lines.deep_view();
                let ghost ep_actions = ep.actions.deep_view();
                lines.append(&mut ep.lines);
                actions.append(&mut ep.actions);
                proof {
                    assert(entries.deep_view()[i as int] == entries@[i as int].deep_view());
                    assert(lines.deep_view() =~~= old_lines + ep_lines);
                    assert(actions.deep_view() =~~= old_actions + ep_actions);
                    assert(lines.deep_view() =~~= plan_lines_upto(
                        entries.deep_view(),
                        i as int + 1,
                    ));
                    assert(actions.deep_view() =~~= plan_actions_upto(
                        entries.deep_view(),
                        i as int + 1,
                    ));
                }
            },
        }
    }
    Plan { lines, actions }
}

} // verus!
