//! The repository status record: how it is assembled from what was read from
//! a repository, and how it is rendered as a dense string of symbols.

use crate::text::{decimal, decimal_string};
use vstd::prelude::*;

verus! {

// The flag bits of one changed working-tree entry, in the layout that
// libgit2 gives a status entry.

/// The entry is new in the index.
pub const INDEX_NEW: u32 = 0x0001;

/// The entry is modified in the index.
pub const INDEX_MODIFIED: u32 = 0x0002;

/// The entry is deleted from the index.
pub const INDEX_DELETED: u32 = 0x0004;

/// The entry is renamed in the index.
pub const INDEX_RENAMED: u32 = 0x0008;

/// The entry has another type in the index.
pub const INDEX_TYPECHANGE: u32 = 0x0010;

/// The entry is new in the working tree: an untracked file.
pub const WT_NEW: u32 = 0x0080;

/// The entry is modified in the working tree.
pub const WT_MODIFIED: u32 = 0x0100;

/// The entry is deleted from the working tree.
pub const WT_DELETED: u32 = 0x0200;

/// The entry has another type in the working tree.
pub const WT_TYPECHANGE: u32 = 0x0400;

/// The entry is renamed in the working tree.
pub const WT_RENAMED: u32 = 0x0800;

/// The flags that put an entry into the bucket of untracked files.
pub const NEW_BUCKET: u32 = WT_NEW;

/// The flags that put an entry into the bucket of staged changes.
pub const INDEX_BUCKET: u32 = INDEX_NEW | INDEX_MODIFIED | INDEX_DELETED | INDEX_RENAMED
    | INDEX_TYPECHANGE;

/// The flags that put an entry into the bucket of unstaged changes.
pub const WORKING_BUCKET: u32 = WT_MODIFIED | WT_DELETED | WT_TYPECHANGE | WT_RENAMED;

/// The operation that a repository is in the middle of.
#[derive(Clone, Copy, Debug, PartialEq, Eq, Structural)]
pub enum RepositoryState {
    Clean,
    Merge,
    Revert,
    CherryPick,
    Bisect,
    Rebase,
    RebaseInteractive,
    RebaseMerge,
    ApplyMailbox,
    ApplyMailboxOrRebase,
}

/// How far a branch and its upstream have moved apart.
#[derive(Clone, Copy, Debug)]
pub struct Divergence {
    /// Commits reachable from the branch and not from its upstream.
    pub ahead: usize,
    /// Commits reachable from the upstream and not from the branch.
    pub behind: usize,
}

/// What was found out about the commit that HEAD resolves to.
#[derive(Debug)]
pub struct HeadCommit {
    /// The commit's object id in hexadecimal.
    pub id: String,
    /// The name of a tag object at exactly this commit, if one was found.
    pub tag: Option<String>,
    /// The distance to the upstream, if an upstream is configured and the
    /// commit graph could be walked.
    pub divergence: Option<Divergence>,
}

/// What was found out about HEAD.
#[derive(Debug)]
pub struct Head {
    /// The commit that HEAD resolves to; `None` where it names no commit.
    pub commit: Option<HeadCommit>,
    /// The short name of the reference; `None` where it has none.
    pub branch: Option<String>,
}

/// The raw answers of the lookups made in a discovered repository. Each
/// lookup that failed is `None`.
#[derive(Debug)]
pub struct Snapshot {
    /// The operation in progress.
    pub state: RepositoryState,
    /// The flag bits of every changed entry of the working tree.
    pub entries: Option<Vec<u32>>,
    /// HEAD, where it could be resolved.
    pub head: Option<Head>,
    /// The number of stash entries, where they could be walked to the end.
    pub stashes: Option<usize>,
}

/// The only failure of the aggregation: no repository encloses the directory.
#[derive(Clone, Copy, Debug, PartialEq, Eq, Structural)]
pub struct NotARepository;

/// A compact summary of a repository's state.
#[derive(Debug)]
pub struct Status {
    pub ahead: usize,
    pub behind: usize,
    pub new_files: usize,
    pub working_files: usize,
    pub index_files: usize,
    pub stash_count: usize,
    pub state: RepositoryState,
    pub hash: String,
    pub branch: String,
    pub tag: String,
}

/// The mathematical content of a [`Status`].
pub struct StatusView {
    pub ahead: nat,
    pub behind: nat,
    pub new_files: nat,
    pub working_files: nat,
    pub index_files: nat,
    pub stash_count: nat,
    pub state: RepositoryState,
    pub hash: Seq<char>,
    pub branch: Seq<char>,
    pub tag: Seq<char>,
}

impl View for Status {
    type V = StatusView;

    open spec fn view(&self) -> StatusView {
        StatusView {
            ahead: self.ahead as nat,
            behind: self.behind as nat,
            new_files: self.new_files as nat,
            working_files: self.working_files as nat,
            index_files: self.index_files as nat,
            stash_count: self.stash_count as nat,
            state: self.state,
            hash: self.hash@,
            branch: self.branch@,
            tag: self.tag@,
        }
    }
}

/// Whether an entry with these flag bits falls into the bucket `bucket`: it
/// does when it carries at least one of the bucket's flags.
pub open spec fn in_bucket(bits: u32, bucket: u32) -> bool {
    bits & bucket != 0
}

/// How many of `entries` fall into `bucket`.
pub open spec fn tally(entries: Seq<u32>, bucket: u32) -> nat
    decreases entries.len(),
{
    if entries.len() == 0 {
        0
    } else {
        tally(entries.drop_last(), bucket) + if in_bucket(entries.last(), bucket) {
            1nat
        } else {
            0nat
        }
    }
}

/// An entry falls into a bucket exactly when it carries one of the flags
/// that make the bucket up.
pub proof fn lemma_buckets_are_unions(bits: u32)
    ensures
        in_bucket(bits, NEW_BUCKET) <==> bits & WT_NEW != 0,
        in_bucket(bits, INDEX_BUCKET) <==> (bits & INDEX_NEW != 0 || bits & INDEX_MODIFIED != 0
            || bits & INDEX_DELETED != 0 || bits & INDEX_RENAMED != 0 || bits & INDEX_TYPECHANGE
            != 0),
        in_bucket(bits, WORKING_BUCKET) <==> (bits & WT_MODIFIED != 0 || bits & WT_DELETED != 0
            || bits & WT_TYPECHANGE != 0 || bits & WT_RENAMED != 0),
{
    assert(bits & (0x0001u32 | 0x0002u32 | 0x0004u32 | 0x0008u32 | 0x0010u32) != 0 <==> (bits
        & 0x0001u32 != 0 || bits & 0x0002u32 != 0 || bits & 0x0004u32 != 0 || bits & 0x0008u32 != 0
        || bits & 0x0010u32 != 0)) by (bit_vector);
    assert(bits & (0x0100u32 | 0x0200u32 | 0x0400u32 | 0x0800u32) != 0 <==> (bits & 0x0100u32
        != 0 || bits & 0x0200u32 != 0 || bits & 0x0400u32 != 0 || bits & 0x0800u32 != 0))
        by (bit_vector);
}

/// Counts, in one pass, the entries that fall into each of the three
/// buckets: untracked, staged, unstaged. An entry may count in several.
pub fn count_buckets(entries: &Vec<u32>) -> (counts: (usize, usize, usize))
    ensures
        counts.0 == tally(entries@, NEW_BUCKET),
        counts.1 == tally(entries@, INDEX_BUCKET),
        counts.2 == tally(entries@, WORKING_BUCKET),
{
    let mut new_files: usize = 0;
    let mut index_files: usize = 0;
    let mut working_files: usize = 0;
    let mut i: usize = 0;
    while i < entries.len()
        invariant
            i <= entries.len(),
            new_files <= i,
            index_files <= i,
            working_files <= i,
            new_files == tally(entries@.take(i as int), NEW_BUCKET),
            index_files == tally(entries@.take(i as int), INDEX_BUCKET),
            working_files == tally(entries@.take(i as int), WORKING_BUCKET),
        decreases entries.len() - i,
    {
        assert(entries@.take(i + 1).drop_last() =~= entries@.take(i as int));
        let bits: u32 = entries[i];
        if bits & NEW_BUCKET != 0 {
            new_files = new_files + 1;
        }
        if bits & INDEX_BUCKET != 0 {
            index_files = index_files + 1;
        }
        if bits & WORKING_BUCKET != 0 {
            working_files = working_files + 1;
        }
        i = i + 1;
    }
    assert(entries@.take(i as int) =~= entries@);
    (new_files, index_files, working_files)
}

/// The commit that HEAD resolves to, where both were found.
pub open spec fn head_commit(snapshot: Snapshot) -> Option<HeadCommit> {
    match snapshot.head {
        Some(head) => head.commit,
        None => None,
    }
}

/// The distance to the upstream, where it was found.
pub open spec fn divergence(snapshot: Snapshot) -> Option<Divergence> {
    match head_commit(snapshot) {
        Some(commit) => commit.divergence,
        None => None,
    }
}

/// The number of entries in `bucket`, zero where the entries could not be
/// listed.
pub open spec fn bucket_count(snapshot: Snapshot, bucket: u32) -> nat {
    match snapshot.entries {
        Some(entries) => tally(entries@, bucket),
        None => 0,
    }
}

/// The record that a snapshot amounts to: every lookup that failed leaves
/// its field at zero or empty.
pub open spec fn summary(snapshot: Snapshot) -> StatusView {
    StatusView {
        ahead: match divergence(snapshot) {
            Some(d) => d.ahead as nat,
            None => 0,
        },
        behind: match divergence(snapshot) {
            Some(d) => d.behind as nat,
            None => 0,
        },
        new_files: bucket_count(snapshot, NEW_BUCKET),
        working_files: bucket_count(snapshot, WORKING_BUCKET),
        index_files: bucket_count(snapshot, INDEX_BUCKET),
        stash_count: match snapshot.stashes {
            Some(n) => n as nat,
            None => 0,
        },
        state: snapshot.state,
        hash: match head_commit(snapshot) {
            Some(commit) => commit.id@,
            None => Seq::empty(),
        },
        branch: match snapshot.head {
            Some(Head { branch: Some(name), .. }) => name@,
            _ => Seq::empty(),
        },
        tag: match head_commit(snapshot) {
            Some(HeadCommit { tag: Some(name), .. }) => name@,
            _ => Seq::empty(),
        },
    }
}

impl Status {
    /// Summarizes the repository that encloses the working directory.
    /// `discovered` is what was read from it, or `None` where no repository
    /// was found; only that is an error.
    pub fn from_cwd(discovered: Option<Snapshot>) -> (result: Result<Status, NotARepository>)
        ensures
            match discovered {
                Some(snapshot) => result matches Ok(status) && status@ == summary(snapshot),
                None => result == Err::<Status, NotARepository>(NotARepository),
            },
    {
        match discovered {
            Some(snapshot) => Ok(Status::from_repo(snapshot)),
            None => Err(NotARepository),
        }
    }

    /// Assembles the record from the lookups made in a repository.
    pub fn from_repo(snapshot: Snapshot) -> (status: Status)
        ensures
            status@ == summary(snapshot),
    {
        let Snapshot { state, entries, head, stashes } = snapshot;
        let mut status = Status {
            ahead: 0,
            behind: 0,
            new_files: 0,
            working_files: 0,
            index_files: 0,
            stash_count: 0,
            state,
            hash: String::new(),
            branch: String::new(),
            tag: String::new(),
        };
        if let Some(raw_statuses) = entries {
            let counts = count_buckets(&raw_statuses);
            status.new_files = counts.0;
            status.index_files = counts.1;
            status.working_files = counts.2;
        }
        if let Some(raw_head) = head {
            let Head { commit, branch } = raw_head;
            if let Some(head_commit) = commit {
                let HeadCommit { id, tag, divergence } = head_commit;
                status.hash = id;
                if let Some(tag_name) = tag {
                    status.tag = tag_name;
                }
                if let Some(distance) = divergence {
                    status.ahead = distance.ahead;
                    status.behind = distance.behind;
                }
            }
            if let Some(branch_name) = branch {
                status.branch = branch_name;
            }
        }
        if let Some(count) = stashes {
            status.stash_count = count;
        }
        status
    }
}

/// The name of a repository state as the symbol string shows it.
pub open spec fn state_name(state: RepositoryState) -> Seq<char> {
    match state {
        RepositoryState::Clean => "CLEAN"@,
        RepositoryState::Merge => "MERGE"@,
        RepositoryState::Revert => "REVERT"@,
        RepositoryState::CherryPick => "CHERRYPICK"@,
        RepositoryState::Bisect => "BISECT"@,
        RepositoryState::Rebase => "REBASE"@,
        RepositoryState::RebaseInteractive => "REBASEINTERACTIVE"@,
        RepositoryState::RebaseMerge => "REBASEMERGE"@,
        RepositoryState::ApplyMailbox => "APPLYMAILBOX"@,
        RepositoryState::ApplyMailboxOrRebase => "APPLYMAILBOXORREBASE"@,
    }
}

/// What names the checked-out revision: the branch; without a branch the
/// tag; without either the first five characters of the commit id.
pub open spec fn identity(status: StatusView) -> Seq<char> {
    if status.branch.len() > 0 {
        status.branch
    } else if status.tag.len() > 0 {
        status.tag
    } else if status.hash.len() > 5 {
        status.hash.take(5)
    } else {
        status.hash
    }
}

/// A counter segment: the glyph and the decimal count, or nothing at all
/// for a count of zero.
pub open spec fn counter(glyph: Seq<char>, count: nat) -> Seq<char> {
    if count > 0 {
        glyph + decimal(count)
    } else {
        Seq::empty()
    }
}

/// The segment of the operation in progress; nothing for a clean repository.
pub open spec fn state_mark(state: RepositoryState) -> Seq<char> {
    if state == RepositoryState::Clean {
        Seq::empty()
    } else {
        "◊"@ + state_name(state)
    }
}

/// The symbol string of a record: its segments in their fixed order, with
/// nothing between them.
pub open spec fn symbols(status: StatusView) -> Seq<char> {
    identity(status) + counter("▲"@, status.ahead) + counter("▼"@, status.behind) + counter(
        "□"@,
        status.new_files,
    ) + counter("■"@, status.index_files) + counter("▣"@, status.working_files) + counter(
        "▷"@,
        status.stash_count,
    ) + state_mark(status.state)
}

/// A record in which every counter is zero, every text is empty and no
/// operation is in progress.
pub open spec fn is_blank(status: StatusView) -> bool {
    &&& status.ahead == 0
    &&& status.behind == 0
    &&& status.new_files == 0
    &&& status.working_files == 0
    &&& status.index_files == 0
    &&& status.stash_count == 0
    &&& status.state == RepositoryState::Clean
    &&& status.hash.len() == 0
    &&& status.branch.len() == 0
    &&& status.tag.len() == 0
}

/// In `text`, the ahead segment stands right behind the identity and the
/// behind segment right behind the ahead segment.
pub open spec fn ahead_then_behind(status: StatusView, text: Seq<char>) -> bool {
    let start = identity(status).len() as int;
    let ahead = counter("▲"@, status.ahead);
    let behind = counter("▼"@, status.behind);
    &&& start + ahead.len() + behind.len() <= text.len()
    &&& text.subrange(start, start + ahead.len()) == ahead
    &&& text.subrange(start + ahead.len(), start + ahead.len() + behind.len()) == behind
}

/// The symbol string of a blank record is empty.
pub proof fn lemma_blank_is_empty(status: StatusView)
    requires
        is_blank(status),
    ensures
        symbols(status) == Seq::<char>::empty(),
{
    assert(symbols(status) =~= Seq::<char>::empty());
}

/// Whatever the record, the ahead segment comes before the behind segment,
/// never behind it.
pub proof fn lemma_ahead_then_behind(status: StatusView)
    ensures
        ahead_then_behind(status, symbols(status)),
{
    let start = identity(status).len() as int;
    let ahead = counter("▲"@, status.ahead);
    let behind = counter("▼"@, status.behind);
    let rest = counter("□"@, status.new_files) + counter("■"@, status.index_files) + counter(
        "▣"@,
        status.working_files,
    ) + counter("▷"@, status.stash_count) + state_mark(status.state);
    let text = symbols(status);
    assert(text =~= identity(status) + ahead + behind + rest);
    assert(text.subrange(start, start + ahead.len()) =~= ahead);
    assert(text.subrange(start + ahead.len(), start + ahead.len() + behind.len()) =~= behind);
}

/// The symbol string depends on nothing but the record: two records with
/// the same content have the same symbol string.
pub proof fn lemma_format_is_function_of_record(first: Status, second: Status)
    requires
        first@ == second@,
    ensures
        symbols(first@) == symbols(second@),
{
}

/// The text of a state's name.
fn state_label(state: RepositoryState) -> (label: &'static str)
    ensures
        label@ == state_name(state),
{
    match state {
        RepositoryState::Clean => "CLEAN",
        RepositoryState::Merge => "MERGE",
        RepositoryState::Revert => "REVERT",
        RepositoryState::CherryPick => "CHERRYPICK",
        RepositoryState::Bisect => "BISECT",
        RepositoryState::Rebase => "REBASE",
        RepositoryState::RebaseInteractive => "REBASEINTERACTIVE",
        RepositoryState::RebaseMerge => "REBASEMERGE",
        RepositoryState::ApplyMailbox => "APPLYMAILBOX",
        RepositoryState::ApplyMailboxOrRebase => "APPLYMAILBOXORREBASE",
    }
}

/// Appends a counter segment to `out`.
fn append_counter(out: &mut String, glyph: &str, count: usize)
    ensures
        final(out)@ == old(out)@ + counter(glyph@, count as nat),
{
    if count > 0 {
        let digits = decimal_string(count);
        out.append(glyph);
        out.append(digits.as_str());
        assert(final(out)@ =~= old(out)@ + (glyph@ + decimal(count as nat)));
    } else {
        assert(out@ =~= old(out)@ + Seq::<char>::empty());
    }
}

/// Renders a record as its symbol string. Every segment whose value is zero
/// or empty is left out altogether.
pub fn format(status: &Status) -> (result: String)
    ensures
        result@ == symbols(status@),
        is_blank(status@) ==> result@ == Seq::<char>::empty(),
        ahead_then_behind(status@, result@),
{
    let mut result = String::new();
    if !status.branch.as_str().is_empty() {
        result.append(status.branch.as_str());
    } else if !status.tag.as_str().is_empty() {
        result.append(status.tag.as_str());
    } else if status.hash.as_str().unicode_len() > 5 {
        result.append(status.hash.as_str().substring_char(0, 5));
    } else {
        result.append(status.hash.as_str());
    }
    assert(result@ =~= identity(status@));
    append_counter(&mut result, "▲", status.ahead);
    append_counter(&mut result, "▼", status.behind);
    append_counter(&mut result, "□", status.new_files);
    append_counter(&mut result, "■", status.index_files);
    append_counter(&mut result, "▣", status.working_files);
    append_counter(&mut result, "▷", status.stash_count);
    match status.state {
        RepositoryState::Clean => {
            assert(result@ =~= symbols(status@));
        },
        other => {
            result.append("◊");
            result.append(state_label(other));
            assert(result@ =~= symbols(status@));
        },
    }
    proof {
        lemma_ahead_then_behind(status@);
        if is_blank(status@) {
            lemma_blank_is_empty(status@);
        }
    }
    result
}

} // verus!
