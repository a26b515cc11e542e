//! The porcelain status listing: one line per file, two status bytes, a
//! space and the path.
//!
//! The first status byte tells about the index, the second about the working
//! tree. A file can have a staged and an unstaged change at once, so every
//! line is classified twice, once for each side, and the two tallies are
//! added.

use crate::git::types::{ChangeCounts, GitFileState, GitLocalRepoChanges};
use vstd::prelude::*;
use vstd::slice::slice_subrange;

verus! {

/// The line feed that ends each line of the listing.
pub const LINE_FEED: u8 = 10;

/// The status byte `A`: added.
pub const ADDED: u8 = 65;

/// The status byte `C`: copied.
pub const COPIED: u8 = 67;

/// The status byte `D`: deleted.
pub const DELETED: u8 = 68;

/// The status byte `M`: modified.
pub const MODIFIED: u8 = 77;

/// The status byte `R`: renamed.
pub const RENAMED: u8 = 82;

/// The status byte `U`: unmerged.
pub const UNMERGED: u8 = 85;

/// The status byte `?`: untracked.
pub const UNTRACKED: u8 = 63;

/// The status byte ` `: unchanged.
pub const UNCHANGED: u8 = 32;

/// Whether the pair of status bytes marks an unmerged path.
pub open spec fn is_conflict(first: u8, second: u8) -> bool {
    ||| first == DELETED && second == UNMERGED
    ||| first == ADDED && second == UNMERGED
    ||| first == UNMERGED && (second == ADDED || second == UNMERGED || second == DELETED)
}

/// The working tree bytes that may stand beside a staged rename,
/// modification or addition.
pub open spec fn beside_staged(second: u8) -> bool {
    ||| second == DELETED
    ||| second == MODIFIED
    ||| second == ADDED
    ||| second == RENAMED
    ||| second == COPIED
    ||| second == UNCHANGED
}

/// The index bytes that may stand beside an unstaged modification or
/// deletion.
pub open spec fn beside_unstaged(first: u8) -> bool {
    ||| first == MODIFIED
    ||| first == ADDED
    ||| first == RENAMED
    ||| first == COPIED
    ||| first == UNCHANGED
}

/// What a pair of status bytes says about the index. The first rule that
/// matches decides.
pub open spec fn index_state(first: u8, second: u8) -> GitFileState {
    if is_conflict(first, second) {
        GitFileState::Conflict
    } else if first == RENAMED && beside_staged(second) {
        GitFileState::Renamed
    } else if first == MODIFIED && beside_staged(second) {
        GitFileState::IndexMod
    } else if first == ADDED && beside_staged(second) {
        GitFileState::IndexAdd
    } else if first == DELETED && (second == MODIFIED || second == UNCHANGED) {
        GitFileState::IndexDel
    } else {
        GitFileState::Skip
    }
}

/// What a pair of status bytes says about the working tree.
pub open spec fn local_state(first: u8, second: u8) -> GitFileState {
    if beside_unstaged(first) && second == MODIFIED {
        GitFileState::LocalMod
    } else if first == UNTRACKED && second == UNTRACKED {
        GitFileState::LocalAdd
    } else if beside_unstaged(first) && second == DELETED {
        GitFileState::LocalDel
    } else {
        GitFileState::Skip
    }
}

/// The index state of a line. A line too short to hold two status bytes
/// carries no change.
pub open spec fn line_index_state(line: Seq<u8>) -> GitFileState {
    if line.len() < 2 {
        GitFileState::Skip
    } else {
        index_state(line[0], line[1])
    }
}

/// The working tree state of a line. A line too short to hold two status
/// bytes carries no change.
pub open spec fn line_local_state(line: Seq<u8>) -> GitFileState {
    if line.len() < 2 {
        GitFileState::Skip
    } else {
        local_state(line[0], line[1])
    }
}

/// Where the line that holds position `pos` starts: just behind the last line
/// feed before `pos`, or at the start of the text.
pub open spec fn line_start(text: Seq<u8>, pos: int) -> int
    decreases pos,
{
    if pos <= 0 {
        0
    } else if text[pos - 1] == LINE_FEED {
        pos
    } else {
        line_start(text, pos - 1)
    }
}

/// The lines that end before position `pos`, in order, each without its line
/// feed.
pub open spec fn lines_before(text: Seq<u8>, pos: int) -> Seq<Seq<u8>>
    decreases pos,
{
    if pos <= 0 {
        Seq::empty()
    } else if text[pos - 1] == LINE_FEED {
        lines_before(text, pos - 1).push(text.subrange(line_start(text, pos - 1), pos - 1))
    } else {
        lines_before(text, pos - 1)
    }
}

/// The lines of a status listing. A line ends with a line feed; what follows
/// the last line feed is no line.
pub open spec fn status_lines(text: Seq<u8>) -> Seq<Seq<u8>> {
    lines_before(text, text.len() as int)
}

/// The index states of the lines of a listing.
pub open spec fn index_states(text: Seq<u8>) -> Seq<GitFileState> {
    status_lines(text).map_values(|line: Seq<u8>| line_index_state(line))
}

/// The working tree states of the lines of a listing.
pub open spec fn local_states(text: Seq<u8>) -> Seq<GitFileState> {
    status_lines(text).map_values(|line: Seq<u8>| line_local_state(line))
}

/// The tally of a listing: that of its working tree states plus that of its
/// index states.
pub open spec fn status_counts(text: Seq<u8>) -> ChangeCounts {
    ChangeCounts::of(local_states(text)).plus(ChangeCounts::of(index_states(text)))
}

/// A state that the index pass can give.
pub open spec fn on_index_side(state: GitFileState) -> bool {
    !(state is LocalMod || state is LocalAdd || state is LocalDel)
}

/// A state that the working tree pass can give.
pub open spec fn on_local_side(state: GitFileState) -> bool {
    state is LocalMod || state is LocalAdd || state is LocalDel || state is Skip
}

/// A line starts at or before every position it holds.
pub proof fn lemma_line_start_bounds(text: Seq<u8>, pos: int)
    requires
        0 <= pos,
    ensures
        0 <= line_start(text, pos) <= pos,
    decreases pos,
{
    if pos > 0 && text[pos - 1] != LINE_FEED {
        lemma_line_start_bounds(text, pos - 1);
    }
}

/// There are no more lines than bytes.
pub proof fn lemma_lines_before_len(text: Seq<u8>, pos: int)
    requires
        0 <= pos,
    ensures
        lines_before(text, pos).len() <= pos,
    decreases pos,
{
    if pos > 0 {
        lemma_lines_before_len(text, pos - 1);
    }
}

/// States of the index side leave the working tree counts at zero.
pub proof fn lemma_index_side_counts(states: Seq<GitFileState>)
    requires
        forall|i: int| 0 <= i < states.len() ==> on_index_side(#[trigger] states[i]),
    ensures
        ChangeCounts::of(states).local_mod == 0,
        ChangeCounts::of(states).local_add == 0,
        ChangeCounts::of(states).local_del == 0,
    decreases states.len(),
{
    if states.len() > 0 {
        lemma_index_side_counts(states.drop_last());
    }
}

/// States of the working tree side leave the index counts at zero.
pub proof fn lemma_local_side_counts(states: Seq<GitFileState>)
    requires
        forall|i: int| 0 <= i < states.len() ==> on_local_side(#[trigger] states[i]),
    ensures
        ChangeCounts::of(states).index_mod == 0,
        ChangeCounts::of(states).index_add == 0,
        ChangeCounts::of(states).index_del == 0,
        ChangeCounts::of(states).renamed == 0,
        ChangeCounts::of(states).conflict == 0,
    decreases states.len(),
{
    if states.len() > 0 {
        lemma_local_side_counts(states.drop_last());
    }
}

/// No field of a listing's tally exceeds the number of its bytes.
pub proof fn lemma_status_counts_fit(text: Seq<u8>)
    ensures
        ChangeCounts::of(index_states(text)).fits(text.len() as int),
        ChangeCounts::of(local_states(text)).fits(text.len() as int),
        status_counts(text).fits(text.len() as int),
{
    lemma_lines_before_len(text, text.len() as int);
    ChangeCounts::lemma_of_total(index_states(text));
    ChangeCounts::lemma_of_total(local_states(text));
    lemma_index_side_counts(index_states(text));
    lemma_local_side_counts(local_states(text));
}

/// Whether the text holds no line feed.
pub open spec fn no_line_feed(text: Seq<u8>) -> bool {
    forall|i: int| 0 <= i < text.len() ==> #[trigger] text[i] != LINE_FEED
}

/// A pair of status bytes with an unmerged side, the other side added,
/// deleted or unmerged too, is a conflict for the index and nothing for the
/// working tree.
pub proof fn lemma_unmerged_is_conflict(first: u8, second: u8)
    requires
        first == UNMERGED || second == UNMERGED,
        first == ADDED || first == DELETED || first == UNMERGED,
        second == ADDED || second == DELETED || second == UNMERGED,
    ensures
        index_state(first, second) == GitFileState::Conflict,
        local_state(first, second) == GitFileState::Skip,
{
}

/// A pair of status bytes with an untracked side says nothing about the
/// index.
pub proof fn lemma_untracked_is_not_staged(first: u8, second: u8)
    requires
        first == UNTRACKED || second == UNTRACKED,
    ensures
        index_state(first, second) == GitFileState::Skip,
{
}

/// The lines before a position depend on the bytes before it only.
proof fn lemma_lines_of_prefix(a: Seq<u8>, b: Seq<u8>, pos: int)
    requires
        0 <= pos <= a.len(),
        pos <= b.len(),
        forall|i: int| 0 <= i < pos ==> a[i] == b[i],
    ensures
        line_start(a, pos) == line_start(b, pos),
        lines_before(a, pos) == lines_before(b, pos),
    decreases pos,
{
    if pos > 0 {
        lemma_lines_of_prefix(a, b, pos - 1);
        lemma_line_start_bounds(a, pos - 1);
        let start = line_start(a, pos - 1);
        assert(a.subrange(start, pos - 1) =~= b.subrange(start, pos - 1));
    }
}

/// Bytes other than line feeds end no line and start none.
proof fn lemma_lines_across(text: Seq<u8>, from: int, to: int)
    requires
        0 <= from <= to <= text.len(),
        forall|i: int| from <= i < to ==> text[i] != LINE_FEED,
    ensures
        lines_before(text, to) == lines_before(text, from),
        from < to ==> line_start(text, to) == line_start(text, from),
        from == to ==> line_start(text, to) == line_start(text, from),
    decreases to - from,
{
    if from < to {
        lemma_lines_across(text, from, to - 1);
    }
}

/// A listing followed by one more line, ended by its line feed, has the lines
/// of the listing and then that line.
pub proof fn lemma_status_lines_push(text: Seq<u8>, line: Seq<u8>)
    requires
        text.len() == 0 || text.last() == LINE_FEED,
        no_line_feed(line),
    ensures
        status_lines(text + line.push(LINE_FEED)) == status_lines(text).push(line),
{
    let whole = text + line.push(LINE_FEED);
    let from = text.len() as int;
    let to = from + line.len();
    lemma_lines_of_prefix(whole, text, from);
    assert forall|i: int| from <= i < to implies whole[i] != LINE_FEED by {
        assert(whole[i] == line[i - from]);
    }
    lemma_lines_across(whole, from, to);
    assert(line_start(whole, from) == from);
    assert(whole[to] == LINE_FEED);
    assert(whole.subrange(from, to) =~= line);
}

/// What follows the last line feed of a listing is no line.
pub proof fn lemma_status_lines_ignore_rest(text: Seq<u8>, rest: Seq<u8>)
    requires
        no_line_feed(rest),
    ensures
        status_lines(text + rest) == status_lines(text),
{
    let whole = text + rest;
    let from = text.len() as int;
    lemma_lines_of_prefix(whole, text, from);
    assert forall|i: int| from <= i < whole.len() implies whole[i] != LINE_FEED by {
        assert(whole[i] == rest[i - from]);
    }
    lemma_lines_across(whole, from, whole.len() as int);
}

/// One more line adds to the tally what it says about the working tree and
/// what it says about the index.
pub proof fn lemma_status_counts_push(text: Seq<u8>, line: Seq<u8>)
    requires
        text.len() == 0 || text.last() == LINE_FEED,
        no_line_feed(line),
    ensures
        status_counts(text + line.push(LINE_FEED)) == status_counts(text).plus(
            ChangeCounts::one(line_local_state(line)),
        ).plus(ChangeCounts::one(line_index_state(line))),
{
    let whole = text + line.push(LINE_FEED);
    lemma_status_lines_push(text, line);
    assert(index_states(whole).drop_last() =~= index_states(text));
    assert(local_states(whole).drop_last() =~= local_states(text));
}

/// A listing of a single line is tallied as what the line says about the
/// working tree plus what it says about the index.
pub proof fn lemma_status_counts_single(line: Seq<u8>)
    requires
        no_line_feed(line),
    ensures
        status_counts(line.push(LINE_FEED)) == ChangeCounts::one(line_local_state(line)).plus(
            ChangeCounts::one(line_index_state(line)),
        ),
{
    let text = Seq::<u8>::empty();
    lemma_status_counts_push(text, line);
    assert(text + line.push(LINE_FEED) =~= line.push(LINE_FEED));
    assert(index_states(text) =~= Seq::<GitFileState>::empty());
    assert(local_states(text) =~= Seq::<GitFileState>::empty());
}

/// The empty listing counts nothing.
pub proof fn lemma_status_counts_empty()
    ensures
        status_counts(Seq::<u8>::empty()) == ChangeCounts::zero(),
{
    let text = Seq::<u8>::empty();
    assert(index_states(text) =~= Seq::<GitFileState>::empty());
    assert(local_states(text) =~= Seq::<GitFileState>::empty());
}

/// Classifies a line for the index.
pub fn index_file_state(line: &[u8]) -> (state: GitFileState)
    ensures
        state == line_index_state(line@),
{
    if line.len() < 2 {
        return GitFileState::Skip;
    }
    let first: u8 = line[0];
    let second: u8 = line[1];
    let beside: bool = second == DELETED || second == MODIFIED || second == ADDED || second == RENAMED
        || second == COPIED || second == UNCHANGED;
    if (first == DELETED && second == UNMERGED) || (first == ADDED && second == UNMERGED) || (first == UNMERGED && (
    second == ADDED || second == UNMERGED || second == DELETED)) {
        GitFileState::Conflict
    } else if first == RENAMED && beside {
        GitFileState::Renamed
    } else if first == MODIFIED && beside {
        GitFileState::IndexMod
    } else if first == ADDED && beside {
        GitFileState::IndexAdd
    } else if first == DELETED && (second == MODIFIED || second == UNCHANGED) {
        GitFileState::IndexDel
    } else {
        GitFileState::Skip
    }
}

/// Classifies a line for the working tree.
pub fn local_file_state(line: &[u8]) -> (state: GitFileState)
    ensures
        state == line_local_state(line@),
{
    if line.len() < 2 {
        return GitFileState::Skip;
    }
    let first: u8 = line[0];
    let second: u8 = line[1];
    let beside: bool = first == MODIFIED || first == ADDED || first == RENAMED || first == COPIED || first
        == UNCHANGED;
    if beside && second == MODIFIED {
        GitFileState::LocalMod
    } else if first == UNTRACKED && second == UNTRACKED {
        GitFileState::LocalAdd
    } else if beside && second == DELETED {
        GitFileState::LocalDel
    } else {
        GitFileState::Skip
    }
}

/// The index state of every line of a listing.
pub fn get_index_lines(input: &[u8]) -> (states: Vec<GitFileState>)
    ensures
        states@ == index_states(input@),
{
    let mut states: Vec<GitFileState> = Vec::new();
    let mut start: usize = 0;
    let mut pos: usize = 0;
    while pos < input.len()
        invariant
            pos <= input@.len(),
            start == line_start(input@, pos as int),
            start <= pos,
            states@ == lines_before(input@, pos as int).map_values(
                |line: Seq<u8>| line_index_state(line),
            ),
        decreases input@.len() - pos,
    {
        if input[pos] == LINE_FEED {
            let line = slice_subrange(input, start, pos);
            states.push(index_file_state(line));
            start = pos + 1;
            assert(states@ == lines_before(input@, pos + 1).map_values(
                |line: Seq<u8>| line_index_state(line),
            ));
        }
        pos += 1;
    }
    states
}

/// The working tree state of every line of a listing.
pub fn get_local_lines(input: &[u8]) -> (states: Vec<GitFileState>)
    ensures
        states@ == local_states(input@),
{
    let mut states: Vec<GitFileState> = Vec::new();
    let mut start: usize = 0;
    let mut pos: usize = 0;
    while pos < input.len()
        invariant
            pos <= input@.len(),
            start == line_start(input@, pos as int),
            start <= pos,
            states@ == lines_before(input@, pos as int).map_values(
                |line: Seq<u8>| line_local_state(line),
            ),
        decreases input@.len() - pos,
    {
        if input[pos] == LINE_FEED {
            let line = slice_subrange(input, start, pos);
            states.push(local_file_state(line));
            start = pos + 1;
            assert(states@ == lines_before(input@, pos + 1).map_values(
                |line: Seq<u8>| line_local_state(line),
            ));
        }
        pos += 1;
    }
    states
}

/// Tallies the index side of a listing.
pub fn parse_index(input: &[u8]) -> (changes: GitLocalRepoChanges)
    ensures
        changes@ == ChangeCounts::of(index_states(input@)),
{
    let states = get_index_lines(input);
    GitLocalRepoChanges::from_iter(&states)
}

/// Tallies the working tree side of a listing.
pub fn parse_local(input: &[u8]) -> (changes: GitLocalRepoChanges)
    ensures
        changes@ == ChangeCounts::of(local_states(input@)),
{
    let states = get_local_lines(input);
    GitLocalRepoChanges::from_iter(&states)
}

/// Tallies a status listing: every line counts once for what it says about
/// the working tree and once for what it says about the index.
pub fn git_parse_status(input: &[u8]) -> (changes: GitLocalRepoChanges)
    ensures
        changes@ == status_counts(input@),
{
    let local = parse_local(input);
    let index = parse_index(input);
    proof {
        lemma_status_counts_fit(input@);
        vstd::slice::axiom_spec_len(input);
    }
    local.add(index)
}

} // verus!
