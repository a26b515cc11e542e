//! One `git` invocation for each question, and the reading of its output.
//!
//! A question is answered in two halves. [`git_cmd_args`] gives the arguments
//! to run `git` with; the function named after the question reads what the
//! process left behind. Running the process lies between the two, with the
//! caller.

use crate::git::parse::status::{
    git_parse_status, lemma_status_counts_empty, status_counts, LINE_FEED,
};
use crate::git::query::{answers, AnswerModel, GitAnswer, GitQuery, QueryModel};
use crate::git::types::ChangeCounts;
use crate::process::{kept_output, process_with_ignore_exit_code, ProcessOutput};
use crate::text::{
    join, parse_count, parsed_count, str_from_utf8, text_view, trim_end, trimmed_end,
};
use vstd::prelude::*;
use vstd::utf8::{decode_utf8, valid_utf8};

verus! {

/// Why the output of `git` could not be read.
#[derive(Debug, Clone, Copy, PartialEq, Eq, Structural)]
pub enum GitError {
    /// The output is not UTF-8.
    InvalidUtf8,
    /// The output is no count: git failed or printed something else.
    InvalidCount,
}

/// The text that a process printed, without the white space at its end; none
/// if the output is not UTF-8. A failed process printed the empty text.
pub open spec fn output_text(success: bool, stdout: Seq<u8>) -> Option<Seq<char>> {
    let bytes = kept_output(success, stdout);
    if valid_utf8(bytes) {
        Some(trimmed_end(decode_utf8(bytes)))
    } else {
        None
    }
}

/// The reading of an output as text.
pub open spec fn text_result(success: bool, stdout: Seq<u8>) -> Result<Seq<char>, GitError> {
    match output_text(success, stdout) {
        Some(text) => Ok(text),
        None => Err(GitError::InvalidUtf8),
    }
}

/// The reading of an output as a count.
pub open spec fn count_result(success: bool, stdout: Seq<u8>) -> Result<usize, GitError> {
    match output_text(success, stdout) {
        Some(text) => match parsed_count(text) {
            Some(count) => Ok(count),
            None => Err(GitError::InvalidCount),
        },
        None => Err(GitError::InvalidUtf8),
    }
}

/// The number of line feeds among the bytes.
pub open spec fn line_feeds(bytes: Seq<u8>) -> nat
    decreases bytes.len(),
{
    if bytes.len() == 0 {
        0
    } else {
        line_feeds(bytes.drop_last()) + if bytes.last() == LINE_FEED {
            1nat
        } else {
            0nat
        }
    }
}

/// The configuration key that holds the remote of a branch.
pub open spec fn tracking_config_key(local_branch: Seq<char>) -> Seq<char> {
    "branch."@ + local_branch + ".remote"@
}

/// The configuration key that holds the ref a branch tracks.
pub open spec fn branch_config_key(local_branch: Seq<char>) -> Seq<char> {
    "branch."@ + local_branch + ".merge"@
}

/// The symmetric difference of two histories, as `git rev-list` takes it.
pub open spec fn symmetric_difference(from_commit: Seq<char>, to_commit: Seq<char>) -> Seq<char> {
    from_commit + "..."@ + to_commit
}

/// The arguments that make `git` answer a question.
pub open spec fn command_line(query: QueryModel) -> Seq<Seq<char>> {
    match query {
        QueryModel::LocalBranchName => seq!["symbolic-ref"@, "--short"@, "HEAD"@],
        QueryModel::PorcelainStatus => seq!["status"@, "--porcelain"@],
        QueryModel::RemoteName { local_branch } => seq![
            "config"@,
            "--get"@,
            tracking_config_key(local_branch),
        ],
        QueryModel::RemoteBranchName { local_branch } => seq![
            "config"@,
            "--get"@,
            branch_config_key(local_branch),
        ],
        QueryModel::MergeBase { merge_target, local_branch } => seq![
            "merge-base"@,
            merge_target,
            local_branch,
        ],
        QueryModel::RevToPull { from_commit, to_commit } => seq![
            "rev-list"@,
            "--no-merges"@,
            "--left-only"@,
            "--count"@,
            symmetric_difference(from_commit, to_commit),
        ],
        QueryModel::RevToPush { from_commit, to_commit } => seq![
            "rev-list"@,
            "--no-merges"@,
            "--right-only"@,
            "--count"@,
            symmetric_difference(from_commit, to_commit),
        ],
        QueryModel::StashCount => seq!["stash"@, "list"@],
        QueryModel::CommitShortSha => seq!["rev-parse"@, "--short"@, "HEAD"@],
        QueryModel::CommitTag => seq!["describe"@, "--exact-match"@, "--tags"@],
    }
}

/// The answer that the output of `git` gives to a question.
pub open spec fn output_answer(query: QueryModel, success: bool, stdout: Seq<u8>) -> Result<
    AnswerModel,
    GitError,
> {
    match query {
        QueryModel::PorcelainStatus => Ok(
            AnswerModel::Changes(status_counts(kept_output(success, stdout))),
        ),
        QueryModel::StashCount => Ok(
            AnswerModel::Count(line_feeds(kept_output(success, stdout))),
        ),
        QueryModel::RevToPull { .. } | QueryModel::RevToPush { .. } => match count_result(
            success,
            stdout,
        ) {
            Ok(count) => Ok(AnswerModel::Count(count as nat)),
            Err(error) => Err(error),
        },
        _ => match text_result(success, stdout) {
            Ok(text) => Ok(AnswerModel::Text(text)),
            Err(error) => Err(error),
        },
    }
}

/// What git could not tell reads as absent: a process that failed gives the
/// empty text, no stash and no pending change. Only a count cannot be
/// absent.
pub proof fn lemma_failed_process_reads_empty(stdout: Seq<u8>)
    ensures
        text_result(false, stdout) == Ok::<Seq<char>, GitError>(Seq::empty()),
        count_result(false, stdout) == Err::<usize, GitError>(GitError::InvalidCount),
        line_feeds(kept_output(false, stdout)) == 0,
        status_counts(kept_output(false, stdout)) == ChangeCounts::zero(),
{
    let nothing = Seq::<u8>::empty();
    assert(valid_utf8(nothing));
    assert(decode_utf8(nothing) =~= Seq::<char>::empty());
    lemma_status_counts_empty();
}

/// The output of `git` is always read as the shape of answer that the
/// question calls for.
pub proof fn lemma_output_answer_fits(query: QueryModel, success: bool, stdout: Seq<u8>)
    ensures
        output_answer(query, success, stdout) matches Ok(answer) ==> answers(query, answer),
{
}

/// An answer read, or the reason why none was, as a mathematical value.
pub open spec fn answer_view(answer: Result<GitAnswer, GitError>) -> Result<AnswerModel, GitError> {
    match answer {
        Ok(a) => Ok(a@),
        Err(error) => Err(error),
    }
}

/// Reads the output of a process as text and trims its end.
fn read_text(output: ProcessOutput) -> (text: Result<String, GitError>)
    ensures
        text_view(text) == text_result(output.success, output.stdout@),
{
    let bytes = process_with_ignore_exit_code(output);
    match str_from_utf8(bytes.as_slice()) {
        Some(text) => Ok(trim_end(text).to_owned()),
        None => Err(GitError::InvalidUtf8),
    }
}

/// Reads the output of a process as a count.
fn read_count(output: ProcessOutput) -> (count: Result<usize, GitError>)
    ensures
        count == count_result(output.success, output.stdout@),
{
    let bytes = process_with_ignore_exit_code(output);
    match str_from_utf8(bytes.as_slice()) {
        Some(text) => match parse_count(trim_end(text)) {
            Some(count) => Ok(count),
            None => Err(GitError::InvalidCount),
        },
        None => Err(GitError::InvalidUtf8),
    }
}

/// Reads the answer of `git symbolic-ref --short HEAD`: the name of the
/// checked out branch. On a detached head git fails, and the name is empty.
pub fn git_cmd_local_branch_name(output: ProcessOutput) -> (name: Result<String, GitError>)
    ensures
        text_view(name) == text_result(output.success, output.stdout@),
{
    read_text(output)
}

/// Reads the answer of `git merge-base`: the id of the best common ancestor.
/// Where git finds none, or lacks one of the two refs, the id is empty.
pub fn git_cmd_merge_base(output: ProcessOutput) -> (id: Result<String, GitError>)
    ensures
        text_view(id) == text_result(output.success, output.stdout@),
{
    read_text(output)
}

/// Reads the answer of `git config --get branch.<name>.remote`: the remote
/// of the branch, empty where none is configured.
pub fn git_cmd_remote_name(output: ProcessOutput) -> (name: Result<String, GitError>)
    ensures
        text_view(name) == text_result(output.success, output.stdout@),
{
    read_text(output)
}

/// Reads the answer of `git config --get branch.<name>.merge`: the ref that
/// the branch tracks, empty where none is configured.
pub fn git_cmd_remote_branch_name(output: ProcessOutput) -> (name: Result<String, GitError>)
    ensures
        text_view(name) == text_result(output.success, output.stdout@),
{
    read_text(output)
}

/// Reads the answer of `git status --porcelain`: the listing itself, empty
/// where git failed.
pub fn git_cmd_porcelain_status(output: ProcessOutput) -> (listing: Vec<u8>)
    ensures
        listing@ == kept_output(output.success, output.stdout@),
{
    process_with_ignore_exit_code(output)
}

/// Reads the answer of `git rev-list --no-merges --right-only --count`: the
/// number of commits to push.
pub fn git_cmd_rev_to_push(output: ProcessOutput) -> (count: Result<usize, GitError>)
    ensures
        count == count_result(output.success, output.stdout@),
{
    read_count(output)
}

/// Reads the answer of `git rev-list --no-merges --left-only --count`: the
/// number of commits to pull.
pub fn git_cmd_rev_to_pull(output: ProcessOutput) -> (count: Result<usize, GitError>)
    ensures
        count == count_result(output.success, output.stdout@),
{
    read_count(output)
}

/// Reads the answer of `git stash list`: one line for each stash.
pub fn git_cmd_stash_count(output: ProcessOutput) -> (count: usize)
    ensures
        count == line_feeds(kept_output(output.success, output.stdout@)),
{
    let bytes = process_with_ignore_exit_code(output);
    let mut count: usize = 0;
    let mut i: usize = 0;
    while i < bytes.len()
        invariant
            i <= bytes@.len(),
            count <= i,
            count == line_feeds(bytes@.take(i as int)),
        decreases bytes@.len() - i,
    {
        assert(bytes@.take(i + 1).drop_last() =~= bytes@.take(i as int));
        if bytes[i] == LINE_FEED {
            count += 1;
        }
        i += 1;
    }
    assert(bytes@.take(i as int) =~= bytes@);
    count
}

/// Reads the answer of `git rev-parse --short HEAD`: the abbreviated id of
/// the head commit, empty before the first commit.
pub fn git_cmd_commit_short_sha(output: ProcessOutput) -> (id: Result<String, GitError>)
    ensures
        text_view(id) == text_result(output.success, output.stdout@),
{
    read_text(output)
}

/// Reads the answer of `git describe --exact-match --tags`: the tag that
/// names the head commit, empty where there is none.
pub fn git_cmd_commit_tag(output: ProcessOutput) -> (tag: Result<String, GitError>)
    ensures
        text_view(tag) == text_result(output.success, output.stdout@),
{
    read_text(output)
}

/// The configuration key that holds the remote of a branch.
pub fn git_remote_tracking_config_key(local_branch_name: &str) -> (key: String)
    ensures
        key@ == tracking_config_key(local_branch_name@),
{
    let mut key = join("branch.", local_branch_name);
    key.append(".remote");
    key
}

/// The configuration key that holds the ref a branch tracks.
pub fn git_remote_branch_config_key(local_branch_name: &str) -> (key: String)
    ensures
        key@ == branch_config_key(local_branch_name@),
{
    let mut key = join("branch.", local_branch_name);
    key.append(".merge");
    key
}

/// The expression for the commits that only one of two histories has.
pub fn merge_base_diff_from_to(from_commit: &str, to_commit: &str) -> (range: String)
    ensures
        range@ == symmetric_difference(from_commit@, to_commit@),
{
    let mut range = join(from_commit, "...");
    range.append(to_commit);
    range
}

/// The arguments to run `git` with, so that its output answers the question.
pub fn git_cmd_args(query: &GitQuery) -> (args: Vec<String>)
    ensures
        args.deep_view() == command_line(query@),
{
    let mut args: Vec<String> = Vec::new();
    match query {
        GitQuery::LocalBranchName => {
            args.push(String::from_str("symbolic-ref"));
            args.push(String::from_str("--short"));
            args.push(String::from_str("HEAD"));
        },
        GitQuery::PorcelainStatus => {
            args.push(String::from_str("status"));
            args.push(String::from_str("--porcelain"));
        },
        GitQuery::RemoteName { local_branch } => {
            args.push(String::from_str("config"));
            args.push(String::from_str("--get"));
            args.push(git_remote_tracking_config_key(local_branch.as_str()));
        },
        GitQuery::RemoteBranchName { local_branch } => {
            args.push(String::from_str("config"));
            args.push(String::from_str("--get"));
            args.push(git_remote_branch_config_key(local_branch.as_str()));
        },
        GitQuery::MergeBase { merge_target, local_branch } => {
            args.push(String::from_str("merge-base"));
            args.push(merge_target.clone());
            args.push(local_branch.clone());
        },
        GitQuery::RevToPull { from_commit, to_commit } => {
            args.push(String::from_str("rev-list"));
            args.push(String::from_str("--no-merges"));
            args.push(String::from_str("--left-only"));
            args.push(String::from_str("--count"));
            args.push(merge_base_diff_from_to(from_commit.as_str(), to_commit.as_str()));
        },
        GitQuery::RevToPush { from_commit, to_commit } => {
            args.push(String::from_str("rev-list"));
            args.push(String::from_str("--no-merges"));
            args.push(String::from_str("--right-only"));
            args.push(String::from_str("--count"));
            args.push(merge_base_diff_from_to(from_commit.as_str(), to_commit.as_str()));
        },
        GitQuery::StashCount => {
            args.push(String::from_str("stash"));
            args.push(String::from_str("list"));
        },
        GitQuery::CommitShortSha => {
            args.push(String::from_str("rev-parse"));
            args.push(String::from_str("--short"));
            args.push(String::from_str("HEAD"));
        },
        GitQuery::CommitTag => {
            args.push(String::from_str("describe"));
            args.push(String::from_str("--exact-match"));
            args.push(String::from_str("--tags"));
        },
    }
    assert(args.deep_view() =~= command_line(query@));
    args
}

/// Reads the output of `git` as the answer to the question it was run for.
pub fn git_cmd_answer(query: &GitQuery, output: ProcessOutput) -> (answer: Result<
    GitAnswer,
    GitError,
>)
    ensures
        answer_view(answer) == output_answer(query@, output.success, output.stdout@),
{
    match query {
        GitQuery::PorcelainStatus => {
            let listing = git_cmd_porcelain_status(output);
            Ok(GitAnswer::Changes(git_parse_status(listing.as_slice())))
        },
        GitQuery::StashCount => Ok(GitAnswer::Count(git_cmd_stash_count(output))),
        GitQuery::RevToPull { .. } => match git_cmd_rev_to_pull(output) {
            Ok(count) => Ok(GitAnswer::Count(count)),
            Err(error) => Err(error),
        },
        GitQuery::RevToPush { .. } => match git_cmd_rev_to_push(output) {
            Ok(count) => Ok(GitAnswer::Count(count)),
            Err(error) => Err(error),
        },
        GitQuery::LocalBranchName => match git_cmd_local_branch_name(output) {
            Ok(text) => Ok(GitAnswer::Text(text)),
            Err(error) => Err(error),
        },
        GitQuery::RemoteName { .. } => match git_cmd_remote_name(output) {
            Ok(text) => Ok(GitAnswer::Text(text)),
            Err(error) => Err(error),
        },
        GitQuery::RemoteBranchName { .. } => match git_cmd_remote_branch_name(output) {
            Ok(text) => Ok(GitAnswer::Text(text)),
            Err(error) => Err(error),
        },
        GitQuery::MergeBase { .. } => match git_cmd_merge_base(output) {
            Ok(text) => Ok(GitAnswer::Text(text)),
            Err(error) => Err(error),
        },
        GitQuery::CommitShortSha => match git_cmd_commit_short_sha(output) {
            Ok(text) => Ok(GitAnswer::Text(text)),
            Err(error) => Err(error),
        },
        GitQuery::CommitTag => match git_cmd_commit_tag(output) {
            Ok(text) => Ok(GitAnswer::Text(text)),
            Err(error) => Err(error),
        },
    }
}

} // verus!
