//! Many files at once: which files of a directory tree are worked on, in
//! which order, and where the result of each goes.
//!
//! Reading directories is the caller's. `Scan` tells which directory to read
//! next and takes what was found there; `BatchProcessor` filters and orders
//! the files and gives each its target.

use vstd::prelude::*;
use crate::config::Config;
use crate::error::{ErrorKind, SlimmerError};
use crate::models::order::{ordered, sort_paths};
use crate::models::path::{
    joined_parts,
    last_name,
    parent_of,
    path_text,
    without_prefix,
    FilePath,
};
use crate::models::sonarr::SonarrContext;
use crate::text::{decimal, push_decimal};
use crate::utils::validation::{has_container_extension, is_valid_mkv_file, FileFacts};

verus! {

/// What is wrong with a glob pattern, as `glob::Pattern::new` finds it: the
/// position and the reason of the fault, or `None` for a pattern that
/// compiles.
pub uninterp spec fn glob_pattern_fault(pattern: Seq<char>) -> Option<(nat, Seq<char>)>;

/// Whether a pattern that compiles matches a text, as
/// `glob::Pattern::matches` finds it.
pub uninterp spec fn glob_pattern_matches(pattern: Seq<char>, text: Seq<char>) -> bool;

/// Compiles `pattern` with `glob::Pattern::new` and matches `text` against
/// it with `glob::Pattern::matches`. A pattern that does not compile gives
/// the position and the reason that the crate reports. Both answers depend
/// on the two texts alone, for the target the crate is built for (the
/// crate asks `std::path::is_separator`); the contract only names them.
#[verifier::external_body]
fn glob_verdict(pattern: &str, text: &str) -> (verdict: Result<bool, (usize, String)>)
    ensures
        match verdict {
            Ok(matched) => glob_pattern_fault(pattern@) is None && matched == glob_pattern_matches(
                pattern@,
                text@,
            ),
            Err((position, reason)) => glob_pattern_fault(pattern@) == Some(
                (position as nat, reason@),
            ),
        },
{
    match glob::Pattern::new(pattern) {
        Ok(compiled) => Ok(compiled.matches(text)),
        Err(fault) => Err((fault.pos, fault.msg.to_string())),
    }
}

/// One entry of a directory, with what the file system says of it.
#[derive(Debug, Clone)]
pub struct DirectoryEntry {
    /// The path of the entry.
    pub path: FilePath,
    /// Whether it exists, is a regular file and can be read.
    pub facts: FileFacts,
    /// Whether it is a directory.
    pub is_dir: bool,
}

/// A walk through a directory tree: the directories still to be read and
/// the container files found so far.
#[derive(Debug, Clone)]
pub struct Scan {
    /// Directories to read, the next one last.
    pub pending: Vec<FilePath>,
    /// The container files found.
    pub found: Vec<FilePath>,
}

/// An entry that is a container file to work on.
pub open spec fn is_candidate(entry: DirectoryEntry) -> bool {
    entry.facts.exists && entry.facts.is_file && has_container_extension(entry.path@)
        && entry.facts.readable
}

/// The test "is a container file to work on".
pub open spec fn candidates() -> spec_fn(DirectoryEntry) -> bool {
    |entry: DirectoryEntry| is_candidate(entry)
}

/// The test "is a directory to descend into".
pub open spec fn subdirectories(recursive: bool) -> spec_fn(DirectoryEntry) -> bool {
    |entry: DirectoryEntry| recursive && !is_candidate(entry) && entry.is_dir
}

/// The paths of a run of entries.
pub open spec fn entry_paths(entries: Seq<DirectoryEntry>) -> Seq<FilePath> {
    entries.map_values(|entry: DirectoryEntry| entry.path)
}

impl Scan {
    /// A walk that begins at `root`.
    pub fn start(root: FilePath) -> (scan: Scan)
        ensures
            scan.pending@ == seq![root],
            scan.found@.len() == 0,
    {
        let mut pending: Vec<FilePath> = Vec::new();
        pending.push(root);
        Scan { pending, found: Vec::new() }
    }

    /// The directory to read next, or `None` when the walk is over.
    pub fn next_directory(&mut self) -> (next: Option<FilePath>)
        ensures
            final(self).found == old(self).found,
            match next {
                Some(dir) => old(self).pending@.len() > 0 && dir == old(self).pending@.last()
                    && final(self).pending@ == old(self).pending@.drop_last(),
                None => old(self).pending@.len() == 0 && final(self).pending@.len() == 0,
            },
    {
        self.pending.pop()
    }

    /// Takes the entries of a directory that was read: the container files
    /// among them are found, and, in a recursive walk, the directories among
    /// them are to be read.
    pub fn record(&mut self, entries: Vec<DirectoryEntry>, recursive: bool)
        ensures
            final(self).found@ == old(self).found@ + entry_paths(entries@.filter(candidates())),
            final(self).pending@ == old(self).pending@ + entry_paths(
                entries@.filter(subdirectories(recursive)),
            ),
    {
        let ghost wanted = candidates();
        let ghost deeper = subdirectories(recursive);
        let ghost all = entries@;
        let ghost found_before = self.found@;
        let ghost pending_before = self.pending@;
        proof {
            reveal(Seq::filter);
            assert(all.take(0) =~= Seq::<DirectoryEntry>::empty());
            assert(self.found@ =~= found_before + entry_paths(all.take(0).filter(wanted)));
            assert(self.pending@ =~= pending_before + entry_paths(all.take(0).filter(deeper)));
        }
        for entry in it: entries
            invariant
                it.seq() == all,
                wanted == candidates(),
                deeper == subdirectories(recursive),
                self.found@ == found_before + entry_paths(
                    all.take(it.index() as int).filter(wanted),
                ),
                self.pending@ == pending_before + entry_paths(
                    all.take(it.index() as int).filter(deeper),
                ),
        {
            let ghost i = it.index() as int;
            let ghost before = all.take(i);
            proof {
                assert(entry == all[i]);
                assert(all.take(i + 1) =~= before.push(all[i]));
                before.lemma_filter_push(all[i], wanted);
                before.lemma_filter_push(all[i], deeper);
                before.filter(wanted).lemma_push_map_commute(
                    |entry: DirectoryEntry| entry.path,
                    all[i],
                );
                before.filter(deeper).lemma_push_map_commute(
                    |entry: DirectoryEntry| entry.path,
                    all[i],
                );
            }
            let candidate = entry.facts.is_file && is_valid_mkv_file(&entry.path, &entry.facts);
            if candidate {
                self.found.push(entry.path);
                assert(self.found@ =~= found_before + entry_paths(all.take(i + 1).filter(wanted)));
            } else if recursive && entry.is_dir {
                self.pending.push(entry.path);
                assert(self.pending@ =~= pending_before + entry_paths(
                    all.take(i + 1).filter(deeper),
                ));
            }
        }
        assert(all.take(all.len() as int) =~= all);
    }
}

/// How the work on one file ended.
#[derive(Debug, Clone)]
pub struct FileOutcome {
    /// The file.
    pub file: FilePath,
    /// The text of the error, for a file on which the work failed.
    pub error: Option<String>,
}

/// A file with the text of the error that the work on it ended with.
#[derive(Debug, Clone)]
pub struct FileError {
    /// The file.
    pub file: FilePath,
    /// The text of the error.
    pub message: String,
}

/// How a whole batch went.
#[derive(Debug, Clone, Copy, PartialEq, Eq, Structural)]
pub enum BatchVerdict {
    /// The work succeeded on every file.
    AllSucceeded,
    /// It succeeded on some files and failed on others.
    SomeFailed,
    /// It succeeded on no file.
    AllFailed,
}

/// The result of a batch: how many files, how many of them done, and the
/// errors of the others.
#[derive(Debug, Clone)]
pub struct BatchResult {
    /// The number of files.
    pub total_files: usize,
    /// The number of files on which the work succeeded.
    pub successful: usize,
    /// The number of files on which it failed.
    pub failed: usize,
    /// The files on which it failed, each with its error, in the order of
    /// the work.
    pub errors: Vec<FileError>,
}

/// The test "the work failed".
pub open spec fn failures() -> spec_fn(FileOutcome) -> bool {
    |outcome: FileOutcome| outcome.error is Some
}

/// The verdict on a batch of `total` files of which `successful` were done.
pub open spec fn verdict_of(total: nat, successful: nat) -> BatchVerdict {
    if successful == total {
        BatchVerdict::AllSucceeded
    } else if successful > 0 {
        BatchVerdict::SomeFailed
    } else {
        BatchVerdict::AllFailed
    }
}

impl BatchResult {
    /// Sums up the outcomes of the files of a batch.
    pub fn from_outcomes(outcomes: Vec<FileOutcome>) -> (result: BatchResult)
        ensures
            result.total_files == outcomes@.len(),
            result.failed == outcomes@.filter(failures()).len(),
            result.successful + result.failed == result.total_files,
            result.errors@.len() == result.failed,
            forall|k: int|
                0 <= k < result.errors@.len() ==> (#[trigger] result.errors@[k]).file
                    == outcomes@.filter(failures())[k].file && Some(result.errors@[k].message)
                    == outcomes@.filter(failures())[k].error,
    {
        let ghost all = outcomes@;
        let ghost failing = failures();
        let total = outcomes.len();
        let mut successful: usize = 0;
        let mut errors: Vec<FileError> = Vec::new();
        proof {
            reveal(Seq::filter);
            assert(all.take(0) =~= Seq::<FileOutcome>::empty());
        }
        for outcome in it: outcomes
            invariant
                it.seq() == all,
                failing == failures(),
                total == all.len(),
                errors@.len() == all.take(it.index() as int).filter(failing).len(),
                successful + errors@.len() == it.index(),
                forall|k: int|
                    0 <= k < errors@.len() ==> (#[trigger] errors@[k]).file == all.take(
                        it.index() as int,
                    ).filter(failing)[k].file && Some(errors@[k].message) == all.take(
                        it.index() as int,
                    ).filter(failing)[k].error,
        {
            let ghost i = it.index() as int;
            proof {
                assert(outcome == all[i]);
                assert(all.take(i + 1) =~= all.take(i).push(all[i]));
                all.take(i).lemma_filter_push(all[i], failing);
            }
            match outcome.error {
                Some(message) => {
                    errors.push(FileError { file: outcome.file, message });
                },
                None => {
                    successful += 1;
                },
            }
        }
        assert(all.take(all.len() as int) =~= all);
        let failed = errors.len();
        BatchResult { total_files: total, successful, failed, errors }
    }

    /// How the batch went as a whole.
    pub fn verdict(&self) -> (v: BatchVerdict)
        ensures
            v == verdict_of(self.total_files as nat, self.successful as nat),
    {
        if self.successful == self.total_files {
            BatchVerdict::AllSucceeded
        } else if self.successful > 0 {
            BatchVerdict::SomeFailed
        } else {
            BatchVerdict::AllFailed
        }
    }
}

/// A directory of files to work on, and where the results go.
#[derive(Debug, Clone)]
pub struct BatchProcessor {
    /// The directory to read.
    pub input_path: FilePath,
    /// The directory for the results.
    pub target_directory: FilePath,
    /// Whether subdirectories are read too.
    pub recursive: bool,
    /// The glob pattern that a file has to match, if any.
    pub filter_pattern: Option<String>,
    /// The settings.
    pub config: Config,
    /// What Sonarr said, where it called.
    pub sonarr_context: Option<SonarrContext>,
}

/// What makes a path or a pattern unusable in a batch.
#[derive(Debug, Clone, Copy, PartialEq, Eq, Structural)]
pub enum BatchFault {
    /// The path ends in no file name.
    NoFileName,
    /// The path does not lie under the directory that is read.
    OutsideInput,
    /// The path relative to that directory steps up to a parent.
    Traversal,
    /// The pattern does not compile.
    BadPattern,
}

/// The text that a pattern is matched against: the path relative to the
/// directory that is read in a recursive batch, and else the file name.
/// `None` where the path has none.
pub open spec fn match_text(input: Seq<Seq<char>>, recursive: bool, file: Seq<Seq<char>>) -> Option<
    Seq<char>,
> {
    if recursive {
        match without_prefix(file, input) {
            Some(relative) => Some(path_text(relative)),
            None => None,
        }
    } else {
        last_name(file)
    }
}

/// The test "matches the pattern".
pub open spec fn matching(input: Seq<Seq<char>>, recursive: bool, pattern: Seq<char>) -> spec_fn(
    FilePath,
) -> bool {
    |file: FilePath|
        match match_text(input, recursive, file@) {
            Some(text) => glob_pattern_matches(pattern, text),
            None => false,
        }
}

/// The first position at or after `from` of a file without a text to
/// match, or the number of files when every file has one.
pub open spec fn first_unmatchable(
    input: Seq<Seq<char>>,
    recursive: bool,
    files: Seq<FilePath>,
    from: int,
) -> int
    decreases files.len() - from,
{
    if from < 0 || from >= files.len() {
        files.len() as int
    } else if match_text(input, recursive, files[from]@) is None {
        from
    } else {
        first_unmatchable(input, recursive, files, from + 1)
    }
}

/// `first_unmatchable` stays within the files.
pub proof fn lemma_first_unmatchable_in_range(
    input: Seq<Seq<char>>,
    recursive: bool,
    files: Seq<FilePath>,
    from: int,
)
    requires
        0 <= from <= files.len(),
    ensures
        from <= first_unmatchable(input, recursive, files, from) <= files.len(),
    decreases files.len() - from,
{
    if from < files.len() && match_text(input, recursive, files[from]@) is Some {
        lemma_first_unmatchable_in_range(input, recursive, files, from + 1);
    }
}

/// The file and the fault that stop the filtering, if anything does. A
/// pattern that does not compile stops it at the first file, unless that
/// file has no text to match, which is found first. With a pattern that
/// compiles, the first file without a text to match stops it.
pub open spec fn filter_fault(
    input: Seq<Seq<char>>,
    recursive: bool,
    files: Seq<FilePath>,
    pattern: Seq<char>,
) -> Option<(int, BatchFault)> {
    let unmatchable = first_unmatchable(input, recursive, files, 0);
    let missing = if recursive {
        BatchFault::OutsideInput
    } else {
        BatchFault::NoFileName
    };
    if files.len() == 0 {
        None
    } else if unmatchable == 0 {
        Some((0, missing))
    } else if glob_pattern_fault(pattern) is Some {
        Some((0, BatchFault::BadPattern))
    } else if unmatchable < files.len() {
        Some((unmatchable, missing))
    } else {
        None
    }
}

/// The text of the error for a fault.
pub open spec fn fault_message(
    fault: BatchFault,
    file: Seq<Seq<char>>,
    input: Seq<Seq<char>>,
    pattern: Seq<char>,
) -> Seq<char> {
    match fault {
        BatchFault::NoFileName => "Failed to get filename"@,
        BatchFault::OutsideInput => "Failed to strip prefix from "@ + path_text(file)
            + ": prefix not found"@,
        BatchFault::Traversal => "Path traversal attempt detected in: "@ + path_text(
            without_prefix(file, input).unwrap(),
        ),
        BatchFault::BadPattern => "Invalid glob pattern: "@ + pattern
            + ": Pattern syntax error near position "@ + decimal(
            glob_pattern_fault(pattern).unwrap().0,
        ) + ": "@ + glob_pattern_fault(pattern).unwrap().1,
    }
}

/// The fault in the target of a file, if there is one.
pub open spec fn target_fault(input: Seq<Seq<char>>, recursive: bool, file: Seq<Seq<char>>) -> Option<
    BatchFault,
> {
    if last_name(file) is None {
        Some(BatchFault::NoFileName)
    } else if !recursive {
        None
    } else {
        match without_prefix(file, input) {
            None => Some(BatchFault::OutsideInput),
            Some(relative) => if relative.contains(".."@) {
                Some(BatchFault::Traversal)
            } else {
                None
            },
        }
    }
}

/// The target of a file: in a recursive batch its path relative to the
/// directory that is read, under the target directory; and else its name in
/// the target directory.
pub open spec fn target_of(
    input: Seq<Seq<char>>,
    target: Seq<Seq<char>>,
    recursive: bool,
    file: Seq<Seq<char>>,
) -> Seq<Seq<char>> {
    if recursive {
        joined_parts(target, without_prefix(file, input).unwrap())
    } else {
        target.push(last_name(file).unwrap())
    }
}

/// The error for a path that ends in no file name.

fn no_file_name() -> (e: SlimmerError)
    ensures
        e.kind == ErrorKind::Validation,
        e.message@ == "Failed to get filename"@,
{
    SlimmerError { kind: ErrorKind::Validation, message: "Failed to get filename".to_string() }
}

/// The error for a file that does not lie under the directory that is read.

fn outside_input(file: &FilePath) -> (e: SlimmerError)
    ensures
        e.kind == ErrorKind::Validation,
        e.message@ == "Failed to strip prefix from "@ + path_text(file@) + ": prefix not found"@,
{
    let mut message = "Failed to strip prefix from ".to_string();
    let shown = file.to_text();
    message.append(shown.as_str());
    message.append(": prefix not found");
    SlimmerError { kind: ErrorKind::Validation, message }
}

/// The error for a pattern that does not compile, from the position and the
/// reason of the fault.
pub fn bad_pattern(pattern: &str, position: usize, reason: &str) -> (e: SlimmerError)
    ensures
        e.kind == ErrorKind::Validation,
        e.message@ == "Invalid glob pattern: "@ + pattern@
            + ": Pattern syntax error near position "@ + decimal(position as nat) + ": "@
            + reason@,
{
    let mut message = "Invalid glob pattern: ".to_string();
    message.append(pattern);
    message.append(": Pattern syntax error near position ");
    push_decimal(&mut message, position as u64);
    message.append(": ");
    message.append(reason);
    SlimmerError { kind: ErrorKind::Validation, message }
}

impl BatchProcessor {
    /// A batch over the directory `input_path`.
    pub fn new(
        input_path: FilePath,
        target_directory: FilePath,
        recursive: bool,
        filter_pattern: Option<String>,
        config: Config,
        sonarr_context: Option<SonarrContext>,
    ) -> (batch: Self)
        ensures
            batch.input_path == input_path,
            batch.target_directory == target_directory,
            batch.recursive == recursive,
            batch.filter_pattern == filter_pattern,
            batch.config == config,
            batch.sonarr_context == sonarr_context,
    {
        Self { input_path, target_directory, recursive, filter_pattern, config, sonarr_context }
    }

    /// The text of a file that a pattern is matched against.
    pub fn text_to_match(&self, file: &FilePath) -> (text: Option<String>)
        ensures
            match text {
                Some(t) => match_text(self.input_path@, self.recursive, file@) == Some(t@),
                None => match_text(self.input_path@, self.recursive, file@) is None,
            },
    {
        if self.recursive {
            match file.strip_prefix(&self.input_path) {
                Some(relative) => Some(relative.to_text()),
                None => None,
            }
        } else {
            file.file_name()
        }
    }

    /// Keeps the files that match the pattern, in their order.
    ///
    /// The pattern is matched against the file name, and in a recursive
    /// batch against the path relative to the directory that is read. A
    /// file without such a text and a pattern that does not compile are
    /// errors; the pattern is looked at only when there is a file.
    pub fn apply_filter(&self, files: Vec<FilePath>, pattern: &str) -> (filtered: Result<
        Vec<FilePath>,
        SlimmerError,
    >)
        ensures
            filtered is Ok <==> filter_fault(self.input_path@, self.recursive, files@, pattern@)
                is None,
            filtered matches Ok(kept) ==> kept@ == files@.filter(
                matching(self.input_path@, self.recursive, pattern@),
            ),
            filtered matches Err(e) ==> e.kind == ErrorKind::Validation && ({
                let fault = filter_fault(
                    self.input_path@,
                    self.recursive,
                    files@,
                    pattern@,
                ).unwrap();
                0 <= fault.0 < files@.len() && e.message@ == fault_message(
                    fault.1,
                    files@[fault.0]@,
                    self.input_path@,
                    pattern@,
                )
            }),
    {
        let ghost all = files@;
        let ghost input = self.input_path@;
        let ghost wanted = matching(self.input_path@, self.recursive, pattern@);
        let mut kept: Vec<FilePath> = Vec::new();
        proof {
            reveal(Seq::filter);
            assert(all.take(0) =~= Seq::<FilePath>::empty());
            assert(kept@ =~= all.take(0).filter(wanted));
        }
        for file in it: files
            invariant
                it.seq() == all,
                all == files@,
                input == self.input_path@,
                wanted == matching(self.input_path@, self.recursive, pattern@),
                kept@ == all.take(it.index() as int).filter(wanted),
                first_unmatchable(input, self.recursive, all, 0) == first_unmatchable(
                    input,
                    self.recursive,
                    all,
                    it.index() as int,
                ),
                it.index() > 0 ==> first_unmatchable(input, self.recursive, all, 0) > 0,
                it.index() > 0 ==> glob_pattern_fault(pattern@) is None,
        {
            let ghost i = it.index() as int;
            proof {
                assert(file == all[i]);
                assert(all.take(i + 1) =~= all.take(i).push(all[i]));
                all.take(i).lemma_filter_push(all[i], wanted);
                lemma_first_unmatchable_in_range(input, self.recursive, all, i);
                lemma_first_unmatchable_in_range(input, self.recursive, all, i + 1);
            }
            let text = match self.text_to_match(&file) {
                Some(t) => t,
                None => {
                    if self.recursive {
                        return Err(outside_input(&file));
                    } else {
                        return Err(no_file_name());
                    }
                },
            };
            match glob_verdict(pattern, text.as_str()) {
                Ok(matched) => {
                    if matched {
                        kept.push(file);
                    }
                },
                Err((position, reason)) => {
                    return Err(bad_pattern(pattern, position, reason.as_str()));
                },
            }
        }
        assert(all.take(all.len() as int) =~= all);
        Ok(kept)
    }

    /// The files to work on, in the order of the work: those of the files
    /// found that match the pattern, where there is one, sorted by path.
    pub fn collect_mkv_files(&self, found: Vec<FilePath>) -> (files: Result<
        Vec<FilePath>,
        SlimmerError,
    >)
        ensures
            match self.filter_pattern {
                Some(pattern) => {
                    &&& files is Ok <==> filter_fault(
                        self.input_path@,
                        self.recursive,
                        found@,
                        pattern@,
                    ) is None
                    &&& files matches Ok(list) ==> list@.to_multiset() == found@.filter(
                        matching(self.input_path@, self.recursive, pattern@),
                    ).to_multiset()
                    &&& files matches Err(e) ==> e.kind == ErrorKind::Validation && ({
                        let fault = filter_fault(
                            self.input_path@,
                            self.recursive,
                            found@,
                            pattern@,
                        ).unwrap();
                        0 <= fault.0 < found@.len() && e.message@ == fault_message(
                            fault.1,
                            found@[fault.0]@,
                            self.input_path@,
                            pattern@,
                        )
                    })
                },
                None => files matches Ok(list) && list@.to_multiset() == found@.to_multiset(),
            },
            files matches Ok(list) ==> ordered(list@),
    {
        let wanted = match &self.filter_pattern {
            Some(pattern) => match self.apply_filter(found, pattern.as_str()) {
                Ok(kept) => kept,
                Err(e) => {
                    return Err(e);
                },
            },
            None => found,
        };
        Ok(sort_paths(wanted))
    }

    /// Where the result of a file goes.
    ///
    /// A file whose path ends in no file name is refused. In a recursive
    /// batch the file keeps its place relative to the directory that is
    /// read; a file that does not lie under that directory, or whose
    /// relative path steps up to a parent, is refused.
    pub fn calculate_target_path(&self, source_file: &FilePath) -> (target: Result<
        FilePath,
        SlimmerError,
    >)
        ensures
            target is Ok <==> target_fault(self.input_path@, self.recursive, source_file@) is None,
            target matches Ok(path) ==> path@ == target_of(
                self.input_path@,
                self.target_directory@,
                self.recursive,
                source_file@,
            ),
            target matches Err(e) ==> e.kind == ErrorKind::Validation && e.message@
                == fault_message(
                target_fault(self.input_path@, self.recursive, source_file@).unwrap(),
                source_file@,
                self.input_path@,
                Seq::empty(),
            ),
    {
        let name = match source_file.file_name() {
            Some(n) => n,
            None => {
                return Err(no_file_name());
            },
        };
        if self.recursive {
            let relative = match source_file.strip_prefix(&self.input_path) {
                Some(r) => r,
                None => {
                    return Err(outside_input(source_file));
                },
            };
            if relative.has_parent_part() {
                let mut message = "Path traversal attempt detected in: ".to_string();
                let shown = relative.to_text();
                message.append(shown.as_str());
                return Err(SlimmerError { kind: ErrorKind::Validation, message });
            }
            Ok(self.target_directory.join(&relative))
        } else {
            Ok(self.target_directory.child(name.as_str()))
        }
    }

    /// The target of a file and the directory that has to exist for it.
    pub fn target_directory_for(&self, source_file: &FilePath) -> (target: Result<
        (FilePath, FilePath),
        SlimmerError,
    >)
        ensures
            target is Ok <==> target_fault(self.input_path@, self.recursive, source_file@) is None
                && parent_of(
                target_of(
                    self.input_path@,
                    self.target_directory@,
                    self.recursive,
                    source_file@,
                ),
            ) is Some,
            target matches Ok(pair) ==> pair.0@ == target_of(
                self.input_path@,
                self.target_directory@,
                self.recursive,
                source_file@,
            ) && Some(pair.1@) == parent_of(pair.0@),
            target matches Err(e) ==> e.kind == ErrorKind::Validation && e.message@
                == match target_fault(self.input_path@, self.recursive, source_file@) {
                Some(fault) => fault_message(fault, source_file@, self.input_path@, Seq::empty()),
                None => "Target path has no parent directory - cannot determine where to place output file"@,
            },
    {
        let path = match self.calculate_target_path(source_file) {
            Ok(p) => p,
            Err(e) => {
                return Err(e);
            },
        };
        match path.parent() {
            Some(dir) => Ok((path, dir)),
            None => Err(
                SlimmerError {
                    kind: ErrorKind::Validation,
                    message: "Target path has no parent directory - cannot determine where to place output file".to_string(),
                },
            ),
        }
    }
}

} // verus!
