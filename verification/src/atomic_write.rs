//! How a data file is replaced: the new contents are written to a temporary file beside it, which
//! then takes its place.
//!
//! The file operations themselves are the caller's. An `AtomicWrite` says which one comes next and
//! is told how it ended.

use std::path::{Path, PathBuf};

use vstd::prelude::*;
use vstd::string::StringExecFns;

use crate::error;
use crate::error::{AppError, ErrorView};
use crate::paths;
use crate::text;

verus! {

/// How far the replacement of a data file has come: the operation that is to be done next.
#[derive(Clone, Copy, Debug, PartialEq, Eq, Structural)]
pub enum WriteStage {
    CreateFolder,
    WriteTemporary,
    CheckTarget,
    RemoveTarget,
    Rename,
    Finished,
}

/// How an operation ended.
pub enum WriteOutcome {
    /// It was done, or the file that was looked for is not there.
    Done,
    /// The file that was looked for is there.
    Found,
    /// It failed, for the reason that the system gave.
    Failed(String),
}

/// An operation for the caller to do.
pub enum WriteAction<'a> {
    /// Create the folder, and those above it, where they are missing.
    CreateFolder(&'a Path),
    /// Write a file with these contents.
    WriteFile(&'a Path, &'a [u8]),
    /// Look whether the file exists.
    CheckFile(&'a Path),
    /// Remove the file.
    RemoveFile(&'a Path),
    /// Give the first file the second one's name.
    Rename(&'a Path, &'a Path),
    /// Nothing is left to do.
    Nothing,
}

/// The replacement of a data file.
pub struct AtomicWrite {
    target: PathBuf,
    folder: PathBuf,
    temporary: PathBuf,
    contents: Vec<u8>,
    stage: WriteStage,
}

/// The paths, contents and stage of an `AtomicWrite`.
pub struct WriteView {
    pub target: Seq<u8>,
    pub folder: Seq<u8>,
    pub temporary: Seq<u8>,
    pub contents: Seq<u8>,
    pub stage: WriteStage,
}

impl View for AtomicWrite {
    type V = WriteView;

    closed spec fn view(&self) -> WriteView {
        WriteView {
            target: paths::path_buf_bytes(self.target),
            folder: paths::path_buf_bytes(self.folder),
            temporary: paths::path_buf_bytes(self.temporary),
            contents: self.contents@,
            stage: self.stage,
        }
    }
}

/// The text of a file name, if there is a name and it is valid Unicode.
pub open spec fn name_text(file_name: Option<Seq<u8>>) -> Option<Seq<char>> {
    match file_name {
        Some(name) => paths::unicode_text(name),
        None => None,
    }
}

/// The name of the temporary file for a data file of the given name, in the process `process`.
pub open spec fn temporary_name(file_name: Option<Seq<char>>, process: u32) -> Seq<char> {
    let name = match file_name {
        Some(name) => name,
        None => "state"@,
    };
    "."@ + name + "-"@ + text::decimal(process as nat) + ".tmp"@
}

/// The replacement of the file at `target`, in the folder `folder`, before its first operation.
pub open spec fn write_begun(
    target: Seq<u8>,
    folder: Seq<u8>,
    contents: Seq<u8>,
    process: u32,
) -> WriteView {
    WriteView {
        target,
        folder,
        temporary: paths::joined(
            folder,
            temporary_name(name_text(paths::file_name_of(target)), process),
        ),
        contents,
        stage: WriteStage::CreateFolder,
    }
}

/// What the replacement of a data file begins with: nothing where the file has no folder to lie in.
pub open spec fn write_start(target: Seq<u8>, contents: Seq<u8>, process: u32) -> Result<
    WriteView,
    ErrorView,
> {
    match paths::parent_of(target) {
        Some(folder) => Ok(write_begun(target, folder, contents, process)),
        None => Err(ErrorView::Message("The data file has no parent folder."@)),
    }
}

/// What was being done when the operation of a stage failed. Looking for a file does not fail.
pub open spec fn failure_context(stage: WriteStage) -> Option<Seq<char>> {
    match stage {
        WriteStage::CreateFolder => Some("Could not create a data folder"@),
        WriteStage::WriteTemporary => Some("Could not write local installer data"@),
        WriteStage::RemoveTarget => Some("Could not replace local installer data"@),
        WriteStage::Rename => Some("Could not finish writing local installer data"@),
        WriteStage::CheckTarget | WriteStage::Finished => None,
    }
}

/// The stage after `stage`, once its operation is done. A file is removed only where one was found.
pub open spec fn next_stage(stage: WriteStage, found: bool) -> WriteStage {
    match stage {
        WriteStage::CreateFolder => WriteStage::WriteTemporary,
        WriteStage::WriteTemporary => WriteStage::CheckTarget,
        WriteStage::CheckTarget => if found {
            WriteStage::RemoveTarget
        } else {
            WriteStage::Rename
        },
        WriteStage::RemoveTarget => WriteStage::Rename,
        WriteStage::Rename | WriteStage::Finished => WriteStage::Finished,
    }
}

impl WriteView {
    /// The temporary file is another file than the one that it is to replace.
    pub open spec fn is_valid(self) -> bool {
        self.temporary != self.target
    }

    /// The replacement at the given stage.
    pub open spec fn at(self, stage: WriteStage) -> WriteView {
        WriteView { stage, ..self }
    }
}

/// The error by which a replacement ends, if the outcome of a stage's operation ends it.
pub open spec fn write_error(stage: WriteStage, outcome: WriteOutcome) -> Option<ErrorView> {
    match (outcome, failure_context(stage)) {
        (WriteOutcome::Failed(reason), Some(context)) => Some(
            ErrorView::Io { context, reason: reason@ },
        ),
        _ => None,
    }
}

/// A path cannot be that of its own temporary file: the temporary file's name is longer.
proof fn lemma_temporary_is_another_file(
    target: Seq<u8>,
    temporary: Seq<u8>,
    name: Seq<u8>,
    process: u32,
)
    requires
        paths::file_name_of(temporary) == Some(name),
        paths::is_end_of(name, temporary_name(name_text(paths::file_name_of(target)), process)),
    ensures
        temporary != target,
{
    if temporary == target {
        let whole = temporary_name(name_text(Some(name)), process);
        let start = choose|start: int|
            0 <= start < whole.len() && (start == 0 || whole[start - 1] == '/' || whole[start - 1]
                == '\\') && name == vstd::utf8::encode_utf8(#[trigger] whole.skip(start));
        let stem = whole.skip(start);
        vstd::utf8::encode_utf8_valid_utf8(stem);
        vstd::utf8::encode_utf8_decode_utf8(stem);
        assert(name_text(Some(name)) == Some(stem));
        let tail = "-"@ + text::decimal(process as nat) + ".tmp"@;
        reveal_strlit(".");
        reveal_strlit("-");
        reveal_strlit(".tmp");
        assert(whole =~= "."@ + stem + tail);
        assert(start == tail.len() + 1);
        lemma_no_separator(whole, stem, process, start - 1);
    }
}

/// A text that is a dot, the stem and the tail of a temporary name, and that itself ends with the
/// stem, holds no separator behind the dot: it repeats its tail.
proof fn lemma_no_separator(whole: Seq<char>, stem: Seq<char>, process: u32, at: int)
    requires
        ({
            let tail = "-"@ + text::decimal(process as nat) + ".tmp"@;
            &&& whole == "."@ + stem + tail
            &&& stem == whole.skip(tail.len() as int + 1)
        }),
        1 <= at < whole.len(),
    ensures
        whole[at] != '/',
        whole[at] != '\\',
    decreases whole.len() - at,
{
    reveal_strlit(".");
    reveal_strlit("-");
    reveal_strlit(".tmp");
    text::decimal_holds_digits(process as nat);
    let digits = text::decimal(process as nat);
    let tail = "-"@ + digits + ".tmp"@;
    if at <= stem.len() {
        lemma_no_separator(whole, stem, process, at + tail.len());
        assert(whole[at] == stem[at - 1]);
        assert(stem[at - 1] == whole[at + tail.len()]);
    } else {
        let i = at - 1 - stem.len();
        assert(whole[at] == tail[i]);
        if 1 <= i <= digits.len() {
            assert(tail[i] == digits[i - 1]);
        }
    }
}

/// Writes the name of a temporary file.
fn temporary_file_name(file_name: Option<&str>, process: u32) -> (name: String)
    ensures
        name@ == temporary_name(
            match file_name {
                Some(file_name) => Some(file_name@),
                None => None,
            },
            process,
        ),
{
    let stem = match file_name {
        Some(file_name) => file_name,
        None => "state",
    };
    let mut name = ".".to_owned();
    name.append(stem);
    name.append("-");
    name.append(text::decimal_text(process).as_str());
    name.append(".tmp");
    name
}

/// Begins to replace the file at `path` by one with the given contents. `process` is the number of
/// the running process, which sets its temporary files apart from those of others.
pub fn write_atomic(path: &Path, contents: Vec<u8>, process: u32) -> (begun: Result<
    AtomicWrite,
    AppError,
>)
    ensures
        error::viewed(begun) == write_start(paths::path_bytes(path), contents@, process),
        begun matches Ok(write) ==> write@.is_valid(),
{
    let folder = match paths::parent(path) {
        Some(folder) => folder,
        None => {
            return Err(AppError::message("The data file has no parent folder."));
        },
    };
    let file_name = match paths::file_name(path) {
        Some(file_name) => paths::to_str(file_name),
        None => None,
    };
    let name = temporary_file_name(file_name, process);
    let temporary = paths::join(folder, name.as_str());
    proof {
        reveal_strlit(".");
        reveal_strlit(".tmp");
        assert(paths::is_dotted_file(name@));
        if paths::path_buf_bytes(temporary) == paths::path_bytes(path) {
            lemma_temporary_is_another_file(
                paths::path_bytes(path),
                paths::path_buf_bytes(temporary),
                paths::file_name_of(paths::path_buf_bytes(temporary))->0,
                process,
            );
        }
    }
    Ok(
        AtomicWrite {
            target: paths::to_path_buf(path),
            folder: paths::to_path_buf(folder),
            temporary,
            contents,
            stage: WriteStage::CreateFolder,
        },
    )
}

impl AtomicWrite {
    #[verifier::type_invariant]
    spec fn replaces_another_file(self) -> bool {
        paths::path_buf_bytes(self.temporary) != paths::path_buf_bytes(self.target)
    }

    /// The operation that is to be done next.
    pub fn action(&self) -> (action: WriteAction<'_>)
        ensures
            self@.is_valid(),
            match self@.stage {
                WriteStage::CreateFolder => action matches WriteAction::CreateFolder(folder)
                    && paths::path_bytes(folder) == self@.folder,
                WriteStage::WriteTemporary => action matches WriteAction::WriteFile(file, contents)
                    && paths::path_bytes(file) == self@.temporary && contents@ == self@.contents,
                WriteStage::CheckTarget => action matches WriteAction::CheckFile(file)
                    && paths::path_bytes(file) == self@.target,
                WriteStage::RemoveTarget => action matches WriteAction::RemoveFile(file)
                    && paths::path_bytes(file) == self@.target,
                WriteStage::Rename => action matches WriteAction::Rename(from, to)
                    && paths::path_bytes(from) == self@.temporary && paths::path_bytes(to)
                    == self@.target,
                WriteStage::Finished => action is Nothing,
            },
    {
        proof {
            use_type_invariant(self);
        }
        match self.stage {
            WriteStage::CreateFolder => WriteAction::CreateFolder(paths::as_path(&self.folder)),
            WriteStage::WriteTemporary => WriteAction::WriteFile(
                paths::as_path(&self.temporary),
                self.contents.as_slice(),
            ),
            WriteStage::CheckTarget => WriteAction::CheckFile(paths::as_path(&self.target)),
            WriteStage::RemoveTarget => WriteAction::RemoveFile(paths::as_path(&self.target)),
            WriteStage::Rename => WriteAction::Rename(
                paths::as_path(&self.temporary),
                paths::as_path(&self.target),
            ),
            WriteStage::Finished => WriteAction::Nothing,
        }
    }

    /// Takes note of how the operation of the present stage ended, and goes on to the next stage. A
    /// failure ends the replacement at the stage where it stands.
    pub fn advance(&mut self, outcome: WriteOutcome) -> (result: Result<(), AppError>)
        ensures
            final(self)@.is_valid(),
            match result {
                Ok(()) => write_error(old(self)@.stage, outcome) is None && final(self)@ == old(
                    self,
                )@.at(next_stage(old(self)@.stage, outcome is Found)),
                Err(error) => write_error(old(self)@.stage, outcome) == Some(error@)
                    && final(self)@ == old(self)@,
            },
    {
        proof {
            use_type_invariant(&*self);
        }
        let found = matches!(outcome, WriteOutcome::Found);
        if let WriteOutcome::Failed(reason) = outcome {
            match self.stage {
                WriteStage::CreateFolder => {
                    return Err(AppError::io("Could not create a data folder", reason));
                },
                WriteStage::WriteTemporary => {
                    return Err(AppError::io("Could not write local installer data", reason));
                },
                WriteStage::RemoveTarget => {
                    return Err(AppError::io("Could not replace local installer data", reason));
                },
                WriteStage::Rename => {
                    return Err(
                        AppError::io("Could not finish writing local installer data", reason),
                    );
                },
                WriteStage::CheckTarget | WriteStage::Finished => {},
            }
        }
        self.stage = match self.stage {
            WriteStage::CreateFolder => WriteStage::WriteTemporary,
            WriteStage::WriteTemporary => WriteStage::CheckTarget,
            WriteStage::CheckTarget => if found {
                WriteStage::RemoveTarget
            } else {
                WriteStage::Rename
            },
            WriteStage::RemoveTarget => WriteStage::Rename,
            WriteStage::Rename | WriteStage::Finished => WriteStage::Finished,
        };
        Ok(())
    }
}

} // verus!
