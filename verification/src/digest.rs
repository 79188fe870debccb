//! The digest by which an installed file is recognised.

use sha2::{Digest, Sha256};
use vstd::prelude::*;
use vstd::slice::slice_subrange;
use vstd::string::StringExecFns;

use crate::error::{AppError, ErrorView};

verus! {

/// The SHA-256 digest of `data`.
pub uninterp spec fn sha256(data: Seq<u8>) -> Seq<u8>;

/// A SHA-256 computation that has taken in some data.
#[verifier::external_body]
pub struct Sha256State {
    hasher: Sha256,
}

/// The digest that `state` gives once it has taken in `rest` too.
pub uninterp spec fn digest_after(state: Sha256State, rest: Seq<u8>) -> Seq<u8>;

/// `Sha256::new`: a computation that has taken in nothing, so that what it takes in is all that its
/// digest is of.
#[verifier::external_body]
fn sha256_new() -> (state: Sha256State)
    ensures
        forall|rest: Seq<u8>| #[trigger] digest_after(state, rest) == sha256(rest),
{
    Sha256State { hasher: Sha256::new() }
}

/// `Sha256::update`: takes in `data` after what the computation took in before.
#[verifier::external_body]
fn sha256_update(state: Sha256State, data: &[u8]) -> (next: Sha256State)
    ensures
        forall|rest: Seq<u8>| #[trigger]
            digest_after(next, rest) == digest_after(state, data@ + rest),
{
    let mut next = state;
    next.hasher.update(data);
    next
}

/// `Sha256::finalize`: the digest of all that the computation took in, thirty-two bytes long.
#[verifier::external_body]
fn sha256_finalize(state: Sha256State) -> (digest: Vec<u8>)
    ensures
        digest@ == digest_after(state, Seq::empty()),
        digest@.len() == 32,
{
    state.hasher.finalize().to_vec()
}

/// The hexadecimal digit with the value `d`, a letter in lower case.
pub open spec fn hex_digit(d: int) -> char {
    if d < 10 {
        (('0' as u32) + d) as char
    } else {
        (('a' as u32) + (d - 10)) as char
    }
}

/// `data` in hexadecimal notation: two digits for each byte, the higher one first.
pub open spec fn hex_text(data: Seq<u8>) -> Seq<char> {
    Seq::new(
        data.len() * 2,
        |i: int|
            if i % 2 == 0 {
                hex_digit(data[i / 2] as int / 16)
            } else {
                hex_digit(data[i / 2] as int % 16)
            },
    )
}

/// `hex::encode`: the bytes in hexadecimal notation, with letters in lower case.
#[verifier::external_body]
fn hex_encode(data: &Vec<u8>) -> (text: String)
    ensures
        text@ == hex_text(data@),
{
    hex::encode(data)
}

/// The digest of a file whose contents arrive piece by piece. Its view is what has arrived.
pub struct FileHasher {
    state: Sha256State,
    taken: Ghost<Seq<u8>>,
}

impl View for FileHasher {
    type V = Seq<u8>;

    closed spec fn view(&self) -> Seq<u8> {
        self.taken@
    }
}

/// Where the reading of a file stands.
pub enum HashProgress {
    /// There may be more to read.
    Reading(FileHasher),
    /// The file has been read to its end, and this is its digest in hexadecimal notation.
    Complete(String),
}

impl FileHasher {
    #[verifier::type_invariant]
    spec fn follows_the_data(self) -> bool {
        forall|rest: Seq<u8>| #[trigger]
            digest_after(self.state, rest) == sha256(self.taken@ + rest)
    }

    /// The digest of a file of which nothing has been read yet.
    fn new() -> (hasher: FileHasher)
        ensures
            hasher@ == Seq::<u8>::empty(),
    {
        let state = sha256_new();
        assert forall|rest: Seq<u8>| #[trigger] digest_after(state, rest) == sha256(
            Seq::<u8>::empty() + rest,
        ) by {
            assert(Seq::<u8>::empty() + rest =~= rest);
        }
        FileHasher { state, taken: Ghost(Seq::empty()) }
    }

    /// Takes note of a read into `buffer`: how many bytes it has put at the buffer's start, or why it
    /// failed. A read that put nothing there has met the end of the file.
    pub fn read(self, buffer: &[u8], count: Result<usize, String>) -> (progress: Result<
        HashProgress,
        AppError,
    >)
        requires
            count matches Ok(count) ==> count <= buffer@.len(),
        ensures
            match (count, progress) {
                (Ok(count), Ok(HashProgress::Reading(next))) => count > 0 && next@ == self@
                    + buffer@.take(count as int),
                (Ok(count), Ok(HashProgress::Complete(digest))) => count == 0 && digest@
                    == hex_text(sha256(self@)) && digest@.len() == 64,
                (Err(reason), Err(error)) => error@ == (ErrorView::Io {
                    context: "Could not verify a file"@,
                    reason: reason@,
                }),
                _ => false,
            },
    {
        proof {
            use_type_invariant(&self);
        }
        let count = match count {
            Ok(count) => count,
            Err(reason) => {
                return Err(AppError::io("Could not verify a file", reason));
            },
        };
        if count == 0 {
            assert(self.taken@ + Seq::<u8>::empty() =~= self.taken@);
            let digest = sha256_finalize(self.state);
            Ok(HashProgress::Complete(hex_encode(&digest)))
        } else {
            let piece = slice_subrange(buffer, 0, count);
            let ghost before = self.taken@;
            let ghost earlier = self.state;
            let state = sha256_update(self.state, piece);
            assert forall|rest: Seq<u8>| #[trigger] digest_after(state, rest) == sha256(
                (before + piece@) + rest,
            ) by {
                assert(before + (piece@ + rest) =~= (before + piece@) + rest);
                assert(digest_after(earlier, piece@ + rest) == sha256(before + (piece@ + rest)));
            }
            assert(piece@ =~= buffer@.take(count as int));
            Ok(HashProgress::Reading(FileHasher { state, taken: Ghost(before + piece@) }))
        }
    }
}

/// Begins to take the digest of a file. `opened` is the opened file, or why it could not be opened.
pub fn hash_file<F>(opened: Result<F, String>) -> (begun: Result<(F, FileHasher), AppError>)
    ensures
        match (opened, begun) {
            (Ok(file), Ok((same_file, hasher))) => same_file == file && hasher@ == Seq::<
                u8,
            >::empty(),
            (Err(reason), Err(error)) => error@ == (ErrorView::Io {
                context: "Could not open a file for verification"@,
                reason: reason@,
            }),
            _ => false,
        },
{
    match opened {
        Ok(file) => Ok((file, FileHasher::new())),
        Err(reason) => Err(AppError::io("Could not open a file for verification", reason)),
    }
}

/// The error for a digest whose computation was broken off, for the given reason.
pub fn hash_interrupted(reason: &str) -> (error: AppError)
    ensures
        error@ == ErrorView::Message("File verification stopped unexpectedly: "@ + reason@),
{
    let mut message = "File verification stopped unexpectedly: ".to_owned();
    message.append(reason);
    AppError::Message(message)
}

} // verus!
