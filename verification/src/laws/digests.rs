//! Laws of file digests.

use vstd::prelude::*;

use crate::digest;
use crate::digest::{FileHasher, HashProgress};
use crate::error::AppError;
use crate::inspection;
use crate::models::StateView;
use crate::text;

verus! {

/// What a `FileHasher` has taken in after it has taken in the given pieces one after the other.
pub open spec fn taken_in(pieces: Seq<Seq<u8>>) -> Seq<u8>
    decreases pieces.len(),
{
    if pieces.len() == 0 {
        Seq::empty()
    } else {
        taken_in(pieces.drop_last()) + pieces.last()
    }
}

/// The pieces in which a file is read do not change what has been read of it: they add up to the
/// file's contents, whose digest is then taken.
pub proof fn pieces_add_up(contents: Seq<u8>, pieces: Seq<Seq<u8>>)
    requires
        pieces.flatten() == contents,
    ensures
        taken_in(pieces) == contents,
{
    lemma_taken_in_is_flatten(pieces);
}

proof fn lemma_taken_in_is_flatten(pieces: Seq<Seq<u8>>)
    ensures
        taken_in(pieces) == pieces.flatten(),
    decreases pieces.len(),
{
    if pieces.len() == 0 {
        assert(pieces.flatten() =~= Seq::empty());
    } else {
        lemma_taken_in_is_flatten(pieces.drop_last());
        pieces.lemma_flatten_and_flatten_alt_are_equivalent();
        pieces.drop_last().lemma_flatten_and_flatten_alt_are_equivalent();
    }
}

proof fn lemma_hex_digit(d: int)
    requires
        0 <= d < 16,
    ensures
        text::ascii_lower(digest::hex_digit(d)) == digest::hex_digit(d),
        digest::hex_digit(d) as int == if d < 10 {
            48 + d
        } else {
            87 + d
        },
{
}

/// Hexadecimal notation is in lower case throughout.
pub proof fn hex_text_is_lower_case(data: Seq<u8>)
    ensures
        text::ascii_lowered(digest::hex_text(data)) == digest::hex_text(data),
{
    let hex = digest::hex_text(data);
    assert forall|i: int| 0 <= i < hex.len() implies text::ascii_lowered(hex)[i] == hex[i] by {
        let byte = data[i / 2] as int;
        lemma_hex_digit(byte / 16);
        lemma_hex_digit(byte % 16);
    }
    assert(text::ascii_lowered(hex) =~= hex);
}

/// Hexadecimal notation tells any two byte sequences apart, also where case does not count.
pub proof fn hex_text_tells_data_apart(one: Seq<u8>, other: Seq<u8>)
    ensures
        text::same_ignoring_case(digest::hex_text(one), digest::hex_text(other)) <==> one == other,
{
    hex_text_is_lower_case(one);
    hex_text_is_lower_case(other);
    let a = digest::hex_text(one);
    let b = digest::hex_text(other);
    if a == b {
        assert(a.len() == one.len() * 2);
        assert(b.len() == other.len() * 2);
        assert forall|k: int| 0 <= k < one.len() implies one[k] == other[k] by {
            let x = one[k] as int;
            let y = other[k] as int;
            lemma_hex_digit(x / 16);
            lemma_hex_digit(x % 16);
            lemma_hex_digit(y / 16);
            lemma_hex_digit(y % 16);
            assert(a[2 * k] == digest::hex_digit(x / 16));
            assert(b[2 * k] == digest::hex_digit(y / 16));
            assert(a[2 * k + 1] == digest::hex_digit(x % 16));
            assert(b[2 * k + 1] == digest::hex_digit(y % 16));
        }
        assert(one =~= other);
    }
}

/// An installed DLL counts as changed exactly if its digest is not the digest of the DLL that was
/// installed.
pub proof fn a_changed_file_is_noticed(
    game_found: bool,
    state: StateView,
    recorded: Seq<u8>,
    present: Seq<u8>,
)
    requires
        state.installed_dll_sha256 == digest::hex_text(digest::sha256(recorded)),
    ensures
        inspection::installed_snapshot(
            game_found,
            state,
            digest::hex_text(digest::sha256(present)),
        ).local_file_changed <==> digest::sha256(recorded) != digest::sha256(present),
{
    hex_text_tells_data_apart(digest::sha256(recorded), digest::sha256(present));
}

/// The value of the hexadecimal digit `c`, a letter in lower case.
pub open spec fn hex_value(c: char) -> int {
    if c as int <= 57 {
        c as int - 48
    } else {
        c as int - 87
    }
}

/// Hexadecimal notation is read back: it has two digits for each byte, from `0` to `9` and from `a`
/// to `f`, and the byte is sixteen times the first and the second.
pub proof fn hex_text_is_read_back(data: Seq<u8>, k: int)
    requires
        0 <= k < data.len(),
    ensures
        digest::hex_text(data).len() == 2 * data.len(),
        hex_value(digest::hex_text(data)[2 * k]) * 16 + hex_value(
            digest::hex_text(data)[2 * k + 1],
        ) == data[k],
        forall|i: int|
            0 <= i < 2 * data.len() ==> {
                let c = #[trigger] digest::hex_text(data)[i] as int;
                48 <= c <= 57 || 97 <= c <= 102
            },
{
    let hex = digest::hex_text(data);
    let byte = data[k] as int;
    lemma_hex_digit(byte / 16);
    lemma_hex_digit(byte % 16);
    assert(hex[2 * k] == digest::hex_digit(byte / 16));
    assert(hex[2 * k + 1] == digest::hex_digit(byte % 16));
    assert forall|i: int| 0 <= i < 2 * data.len() implies {
        let c = #[trigger] hex[i] as int;
        48 <= c <= 57 || 97 <= c <= 102
    } by {
        let other = data[i / 2] as int;
        lemma_hex_digit(other / 16);
        lemma_hex_digit(other % 16);
    }
}

/// A digest begins with nothing read, exactly if the file could be opened, and the file is handed
/// back.
pub proof fn a_digest_begins_with_nothing_read<F>(
    opened: Result<F, String>,
    begun: Result<(F, FileHasher), AppError>,
)
    requires
        call_ensures(digest::hash_file::<F>, (opened,), begun),
    ensures
        opened matches Ok(file) ==> (begun matches Ok((same_file, hasher)) && same_file == file
            && hasher@.len() == 0),
        opened matches Err(why) ==> (begun matches Err(AppError::Io { context, reason }) && context@
            == "Could not open a file for verification"@ && reason@ == why@),
{
}

/// A read that gave bytes adds exactly those to what was read before, and a read that gave none ends
/// the file: the digest is then that of all that was read, in hexadecimal notation. A read that
/// failed is reported.
pub proof fn a_digest_is_of_all_that_was_read(
    hasher: FileHasher,
    buffer: &[u8],
    count: Result<usize, String>,
    progress: Result<HashProgress, AppError>,
)
    requires
        count matches Ok(count) ==> count <= buffer@.len(),
        call_ensures(FileHasher::read, (hasher, buffer, count), progress),
    ensures
        match count {
            Ok(n) => if n > 0 {
                &&& progress matches Ok(HashProgress::Reading(next))
                &&& next@.len() == hasher@.len() + n
                &&& forall|i: int| 0 <= i < hasher@.len() ==> #[trigger] next@[i] == hasher@[i]
                &&& forall|i: int|
                    0 <= i < n ==> next@[hasher@.len() + i] == #[trigger] buffer@[i]
            } else {
                &&& progress matches Ok(HashProgress::Complete(text))
                &&& text@ == digest::hex_text(digest::sha256(hasher@))
                &&& text@.len() == 64
            },
            Err(why) => {
                &&& progress matches Err(AppError::Io { context, reason })
                &&& context@ == "Could not verify a file"@
                &&& reason@ == why@
            },
        },
{
}

/// A digest that was broken off is reported with the reason.
pub proof fn an_interrupted_digest_is_reported(reason: &str, error: AppError)
    requires
        call_ensures(digest::hash_interrupted, (reason,), error),
    ensures
        error matches AppError::Message(text) && text@
            == "File verification stopped unexpectedly: "@ + reason@,
{
}

} // verus!
