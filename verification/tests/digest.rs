use sunrise_launcher::digest::{hash_file, hash_interrupted, HashProgress};
use sunrise_launcher::error::AppError;

fn digest_of(pieces: &[&[u8]]) -> String {
    let (_, mut hasher) = hash_file(Ok(())).unwrap();
    let mut buffer = [0_u8; 16];
    for piece in pieces {
        buffer[..piece.len()].copy_from_slice(piece);
        hasher = match hasher.read(&buffer, Ok(piece.len())).unwrap() {
            HashProgress::Reading(next) => next,
            HashProgress::Complete(_) => panic!("the file is not over yet"),
        };
    }
    match hasher.read(&buffer, Ok(0)).unwrap() {
        HashProgress::Complete(digest) => digest,
        HashProgress::Reading(_) => panic!("the file is over"),
    }
}

#[test]
fn an_empty_file_has_its_known_digest() {
    assert_eq!(
        digest_of(&[]),
        "e3b0c44298fc1c149afbf4c8996fb92427ae41e4649b934ca495991b7852b855"
    );
}

#[test]
fn a_file_has_its_known_digest_however_it_is_read() {
    let expected = "ba7816bf8f01cfea414140de5dae2223b00361a396177a9cb410ff61f20015ad";
    assert_eq!(digest_of(&[b"abc"]), expected);
    assert_eq!(digest_of(&[b"a", b"bc"]), expected);
    assert_eq!(digest_of(&[b"a", b"b", b"c"]), expected);
}

#[test]
fn only_the_filled_part_of_the_buffer_counts() {
    let (file, hasher) = hash_file(Ok("the file")).unwrap();
    assert_eq!(file, "the file");
    let hasher = match hasher.read(b"abcdef", Ok(3)).unwrap() {
        HashProgress::Reading(next) => next,
        HashProgress::Complete(_) => panic!("the file is not over yet"),
    };
    match hasher.read(b"abcdef", Ok(0)).unwrap() {
        HashProgress::Complete(digest) => assert_eq!(
            digest,
            "ba7816bf8f01cfea414140de5dae2223b00361a396177a9cb410ff61f20015ad"
        ),
        HashProgress::Reading(_) => panic!("the file is over"),
    }
}

#[test]
fn a_file_that_cannot_be_opened_is_reported() {
    match hash_file::<()>(Err("no access".into())) {
        Err(AppError::Io { context, reason }) => {
            assert_eq!(context, "Could not open a file for verification");
            assert_eq!(reason, "no access");
        }
        _ => panic!("the opening failed"),
    }
}

#[test]
fn a_file_that_cannot_be_read_is_reported() {
    let (_, hasher) = hash_file(Ok(())).unwrap();
    match hasher.read(&[], Err("bad sector".into())) {
        Err(AppError::Io { context, reason }) => {
            assert_eq!(context, "Could not verify a file");
            assert_eq!(reason, "bad sector");
        }
        _ => panic!("the read failed"),
    }
}

#[test]
fn an_interrupted_digest_is_reported() {
    match hash_interrupted("the task was cancelled") {
        AppError::Message(text) => assert_eq!(
            text,
            "File verification stopped unexpectedly: the task was cancelled"
        ),
        _ => panic!("a message was expected"),
    }
}
