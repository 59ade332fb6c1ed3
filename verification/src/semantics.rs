//! The meaning of the operations over the directory's contents.
//!
//! A store's directory, at any moment, holds a finite map from key
//! strings to the bytes of their files. The functions here say what each
//! operation makes of that map when the file system and the locks
//! cooperate: the create-new open of an insert fails exactly on a present
//! key, a get or a delete fails exactly on an absent one. Contention and
//! file-system failures arrive through the outcome layer of the store
//! module instead and carry their own errors. The lemmas state the laws
//! that the operations obey in combination.

use vstd::prelude::*;

use crate::store::{spec_insert_result, spec_read_result, ReadOutcome, WriteOutcome};
use crate::Error;

verus! {

/// What an insert makes of the directory: create-only, so a present key
/// refuses the create-new open with `CannotOpenFile` and changes nothing;
/// an absent key gains the value.
pub open spec fn spec_insert(
    files: Map<Seq<char>, Seq<u8>>,
    key: Seq<char>,
    value: Seq<u8>,
) -> (Map<Seq<char>, Seq<u8>>, Result<(), Error>) {
    if files.contains_key(key) {
        (files, Err(Error::CannotOpenFile))
    } else {
        (files.insert(key, value), Ok(()))
    }
}

/// What a get returns: the entry's bytes, or `CannotOpenFile` when no
/// file backs the key.
pub open spec fn spec_get(files: Map<Seq<char>, Seq<u8>>, key: Seq<char>) -> Result<
    Seq<u8>,
    Error,
> {
    if files.contains_key(key) {
        Ok(files[key])
    } else {
        Err(Error::CannotOpenFile)
    }
}

/// What an alter makes of the directory: the entry's content replaced in
/// full by `f` of the old value; an absent key fails the read with
/// `CannotOpenFile` and changes nothing.
pub open spec fn spec_alter(
    files: Map<Seq<char>, Seq<u8>>,
    key: Seq<char>,
    f: spec_fn(Seq<u8>) -> Seq<u8>,
) -> (Map<Seq<char>, Seq<u8>>, Result<(), Error>) {
    if files.contains_key(key) {
        (files.insert(key, f(files[key])), Ok(()))
    } else {
        (files, Err(Error::CannotOpenFile))
    }
}

/// What an overwrite makes of the directory: the entry's content replaced
/// by `value`; the open before the truncation assumes the entry present,
/// so an absent key fails with `CannotOpenFile`.
pub open spec fn spec_overwrite(
    files: Map<Seq<char>, Seq<u8>>,
    key: Seq<char>,
    value: Seq<u8>,
) -> (Map<Seq<char>, Seq<u8>>, Result<(), Error>) {
    if files.contains_key(key) {
        (files.insert(key, value), Ok(()))
    } else {
        (files, Err(Error::CannotOpenFile))
    }
}

/// What a delete makes of the directory: the entry's file removed; an
/// absent key fails the removal with `CannotDeleteFile`.
pub open spec fn spec_delete(files: Map<Seq<char>, Seq<u8>>, key: Seq<char>) -> (
    Map<Seq<char>, Seq<u8>>,
    Result<(), Error>,
) {
    if files.contains_key(key) {
        (files.remove(key), Ok(()))
    } else {
        (files, Err(Error::CannotDeleteFile))
    }
}

/// The keys of the store: one per file in the directory.
pub open spec fn spec_keys(files: Map<Seq<char>, Seq<u8>>) -> Set<Seq<char>> {
    files.dom()
}

/// The count of the store's entries.
pub open spec fn spec_len(files: Map<Seq<char>, Seq<u8>>) -> nat {
    files.dom().len()
}

/// What a completed clear leaves: every entry's file removed.
pub open spec fn spec_clear(files: Map<Seq<char>, Seq<u8>>) -> Map<Seq<char>, Seq<u8>> {
    Map::empty()
}

/// What an alter-with-default makes of the directory: an absent key is
/// first seeded with `default`, then the entry is altered either way.
pub open spec fn spec_alter_with_default(
    files: Map<Seq<char>, Seq<u8>>,
    key: Seq<char>,
    default: Seq<u8>,
    f: spec_fn(Seq<u8>) -> Seq<u8>,
) -> (Map<Seq<char>, Seq<u8>>, Result<(), Error>) {
    if files.contains_key(key) {
        spec_alter(files, key, f)
    } else {
        spec_alter(files.insert(key, default), key, f)
    }
}

/// The error a present key gives an insert is the error the outcome
/// layer gives the refused create-new open: the two descriptions of an
/// insert agree where they meet.
pub proof fn lemma_insert_refusal_agrees(
    files: Map<Seq<char>, Seq<u8>>,
    key: Seq<char>,
    value: Seq<u8>,
)
    ensures
        files.contains_key(key) ==> spec_insert(files, key, value).1 == spec_insert_result(
            WriteOutcome::OpenFailed,
        ),
{
}

/// The error an absent key gives a get is the error the outcome layer
/// gives the failed open of the missing file.
pub proof fn lemma_get_absent_agrees(files: Map<Seq<char>, Seq<u8>>, key: Seq<char>)
    ensures
        !files.contains_key(key) ==> spec_get(files, key) == spec_read_result(
            ReadOutcome::OpenFailed,
        ),
{
}

/// An alter that went through replaced the entry's content in full: what
/// the entry then holds is `f` applied to a whole prior value, never a
/// splice of two writes. (That the value a concurrent race picks is some
/// prior one, and that the write itself is not torn, rests on the
/// exclusive lock the caller takes around the write, outside this crate.)
pub proof fn lemma_alter_whole_image(
    files: Map<Seq<char>, Seq<u8>>,
    key: Seq<char>,
    f: spec_fn(Seq<u8>) -> Seq<u8>,
)
    ensures
        files.contains_key(key) ==> spec_alter(files, key, f).0[key] == f(files[key]),
{
}

/// Inserting an entry and then getting the same key returns the inserted
/// value.
pub proof fn lemma_insert_then_get(files: Map<Seq<char>, Seq<u8>>, key: Seq<char>, value: Seq<u8>)
    ensures
        spec_insert(files, key, value).1 is Ok ==> spec_get(spec_insert(files, key, value).0, key)
            == Ok::<Seq<u8>, Error>(value),
{
}

/// A second insert of the same key fails with `CannotOpenFile`: insert
/// never overwrites silently.
pub proof fn lemma_insert_twice(
    files: Map<Seq<char>, Seq<u8>>,
    key: Seq<char>,
    v1: Seq<u8>,
    v2: Seq<u8>,
)
    ensures
        spec_insert(files, key, v1).1 is Ok ==> spec_insert(
            spec_insert(files, key, v1).0,
            key,
            v2,
        ).1 == Err::<(), Error>(Error::CannotOpenFile),
{
}

/// Altering an entry just inserted succeeds and leaves `f` of the
/// inserted value to be got.
pub proof fn lemma_alter_after_insert(
    files: Map<Seq<char>, Seq<u8>>,
    key: Seq<char>,
    value: Seq<u8>,
    f: spec_fn(Seq<u8>) -> Seq<u8>,
)
    ensures
        spec_insert(files, key, value).1 is Ok ==> ({
            let altered = spec_alter(spec_insert(files, key, value).0, key, f);
            altered.1 is Ok && spec_get(altered.0, key) == Ok::<Seq<u8>, Error>(f(value))
        }),
{
}

/// After a delete, a get of the same key fails with `CannotOpenFile`.
pub proof fn lemma_delete_then_get(files: Map<Seq<char>, Seq<u8>>, key: Seq<char>)
    ensures
        spec_get(spec_delete(files, key).0, key) == Err::<Seq<u8>, Error>(Error::CannotOpenFile),
{
}

/// A successful insert adds exactly the new key to the store's keys.
pub proof fn lemma_insert_keys(files: Map<Seq<char>, Seq<u8>>, key: Seq<char>, value: Seq<u8>)
    ensures
        spec_insert(files, key, value).1 is Ok ==> spec_keys(spec_insert(files, key, value).0)
            == spec_keys(files).insert(key),
{
    if !files.contains_key(key) {
        assert(files.insert(key, value).dom() =~= files.dom().insert(key));
    }
}

/// After a completed clear, the store holds no entries.
pub proof fn lemma_clear_len(files: Map<Seq<char>, Seq<u8>>)
    ensures
        spec_len(spec_clear(files)) == 0,
{
    assert(Map::<Seq<char>, Seq<u8>>::empty().dom() =~= Set::empty());
}

/// An alter-with-default leaves `f` of the default to be got at a key
/// that was absent, and `f` of the stored value at a key that was
/// present.
pub proof fn lemma_alter_with_default(
    files: Map<Seq<char>, Seq<u8>>,
    key: Seq<char>,
    default: Seq<u8>,
    f: spec_fn(Seq<u8>) -> Seq<u8>,
)
    ensures
        !files.contains_key(key) ==> spec_get(
            spec_alter_with_default(files, key, default, f).0,
            key,
        ) == Ok::<Seq<u8>, Error>(f(default)),
        files.contains_key(key) ==> spec_get(
            spec_alter_with_default(files, key, default, f).0,
            key,
        ) == Ok::<Seq<u8>, Error>(f(files[key])),
{
}

} // verus!
