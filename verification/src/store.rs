//! The store handle and the file protocol of each operation.
//!
//! A `DiskMap` names a directory in which every entry lives as one file:
//! the file's name is the key and its content is the value's encoding.
//! The handle itself performs no input or output. Each operation is split
//! into the part that decides and the part that touches the disk: a method
//! here computes the request that the caller must carry out (which path to
//! open, under which mode, with which payload), and a companion function
//! turns the outcome of that request into the operation's typed result.
//! The caller performs the requests with create-new, truncating or
//! read-only opens and with shared or exclusive advisory locks, and
//! reports what happened through `WriteOutcome`, `ReadOutcome` or the
//! plain outcome arguments.

use vstd::prelude::*;

use crate::paths::{path_of, valid_key};
use crate::Error;

verus! {

/// A handle on a store: the path of the directory that owns the entries.
/// Duplicating the handle duplicates access, never storage.
pub struct DiskMap {
    directory: String,
}

impl View for DiskMap {
    type V = Seq<char>;

    closed spec fn view(&self) -> Seq<char> {
        self.directory@
    }
}

/// A request to write one file: open `path` (create-new for an insert,
/// truncating otherwise), take the exclusive advisory lock, and write
/// `payload` in full.
pub struct WriteRequest {
    pub path: String,
    pub create_new: bool,
    pub payload: Vec<u8>,
}

/// A request to read one file: open `path` read-only, take the shared
/// advisory lock, and read the content in full.
pub struct ReadRequest {
    pub path: String,
}

/// A request to remove the file at `path`. No lock is taken first.
pub struct RemoveRequest {
    pub path: String,
}

/// How far a write request got: the step at which it stopped, or success.
pub enum WriteOutcome {
    /// The open failed: for a create-new open, the file already exists or
    /// cannot be created; for a truncating open, it is absent or denied.
    OpenFailed,
    /// The exclusive advisory lock could not be taken.
    LockFailed,
    /// The payload could not be written in full.
    WriteFailed,
    /// The payload stands in the file.
    Written,
}

/// How far a read request got: the step at which it stopped, or the bytes.
pub enum ReadOutcome {
    /// The file is absent or cannot be opened.
    OpenFailed,
    /// The shared advisory lock could not be taken.
    LockFailed,
    /// The content could not be read in full.
    ReadFailed,
    /// The file's whole content.
    Content(Vec<u8>),
}

/// The result of an insert, by the step at which its write stopped.
pub open spec fn spec_insert_result(o: WriteOutcome) -> Result<(), Error> {
    match o {
        WriteOutcome::OpenFailed => Err(Error::CannotOpenFile),
        WriteOutcome::LockFailed => Err(Error::CannotGetLock),
        WriteOutcome::WriteFailed => Err(Error::CannotInsert),
        WriteOutcome::Written => Ok(()),
    }
}

/// The result of the write phase of an alter or an overwrite.
pub open spec fn spec_write_back_result(o: WriteOutcome) -> Result<(), Error> {
    match o {
        WriteOutcome::OpenFailed => Err(Error::CannotOpenFile),
        WriteOutcome::LockFailed => Err(Error::CannotGetLock),
        WriteOutcome::WriteFailed => Err(Error::CannotAlterFile),
        WriteOutcome::Written => Ok(()),
    }
}

/// The error of a failed read step; `Content` is not an error.
pub open spec fn spec_read_error(o: ReadOutcome) -> Error {
    match o {
        ReadOutcome::OpenFailed => Error::CannotOpenFile,
        ReadOutcome::LockFailed => Error::CannotGetLock,
        _ => Error::CannotReadFromFile,
    }
}

/// The result of a get, by what its read request yielded.
pub open spec fn spec_read_result(o: ReadOutcome) -> Result<Seq<u8>, Error> {
    match o {
        ReadOutcome::Content(b) => Ok(b@),
        _ => Err(spec_read_error(o)),
    }
}

/// Concludes an insert: the step at which the write stopped gives the
/// error, success gives `Ok`. A lock failure surfaces as `CannotGetLock`
/// rather than ending the process.
pub fn insert_result(outcome: &WriteOutcome) -> (r: Result<(), Error>)
    ensures
        r == spec_insert_result(*outcome),
{
    match outcome {
        WriteOutcome::OpenFailed => Err(Error::CannotOpenFile),
        WriteOutcome::LockFailed => Err(Error::CannotGetLock),
        WriteOutcome::WriteFailed => Err(Error::CannotInsert),
        WriteOutcome::Written => Ok(()),
    }
}

/// Concludes the write phase of an alter or an overwrite: as
/// `insert_result`, but a failed write is `CannotAlterFile`.
pub fn write_back_result(outcome: &WriteOutcome) -> (r: Result<(), Error>)
    ensures
        r == spec_write_back_result(*outcome),
{
    match outcome {
        WriteOutcome::OpenFailed => Err(Error::CannotOpenFile),
        WriteOutcome::LockFailed => Err(Error::CannotGetLock),
        WriteOutcome::WriteFailed => Err(Error::CannotAlterFile),
        WriteOutcome::Written => Ok(()),
    }
}

/// Concludes a get: the read's bytes, or the error of the step at which
/// the read stopped.
pub fn get_result(outcome: ReadOutcome) -> (r: Result<Vec<u8>, Error>)
    ensures
        match outcome {
            ReadOutcome::Content(b) => r == Ok::<Vec<u8>, Error>(b),
            ReadOutcome::OpenFailed => r == Err::<Vec<u8>, Error>(Error::CannotOpenFile),
            ReadOutcome::LockFailed => r == Err::<Vec<u8>, Error>(Error::CannotGetLock),
            ReadOutcome::ReadFailed => r == Err::<Vec<u8>, Error>(Error::CannotReadFromFile),
        },
{
    match outcome {
        ReadOutcome::Content(b) => Ok(b),
        ReadOutcome::OpenFailed => Err(Error::CannotOpenFile),
        ReadOutcome::LockFailed => Err(Error::CannotGetLock),
        ReadOutcome::ReadFailed => Err(Error::CannotReadFromFile),
    }
}

/// Concludes a delete: `removed` says whether the file could be removed.
pub fn delete_result(removed: bool) -> (r: Result<(), Error>)
    ensures
        removed ==> r == Ok::<(), Error>(()),
        !removed ==> r == Err::<(), Error>(Error::CannotDeleteFile),
{
    if removed {
        Ok(())
    } else {
        Err(Error::CannotDeleteFile)
    }
}

impl DiskMap {
    /// Binds a handle to `directory`. The caller first makes the directory
    /// exist, creating parent segments as needed, and reports whether that
    /// succeeded in `dir_ready`.
    pub fn open(directory: &str, dir_ready: bool) -> (r: Result<DiskMap, Error>)
        ensures
            dir_ready ==> (r matches Ok(m) && m@ == directory@),
            !dir_ready ==> r == Err::<DiskMap, Error>(Error::CannotOpenDirectory),
    {
        if dir_ready {
            Ok(DiskMap { directory: directory.to_owned() })
        } else {
            Err(Error::CannotOpenDirectory)
        }
    }

    /// Binds a handle to a pristine store. The caller first removes
    /// whatever stood at `directory` (best-effort: a failed removal is
    /// ignored) and then makes the directory exist as for `open`.
    pub fn open_new(directory: &str, dir_ready: bool) -> (r: Result<DiskMap, Error>)
        ensures
            dir_ready ==> (r matches Ok(m) && m@ == directory@),
            !dir_ready ==> r == Err::<DiskMap, Error>(Error::CannotOpenDirectory),
    {
        Self::open(directory, dir_ready)
    }

    /// The directory this handle is bound to.
    pub fn directory(&self) -> (d: &String)
        ensures
            d@ == self@,
    {
        &self.directory
    }

    /// The path of the file that backs the entry of `key`.
    pub fn filename(&self, key: &str) -> (p: String)
        ensures
            p@ == path_of(self@, key@),
    {
        let mut p = self.directory.clone();
        p.append("/");
        p.append(key);
        proof {
            reveal_strlit("/");
            assert(p@ =~= path_of(self@, key@));
        }
        p
    }

    /// The write request of `insert(key, value)`: create the entry's file
    /// anew — never over an existing one — and write `value`.
    pub fn insert(&self, key: &str, value: Vec<u8>) -> (req: WriteRequest)
        requires
            valid_key(key@),
        ensures
            req.path@ == path_of(self@, key@),
            req.create_new == true,
            req.payload == value,
    {
        WriteRequest { path: self.filename(key), create_new: true, payload: value }
    }

    /// The read request of `get(key)`.
    pub fn get(&self, key: &str) -> (req: ReadRequest)
        requires
            valid_key(key@),
        ensures
            req.path@ == path_of(self@, key@),
    {
        ReadRequest { path: self.filename(key) }
    }

    /// The write request of `overwrite(key, value)`: truncate the entry's
    /// existing file and write `value` in its place.
    pub fn overwrite(&self, key: &str, value: Vec<u8>) -> (req: WriteRequest)
        requires
            valid_key(key@),
        ensures
            req.path@ == path_of(self@, key@),
            req.create_new == false,
            req.payload == value,
    {
        WriteRequest { path: self.filename(key), create_new: false, payload: value }
    }

    /// The remove request of `delete(key)`.
    pub fn delete(&self, key: &str) -> (req: RemoveRequest)
        requires
            valid_key(key@),
        ensures
            req.path@ == path_of(self@, key@),
    {
        RemoveRequest { path: self.filename(key) }
    }

    /// The read-modify-write step of `alter(key, f)` between its two
    /// requests: `read` is what the entry's read request yielded, and on
    /// success the result is the write request that puts `f` of the old
    /// value in the entry's place. A failed read stops the operation with
    /// the read's error; a failed lock surfaces as `CannotGetLock`.
    pub fn alter<F: Fn(Vec<u8>) -> Vec<u8>>(&self, key: &str, read: ReadOutcome, f: F) -> (r:
        Result<WriteRequest, Error>)
        requires
            valid_key(key@),
            forall|v: Vec<u8>| call_requires(f, (v,)),
        ensures
            match read {
                ReadOutcome::Content(b) => (r matches Ok(req) && req.path@ == path_of(
                    self@,
                    key@,
                ) && req.create_new == false && call_ensures(f, (b,), req.payload)),
                _ => r == Err::<WriteRequest, Error>(spec_read_error(read)),
            },
    {
        match read {
            ReadOutcome::Content(b) => {
                let payload = f(b);
                Ok(WriteRequest { path: self.filename(key), create_new: false, payload })
            },
            ReadOutcome::OpenFailed => Err(Error::CannotOpenFile),
            ReadOutcome::LockFailed => Err(Error::CannotGetLock),
            ReadOutcome::ReadFailed => Err(Error::CannotReadFromFile),
        }
    }

    /// The keys of the store: the file names the caller could list in the
    /// directory, one per entry; an entry the file system failed to list
    /// is silently skipped by the caller. `listing` is `None` when the
    /// directory itself could not be listed.
    pub fn get_keys(&self, listing: Option<Vec<String>>) -> (r: Result<Vec<String>, Error>)
        ensures
            match listing {
                Some(names) => r == Ok::<Vec<String>, Error>(names),
                None => r == Err::<Vec<String>, Error>(Error::CannotOpenDirectory),
            },
    {
        match listing {
            Some(names) => Ok(names),
            None => Err(Error::CannotOpenDirectory),
        }
    }

    /// Whether `key` appears among the listed file names.
    pub fn contains_key(&self, listing: Option<Vec<String>>, key: &str) -> (r: Result<bool, Error>)
        requires
            valid_key(key@),
        ensures
            match listing {
                Some(names) => r == Ok::<bool, Error>(key_listed(names@, key@)),
                None => r == Err::<bool, Error>(Error::CannotOpenDirectory),
            },
    {
        match listing {
            None => Err(Error::CannotOpenDirectory),
            Some(names) => {
                let target = key.to_owned();
                let n = names.len();
                let mut found = false;
                let mut i: usize = 0;
                while i < n
                    invariant
                        n == names.len(),
                        0 <= i <= n,
                        target@ == key@,
                        found == (exists|j: int| 0 <= j < i && names@[j]@ == key@),
                    decreases n - i,
                {
                    if names[i] == target {
                        proof {
                            assert(names@[i as int]@ == key@);
                        }
                        found = true;
                    }
                    i += 1;
                }
                Ok(found)
            },
        }
    }

    /// The count of the listed entries.
    pub fn len(&self, listing: Option<Vec<String>>) -> (r: Result<usize, Error>)
        ensures
            match listing {
                Some(names) => (r matches Ok(n) && n == names@.len()),
                None => r == Err::<usize, Error>(Error::CannotOpenDirectory),
            },
    {
        match listing {
            Some(names) => Ok(names.len()),
            None => Err(Error::CannotOpenDirectory),
        }
    }

    /// Materializes every listed key with its value: `reads` holds, for
    /// each listed key in order, what that entry's read request yielded.
    /// The first failed read aborts the rest with its error.
    pub fn as_vec(&self, listing: Option<Vec<String>>, reads: Vec<ReadOutcome>) -> (r: Result<
        Vec<(String, Vec<u8>)>,
        Error,
    >)
        requires
            (listing matches Some(names) ==> reads@.len() == names@.len()),
        ensures
            match listing {
                Some(names) => (match r {
                    Ok(pairs) => spec_as_vec(names@, reads@) == Ok::<
                        Seq<(Seq<char>, Seq<u8>)>,
                        Error,
                    >(pairs_view(pairs@)),
                    Err(e) => spec_as_vec(names@, reads@) == Err::<
                        Seq<(Seq<char>, Seq<u8>)>,
                        Error,
                    >(e),
                }),
                None => r == Err::<Vec<(String, Vec<u8>)>, Error>(Error::CannotOpenDirectory),
            },
    {
        match listing {
            None => Err(Error::CannotOpenDirectory),
            Some(names) => {
                let n = names.len();
                let mut firstbad: Option<usize> = None;
                let mut i: usize = 0;
                while i < n
                    invariant
                        n == names@.len(),
                        reads@.len() == names@.len(),
                        0 <= i <= n,
                        match firstbad {
                            None => forall|j: int|
                                0 <= j < i ==> (#[trigger] reads@[j] matches ReadOutcome::Content(
                                    _,
                                )),
                            Some(k) => 0 <= k < i && (forall|j: int|
                                0 <= j < k ==> (#[trigger] reads@[j] matches ReadOutcome::Content(
                                    _,
                                ))) && !(reads@[k as int] matches ReadOutcome::Content(_)),
                        },
                    decreases n - i,
                {
                    let good = match &reads[i] {
                        ReadOutcome::Content(_) => true,
                        _ => false,
                    };
                    if !good && firstbad.is_none() {
                        firstbad = Some(i);
                    }
                    i += 1;
                }
                match firstbad {
                    Some(k) => {
                        proof {
                            lemma_spec_as_vec_stops(names@, reads@, k as int);
                        }
                        Err(read_error(&reads[k]))
                    },
                    None => {
                        let ghost gnames = names@;
                        let ghost greads = reads@;
                        let mut pairs: Vec<(String, Vec<u8>)> = Vec::new();
                        let mut names_rest = names;
                        let mut rest = reads;
                        let mut i: usize = 0;
                        while i < n
                            invariant
                                n == gnames.len(),
                                greads.len() == gnames.len(),
                                0 <= i <= n,
                                names_rest@ =~= gnames.skip(i as int),
                                rest@ =~= greads.skip(i as int),
                                pairs@.len() == i,
                                forall|j: int|
                                    0 <= j < n ==> (#[trigger] greads[j] matches ReadOutcome::Content(
                                        _,
                                    )),
                                forall|j: int|
                                    0 <= j < i ==> #[trigger] pairs@[j] == (
                                        gnames[j],
                                        spec_content(greads[j]),
                                    ),
                            decreases n - i,
                        {
                            proof {
                                assert(gnames.skip(i as int)[0] == gnames[i as int]);
                                assert(greads.skip(i as int)[0] == greads[i as int]);
                            }
                            let name = names_rest.remove(0);
                            let outcome = rest.remove(0);
                            proof {
                                assert(names_rest@ =~= gnames.skip(i as int + 1));
                                assert(rest@ =~= greads.skip(i as int + 1));
                            }
                            match outcome {
                                ReadOutcome::Content(b) => {
                                    pairs.push((name, b));
                                },
                                _ => unreached(),
                            }
                            i += 1;
                        }
                        proof {
                            lemma_spec_as_vec_complete(gnames, greads);
                            assert(pairs_view(pairs@) =~= Seq::new(
                                gnames.len(),
                                |j: int| (gnames[j]@, spec_content(greads[j])@),
                            ));
                        }
                        Ok(pairs)
                    },
                }
            },
        }
    }

    /// Deletes every listed key: `removals` says, for each listed key in
    /// order, whether its file could be removed. The first failed removal
    /// aborts the rest, leaving the store partially cleared.
    pub fn clear(&self, listing: Option<Vec<String>>, removals: &Vec<bool>) -> (r: Result<
        (),
        Error,
    >)
        requires
            (listing matches Some(names) ==> removals@.len() == names@.len()),
        ensures
            match listing {
                Some(names) => r == spec_clear_result(removals@),
                None => r == Err::<(), Error>(Error::CannotOpenDirectory),
            },
    {
        match listing {
            None => Err(Error::CannotOpenDirectory),
            Some(_names) => {
                let n = removals.len();
                let mut allok = true;
                let mut i: usize = 0;
                while i < n
                    invariant
                        n == removals@.len(),
                        0 <= i <= n,
                        allok == (forall|j: int| 0 <= j < i ==> removals@[j]),
                    decreases n - i,
                {
                    if !removals[i] {
                        allok = false;
                    }
                    i += 1;
                }
                if allok {
                    Ok(())
                } else {
                    Err(Error::CannotDeleteFile)
                }
            },
        }
    }

    /// The plan of `alter_with_default(key, default, f)`: when `key` is
    /// not among the listed entries, its file is first created by the
    /// insert request of the plan, with `default` as content; either way
    /// the entry is then altered, beginning with the plan's read request.
    pub fn alter_with_default(&self, key: &str, default: Vec<u8>, listing: Option<Vec<String>>)
        -> (r: Result<AlterWithDefaultPlan, Error>)
        requires
            valid_key(key@),
        ensures
            match listing {
                Some(names) => (r matches Ok(plan) && plan.read.path@ == path_of(self@, key@) && (
                key_listed(names@, key@) ==> plan.insert_first is None) && (!key_listed(
                    names@,
                    key@,
                ) ==> (plan.insert_first matches Some(req) && req.path@ == path_of(self@, key@)
                    && req.create_new == true && req.payload == default))),
                None => r == Err::<AlterWithDefaultPlan, Error>(Error::CannotOpenDirectory),
            },
    {
        let present = self.contains_key(listing, key)?;
        if present {
            Ok(AlterWithDefaultPlan { insert_first: None, read: self.get(key) })
        } else {
            Ok(
                AlterWithDefaultPlan {
                    insert_first: Some(self.insert(key, default)),
                    read: self.get(key),
                },
            )
        }
    }
}

/// The two requests that carry out an `alter_with_default`: the insert
/// that seeds the absent entry with the default, where one is needed, and
/// the read that begins the alter.
pub struct AlterWithDefaultPlan {
    pub insert_first: Option<WriteRequest>,
    pub read: ReadRequest,
}

/// Whether `key` is one of the listed file names.
pub open spec fn key_listed(names: Seq<String>, key: Seq<char>) -> bool {
    exists|i: int| 0 <= i < names.len() && names[i]@ == key
}

/// The content of a successful read.
pub open spec fn spec_content(o: ReadOutcome) -> Vec<u8>
    recommends
        o matches ReadOutcome::Content(_),
{
    match o {
        ReadOutcome::Content(b) => b,
        _ => arbitrary(),
    }
}

/// The key-value pairs of `as_vec`, as key string and value bytes.
pub open spec fn pairs_view(pairs: Seq<(String, Vec<u8>)>) -> Seq<(Seq<char>, Seq<u8>)> {
    pairs.map_values(|p: (String, Vec<u8>)| (p.0@, p.1@))
}

/// The result of `as_vec`, given the listed keys and what each entry's
/// read yielded, in order: the keys paired with their values, up to the
/// first failed read, whose error aborts the rest.
pub open spec fn spec_as_vec(names: Seq<String>, reads: Seq<ReadOutcome>) -> Result<
    Seq<(Seq<char>, Seq<u8>)>,
    Error,
>
    decreases names.len(),
{
    if names.len() == 0 {
        Ok(Seq::empty())
    } else {
        match reads[0] {
            ReadOutcome::Content(b) => match spec_as_vec(names.skip(1), reads.skip(1)) {
                Ok(rest) => Ok(seq![(names[0]@, b@)] + rest),
                Err(e) => Err(e),
            },
            _ => Err(spec_read_error(reads[0])),
        }
    }
}

/// A read that failed stops `as_vec` with its error: when the reads up to
/// `i` succeeded and the read at `i` did not, the whole result is the
/// error at `i`.
pub proof fn lemma_spec_as_vec_stops(names: Seq<String>, reads: Seq<ReadOutcome>, i: int)
    requires
        names.len() == reads.len(),
        0 <= i < names.len(),
        forall|j: int| 0 <= j < i ==> (#[trigger] reads[j] matches ReadOutcome::Content(_)),
        !(reads[i] matches ReadOutcome::Content(_)),
    ensures
        spec_as_vec(names, reads) == Err::<Seq<(Seq<char>, Seq<u8>)>, Error>(
            spec_read_error(reads[i]),
        ),
    decreases i,
{
    if i == 0 {
    } else {
        assert(reads[0] matches ReadOutcome::Content(_));
        assert(forall|j: int|
            0 <= j < i - 1 ==> (#[trigger] reads.skip(1)[j] matches ReadOutcome::Content(_)));
        assert(reads.skip(1)[i - 1] == reads[i]);
        lemma_spec_as_vec_stops(names.skip(1), reads.skip(1), i - 1);
    }
}

/// When every read succeeded, `as_vec` pairs each listed key with the
/// content its read yielded, in listing order.
pub proof fn lemma_spec_as_vec_complete(names: Seq<String>, reads: Seq<ReadOutcome>)
    requires
        names.len() == reads.len(),
        forall|j: int|
            0 <= j < reads.len() ==> (#[trigger] reads[j] matches ReadOutcome::Content(_)),
    ensures
        spec_as_vec(names, reads) == Ok::<Seq<(Seq<char>, Seq<u8>)>, Error>(
            Seq::new(names.len(), |j: int| (names[j]@, spec_content(reads[j])@)),
        ),
    decreases names.len(),
{
    if names.len() == 0 {
        assert(Seq::new(0nat, |j: int| (names[j]@, spec_content(reads[j])@)) =~= Seq::<
            (Seq<char>, Seq<u8>),
        >::empty());
    } else {
        assert(forall|j: int|
            0 <= j < reads.len() - 1 ==> (#[trigger] reads.skip(1)[j] matches ReadOutcome::Content(
                _,
            )));
        lemma_spec_as_vec_complete(names.skip(1), reads.skip(1));
        assert(reads[0] matches ReadOutcome::Content(_));
        let b = spec_content(reads[0]);
        assert(seq![(names[0]@, b@)] + Seq::new(
            names.skip(1).len(),
            |j: int| (names.skip(1)[j]@, spec_content(reads.skip(1)[j])@),
        ) =~= Seq::new(names.len(), |j: int| (names[j]@, spec_content(reads[j])@)));
    }
}

/// The result of `clear`, given whether each removal succeeded: success
/// exactly when every file could be removed.
pub open spec fn spec_clear_result(removals: Seq<bool>) -> Result<(), Error> {
    if forall|i: int| 0 <= i < removals.len() ==> removals[i] {
        Ok(())
    } else {
        Err(Error::CannotDeleteFile)
    }
}

/// The error of the read at which `as_vec` stopped.
pub fn read_error(outcome: &ReadOutcome) -> (e: Error)
    requires
        !(*outcome matches ReadOutcome::Content(_)),
    ensures
        e == spec_read_error(*outcome),
{
    match outcome {
        ReadOutcome::OpenFailed => Error::CannotOpenFile,
        ReadOutcome::LockFailed => Error::CannotGetLock,
        _ => Error::CannotReadFromFile,
    }
}

} // verus!
