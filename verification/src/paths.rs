//! Derivation of the file path that backs an entry.
//!
//! Every operation of the store locates the file of a key at
//! `<directory>/<key>`. The derivation is pure; for it to keep distinct
//! entries apart, key strings must be usable as single path components,
//! which `valid_key` captures.

use vstd::prelude::*;

verus! {

/// A key string may serve as a file name: it is non-empty, holds no path
/// separator and no NUL character, and is neither of the two reserved
/// directory entries.
pub open spec fn valid_key(s: Seq<char>) -> bool {
    &&& s.len() > 0
    &&& forall|i: int| 0 <= i < s.len() ==> s[i] != '/' && s[i] != '\0'
    &&& s != seq!['.']
    &&& s != seq!['.', '.']
}

/// The path of the file that backs the entry of `key` in `dir`.
pub open spec fn path_of(dir: Seq<char>, key: Seq<char>) -> Seq<char> {
    dir + seq!['/'] + key
}

/// Within one directory, the key-to-path derivation is injective: two
/// keys that land on the same file are the same key.
pub proof fn lemma_path_of_injective(dir: Seq<char>, k1: Seq<char>, k2: Seq<char>)
    requires
        path_of(dir, k1) == path_of(dir, k2),
    ensures
        k1 == k2,
{
    assert(path_of(dir, k1).len() == dir.len() + 1 + k1.len());
    assert(path_of(dir, k2).len() == dir.len() + 1 + k2.len());
    assert(k1.len() == k2.len());
    assert forall|i: int| 0 <= i < k1.len() implies k1[i] == k2[i] by {
        assert(path_of(dir, k1)[dir.len() + 1 + i] == k1[i]);
        assert(path_of(dir, k2)[dir.len() + 1 + i] == k2[i]);
    }
    assert(k1 =~= k2);
}

/// Decides `valid_key` for a key given as a string slice.
pub fn check_key(key: &str) -> (ok: bool)
    ensures
        ok == valid_key(key@),
{
    let n = key.unicode_len();
    if n == 0 {
        return false;
    }
    let mut i: usize = 0;
    let mut clean = true;
    while i < n
        invariant
            n == key@.len(),
            0 <= i <= n,
            clean == (forall|j: int| 0 <= j < i ==> key@[j] != '/' && key@[j] != '\0'),
        decreases n - i,
    {
        let c = key.get_char(i);
        if c == '/' || c == '\0' {
            clean = false;
        }
        i += 1;
    }
    if !clean {
        return false;
    }
    if n == 1 && key.get_char(0) == '.' {
        proof {
            assert(key@ =~= seq!['.']);
        }
        return false;
    }
    if n == 2 && key.get_char(0) == '.' && key.get_char(1) == '.' {
        proof {
            assert(key@ =~= seq!['.', '.']);
        }
        return false;
    }
    proof {
        if key@ == seq!['.'] {
            assert(key@[0] == '.');
        }
        if key@ == seq!['.', '.'] {
            assert(key@[0] == '.' && key@[1] == '.');
        }
    }
    true
}

} // verus!
