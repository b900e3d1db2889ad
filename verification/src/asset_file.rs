//! An asset file to be processed by some build pipeline.
//!
//! An `AssetFile` keeps the canonical path of one on-disk file together with
//! its derived file name, stem and extension. Canonicalizing the path is
//! filesystem work and happens outside this library; what is verified here is
//! the derivation of the three names from the path, and the content-addressed
//! destination name used when the file is copied with hashing enabled.

use vstd::prelude::*;
use vstd::string::*;
use crate::digits::{hex_seq, u64_to_hex};
use crate::errors::AssetError;

verus! {

/// The index of the last occurrence of `c` in `s`, or `-1` when `c` does not
/// occur.
pub open spec fn last_index_of(s: Seq<char>, c: char) -> int
    decreases s.len(),
{
    if s.len() == 0 {
        -1
    } else if s.last() == c {
        s.len() - 1
    } else {
        last_index_of(s.drop_last(), c)
    }
}

/// The last occurrence index is below the length, and at least `-1`.
pub proof fn lemma_last_index_of_bounds(s: Seq<char>, c: char)
    ensures
        -1 <= last_index_of(s, c) < s.len(),
    decreases s.len(),
{
    if s.len() > 0 && s.last() != c {
        lemma_last_index_of_bounds(s.drop_last(), c);
    }
}

/// The characters after the last path separator; the whole path when there
/// is no separator.
pub open spec fn file_name_of(path: Seq<char>) -> Seq<char> {
    path.subrange(last_index_of(path, '/') + 1, path.len() as int)
}

/// Whether a file name can be derived from the path at all.
pub open spec fn has_file_name(path: Seq<char>) -> bool {
    file_name_of(path).len() > 0
}

/// Whether an extension can be derived from a file name: a dot that is
/// neither the leading character (a hidden file) nor absent.
pub open spec fn has_ext(name: Seq<char>) -> bool {
    last_index_of(name, '.') > 0
}

/// The file name up to its last dot; the whole name when it has no
/// extension.
pub open spec fn stem_of(name: Seq<char>) -> Seq<char> {
    if has_ext(name) {
        name.subrange(0, last_index_of(name, '.'))
    } else {
        name
    }
}

/// The file name after its last dot; empty when it has no extension.
pub open spec fn ext_of(name: Seq<char>) -> Seq<char> {
    if has_ext(name) {
        name.subrange(last_index_of(name, '.') + 1, name.len() as int)
    } else {
        Seq::empty()
    }
}

fn last_index_of_char(s: &str, c: char) -> (r: Option<usize>)
    ensures
        match r {
            Some(i) => i < s@.len() && last_index_of(s@, c) == i as int,
            None => last_index_of(s@, c) == -1,
        },
{
    let n = s.unicode_len();
    let mut best: Option<usize> = None;
    let mut i: usize = 0;
    while i < n
        invariant
            n == s@.len(),
            0 <= i <= n,
            match best {
                Some(b) => b < i && last_index_of(s@.take(i as int), c) == b as int,
                None => last_index_of(s@.take(i as int), c) == -1,
            },
        decreases n - i,
    {
        let ch = s.get_char(i);
        proof {
            assert(s@.take(i as int + 1).drop_last() =~= s@.take(i as int));
            assert(s@.take(i as int + 1).last() == s@[i as int]);
        }
        if ch == c {
            best = Some(i);
        }
        i = i + 1;
    }
    proof {
        assert(s@.take(n as int) =~= s@);
    }
    best
}

/// Whether a path is already absolute; here, whether it starts with the path
/// separator.
pub open spec fn is_absolute_path(p: Seq<char>) -> bool {
    p.len() > 0 && p[0] == '/'
}

/// An absolute path stands alone; a relative one is joined onto the base
/// directory.
pub open spec fn resolved_path(base: Seq<char>, p: Seq<char>) -> Seq<char> {
    if is_absolute_path(p) {
        p
    } else {
        base + seq!['/'] + p
    }
}

/// Join `path` onto `base` when it is not already absolute.
pub fn resolve_path(base: &str, path: &str) -> (r: String)
    ensures
        r@ == resolved_path(base@, path@),
{
    let n = path.unicode_len();
    if n > 0 && path.get_char(0) == '/' {
        path.to_owned()
    } else {
        let mut s = base.to_owned();
        s.append("/");
        s.append(path);
        proof {
            reveal_strlit("/");
            assert("/"@ =~= seq!['/']);
            assert(s@ =~= resolved_path(base@, path@));
        }
        s
    }
}

/// An asset file: a canonical path and the names derived from it.
pub struct AssetFile {
    /// The canonical path to the target file.
    pub path: String,
    /// The name of the file itself.
    pub file_name: String,
    /// The file stem of the asset file.
    pub file_stem: String,
    /// The extension of the file.
    pub ext: String,
}

/// The digest that `seahash::hash` computes over a byte sequence.
pub uninterp spec fn seahash_of(bytes: Seq<u8>) -> u64;

/// Relies on seahash::hash: the 64-bit SeaHash digest of the buffer, computed
/// with the crate's prechosen seed, and so a function of the bytes alone.
#[verifier::external_body]
fn seahash_digest(bytes: &[u8]) -> (r: u64)
    ensures
        r == seahash_of(bytes@),
{
    seahash::hash(bytes)
}

/// The content-addressed destination name: the stem, one dash, the digest in
/// lowercase hexadecimal, one dot, the extension.
pub open spec fn hashed_name(stem: Seq<char>, ext: Seq<char>, digest: u64) -> Seq<char> {
    stem + seq!['-'] + hex_seq(digest as nat) + seq!['.'] + ext
}

impl AssetFile {
    /// The three derived names agree with the path they were derived from.
    pub open spec fn wf(self) -> bool {
        &&& has_file_name(self.path@)
        &&& has_ext(file_name_of(self.path@))
        &&& self.file_name@ == file_name_of(self.path@)
        &&& self.file_stem@ == stem_of(self.file_name@)
        &&& self.ext@ == ext_of(self.file_name@)
    }

    /// Derive the file name, stem and extension of the file at the given
    /// canonical path. Fails when no file name, or no extension, can be
    /// derived; whether the path exists on disk is its caller's concern,
    /// settled when the path is canonicalized.
    pub fn new(path: String) -> (r: Result<AssetFile, AssetError>)
        ensures
            has_file_name(path@) && has_ext(file_name_of(path@)) ==> (r matches Ok(f)
                && f.wf() && f.path@ == path@),
            !has_file_name(path@) ==> (r matches Err(AssetError::MissingFileName { path: p })
                && p@ == path@),
            has_file_name(path@) && !has_ext(file_name_of(path@)) ==> (r matches Err(
                AssetError::MissingExtension { path: p },
            ) && p@ == path@),
    {
        proof {
            lemma_last_index_of_bounds(path@, '/');
        }
        let n = path.as_str().unicode_len();
        let slash = last_index_of_char(path.as_str(), '/');
        let start: usize = match slash {
            Some(i) => i + 1,
            None => 0,
        };
        if start == n {
            return Err(AssetError::MissingFileName { path });
        }
        let file_name = path.as_str().substring_char(start, n).to_owned();
        proof {
            assert(file_name@ == file_name_of(path@));
            lemma_last_index_of_bounds(file_name@, '.');
        }
        let m = file_name.as_str().unicode_len();
        let dot = last_index_of_char(file_name.as_str(), '.');
        match dot {
            Some(d) if d > 0 => {
                let file_stem = file_name.as_str().substring_char(0, d).to_owned();
                let ext = file_name.as_str().substring_char(d + 1, m).to_owned();
                Ok(AssetFile { path, file_name, file_stem, ext })
            },
            _ => Err(AssetError::MissingExtension { path }),
        }
    }

    /// The destination file name for one copy of this asset. With hashing
    /// enabled it is the content-addressed name built from the digest of the
    /// bytes; with hashing disabled it is the original file name unchanged.
    pub fn copy_file_name(&self, bytes: &[u8], with_hash: bool) -> (r: String)
        ensures
            with_hash ==> r@ == hashed_name(self.file_stem@, self.ext@, seahash_of(bytes@)),
            !with_hash ==> r@ == self.file_name@,
    {
        if with_hash {
            let digest = seahash_digest(bytes);
            let hex = u64_to_hex(digest);
            let mut s = self.file_stem.clone();
            s.append("-");
            s.append(hex.as_str());
            s.append(".");
            s.append(self.ext.as_str());
            proof {
                reveal_strlit("-");
                reveal_strlit(".");
                assert("-"@ =~= seq!['-']);
                assert("."@ =~= seq!['.']);
                assert(s@ =~= hashed_name(self.file_stem@, self.ext@, seahash_of(bytes@)));
            }
            s
        } else {
            self.file_name.clone()
        }
    }
}

/// Content addressing is deterministic: two asset files standing for the
/// same canonical path give identical byte content the identical hashed
/// destination name, whichever instance or call produced it.
pub proof fn lemma_copy_name_deterministic(
    a: AssetFile,
    b: AssetFile,
    abytes: Seq<u8>,
    bbytes: Seq<u8>,
)
    requires
        a.wf(),
        b.wf(),
        a.path@ == b.path@,
        abytes == bbytes,
    ensures
        hashed_name(a.file_stem@, a.ext@, seahash_of(abytes)) == hashed_name(
            b.file_stem@,
            b.ext@,
            seahash_of(bbytes),
        ),
{
}

} // verus!
