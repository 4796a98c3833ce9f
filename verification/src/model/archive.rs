//! Project archives: the files that a tar archive of a project holds.

use vstd::prelude::*;
use vstd::string::*;

use crate::error::{Error, Result};
use crate::text::string_of;

verus! {

/// The entries that the `tar` crate reads from an archive's bytes, in
/// archive order: each entry's path, whether it is a directory, and its
/// contents; or the text of the error that stopped the reading.
pub uninterp spec fn tar_files_spec(bytes: Seq<u8>) -> core::result::Result<Seq<(Seq<char>, bool, Seq<u8>)>, Seq<char>>;

/// The entries as plain values.
pub open spec fn tar_entries_view(v: Seq<(String, bool, Vec<u8>)>) -> Seq<(Seq<char>, bool, Seq<u8>)> {
    v.map_values(|e: (String, bool, Vec<u8>)| (e.0@, e.1, e.2@))
}

/// Reads the entries of a tar archive with `tar::Archive::entries`: for
/// each, its path (`Entry::path`, displayed with `to_string_lossy`),
/// whether its header's entry type is a directory, and its contents read to
/// the end.
///
/// The outcome is named by `tar_files_spec`.
#[verifier::external_body]
fn tar_files(bytes: &Vec<u8>) -> (res: core::result::Result<Vec<(String, bool, Vec<u8>)>, String>)
    ensures
        match res {
            Ok(v) => tar_files_spec(bytes@) == Ok::<Seq<(Seq<char>, bool, Seq<u8>)>, Seq<char>>(tar_entries_view(v@)),
            Err(e) => tar_files_spec(bytes@) == Err::<Seq<(Seq<char>, bool, Seq<u8>)>, Seq<char>>(e@),
        },
{
    let mut archive = tar::Archive::new(bytes.as_slice());
    let mut out = Vec::new();
    for entry in archive.entries().map_err(|e| e.to_string())? {
        let mut file = entry.map_err(|e| e.to_string())?;
        let path = file.path().map_err(|e| e.to_string())?.to_string_lossy().to_string();
        let is_dir = file.header().entry_type().is_dir();
        let mut data = Vec::new();
        std::io::Read::read_to_end(&mut file, &mut data).map_err(|e| e.to_string())?;
        out.push((path, is_dir, data));
    }
    Ok(out)
}

/// Number of leading `/` of `s`.
pub open spec fn leading_slashes(s: Seq<char>) -> int
    decreases s.len(),
{
    if s.len() > 0 && s[0] == '/' {
        1 + leading_slashes(s.drop_first())
    } else {
        0
    }
}

/// `s` taken from the root: `/` followed by `s` without its leading `/`.
pub open spec fn rooted(s: Seq<char>) -> Seq<char> {
    seq!['/'] + s.subrange(leading_slashes(s), s.len() as int)
}

/// The files of an archive's entries, in archive order: each entry that is
/// not a directory, with its path taken from the root, and its contents.
pub open spec fn archive_plan(entries: Seq<(Seq<char>, bool, Seq<u8>)>) -> Seq<(Seq<char>, Seq<u8>)>
    decreases entries.len(),
{
    if entries.len() == 0 {
        Seq::empty()
    } else {
        let prev = archive_plan(entries.drop_last());
        let e = entries.last();
        if e.1 {
            prev
        } else {
            prev.push((rooted(e.0), e.2))
        }
    }
}

/// The files as plain values.
pub open spec fn files_view(v: Seq<(String, Vec<u8>)>) -> Seq<(Seq<char>, Seq<u8>)> {
    v.map_values(|f: (String, Vec<u8>)| (f.0@, f.1@))
}

proof fn lemma_leading_slashes(s: Seq<char>, i: int)
    requires
        0 <= i <= s.len(),
        forall|j: int| 0 <= j < i ==> s[j] == '/',
        i == s.len() || s[i] != '/',
    ensures
        leading_slashes(s) == i,
    decreases s.len(),
{
    if s.len() > 0 && i > 0 {
        lemma_leading_slashes(s.drop_first(), i - 1);
    }
}

/// `path` taken from the root.
fn rooted_path(path: &String) -> (res: String)
    ensures
        res@ == rooted(path@),
{
    let p = path.as_str();
    let n = p.unicode_len();
    let mut i: usize = 0;
    while i < n && p.get_char(i) == '/'
        invariant
            n == p@.len(),
            i <= n,
            forall|j: int| 0 <= j < i ==> p@[j] == '/',
        decreases n - i,
    {
        i = i + 1;
    }
    proof {
        lemma_leading_slashes(p@, i as int);
    }
    let mut out = string_of("/");
    out.append(p.substring_char(i, n));
    proof {
        reveal_strlit("/");
    }
    assert(out@ =~= rooted(path@));
    out
}

/// The files among an archive's entries, in archive order: each entry that
/// is not a directory, at `/` followed by its path without leading slashes,
/// with its contents.
pub fn files_from_entries(entries: Vec<(String, bool, Vec<u8>)>) -> (res: Vec<(String, Vec<u8>)>)
    ensures
        files_view(res@) == archive_plan(tar_entries_view(entries@)),
{
    let ghost ev = tar_entries_view(entries@);
    let mut files: Vec<(String, Vec<u8>)> = Vec::new();
    let mut i: usize = 0;
    while i < entries.len()
        invariant
            i <= entries@.len(),
            ev == tar_entries_view(entries@),
            files_view(files@) == archive_plan(ev.take(i as int)),
        decreases entries@.len() - i,
    {
        let e = &entries[i];
        proof {
            let t = ev.take(i + 1);
            assert(t.drop_last() =~= ev.take(i as int));
            assert(t.last() == ev[i as int]);
        }
        if !e.1 {
            let path = rooted_path(&e.0);
            let data = e.2.clone();
            let ghost before = files@;
            files.push((path, data));
            assert(files_view(files@) =~= files_view(before).push((rooted(e.0@), e.2@)));
        } else {
            assert(files_view(files@) =~= archive_plan(ev.take(i + 1)));
        }
        i = i + 1;
    }
    assert(ev.take(ev.len() as int) =~= ev);
    files
}

/// The files that a tar archive of a project holds: each regular entry at
/// `/` followed by its path without leading slashes, with its contents, in
/// archive order; directories are left out. An archive that cannot be read
/// gives an `Other` error with the reader's message.
pub fn archive_files(bytes: &Vec<u8>) -> (res: Result<Vec<(String, Vec<u8>)>>)
    ensures
        match tar_files_spec(bytes@) {
            Ok(entries) => res matches Ok(files) && files_view(files@) == archive_plan(entries),
            Err(m) => res matches Err(Error::Other(e)) && e@ == m,
        },
{
    match tar_files(bytes) {
        Err(m) => Err(Error::Other(m)),
        Ok(entries) => Ok(files_from_entries(entries)),
    }
}

} // verus!
