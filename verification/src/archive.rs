//! Reading a compressed archive from an in-memory buffer and turning it into
//! a plan of filesystem operations, with path-traversal protection.
//!
//! The archive itself is parsed by the `zip` crate behind trusted wrappers;
//! what each entry's stored path is allowed to do to the destination
//! directory is decided and proved here.

use vstd::prelude::*;
use vstd::string::*;
use crate::text;
use crate::text::{contains_char, contains_seq, has_prefix, has_suffix};

verus! {

broadcast use vstd::string::group_string_axioms;

/// The parsed entries of an archive buffer, in archive order: each is the
/// entry's stored name and its decompressed contents.  A function of the
/// buffer's bytes alone.
pub uninterp spec fn zip_entry_list(data: Seq<u8>) -> Seq<(Seq<char>, Seq<u8>)>;

/// Whether the buffer opens as an archive at all.  A function of the
/// buffer's bytes alone.
pub uninterp spec fn zip_well_formed(data: Seq<u8>) -> bool;

/// Whether entry `i` of the archive buffer can be read out whole: looked
/// up, and its contents decompressed.  A damaged, encrypted or
/// unsupported entry cannot.  A function of the buffer's bytes and the
/// index alone.
pub uninterp spec fn zip_entry_readable(data: Seq<u8>, i: int) -> bool;

/// The buffer an open archive reader was built over.
pub uninterp spec fn zip_reader_data(r: ZipReader) -> Seq<u8>;

/// An open archive over an in-memory buffer.  Opaque to the verifier; its
/// contents are spoken of through [`zip_reader_data`] and
/// [`zip_entry_list`].
#[verifier::external_body]
pub struct ZipReader {
    inner: zip::ZipArchive<std::io::Cursor<Vec<u8>>>,
}

/// One archive entry: its stored name and its decompressed contents.
pub struct ArchiveEntry {
    pub name: String,
    pub data: Vec<u8>,
}

/// Relies on zip::ZipArchive::new over an in-memory cursor: whether the
/// bytes parse as an archive depends on the bytes alone.
#[verifier::external_body]
pub(crate) fn open_archive(data: Vec<u8>) -> (r: Result<ZipReader, String>)
    ensures
        r matches Ok(z) ==> zip_well_formed(data@) && zip_reader_data(z) == data@,
        r matches Err(e) ==> !zip_well_formed(data@) && has_prefix(
            e@,
            "failed to open zip archive"@,
        ),
{
    match zip::ZipArchive::new(std::io::Cursor::new(data)) {
        Ok(inner) => Ok(ZipReader { inner }),
        Err(e) => Err(format!("failed to open zip archive: {}", e)),
    }
}

/// Relies on zip::ZipArchive::len: the number of entries the archive holds.
#[verifier::external_body]
pub(crate) fn archive_len(r: &ZipReader) -> (n: usize)
    ensures
        n == zip_entry_list(zip_reader_data(*r)).len(),
{
    r.inner.len()
}

/// Relies on zip::ZipArchive::by_index and std::io::Read::read_to_end: the
/// entry at `i` — its raw stored name, read leniently as text, and its
/// decompressed bytes — is a function of the archive bytes and the index,
/// and so is whether reading it succeeds at all.
#[verifier::external_body]
pub(crate) fn read_entry(r: &mut ZipReader, i: usize) -> (e: Result<ArchiveEntry, String>)
    requires
        i < zip_entry_list(zip_reader_data(*old(r))).len(),
    ensures
        zip_reader_data(*final(r)) == zip_reader_data(*old(r)),
        e is Ok <==> zip_entry_readable(zip_reader_data(*old(r)), i as int),
        e matches Ok(en) ==> zip_entry_list(zip_reader_data(*old(r)))[i as int] == (
            en.name@,
            en.data@,
        ),
        e matches Err(m) ==> has_prefix(m@, "failed to read zip entry"@),
{
    match r.inner.by_index(i) {
        Ok(mut f) => {
            let name = String::from_utf8_lossy(f.name_raw()).into_owned();
            let mut data = Vec::new();
            match std::io::Read::read_to_end(&mut f, &mut data) {
                Ok(_) => Ok(ArchiveEntry { name, data }),
                Err(e) => Err(format!("failed to read zip entry {}: {}", i, e)),
            }
        },
        Err(e) => Err(format!("failed to read zip entry {}: {}", i, e)),
    }
}

/// True when the path has a `..` component under `/` separators.
pub open spec fn has_dotdot(p: Seq<char>) -> bool {
    p == ".."@ || has_prefix(p, "../"@) || has_suffix(p, "/.."@) || contains_seq(p, "/../"@)
}

/// A stored entry name that is allowed to touch the destination: non-empty,
/// relative, free of backslashes and drive separators, and without any `..`
/// component.
pub open spec fn safe_entry_name(name: Seq<char>) -> bool {
    &&& name.len() > 0
    &&& name[0] != '/'
    &&& !contains_char(name, '\\')
    &&& !contains_char(name, ':')
    &&& !has_dotdot(name)
}

/// Whether an entry name names a directory: archives mark directories with
/// a trailing separator.  (A trailing backslash also marks one, but such
/// names are already rejected as unsafe.)
pub open spec fn is_dir_name(name: Seq<char>) -> bool {
    name.len() > 0 && name.last() == '/'
}

/// Decides whether a stored entry name may be extracted.
pub fn entry_name_is_safe(name: &str) -> (r: bool)
    ensures
        r == safe_entry_name(name@),
{
    let len = name.unicode_len();
    if len == 0 {
        return false;
    }
    if name.get_char(0) == '/' {
        return false;
    }
    if text::str_contains_char(name, '\\') || text::str_contains_char(name, ':') {
        return false;
    }
    !(text::str_eq(name, "..") || text::str_has_prefix(name, "../") || text::str_has_suffix(
        name,
        "/..",
    ) || text::str_contains(name, "/../"))
}

/// The index of the last `/` in `p`, or `-1` when there is none.
pub open spec fn last_slash_at(p: Seq<char>) -> int
    decreases p.len(),
{
    if p.len() == 0 {
        -1
    } else if p.last() == '/' {
        p.len() - 1
    } else {
        last_slash_at(p.drop_last())
    }
}

/// Everything before the last `/` of `p`; empty when `p` has no `/`.
pub open spec fn parent_dir(p: Seq<char>) -> Seq<char> {
    if last_slash_at(p) >= 0 {
        p.take(last_slash_at(p))
    } else {
        Seq::<char>::empty()
    }
}

pub proof fn lemma_last_slash_bounds(p: Seq<char>)
    ensures
        -1 <= last_slash_at(p) < p.len(),
        last_slash_at(p) >= 0 ==> p[last_slash_at(p)] == '/',
        forall|j: int| last_slash_at(p) < j < p.len() ==> p[j] != '/',
    decreases p.len(),
{
    if p.len() > 0 && p.last() != '/' {
        lemma_last_slash_bounds(p.drop_last());
        assert(forall|j: int| 0 <= j < p.len() - 1 ==> p[j] == p.drop_last()[j]);
    }
}

/// Locating the last slash by scanning from the end.
pub fn find_last_slash(p: &str) -> (r: Option<usize>)
    ensures
        match r {
            Some(i) => i == last_slash_at(p@),
            None => last_slash_at(p@) == -1,
        },
{
    let len = p.unicode_len();
    let mut j: usize = len;
    while j > 0
        invariant
            len == p@.len(),
            j <= len,
            forall|k: int| j <= k < len ==> p@[k] != '/',
        decreases j,
    {
        j = j - 1;
        if p.get_char(j) == '/' {
            proof {
                lemma_last_slash_bounds(p@);
                if last_slash_at(p@) < j {
                    assert(p@[j as int] != '/');
                }
                if last_slash_at(p@) > j {
                    assert(p@[last_slash_at(p@)] != '/');
                }
            }
            return Some(j);
        }
    }
    proof {
        lemma_last_slash_bounds(p@);
        if last_slash_at(p@) >= 0 {
            assert(p@[last_slash_at(p@)] != '/');
        }
    }
    None
}

/// The parent directory of `p` as a fresh string.
pub fn parent_of(p: &str) -> (r: String)
    ensures
        r@ == parent_dir(p@),
{
    match find_last_slash(p) {
        Some(i) => {
            proof {
                lemma_last_slash_bounds(p@);
            }
            let piece = p.substring_char(0, i);
            proof {
                assert(piece@ =~= p@.take(last_slash_at(p@)));
            }
            piece.to_owned()
        },
        None => String::new(),
    }
}

/// One filesystem operation of an extraction plan.
pub enum FsOp {
    /// Create this directory and its parents, for a directory entry.
    MakeDir { path: String, entry: String },
    /// Create the parent directories of a file entry's target.
    MakeParent { path: String, entry: String },
    /// Write a file entry's contents to its target.
    WriteFile { path: String, data: Vec<u8>, entry: String },
}

/// The kind of a planned operation, at the specification level.
#[derive(PartialEq, Eq, Structural)]
pub enum OpKind {
    MakeDir,
    MakeParent,
    WriteFile,
}

/// A planned operation, at the specification level.
pub struct OpModel {
    pub kind: OpKind,
    pub path: Seq<char>,
    pub entry: Seq<char>,
    pub data: Seq<u8>,
}

impl View for FsOp {
    type V = OpModel;

    open spec fn view(&self) -> OpModel {
        match self {
            FsOp::MakeDir { path, entry } => OpModel {
                kind: OpKind::MakeDir,
                path: path@,
                entry: entry@,
                data: Seq::<u8>::empty(),
            },
            FsOp::MakeParent { path, entry } => OpModel {
                kind: OpKind::MakeParent,
                path: path@,
                entry: entry@,
                data: Seq::<u8>::empty(),
            },
            FsOp::WriteFile { path, data, entry } => OpModel {
                kind: OpKind::WriteFile,
                path: path@,
                entry: entry@,
                data: data@,
            },
        }
    }
}

impl DeepView for FsOp {
    type V = OpModel;

    open spec fn deep_view(&self) -> OpModel {
        self.view()
    }
}

/// The operations one entry contributes to the plan: none when its name is
/// unsafe, one directory creation for a directory entry, and parent creation
/// followed by a file write for a file entry.
pub open spec fn entry_ops(name: Seq<char>, data: Seq<u8>, dest: Seq<char>) -> Seq<OpModel> {
    if !safe_entry_name(name) {
        Seq::<OpModel>::empty()
    } else {
        let target = dest + "/"@ + name;
        if is_dir_name(name) {
            seq![
                OpModel { kind: OpKind::MakeDir, path: target, entry: name, data: Seq::empty() },
            ]
        } else {
            seq![
                OpModel {
                    kind: OpKind::MakeParent,
                    path: parent_dir(target),
                    entry: name,
                    data: Seq::empty(),
                },
                OpModel { kind: OpKind::WriteFile, path: target, entry: name, data: data },
            ]
        }
    }
}

/// The whole extraction plan: each entry's operations, in archive order.
pub open spec fn plan_model(entries: Seq<(Seq<char>, Seq<u8>)>, dest: Seq<char>) -> Seq<OpModel>
    decreases entries.len(),
{
    if entries.len() == 0 {
        Seq::<OpModel>::empty()
    } else {
        plan_model(entries.drop_last(), dest) + entry_ops(entries.last().0, entries.last().1, dest)
    }
}

/// The operations for one archive entry.
pub fn entry_fs_ops(name: &str, data: Vec<u8>, dest: &str) -> (r: Vec<FsOp>)
    ensures
        r.deep_view() == entry_ops(name@, data@, dest@),
{
    let mut r: Vec<FsOp> = Vec::new();
    if !entry_name_is_safe(name) {
        proof {
            assert(r.deep_view() =~= entry_ops(name@, data@, dest@));
        }
        return r;
    }
    let len = name.unicode_len();
    let target = text::concat3(dest, "/", name);
    if name.get_char(len - 1) == '/' {
        r.push(FsOp::MakeDir { path: target, entry: name.to_owned() });
    } else {
        let parent = parent_of(target.as_str());
        r.push(FsOp::MakeParent { path: parent, entry: name.to_owned() });
        r.push(FsOp::WriteFile { path: target, data, entry: name.to_owned() });
    }
    proof {
        assert(r.deep_view() =~= entry_ops(name@, data@, dest@));
    }
    r
}

/// Reads every entry of an open archive and lays out the extraction plan.
/// Fails exactly when some entry cannot be read; an archive whose entries
/// are all readable is owed a plan.
pub(crate) fn build_plan(r: &mut ZipReader, dest: &str) -> (res: Result<Vec<FsOp>, String>)
    ensures
        zip_reader_data(*final(r)) == zip_reader_data(*old(r)),
        res matches Ok(plan) ==> plan.deep_view() == plan_model(
            zip_entry_list(zip_reader_data(*old(r))),
            dest@,
        ),
        res matches Err(m) ==> has_prefix(m@, "failed to read zip entry"@) && exists|i: int|
            0 <= i < zip_entry_list(zip_reader_data(*old(r))).len() && !(
            #[trigger] zip_entry_readable(zip_reader_data(*old(r)), i)),
        (forall|i: int|
            0 <= i < zip_entry_list(zip_reader_data(*old(r))).len() ==> #[trigger] zip_entry_readable(
                zip_reader_data(*old(r)),
                i,
            )) ==> res is Ok,
{
    let ghost entries = zip_entry_list(zip_reader_data(*r));
    let n = archive_len(r);
    let mut plan: Vec<FsOp> = Vec::new();
    let mut i: usize = 0;
    while i < n
        invariant
            zip_reader_data(*r) == zip_reader_data(*old(r)),
            entries == zip_entry_list(zip_reader_data(*r)),
            n == entries.len(),
            i <= n,
            plan.deep_view() == plan_model(entries.take(i as int), dest@),
        decreases n - i,
    {
        let entry = match read_entry(r, i) {
            Ok(e) => e,
            Err(m) => {
                return Err(m);
            },
        };
        let mut ops = entry_fs_ops(entry.name.as_str(), entry.data, dest);
        let ghost plan_before = plan.deep_view();
        let ghost ops_view = ops.deep_view();
        plan.append(&mut ops);
        proof {
            let t = entries.take(i + 1);
            assert(t.drop_last() =~= entries.take(i as int));
            assert(t.last() == entries[i as int]);
            assert(plan.deep_view() =~= plan_before + ops_view);
        }
        i = i + 1;
    }
    proof {
        assert(entries.take(n as int) =~= entries);
    }
    Ok(plan)
}

/// A path strictly inside `dest`, or `dest` itself: `dest` followed by a
/// separator and a relative remainder that cannot climb out, or the
/// destination directory with nothing after it.
pub open spec fn within_dest(dest: Seq<char>, p: Seq<char>) -> bool {
    ||| p == dest
    ||| {
        &&& p.len() > dest.len()
        &&& p.take(dest.len() as int) == dest
        &&& p[dest.len() as int] == '/'
        &&& !has_dotdot(p.skip(dest.len() + 1 as int))
    }
}

/// A prefix of a safe relative path that ends just before a `/` has no `..`
/// component either.
proof fn lemma_safe_prefix_no_dotdot(name: Seq<char>, k: int)
    requires
        !has_dotdot(name),
        0 <= k < name.len(),
        name[k] == '/',
    ensures
        !has_dotdot(name.take(k)),
{
    reveal_strlit("..");
    reveal_strlit("../");
    reveal_strlit("/..");
    reveal_strlit("/../");
    let pre = name.take(k);
    if has_dotdot(pre) {
        if pre == ".."@ {
            assert(pre.len() == 2);
            assert(k == 2);
            assert(name[0] == ".."@[0]);
            assert(name[1] == ".."@[1]);
            assert(has_prefix(name, "../"@)) by {
                assert(name.take(3) =~= "../"@);
            }
        } else if has_prefix(pre, "../"@) {
            assert(has_prefix(name, "../"@)) by {
                assert(name.take(3) =~= pre.take(3));
            }
        } else if has_suffix(pre, "/.."@) {
            let s = k - 3;
            assert(pre.skip(s) =~= "/.."@);
            assert(pre.skip(s)[0] == '/' && pre.skip(s)[1] == '.' && pre.skip(s)[2] == '.');
            assert(pre[s] == '/' && pre[s + 1] == '.' && pre[s + 2] == '.');
            assert(name[s] == '/' && name[s + 1] == '.' && name[s + 2] == '.');
            assert(name[k] == '/');
            assert(name.subrange(s, s + "/../"@.len() as int) =~= "/../"@);
            assert(contains_seq(name, "/../"@));
        } else {
            let i = choose|i: int|
                0 <= i <= pre.len() - "/../"@.len() && #[trigger] pre.subrange(
                    i,
                    i + "/../"@.len(),
                ) == "/../"@;
            assert(contains_seq(name, "/../"@)) by {
                assert(name.subrange(i, i + "/../"@.len() as int) =~= pre.subrange(
                    i,
                    i + "/../"@.len(),
                ));
            }
        }
    }
}

/// Path-traversal safety of a single entry: every operation it contributes
/// stays inside the destination directory.
pub proof fn lemma_entry_ops_within(name: Seq<char>, data: Seq<u8>, dest: Seq<char>)
    ensures
        forall|k: int|
            0 <= k < entry_ops(name, data, dest).len() ==> within_dest(
                dest,
                #[trigger] entry_ops(name, data, dest)[k].path,
            ),
{
    if safe_entry_name(name) {
        let target = dest + "/"@ + name;
        assert(target.take(dest.len() as int) =~= dest) by {
            reveal_strlit("/");
        }
        assert(target[dest.len() as int] == '/') by {
            reveal_strlit("/");
        }
        assert(target.skip(dest.len() + 1 as int) =~= name) by {
            reveal_strlit("/");
        }
        assert(within_dest(dest, target));
        if !is_dir_name(name) {
            lemma_last_slash_bounds(target);
            let ls = last_slash_at(target);
            assert(ls >= dest.len()) by {
                reveal_strlit("/");
                assert(target[dest.len() as int] == '/');
                if ls < dest.len() {
                    assert(target[dest.len() as int] != '/');
                }
            }
            let par = parent_dir(target);
            if ls == dest.len() {
                assert(par =~= dest);
            } else {
                let k = ls - dest.len() - 1;
                assert(par.take(dest.len() as int) =~= dest);
                assert(par[dest.len() as int] == '/');
                assert(par.skip(dest.len() + 1 as int) =~= name.take(k)) by {
                    reveal_strlit("/");
                }
                assert(name[k] == '/') by {
                    reveal_strlit("/");
                    assert(target[ls] == '/');
                }
                lemma_safe_prefix_no_dotdot(name, k);
                assert(within_dest(dest, par));
            }
        }
    }
}

/// Path-traversal safety of a whole plan: an archive entry cannot make the
/// plan touch anything outside the destination directory, whatever its
/// stored name; unsafe names contribute nothing and the rest of the archive
/// is still extracted.
pub proof fn lemma_plan_within_dest(entries: Seq<(Seq<char>, Seq<u8>)>, dest: Seq<char>)
    ensures
        forall|k: int|
            0 <= k < plan_model(entries, dest).len() ==> within_dest(
                dest,
                #[trigger] plan_model(entries, dest)[k].path,
            ),
    decreases entries.len(),
{
    if entries.len() > 0 {
        lemma_plan_within_dest(entries.drop_last(), dest);
        lemma_entry_ops_within(entries.last().0, entries.last().1, dest);
    }
}

} // verus!
