//! The local workspace of each data source under `<cache_root>/sql/<id>/`:
//! query tab files in `queries/`, cached DDL in `schema_cache/`, exports in
//! `exports/`. Paths are sequences of components; the file system calls
//! (creating, canonicalising, reading, writing) are the caller's. What this
//! module decides is where each file lives and whether a requested path
//! stays inside the data source's directory.

use vstd::prelude::*;
use crate::error::AppError;
use crate::text::{chars_of, copy_string, push_char, push_uuid, str_eq, uuid_text, views};

verus! {

fn copy_path(p: &Vec<String>) -> (r: Vec<String>)
    ensures
        views(r@) == views(p@),
{
    let mut r: Vec<String> = Vec::new();
    let mut i: usize = 0;
    while i < p.len()
        invariant
            i <= p.len(),
            views(r@) == views(p@).take(i as int),
        decreases p.len() - i,
    {
        let ghost before = views(r@);
        r.push(copy_string(&p[i]));
        assert(views(r@) =~= before.push(p@[i as int]@));
        i = i + 1;
        assert(views(r@) =~= views(p@).take(i as int));
    }
    assert(views(p@).take(p.len() as int) =~= views(p@));
    r
}

fn path_child(p: &Vec<String>, name: String) -> (r: Vec<String>)
    ensures
        views(r@) == views(p@).push(name@),
{
    let mut r = copy_path(p);
    let ghost before = views(r@);
    r.push(name);
    assert(views(r@) =~= before.push(name@));
    r
}

/// The SQL workspace cache under a cache root.
pub struct SqlWorkspaceCache {
    root: Vec<String>,
}

impl SqlWorkspaceCache {
    /// The components of `<cache_root>/sql`.
    pub closed spec fn root_view(&self) -> Seq<Seq<char>> {
        views(self.root@)
    }

    pub fn new(cache_root: Vec<String>) -> (c: Self)
        ensures
            c.root_view() == views(cache_root@).push("sql"@),
    {
        let root = path_child(&cache_root, String::from_str("sql"));
        SqlWorkspaceCache { root }
    }

    /// `<root>/<data_source_id>`, the id in hyphenated form.
    pub open spec fn data_source_dir_view(&self, id: u128) -> Seq<Seq<char>> {
        self.root_view().push(uuid_text(id))
    }

    fn data_source_dir(&self, id: u128) -> (p: Vec<String>)
        ensures
            views(p@) == self.data_source_dir_view(id),
    {
        path_child(&self.root, crate::text::uuid_string(id))
    }

    pub fn queries_dir(&self, id: u128) -> (p: Vec<String>)
        ensures
            views(p@) == self.data_source_dir_view(id).push("queries"@),
    {
        let d = self.data_source_dir(id);
        path_child(&d, String::from_str("queries"))
    }

    pub fn schema_cache_dir(&self, id: u128) -> (p: Vec<String>)
        ensures
            views(p@) == self.data_source_dir_view(id).push("schema_cache"@),
    {
        let d = self.data_source_dir(id);
        path_child(&d, String::from_str("schema_cache"))
    }

    pub fn exports_dir(&self, id: u128) -> (p: Vec<String>)
        ensures
            views(p@) == self.data_source_dir_view(id).push("exports"@),
    {
        let d = self.data_source_dir(id);
        path_child(&d, String::from_str("exports"))
    }

    pub fn data_source_root(&self, id: u128) -> (p: Vec<String>)
        ensures
            views(p@) == self.data_source_dir_view(id),
    {
        self.data_source_dir(id)
    }
}

/// The path of a tab's file relative to its data source's directory.
pub fn tab_file_rel_path(tab_id: u128) -> (r: String)
    ensures
        r@ == "queries/"@ + uuid_text(tab_id) + ".sql"@,
{
    let mut r = String::from_str("queries/");
    push_uuid(&mut r, tab_id);
    r.append(".sql");
    r
}

/// Whether `c` is alphabetic or numeric in Unicode, as std's
/// `char::is_alphanumeric` reports it.
pub uninterp spec fn unicode_alphanumeric(c: char) -> bool;

/// std's `char::is_alphanumeric`. Named; of ASCII characters the contract
/// states what std documents: exactly the letters and digits qualify.
#[verifier::external_body]
fn is_alphanumeric_char(c: char) -> (b: bool)
    ensures
        b == unicode_alphanumeric(c),
        (c as u32) < 128 ==> (b <==> (('0' <= c && c <= '9') || ('a' <= c && c <= 'z') || ('A' <= c && c <= 'Z'))),
{
    c.is_alphanumeric()
}

/// A name made safe as part of a file name: letters, digits, `_` and `-`
/// stay, every other character becomes `_`.
pub open spec fn sanitized(s: Seq<char>) -> Seq<char> {
    Seq::new(s.len(), |i: int| if unicode_alphanumeric(s[i]) || s[i] == '_' || s[i] == '-' { s[i] } else { '_' })
}

pub fn sanitize_filename_component(s: &str) -> (r: String)
    ensures
        r@ == sanitized(s@),
{
    let v = chars_of(s);
    let mut r = String::new();
    let mut i: usize = 0;
    while i < v.len()
        invariant
            i <= v.len(),
            v@ == s@,
            r@ == sanitized(s@).take(i as int),
        decreases v.len() - i,
    {
        let c = v[i];
        let keep = is_alphanumeric_char(c) || c == '_' || c == '-';
        push_char(&mut r, if keep { c } else { '_' });
        i = i + 1;
        assert(r@ =~= sanitized(s@).take(i as int));
    }
    assert(sanitized(s@).take(v.len() as int) =~= sanitized(s@));
    r
}

/// The file name of an object's cached DDL: `<schema>__<object>.ddl.sql`.
pub fn schema_ddl_file_name(schema: &str, object: &str) -> (r: String)
    ensures
        r@ == sanitized(schema@) + "__"@ + sanitized(object@) + ".ddl.sql"@,
{
    let mut r = sanitize_filename_component(schema);
    r.append("__");
    let o = sanitize_filename_component(object);
    r.append(o.as_str());
    r.append(".ddl.sql");
    r
}

/// Whether a path lies inside (or is) `root`: its components start with
/// the root's (`Path::starts_with`).
pub open spec fn is_within(root: Seq<Seq<char>>, p: Seq<Seq<char>>) -> bool {
    root.len() <= p.len() && p.take(root.len() as int) == root
}

pub fn path_is_within(root: &Vec<String>, p: &Vec<String>) -> (b: bool)
    ensures
        b == is_within(views(root@), views(p@)),
{
    if root.len() > p.len() {
        return false;
    }
    let mut i: usize = 0;
    while i < root.len()
        invariant
            i <= root.len(),
            root.len() <= p.len(),
            forall|j: int| 0 <= j < i ==> root@[j]@ == p@[j]@,
        decreases root.len() - i,
    {
        if !str_eq(root[i].as_str(), p[i].as_str()) {
            assert(views(p@).take(root.len() as int)[i as int] != views(root@)[i as int]);
            return false;
        }
        i = i + 1;
    }
    assert(views(p@).take(root.len() as int) =~= views(root@));
    true
}

/// Which path a guarded access uses.
#[derive(Debug, Clone, Copy, PartialEq, Eq, Structural)]
pub enum GuardedPath {
    /// The canonical form of the requested path (it exists).
    Canonical,
    /// The requested path as joined (it does not exist yet; its parent does).
    Joined,
}

/// The message of a refused path.
pub open spec fn outside_message(rel: Seq<char>) -> Seq<char> {
    "路径 "@ + rel + " 越界，拒绝访问"@
}

pub open spec fn illegal_message(rel: Seq<char>) -> Seq<char> {
    "非法路径："@ + rel
}

pub open spec fn path_opt(p: Option<Vec<String>>) -> Option<Seq<Seq<char>>> {
    match p {
        Some(v) => Some(views(v@)),
        None => None,
    }
}

/// The decision of the workspace path guard, from the canonical root, the
/// canonical form of `<root>/<rel>` if it exists, and otherwise the
/// canonical form of its parent (`None`: no parent; `Some(None)`: the
/// parent does not exist either). An existing path is used in canonical
/// form if it lies inside the root; a new file is allowed if its parent
/// lies inside the root; everything else is refused with
/// `PermissionDenied`.
pub fn guard_decision(
    rel_path: &str,
    root_canon: &Vec<String>,
    candidate_canon: Option<Vec<String>>,
    parent_canon: Option<Option<Vec<String>>>,
) -> (r: Result<GuardedPath, AppError>)
    ensures
        match path_opt(candidate_canon) {
            Some(c) => if is_within(views(root_canon@), c) {
                r == Ok::<GuardedPath, AppError>(GuardedPath::Canonical)
            } else {
                r matches Err(AppError::PermissionDenied(m)) && m@ == outside_message(rel_path@)
            },
            None => match parent_canon {
                None => r matches Err(AppError::PermissionDenied(m)) && m@ == illegal_message(rel_path@),
                Some(None) => r matches Err(AppError::PermissionDenied(m)) && m@ == illegal_message(rel_path@),
                Some(Some(p)) => if is_within(views(root_canon@), views(p@)) {
                    r == Ok::<GuardedPath, AppError>(GuardedPath::Joined)
                } else {
                    r matches Err(AppError::PermissionDenied(m)) && m@ == outside_message(rel_path@)
                },
            },
        },
{
    match candidate_canon {
        Some(c) => {
            if path_is_within(root_canon, &c) {
                Ok(GuardedPath::Canonical)
            } else {
                Err(AppError::PermissionDenied(outside_text(rel_path)))
            }
        },
        None => match parent_canon {
            None => Err(AppError::PermissionDenied(illegal_text(rel_path))),
            Some(None) => Err(AppError::PermissionDenied(illegal_text(rel_path))),
            Some(Some(p)) => {
                if path_is_within(root_canon, &p) {
                    Ok(GuardedPath::Joined)
                } else {
                    Err(AppError::PermissionDenied(outside_text(rel_path)))
                }
            },
        },
    }
}

fn outside_text(rel: &str) -> (m: String)
    ensures
        m@ == outside_message(rel@),
{
    let mut m = String::from_str("路径 ");
    m.append(rel);
    m.append(" 越界，拒绝访问");
    m
}

fn illegal_text(rel: &str) -> (m: String)
    ensures
        m@ == illegal_message(rel@),
{
    let mut m = String::from_str("非法路径：");
    m.append(rel);
    m
}

/// The error of a data source directory that cannot be canonicalised.
pub fn unavailable_root_error(detail: &str) -> (e: AppError)
    ensures
        e matches AppError::Internal(m) && m@ == "SQL 工作区目录不可用："@ + detail@,
{
    let mut m = String::from_str("SQL 工作区目录不可用：");
    m.append(detail);
    AppError::Internal(m)
}

} // verus!
