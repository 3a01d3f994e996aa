//! What the file tools share: confining paths to the workspace, reading a
//! file's text with a line limit, and the decisions of editing and listing.
use vstd::prelude::*;
use crate::error::{error_message, ErrorView, RagentError};
use crate::text::{contains_seq, lemma_starts_with_prefix, starts_with_seq, occurs_at, chars_of, concat2, concat3, find_first, first_occurrence, string_of};
use crate::tool_call::glob_pattern::{compile_glob, glob_compiles, glob_matches, glob_pattern_matches};
use crate::tool_call::lines::{
    join_with, law_unlimited_read_keeps_text, limit_lines, limit_lines_spec, without_final_newline,
};
use crate::tool_call::path::{
    components, copy_component, is_absolute, is_normal, is_prefix_of, lemma_components_render,
    lemma_components_wf, lemma_normalize_fixpoint, lemma_normalize_normal, lemma_parts_of_push,
    normalize, normalize_path, parts_of, path_components, render, render_path,
    starts_with_components, valid_name, wf_parts, Component, PathPart,
};

verus! {

/// `safe_path` on the components level.
///
/// - `workdir` must be absolute;
/// - an absolute `p` is checked as it is, a relative one is taken from the
///   normalized `workdir`;
/// - the normalized result must lie inside the normalized `workdir`.
pub open spec fn safe_path_spec(workdir: Seq<char>, p: Seq<char>) -> Result<Seq<char>, Seq<char>> {
    if !is_absolute(workdir) {
        Err("Workdir must be absolute"@)
    } else {
        let wn = normalize(components(workdir));
        let full = if is_absolute(p) {
            components(p)
        } else {
            wn + components(p)
        };
        let norm = normalize(full);
        if is_prefix_of(wn, norm) {
            Ok(render(norm))
        } else {
            Err("Path escapes workspace: "@ + p)
        }
    }
}

/// The view of a `Result<String, String>`.
pub open spec fn string_result_view(r: Result<String, String>) -> Result<Seq<char>, Seq<char>> {
    match r {
        Ok(s) => Ok(s@),
        Err(e) => Err(e@),
    }
}

/// Viewing two concatenated component lists.
proof fn lemma_parts_of_append(a: Seq<Component>, b: Seq<Component>)
    ensures
        parts_of(a + b) == parts_of(a) + parts_of(b),
{
    assert(parts_of(a + b) =~= parts_of(a) + parts_of(b));
}

/// A copy of a list of components.
fn copy_components(v: &Vec<Component>) -> (r: Vec<Component>)
    ensures
        parts_of(r@) == parts_of(v@),
{
    let mut r: Vec<Component> = Vec::new();
    let mut i: usize = 0;
    while i < v.len()
        invariant
            i <= v@.len(),
            parts_of(r@) == parts_of(v@).take(i as int),
        decreases v@.len() - i,
    {
        let ghost before = r@;
        r.push(copy_component(&v[i]));
        proof {
            lemma_parts_of_push(before, r@.last());
            assert(parts_of(v@).take(i + 1) =~= parts_of(v@).take(i as int).push(v@[i as int]@));
        }
        i = i + 1;
    }
    assert(parts_of(v@).take(v@.len() as int) =~= parts_of(v@));
    r
}

/// Resolves `p` against the workspace `workdir`, refusing any path that
/// leaves it.
///
/// `workdir` must be absolute.  An absolute `p` is checked as it is, a
/// relative one is joined to `workdir` first.  The answer is the lexically
/// normalized absolute path (which need not exist).
pub fn safe_path(workdir: &str, p: &str) -> (r: Result<String, String>)
    ensures
        string_result_view(r) == safe_path_spec(workdir@, p@),
{
    let wc = chars_of(workdir);
    if !(wc.len() > 0 && wc[0] == '/') {
        return Err(String::from_str("Workdir must be absolute"));
    }
    let wn = normalize_path(&path_components(workdir));
    let pc = chars_of(p);
    let full = if pc.len() > 0 && pc[0] == '/' {
        path_components(p)
    } else {
        let mut f = copy_components(&wn);
        let mut rest = path_components(p);
        let ghost a = f@;
        let ghost b = rest@;
        f.append(&mut rest);
        proof {
            lemma_parts_of_append(a, b);
        }
        f
    };
    let norm = normalize_path(&full);
    if starts_with_components(&norm, &wn) {
        let text = render_path(&norm);
        Ok(string_of(text.as_slice()))
    } else {
        Err(concat2("Path escapes workspace: ", p))
    }
}

/// The components `safe_path` works on are well formed.
proof fn lemma_safe_path_wf(workdir: Seq<char>, p: Seq<char>)
    requires
        is_absolute(workdir),
    ensures
        ({
            let wn = normalize(components(workdir));
            let full = if is_absolute(p) {
                components(p)
            } else {
                wn + components(p)
            };
            &&& is_normal(wn)
            &&& wn.len() > 0 && wn[0] is Root
            &&& wf_parts(full)
            &&& is_normal(normalize(full))
        }),
{
    let wc = components(workdir);
    lemma_components_wf(workdir);
    lemma_normalize_normal(wc);
    let wn = normalize(wc);
    lemma_components_wf(p);
    let pc = components(p);
    if !is_absolute(p) {
        let full = wn + pc;
        assert forall|i: int| 0 <= i < full.len() implies match #[trigger] full[i] {
            PathPart::Root => i == 0,
            PathPart::Parent => true,
            PathPart::Normal(n) => valid_name(n),
        } by {
            if i < wn.len() {
                assert(full[i] == wn[i]);
            } else {
                assert(full[i] == pc[i - wn.len()]);
                if i - wn.len() == 0 {
                    assert(!(pc[0] is Root));
                }
            }
        }
        lemma_normalize_normal(full);
    } else {
        lemma_normalize_normal(pc);
    }
}

/// A path `safe_path` accepts is absolute, lies inside the normalized
/// workspace, and is in normal form: read again as a path, its components
/// start with those of the workspace and hold no `.` and no `..` after a name.
pub proof fn law_safe_path_stays_inside(workdir: Seq<char>, p: Seq<char>)
    requires
        safe_path_spec(workdir, p) is Ok,
    ensures
        ({
            let r = safe_path_spec(workdir, p)->Ok_0;
            &&& is_absolute(r)
            &&& is_prefix_of(normalize(components(workdir)), components(r))
            &&& is_normal(components(r))
        }),
{
    lemma_safe_path_wf(workdir, p);
    let wn = normalize(components(workdir));
    let full = if is_absolute(p) {
        components(p)
    } else {
        wn + components(p)
    };
    let norm = normalize(full);
    lemma_components_render(norm);
    assert(norm[0] == wn[0]);
}

/// Normalizing a list that continues with names only (no `..`) normalizes the
/// head and keeps the continuation as it is.
proof fn lemma_normalize_append_names(a: Seq<PathPart>, b: Seq<PathPart>)
    requires
        forall|i: int| 0 <= i < b.len() ==> !(#[trigger] b[i] is Parent),
    ensures
        normalize(a + b) == normalize(a) + b,
    decreases b.len(),
{
    if b.len() == 0 {
        assert(a + b =~= a);
        assert(normalize(a) + b =~= normalize(a));
    } else {
        let d = b.drop_last();
        assert forall|i: int| 0 <= i < d.len() implies !(#[trigger] d[i] is Parent) by {
            assert(d[i] == b[i]);
        }
        lemma_normalize_append_names(a, d);
        assert((a + b).drop_last() =~= a + d);
        assert((a + b).last() == b.last());
        assert(!(b[b.len() - 1] is Parent));
        assert(normalize(a) + b =~= (normalize(a) + d).push(b.last()));
    }
}

/// A relative path that never goes up (no `..` component) always resolves
/// inside the workspace: to the normalized workspace followed by the path's
/// own components.  Hidden names such as `.gitignore` are names like any
/// other.
pub proof fn law_safe_path_accepts_descending(workdir: Seq<char>, p: Seq<char>)
    requires
        is_absolute(workdir),
        !is_absolute(p),
        forall|i: int|
            0 <= i < components(p).len() ==> !(#[trigger] components(p)[i] is Parent),
    ensures
        safe_path_spec(workdir, p) == Ok::<Seq<char>, Seq<char>>(
            render(normalize(components(workdir)) + components(p)),
        ),
{
    lemma_safe_path_wf(workdir, p);
    let wn = normalize(components(workdir));
    let pc = components(p);
    lemma_normalize_append_names(wn, pc);
    lemma_normalize_fixpoint(wn);
    let full = wn + pc;
    assert(normalize(full) == wn + pc);
    assert((wn + pc).take(wn.len() as int) =~= wn);
}

/// `a` opens `b`: every component of `a` stands at the same place in `b`.
pub open spec fn opens(a: Seq<PathPart>, b: Seq<PathPart>) -> bool {
    a.len() <= b.len() && forall|i: int| 0 <= i < a.len() ==> #[trigger] b[i] == a[i]
}

proof fn lemma_opens_prefix(a: Seq<PathPart>, b: Seq<PathPart>)
    ensures
        opens(a, b) <==> is_prefix_of(a, b),
{
    if opens(a, b) {
        assert(b.take(a.len() as int) =~= a);
    }
    if is_prefix_of(a, b) {
        assert forall|i: int| 0 <= i < a.len() implies #[trigger] b[i] == a[i] by {
            assert(b.take(a.len() as int)[i] == b[i]);
        }
    }
}

/// Whether `safe_path` accepts a path depends only on where it leads: it is
/// accepted exactly when the path (joined to the workspace when relative),
/// normalized, opens with the normalized workspace; the answer is then that
/// normalized path.
pub proof fn law_safe_path_accepts_exactly_inside(workdir: Seq<char>, p: Seq<char>)
    requires
        is_absolute(workdir),
    ensures
        is_absolute(p) ==> (safe_path_spec(workdir, p) is Ok <==> opens(
            normalize(components(workdir)),
            normalize(components(p)),
        )),
        is_absolute(p) && safe_path_spec(workdir, p) is Ok ==> safe_path_spec(workdir, p)->Ok_0
            == render(normalize(components(p))),
        !is_absolute(p) ==> (safe_path_spec(workdir, p) is Ok <==> opens(
            normalize(components(workdir)),
            normalize(normalize(components(workdir)) + components(p)),
        )),
        !is_absolute(p) && safe_path_spec(workdir, p) is Ok ==> safe_path_spec(workdir, p)->Ok_0
            == render(normalize(normalize(components(workdir)) + components(p))),
{
    let wn = normalize(components(workdir));
    lemma_opens_prefix(wn, normalize(components(p)));
    lemma_opens_prefix(wn, normalize(wn + components(p)));
}

/// Resolving a path that `safe_path` has already produced gives it back
/// unchanged.
pub proof fn law_safe_path_idempotent(workdir: Seq<char>, p: Seq<char>)
    requires
        safe_path_spec(workdir, p) is Ok,
    ensures
        safe_path_spec(workdir, safe_path_spec(workdir, p)->Ok_0) == safe_path_spec(workdir, p),
{
    law_safe_path_stays_inside(workdir, p);
    let r = safe_path_spec(workdir, p)->Ok_0;
    lemma_safe_path_wf(workdir, p);
    let wn = normalize(components(workdir));
    let full = if is_absolute(p) {
        components(p)
    } else {
        wn + components(p)
    };
    let norm = normalize(full);
    lemma_components_render(norm);
    lemma_normalize_fixpoint(norm);
}

/// The text read from a file, or the text of the error that stopped the read.
pub open spec fn read_view(r: Result<String, String>) -> Result<Seq<char>, Seq<char>> {
    string_result_view(r)
}

/// `read_file` on the specification level.
pub open spec fn read_file_spec(
    workdir: Seq<char>,
    path: Seq<char>,
    limit: Option<usize>,
    contents: Result<Seq<char>, Seq<char>>,
) -> Result<Seq<char>, ErrorView> {
    match safe_path_spec(workdir, path) {
        Err(e) => Err(ErrorView::FileRead(error_message(ErrorView::PathEscape(e)))),
        Ok(_) => match contents {
            Err(io) => Err(ErrorView::FileRead(error_message(ErrorView::Io(io)))),
            Ok(text) => Ok(limit_lines_spec(text, limit)),
        },
    }
}

/// The view of a string result with this crate's error.
pub open spec fn text_result_view(r: Result<String, RagentError>) -> Result<Seq<char>, ErrorView> {
    match r {
        Ok(s) => Ok(s@),
        Err(e) => Err(e@),
    }
}

/// Reads a file of the workspace, keeping at most `limit` lines.
///
/// `contents` is what reading the file that `safe_path(workdir, path)` names
/// gave: its text, or the text of the I/O error.  Every error reads as a
/// message that starts with `Error: `.
pub fn read_file(
    workdir: &str,
    path: &str,
    limit: Option<usize>,
    contents: &Result<String, String>,
) -> (r: Result<String, RagentError>)
    ensures
        text_result_view(r) == read_file_spec(workdir@, path@, limit, read_view(*contents)),
        r matches Err(e) ==> starts_with_seq(error_message(e@), "Error: "@),
{
    match safe_path(workdir, path) {
        Err(e) => {
            let inner = RagentError::PathEscape(e);
            let r = RagentError::FileRead(inner.message());
            proof {
                lemma_starts_with_prefix("Error: "@, error_message(inner@));
            }
            Err(r)
        },
        Ok(_) => match contents {
            Err(io) => {
                let inner = RagentError::Io(io.clone());
                let r = RagentError::FileRead(inner.message());
                proof {
                    lemma_starts_with_prefix("Error: "@, error_message(inner@));
                }
                Err(r)
            },
            Ok(text) => Ok(limit_lines(text.as_str(), limit)),
        },
    }
}

/// A file write the tool has decided on: where, what, and what to report
/// once it is done.
#[derive(Debug)]
pub struct FileWrite {
    pub path: String,
    pub content: String,
    pub message: String,
}

/// A planned write, as the specifications see it.
pub struct FileWriteView {
    pub path: Seq<char>,
    pub content: Seq<char>,
    pub message: Seq<char>,
}

impl View for FileWrite {
    type V = FileWriteView;

    open spec fn view(&self) -> FileWriteView {
        FileWriteView { path: self.path@, content: self.content@, message: self.message@ }
    }
}

/// The view of a planned write, or the error that stopped it.
pub open spec fn write_result_view(r: Result<FileWrite, RagentError>) -> Result<FileWriteView, ErrorView> {
    match r {
        Ok(w) => Ok(w@),
        Err(e) => Err(e@),
    }
}

/// `write_file` on the specification level.
pub open spec fn write_file_spec(workdir: Seq<char>, path: Seq<char>, content: Seq<char>) -> Result<
    FileWriteView,
    ErrorView,
> {
    match safe_path_spec(workdir, path) {
        Err(e) => Err(ErrorView::PathEscape(e)),
        Ok(target) => Ok(
            FileWriteView {
                path: target,
                content: content,
                message: "Wrote content to "@ + target + " successful"@,
            },
        ),
    }
}

/// Decides a write of `content` to a file of the workspace; the report is
/// the tool's answer once the write has succeeded.
pub fn write_file(workdir: &str, path: &str, content: String) -> (r: Result<FileWrite, RagentError>)
    ensures
        write_result_view(r) == write_file_spec(workdir@, path@, content@),
{
    match safe_path(workdir, path) {
        Err(e) => Err(RagentError::PathEscape(e)),
        Ok(target) => {
            let message = concat3("Wrote content to ", target.as_str(), " successful");
            Ok(FileWrite { path: target, content, message })
        },
    }
}

/// What the workspace held at a resolved path when the tool looked at it.
#[derive(Debug)]
pub enum FileProbe {
    Missing,
    Directory,
    /// A file, with its text or the text of the error that stopped the read.
    File(Result<String, String>),
}

/// A probe, as the specifications see it.
pub enum ProbeView {
    Missing,
    Directory,
    File(Result<Seq<char>, Seq<char>>),
}

impl View for FileProbe {
    type V = ProbeView;

    open spec fn view(&self) -> ProbeView {
        match self {
            FileProbe::Missing => ProbeView::Missing,
            FileProbe::Directory => ProbeView::Directory,
            FileProbe::File(r) => ProbeView::File(string_result_view(*r)),
        }
    }
}

/// `s` with the first occurrence of `old` replaced by `new`.
pub open spec fn replace_first_spec(s: Seq<char>, old: Seq<char>, new: Seq<char>) -> Option<Seq<char>> {
    match first_occurrence(s, old) {
        Some(i) => Some(s.take(i) + new + s.skip(i + old.len())),
        None => None,
    }
}

/// `edit_file` on the specification level.
pub open spec fn edit_file_spec(
    workdir: Seq<char>,
    path: Seq<char>,
    old_text: Seq<char>,
    new_text: Seq<char>,
    target: ProbeView,
) -> Result<FileWriteView, ErrorView> {
    match safe_path_spec(workdir, path) {
        Err(e) => Err(ErrorView::PathEscape(e)),
        Ok(resolved) => match target {
            ProbeView::Directory => Err(ErrorView::PathNotAFile(resolved)),
            ProbeView::Missing => Err(ErrorView::PathNotExist(resolved)),
            ProbeView::File(Err(io)) => Err(ErrorView::FileRead(error_message(ErrorView::Io(io)))),
            ProbeView::File(Ok(raw)) => match replace_first_spec(raw, old_text, new_text) {
                None => Err(ErrorView::TextNotFound(old_text)),
                Some(edited) => Ok(
                    FileWriteView {
                        path: resolved,
                        content: edited,
                        message: "Replaced first occurrence of '"@ + old_text + "' with '"@
                            + new_text + "' in "@ + resolved,
                    },
                ),
            },
        },
    }
}

/// `s` with the first occurrence of `old` replaced by `new`.
pub fn replace_first(s: &str, old: &str, new: &str) -> (r: Option<String>)
    ensures
        match r {
            Some(x) => replace_first_spec(s@, old@, new@) == Some(x@),
            None => replace_first_spec(s@, old@, new@) is None,
        },
{
    let sc = chars_of(s);
    let oc = chars_of(old);
    match find_first(sc.as_slice(), oc.as_slice()) {
        None => None,
        Some(i) => {
            assert(occurs_at(sc@, oc@, i as int));
            let sl = sc.len();
            let ol = oc.len();
            assert(i + ol <= sl);
            let end = i + ol;
            let mut out: Vec<char> = Vec::new();
            let mut k: usize = 0;
            while k < i
                invariant
                    i <= sc@.len(),
                    k <= i,
                    out@ == sc@.take(k as int),
                decreases i - k,
            {
                out.push(sc[k]);
                assert(sc@.take(k + 1) =~= sc@.take(k as int).push(sc@[k as int]));
                k = k + 1;
            }
            let nc = chars_of(new);
            crate::text::extend_chars(&mut out, nc.as_slice());
            let mut j: usize = end;
            let ghost mid = out@;
            assert(end == i + oc@.len() && end <= sc@.len());
            while j < sc.len()
                invariant
                    i + oc@.len() <= j <= sc@.len(),
                    out@ == mid + sc@.subrange(i + oc@.len(), j as int),
                decreases sc@.len() - j,
            {
                out.push(sc[j]);
                assert(sc@.subrange(i + oc@.len(), j + 1) =~= sc@.subrange(
                    i + oc@.len(),
                    j as int,
                ).push(sc@[j as int]));
                j = j + 1;
            }
            proof {
                assert(sc@.subrange(i + oc@.len(), sc@.len() as int) =~= sc@.skip(i + oc@.len()));
                assert(out@ =~= sc@.take(i as int) + nc@ + sc@.skip(i + oc@.len()));
            }
            Some(string_of(out.as_slice()))
        },
    }
}

/// Replaces the first occurrence of `old_text` with `new_text` in a file of
/// the workspace.
///
/// `target` is what the workspace held at the path that
/// `safe_path(workdir, path)` names.  The new text is the file's text with
/// that one occurrence replaced and everything else kept as it was.  A file
/// that cannot be read gives the error `read_file` gives.  The answer is the
/// write to perform and the report to give once it is done.
pub fn edit_file(
    workdir: &str,
    path: &str,
    old_text: String,
    new_text: String,
    target: &FileProbe,
) -> (r: Result<FileWrite, RagentError>)
    ensures
        write_result_view(r) == edit_file_spec(workdir@, path@, old_text@, new_text@, target@),
{
    let resolved = match safe_path(workdir, path) {
        Err(e) => return Err(RagentError::PathEscape(e)),
        Ok(p) => p,
    };
    match target {
        FileProbe::Directory => Err(RagentError::PathNotAFile(resolved)),
        FileProbe::Missing => Err(RagentError::PathNotExist(resolved)),
        FileProbe::File(Err(io)) => {
            let inner = RagentError::Io(io.clone());
            Err(RagentError::FileRead(inner.message()))
        },
        FileProbe::File(Ok(raw)) => {
            match replace_first(raw.as_str(), old_text.as_str(), new_text.as_str()) {
                None => Err(RagentError::TextNotFound(old_text)),
                Some(edited) => {
                    let head = concat3("Replaced first occurrence of '", old_text.as_str(), "' with '");
                    let mid = concat3(head.as_str(), new_text.as_str(), "' in ");
                    let message = concat2(mid.as_str(), resolved.as_str());
                    Ok(FileWrite { path: resolved, content: edited, message })
                },
            }
        },
    }
}

/// One entry of a directory walk.
#[derive(Debug)]
pub struct WalkEntry {
    pub is_file: bool,
    /// The entry's file name.
    pub file_name: String,
    /// The entry's full path.
    pub path: String,
}

/// A walk entry, as the specifications see it.
pub struct WalkEntryView {
    pub is_file: bool,
    pub file_name: Seq<char>,
    pub path: Seq<char>,
}

impl View for WalkEntry {
    type V = WalkEntryView;

    open spec fn view(&self) -> WalkEntryView {
        WalkEntryView { is_file: self.is_file, file_name: self.file_name@, path: self.path@ }
    }
}

/// What the workspace held at a directory to list.
#[derive(Debug)]
pub enum DirListing {
    Missing,
    /// Every entry of a walk of the directory, itself included; `None`
    /// where the walk could not read an entry.
    Entries(Vec<Option<WalkEntry>>),
}

/// The views of the entries of a walk.
pub open spec fn entries_view(v: Seq<Option<WalkEntry>>) -> Seq<Option<WalkEntryView>> {
    v.map_values(
        |e: Option<WalkEntry>|
            match e {
                Some(x) => Some(x@),
                None => None,
            },
    )
}

/// A listing, as the specifications see it.
pub enum ListingView {
    Missing,
    Entries(Seq<Option<WalkEntryView>>),
}

impl View for DirListing {
    type V = ListingView;

    open spec fn view(&self) -> ListingView {
        match self {
            DirListing::Missing => ListingView::Missing,
            DirListing::Entries(v) => ListingView::Entries(entries_view(v@)),
        }
    }
}

/// Whether the pattern matches the name of a walk entry (a pattern the
/// `glob` crate does not accept matches nothing).
pub open spec fn name_selected(pattern: Seq<char>, e: Option<WalkEntryView>) -> bool {
    match e {
        Some(x) => glob_compiles(pattern) && glob_matches(pattern, x.file_name),
        None => false,
    }
}

/// For each walk entry, whether the pattern matches its name.
pub open spec fn selection(pattern: Seq<char>, es: Seq<Option<WalkEntryView>>) -> Seq<bool> {
    Seq::new(es.len(), |i: int| name_selected(pattern, es[i]))
}

/// Whether entry `i` is listed: a file whose flag is set (an entry without
/// a flag is not listed).
pub open spec fn entry_listed(es: Seq<Option<WalkEntryView>>, selected: Seq<bool>, i: int) -> bool {
    &&& es[i] is Some
    &&& es[i]->Some_0.is_file
    &&& i < selected.len()
    &&& selected[i]
}

/// The paths of the listed entries, in walk order.
pub open spec fn listed_paths(es: Seq<Option<WalkEntryView>>, selected: Seq<bool>) -> Seq<Seq<char>>
    decreases es.len(),
{
    if es.len() == 0 {
        seq![]
    } else {
        let r = listed_paths(es.drop_last(), selected);
        if entry_listed(es, selected, es.len() - 1) {
            r.push(es.last()->Some_0.path)
        } else {
            r
        }
    }
}

/// The listing text: the listed paths one per line, or a note that nothing
/// matched.
pub open spec fn list_matches_spec(
    root: Seq<char>,
    pattern: Seq<char>,
    es: Seq<Option<WalkEntryView>>,
    selected: Seq<bool>,
) -> Seq<char> {
    let found = listed_paths(es, selected);
    if found.len() == 0 {
        "No files matched the pattern '"@ + pattern + "' in '"@ + root + "'"@
    } else {
        join_with(found, seq!['\n'])
    }
}

/// `glob_file` on the specification level.
pub open spec fn glob_file_spec(
    workdir: Seq<char>,
    path: Seq<char>,
    pattern: Seq<char>,
    listing: ListingView,
) -> Result<Seq<char>, ErrorView> {
    match safe_path_spec(workdir, path) {
        Err(e) => Err(ErrorView::PathEscape(e)),
        Ok(root) => match listing {
            ListingView::Missing => Err(ErrorView::PathNotExist(root)),
            ListingView::Entries(es) => Ok(list_matches_spec(root, pattern, es, selection(pattern, es))),
        },
    }
}

/// Which walk entry the `j`-th listed path comes from.
pub open spec fn listed_source(es: Seq<Option<WalkEntryView>>, selected: Seq<bool>, j: int) -> int
    decreases es.len(),
{
    if es.len() == 0 {
        0
    } else if j < listed_paths(es.drop_last(), selected).len() {
        listed_source(es.drop_last(), selected, j)
    } else {
        es.len() - 1
    }
}

proof fn lemma_listed_members(es: Seq<Option<WalkEntryView>>, selected: Seq<bool>)
    ensures
        forall|i: int|
            0 <= i < es.len() && entry_listed(es, selected, i) ==> listed_paths(
                es,
                selected,
            ).contains(#[trigger] es[i]->Some_0.path),
        forall|j: int|
            0 <= j < listed_paths(es, selected).len() ==> {
                let i = #[trigger] listed_source(es, selected, j);
                &&& 0 <= i < es.len()
                &&& entry_listed(es, selected, i)
                &&& listed_paths(es, selected)[j] == es[i]->Some_0.path
            },
    decreases es.len(),
{
    if es.len() > 0 {
        let d = es.drop_last();
        lemma_listed_members(d, selected);
        let r = listed_paths(d, selected);
        let all = listed_paths(es, selected);
        let n = es.len() - 1;
        assert forall|i: int| 0 <= i < d.len() implies entry_listed(d, selected, i) == entry_listed(
            es,
            selected,
            i,
        ) && d[i] == es[i] by {}
        assert forall|i: int|
            0 <= i < es.len() && entry_listed(es, selected, i) implies all.contains(
            #[trigger] es[i]->Some_0.path,
        ) by {
            if i < n {
                assert(entry_listed(d, selected, i));
                assert(r.contains(d[i]->Some_0.path));
                let k = choose|k: int| 0 <= k < r.len() && r[k] == d[i]->Some_0.path;
                assert(all[k] == r[k]);
            } else {
                assert(all[all.len() - 1] == es[i]->Some_0.path);
            }
        }
        assert forall|j: int| 0 <= j < all.len() implies {
            let i = #[trigger] listed_source(es, selected, j);
            &&& 0 <= i < es.len()
            &&& entry_listed(es, selected, i)
            &&& all[j] == es[i]->Some_0.path
        } by {
            if j < r.len() {
                assert(all[j] == r[j]);
                let i = listed_source(d, selected, j);
                assert(entry_listed(es, selected, i) && es[i] == d[i]);
            } else {
                assert(entry_listed(es, selected, n));
                assert(all[j] == es[n]->Some_0.path);
            }
        }
    }
}

/// Every line joined into a text occurs in it.
proof fn lemma_join_holds_lines(lines: Seq<Seq<char>>, sep: Seq<char>, k: int)
    requires
        0 <= k < lines.len(),
    ensures
        contains_seq(join_with(lines, sep), lines[k]),
    decreases lines.len(),
{
    let j = join_with(lines, sep);
    if lines.len() == 1 {
        assert(occurs_at(j, lines[k], 0)) by {
            assert(j.subrange(0, lines[k].len() as int) =~= lines[k]);
        }
    } else {
        let d = lines.drop_last();
        let h = join_with(d, sep);
        assert(j == h + sep + lines.last());
        if k < d.len() {
            lemma_join_holds_lines(d, sep, k);
            assert(d[k] == lines[k]);
            let p = choose|p: int| occurs_at(h, lines[k], p);
            assert(occurs_at(j, lines[k], p)) by {
                assert(j.subrange(p, p + lines[k].len()) =~= h.subrange(p, p + lines[k].len()));
            }
        } else {
            let p: int = (h.len() + sep.len()) as int;
            assert(occurs_at(j, lines[k], p)) by {
                assert(j.subrange(p, p + lines[k].len()) =~= lines.last());
            }
        }
    }
}

/// The listing text names every walked file whose name the pattern matches.
pub proof fn law_listing_text_names_matching_files(
    root: Seq<char>,
    pattern: Seq<char>,
    es: Seq<Option<WalkEntryView>>,
    i: int,
)
    requires
        0 <= i < es.len(),
        es[i] is Some,
        es[i]->Some_0.is_file,
        glob_compiles(pattern),
        glob_matches(pattern, es[i]->Some_0.file_name),
    ensures
        contains_seq(list_matches_spec(root, pattern, es, selection(pattern, es)), es[i]->Some_0.path),
{
    law_listing_holds_matching_files(pattern, es);
    let found = listed_paths(es, selection(pattern, es));
    assert(found.contains(es[i]->Some_0.path));
    let k = choose|k: int| 0 <= k < found.len() && found[k] == es[i]->Some_0.path;
    lemma_join_holds_lines(found, seq!['\n'], k);
}

/// A listing holds every walked file whose name the pattern (when the
/// `glob` crate accepts it) matches, whatever the name, and nothing else:
/// each listed path is the path of such a file.  A pattern the crate
/// refuses lists nothing.
pub proof fn law_listing_holds_matching_files(pattern: Seq<char>, es: Seq<Option<WalkEntryView>>)
    ensures
        forall|i: int|
            0 <= i < es.len() && es[i] is Some && es[i]->Some_0.is_file && glob_compiles(pattern)
                && glob_matches(pattern, es[i]->Some_0.file_name) ==> listed_paths(
                es,
                selection(pattern, es),
            ).contains(#[trigger] es[i]->Some_0.path),
        forall|j: int|
            0 <= j < listed_paths(es, selection(pattern, es)).len() ==> {
                let i = #[trigger] listed_source(es, selection(pattern, es), j);
                &&& 0 <= i < es.len()
                &&& es[i] is Some
                &&& es[i]->Some_0.is_file
                &&& glob_compiles(pattern)
                &&& glob_matches(pattern, es[i]->Some_0.file_name)
                &&& listed_paths(es, selection(pattern, es))[j] == es[i]->Some_0.path
            },
        !glob_compiles(pattern) ==> listed_paths(es, selection(pattern, es)).len() == 0,
{
    let sel = selection(pattern, es);
    lemma_listed_members(es, sel);
    assert forall|i: int| 0 <= i < es.len() implies entry_listed(es, sel, i) == (es[i] is Some
        && es[i]->Some_0.is_file && glob_compiles(pattern) && glob_matches(
        pattern,
        es[i]->Some_0.file_name,
    )) by {}
    let all = listed_paths(es, sel);
    if !glob_compiles(pattern) && all.len() > 0 {
        let i = listed_source(es, sel, 0);
        assert(entry_listed(es, sel, i));
    }
}

proof fn lemma_listed_prefix(es: Seq<Option<WalkEntryView>>, selected: Seq<bool>, i: int)
    requires
        0 <= i < es.len(),
    ensures
        listed_paths(es.take(i + 1), selected) == (if entry_listed(es, selected, i) {
            listed_paths(es.take(i), selected).push(es[i]->Some_0.path)
        } else {
            listed_paths(es.take(i), selected)
        }),
{
    let t = es.take(i + 1);
    assert(t.drop_last() =~= es.take(i));
    assert(t.last() == es[i]);
    assert(entry_listed(t, selected, i) == entry_listed(es, selected, i));
}

/// The listing text for a walk: the paths of the files whose flag in
/// `selected` is set, one per line, in walk order; or
/// `No files matched the pattern '<pattern>' in '<root>'` when there are none.
pub fn list_matches(
    root: &str,
    pattern: &str,
    entries: &Vec<Option<WalkEntry>>,
    selected: &Vec<bool>,
) -> (r: String)
    ensures
        r@ == list_matches_spec(root@, pattern@, entries_view(entries@), selected@),
{
    let ghost es = entries_view(entries@);
    let mut found: Vec<char> = Vec::new();
    let mut count: usize = 0;
    let mut i: usize = 0;
    proof {
        assert(es.take(0) =~= Seq::<Option<WalkEntryView>>::empty());
    }
    while i < entries.len()
        invariant
            i <= entries@.len(),
            es == entries_view(entries@),
            count == listed_paths(es.take(i as int), selected@).len(),
            found@ == join_with(listed_paths(es.take(i as int), selected@), seq!['\n']),
            count <= i,
        decreases entries@.len() - i,
    {
        proof {
            lemma_listed_prefix(es, selected@, i as int);
        }
        let flag = i < selected.len() && selected[i];
        match &entries[i] {
            Some(e) => {
                if e.is_file && flag {
                    let ghost m = listed_paths(es.take(i as int), selected@);
                    if count > 0 {
                        found.push('\n');
                    }
                    let pc = chars_of(e.path.as_str());
                    crate::text::extend_chars(&mut found, pc.as_slice());
                    proof {
                        assert(es[i as int] == Some(e@));
                        if count == 0 {
                            assert(found@ =~= m.push(e.path@)[0]);
                        } else {
                            assert(found@ =~= join_with(m, seq!['\n']) + seq!['\n'] + e.path@);
                            assert(m.push(e.path@).drop_last() =~= m);
                        }
                    }
                    count = count + 1;
                } else {
                    assert(es[i as int] == Some(e@));
                }
            },
            None => {
                assert(es[i as int] is None);
            },
        }
        i = i + 1;
    }
    proof {
        assert(es.take(entries@.len() as int) =~= es);
    }
    if count == 0 {
        let head = concat3("No files matched the pattern '", pattern, "' in '");
        concat3(head.as_str(), root, "'")
    } else {
        string_of(found.as_slice())
    }
}

/// Lists the files under a directory of the workspace whose names match a
/// shell-style pattern, one path per line.
///
/// `listing` is what walking the directory that `safe_path(workdir, path)`
/// names gave.  A pattern the `glob` crate does not accept matches nothing.
pub fn glob_file(
    workdir: &str,
    path: &str,
    pattern: String,
    listing: &DirListing,
) -> (r: Result<String, RagentError>)
    ensures
        text_result_view(r) == glob_file_spec(workdir@, path@, pattern@, listing@),
{
    let root = match safe_path(workdir, path) {
        Err(e) => return Err(RagentError::PathEscape(e)),
        Ok(p) => p,
    };
    match listing {
        DirListing::Missing => Err(RagentError::PathNotExist(root)),
        DirListing::Entries(entries) => {
            let compiled = compile_glob(pattern.as_str());
            let ghost es = entries_view(entries@);
            let mut selected: Vec<bool> = Vec::new();
            let mut i: usize = 0;
            while i < entries.len()
                invariant
                    i <= entries@.len(),
                    es == entries_view(entries@),
                    compiled is Some <==> glob_compiles(pattern@),
                    compiled matches Some(g) ==> g@ == pattern@,
                    selected@ == selection(pattern@, es).take(i as int),
                decreases entries@.len() - i,
            {
                let flag = match &entries[i] {
                    Some(e) => match &compiled {
                        Some(g) => glob_pattern_matches(g, e.file_name.as_str()),
                        None => false,
                    },
                    None => false,
                };
                proof {
                    assert(flag == name_selected(pattern@, es[i as int]));
                }
                selected.push(flag);
                proof {
                    assert(selected@ =~= selection(pattern@, es).take(i + 1));
                }
                i = i + 1;
            }
            proof {
                assert(selection(pattern@, es).take(entries@.len() as int) =~= selection(pattern@, es));
            }
            Ok(list_matches(root.as_str(), pattern.as_str(), entries, &selected))
        },
    }
}

/// What is read back, without a limit, from the path a write went to is the
/// written text, less a final `\n` (for text without `\r`).
pub proof fn law_read_after_write(workdir: Seq<char>, path: Seq<char>, content: Seq<char>)
    requires
        write_file_spec(workdir, path, content) is Ok,
        forall|i: int| 0 <= i < content.len() ==> content[i] != '\r',
    ensures
        write_file_spec(workdir, path, content)->Ok_0.path == safe_path_spec(workdir, path)->Ok_0,
        write_file_spec(workdir, path, content)->Ok_0.content == content,
        read_file_spec(workdir, path, None, Ok(content)) == Ok::<Seq<char>, ErrorView>(
            without_final_newline(content),
        ),
{
    law_unlimited_read_keeps_text(content);
}

/// Editing a file rewrites it with only the first occurrence of the old
/// text replaced and every other character kept; when the old text does not
/// occur, nothing is written.
pub proof fn law_edit_replaces_first_occurrence(
    workdir: Seq<char>,
    path: Seq<char>,
    old_text: Seq<char>,
    new_text: Seq<char>,
    raw: Seq<char>,
)
    requires
        safe_path_spec(workdir, path) is Ok,
    ensures
        ({
            let r = edit_file_spec(workdir, path, old_text, new_text, ProbeView::File(Ok(raw)));
            match first_occurrence(raw, old_text) {
                Some(i) => r matches Ok(w) && w.path == safe_path_spec(workdir, path)->Ok_0
                    && w.content == raw.take(i) + new_text + raw.skip(i + old_text.len()),
                None => r == Err::<FileWriteView, ErrorView>(ErrorView::TextNotFound(old_text)),
            }
        }),
{
}

} // verus!
