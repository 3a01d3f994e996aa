//! Lexical model of Unix paths: splitting a path into components, folding
//! away `.` and `..`, and writing components back as a path string.
//!
//! Nothing here touches the filesystem.  A path is a string whose components
//! are separated by `/`; a leading `/` makes it absolute; empty components and
//! `.` carry no meaning and are dropped; `..` names the parent directory.
use vstd::prelude::*;
use crate::text::{extend_chars, chars_eq, chars_of};

verus! {

/// A path component, as the specifications see it.
pub enum PathPart {
    /// The leading `/` of an absolute path.
    Root,
    /// `..`
    Parent,
    /// Any other non-empty name other than `.`.
    Normal(Seq<char>),
}

/// A path component.
#[derive(Debug)]
pub enum Component {
    RootDir,
    ParentDir,
    Normal(Vec<char>),
}

impl View for Component {
    type V = PathPart;

    open spec fn view(&self) -> PathPart {
        match self {
            Component::RootDir => PathPart::Root,
            Component::ParentDir => PathPart::Parent,
            Component::Normal(n) => PathPart::Normal(n@),
        }
    }
}

/// The specification view of a list of components.
pub open spec fn parts_of(cs: Seq<Component>) -> Seq<PathPart> {
    cs.map_values(|c: Component| c@)
}

/// `s` split at every `/` (always at least one, possibly empty, segment).
pub open spec fn split_slash(s: Seq<char>) -> Seq<Seq<char>>
    decreases s.len(),
{
    if s.len() == 0 {
        seq![Seq::<char>::empty()]
    } else {
        let r = split_slash(s.drop_last());
        if s.last() == '/' {
            r.push(Seq::<char>::empty())
        } else {
            r.update(r.len() - 1, r.last().push(s.last()))
        }
    }
}

/// The component a segment stands for: none for `` and `.`.
pub open spec fn segment_part(seg: Seq<char>) -> Option<PathPart> {
    if seg.len() == 0 || seg == seq!['.'] {
        None
    } else if seg == seq!['.', '.'] {
        Some(PathPart::Parent)
    } else {
        Some(PathPart::Normal(seg))
    }
}

/// The components that a list of segments stands for.
pub open spec fn parts_of_segments(segs: Seq<Seq<char>>) -> Seq<PathPart>
    decreases segs.len(),
{
    if segs.len() == 0 {
        seq![]
    } else {
        let r = parts_of_segments(segs.drop_last());
        match segment_part(segs.last()) {
            Some(p) => r.push(p),
            None => r,
        }
    }
}

/// A path is absolute when it starts with `/`.
pub open spec fn is_absolute(s: Seq<char>) -> bool {
    s.len() > 0 && s[0] == '/'
}

/// The components of the path `s`.
pub open spec fn components(s: Seq<char>) -> Seq<PathPart> {
    (if is_absolute(s) {
        seq![PathPart::Root]
    } else {
        seq![]
    }) + parts_of_segments(split_slash(s))
}

/// One step of lexical normalization: `..` cancels a preceding name,
/// otherwise the component is kept.
pub open spec fn normalize_step(acc: Seq<PathPart>, c: PathPart) -> Seq<PathPart> {
    match c {
        PathPart::Parent => {
            if acc.len() > 0 && acc.last() is Normal {
                acc.drop_last()
            } else {
                acc.push(PathPart::Parent)
            }
        },
        _ => acc.push(c),
    }
}

/// Lexical normalization of a list of components.
pub open spec fn normalize(cs: Seq<PathPart>) -> Seq<PathPart>
    decreases cs.len(),
{
    if cs.len() == 0 {
        seq![]
    } else {
        normalize_step(normalize(cs.drop_last()), cs.last())
    }
}

/// The text of one component.
pub open spec fn part_text(c: PathPart) -> Seq<char> {
    match c {
        PathPart::Root => seq!['/'],
        PathPart::Parent => seq!['.', '.'],
        PathPart::Normal(n) => n,
    }
}

/// Appends a component to a path string: the root replaces the path, any
/// other component is added after a `/` unless the path is empty or already
/// ends with one.
pub open spec fn push_part(acc: Seq<char>, c: PathPart) -> Seq<char> {
    match c {
        PathPart::Root => seq!['/'],
        _ => {
            if acc.len() == 0 || acc.last() == '/' {
                acc + part_text(c)
            } else {
                acc.push('/') + part_text(c)
            }
        },
    }
}

/// The path string made of the components `cs`.
pub open spec fn render(cs: Seq<PathPart>) -> Seq<char>
    decreases cs.len(),
{
    if cs.len() == 0 {
        seq![]
    } else {
        push_part(render(cs.drop_last()), cs.last())
    }
}

/// `a` is a leading part of `b`.
pub open spec fn is_prefix_of(a: Seq<PathPart>, b: Seq<PathPart>) -> bool {
    a.len() <= b.len() && b.take(a.len() as int) == a
}

/// A name that can stand as a component: not empty, not `.` or `..`, no `/`.
pub open spec fn valid_name(n: Seq<char>) -> bool {
    &&& n.len() > 0
    &&& n != seq!['.']
    &&& n != seq!['.', '.']
    &&& forall|i: int| 0 <= i < n.len() ==> n[i] != '/'
}

/// Components as paths have them: the root only first, every name valid.
pub open spec fn wf_parts(cs: Seq<PathPart>) -> bool {
    forall|i: int|
        0 <= i < cs.len() ==> match #[trigger] cs[i] {
            PathPart::Root => i == 0,
            PathPart::Parent => true,
            PathPart::Normal(n) => valid_name(n),
        }
}

/// Components in normal form: well formed, and no `..` right after a name.
pub open spec fn is_normal(cs: Seq<PathPart>) -> bool {
    &&& wf_parts(cs)
    &&& forall|i: int| 0 < i < cs.len() && cs[i] is Parent ==> !(#[trigger] cs[i - 1] is Normal)
}

// ---------------------------------------------------------------------------
// Lemmas
// ---------------------------------------------------------------------------

/// Splitting always yields at least one segment.
pub proof fn lemma_split_nonempty(s: Seq<char>)
    ensures
        split_slash(s).len() >= 1,
    decreases s.len(),
{
    if s.len() > 0 {
        lemma_split_nonempty(s.drop_last());
    }
}

/// No segment holds a `/`.
pub proof fn lemma_split_no_slash(s: Seq<char>)
    ensures
        forall|k: int, j: int|
            0 <= k < split_slash(s).len() && 0 <= j < split_slash(s)[k].len() ==> #[trigger] split_slash(s)[k][j]
                != '/',
    decreases s.len(),
{
    if s.len() > 0 {
        lemma_split_no_slash(s.drop_last());
        lemma_split_nonempty(s.drop_last());
        let r = split_slash(s.drop_last());
        if s.last() != '/' {
            assert forall|k: int, j: int|
                0 <= k < split_slash(s).len() && 0 <= j < split_slash(s)[k].len() implies #[trigger] split_slash(s)[k][j]
                    != '/' by {
                if k == r.len() - 1 {
                    if j < r.last().len() {
                        assert(split_slash(s)[k][j] == r[k][j]);
                    }
                } else {
                    assert(split_slash(s)[k] == r[k]);
                }
            }
        } else {
            assert forall|k: int, j: int|
                0 <= k < split_slash(s).len() && 0 <= j < split_slash(s)[k].len() implies #[trigger] split_slash(s)[k][j]
                    != '/' by {
                if k < r.len() {
                    assert(split_slash(s)[k] == r[k]);
                }
            }
        }
    }
}

/// The components of segments are never the root, and every name is valid.
pub proof fn lemma_parts_of_segments_wf(segs: Seq<Seq<char>>)
    requires
        forall|k: int, j: int| 0 <= k < segs.len() && 0 <= j < segs[k].len() ==> #[trigger] segs[k][j] != '/',
    ensures
        forall|i: int|
            0 <= i < parts_of_segments(segs).len() ==> match #[trigger] parts_of_segments(segs)[i] {
                PathPart::Root => false,
                PathPart::Parent => true,
                PathPart::Normal(n) => valid_name(n),
            },
    decreases segs.len(),
{
    if segs.len() > 0 {
        let d = segs.drop_last();
        assert forall|k: int, j: int| 0 <= k < d.len() && 0 <= j < d[k].len() implies #[trigger] d[k][j] != '/' by {
            assert(d[k] == segs[k]);
        }
        lemma_parts_of_segments_wf(d);
        let last = segs.last();
        assert forall|j: int| 0 <= j < last.len() implies last[j] != '/' by {
            assert(segs[segs.len() - 1][j] != '/');
        }
    }
}

/// The components of any path string are well formed.
pub proof fn lemma_components_wf(s: Seq<char>)
    ensures
        wf_parts(components(s)),
        forall|i: int| 0 < i < components(s).len() ==> !(#[trigger] components(s)[i] is Root),
        components(s).len() > 0 && components(s)[0] is Root <==> is_absolute(s),
{
    lemma_split_no_slash(s);
    lemma_parts_of_segments_wf(split_slash(s));
    let ps = parts_of_segments(split_slash(s));
    let cs = components(s);
    if is_absolute(s) {
        assert forall|i: int| 0 < i < cs.len() implies !(#[trigger] cs[i] is Root) && match cs[i] {
            PathPart::Root => i == 0,
            PathPart::Parent => true,
            PathPart::Normal(n) => valid_name(n),
        } by {
            assert(cs[i] == ps[i - 1]);
        }
    } else {
        assert(cs =~= ps);
        if cs.len() > 0 {
            assert(!(ps[0] is Root));
        }
    }
}

/// Normalizing keeps components well formed and yields the normal form,
/// provided the root, if any, comes first.
pub proof fn lemma_normalize_normal(cs: Seq<PathPart>)
    requires
        wf_parts(cs),
    ensures
        is_normal(normalize(cs)),
        normalize(cs).len() > 0 && normalize(cs)[0] is Root <==> (cs.len() > 0 && cs[0] is Root),
    decreases cs.len(),
{
    if cs.len() > 0 {
        let d = cs.drop_last();
        assert forall|i: int| 0 <= i < d.len() implies match #[trigger] d[i] {
            PathPart::Root => i == 0,
            PathPart::Parent => true,
            PathPart::Normal(n) => valid_name(n),
        } by {
            assert(d[i] == cs[i]);
        }
        lemma_normalize_normal(d);
        let acc = normalize(d);
        let c = cs.last();
        let r = normalize(cs);
        match c {
            PathPart::Parent => {
                if acc.len() > 0 && acc.last() is Normal {
                    assert(r =~= acc.drop_last());
                    assert forall|i: int| 0 <= i < r.len() implies #[trigger] r[i] == acc[i] by {}
                    assert forall|i: int| 0 < i < r.len() && r[i] is Parent implies !(#[trigger] r[i - 1] is Normal) by {
                        assert(r[i] == acc[i] && r[i - 1] == acc[i - 1]);
                    }
                    if r.len() > 0 {
                        assert(r[0] == acc[0]);
                    }
                    if acc.len() > 0 && acc[0] is Root {
                        assert(acc.len() > 1);
                    }
                } else {
                    assert(r =~= acc.push(PathPart::Parent));
                    assert forall|i: int| 0 < i < r.len() && r[i] is Parent implies !(#[trigger] r[i - 1] is Normal) by {
                        if i < acc.len() {
                            assert(r[i] == acc[i] && r[i - 1] == acc[i - 1]);
                        }
                    }
                    if acc.len() > 0 {
                        assert(r[0] == acc[0]);
                    }
                }
            },
            _ => {
                assert(r =~= acc.push(c));
                if c is Root {
                    assert(cs.len() - 1 == 0);
                    assert(acc.len() == 0);
                }
                assert forall|i: int| 0 <= i < r.len() implies match #[trigger] r[i] {
                    PathPart::Root => i == 0,
                    PathPart::Parent => true,
                    PathPart::Normal(n) => valid_name(n),
                } by {
                    if i < acc.len() {
                        assert(r[i] == acc[i]);
                    } else {
                        assert(r[i] == cs[cs.len() - 1]);
                    }
                }
                assert forall|i: int| 0 < i < r.len() && r[i] is Parent implies !(#[trigger] r[i - 1] is Normal) by {
                    assert(r[i] == acc[i] && r[i - 1] == acc[i - 1]);
                }
                if acc.len() > 0 {
                    assert(r[0] == acc[0]);
                }
            },
        }
    }
}

/// Components already in normal form are left as they are.
pub proof fn lemma_normalize_fixpoint(cs: Seq<PathPart>)
    requires
        is_normal(cs),
    ensures
        normalize(cs) == cs,
    decreases cs.len(),
{
    if cs.len() > 0 {
        let d = cs.drop_last();
        assert forall|i: int| 0 <= i < d.len() implies match #[trigger] d[i] {
            PathPart::Root => i == 0,
            PathPart::Parent => true,
            PathPart::Normal(n) => valid_name(n),
        } by {
            assert(d[i] == cs[i]);
        }
        assert forall|i: int| 0 < i < d.len() && d[i] is Parent implies !(#[trigger] d[i - 1] is Normal) by {
            assert(d[i] == cs[i] && d[i - 1] == cs[i - 1]);
        }
        lemma_normalize_fixpoint(d);
        if cs.last() is Parent && d.len() > 0 {
            assert(!(cs[cs.len() - 2] is Normal));
        }
        assert(cs =~= d.push(cs.last()));
    }
}

/// Normalizing twice gives what normalizing once gives.
pub proof fn law_normalize_idempotent(cs: Seq<PathPart>)
    requires
        wf_parts(cs),
    ensures
        normalize(normalize(cs)) == normalize(cs),
{
    lemma_normalize_normal(cs);
    lemma_normalize_fixpoint(normalize(cs));
}

/// Splitting a path extended by characters other than `/` only extends its last segment.
pub proof fn lemma_split_append_name(a: Seq<char>, n: Seq<char>)
    requires
        forall|j: int| 0 <= j < n.len() ==> n[j] != '/',
    ensures
        split_slash(a + n) == split_slash(a).update(
            split_slash(a).len() - 1,
            split_slash(a).last() + n,
        ),
    decreases n.len(),
{
    lemma_split_nonempty(a);
    if n.len() == 0 {
        assert(a + n =~= a);
        assert(split_slash(a).last() + n =~= split_slash(a).last());
        assert(split_slash(a).update(split_slash(a).len() - 1, split_slash(a).last())
            =~= split_slash(a));
    } else {
        let m = n.drop_last();
        lemma_split_append_name(a, m);
        assert((a + n).drop_last() =~= a + m);
        assert((a + n).last() == n.last());
        let r = split_slash(a + m);
        lemma_split_nonempty(a + m);
        assert(split_slash(a).last() + m + seq![n.last()] =~= split_slash(a).last() + n);
        assert(r.last() == split_slash(a).last() + m);
        assert(r.last().push(n.last()) =~= split_slash(a).last() + n);
        assert(split_slash(a + n) =~= split_slash(a).update(
            split_slash(a).len() - 1,
            split_slash(a).last() + n,
        ));
    }
}

/// A string ending in `/` splits into segments whose last one is empty.
pub proof fn lemma_split_ends_slash(a: Seq<char>)
    requires
        a.len() > 0,
        a.last() == '/',
    ensures
        split_slash(a).last() == Seq::<char>::empty(),
        split_slash(a).drop_last() == split_slash(a.drop_last()),
{
    lemma_split_nonempty(a.drop_last());
    assert(split_slash(a).drop_last() =~= split_slash(a.drop_last()));
}

/// The components of the path written for `cs` are `cs` again.
pub proof fn lemma_components_render(cs: Seq<PathPart>)
    requires
        wf_parts(cs),
    ensures
        components(render(cs)) == cs,
        render(cs).len() > 0 ==> (render(cs).last() == '/' <==> cs == seq![PathPart::Root]),
        render(cs).len() == 0 <==> cs.len() == 0,
        is_absolute(render(cs)) <==> (cs.len() > 0 && cs[0] is Root),
    decreases cs.len(),
{
    if cs.len() == 0 {
        assert(components(seq![]) =~= parts_of_segments(seq![Seq::<char>::empty()]));
        let e = seq![Seq::<char>::empty()];
        assert(e.drop_last() =~= Seq::<Seq<char>>::empty());
        assert(e.last() == Seq::<char>::empty());
        assert(segment_part(e.last()) is None);
        assert(parts_of_segments(e.drop_last()) == Seq::<PathPart>::empty());
        assert(parts_of_segments(e) =~= seq![]);
    } else {
        let d = cs.drop_last();
        assert forall|i: int| 0 <= i < d.len() implies match #[trigger] d[i] {
            PathPart::Root => i == 0,
            PathPart::Parent => true,
            PathPart::Normal(n) => valid_name(n),
        } by {
            assert(d[i] == cs[i]);
        }
        lemma_components_render(d);
        let a = render(d);
        let c = cs.last();
        assert(wf_parts(cs));
        match c {
            PathPart::Root => {
                assert(cs.len() == 1);
                assert(d.len() == 0);
                assert(render(cs) =~= seq!['/']);
                let s = seq!['/'];
                assert(s.drop_last() =~= Seq::<char>::empty());
                lemma_split_ends_slash(s);
                assert(split_slash(s) =~= seq![Seq::<char>::empty(), Seq::<char>::empty()]);
                assert(parts_of_segments(split_slash(s)) =~= seq![]);
                assert(components(s) =~= seq![PathPart::Root]);
                assert(cs =~= seq![PathPart::Root]);
            },
            _ => {
                let t = part_text(c);
                assert(segment_part(t) == Some(c)) by {
                    if let PathPart::Normal(n) = c {
                        assert(valid_name(n));
                    } else {
                        assert(t =~= seq!['.', '.']);
                    }
                };
                assert(forall|j: int| 0 <= j < t.len() ==> t[j] != '/') by {
                    if let PathPart::Normal(n) = c {
                        assert(valid_name(n));
                    }
                };
                assert(t.len() > 0) by {
                    if let PathPart::Normal(n) = c {
                        assert(valid_name(n));
                    }
                };
                assert(t.last() != '/');
                let base = if a.len() == 0 || a.last() == '/' {
                    a
                } else {
                    a.push('/')
                };
                assert(render(cs) == base + t);
                lemma_split_append_name(base, t);
                lemma_split_nonempty(base);
                let sb = split_slash(base);
                // the last segment of `base` is empty
                if a.len() == 0 {
                    assert(sb =~= seq![Seq::<char>::empty()]);
                } else if a.last() == '/' {
                    lemma_split_ends_slash(a);
                } else {
                    assert(base.drop_last() =~= a);
                    lemma_split_ends_slash(base);
                }
                assert(sb.last() =~= Seq::<char>::empty());
                let sn = split_slash(base + t);
                assert(sn =~= sb.drop_last().push(t)) by {
                    assert(sb.last() + t =~= t);
                };
                assert(sn.drop_last() =~= sb.drop_last());
                assert(parts_of_segments(sb) == parts_of_segments(sb.drop_last())) by {
                    assert(segment_part(sb.last()) is None);
                };
                assert(parts_of_segments(sn) == parts_of_segments(sb.drop_last()).push(c));
                // components of `base` equal those of `a`
                if a.len() == 0 {
                    assert(parts_of_segments(sb) =~= seq![]);
                } else if a.last() == '/' {
                } else {
                    assert(split_slash(base) =~= split_slash(a).push(Seq::<char>::empty()));
                    assert(split_slash(base).drop_last() =~= split_slash(a));
                }
                assert(parts_of_segments(sb.drop_last()) == parts_of_segments(split_slash(a)));
                assert(is_absolute(base + t) == is_absolute(a)) by {
                    if a.len() > 0 {
                        assert((base + t)[0] == a[0]);
                    } else {
                        assert((base + t) =~= t);
                        if let PathPart::Normal(n) = c {
                            assert(valid_name(n));
                            assert(n[0] != '/');
                        }
                    }
                };
                assert(components(render(cs)) =~= components(a).push(c));
                assert(cs =~= d.push(c));
                assert((base + t).last() == t.last());
                if cs.len() > 0 && cs[0] is Root {
                    assert(d.len() > 0 && d[0] == cs[0]);
                }
                if d.len() > 0 {
                    assert(d[0] == cs[0]);
                }
                assert(cs != seq![PathPart::Root]) by {
                    if cs =~= seq![PathPart::Root] {
                        assert(cs.last() is Root);
                    }
                };
                assert((base + t).len() > 0);
            },
        }
    }
}

/// Viewing a list extended by one component.
pub proof fn lemma_parts_of_push(v: Seq<Component>, c: Component)
    ensures
        parts_of(v.push(c)) == parts_of(v).push(c@),
{
    assert(parts_of(v.push(c)) =~= parts_of(v).push(c@));
}

// ---------------------------------------------------------------------------
// Executable counterparts
// ---------------------------------------------------------------------------

/// A copy of a character vector.
pub fn copy_chars(v: &[char]) -> (r: Vec<char>)
    ensures
        r@ == v@,
{
    let mut r: Vec<char> = Vec::new();
    extend_chars(&mut r, v);
    assert(r@ =~= v@);
    r
}

/// A copy of a component.
pub fn copy_component(c: &Component) -> (r: Component)
    ensures
        r@ == c@,
{
    match c {
        Component::RootDir => Component::RootDir,
        Component::ParentDir => Component::ParentDir,
        Component::Normal(n) => Component::Normal(copy_chars(n.as_slice())),
    }
}

/// The component a segment stands for.
fn classify_segment(seg: &Vec<char>) -> (r: Option<Component>)
    ensures
        match r {
            Some(c) => segment_part(seg@) == Some(c@),
            None => segment_part(seg@) is None,
        },
{
    if seg.len() == 0 {
        None
    } else if seg.len() == 1 && seg[0] == '.' {
        assert(seg@ =~= seq!['.']);
        None
    } else if seg.len() == 2 && seg[0] == '.' && seg[1] == '.' {
        assert(seg@ =~= seq!['.', '.']);
        Some(Component::ParentDir)
    } else {
        assert(seg@ != seq!['.']) by {
            if seg@ == seq!['.'] {
                assert(seg@[0] == '.');
            }
        };
        assert(seg@ != seq!['.', '.']) by {
            if seg@ == seq!['.', '.'] {
                assert(seg@[0] == '.' && seg@[1] == '.');
            }
        };
        Some(Component::Normal(copy_chars(seg.as_slice())))
    }
}

/// The components of the path `s`.
pub fn path_components(s: &str) -> (r: Vec<Component>)
    ensures
        parts_of(r@) == components(s@),
{
    let cs = chars_of(s);
    let absolute = cs.len() > 0 && cs[0] == '/';
    let mut parts: Vec<Component> = Vec::new();
    if absolute {
        parts.push(Component::RootDir);
    }
    let ghost root: Seq<PathPart> = if absolute {
        seq![PathPart::Root]
    } else {
        seq![]
    };
    let mut cur: Vec<char> = Vec::new();
    let mut i: usize = 0;
    proof {
        assert(cs@.take(0) =~= Seq::<char>::empty());
        assert(parts_of(parts@) =~= root);
        assert(split_slash(cs@.take(0)).drop_last() =~= Seq::<Seq<char>>::empty());
    }
    while i < cs.len()
        invariant
            i <= cs@.len(),
            cs@ == s@,
            root == (if is_absolute(s@) {
                seq![PathPart::Root]
            } else {
                seq![]
            }),
            split_slash(cs@.take(i as int)).len() >= 1,
            cur@ == split_slash(cs@.take(i as int)).last(),
            parts_of(parts@) == root + parts_of_segments(split_slash(cs@.take(i as int)).drop_last()),
        decreases cs@.len() - i,
    {
        let c = cs[i];
        let ghost prev = cs@.take(i as int);
        let ghost next = cs@.take(i + 1);
        proof {
            assert(next.drop_last() =~= prev);
            assert(next.last() == c);
            lemma_split_nonempty(next);
        }
        if c == '/' {
            let seg = classify_segment(&cur);
            proof {
                let sp = split_slash(prev);
                assert(split_slash(next) == sp.push(Seq::<char>::empty()));
                assert(split_slash(next).drop_last() =~= sp);
                assert(sp =~= sp.drop_last().push(sp.last()));
            }
            match seg {
                Some(comp) => {
                    let ghost old_parts = parts@;
                    parts.push(comp);
                    proof {
                        lemma_parts_of_push(old_parts, comp);
                        let sp = split_slash(prev);
                        assert(parts_of(parts@) =~= root + parts_of_segments(sp.drop_last()).push(comp@));
                        assert(parts_of_segments(sp) == parts_of_segments(sp.drop_last()).push(comp@));
                    }
                },
                None => {
                    proof {
                        let sp = split_slash(prev);
                        assert(parts_of_segments(sp) == parts_of_segments(sp.drop_last()));
                    }
                },
            }
            cur = Vec::new();
            proof {
                assert(cur@ =~= split_slash(next).last());
            }
        } else {
            cur.push(c);
            proof {
                let sp = split_slash(prev);
                assert(split_slash(next) == sp.update(sp.len() - 1, sp.last().push(c)));
                assert(split_slash(next).drop_last() =~= sp.drop_last());
            }
        }
        i = i + 1;
    }
    proof {
        assert(cs@.take(cs@.len() as int) =~= cs@);
    }
    let ghost sp = split_slash(cs@);
    let seg = classify_segment(&cur);
    proof {
        assert(sp =~= sp.drop_last().push(sp.last()));
    }
    match seg {
        Some(comp) => {
            let ghost old_parts = parts@;
            parts.push(comp);
            proof {
                lemma_parts_of_push(old_parts, comp);
                assert(parts_of(parts@) =~= root + parts_of_segments(sp.drop_last()).push(comp@));
                assert(parts_of_segments(sp) == parts_of_segments(sp.drop_last()).push(comp@));
            }
        },
        None => {
            proof {
                assert(parts_of_segments(sp) == parts_of_segments(sp.drop_last()));
            }
        },
    }
    proof {
        assert(parts_of(parts@) =~= components(s@));
    }
    parts
}

/// Lexical normalization: drops `.`, lets `..` cancel a preceding name and
/// keeps it otherwise.
pub fn normalize_path(cs: &Vec<Component>) -> (r: Vec<Component>)
    ensures
        parts_of(r@) == normalize(parts_of(cs@)),
{
    let mut out: Vec<Component> = Vec::new();
    let mut i: usize = 0;
    proof {
        assert(parts_of(cs@).take(0) =~= Seq::<PathPart>::empty());
        assert(parts_of(out@) =~= Seq::<PathPart>::empty());
    }
    while i < cs.len()
        invariant
            i <= cs@.len(),
            parts_of(out@) == normalize(parts_of(cs@).take(i as int)),
        decreases cs@.len() - i,
    {
        let ghost before = parts_of(out@);
        let ghost pre = parts_of(cs@).take(i as int);
        let ghost post = parts_of(cs@).take(i + 1);
        proof {
            assert(post.drop_last() =~= pre);
            assert(post.last() == cs@[i as int]@);
        }
        match &cs[i] {
            Component::ParentDir => {
                let n = out.len();
                let last_is_name = n > 0 && match &out[n - 1] {
                    Component::Normal(_) => true,
                    _ => false,
                };
                if last_is_name {
                    out.pop();
                    proof {
                        assert(parts_of(out@) =~= before.drop_last());
                    }
                } else {
                    out.push(Component::ParentDir);
                    proof {
                        assert(parts_of(out@) =~= before.push(PathPart::Parent));
                    }
                }
            },
            other => {
                out.push(copy_component(other));
                proof {
                    assert(parts_of(out@) =~= before.push(cs@[i as int]@));
                }
            },
        }
        i = i + 1;
    }
    proof {
        assert(parts_of(cs@).take(cs@.len() as int) =~= parts_of(cs@));
    }
    out
}

/// The path string for the components `cs`.
pub fn render_path(cs: &Vec<Component>) -> (r: Vec<char>)
    ensures
        r@ == render(parts_of(cs@)),
{
    let mut out: Vec<char> = Vec::new();
    let mut i: usize = 0;
    proof {
        assert(parts_of(cs@).take(0) =~= Seq::<PathPart>::empty());
    }
    while i < cs.len()
        invariant
            i <= cs@.len(),
            out@ == render(parts_of(cs@).take(i as int)),
        decreases cs@.len() - i,
    {
        let ghost pre = parts_of(cs@).take(i as int);
        let ghost post = parts_of(cs@).take(i + 1);
        let ghost acc = out@;
        proof {
            assert(post.drop_last() =~= pre);
            assert(post.last() == cs@[i as int]@);
        }
        match &cs[i] {
            Component::RootDir => {
                out = Vec::new();
                out.push('/');
                proof {
                    assert(out@ =~= seq!['/']);
                }
            },
            Component::ParentDir => {
                let n = out.len();
                if n > 0 && out[n - 1] != '/' {
                    out.push('/');
                }
                out.push('.');
                out.push('.');
                proof {
                    assert(out@ =~= push_part(acc, PathPart::Parent));
                }
            },
            Component::Normal(name) => {
                let n = out.len();
                if n > 0 && out[n - 1] != '/' {
                    out.push('/');
                }
                extend_chars(&mut out, name.as_slice());
                proof {
                    assert(out@ =~= push_part(acc, cs@[i as int]@));
                }
            },
        }
        i = i + 1;
    }
    proof {
        assert(parts_of(cs@).take(cs@.len() as int) =~= parts_of(cs@));
    }
    out
}

/// Whether two components are the same.
fn component_eq(a: &Component, b: &Component) -> (r: bool)
    ensures
        r == (a@ == b@),
{
    match (a, b) {
        (Component::RootDir, Component::RootDir) => true,
        (Component::ParentDir, Component::ParentDir) => true,
        (Component::Normal(x), Component::Normal(y)) => chars_eq(x.as_slice(), y.as_slice()),
        _ => false,
    }
}

/// Whether `a` is a leading part of `b`, component by component.
pub fn starts_with_components(b: &Vec<Component>, a: &Vec<Component>) -> (r: bool)
    ensures
        r == is_prefix_of(parts_of(a@), parts_of(b@)),
{
    if a.len() > b.len() {
        return false;
    }
    let mut i: usize = 0;
    while i < a.len()
        invariant
            a@.len() <= b@.len(),
            i <= a@.len(),
            forall|j: int| 0 <= j < i ==> parts_of(a@)[j] == parts_of(b@)[j],
        decreases a@.len() - i,
    {
        if !component_eq(&a[i], &b[i]) {
            proof {
                assert(parts_of(b@).take(a@.len() as int)[i as int] != parts_of(a@)[i as int]);
            }
            return false;
        }
        i = i + 1;
    }
    assert(parts_of(b@).take(a@.len() as int) =~= parts_of(a@));
    true
}

} // verus!
