//! Paths as `std::path::Path` sees them on unix: a sequence of components
//! (root, `.` at the start, `..`, and names), with repeated separators,
//! trailing separators and inner `.` normalized away. Containment of one
//! path in another is a component-wise prefix, as `Path::starts_with` has it.

use vstd::prelude::*;
use vstd::string::*;

verus! {

/// A path component.
pub enum Component {
    RootDir,
    CurDir,
    ParentDir,
    Normal(Seq<char>),
}

/// The pieces of `s` between `/` separators, empty pieces included.
pub open spec fn split_slash(s: Seq<char>) -> Seq<Seq<char>>
    decreases s.len(),
{
    if s.len() == 0 {
        seq![Seq::<char>::empty()]
    } else {
        let init = split_slash(s.drop_last());
        if s.last() == '/' {
            init.push(Seq::<char>::empty())
        } else {
            init.update(init.len() - 1, init.last().push(s.last()))
        }
    }
}

/// The component a piece between separators stands for, if any:
/// empty pieces and `.` stand for none.
pub open spec fn piece_components(p: Seq<char>) -> Seq<Component> {
    if p.len() == 0 || p == seq!['.'] {
        seq![]
    } else if p == seq!['.', '.'] {
        seq![Component::ParentDir]
    } else {
        seq![Component::Normal(p)]
    }
}

/// The components of a run of pieces.
pub open spec fn body_components(ps: Seq<Seq<char>>) -> Seq<Component>
    decreases ps.len(),
{
    if ps.len() == 0 {
        seq![]
    } else {
        body_components(ps.drop_last()) + piece_components(ps.last())
    }
}

/// Whether `s` is absolute.
pub open spec fn has_root(s: Seq<char>) -> bool {
    s.len() > 0 && s[0] == '/'
}

/// Whether `s` is relative and starts with the component `.`.
pub open spec fn starts_with_cur_dir(s: Seq<char>) -> bool {
    !has_root(s) && split_slash(s)[0] == seq!['.']
}

/// The components of the path `s`.
pub open spec fn components(s: Seq<char>) -> Seq<Component> {
    let ps = split_slash(s);
    if has_root(s) {
        seq![Component::RootDir] + body_components(ps)
    } else if starts_with_cur_dir(s) {
        seq![Component::CurDir] + body_components(ps.drop_first())
    } else {
        body_components(ps)
    }
}

/// `base` names `path` or one of its ancestors: the components of `base`
/// are the first components of `path`.
pub open spec fn path_within(path: Seq<char>, base: Seq<char>) -> bool {
    let cp = components(path);
    let cb = components(base);
    cb.len() <= cp.len() && cp.take(cb.len() as int) == cb
}

/// Appending text without separators to a path extends its last piece.
pub proof fn lemma_split_append_name(a: Seq<char>, t: Seq<char>)
    requires
        !t.contains('/'),
    ensures
        split_slash(a + t) == split_slash(a).update(
            split_slash(a).len() - 1,
            split_slash(a).last() + t,
        ),
    decreases t.len(),
{
    lemma_split_nonempty(a);
    if t.len() == 0 {
        assert(a + t =~= a);
        assert(split_slash(a).last() + t =~= split_slash(a).last());
        assert(split_slash(a).update(split_slash(a).len() - 1, split_slash(a).last())
            =~= split_slash(a));
    } else {
        let t2 = t.drop_last();
        assert(!t2.contains('/')) by {
            if t2.contains('/') {
                let i = choose|i: int| 0 <= i < t2.len() && t2[i] == '/';
                assert(t[i] == '/');
            }
        }
        lemma_split_append_name(a, t2);
        assert((a + t).drop_last() =~= a + t2);
        assert((a + t).last() == t.last());
        assert(t.last() != '/') by {
            if t.last() == '/' {
                assert(t[t.len() - 1] == '/');
            }
        }
        lemma_split_nonempty(a + t2);
        let sa = split_slash(a);
        assert((sa.last() + t2).push(t.last()) =~= sa.last() + t);
        assert(split_slash(a + t) =~= sa.update(sa.len() - 1, sa.last() + t));
    }
}

/// Appending a separator to a path starts a new, empty piece.
pub proof fn lemma_split_append_slash(a: Seq<char>)
    ensures
        split_slash(a.push('/')) == split_slash(a).push(Seq::<char>::empty()),
{
    assert(a.push('/').drop_last() =~= a);
}

/// Containment is a preorder: every path lies within itself, and within
/// whatever its ancestors lie within.
pub proof fn lemma_within_reflexive_transitive(a: Seq<char>, b: Seq<char>, c: Seq<char>)
    ensures
        path_within(a, a),
        path_within(a, b) && path_within(b, c) ==> path_within(a, c),
{
    assert(components(a).take(components(a).len() as int) =~= components(a));
    if path_within(a, b) && path_within(b, c) {
        let ca = components(a);
        let cb = components(b);
        let cc = components(c);
        assert(ca.take(cc.len() as int) =~= cb.take(cc.len() as int));
    }
}

/// A component as the library holds it.
pub enum PathComponent {
    RootDir,
    CurDir,
    ParentDir,
    Normal(Vec<char>),
}

impl View for PathComponent {
    type V = Component;

    open spec fn view(&self) -> Component {
        match self {
            PathComponent::RootDir => Component::RootDir,
            PathComponent::CurDir => Component::CurDir,
            PathComponent::ParentDir => Component::ParentDir,
            PathComponent::Normal(v) => Component::Normal(v@),
        }
    }
}

/// The components held in `v`.
pub open spec fn components_view(v: Seq<PathComponent>) -> Seq<Component> {
    v.map_values(|c: PathComponent| c@)
}

/// The pieces held in `v`.
pub open spec fn pieces_view(v: Seq<Vec<char>>) -> Seq<Seq<char>> {
    v.map_values(|p: Vec<char>| p@)
}

proof fn lemma_split_nonempty(s: Seq<char>)
    ensures
        split_slash(s).len() >= 1,
    decreases s.len(),
{
    if s.len() > 0 {
        lemma_split_nonempty(s.drop_last());
    }
}

/// The pieces of `s` between separators.
fn split_pieces(s: &str) -> (r: Vec<Vec<char>>)
    ensures
        pieces_view(r@) == split_slash(s@),
{
    let n = s.unicode_len();
    let mut done: Vec<Vec<char>> = Vec::new();
    let mut cur: Vec<char> = Vec::new();
    let mut i: usize = 0;
    assert(s@.take(0) =~= Seq::<char>::empty());
    while i < n
        invariant
            n == s@.len(),
            i <= n,
            pieces_view(done@).push(cur@) == split_slash(s@.take(i as int)),
        decreases n - i,
    {
        let c = s.get_char(i);
        proof {
            assert(s@.take(i + 1).drop_last() =~= s@.take(i as int));
            assert(s@.take(i + 1).last() == c);
            lemma_split_nonempty(s@.take(i as int));
        }
        if c == '/' {
            let ghost old_done = pieces_view(done@);
            let ghost old_cur = cur@;
            done.push(cur);
            cur = Vec::new();
            proof {
                assert(pieces_view(done@) =~= old_done.push(old_cur));
                assert(pieces_view(done@).push(cur@) =~= old_done.push(old_cur).push(Seq::<char>::empty()));
            }
        } else {
            let ghost old_done = pieces_view(done@);
            let ghost old_cur = cur@;
            cur.push(c);
            proof {
                let sp = split_slash(s@.take(i as int));
                assert(sp == old_done.push(old_cur));
                assert(pieces_view(done@).push(cur@) =~= sp.update(sp.len() - 1, sp.last().push(c)));
            }
        }
        i = i + 1;
    }
    assert(s@.take(n as int) =~= s@);
    let ghost before = pieces_view(done@);
    done.push(cur);
    assert(pieces_view(done@) =~= before.push(cur@));
    done
}

fn chars_equal(a: &Vec<char>, b: &Vec<char>) -> (r: bool)
    ensures
        r == (a@ == b@),
{
    if a.len() != b.len() {
        return false;
    }
    let mut i: usize = 0;
    while i < a.len()
        invariant
            a.len() == b.len(),
            i <= a.len(),
            forall|k: int| 0 <= k < i ==> a@[k] == b@[k],
        decreases a.len() - i,
    {
        if a[i] != b[i] {
            return false;
        }
        i = i + 1;
    }
    assert(a@ =~= b@);
    true
}

fn piece_to_components(p: &Vec<char>, out: &mut Vec<PathComponent>)
    ensures
        components_view(final(out)@) == components_view(old(out)@) + piece_components(p@),
{
    let ghost before = components_view(out@);
    if p.len() == 0 || (p.len() == 1 && p[0] == '.') {
        proof {
            if p.len() == 1 {
                assert(p@ =~= seq!['.']);
            }
        }
        assert(components_view(out@) =~= before + piece_components(p@));
    } else if p.len() == 2 && p[0] == '.' && p[1] == '.' {
        assert(p@ =~= seq!['.', '.']);
        out.push(PathComponent::ParentDir);
        assert(components_view(out@) =~= before + piece_components(p@));
    } else {
        proof {
            assert(p@ != seq!['.']) by {
                if p@ == seq!['.'] {
                    assert(p@.len() == 1);
                }
            }
            assert(p@ != seq!['.', '.']) by {
                if p@ == seq!['.', '.'] {
                    assert(p@.len() == 2);
                    assert(p@[0] == '.' && p@[1] == '.');
                }
            }
        }
        let q = p.clone();
        out.push(PathComponent::Normal(q));
        assert(components_view(out@) =~= before + piece_components(p@));
    }
}

/// The components of the path `s`, in order.
pub fn path_components(s: &str) -> (r: Vec<PathComponent>)
    ensures
        components_view(r@) == components(s@),
{
    let ps = split_pieces(s);
    proof {
        lemma_split_nonempty(s@);
    }
    let mut out: Vec<PathComponent> = Vec::new();
    let mut start: usize = 0;
    let n = s.unicode_len();
    let rooted = n > 0 && s.get_char(0) == '/';
    if rooted {
        out.push(PathComponent::RootDir);
    } else if ps[0].len() == 1 && ps[0][0] == '.' {
        assert(pieces_view(ps@)[0] =~= seq!['.']);
        out.push(PathComponent::CurDir);
        start = 1;
    } else {
        proof {
            assert(pieces_view(ps@)[0] != seq!['.']) by {
                if pieces_view(ps@)[0] == seq!['.'] {
                    assert(pieces_view(ps@)[0].len() == 1);
                    assert(pieces_view(ps@)[0][0] == '.');
                }
            }
        }
    }
    let ghost pv = pieces_view(ps@);
    let ghost head = components_view(out@);
    assert(pv.subrange(start as int, start as int) =~= Seq::<Seq<char>>::empty());
    assert(head + body_components(pv.subrange(start as int, start as int)) =~= head);
    let mut j: usize = start;
    while j < ps.len()
        invariant
            pv == pieces_view(ps@),
            pv.len() == ps.len(),
            start <= j <= ps.len(),
            components_view(out@) == head + body_components(pv.subrange(start as int, j as int)),
        decreases ps.len() - j,
    {
        piece_to_components(&ps[j], &mut out);
        proof {
            let sub = pv.subrange(start as int, j + 1);
            assert(sub.drop_last() =~= pv.subrange(start as int, j as int));
            assert(sub.last() == pv[j as int]);
            assert(ps@[j as int]@ == pv[j as int]);
        }
        j = j + 1;
    }
    proof {
        if start == 0 {
            assert(pv.subrange(0, pv.len() as int) =~= pv);
        } else {
            assert(pv.subrange(1, pv.len() as int) =~= pv.drop_first());
        }
    }
    out
}

fn component_equal(a: &PathComponent, b: &PathComponent) -> (r: bool)
    ensures
        r == (a@ == b@),
{
    match (a, b) {
        (PathComponent::RootDir, PathComponent::RootDir) => true,
        (PathComponent::CurDir, PathComponent::CurDir) => true,
        (PathComponent::ParentDir, PathComponent::ParentDir) => true,
        (PathComponent::Normal(x), PathComponent::Normal(y)) => chars_equal(x, y),
        _ => false,
    }
}

/// Whether `base` names `path` or one of its ancestors, comparing whole
/// components (so `/a/bc` is not within `/a/b`, and `/a//b/` is within `/a/b`).
pub fn path_starts_with(path: &str, base: &str) -> (r: bool)
    ensures
        r == path_within(path@, base@),
{
    let cp = path_components(path);
    let cb = path_components(base);
    if cb.len() > cp.len() {
        return false;
    }
    let ghost vp = components_view(cp@);
    let ghost vb = components_view(cb@);
    let mut i: usize = 0;
    while i < cb.len()
        invariant
            vp == components_view(cp@),
            vb == components_view(cb@),
            vp == components(path@),
            vb == components(base@),
            cb.len() <= cp.len(),
            i <= cb.len(),
            forall|k: int| 0 <= k < i ==> vp[k] == vb[k],
        decreases cb.len() - i,
    {
        assert(vp[i as int] == cp@[i as int]@);
        assert(vb[i as int] == cb@[i as int]@);
        if !component_equal(&cp[i], &cb[i]) {
            assert(vp.take(vb.len() as int)[i as int] != vb[i as int]);
            assert(vp.take(vb.len() as int) != vb);
            return false;
        }
        i = i + 1;
    }
    assert(vp.take(vb.len() as int) =~= vb);
    true
}

/// Whether `s` begins with the characters of `prefix`.
pub fn str_starts_with(s: &str, prefix: &str) -> (r: bool)
    ensures
        r == prefix@.is_prefix_of(s@),
{
    let n = s.unicode_len();
    let m = prefix.unicode_len();
    if m > n {
        return false;
    }
    let mut i: usize = 0;
    while i < m
        invariant
            n == s@.len(),
            m == prefix@.len(),
            m <= n,
            i <= m,
            forall|k: int| 0 <= k < i ==> prefix@[k] == s@[k],
        decreases m - i,
    {
        if s.get_char(i) != prefix.get_char(i) {
            return false;
        }
        i = i + 1;
    }
    assert(prefix@ =~= s@.take(m as int));
    true
}

} // verus!
