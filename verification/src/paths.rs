//! Paths are held as strings. Joining and probing them goes through
//! `std::path`, whose separator is the platform's own (`/`, or `\` on
//! Windows); the contracts here state what holds on every platform.
use vstd::prelude::*;

verus! {

pub open spec fn is_separator(c: char) -> bool {
    c == '/' || c == '\\'
}

/// A relative path that `Path::join` appends to its base on every platform:
/// not empty, not starting with a separator, and free of `:` (which could
/// start a Windows drive prefix). It may end in `/` (as `out/` does), but not
/// in `\`, which only Windows reads as a separator.
pub open spec fn plain(p: Seq<char>) -> bool {
    &&& p.len() > 0
    &&& !is_separator(p[0])
    &&& p.last() != '\\'
    &&& !p.contains(':')
}

/// A base path onto which `Path::join` appends a plain part in the same way
/// on every platform, up to the separator: not empty, not ending in `\` (a
/// separator on Windows only) nor in `:` (as a bare Windows drive `C:` does),
/// and not starting with `\` (as Windows verbatim paths `\\?\` do, which
/// `Path::join` rebuilds component by component). It may end in `/`.
pub open spec fn open_ended(b: Seq<char>) -> bool {
    &&& b.len() > 0
    &&& b.last() != '\\'
    &&& b.last() != ':'
    &&& b[0] != '\\'
}

/// One join of `part` onto `base` with `sep` as the platform's separator:
/// after a base that already ends in `/` the part follows directly, and
/// otherwise `sep` is put between them.
pub open spec fn join_step(base: Seq<char>, sep: char, part: Seq<char>) -> Seq<char> {
    if base.len() > 0 && base.last() == '/' {
        base + part
    } else {
        base + seq![sep] + part
    }
}

pub open spec fn separators(seps: Seq<char>) -> bool {
    forall|i: int| 0 <= i < seps.len() ==> is_separator(#[trigger] seps[i])
}

/// `base`, with each part joined on in turn, the `i`-th join using `seps[i]`
/// as the separator where one is needed.
pub open spec fn joined_with(base: Seq<char>, parts: Seq<Seq<char>>, seps: Seq<char>) -> Seq<char>
    decreases parts.len(),
{
    if parts.len() == 0 || seps.len() == 0 {
        base
    } else {
        join_step(joined_with(base, parts.drop_last(), seps.drop_last()), seps.last(), parts.last())
    }
}

/// `res` is `base` with each of `parts` joined on in turn, with a path
/// separator before each part that does not follow a `/`.
pub open spec fn joins_to(res: Seq<char>, base: Seq<char>, parts: Seq<Seq<char>>) -> bool {
    exists|seps: Seq<char>|
        #![trigger joined_with(base, parts, seps)]
        seps.len() == parts.len() && separators(seps) && res == joined_with(base, parts, seps)
}

/// Whether every part can be joined as a plain relative path.
pub open spec fn all_plain(parts: Seq<Seq<char>>) -> bool {
    forall|i: int| 0 <= i < parts.len() ==> plain(#[trigger] parts[i])
}

pub open spec fn views(parts: Seq<String>) -> Seq<Seq<char>> {
    parts.map_values(|p: String| p@)
}

/// `Path::join` followed by `Path::display`. `PathBuf::push` appends a
/// relative path, putting the platform's separator (`/` on Unix, `\` on
/// Windows) before it unless the base already ends in a separator; `/` is one
/// on both. Stated here only for a base and a part on which both platforms
/// agree up to the separator; what comes out for other inputs is left unsaid.
#[verifier::external_body]
pub fn path_join(base: &str, part: &str) -> (res: String)
    ensures
        open_ended(base@) && plain(part@) ==> (res@ == join_step(base@, '/', part@) || res@
            == join_step(base@, '\\', part@)),
{
    std::path::Path::new(base).join(part).display().to_string()
}

/// `Path::exists`: whether the file system holds something at `p` now.
/// Nothing is stated of the answer, which depends on the disk.
#[verifier::external_body]
pub fn path_exists(p: &str) -> (res: bool) {
    std::path::Path::new(p).exists()
}

/// `Path::is_absolute`. A path that starts with no separator and holds no `:`
/// has neither a root nor a prefix, so it is relative on every platform.
#[verifier::external_body]
pub fn path_is_absolute(p: &str) -> (res: bool)
    ensures
        p@.len() == 0 || (!is_separator(p@[0]) && !p@.contains(':')) ==> !res,
{
    std::path::Path::new(p).is_absolute()
}

/// A path with a component that is neither a root, nor a prefix, nor `.`
/// on every platform: it holds no `:` (so no Windows drive prefix), does not
/// start with `\` nor with two separators (so no Windows UNC or verbatim
/// prefix), and has a character that is neither a separator nor `.`.
pub open spec fn has_named_component(p: Seq<char>) -> bool {
    &&& p.len() > 0
    &&& p[0] != '\\'
    &&& !(p.len() >= 2 && is_separator(p[0]) && is_separator(p[1]))
    &&& !p.contains(':')
    &&& exists|i: int| 0 <= i < p.len() && !is_separator(#[trigger] p[i]) && p[i] != '.'
}

/// Whether a component of `p` starts at `i` and is `.` or `..`.
pub open spec fn dot_component_at(p: Seq<char>, i: int) -> bool {
    p[i] == '.' && (i + 1 == p.len() || p[i + 1] == '/' || (p[i + 1] == '.' && (i + 2 == p.len() || p[i + 2]
        == '/')))
}

/// A path written with `/` only, whose components are all named: no `\`,
/// no `:`, no empty component (no `//`, no `/` at the end), and no `.` or
/// `..` component. Both platforms split it into the same components.
pub open spec fn slash_path(p: Seq<char>) -> bool {
    &&& p.len() > 0
    &&& !p.contains('\\')
    &&& !p.contains(':')
    &&& p.last() != '/'
    &&& forall|i: int| 0 <= i < p.len() - 1 ==> !(#[trigger] p[i] == '/' && p[i + 1] == '/')
    &&& forall|i: int| 0 <= i < p.len() && (i == 0 || p[i - 1] == '/') ==> !dot_component_at(p, i)
}

/// The text of `p` before its last `/`: `/` itself when that is the first
/// character, and nothing when there is no `/`.
pub open spec fn parent_text(p: Seq<char>) -> Seq<char>
    decreases p.len(),
{
    if p.len() == 0 {
        p
    } else if p.last() == '/' {
        if p.len() == 1 {
            p
        } else {
            p.drop_last()
        }
    } else {
        parent_text(p.drop_last())
    }
}

/// `Path::parent`, displayed. The documentation says that the parent is the
/// path without its final component, and that there is none for the empty
/// path or for a path that ends in a root or a prefix; so a path with a
/// named component has one, and for a path of named components written with
/// `/` it is the text before the last `/`. Other parents are left unsaid.
#[verifier::external_body]
pub fn path_parent(p: &str) -> (res: Option<String>)
    ensures
        p@.len() == 0 ==> res is None,
        has_named_component(p@) ==> res is Some,
        slash_path(p@) ==> res is Some && res->0@ == parent_text(p@),
{
    match std::path::Path::new(p).parent() {
        Some(q) => Some(q.display().to_string()),
        None => None,
    }
}

proof fn lemma_joined_with_push(base: Seq<char>, parts: Seq<Seq<char>>, seps: Seq<char>, p: Seq<char>, s: char)
    requires
        seps.len() == parts.len(),
    ensures
        joined_with(base, parts.push(p), seps.push(s)) == join_step(joined_with(base, parts, seps), s, p),
{
    assert(parts.push(p).drop_last() =~= parts);
    assert(seps.push(s).drop_last() =~= seps);
}

proof fn lemma_joined_with_open(base: Seq<char>, parts: Seq<Seq<char>>, seps: Seq<char>)
    requires
        open_ended(base),
        all_plain(parts),
        seps.len() == parts.len(),
    ensures
        open_ended(joined_with(base, parts, seps)),
    decreases parts.len(),
{
    if parts.len() > 0 {
        let p = parts.last();
        assert(plain(parts[parts.len() - 1]));
        let r = joined_with(base, parts, seps);
        assert(r.last() == p.last());
        lemma_joined_with_first(base, parts, seps);
        if p.last() == ':' {
            assert(p.contains(':')) by {
                assert(p[p.len() - 1] == ':');
            }
        }
    }
}

proof fn lemma_joined_with_first(base: Seq<char>, parts: Seq<Seq<char>>, seps: Seq<char>)
    requires
        base.len() > 0,
    ensures
        joined_with(base, parts, seps).len() >= base.len(),
        joined_with(base, parts, seps)[0] == base[0],
    decreases parts.len(),
{
    if parts.len() > 0 && seps.len() > 0 {
        lemma_joined_with_first(base, parts.drop_last(), seps.drop_last());
    }
}

/// Joining two different plain parts onto one open-ended base gives two
/// different paths, whichever separators the joins used.
pub proof fn lemma_join_distinct(base: Seq<char>, p: Seq<char>, q: Seq<char>, a: Seq<char>, b: Seq<char>)
    requires
        open_ended(base),
        joins_to(a, base, seq![p]),
        joins_to(b, base, seq![q]),
        p != q,
    ensures
        a != b,
{
    let sa = choose|seps: Seq<char>|
        #![trigger joined_with(base, seq![p], seps)]
        seps.len() == 1 && separators(seps) && a == joined_with(base, seq![p], seps);
    let sb = choose|seps: Seq<char>|
        #![trigger joined_with(base, seq![q], seps)]
        seps.len() == 1 && separators(seps) && b == joined_with(base, seq![q], seps);
    assert(seq![p].drop_last() =~= Seq::<Seq<char>>::empty());
    assert(seq![q].drop_last() =~= Seq::<Seq<char>>::empty());
    assert(joined_with(base, Seq::<Seq<char>>::empty(), sa.drop_last()) == base);
    assert(joined_with(base, Seq::<Seq<char>>::empty(), sb.drop_last()) == base);
    assert(a == join_step(base, sa.last(), p));
    assert(b == join_step(base, sb.last(), q));
    if a == b {
        let k: int = if base.last() == '/' { base.len() as int } else { base.len() + 1int };
        assert(a.subrange(k, a.len() as int) =~= p);
        assert(b.subrange(k, b.len() as int) =~= q);
    }
}

/// Joins each of `parts` onto `base`, in order.
pub fn join_all(base: &str, parts: &Vec<String>) -> (res: String)
    ensures
        open_ended(base@) && all_plain(views(parts@)) ==> joins_to(res@, base@, views(parts@)),
{
    let mut res = crate::text::owned(base);
    let n = parts.len();
    let ghost ok = open_ended(base@) && all_plain(views(parts@));
    let ghost mut seps: Seq<char> = Seq::empty();
    let mut i: usize = 0;
    while i < n
        invariant
            n == parts.len(),
            i <= n,
            ok == (open_ended(base@) && all_plain(views(parts@))),
            ok ==> seps.len() == i && separators(seps) && res@ == joined_with(
                base@,
                views(parts@).take(i as int),
                seps,
            ),
        decreases n - i,
    {
        let next = path_join(&res, &parts[i]);
        proof {
            if ok {
                let pv = views(parts@);
                assert(pv[i as int] == parts@[i as int]@);
                assert(plain(pv[i as int]));
                lemma_joined_with_open(base@, pv.take(i as int), seps);
                let s = if next@ == join_step(res@, '/', parts@[i as int]@) { '/' } else { '\\' };
                lemma_joined_with_push(base@, pv.take(i as int), seps, pv[i as int], s);
                assert(pv.take(i + 1) =~= pv.take(i as int).push(pv[i as int]));
                seps = seps.push(s);
                assert(separators(seps)) by {
                    assert forall|k: int| 0 <= k < seps.len() implies is_separator(#[trigger] seps[k]) by {
                        if k < seps.len() - 1 {
                            assert(seps[k] == seps.drop_last()[k]);
                        }
                    }
                }
            }
        }
        res = next;
        i = i + 1;
    }
    proof {
        if ok {
            assert(views(parts@).take(n as int) =~= views(parts@));
            assert(res@ == joined_with(base@, views(parts@), seps));
        }
    }
    res
}

/// Owned copies of path components, in order.
pub fn components(parts: &[&str]) -> (res: Vec<String>)
    ensures
        views(res@) == parts@.map_values(|p: &str| p@),
{
    let mut res: Vec<String> = Vec::new();
    let mut i: usize = 0;
    while i < parts.len()
        invariant
            i <= parts@.len(),
            views(res@) == parts@.take(i as int).map_values(|p: &str| p@),
        decreases parts@.len() - i,
    {
        res.push(crate::text::owned(parts[i]));
        assert(parts@.take(i + 1).map_values(|p: &str| p@) =~= parts@.take(i as int).map_values(|p: &str| p@).push(parts@[i as int]@));
        assert(views(res@) =~= views(res@.drop_last()).push(res@.last()@));
        i = i + 1;
    }
    assert(parts@.take(parts@.len() as int) =~= parts@);
    res
}

} // verus!
