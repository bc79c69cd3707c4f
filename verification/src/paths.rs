//! Unix paths as text: joining, splitting into components, and the
//! containment test that keeps every path the tools touch inside the storage
//! root.
use vstd::prelude::*;
use vstd::string::*;

use crate::text::{chars_of, chars_eq, owned, concat2};

verus! {

/// The pieces of `s` between slashes, empty ones included (a path with `k`
/// slashes has `k + 1` pieces).
pub open spec fn parts(s: Seq<char>) -> Seq<Seq<char>>
    decreases s.len(),
{
    if s.len() == 0 {
        seq![seq![]]
    } else {
        let p = parts(s.drop_last());
        if s.last() == '/' {
            p.push(seq![])
        } else {
            p.update(p.len() - 1, p.last().push(s.last()))
        }
    }
}

/// A piece that names something: neither empty nor `.`.
pub open spec fn is_named(p: Seq<char>) -> bool {
    p.len() > 0 && p != seq!['.']
}

/// The pieces that name something, in order.
pub open spec fn named(ps: Seq<Seq<char>>) -> Seq<Seq<char>>
    decreases ps.len(),
{
    if ps.len() == 0 {
        seq![]
    } else if is_named(ps.last()) {
        named(ps.drop_last()).push(ps.last())
    } else {
        named(ps.drop_last())
    }
}

/// The path starts at the root.
pub open spec fn is_absolute(s: Seq<char>) -> bool {
    s.len() > 0 && s[0] == '/'
}

/// The path starts with a `.` piece of its own (`.` or `./...`).
pub open spec fn starts_at_cur_dir(s: Seq<char>) -> bool {
    !is_absolute(s) && s.len() > 0 && s[0] == '.' && (s.len() == 1 || s[1] == '/')
}

/// The components of a path as `Path::components` gives them: the root as
/// `/`, a leading current directory as `.`, then each piece that names
/// something (`..` included); empty pieces and inner `.` pieces drop out.
pub open spec fn components(s: Seq<char>) -> Seq<Seq<char>> {
    let head = if is_absolute(s) {
        seq![seq!['/']]
    } else if starts_at_cur_dir(s) {
        seq![seq!['.']]
    } else {
        seq![]
    };
    head + named(parts(s))
}

/// `path` starts with the components of `base`, as `Path::starts_with`
/// tells.
pub open spec fn is_under(path: Seq<char>, base: Seq<char>) -> bool {
    let cb = components(base);
    let cp = components(path);
    cb.len() <= cp.len() && cp.take(cb.len() as int) == cb
}

/// `user` joined onto `base` as `Path::join` does: an absolute `user`
/// replaces `base`; otherwise a slash goes between them unless `base` is
/// empty or already ends with one.
pub open spec fn join_path_model(base: Seq<char>, user: Seq<char>) -> Seq<char> {
    if is_absolute(user) {
        user
    } else if base.len() == 0 || base.last() == '/' {
        base + user
    } else {
        base + seq!['/'] + user
    }
}

/// The views of a vector of character vectors.
pub open spec fn char_views(v: Seq<Vec<char>>) -> Seq<Seq<char>> {
    v.map_values(|x: Vec<char>| x@)
}

proof fn lemma_parts_nonempty(s: Seq<char>)
    ensures
        parts(s).len() >= 1,
    decreases s.len(),
{
    if s.len() > 0 {
        lemma_parts_nonempty(s.drop_last());
    }
}

/// The pieces of `s` that name something.
fn named_parts(s: &Vec<char>) -> (r: Vec<Vec<char>>)
    ensures
        char_views(r@) == named(parts(s@)),
{
    let mut done: Vec<Vec<char>> = Vec::new();
    let mut cur: Vec<char> = Vec::new();
    let ghost mut raw: Seq<Seq<char>> = seq![];
    let mut i: usize = 0;
    assert(s@.take(0) =~= seq![]);
    while i < s.len()
        invariant
            i <= s.len(),
            parts(s@.take(i as int)) == raw.push(cur@),
            char_views(done@) == named(raw),
        decreases s.len() - i,
    {
        let c = s[i];
        assert(s@.take(i + 1).drop_last() =~= s@.take(i as int));
        assert(s@.take(i + 1).last() == c);
        if c == '/' {
            proof {
                assert(named(raw.push(cur@)) == if is_named(cur@) {
                    named(raw).push(cur@)
                } else {
                    named(raw)
                }) by {
                    assert(raw.push(cur@).drop_last() =~= raw);
                }
            }
            let ghost old_done = done@;
            let ghost old_cur = cur@;
            if cur.len() > 0 && !(cur.len() == 1 && cur[0] == '.') {
                done.push(cur);
                assert(char_views(done@) =~= char_views(old_done).push(old_cur));
            } else {
                proof {
                    if cur@.len() == 1 && cur@[0] == '.' {
                        assert(cur@ =~= seq!['.']);
                    }
                }
            }
            cur = Vec::new();
            proof {
                raw = raw.push(old_cur);
                assert(parts(s@.take(i + 1)) =~= raw.push(cur@));
            }
        } else {
            cur.push(c);
            proof {
                assert(parts(s@.take(i + 1)) =~= raw.push(cur@));
            }
        }
        i += 1;
    }
    assert(s@.take(s.len() as int) =~= s@);
    proof {
        assert(raw.push(cur@).drop_last() =~= raw);
        if cur@.len() == 1 && cur@[0] == '.' {
            assert(cur@ =~= seq!['.']);
        }
    }
    if cur.len() > 0 && !(cur.len() == 1 && cur[0] == '.') {
        let ghost old_done = done@;
        let ghost old_cur = cur@;
        done.push(cur);
        assert(char_views(done@) =~= char_views(old_done).push(old_cur));
    }
    done
}

/// The components of the path `s`.
pub fn path_components(s: &str) -> (r: Vec<Vec<char>>)
    ensures
        char_views(r@) == components(s@),
{
    let v = chars_of(s);
    let mut r: Vec<Vec<char>> = Vec::new();
    if v.len() > 0 && v[0] == '/' {
        let mut root: Vec<char> = Vec::new();
        root.push('/');
        r.push(root);
    } else if v.len() > 0 && v[0] == '.' && (v.len() == 1 || v[1] == '/') {
        let mut dot: Vec<char> = Vec::new();
        dot.push('.');
        r.push(dot);
    }
    let ghost head = char_views(r@);
    let rest = named_parts(&v);
    let mut k: usize = 0;
    assert(head =~= char_views(r@));
    while k < rest.len()
        invariant
            k <= rest.len(),
            char_views(r@) == head + char_views(rest@).take(k as int),
        decreases rest.len() - k,
    {
        let ghost before = r@;
        let item = rest[k].clone();
        r.push(item);
        assert(char_views(r@) =~= char_views(before).push(rest@[k as int]@));
        assert(char_views(rest@).take(k + 1) =~= char_views(rest@).take(k as int).push(
            rest@[k as int]@,
        ));
        k += 1;
    }
    assert(char_views(rest@).take(rest.len() as int) =~= char_views(rest@));
    r
}

/// Whether the components of `path` begin with those of `base`.
pub fn path_starts_with(path: &str, base: &str) -> (r: bool)
    ensures
        r == is_under(path@, base@),
{
    let cp = path_components(path);
    let cb = path_components(base);
    if cb.len() > cp.len() {
        return false;
    }
    let mut i: usize = 0;
    while i < cb.len()
        invariant
            i <= cb.len() <= cp.len(),
            char_views(cp@) == components(path@),
            char_views(cb@) == components(base@),
            forall|k: int| 0 <= k < i ==> cp@[k]@ == cb@[k]@,
        decreases cb.len() - i,
    {
        if !chars_eq(&cp[i], &cb[i]) {
            assert(char_views(cp@).take(cb.len() as int)[i as int] == cp@[i as int]@);
            assert(char_views(cb@)[i as int] == cb@[i as int]@);
            assert(char_views(cp@).take(cb.len() as int) != char_views(cb@));
            return false;
        }
        i += 1;
    }
    assert(char_views(cp@).take(cb.len() as int) =~= char_views(cb@));
    true
}

/// `user` joined onto `base`.
pub fn join_path(base: &str, user: &str) -> (r: String)
    ensures
        r@ == join_path_model(base@, user@),
{
    let u = chars_of(user);
    let b = chars_of(base);
    if u.len() > 0 && u[0] == '/' {
        owned(user)
    } else if b.len() == 0 || b[b.len() - 1] == '/' {
        concat2(base, user)
    } else {
        proof {
            reveal_strlit("/");
        }
        let mut r = concat2(base, "/");
        r.append(user);
        r
    }
}

/// The message for a path that leaves the storage root.
pub open spec fn escape_message(user_path: Seq<char>) -> Seq<char> {
    "path escapes allowed base directory: "@ + user_path
}

/// The last step of resolving `user_path`: the resolved `candidate` is
/// accepted when it lies under `base`, and refused otherwise.
pub fn check_within_base(user_path: &str, base: &str, candidate: &str) -> (r: Result<String, String>)
    ensures
        match r {
            Ok(p) => is_under(candidate@, base@) && p@ == candidate@,
            Err(e) => !is_under(candidate@, base@) && e@ == escape_message(user_path@),
        },
{
    if path_starts_with(candidate, base) {
        Ok(owned(candidate))
    } else {
        Err(concat2("path escapes allowed base directory: ", user_path))
    }
}

/// The directory that `repo_path` names under the canonical storage root
/// `base`, before it exists: the join is checked as it stands, without
/// resolving `..`.
pub fn resolve_repo_dir(base: &str, repo_path: &str) -> (r: Result<String, String>)
    ensures
        match r {
            Ok(p) => p@ == join_path_model(base@, repo_path@) && is_under(p@, base@),
            Err(e) => !is_under(join_path_model(base@, repo_path@), base@) && e@
                == escape_message(repo_path@),
        },
{
    let joined = join_path(base, repo_path);
    if path_starts_with(joined.as_str(), base) {
        Ok(joined)
    } else {
        Err(concat2("path escapes allowed base directory: ", repo_path))
    }
}

/// Path components with each `..` resolved by name: it takes away the
/// component before it when that one names a directory, stays at the root,
/// and is kept otherwise.
pub open spec fn lexical(cs: Seq<Seq<char>>) -> Seq<Seq<char>>
    decreases cs.len(),
{
    if cs.len() == 0 {
        seq![]
    } else {
        let prev = lexical(cs.drop_last());
        let c = cs.last();
        if c == seq!['.', '.'] {
            if prev.len() > 0 && prev.last() == seq!['/'] {
                prev
            } else if prev.len() > 0 && prev.last() != seq!['.', '.'] && prev.last() != seq!['.'] {
                prev.drop_last()
            } else {
                prev.push(c)
            }
        } else {
            prev.push(c)
        }
    }
}

/// `path`, with its `..` components resolved by name, starts with the
/// components of `base`.
pub open spec fn is_lexically_under(path: Seq<char>, base: Seq<char>) -> bool {
    let cb = components(base);
    let cp = lexical(components(path));
    cb.len() <= cp.len() && cp.take(cb.len() as int) == cb
}

fn is_parent_step(c: &Vec<char>) -> (r: bool)
    ensures
        r == (c@ == seq!['.', '.']),
{
    let r = c.len() == 2 && c[0] == '.' && c[1] == '.';
    proof {
        if c@.len() == 2 && c@[0] == '.' && c@[1] == '.' {
            assert(c@ =~= seq!['.', '.']);
        }
    }
    r
}

fn is_single(c: &Vec<char>, x: char) -> (r: bool)
    ensures
        r == (c@ == seq![x]),
{
    let r = c.len() == 1 && c[0] == x;
    proof {
        if c@.len() == 1 && c@[0] == x {
            assert(c@ =~= seq![x]);
        }
    }
    r
}

/// The components of `path` with its `..` components resolved by name.
pub fn lexical_components(path: &str) -> (r: Vec<Vec<char>>)
    ensures
        char_views(r@) == lexical(components(path@)),
{
    let cs = path_components(path);
    let mut r: Vec<Vec<char>> = Vec::new();
    let mut i: usize = 0;
    assert(char_views(cs@).take(0) =~= Seq::<Seq<char>>::empty());
    while i < cs.len()
        invariant
            i <= cs.len(),
            char_views(cs@) == components(path@),
            char_views(r@) == lexical(char_views(cs@).take(i as int)),
        decreases cs.len() - i,
    {
        let ghost before = char_views(r@);
        let ghost cv = char_views(cs@);
        assert(cv.take(i + 1).drop_last() =~= cv.take(i as int));
        assert(cv.take(i + 1).last() == cs@[i as int]@);
        let c = &cs[i];
        if is_parent_step(c) {
            let n = r.len();
            if n > 0 && is_single(&r[n - 1], '/') {
            } else if n > 0 && !is_parent_step(&r[n - 1]) && !is_single(&r[n - 1], '.') {
                r.pop();
                assert(char_views(r@) =~= before.drop_last());
            } else {
                r.push(c.clone());
                assert(char_views(r@) =~= before.push(c@));
            }
        } else {
            r.push(c.clone());
            assert(char_views(r@) =~= before.push(c@));
        }
        i += 1;
    }
    assert(char_views(cs@).take(cs.len() as int) =~= char_views(cs@));
    r
}

/// The check that `path` stays under `base` when its `..` components are
/// resolved by name, which needs nothing of the file system: the server
/// makes it before it creates the missing directories of a path.
pub fn check_lexically_within(user_path: &str, base: &str, path: &str) -> (r: Result<(), String>)
    ensures
        match r {
            Ok(_) => is_lexically_under(path@, base@),
            Err(e) => !is_lexically_under(path@, base@) && e@ == escape_message(user_path@),
        },
{
    let cp = lexical_components(path);
    let cb = path_components(base);
    if cb.len() > cp.len() {
        return Err(concat2("path escapes allowed base directory: ", user_path));
    }
    let mut i: usize = 0;
    while i < cb.len()
        invariant
            i <= cb.len() <= cp.len(),
            char_views(cp@) == lexical(components(path@)),
            char_views(cb@) == components(base@),
            forall|k: int| 0 <= k < i ==> cp@[k]@ == cb@[k]@,
        decreases cb.len() - i,
    {
        if !chars_eq(&cp[i], &cb[i]) {
            assert(char_views(cp@).take(cb.len() as int)[i as int] == cp@[i as int]@);
            assert(char_views(cb@)[i as int] == cb@[i as int]@);
            assert(char_views(cp@).take(cb.len() as int) != char_views(cb@));
            return Err(concat2("path escapes allowed base directory: ", user_path));
        }
        i += 1;
    }
    assert(char_views(cp@).take(cb.len() as int) =~= char_views(cb@));
    Ok(())
}

/// `path` lies under `base` and is not `base` itself.
pub open spec fn is_strictly_under(path: Seq<char>, base: Seq<char>) -> bool {
    is_under(path, base) && components(path).len() > components(base).len()
}

/// The message for a deletion of the storage root itself.
pub open spec fn root_message(user_path: Seq<char>) -> Seq<char> {
    "refusing to delete the storage root: "@ + user_path
}

/// The check before a deletion: the resolved `candidate` must lie under
/// `base` and not be `base` itself.
pub fn check_deletable(user_path: &str, base: &str, candidate: &str) -> (r: Result<(), String>)
    ensures
        match r {
            Ok(_) => is_strictly_under(candidate@, base@),
            Err(e) => !is_strictly_under(candidate@, base@) && e@ == if is_under(candidate@, base@) {
                root_message(user_path@)
            } else {
                escape_message(user_path@)
            },
        },
{
    if !path_starts_with(candidate, base) {
        return Err(concat2("path escapes allowed base directory: ", user_path));
    }
    let cp = path_components(candidate);
    let cb = path_components(base);
    if cp.len() <= cb.len() {
        return Err(concat2("refusing to delete the storage root: ", user_path));
    }
    Ok(())
}

/// Where a symbolic link in the directory `link_dir` with the content
/// `target` points, when that lies under `base` with its `..` components
/// resolved by name: an absolute target as it stands, a relative one joined
/// onto `link_dir`.
pub fn check_link_target(user_path: &str, base: &str, link_dir: &str, target: &str) -> (r: Result<
    String,
    String,
>)
    ensures
        match r {
            Ok(p) => p@ == join_path_model(link_dir@, target@) && is_lexically_under(p@, base@),
            Err(e) => !is_lexically_under(join_path_model(link_dir@, target@), base@) && e@
                == escape_message(user_path@),
        },
{
    let followed = join_path(link_dir, target);
    match check_lexically_within(user_path, base, followed.as_str()) {
        Ok(_) => Ok(followed),
        Err(e) => Err(e),
    }
}

proof fn lemma_named_only_empty()
    ensures
        named(seq![Seq::<char>::empty()]) == Seq::<Seq<char>>::empty(),
{
    let e = Seq::<Seq<char>>::empty();
    assert(named(e) == e);
    let one = seq![Seq::<char>::empty()];
    assert(one.drop_last() =~= e);
    assert(!is_named(one.last()));
}

proof fn lemma_parts_slash(a: Seq<char>, b: Seq<char>)
    ensures
        parts(a + seq!['/'] + b) == parts(a) + parts(b),
    decreases b.len(),
{
    if b.len() == 0 {
        assert(a + seq!['/'] + b =~= a.push('/'));
        assert(a.push('/').drop_last() =~= a);
        assert(parts(b) =~= seq![seq![]]);
        assert(parts(a).push(seq![]) =~= parts(a) + seq![seq![]]);
    } else {
        let s = a + seq!['/'] + b;
        assert(s.drop_last() =~= a + seq!['/'] + b.drop_last());
        assert(s.last() == b.last());
        lemma_parts_slash(a, b.drop_last());
        lemma_parts_nonempty(b.drop_last());
        let pa = parts(a);
        let pb = parts(b.drop_last());
        if b.last() == '/' {
            assert((pa + pb).push(seq![]) =~= pa + pb.push(seq![]));
        } else {
            assert((pa + pb).update((pa + pb).len() - 1, (pa + pb).last().push(b.last())) =~= pa
                + pb.update(pb.len() - 1, pb.last().push(b.last())));
        }
    }
}

proof fn lemma_named_concat(x: Seq<Seq<char>>, y: Seq<Seq<char>>)
    ensures
        named(x + y) == named(x) + named(y),
    decreases y.len(),
{
    if y.len() == 0 {
        assert(x + y =~= x);
        assert(named(x) + named(y) =~= named(x));
    } else {
        assert((x + y).drop_last() =~= x + y.drop_last());
        assert((x + y).last() == y.last());
        lemma_named_concat(x, y.drop_last());
        if is_named(y.last()) {
            assert((named(x) + named(y.drop_last())).push(y.last()) =~= named(x) + named(
                y.drop_last(),
            ).push(y.last()));
        }
    }
}

/// Joining a relative path onto the storage root never leaves it, and an
/// absolute path is taken as it stands: so the containment test of a repository
/// directory accepts every relative path (`..` pieces included, since they
/// are not resolved) and exactly those absolute paths that lie under the
/// root.
pub proof fn lemma_repo_dir_acceptance(base: Seq<char>, user: Seq<char>)
    ensures
        !is_absolute(user) ==> is_under(join_path_model(base, user), base),
        is_absolute(user) ==> (is_under(join_path_model(base, user), base) == is_under(user, base)),
{
    if !is_absolute(user) {
        let j = join_path_model(base, user);
        if base.len() == 0 {
            assert(parts(base) =~= seq![seq![]]);
            lemma_named_only_empty();
            assert(named(parts(base)) =~= seq![]);
            assert(components(base) =~= seq![]);
            assert(components(j).take(0) =~= components(base));
        } else {
            let a = if base.last() == '/' {
                base.drop_last()
            } else {
                base
            };
            assert(j =~= a + seq!['/'] + user);
            lemma_parts_slash(a, user);
            lemma_named_concat(parts(a), parts(user));
            if base.last() == '/' {
                assert(base =~= a + seq!['/'] + seq![]);
                lemma_parts_slash(a, seq![]);
                assert(parts(seq![]) =~= seq![seq![]]);
                lemma_named_concat(parts(a), seq![seq![]]);
                lemma_named_only_empty();
            }
            assert(named(parts(base)) =~= named(parts(a)));
            assert(j[0] == base[0]);
            if base.len() == 1 && base.last() == '/' {
            } else if base.len() == 1 {
                assert(j.len() >= 2);
                assert(j[1] == '/');
            } else {
                assert(j[1] == base[1]);
            }
            assert(components(j) =~= components(base) + named(parts(user)));
            assert(components(j).take(components(base).len() as int) =~= components(base));
        }
    }
}

} // verus!
