//! Paths as text, handled as `std::path::Path` handles them on Unix:
//! joining, the last component, and its extension.
use vstd::prelude::*;

use crate::interop::argv::string_views;
use crate::text::cat;

verus! {

/// `base` joined with `part` as `Path::join` does on Unix: an absolute
/// `part` replaces `base`; otherwise one `/` separates them, unless `base`
/// is empty or already ends with `/`.
pub open spec fn joined(base: Seq<char>, part: Seq<char>) -> Seq<char> {
    if part.len() > 0 && part[0] == '/' {
        part
    } else if base.len() == 0 || base.last() == '/' {
        base + part
    } else {
        base + seq!['/'] + part
    }
}

/// `base` joined with `part` (see [`joined`]).
pub fn path_join(base: &str, part: &str) -> (r: String)
    ensures
        r@ == joined(base@, part@),
{
    let pn = part.unicode_len();
    if pn > 0 && part.get_char(0) == '/' {
        return part.to_owned();
    }
    let bn = base.unicode_len();
    if bn == 0 || base.get_char(bn - 1) == '/' {
        return cat(base, part);
    }
    let mut r = base.to_owned();
    proof {
        reveal_strlit("/");
    }
    r.append("/");
    r.append(part);
    r
}

/// `p` split at each `/`, as `str::split('/')` gives it (empty pieces
/// included).
pub open spec fn split_slash(p: Seq<char>) -> Seq<Seq<char>>
    decreases p.len(),
{
    if p.len() == 0 {
        seq![Seq::<char>::empty()]
    } else {
        let rest = split_slash(p.drop_last());
        if p.last() == '/' {
            rest.push(Seq::<char>::empty())
        } else {
            rest.update(rest.len() - 1, rest.last().push(p.last()))
        }
    }
}

/// The pieces that name something: neither empty nor `.`.
pub open spec fn normal_pieces(ps: Seq<Seq<char>>) -> Seq<Seq<char>>
    decreases ps.len(),
{
    if ps.len() == 0 {
        ps
    } else {
        let rest = normal_pieces(ps.drop_last());
        if ps.last().len() == 0 || ps.last() == seq!['.'] {
            rest
        } else {
            rest.push(ps.last())
        }
    }
}

/// The components of `p` as `Path::components` gives them on Unix: `/`
/// for the root of an absolute path, `.` for a leading current directory,
/// then the pieces that name something.
pub open spec fn components(p: Seq<char>) -> Seq<Seq<char>> {
    let ps = split_slash(p);
    if p.len() > 0 && p[0] == '/' {
        seq![seq!['/']] + normal_pieces(ps)
    } else if ps[0] == seq!['.'] {
        seq![seq!['.']] + normal_pieces(ps)
    } else {
        normal_pieces(ps)
    }
}

/// Whether `base`'s components begin `p`'s (`Path::starts_with`).
pub open spec fn path_starts_with(p: Seq<char>, base: Seq<char>) -> bool {
    let a = components(p);
    let b = components(base);
    b.len() <= a.len() && a.take(b.len() as int) == b
}

proof fn lemma_split_nonempty(p: Seq<char>)
    ensures
        split_slash(p).len() >= 1,
    decreases p.len(),
{
    if p.len() > 0 {
        lemma_split_nonempty(p.drop_last());
    }
}

proof fn lemma_split_len_slash(p: Seq<char>, j: int)
    requires
        0 <= j < p.len(),
        p[j] == '/',
    ensures
        split_slash(p).len() >= 2,
    decreases p.len(),
{
    lemma_split_nonempty(p.drop_last());
    if j < p.len() - 1 {
        lemma_split_len_slash(p.drop_last(), j);
    }
}

fn is_dot(s: &str) -> (b: bool)
    ensures
        b == (s@ == seq!['.']),
{
    let r = s.unicode_len() == 1 && s.get_char(0) == '.';
    proof {
        if r {
            assert(s@ =~= seq!['.']);
        }
    }
    r
}

/// The components of `p` (see [`components`]).
pub fn path_components(p: &str) -> (r: Vec<String>)
    ensures
        string_views(r@) == components(p@),
{
    let n = p.unicode_len();
    let mut kept: Vec<String> = Vec::new();
    let mut cur_start: usize = 0;
    let mut i: usize = 0;
    proof {
        assert(p@.take(0) =~= Seq::<char>::empty());
    }
    while i < n
        invariant
            n == p@.len(),
            cur_start <= i <= n,
            split_slash(p@.take(i as int)).len() >= 1,
            string_views(kept@) == normal_pieces(split_slash(p@.take(i as int)).drop_last()),
            split_slash(p@.take(i as int)).last() == p@.subrange(cur_start as int, i as int),
        decreases n - i,
    {
        let ghost t = p@.take(i as int);
        let ghost t1 = p@.take(i + 1);
        proof {
            assert(t1.drop_last() =~= t);
            lemma_split_nonempty(t);
        }
        let c = p.get_char(i);
        if c == '/' {
            let piece = p.substring_char(cur_start, i);
            let ghost before = kept@;
            if piece.unicode_len() != 0 && !is_dot(piece) {
                kept.push(piece.to_owned());
            }
            proof {
                let sp = split_slash(t);
                assert(split_slash(t1) == sp.push(Seq::<char>::empty()));
                assert(split_slash(t1).drop_last() =~= sp);
                assert(sp =~= sp.drop_last().push(sp.last()));
                assert(string_views(kept@) =~= normal_pieces(sp));
            }
            cur_start = i + 1;
        } else {
            proof {
                let sp = split_slash(t);
                assert(split_slash(t1).drop_last() =~= sp.drop_last());
                assert(split_slash(t1).last() =~= p@.subrange(cur_start as int, i + 1));
            }
        }
        i = i + 1;
    }
    proof {
        assert(p@.take(n as int) =~= p@);
    }
    let last = p.substring_char(cur_start, n);
    if last.unicode_len() != 0 && !is_dot(last) {
        kept.push(last.to_owned());
    }
    proof {
        let sp = split_slash(p@);
        assert(sp =~= sp.drop_last().push(sp.last()));
        assert(string_views(kept@) =~= normal_pieces(sp));
    }
    let rooted = n > 0 && p.get_char(0) == '/';
    let lead_dot = if rooted {
        false
    } else {
        let mut j: usize = 0;
        while j < n && p.get_char(j) != '/'
            invariant
                n == p@.len(),
                j <= n,
                forall|k: int| 0 <= k < j ==> p@[k] != '/',
            decreases n - j,
        {
            j = j + 1;
        }
        let first = p.substring_char(0, j);
        proof {
            lemma_first_piece(p@, j as int);
        }
        is_dot(first)
    };
    let mut r: Vec<String> = Vec::new();
    if rooted {
        proof {
            reveal_strlit("/");
        }
        r.push("/".to_owned());
        assert(r@.len() == 1 && r@[0]@ == seq!['/']);
    } else if lead_dot {
        proof {
            reveal_strlit(".");
        }
        r.push(".".to_owned());
        assert(r@.len() == 1 && r@[0]@ == seq!['.']);
    }
    let ghost head = r@;
    let mut k: usize = 0;
    while k < kept.len()
        invariant
            k <= kept@.len(),
            r@ == head + kept@.take(k as int),
        decreases kept@.len() - k,
    {
        r.push(kept[k].clone());
        k = k + 1;
        proof {
            assert(r@ =~= head + kept@.take(k as int));
        }
    }
    proof {
        assert(kept@.take(kept@.len() as int) =~= kept@);
        let ps = split_slash(p@);
        let hv = string_views(head);
        assert(string_views(r@) =~= hv + string_views(kept@));
        if rooted {
            assert(hv.len() == 1 && hv[0] == head[0]@);
            assert(hv =~= seq![seq!['/']]);
        } else if lead_dot {
            assert(hv.len() == 1 && hv[0] == head[0]@);
            assert(hv =~= seq![seq!['.']]);
            assert(ps[0] == seq!['.']);
        } else {
            assert(hv =~= Seq::<Seq<char>>::empty());
            assert(ps[0] != seq!['.']);
        }
    }
    r
}

proof fn lemma_first_piece(p: Seq<char>, j: int)
    requires
        0 <= j <= p.len(),
        forall|k: int| 0 <= k < j ==> p[k] != '/',
        j == p.len() || p[j] == '/',
    ensures
        split_slash(p)[0] == p.subrange(0, j),
    decreases p.len(),
{
    if j == p.len() {
        lemma_split_single(p);
        assert(p.subrange(0, j) =~= p);
    } else {
        let q = p.drop_last();
        lemma_first_piece(q, j);
        assert(q.subrange(0, j) =~= p.subrange(0, j));
        lemma_split_nonempty(q);
        if j < p.len() - 1 {
            lemma_split_len_slash(q, j);
        }
    }
}

proof fn lemma_split_single(p: Seq<char>)
    requires
        forall|k: int| 0 <= k < p.len() ==> p[k] != '/',
    ensures
        split_slash(p) == seq![p],
    decreases p.len(),
{
    if p.len() > 0 {
        lemma_split_single(p.drop_last());
        assert(p.drop_last().push(p.last()) =~= p);
        assert(seq![p.drop_last()].update(0, p.drop_last().push(p.last())) =~= seq![p]);
    } else {
        assert(p =~= Seq::<char>::empty());
    }
}

/// Whether `p` begins with the components of `base` (`Path::starts_with`).
pub fn starts_with_path(p: &str, base: &str) -> (b: bool)
    ensures
        b == path_starts_with(p@, base@),
{
    let a = path_components(p);
    let c = path_components(base);
    let ghost av = string_views(a@);
    let ghost cv = string_views(c@);
    assert(av.len() == a@.len() && cv.len() == c@.len());
    if c.len() > a.len() {
        return false;
    }
    let mut k: usize = 0;
    while k < c.len()
        invariant
            c@.len() <= a@.len(),
            av.len() == a@.len(),
            cv.len() == c@.len(),
            av == string_views(a@),
            cv == string_views(c@),
            av == components(p@),
            cv == components(base@),
            k <= c@.len(),
            forall|j: int| 0 <= j < k ==> av[j] == cv[j],
        decreases c@.len() - k,
    {
        if !crate::text::same_text(a[k].as_str(), c[k].as_str()) {
            proof {
                assert(av[k as int] == a@[k as int]@);
                assert(cv[k as int] == c@[k as int]@);
                assert(av.take(cv.len() as int)[k as int] != cv[k as int]);
                assert(av.take(cv.len() as int) != cv);
            }
            return false;
        }
        k = k + 1;
    }
    proof {
        assert(av.take(cv.len() as int) =~= cv);
    }
    true
}

/// The file name of `p` (`Path::file_name`): its last component, when
/// that names something (not the root, `.` or `..`).
pub open spec fn file_name_of(p: Seq<char>) -> Option<Seq<char>> {
    let c = components(p);
    if c.len() > 0 && c.last() != seq!['/'] && c.last() != seq!['.'] && c.last() != seq!['.', '.'] {
        Some(c.last())
    } else {
        None
    }
}

/// Whether `p` has the extension `json` (`Path::extension`): its file name
/// ends in `.json` with something before the dot.
pub open spec fn json_extension(p: Seq<char>) -> bool {
    match file_name_of(p) {
        Some(n) => n.len() > 5 && n.subrange(n.len() - 5, n.len() as int) == ".json"@,
        None => false,
    }
}

fn special_component(s: &str) -> (b: bool)
    ensures
        b == (s@ == seq!['/'] || s@ == seq!['.'] || s@ == seq!['.', '.']),
{
    let n = s.unicode_len();
    let r = if n == 1 {
        let c = s.get_char(0);
        c == '/' || c == '.'
    } else if n == 2 {
        s.get_char(0) == '.' && s.get_char(1) == '.'
    } else {
        false
    };
    proof {
        if n == 1 {
            if s@[0] == '/' {
                assert(s@ =~= seq!['/']);
            }
            if s@[0] == '.' {
                assert(s@ =~= seq!['.']);
            }
        }
        if n == 2 && s@[0] == '.' && s@[1] == '.' {
            assert(s@ =~= seq!['.', '.']);
        }
    }
    r
}

/// The file name of `p`, if it has one.
pub fn file_name(p: &str) -> (r: Option<String>)
    ensures
        match file_name_of(p@) {
            Some(n) => r matches Some(s) && s@ == n,
            None => r is None,
        },
{
    let c = path_components(p);
    let n = c.len();
    if n == 0 {
        proof {
            assert(string_views(c@).len() == c@.len());
        }
        return None;
    }
    let last = c[n - 1].as_str();
    proof {
        assert(string_views(c@).len() == c@.len());
        assert(string_views(c@)[n - 1] == c@[n - 1]@);
        assert(last@ == components(p@).last());
    }
    if special_component(last) {
        return None;
    }
    Some(last.to_owned())
}

/// Whether `p` has the extension `json`.
pub fn has_json_extension(p: &str) -> (b: bool)
    ensures
        b == json_extension(p@),
{
    match file_name(p) {
        None => false,
        Some(name) => {
            let n = name.unicode_len();
            if n <= 5 {
                return false;
            }
            let tail = name.as_str().substring_char(n - 5, n);
            crate::text::same_text(tail, ".json")
        },
    }
}

/// `p` without what follows its last component: trailing slashes and
/// trailing `/.` pieces.
pub open spec fn strip_tail(p: Seq<char>) -> Seq<char>
    decreases p.len(),
{
    if p.len() > 0 && p.last() == '/' {
        strip_tail(p.drop_last())
    } else if p.len() >= 2 && p.last() == '.' && p[p.len() - 2] == '/' {
        strip_tail(p.drop_last())
    } else {
        p
    }
}

/// The start of the text after the last `/` of `t`.
#[verifier::opaque]
pub open spec fn after_last_slash(t: Seq<char>) -> int {
    if exists|k: int| 0 <= k < t.len() && t[k] == '/' {
        1 + choose|k: int| 0 <= k < t.len() && t[k] == '/' && forall|j: int| k < j < t.len() ==> t[j] != '/'
    } else {
        0
    }
}

/// The length of a file name's stem (`Path::file_stem`): up to its last
/// `.`, unless that leaves nothing (then the whole name).
#[verifier::opaque]
pub open spec fn stem_len(n: Seq<char>) -> int {
    if exists|k: int| 0 < k < n.len() && n[k] == '.' {
        choose|k: int| 0 < k < n.len() && n[k] == '.' && forall|j: int| k < j < n.len() ==> n[j] != '.'
    } else {
        n.len() as int
    }
}

/// `p` with its extension replaced by `ext` (`Path::with_extension`, `ext`
/// not empty): cut after the stem of its file name, then `.` and `ext`; a
/// path without a file name is left as it is.
pub open spec fn with_extension_of(p: Seq<char>, ext: Seq<char>) -> Seq<char> {
    let t = strip_tail(p);
    let start = after_last_slash(t);
    let n = t.subrange(start, t.len() as int);
    if n.len() == 0 || n == seq!['.'] || n == seq!['.', '.'] {
        p
    } else {
        t.subrange(0, start + stem_len(n)) + seq!['.'] + ext
    }
}

fn strip_tail_len(p: &str) -> (e: usize)
    ensures
        e <= p@.len(),
        strip_tail(p@) == p@.subrange(0, e as int),
{
    let mut e = p.unicode_len();
    proof {
        assert(p@.subrange(0, e as int) =~= p@);
    }
    while e > 0 && (p.get_char(e - 1) == '/' || (e >= 2 && p.get_char(e - 1) == '.' && p.get_char(
        e - 2,
    ) == '/'))
        invariant
            e <= p@.len(),
            strip_tail(p@) == strip_tail(p@.subrange(0, e as int)),
        decreases e,
    {
        proof {
            assert(p@.subrange(0, e as int).drop_last() =~= p@.subrange(0, e - 1));
        }
        e = e - 1;
    }
    e
}

fn last_slash_start(p: &str, e: usize) -> (s: usize)
    requires
        e <= p@.len(),
    ensures
        s <= e,
        s == after_last_slash(p@.subrange(0, e as int)),
{
    let ghost t = p@.subrange(0, e as int);
    proof {
        reveal(after_last_slash);
    }
    let mut k = e;
    while k > 0 && p.get_char(k - 1) != '/'
        invariant
            k <= e <= p@.len(),
            t == p@.subrange(0, e as int),
            forall|j: int| k <= j < e ==> t[j] != '/',
        decreases k,
    {
        k = k - 1;
    }
    proof {
        if k == 0 {
            assert(!exists|j: int| 0 <= j < t.len() && t[j] == '/');
        } else {
            let w = k - 1;
            assert(t[w as int] == '/');
            let c = choose|c: int| 0 <= c < t.len() && t[c] == '/' && forall|j: int| c < j < t.len() ==> t[j] != '/';
            assert(c == w) by {
                if c < w {
                    assert(t[w as int] != '/');
                }
                if w < c {
                    assert(t[c] != '/');
                }
            }
        }
    }
    k
}

fn stem_length(n: &str) -> (k: usize)
    ensures
        k == stem_len(n@),
        k <= n@.len(),
{
    proof {
        reveal(stem_len);
    }
    let len = n.unicode_len();
    let mut k = len;
    while k > 1 && n.get_char(k - 1) != '.'
        invariant
            k <= len == n@.len(),
            forall|j: int| k <= j < len && j > 0 ==> n@[j] != '.',
        decreases k,
    {
        k = k - 1;
    }
    if k >= 2 {
        let w = k - 1;
        proof {
            assert(0 < w < n@.len() && n@[w as int] == '.');
            let c = choose|c: int| 0 < c < n@.len() && n@[c] == '.' && forall|j: int| c < j < n@.len() ==> n@[j] != '.';
            assert(c == w) by {
                if c < w {
                    assert(n@[w as int] != '.');
                }
                if w < c {
                    assert(n@[c] != '.');
                }
            }
        }
        w
    } else {
        proof {
            assert(!exists|j: int| 0 < j < n@.len() && n@[j] == '.');
        }
        len
    }
}

/// `p` with its extension replaced by `ext` (see [`with_extension_of`]).
pub fn with_extension(p: &str, ext: &str) -> (r: String)
    requires
        ext@.len() > 0,
    ensures
        r@ == with_extension_of(p@, ext@),
{
    let e = strip_tail_len(p);
    let start = last_slash_start(p, e);
    let name = p.substring_char(start, e);
    let ghost t = strip_tail(p@);
    proof {
        assert(t.len() == e);
        assert(name@ =~= t.subrange(start as int, t.len() as int));
    }
    if special_or_empty(name) {
        return p.to_owned();
    }
    let k = stem_length(name);
    let mut r = p.substring_char(0, start + k).to_owned();
    proof {
        reveal_strlit(".");
        assert(r@ =~= strip_tail(p@).subrange(0, start + k));
    }
    r.append(".");
    r.append(ext);
    r
}

fn special_or_empty(s: &str) -> (b: bool)
    ensures
        b == (s@.len() == 0 || s@ == seq!['.'] || s@ == seq!['.', '.']),
{
    let n = s.unicode_len();
    let r = n == 0 || (n == 1 && s.get_char(0) == '.') || (n == 2 && s.get_char(0) == '.'
        && s.get_char(1) == '.');
    proof {
        if n == 1 && s@[0] == '.' {
            assert(s@ =~= seq!['.']);
        }
        if n == 2 && s@[0] == '.' && s@[1] == '.' {
            assert(s@ =~= seq!['.', '.']);
        }
    }
    r
}

} // verus!
