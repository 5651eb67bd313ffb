//! The file-browser listing: stored resources are shown as the files of a
//! folder and the sub-folders below it.
use crate::text::{
    chars_of, compare_chars, has_prefix, lemma_lt_asymmetric, lemma_lt_irreflexive,
    lemma_lt_total, lemma_lt_transitive, lemma_trim_facts, prefix_at, seq_equal, seq_lt,
    string_of, trim, trimmed, leading_ws, trailing_ws, is_white_space,
};
use vstd::prelude::*;

verus! {

/// Number of leading `/` of `s`.
pub open spec fn leading_slashes(s: Seq<char>) -> nat
    decreases s.len(),
{
    if s.len() > 0 && s[0] == '/' {
        1 + leading_slashes(s.drop_first())
    } else {
        0
    }
}

/// Number of trailing `/` of `s`.
pub open spec fn trailing_slashes(s: Seq<char>) -> nat
    decreases s.len(),
{
    if s.len() > 0 && s.last() == '/' {
        1 + trailing_slashes(s.drop_last())
    } else {
        0
    }
}

/// `str::trim_start_matches('/')`.
pub open spec fn strip_leading_slashes(s: Seq<char>) -> Seq<char> {
    s.skip(leading_slashes(s) as int)
}

/// `str::trim_end_matches('/')`.
pub open spec fn strip_trailing_slashes(s: Seq<char>) -> Seq<char> {
    s.take(s.len() - trailing_slashes(s))
}

/// Length of the part of `s` before its first `/`.
pub open spec fn segment_len(s: Seq<char>) -> nat
    decreases s.len(),
{
    if s.len() > 0 && s[0] != '/' {
        1 + segment_len(s.drop_first())
    } else {
        0
    }
}

/// The part of `s` before its first `/` (`s.split('/').next()`).
pub open spec fn first_segment(s: Seq<char>) -> Seq<char> {
    s.take(segment_len(s) as int)
}

/// The root folder, `/`.
pub open spec fn root() -> Seq<char> {
    seq!['/']
}

/// A path in canonical form: trimmed, with a leading `/`, and without one
/// trailing `/` (the root excepted).
pub open spec fn normalize(p: Seq<char>) -> Seq<char> {
    let s = trim(p);
    let s1 = if s.len() > 0 && s[0] == '/' {
        s
    } else {
        seq!['/'] + s
    };
    if s1.len() > 1 && s1.last() == '/' {
        s1.drop_last()
    } else {
        s1
    }
}

/// The name of the entry directly below folder `base` on the way to `path`,
/// if `path` lies below `base`.
pub open spec fn first_child(base: Seq<char>, path: Seq<char>) -> Option<Seq<char>> {
    let b = normalize(base);
    let p = normalize(path);
    if b == root() {
        let seg = first_segment(strip_leading_slashes(p));
        if seg.len() == 0 {
            None
        } else {
            Some(seg)
        }
    } else {
        let prefix = strip_trailing_slashes(b) + seq!['/'];
        if has_prefix(p, prefix) {
            let seg = first_segment(p.skip(prefix.len() as int));
            if seg.len() > 0 {
                Some(seg)
            } else {
                None
            }
        } else {
            None
        }
    }
}

/// The path of entry `name` in folder `base`.
pub open spec fn join_path(base: Seq<char>, name: Seq<char>) -> Seq<char> {
    if base == root() {
        seq!['/'] + name
    } else {
        strip_trailing_slashes(base) + seq!['/'] + name
    }
}

proof fn lemma_leading_slashes(s: Seq<char>, i: int)
    requires
        0 <= i <= s.len(),
        forall|k: int| 0 <= k < i ==> #[trigger] s[k] == '/',
        i == s.len() || s[i] != '/',
    ensures
        leading_slashes(s) == i,
    decreases i,
{
    if i > 0 {
        lemma_leading_slashes(s.drop_first(), i - 1);
    }
}

proof fn lemma_trailing_slashes(s: Seq<char>, j: int)
    requires
        0 <= j <= s.len(),
        forall|k: int| j <= k < s.len() ==> #[trigger] s[k] == '/',
        j == 0 || s[j - 1] != '/',
    ensures
        trailing_slashes(s) == s.len() - j,
    decreases s.len() - j,
{
    if j < s.len() {
        let t = s.drop_last();
        assert forall|k: int| j <= k < t.len() implies #[trigger] t[k] == '/' by {
            assert(t[k] == s[k]);
        }
        lemma_trailing_slashes(t, j);
    }
}

proof fn lemma_segment_len(s: Seq<char>, i: int)
    requires
        0 <= i <= s.len(),
        forall|k: int| 0 <= k < i ==> #[trigger] s[k] != '/',
        i == s.len() || s[i] == '/',
    ensures
        segment_len(s) == i,
    decreases i,
{
    if i > 0 {
        lemma_segment_len(s.drop_first(), i - 1);
    }
}

/// The characters of `s` from `from` to `to`.
fn slice_chars(s: &Vec<char>, from: usize, to: usize) -> (r: Vec<char>)
    requires
        from <= to <= s@.len(),
    ensures
        r@ == s@.subrange(from as int, to as int),
{
    let mut r: Vec<char> = Vec::new();
    let mut k: usize = from;
    while k < to
        invariant
            from <= k <= to <= s@.len(),
            r@ == s@.subrange(from as int, k as int),
        decreases to - k,
    {
        r.push(s[k]);
        assert(s@.subrange(from as int, k + 1) == s@.subrange(from as int, k as int).push(
            s@[k as int],
        ));
        k = k + 1;
    }
    r
}

/// `s` with its leading `/` removed.
fn strip_leading(s: &Vec<char>) -> (r: Vec<char>)
    ensures
        r@ == strip_leading_slashes(s@),
{
    let n = s.len();
    let mut i: usize = 0;
    while i < n && s[i] == '/'
        invariant
            n == s@.len(),
            0 <= i <= n,
            forall|k: int| 0 <= k < i ==> #[trigger] s@[k] == '/',
        decreases n - i,
    {
        i = i + 1;
    }
    proof {
        lemma_leading_slashes(s@, i as int);
    }
    let r = slice_chars(s, i, n);
    assert(r@ =~= strip_leading_slashes(s@));
    r
}

/// `s` with its trailing `/` removed.
fn strip_trailing(s: &Vec<char>) -> (r: Vec<char>)
    ensures
        r@ == strip_trailing_slashes(s@),
{
    let n = s.len();
    let mut j: usize = n;
    while j > 0 && s[j - 1] == '/'
        invariant
            n == s@.len(),
            0 <= j <= n,
            forall|k: int| j <= k < n ==> #[trigger] s@[k] == '/',
        decreases j,
    {
        j = j - 1;
    }
    proof {
        lemma_trailing_slashes(s@, j as int);
    }
    let r = slice_chars(s, 0, j);
    assert(r@ =~= strip_trailing_slashes(s@));
    r
}

/// The part of `s` from `from` up to the next `/`.
fn segment_from(s: &Vec<char>, from: usize) -> (r: Vec<char>)
    requires
        from <= s@.len(),
    ensures
        r@ == first_segment(s@.skip(from as int)),
{
    let n = s.len();
    let mut i: usize = from;
    while i < n && s[i] != '/'
        invariant
            n == s@.len(),
            from <= i <= n,
            forall|k: int| from <= k < i ==> #[trigger] s@[k] != '/',
        decreases n - i,
    {
        i = i + 1;
    }
    proof {
        let t = s@.skip(from as int);
        assert forall|k: int| 0 <= k < i - from implies #[trigger] t[k] != '/' by {
            assert(t[k] == s@[k + from]);
        }
        if i < n {
            assert(t[i - from] == s@[i as int]);
        }
        lemma_segment_len(t, i - from);
    }
    let r = slice_chars(s, from, i);
    assert(r@ =~= first_segment(s@.skip(from as int)));
    r
}

/// The canonical form of the path `p` (see `normalize`).
pub fn normalize_chars(p: &Vec<char>) -> (r: Vec<char>)
    ensures
        r@ == normalize(p@),
{
    let s = trimmed(p);
    let mut s1: Vec<char> = if s.len() > 0 && s[0] == '/' {
        s
    } else {
        let mut t: Vec<char> = Vec::new();
        t.push('/');
        let n = s.len();
        for i in 0..n
            invariant
                n == s@.len(),
                t@ == seq!['/'] + s@.take(i as int),
        {
            t.push(s[i]);
            assert(seq!['/'] + s@.take(i + 1) =~= (seq!['/'] + s@.take(i as int)).push(s@[i as int]));
        }
        assert(s@.take(n as int) =~= s@);
        t
    };
    let len = s1.len();
    if len > 1 && s1[len - 1] == '/' {
        s1.pop();
    }
    s1
}

/// The canonical form of the path `p` (see `normalize`).
pub fn normalize_path(p: &str) -> (r: String)
    ensures
        r@ == normalize(p@),
{
    let v = chars_of(p);
    let n = normalize_chars(&v);
    string_of(&n)
}

fn is_root(v: &Vec<char>) -> (r: bool)
    ensures
        r == (v@ == root()),
{
    let mut slash: Vec<char> = Vec::new();
    slash.push('/');
    assert(slash@ =~= root());
    seq_equal(v, &slash)
}

/// The entry directly below `base` on the way to `path` (see `first_child`).
pub fn first_child_of(base: &Vec<char>, path: &Vec<char>) -> (r: Option<Vec<char>>)
    ensures
        match first_child(base@, path@) {
            Some(c) => r matches Some(v) && v@ == c,
            None => r is None,
        },
{
    let b = normalize_chars(base);
    let p = normalize_chars(path);
    if is_root(&b) {
        let stripped = strip_leading(&p);
        proof {
            assert(stripped@.skip(0) =~= stripped@);
        }
        let seg = segment_from(&stripped, 0);
        if seg.len() == 0 {
            None
        } else {
            Some(seg)
        }
    } else {
        let mut prefix = strip_trailing(&b);
        let ghost stripped = prefix@;
        prefix.push('/');
        assert(prefix@ =~= stripped + seq!['/']);
        proof {
            assert(p@.skip(0) =~= p@);
        }
        if prefix_at(&p, 0, &prefix) {
            let seg = segment_from(&p, prefix.len());
            if seg.len() > 0 {
                Some(seg)
            } else {
                None
            }
        } else {
            None
        }
    }
}

/// The path of entry `name` in folder `base` (see `join_path`).
pub fn join_path_of(base: &Vec<char>, name: &Vec<char>) -> (r: Vec<char>)
    ensures
        r@ == join_path(base@, name@),
{
    let mut r: Vec<char> = if is_root(base) {
        let mut t: Vec<char> = Vec::new();
        t.push('/');
        t
    } else {
        let mut t = strip_trailing(base);
        t.push('/');
        t
    };
    let ghost head = r@;
    let n = name.len();
    for i in 0..n
        invariant
            n == name@.len(),
            r@ == head + name@.take(i as int),
    {
        r.push(name[i]);
        assert(head + name@.take(i + 1) =~= (head + name@.take(i as int)).push(name@[i as int]));
    }
    assert(name@.take(n as int) =~= name@);
    assert(r@ =~= join_path(base@, name@));
    r
}

/// Every canonical path begins with `/`.
pub proof fn law_normalized_is_rooted(p: Seq<char>)
    ensures
        normalize(p).len() > 0,
        normalize(p)[0] == '/',
{
}

/// A path already in canonical form is left as it is.
pub proof fn law_normalize_keeps_canonical(q: Seq<char>)
    requires
        q.len() > 0,
        q[0] == '/',
        !is_white_space(q.last()),
        q.len() == 1 || q.last() != '/',
    ensures
        normalize(q) == q,
{
    crate::text::lemma_leading_ws(q, 0);
    crate::text::lemma_trailing_ws(q, q.len() as int);
    assert(q.skip(0) =~= q);
    assert(q.take(q.len() as int) =~= q);
}

/// A listed folder is an ancestor of the path it was found for: below a
/// canonical `base`, the canonical form of `path` continues the folder's
/// path with a `/` or ends there. The folder's name is never empty and never
/// holds a `/`. (Below the root this holds for paths that do not begin
/// with `//`.)
pub proof fn law_child_lies_on_path(base: Seq<char>, path: Seq<char>, c: Seq<char>)
    requires
        normalize(base) == base,
        first_child(base, path) == Some(c),
        base == root() ==> !(normalize(path).len() >= 2 && normalize(path)[1] == '/'),
    ensures
        c.len() > 0,
        forall|k: int| 0 <= k < c.len() ==> c[k] != '/',
        has_prefix(normalize(path), join_path(base, c)),
        normalize(path).len() == join_path(base, c).len() || normalize(path)[join_path(
            base,
            c,
        ).len() as int] == '/',
{
    let p = normalize(path);
    let prefix = if base == root() {
        root()
    } else {
        strip_trailing_slashes(base) + seq!['/']
    };
    let s = p.skip(prefix.len() as int);
    if base == root() {
        lemma_leading_slashes(p, 1);
        assert(strip_leading_slashes(p) =~= s);
        assert(p.take(1) =~= root());
    } else {
        assert(p.take(prefix.len() as int) =~= prefix);
    }
    let n = segment_len(s);
    lemma_segment_end(s);
    assert(c =~= s.take(n as int));
    assert forall|k: int| 0 <= k < c.len() implies c[k] != '/' by {
        lemma_segment_prefix(s, k);
    }
    let j = join_path(base, c);
    assert(j =~= prefix + c);
    assert forall|k: int| 0 <= k < j.len() implies #[trigger] p.take(j.len() as int)[k] == j[k] by {
        if k < prefix.len() {
            assert(p.take(prefix.len() as int)[k] == prefix[k]);
        } else {
            assert(s[k - prefix.len()] == p[k]);
        }
    }
    assert(p.take(j.len() as int) =~= j);
    if p.len() != j.len() {
        assert(p[j.len() as int] == s[n as int]);
    }
}

/// A trimmed name without `/` that is put in a canonical folder is found
/// again as that folder's child, both for the entry itself and for any path
/// further below it.
pub proof fn law_join_then_first_child(base: Seq<char>, name: Seq<char>, rest: Seq<char>)
    requires
        normalize(base) == base,
        name.len() > 0,
        forall|k: int| 0 <= k < name.len() ==> name[k] != '/',
        trim(name) == name,
        rest.len() > 0,
        !is_white_space(rest.last()),
        rest.last() != '/',
    ensures
        first_child(base, join_path(base, name)) == Some(name),
        first_child(base, join_path(base, name) + seq!['/'] + rest) == Some(name),
{
    lemma_trimmed_ends(name);
    lemma_canonical_shape(base);
    let j = join_path(base, name);
    let q = j + seq!['/'] + rest;
    let prefix = if base == root() {
        root()
    } else {
        base + seq!['/']
    };
    if base != root() {
        lemma_trailing_slashes(base, base.len() as int);
        assert(strip_trailing_slashes(base) =~= base);
    }
    assert(j =~= prefix + name);
    assert(q =~= prefix + (name + seq!['/'] + rest));
    law_normalize_keeps_canonical(j);
    law_normalize_keeps_canonical(q);
    lemma_segment_len(name, name.len() as int);
    assert(first_segment(name) =~= name);
    let t = name + seq!['/'] + rest;
    lemma_segment_len(t, name.len() as int);
    assert(first_segment(t) =~= name);
    if base == root() {
        lemma_leading_slashes(j, 1);
        lemma_leading_slashes(q, 1);
        assert(strip_leading_slashes(j) =~= name);
        assert(strip_leading_slashes(q) =~= t);
    } else {
        assert(j.take(prefix.len() as int) =~= prefix);
        assert(q.take(prefix.len() as int) =~= prefix);
        assert(j.skip(prefix.len() as int) =~= name);
        assert(q.skip(prefix.len() as int) =~= t);
    }
}

/// A trimmed non-empty text neither begins nor ends with whitespace.
proof fn lemma_trimmed_ends(s: Seq<char>)
    requires
        s.len() > 0,
        trim(s) == s,
    ensures
        !is_white_space(s[0]),
        !is_white_space(s.last()),
{
    lemma_trim_facts(s);
}

/// A canonical folder begins with `/` and, unless it is the root, does not
/// end with `/`; its last character is not whitespace.
proof fn lemma_canonical_shape(base: Seq<char>)
    requires
        normalize(base) == base,
    ensures
        base.len() > 0,
        base[0] == '/',
        base == root() || base.last() != '/',
        !is_white_space(base.last()),
{
    law_normalized_is_rooted(base);
    let s = trim(base);
    lemma_trim_facts(base);
    let s1 = if s.len() > 0 && s[0] == '/' {
        s
    } else {
        seq!['/'] + s
    };
    let dropped = s1.len() > 1 && s1.last() == '/';
    if s.len() > 0 && s[0] == '/' {
        if dropped {
            assert(normalize(base).len() == s.len() - 1);
            assert(false);
        }
    } else {
        if dropped {
            assert(normalize(base).len() == s.len());
            assert(s == base);
            assert(false);
        } else {
            if s.len() == 0 {
                assert(base =~= root());
            } else {
                assert(base.last() == s.last());
            }
        }
    }
}

proof fn lemma_segment_prefix(s: Seq<char>, k: int)
    requires
        0 <= k < segment_len(s),
    ensures
        k < s.len(),
        s[k] != '/',
    decreases k,
{
    assert(s.len() > 0 && s[0] != '/');
    if k > 0 {
        lemma_segment_prefix(s.drop_first(), k - 1);
        assert(s.drop_first()[k - 1] == s[k]);
    }
}

proof fn lemma_segment_end(s: Seq<char>)
    ensures
        segment_len(s) <= s.len(),
        segment_len(s) < s.len() ==> s[segment_len(s) as int] == '/',
    decreases s.len(),
{
    if s.len() > 0 && s[0] != '/' {
        lemma_segment_end(s.drop_first());
        if segment_len(s) < s.len() {
            assert(s.drop_first()[segment_len(s.drop_first()) as int] == s[segment_len(s) as int]);
        }
    }
}

/// A stored resource, as the listing reads it.
#[derive(Debug)]
pub struct ResourceRow {
    pub path: String,
    pub name: String,
    /// Last update, in seconds since the Unix epoch.
    pub updated_at: Option<i64>,
    pub url: String,
}

/// An entry of a listing: a file or a folder.
#[derive(Debug)]
pub struct VfEntry {
    /// `file` or `dir`.
    pub type_: String,
    pub path: String,
    pub basename: String,
    pub size: u64,
    pub timestamp: i64,
    pub url: Option<String>,
}

/// The listing of a folder: its files and its sub-folders.
#[derive(Debug)]
pub struct VfListResp {
    pub path: String,
    pub dirs: Vec<VfEntry>,
    pub files: Vec<VfEntry>,
}

/// The sub-folder of `base` that a row with path `row_path` shows, if any:
/// none for a row that is a file of `base` itself.
pub open spec fn folder_of_row(base: Seq<char>, row_path: Seq<char>) -> Option<Seq<char>> {
    let p = normalize(row_path);
    if p == base {
        None
    } else {
        first_child(base, p)
    }
}

/// `name` is a sub-folder of `base` shown by one of `rows`.
pub open spec fn is_listed_folder(base: Seq<char>, rows: Seq<ResourceRow>, name: Seq<char>) -> bool {
    exists|i: int| 0 <= i < rows.len() && folder_of_row(base, rows[i].path@) == Some(name)
}

/// `f` is the file entry of `row`.
pub open spec fn is_file_entry(f: VfEntry, row: ResourceRow) -> bool {
    &&& f.type_@ == "file"@
    &&& f.path@ == normalize(row.path@)
    &&& f.basename@ == row.name@
    &&& f.size == 0
    &&& f.timestamp == match row.updated_at {
        Some(t) => t,
        None => 0i64,
    }
    &&& f.url matches Some(u) && u@ == row.url@
}

/// `d` is the folder entry of `name` in `base`.
pub open spec fn is_folder_entry(d: VfEntry, base: Seq<char>, name: Seq<char>) -> bool {
    &&& d.type_@ == "dir"@
    &&& d.path@ == join_path(base, name)
    &&& d.basename@ == name
    &&& d.size == 0
    &&& d.timestamp == 0
    &&& d.url is None
}

/// The rows of `rows` that are files of `base`, in order.
pub open spec fn file_rows(base: Seq<char>, rows: Seq<ResourceRow>) -> Seq<ResourceRow>
    decreases rows.len(),
{
    if rows.len() == 0 {
        Seq::empty()
    } else if normalize(rows.last().path@) == base {
        file_rows(base, rows.drop_last()).push(rows.last())
    } else {
        file_rows(base, rows.drop_last())
    }
}

/// The names in strictly increasing order (hence without repetition).
pub open spec fn strictly_increasing(names: Seq<Seq<char>>) -> bool {
    forall|i: int, j: int| 0 <= i < j < names.len() ==> seq_lt(#[trigger] names[i], #[trigger] names[j])
}

/// The views of character vectors.
pub open spec fn views(v: Seq<Vec<char>>) -> Seq<Seq<char>> {
    v.map_values(|x: Vec<char>| x@)
}

/// Inserts `name` into the strictly increasing `names` unless it is there.
/// The folder names are kept as a sorted, duplicate-free vector: vstd's
/// specification of `BTreeSet` holds only for keys whose order it knows to
/// be lawful, which texts are not.
fn insert_sorted(names: &mut Vec<Vec<char>>, name: Vec<char>)
    requires
        strictly_increasing(views(old(names)@)),
    ensures
        strictly_increasing(views(final(names)@)),
        forall|x: Seq<char>| views(final(names)@).contains(x) <==> (views(old(names)@).contains(x) || x == name@),
{
    let n = names.len();
    let mut pos: usize = 0;
    while pos < n && compare_chars(&names[pos], &name) == -1
        invariant
            n == names@.len(),
            0 <= pos <= n,
            forall|k: int| 0 <= k < pos ==> seq_lt(#[trigger] views(names@)[k], name@),
            strictly_increasing(views(names@)),
        decreases n - pos,
    {
        pos = pos + 1;
    }
    let ghost before = views(names@);
    if pos < n {
        let c = compare_chars(&names[pos], &name);
        if c == 0 {
            assert(before[pos as int] == name@);
            assert forall|x: Seq<char>| before.contains(x) <==> (before.contains(x) || x == name@) by {
                if x == name@ {
                    assert(before[pos as int] == x);
                }
            }
            return;
        }
        proof {
            lemma_lt_total(name@, before[pos as int]);
        }
        assert(seq_lt(name@, before[pos as int]));
    }
    names.insert(pos, name);
    let ghost after = views(names@);
    assert(after =~= before.insert(pos as int, name@));
    assert forall|i: int, j: int| 0 <= i < j < after.len() implies seq_lt(#[trigger] after[i], #[trigger] after[j]) by {
        if j < pos {
            assert(after[i] == before[i] && after[j] == before[j]);
        } else if j == pos {
            assert(after[j] == name@);
            assert(after[i] == before[i]);
        } else if i < pos {
            assert(after[i] == before[i] && after[j] == before[j - 1]);
            assert(seq_lt(before[i], name@));
            assert(seq_lt(name@, before[pos as int]));
            if j - 1 > pos {
                assert(seq_lt(before[pos as int], before[j - 1]));
                lemma_lt_transitive(name@, before[pos as int], before[j - 1]);
            }
            lemma_lt_transitive(before[i], name@, before[j - 1]);
        } else if i == pos {
            assert(after[i] == name@ && after[j] == before[j - 1]);
            if j - 1 > pos {
                assert(seq_lt(before[pos as int], before[j - 1]));
                lemma_lt_transitive(name@, before[pos as int], before[j - 1]);
            }
        } else {
            assert(after[i] == before[i - 1] && after[j] == before[j - 1]);
        }
    }
    assert forall|x: Seq<char>| after.contains(x) <==> (before.contains(x) || x == name@) by {
        if after.contains(x) {
            let k = choose|k: int| 0 <= k < after.len() && after[k] == x;
            if k < pos {
                assert(before[k] == x);
            } else if k > pos {
                assert(before[k - 1] == x);
            }
        }
        if before.contains(x) {
            let k = choose|k: int| 0 <= k < before.len() && before[k] == x;
            if k < pos {
                assert(after[k] == x);
            } else {
                assert(after[k + 1] == x);
            }
        }
        if x == name@ {
            assert(after[pos as int] == x);
        }
    }
}

/// The folder a listing shows: the one asked for, else the root.
pub open spec fn listed_base(path: Option<String>) -> Seq<char> {
    match path {
        Some(p) => p@,
        None => root(),
    }
}

/// The basenames of entries.
pub open spec fn basenames(entries: Seq<VfEntry>) -> Seq<Seq<char>> {
    entries.map_values(|e: VfEntry| e.basename@)
}

fn file_entry(row: &ResourceRow, path: &Vec<char>) -> (f: VfEntry)
    requires
        path@ == normalize(row.path@),
    ensures
        is_file_entry(f, *row),
{
    VfEntry {
        type_: "file".to_owned(),
        path: string_of(path),
        basename: row.name.clone(),
        size: 0,
        timestamp: match row.updated_at {
            Some(t) => t,
            None => 0,
        },
        url: Some(row.url.clone()),
    }
}

/// The listing of folder `path` (the root when absent) from the stored
/// resources `rows`: the rows whose canonical path is the folder itself are
/// its files, in order; the distinct sub-folders that the other rows lie in
/// are its folders, in increasing order of name.
pub fn list_entries(path: Option<String>, rows: &Vec<ResourceRow>) -> (r: VfListResp)
    ensures
        r.path@ == listed_base(path),
        r.files@.len() == file_rows(listed_base(path), rows@).len(),
        forall|k: int| 0 <= k < r.files@.len() ==> is_file_entry(#[trigger] r.files@[k], file_rows(listed_base(path), rows@)[k]),
        strictly_increasing(basenames(r.dirs@)),
        forall|x: Seq<char>| basenames(r.dirs@).contains(x) <==> is_listed_folder(listed_base(path), rows@, x),
        forall|k: int| 0 <= k < r.dirs@.len() ==> is_folder_entry(#[trigger] r.dirs@[k], listed_base(path), r.dirs@[k].basename@),
{
    let base: String = match path {
        Some(p) => p,
        None => "/".to_owned(),
    };
    proof {
        reveal_strlit("/");
        assert("/"@ =~= root());
    }
    let base_chars = chars_of(base.as_str());
    let ghost b = base_chars@;
    let mut files: Vec<VfEntry> = Vec::new();
    let mut names: Vec<Vec<char>> = Vec::new();
    let n = rows.len();
    for i in 0..n
        invariant
            n == rows@.len(),
            b == base_chars@,
            files@.len() == file_rows(b, rows@.take(i as int)).len(),
            forall|k: int| 0 <= k < files@.len() ==> is_file_entry(#[trigger] files@[k], file_rows(b, rows@.take(i as int))[k]),
            strictly_increasing(views(names@)),
            forall|x: Seq<char>| views(names@).contains(x) <==> is_listed_folder(b, rows@.take(i as int), x),
    {
        let row = &rows[i];
        let ghost prev = rows@.take(i as int);
        let ghost next = rows@.take(i + 1);
        assert(next.drop_last() =~= prev);
        assert(next.last() == *row);
        let raw = chars_of(row.path.as_str());
        let p = normalize_chars(&raw);
        if seq_equal(&p, &base_chars) {
            let f = file_entry(row, &p);
            files.push(f);
        } else {
            match first_child_of(&base_chars, &p) {
                Some(c) => {
                    insert_sorted(&mut names, c);
                },
                None => {},
            }
        }
        assert forall|x: Seq<char>| views(names@).contains(x) <==> is_listed_folder(b, next, x) by {
            if is_listed_folder(b, next, x) {
                let k = choose|k: int| 0 <= k < next.len() && folder_of_row(b, next[k].path@) == Some(x);
                if k < i {
                    assert(prev[k] == next[k]);
                    assert(is_listed_folder(b, prev, x));
                }
            }
            if is_listed_folder(b, prev, x) {
                let k = choose|k: int| 0 <= k < prev.len() && folder_of_row(b, prev[k].path@) == Some(x);
                assert(next[k] == prev[k]);
            }
            if folder_of_row(b, row.path@) == Some(x) {
                assert(next[i as int] == *row);
            }
        }
    }
    assert(rows@.take(n as int) =~= rows@);
    let mut dirs: Vec<VfEntry> = Vec::new();
    let m = names.len();
    for j in 0..m
        invariant
            m == names@.len(),
            b == base_chars@,
            dirs@.len() == j,
            forall|k: int| 0 <= k < j ==> is_folder_entry(#[trigger] dirs@[k], b, views(names@)[k]),
            forall|k: int| 0 <= k < j ==> (#[trigger] dirs@[k]).basename@ == views(names@)[k],
    {
        let d = VfEntry {
            type_: "dir".to_owned(),
            path: string_of(&join_path_of(&base_chars, &names[j])),
            basename: string_of(&names[j]),
            size: 0,
            timestamp: 0,
            url: None,
        };
        assert(views(names@)[j as int] == names@[j as int]@);
        let ghost before = dirs@;
        dirs.push(d);
        assert forall|k: int| 0 <= k < j + 1 implies is_folder_entry(#[trigger] dirs@[k], b, views(names@)[k]) by {
            if k < j {
                assert(dirs@[k] == before[k]);
            }
        }
    }
    assert(basenames(dirs@) =~= views(names@));
    VfListResp { path: base, dirs, files }
}

} // verus!
