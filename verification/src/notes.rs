//! Reading a note: its title, its tags and the notes it links to, and the
//! rules that decide which files and notes make it into the graph.
//!
//! A note may open with a front matter block: a line `---`, lines of
//! `key: value`, and a closing line `---`. The title is the front matter's
//! `title` (quotes removed), else the first `# ` heading, else the file name.
//! The tags are the front matter's `tags: [a, b]`. A link is `[[Title]]` or
//! `[[Title|shown text]]`; it joins the note to the note of that title, in
//! any letter case.
use vstd::prelude::*;

use crate::text::{chars_of, contains, has_substring, lowercase, lowercase_of, split_on, split_trimmed, str_eq, string_of, trim, trimmed};

verus! {

// ---------------------------------------------------------------------------
// Specifications
// ---------------------------------------------------------------------------

/// `s` begins with `p`.
pub open spec fn starts_with(s: Seq<char>, p: Seq<char>) -> bool {
    p.len() <= s.len() && s.subrange(0, p.len() as int) == p
}

/// The lines of a text, each trimmed.
pub open spec fn trimmed_lines(s: Seq<char>) -> Seq<Seq<char>> {
    split_on(s, '\n').map_values(|l: Seq<char>| trimmed(l))
}

pub open spec fn fence() -> Seq<char> {
    seq!['-', '-', '-']
}

/// The first line from `i` on that is a fence.
pub open spec fn closing_fence(lines: Seq<Seq<char>>, i: int) -> Option<int>
    decreases lines.len() - i,
{
    if i < 0 || i >= lines.len() {
        None
    } else if lines[i] == fence() {
        Some(i)
    } else {
        closing_fence(lines, i + 1)
    }
}

/// The lines of the front matter block, if the text opens with one.
pub open spec fn front_matter(lines: Seq<Seq<char>>) -> Seq<Seq<char>> {
    if lines.len() > 0 && lines[0] == fence() {
        match closing_fence(lines, 1) {
            Some(k) => lines.subrange(1, k),
            None => Seq::empty(),
        }
    } else {
        Seq::empty()
    }
}

/// The value of the first `key:` line among `lines`, trimmed.
pub open spec fn field_value(lines: Seq<Seq<char>>, key: Seq<char>) -> Option<Seq<char>>
    decreases lines.len(),
{
    if lines.len() == 0 {
        None
    } else if starts_with(lines[0], key.push(':')) {
        Some(trimmed(lines[0].subrange(key.len() as int + 1, lines[0].len() as int)))
    } else {
        field_value(lines.subrange(1, lines.len() as int), key)
    }
}

/// The text of the first `# ` heading among `lines`, trimmed.
pub open spec fn first_heading(lines: Seq<Seq<char>>) -> Option<Seq<char>>
    decreases lines.len(),
{
    if lines.len() == 0 {
        None
    } else if starts_with(lines[0], seq!['#', ' ']) {
        Some(trimmed(lines[0].subrange(2, lines[0].len() as int)))
    } else {
        first_heading(lines.subrange(1, lines.len() as int))
    }
}

/// `v` without the double or single quotes around it, if it has them.
pub open spec fn unquoted(v: Seq<char>) -> Seq<char> {
    if v.len() >= 2 && (v[0] == '"' || v[0] == '\'') && v.last() == v[0] {
        v.subrange(1, v.len() - 1)
    } else {
        v
    }
}

/// `v` without the brackets around it, if it has them.
pub open spec fn unbracketed(v: Seq<char>) -> Seq<char> {
    if v.len() >= 2 && v[0] == '[' && v.last() == ']' {
        v.subrange(1, v.len() - 1)
    } else {
        v
    }
}

/// The title of a note with the given text, `fallback` when it names none.
pub open spec fn title_of(text: Seq<char>, fallback: Seq<char>) -> Seq<char> {
    let lines = trimmed_lines(text);
    let from_field = match field_value(front_matter(lines), "title"@) {
        Some(v) => unquoted(v),
        None => Seq::empty(),
    };
    if from_field.len() > 0 {
        from_field
    } else {
        match first_heading(lines) {
            Some(h) => h,
            None => fallback,
        }
    }
}

/// The non-empty items among comma-separated pieces, each trimmed and
/// unquoted.
pub open spec fn tag_items(pieces: Seq<Seq<char>>) -> Seq<Seq<char>>
    decreases pieces.len(),
{
    if pieces.len() == 0 {
        Seq::empty()
    } else {
        let rest = tag_items(pieces.drop_last());
        let t = unquoted(trimmed(pieces.last()));
        if t.len() > 0 {
            rest.push(t)
        } else {
            rest
        }
    }
}

/// The tags of a note with the given text.
pub open spec fn tags_of(text: Seq<char>) -> Seq<Seq<char>> {
    match field_value(front_matter(trimmed_lines(text)), "tags"@) {
        Some(v) => tag_items(split_on(unbracketed(v), ',')),
        None => Seq::empty(),
    }
}

/// Where `pat` first occurs in `s` at or after `i`.
pub open spec fn find_from(s: Seq<char>, pat: Seq<char>, i: int) -> Option<int>
    decreases s.len() + 1 - i,
{
    if i < 0 || i + pat.len() > s.len() {
        None
    } else if s.subrange(i, i + pat.len()) == pat {
        Some(i)
    } else {
        find_from(s, pat, i + 1)
    }
}

/// The part of a link's inside before its `|`, if any.
pub open spec fn before_bar(inner: Seq<char>) -> Seq<char>
    decreases inner.len(),
{
    if inner.len() == 0 {
        inner
    } else if inner[0] == '|' {
        Seq::empty()
    } else {
        seq![inner[0]] + before_bar(inner.subrange(1, inner.len() as int))
    }
}

/// The targets of the links in `s` from position `i` on: each `[[` up to
/// the next `]]` is a link, whose target is the text before any `|`,
/// trimmed; empty targets are dropped.
pub open spec fn link_targets_from(s: Seq<char>, i: int) -> Seq<Seq<char>>
    decreases s.len() - i,
{
    if i < 0 || i + 2 > s.len() {
        Seq::empty()
    } else if s[i] == '[' && s[i + 1] == '[' {
        match find_from(s, seq![']', ']'], i + 2) {
            Some(j) => {
                proof {
                    lemma_find_from_bounds(s, seq![']', ']'], i + 2);
                }
                let target = trimmed(before_bar(s.subrange(i + 2, j)));
                let rest = link_targets_from(s, j + 2);
                if target.len() > 0 {
                    seq![target] + rest
                } else {
                    rest
                }
            },
            None => Seq::empty(),
        }
    } else {
        link_targets_from(s, i + 1)
    }
}

/// A match that `find_from` reports lies at or after `i` and inside `s`.
pub proof fn lemma_find_from_bounds(s: Seq<char>, pat: Seq<char>, i: int)
    ensures
        match find_from(s, pat, i) {
            Some(j) => i <= j && j + pat.len() <= s.len(),
            None => true,
        },
    decreases s.len() + 1 - i,
{
    if i < 0 || i + pat.len() > s.len() {
    } else if s.subrange(i, i + pat.len()) == pat {
    } else {
        lemma_find_from_bounds(s, pat, i + 1);
    }
}

/// The first position of a title equal to `t`, the titles being in lowercase.
pub open spec fn title_index(lower_titles: Seq<Seq<char>>, t: Seq<char>) -> Option<int>
    decreases lower_titles.len(),
{
    if lower_titles.len() == 0 {
        None
    } else {
        match title_index(lower_titles.drop_last(), t) {
            Some(k) => Some(k),
            None => if lower_titles.last() == t {
                Some(lower_titles.len() - 1)
            } else {
                None
            },
        }
    }
}

/// The notes that note `i` links to, by position, in order of first link,
/// without repeats and without `i` itself; unresolved links are dropped.
pub open spec fn links_of(lower_titles: Seq<Seq<char>>, i: int, targets: Seq<Seq<char>>) -> Seq<usize>
    decreases targets.len(),
{
    if targets.len() == 0 {
        Seq::empty()
    } else {
        let prev = links_of(lower_titles, i, targets.drop_last());
        match title_index(lower_titles, lowercase_of(targets.last())) {
            Some(j) => if j != i && !prev.contains(j as usize) {
                prev.push(j as usize)
            } else {
                prev
            },
            None => prev,
        }
    }
}

/// A title's position lies among the titles.
pub proof fn lemma_title_index_in_range(lower_titles: Seq<Seq<char>>, t: Seq<char>)
    ensures
        match title_index(lower_titles, t) {
            Some(k) => 0 <= k < lower_titles.len(),
            None => true,
        },
    decreases lower_titles.len(),
{
    if lower_titles.len() > 0 {
        lemma_title_index_in_range(lower_titles.drop_last(), t);
    }
}

/// The links of a note form a simple edge list: each leads to a note that
/// exists, none leads back to the note itself, and none is listed twice.
pub proof fn lemma_links_are_simple(lower_titles: Seq<Seq<char>>, i: int, targets: Seq<Seq<char>>)
    requires
        lower_titles.len() <= usize::MAX,
    ensures
        forall|k: int| 0 <= k < links_of(lower_titles, i, targets).len() ==> {
            let j = #[trigger] links_of(lower_titles, i, targets)[k];
            j < lower_titles.len() && j != i
        },
        links_of(lower_titles, i, targets).no_duplicates(),
    decreases targets.len(),
{
    if targets.len() > 0 {
        lemma_links_are_simple(lower_titles, i, targets.drop_last());
        lemma_title_index_in_range(lower_titles, lowercase_of(targets.last()));
    }
}

/// Whether a note with the given tags and number of links makes it into the
/// graph: none of its tags is excluded, and it has enough links.
pub open spec fn note_kept(tags: Seq<Seq<char>>, excluded: Seq<Seq<char>>, link_count: nat, min_links: nat) -> bool {
    &&& forall|k: int| 0 <= k < tags.len() ==> !excluded.contains(#[trigger] tags[k])
    &&& link_count >= min_links
}

// ---------------------------------------------------------------------------
// Helpers on character vectors
// ---------------------------------------------------------------------------

fn starts_with_at(s: &Vec<char>, p: &Vec<char>, i: usize) -> (r: bool)
    requires
        i <= s.len(),
    ensures
        r == (p.len() <= s.len() - i && s@.subrange(i as int, i + p.len()) == p@),
{
    if p.len() > s.len() - i {
        return false;
    }
    let mut k: usize = 0;
    while k < p.len()
        invariant
            i <= s.len(),
            p.len() <= s.len() - i,
            k <= p.len(),
            forall|m: int| 0 <= m < k ==> s@[i + m] == p@[m],
        decreases p.len() - k,
    {
        if s[i + k] != p[k] {
            assert(s@.subrange(i as int, i + p.len())[k as int] != p@[k as int]);
            return false;
        }
        k = k + 1;
    }
    assert(s@.subrange(i as int, i + p.len()) =~= p@);
    true
}

fn sub_vec(s: &Vec<char>, from: usize, to: usize) -> (r: Vec<char>)
    requires
        from <= to <= s.len(),
    ensures
        r@ == s@.subrange(from as int, to as int),
{
    let mut r: Vec<char> = Vec::new();
    let mut k = from;
    while k < to
        invariant
            from <= k <= to <= s.len(),
            r@ == s@.subrange(from as int, k as int),
        decreases to - k,
    {
        r.push(s[k]);
        k = k + 1;
        assert(r@ =~= s@.subrange(from as int, k as int));
    }
    r
}

// ---------------------------------------------------------------------------
// Paths
// ---------------------------------------------------------------------------

/// Whether a found file is left out: the pattern search of `exclude_patterns`
/// found it (`excluded` holds what it found), or one of the patterns occurs
/// in its path as plain text.
pub open spec fn path_excluded(path: Seq<char>, excluded: Seq<Seq<char>>, patterns: Seq<Seq<char>>) -> bool {
    excluded.contains(path) || exists|k: int| 0 <= k < patterns.len() && has_substring(path, #[trigger] patterns[k])
}

/// The positions of the found files that become notes, in order: those not
/// left out, up to `max_nodes` of them (`0` for no limit), among the first
/// `n` files.
pub open spec fn selected_paths(
    paths: Seq<Seq<char>>,
    excluded: Seq<Seq<char>>,
    patterns: Seq<Seq<char>>,
    max_nodes: nat,
    n: int,
) -> Seq<usize>
    decreases n,
{
    if n <= 0 {
        Seq::empty()
    } else {
        let prev = selected_paths(paths, excluded, patterns, max_nodes, n - 1);
        if max_nodes > 0 && prev.len() >= max_nodes {
            prev
        } else if path_excluded(paths[n - 1], excluded, patterns) {
            prev
        } else {
            prev.push((n - 1) as usize)
        }
    }
}

/// Whether a found file is left out of the graph.
pub fn is_excluded(path: &str, excluded: &Vec<String>, patterns: &Vec<String>) -> (r: bool)
    ensures
        r == path_excluded(
            path@,
            excluded@.map_values(|x: String| x@),
            patterns@.map_values(|x: String| x@),
        ),
{
    let ghost ev = excluded@.map_values(|x: String| x@);
    let ghost pv = patterns@.map_values(|x: String| x@);
    let mut k: usize = 0;
    while k < excluded.len()
        invariant
            k <= excluded.len(),
            ev == excluded@.map_values(|x: String| x@),
            forall|q: int| 0 <= q < k ==> ev[q] != path@,
        decreases excluded.len() - k,
    {
        assert(ev[k as int] == excluded@[k as int]@);
        if str_eq(excluded[k].as_str(), path) {
            assert(ev.contains(path@));
            return true;
        }
        k = k + 1;
    }
    assert(!ev.contains(path@));
    let mut m: usize = 0;
    while m < patterns.len()
        invariant
            m <= patterns.len(),
            pv == patterns@.map_values(|x: String| x@),
            forall|q: int| 0 <= q < m ==> !has_substring(path@, #[trigger] pv[q]),
        decreases patterns.len() - m,
    {
        assert(pv[m as int] == patterns@[m as int]@);
        if contains(path, patterns[m].as_str()) {
            return true;
        }
        m = m + 1;
    }
    false
}

/// The positions of the found files that become notes, in order: every file
/// that is not left out, until `max_nodes` are taken (`0` for no limit).
pub fn select_note_paths(
    paths: &Vec<String>,
    excluded: &Vec<String>,
    patterns: &Vec<String>,
    max_nodes: usize,
) -> (r: Vec<usize>)
    ensures
        r@ == selected_paths(
            paths@.map_values(|x: String| x@),
            excluded@.map_values(|x: String| x@),
            patterns@.map_values(|x: String| x@),
            max_nodes as nat,
            paths.len() as int,
        ),
{
    let ghost pv = paths@.map_values(|x: String| x@);
    let ghost ev = excluded@.map_values(|x: String| x@);
    let ghost qv = patterns@.map_values(|x: String| x@);
    let mut r: Vec<usize> = Vec::new();
    let mut i: usize = 0;
    while i < paths.len()
        invariant
            i <= paths.len(),
            pv == paths@.map_values(|x: String| x@),
            ev == excluded@.map_values(|x: String| x@),
            qv == patterns@.map_values(|x: String| x@),
            r@ == selected_paths(pv, ev, qv, max_nodes as nat, i as int),
            r.len() <= i,
        decreases paths.len() - i,
    {
        assert(pv[i as int] == paths@[i as int]@);
        if max_nodes > 0 && r.len() >= max_nodes {
        } else if is_excluded(paths[i].as_str(), excluded, patterns) {
        } else {
            r.push(i);
        }
        i = i + 1;
    }
    r
}

/// No more than `max_nodes` files are taken, when there is a limit, and none
/// of the files taken is left out.
pub proof fn lemma_selection_respects_filters(
    paths: Seq<Seq<char>>,
    excluded: Seq<Seq<char>>,
    patterns: Seq<Seq<char>>,
    max_nodes: nat,
    n: int,
)
    requires
        0 <= n <= paths.len(),
        paths.len() <= usize::MAX,
    ensures
        max_nodes > 0 ==> selected_paths(paths, excluded, patterns, max_nodes, n).len() <= max_nodes,
        forall|k: int|
            0 <= k < selected_paths(paths, excluded, patterns, max_nodes, n).len() ==> {
                let j = #[trigger] selected_paths(paths, excluded, patterns, max_nodes, n)[k];
                j < n && !path_excluded(paths[j as int], excluded, patterns)
            },
    decreases n,
{
    if n > 0 {
        lemma_selection_respects_filters(paths, excluded, patterns, max_nodes, n - 1);
        let prev = selected_paths(paths, excluded, patterns, max_nodes, n - 1);
        let cur = selected_paths(paths, excluded, patterns, max_nodes, n);
        assert forall|k: int| 0 <= k < cur.len() implies ({
            let j = #[trigger] cur[k];
            j < n && !path_excluded(paths[j as int], excluded, patterns)
        }) by {
            if k < prev.len() {
                assert(cur[k] == prev[k]);
            }
        }
    }
}

// ---------------------------------------------------------------------------
// Front matter, title and tags
// ---------------------------------------------------------------------------

/// The lines of the front matter block of `lines`, if any.
fn front_matter_lines(lines: &Vec<String>) -> (r: Vec<String>)
    ensures
        r@.map_values(|x: String| x@) == front_matter(lines@.map_values(|x: String| x@)),
{
    let ghost ls = lines@.map_values(|x: String| x@);
    let fence_text = String::from_str("---");
    proof {
        reveal_strlit("---");
        assert(fence_text@ =~= fence());
    }
    if lines.len() == 0 {
        return Vec::new();
    }
    assert(ls[0] == lines@[0]@);
    if !(lines[0] == fence_text) {
        return Vec::new();
    }
    let mut k: usize = 1;
    while k < lines.len()
        invariant
            1 <= k <= lines.len(),
            ls == lines@.map_values(|x: String| x@),
            fence_text@ == fence(),
            ls.len() > 0 && ls[0] == fence(),
            closing_fence(ls, 1) == closing_fence(ls, k as int),
        decreases lines.len() - k,
    {
        assert(ls[k as int] == lines@[k as int]@);
        if lines[k] == fence_text {
            let mut out: Vec<String> = Vec::new();
            let mut m: usize = 1;
            while m < k
                invariant
                    1 <= m <= k < lines.len(),
                    ls == lines@.map_values(|x: String| x@),
                    out@.map_values(|x: String| x@) == ls.subrange(1, m as int),
                decreases k - m,
            {
                let ghost before = out@;
                out.push(lines[m].clone());
                assert(out@.map_values(|x: String| x@) =~= before.map_values(|x: String| x@).push(ls[m as int]));
                m = m + 1;
                assert(out@.map_values(|x: String| x@) =~= ls.subrange(1, m as int));
            }
            return out;
        }
        k = k + 1;
    }
    assert(closing_fence(ls, k as int) is None);
    Vec::new()
}

/// The value of the first `key:` line among `lines`, trimmed.
fn field_of(lines: &Vec<String>, key: &str) -> (r: Option<String>)
    ensures
        match r {
            Some(v) => field_value(lines@.map_values(|x: String| x@), key@) == Some(v@),
            None => field_value(lines@.map_values(|x: String| x@), key@) is None,
        },
{
    let ghost ls = lines@.map_values(|x: String| x@);
    let mut kc = chars_of(key);
    kc.push(':');
    let mut k: usize = 0;
    assert(ls.subrange(0, ls.len() as int) =~= ls);
    while k < lines.len()
        invariant
            k <= lines.len(),
            ls == lines@.map_values(|x: String| x@),
            kc@ == key@.push(':'),
            field_value(ls, key@) == field_value(ls.subrange(k as int, ls.len() as int), key@),
        decreases lines.len() - k,
    {
        let ghost rest = ls.subrange(k as int, ls.len() as int);
        assert(rest[0] == ls[k as int]);
        assert(rest.subrange(1, rest.len() as int) =~= ls.subrange(k + 1, ls.len() as int));
        let lc = chars_of(lines[k].as_str());
        if starts_with_at(&lc, &kc, 0) {
            let tail = sub_vec(&lc, kc.len(), lc.len());
            let t = string_of(tail.as_slice());
            return Some(trim(t.as_str()));
        }
        k = k + 1;
    }
    None
}

/// The text of the first `# ` heading among `lines`, trimmed.
fn heading_of(lines: &Vec<String>) -> (r: Option<String>)
    ensures
        match r {
            Some(v) => first_heading(lines@.map_values(|x: String| x@)) == Some(v@),
            None => first_heading(lines@.map_values(|x: String| x@)) is None,
        },
{
    let ghost ls = lines@.map_values(|x: String| x@);
    let hash: Vec<char> = vec!['#', ' '];
    assert(hash@ =~= seq!['#', ' ']);
    let mut k: usize = 0;
    assert(ls.subrange(0, ls.len() as int) =~= ls);
    while k < lines.len()
        invariant
            k <= lines.len(),
            ls == lines@.map_values(|x: String| x@),
            hash@ == seq!['#', ' '],
            first_heading(ls) == first_heading(ls.subrange(k as int, ls.len() as int)),
        decreases lines.len() - k,
    {
        let ghost rest = ls.subrange(k as int, ls.len() as int);
        assert(rest[0] == ls[k as int]);
        assert(rest.subrange(1, rest.len() as int) =~= ls.subrange(k + 1, ls.len() as int));
        let lc = chars_of(lines[k].as_str());
        if starts_with_at(&lc, &hash, 0) {
            let tail = sub_vec(&lc, 2, lc.len());
            let t = string_of(tail.as_slice());
            return Some(trim(t.as_str()));
        }
        k = k + 1;
    }
    None
}

/// `v` without the quotes around it, if it has them.
fn unquote(v: &str) -> (r: String)
    ensures
        r@ == unquoted(v@),
{
    let c = chars_of(v);
    let n = c.len();
    if n >= 2 && (c[0] == '"' || c[0] == '\'') && c[n - 1] == c[0] {
        let inner = sub_vec(&c, 1, n - 1);
        string_of(inner.as_slice())
    } else {
        String::from_str(v)
    }
}

/// The title of a note: its front matter's `title` without quotes, else its
/// first `# ` heading, else `fallback`.
pub fn note_title(text: &str, fallback: &str) -> (r: String)
    ensures
        r@ == title_of(text@, fallback@),
{
    let lines = split_trimmed(text, '\n');
    let fm = front_matter_lines(&lines);
    proof {
        reveal_strlit("title");
    }
    let from_field = match field_of(&fm, "title") {
        Some(v) => unquote(v.as_str()),
        None => String::new(),
    };
    if from_field.as_str().unicode_len() > 0 {
        return from_field;
    }
    match heading_of(&lines) {
        Some(h) => h,
        None => String::from_str(fallback),
    }
}

/// The tags of a note: the items of its front matter's `tags` list, each
/// trimmed and unquoted, empty items dropped.
pub fn note_tags(text: &str) -> (r: Vec<String>)
    ensures
        r@.map_values(|x: String| x@) == tags_of(text@),
{
    let lines = split_trimmed(text, '\n');
    let fm = front_matter_lines(&lines);
    let value = match field_of(&fm, "tags") {
        Some(v) => v,
        None => return Vec::new(),
    };
    let c = chars_of(value.as_str());
    let n = c.len();
    let inner: Vec<char> = if n >= 2 && c[0] == '[' && c[n - 1] == ']' {
        sub_vec(&c, 1, n - 1)
    } else {
        c
    };
    assert(inner@ == unbracketed(value@));
    let inner_text = string_of(inner.as_slice());
    let pieces = split_trimmed(inner_text.as_str(), ',');
    let ghost raw = split_on(unbracketed(value@), ',');
    assert(pieces@.map_values(|x: String| x@) == raw.map_values(|p: Seq<char>| trimmed(p)));
    assert(pieces@.map_values(|x: String| x@).len() == raw.map_values(|p: Seq<char>| trimmed(p)).len());
    assert forall|q: int| 0 <= q < raw.len() implies #[trigger] pieces@[q]@ == trimmed(raw[q]) by {
        assert(pieces@.map_values(|x: String| x@)[q] == raw.map_values(|p: Seq<char>| trimmed(p))[q]);
    }
    let mut out: Vec<String> = Vec::new();
    let mut k: usize = 0;
    while k < pieces.len()
        invariant
            k <= pieces.len(),
            pieces@.len() == raw.len(),
            forall|q: int| 0 <= q < raw.len() ==> #[trigger] pieces@[q]@ == trimmed(raw[q]),
            out@.map_values(|x: String| x@) == tag_items(raw.take(k as int)),
        decreases pieces.len() - k,
    {
        assert(pieces@.map_values(|x: String| x@)[k as int] == pieces@[k as int]@);
        let t = unquote(pieces[k].as_str());
        assert(raw.take(k + 1).drop_last() =~= raw.take(k as int));
        let ghost before = out@;
        if t.as_str().unicode_len() > 0 {
            out.push(t);
            assert(out@.map_values(|x: String| x@) =~= before.map_values(|x: String| x@).push(t@));
        }
        k = k + 1;
    }
    assert(raw.take(k as int) =~= raw);
    out
}

// ---------------------------------------------------------------------------
// Links
// ---------------------------------------------------------------------------

/// Where `]]` first occurs in `s` at or after `i`.
fn find_close(s: &Vec<char>, i: usize) -> (r: Option<usize>)
    requires
        i <= s.len(),
    ensures
        match r {
            Some(j) => find_from(s@, seq![']', ']'], i as int) == Some(j as int),
            None => find_from(s@, seq![']', ']'], i as int) is None,
        },
{
    let pat: Vec<char> = vec![']', ']'];
    assert(pat@ =~= seq![']', ']']);
    let mut k = i;
    while k < s.len()
        invariant
            i <= k <= s.len(),
            pat@ == seq![']', ']'],
            find_from(s@, pat@, i as int) == find_from(s@, pat@, k as int),
        decreases s.len() - k,
    {
        if starts_with_at(s, &pat, k) {
            return Some(k);
        }
        k = k + 1;
    }
    None
}

/// The part of a link's inside before its `|`, if any.
fn before_bar_vec(inner: &Vec<char>) -> (r: Vec<char>)
    ensures
        r@ == before_bar(inner@),
{
    let mut k: usize = 0;
    let mut out: Vec<char> = Vec::new();
    assert(inner@.subrange(0, inner@.len() as int) =~= inner@);
    assert(out@ + before_bar(inner@) =~= before_bar(inner@));
    while k < inner.len()
        invariant
            k <= inner.len(),
            out@ + before_bar(inner@.subrange(k as int, inner@.len() as int)) == before_bar(inner@),
        decreases inner.len() - k,
    {
        let ghost rest = inner@.subrange(k as int, inner@.len() as int);
        assert(rest.subrange(1, rest.len() as int) =~= inner@.subrange(k + 1, inner@.len() as int));
        if inner[k] == '|' {
            assert(out@ + Seq::<char>::empty() =~= out@);
            return out;
        }
        let ghost before = out@;
        out.push(inner[k]);
        assert(before + (seq![inner@[k as int]] + before_bar(inner@.subrange(k + 1, inner@.len() as int)))
            =~= out@ + before_bar(inner@.subrange(k + 1, inner@.len() as int)));
        k = k + 1;
    }
    assert(inner@.subrange(k as int, inner@.len() as int) =~= Seq::<char>::empty());
    assert(out@ + Seq::<char>::empty() =~= out@);
    out
}

/// The targets of the links in a note's text, in order: for each `[[...]]`,
/// the text before any `|`, trimmed; empty targets dropped.
pub fn wikilink_targets(text: &str) -> (r: Vec<String>)
    ensures
        r@.map_values(|x: String| x@) == link_targets_from(text@, 0),
{
    let s = chars_of(text);
    let mut out: Vec<String> = Vec::new();
    let mut i: usize = 0;
    assert(out@.map_values(|x: String| x@) + link_targets_from(s@, 0) =~= link_targets_from(s@, 0));
    while i < s.len()
        invariant
            s@ == text@,
            i <= s.len(),
            out@.map_values(|x: String| x@) + link_targets_from(s@, i as int) == link_targets_from(s@, 0),
        decreases s.len() - i,
    {
        if i + 1 < s.len() && s[i] == '[' && s[i + 1] == '[' {
            match find_close(&s, i + 2) {
                Some(j) => {
                    proof {
                        lemma_find_from_bounds(s@, seq![']', ']'], i + 2);
                    }
                    let inner = sub_vec(&s, i + 2, j);
                    let target_chars = before_bar_vec(&inner);
                    let ts = string_of(target_chars.as_slice());
                    let target = trim(ts.as_str());
                    let ghost before = out@;
                    let ghost rest = link_targets_from(s@, j + 2);
                    if target.as_str().unicode_len() > 0 {
                        out.push(target);
                        assert(out@.map_values(|x: String| x@) =~= before.map_values(|x: String| x@).push(target@));
                        assert(before.map_values(|x: String| x@) + (seq![target@] + rest)
                            =~= out@.map_values(|x: String| x@) + rest);
                    }
                    i = j + 2;
                },
                None => {
                    assert(out@.map_values(|x: String| x@) + Seq::<Seq<char>>::empty()
                        =~= out@.map_values(|x: String| x@));
                    return out;
                },
            }
        } else {
            i = i + 1;
        }
    }
    assert(link_targets_from(s@, i as int) =~= Seq::<Seq<char>>::empty());
    assert(out@.map_values(|x: String| x@) + Seq::<Seq<char>>::empty() =~= out@.map_values(|x: String| x@));
    out
}

/// The first position of a lowercase title equal to `t`.
fn find_title(lower_titles: &Vec<String>, t: &String) -> (r: Option<usize>)
    ensures
        match r {
            Some(k) => title_index(lower_titles@.map_values(|x: String| x@), t@) == Some(k as int),
            None => title_index(lower_titles@.map_values(|x: String| x@), t@) is None,
        },
{
    let ghost lt = lower_titles@.map_values(|x: String| x@);
    let mut k: usize = 0;
    while k < lower_titles.len()
        invariant
            k <= lower_titles.len(),
            lt == lower_titles@.map_values(|x: String| x@),
            title_index(lt.take(k as int), t@) is None,
        decreases lower_titles.len() - k,
    {
        assert(lt.take(k + 1).drop_last() =~= lt.take(k as int));
        if lower_titles[k] == *t {
            proof {
                lemma_title_index_prefix(lt, t@, k as int + 1, k as int);
            }
            return Some(k);
        }
        k = k + 1;
    }
    assert(lt.take(k as int) =~= lt);
    None
}

/// A title found among the first `n` titles is found at the same place among
/// all of them.
proof fn lemma_title_index_prefix(lt: Seq<Seq<char>>, t: Seq<char>, n: int, k: int)
    requires
        0 <= n <= lt.len(),
        title_index(lt.take(n), t) == Some(k),
    ensures
        title_index(lt, t) == Some(k),
    decreases lt.len() - n,
{
    if n < lt.len() {
        assert(lt.take(n + 1).drop_last() =~= lt.take(n));
        lemma_title_index_prefix(lt, t, n + 1, k);
    } else {
        assert(lt.take(n) =~= lt);
    }
}

/// For each note, the notes its links lead to, by position: a link leads
/// to the first note whose title equals its target in any letter case;
/// each note appears once, in order of its first link, and a note's links to
/// itself or to no note are dropped.
pub fn resolve_links(titles: &Vec<String>, targets: &Vec<Vec<String>>) -> (r: Vec<Vec<usize>>)
    requires
        titles.len() == targets.len(),
    ensures
        r.len() == titles.len(),
        forall|i: int|
            0 <= i < r.len() ==> #[trigger] r@[i]@ == links_of(
                titles@.map_values(|x: String| lowercase_of(x@)),
                i,
                targets@[i]@.map_values(|x: String| x@),
            ),
{
    let ghost lt = titles@.map_values(|x: String| lowercase_of(x@));
    let mut lower: Vec<String> = Vec::new();
    let mut k: usize = 0;
    while k < titles.len()
        invariant
            k <= titles.len(),
            lt == titles@.map_values(|x: String| lowercase_of(x@)),
            lower@.map_values(|x: String| x@) == lt.take(k as int),
        decreases titles.len() - k,
    {
        let l = lowercase(titles[k].as_str());
        let ghost before = lower@;
        lower.push(l);
        assert(lower@.map_values(|x: String| x@) =~= before.map_values(|x: String| x@).push(l@));
        assert(lt.take(k + 1) =~= lt.take(k as int).push(lt[k as int]));
        k = k + 1;
    }
    assert(lt.take(k as int) =~= lt);
    let mut result: Vec<Vec<usize>> = Vec::new();
    let mut i: usize = 0;
    while i < titles.len()
        invariant
            i <= titles.len(),
            titles.len() == targets.len(),
            lt == titles@.map_values(|x: String| lowercase_of(x@)),
            lower@.map_values(|x: String| x@) == lt,
            result.len() == i,
            forall|q: int|
                0 <= q < i ==> #[trigger] result@[q]@ == links_of(lt, q, targets@[q]@.map_values(|x: String| x@)),
        decreases titles.len() - i,
    {
        let ts = &targets[i];
        let ghost tv = ts@.map_values(|x: String| x@);
        let mut out: Vec<usize> = Vec::new();
        let mut m: usize = 0;
        while m < ts.len()
            invariant
                m <= ts.len(),
                i < titles.len(),
                tv == ts@.map_values(|x: String| x@),
                lower@.map_values(|x: String| x@) == lt,
                out@ == links_of(lt, i as int, tv.take(m as int)),
            decreases ts.len() - m,
        {
            assert(tv.take(m + 1).drop_last() =~= tv.take(m as int));
            assert(tv.take(m + 1).last() == ts@[m as int]@);
            let t = lowercase(ts[m].as_str());
            match find_title(&lower, &t) {
                Some(j) => {
                    let mut seen = false;
                    let mut q: usize = 0;
                    while q < out.len()
                        invariant
                            q <= out.len(),
                            seen == (exists|z: int| 0 <= z < q && out@[z] == j),
                        decreases out.len() - q,
                    {
                        if out[q] == j {
                            seen = true;
                        }
                        q = q + 1;
                    }
                    assert(seen == out@.contains(j));
                    if j != i && !seen {
                        out.push(j);
                    }
                },
                None => {},
            }
            m = m + 1;
        }
        assert(tv.take(m as int) =~= tv);
        result.push(out);
        i = i + 1;
    }
    result
}

/// When some title equals `t`, the search finds the first such title, at or
/// before it.
proof fn lemma_title_index_finds(lower_titles: Seq<Seq<char>>, t: Seq<char>, j: int)
    requires
        0 <= j < lower_titles.len(),
        lower_titles[j] == t,
    ensures
        title_index(lower_titles, t) matches Some(k) && 0 <= k <= j && lower_titles[k] == t,
    decreases lower_titles.len(),
{
    let prefix = lower_titles.drop_last();
    if j < lower_titles.len() - 1 {
        lemma_title_index_finds(prefix, t, j);
    } else {
        match title_index(prefix, t) {
            Some(k) => {
                lemma_title_index_found(prefix, t);
            },
            None => {},
        }
    }
}

/// A title the search reports equals the one searched for.
proof fn lemma_title_index_found(lower_titles: Seq<Seq<char>>, t: Seq<char>)
    ensures
        title_index(lower_titles, t) matches Some(k) ==> 0 <= k < lower_titles.len() && lower_titles[k] == t,
    decreases lower_titles.len(),
{
    if lower_titles.len() > 0 {
        lemma_title_index_found(lower_titles.drop_last(), t);
    }
}

/// The links of a note keep every note they held after fewer targets.
proof fn lemma_links_grow(lower_titles: Seq<Seq<char>>, i: int, targets: Seq<Seq<char>>, n: int, k: usize)
    requires
        0 <= n <= targets.len(),
        links_of(lower_titles, i, targets.take(n)).contains(k),
    ensures
        links_of(lower_titles, i, targets).contains(k),
    decreases targets.len() - n,
{
    if n < targets.len() {
        assert(targets.take(n + 1).drop_last() =~= targets.take(n));
        let prev = links_of(lower_titles, i, targets.take(n));
        let next = links_of(lower_titles, i, targets.take(n + 1));
        let w = choose|w: int| 0 <= w < prev.len() && prev[w] == k;
        assert(next == prev || next == prev.push(next.last()));
        if next != prev {
            assert(next[w] == k);
        }
        lemma_links_grow(lower_titles, i, targets, n + 1, k);
    } else {
        assert(targets.take(n) =~= targets);
    }
}

/// A target that resolves to another note puts that note among the links.
proof fn lemma_resolved_target_kept(lower_titles: Seq<Seq<char>>, i: int, targets: Seq<Seq<char>>, m: int, k: int)
    requires
        0 <= m < targets.len(),
        title_index(lower_titles, lowercase_of(targets[m])) == Some(k),
        k != i,
    ensures
        links_of(lower_titles, i, targets).contains(k as usize),
{
    let upto = targets.take(m + 1);
    assert(upto.drop_last() =~= targets.take(m));
    assert(upto.last() == targets[m]);
    let prev = links_of(lower_titles, i, targets.take(m));
    let here = links_of(lower_titles, i, upto);
    if prev.contains(k as usize) {
        assert(here == prev);
    } else {
        assert(here == prev.push(k as usize));
        assert(here[prev.len() as int] == k as usize);
    }
    lemma_links_grow(lower_titles, i, targets, m + 1, k as usize);
}

/// A link written exactly as a note's title is never dropped: it leads to
/// the first note with that title in any letter case, which is among the
/// linking note's links unless it is that note itself.
pub proof fn lemma_link_to_a_title_is_kept(titles: Seq<Seq<char>>, i: int, targets: Seq<Seq<char>>, m: int, j: int)
    requires
        titles.len() <= usize::MAX,
        0 <= m < targets.len(),
        0 <= j < titles.len(),
        targets[m] == titles[j],
    ensures
        ({
            let lower_titles = titles.map_values(|t: Seq<char>| lowercase_of(t));
            exists|k: int|
                0 <= k <= j && lower_titles[k] == lower_titles[j] && (k != i ==> links_of(
                    lower_titles,
                    i,
                    targets,
                ).contains(k as usize))
        }),
{
    let lower_titles = titles.map_values(|t: Seq<char>| lowercase_of(t));
    assert(lower_titles[j] == lowercase_of(targets[m]));
    lemma_title_index_finds(lower_titles, lowercase_of(targets[m]), j);
    let k = title_index(lower_titles, lowercase_of(targets[m]))->0;
    if k != i {
        lemma_resolved_target_kept(lower_titles, i, targets, m, k);
    }
    assert(0 <= k <= j && lower_titles[k] == lower_titles[j]);
}

/// How many times `k` occurs in `s`.
pub open spec fn count_of(s: Seq<usize>, k: usize) -> nat
    decreases s.len(),
{
    if s.len() == 0 {
        0
    } else {
        count_of(s.drop_last(), k) + if s.last() == k {
            1nat
        } else {
            0nat
        }
    }
}

/// How many of the links of the first `n` notes lead to note `k`.
pub open spec fn links_into(links: Seq<Seq<usize>>, k: usize, n: int) -> nat
    decreases n,
{
    if n <= 0 {
        0
    } else {
        links_into(links, k, n - 1) + count_of(links[n - 1], k)
    }
}

/// How many links the first `n` notes have.
pub open spec fn links_total(links: Seq<Seq<usize>>, n: int) -> nat
    decreases n,
{
    if n <= 0 {
        0
    } else {
        links_total(links, n - 1) + links[n - 1].len()
    }
}

/// The connections of note `k`: the links it has and the links that lead
/// to it, each link counting once at each of its ends.
pub open spec fn degree_of(links: Seq<Seq<usize>>, k: int) -> nat {
    links[k].len() + links_into(links, k as usize, links.len() as int)
}

proof fn lemma_count_of_bound(s: Seq<usize>, k: usize)
    ensures
        count_of(s, k) <= s.len(),
    decreases s.len(),
{
    if s.len() > 0 {
        lemma_count_of_bound(s.drop_last(), k);
    }
}

proof fn lemma_links_into_bound(links: Seq<Seq<usize>>, k: usize, n: int)
    ensures
        links_into(links, k, n) <= links_total(links, n),
    decreases n,
{
    if n > 0 {
        lemma_links_into_bound(links, k, n - 1);
        lemma_count_of_bound(links[n - 1], k);
    }
}

proof fn lemma_links_total_grows(links: Seq<Seq<usize>>, m: int, n: int)
    requires
        m <= n,
    ensures
        links_total(links, m) <= links_total(links, n),
    decreases n - m,
{
    if m < n {
        lemma_links_total_grows(links, m, n - 1);
    }
}

proof fn lemma_own_links_bound(links: Seq<Seq<usize>>, k: int, n: int)
    requires
        0 <= k < n,
    ensures
        links[k].len() <= links_total(links, n),
{
    lemma_links_total_grows(links, k + 1, n);
}

/// How many times `k` occurs in `s`.
fn count_in(s: &Vec<usize>, k: usize) -> (r: usize)
    ensures
        r == count_of(s@, k),
{
    let mut r: usize = 0;
    let mut i: usize = 0;
    while i < s.len()
        invariant
            i <= s.len(),
            r == count_of(s@.take(i as int), k),
            r <= i,
        decreases s.len() - i,
    {
        assert(s@.take(i + 1).drop_last() =~= s@.take(i as int));
        if s[i] == k {
            r = r + 1;
        }
        i = i + 1;
    }
    assert(s@.take(i as int) =~= s@);
    r
}

/// The connections of each note: the links it has plus the links that lead
/// to it.
pub fn link_counts(links: &Vec<Vec<usize>>) -> (r: Vec<usize>)
    requires
        2 * links_total(links@.map_values(|v: Vec<usize>| v@), links.len() as int) <= usize::MAX,
    ensures
        r.len() == links.len(),
        forall|k: int| 0 <= k < r.len() ==> #[trigger] r@[k] == degree_of(links@.map_values(|v: Vec<usize>| v@), k),
{
    let ghost lv = links@.map_values(|v: Vec<usize>| v@);
    let n = links.len();
    let mut r: Vec<usize> = Vec::new();
    let mut k: usize = 0;
    while k < n
        invariant
            n == links.len(),
            k <= n,
            lv == links@.map_values(|v: Vec<usize>| v@),
            2 * links_total(lv, n as int) <= usize::MAX,
            r.len() == k,
            forall|q: int| 0 <= q < k ==> #[trigger] r@[q] == degree_of(lv, q),
        decreases n - k,
    {
        let mut incoming: usize = 0;
        let mut i: usize = 0;
        while i < n
            invariant
                n == links.len(),
                i <= n,
                lv == links@.map_values(|v: Vec<usize>| v@),
                2 * links_total(lv, n as int) <= usize::MAX,
                incoming == links_into(lv, k, i as int),
            decreases n - i,
        {
            assert(lv[i as int] == links@[i as int]@);
            let c = count_in(&links[i], k);
            proof {
                lemma_links_into_bound(lv, k, i + 1);
                lemma_links_total_grows(lv, i + 1, n as int);
            }
            incoming = incoming + c;
            i = i + 1;
        }
        proof {
            lemma_own_links_bound(lv, k as int, n as int);
            lemma_links_into_bound(lv, k, n as int);
        }
        assert(lv[k as int] == links@[k as int]@);
        let own = links[k].len();
        r.push(own + incoming);
        k = k + 1;
    }
    r
}

/// The connections of the first `m` notes, added up.
pub open spec fn degree_sum(links: Seq<Seq<usize>>, m: int) -> nat
    decreases m,
{
    if m <= 0 {
        0
    } else {
        degree_sum(links, m - 1) + degree_of(links, m - 1)
    }
}

/// How many entries of `s` name one of the notes `0 .. m`.
spec fn count_below(s: Seq<usize>, m: int) -> nat
    decreases m,
{
    if m <= 0 {
        0
    } else {
        count_below(s, m - 1) + count_of(s, (m - 1) as usize)
    }
}

/// Whether `x` is one of `0 .. m`, counted as one or zero.
spec fn hits(x: usize, m: int) -> nat
    decreases m,
{
    if m <= 0 {
        0
    } else {
        hits(x, m - 1) + if x == (m - 1) as usize {
            1nat
        } else {
            0nat
        }
    }
}

/// How many links lead to one of the notes `0 .. m`, among the links of the
/// first `n` notes.
spec fn links_into_below(links: Seq<Seq<usize>>, m: int, n: int) -> nat
    decreases m,
{
    if m <= 0 {
        0
    } else {
        links_into_below(links, m - 1, n) + links_into(links, (m - 1) as usize, n)
    }
}

/// `count_below` of each of the first `n` lists, added up.
spec fn rows_below(links: Seq<Seq<usize>>, m: int, n: int) -> nat
    decreases n,
{
    if n <= 0 {
        0
    } else {
        rows_below(links, m, n - 1) + count_below(links[n - 1], m)
    }
}

proof fn lemma_hits(x: usize, m: int)
    requires
        m <= usize::MAX + 1,
    ensures
        hits(x, m) == if 0 <= x < m {
            1nat
        } else {
            0nat
        },
    decreases m,
{
    if m > 0 {
        lemma_hits(x, m - 1);
    }
}

proof fn lemma_count_below_last(s: Seq<usize>, m: int)
    requires
        s.len() > 0,
    ensures
        count_below(s, m) == count_below(s.drop_last(), m) + hits(s.last(), m),
    decreases m,
{
    if m > 0 {
        lemma_count_below_last(s, m - 1);
    }
}

proof fn lemma_count_below_all(s: Seq<usize>, m: int)
    requires
        m <= usize::MAX + 1,
        forall|j: int| 0 <= j < s.len() ==> s[j] < m,
    ensures
        count_below(s, m) == s.len(),
    decreases s.len(),
{
    if s.len() == 0 {
        assert(count_below(s, m) == 0) by {
            lemma_count_below_empty(s, m);
        }
    } else {
        lemma_count_below_last(s, m);
        lemma_count_below_all(s.drop_last(), m);
        lemma_hits(s.last(), m);
    }
}

proof fn lemma_count_below_empty(s: Seq<usize>, m: int)
    requires
        s.len() == 0,
    ensures
        count_below(s, m) == 0,
    decreases m,
{
    if m > 0 {
        lemma_count_below_empty(s, m - 1);
    }
}

proof fn lemma_rows_below_step(links: Seq<Seq<usize>>, m: int, n: int)
    requires
        m > 0,
    ensures
        rows_below(links, m, n) == rows_below(links, m - 1, n) + links_into(links, (m - 1) as usize, n),
    decreases n,
{
    if n > 0 {
        lemma_rows_below_step(links, m, n - 1);
    }
}

proof fn lemma_into_below_rows(links: Seq<Seq<usize>>, m: int, n: int)
    ensures
        links_into_below(links, m, n) == rows_below(links, m, n),
    decreases m,
{
    if m > 0 {
        lemma_into_below_rows(links, m - 1, n);
        lemma_rows_below_step(links, m, n);
    } else {
        lemma_rows_below_zero(links, m, n);
    }
}

proof fn lemma_rows_below_zero(links: Seq<Seq<usize>>, m: int, n: int)
    requires
        m <= 0,
    ensures
        rows_below(links, m, n) == 0,
    decreases n,
{
    if n > 0 {
        lemma_rows_below_zero(links, m, n - 1);
    }
}

proof fn lemma_rows_below_total(links: Seq<Seq<usize>>, m: int, n: int)
    requires
        0 <= n <= links.len(),
        m <= usize::MAX + 1,
        forall|i: int, j: int| 0 <= i < links.len() && 0 <= j < links[i].len() ==> links[i][j] < m,
    ensures
        rows_below(links, m, n) == links_total(links, n),
    decreases n,
{
    if n > 0 {
        lemma_rows_below_total(links, m, n - 1);
        lemma_count_below_all(links[n - 1], m);
    }
}

proof fn lemma_degree_sum_split(links: Seq<Seq<usize>>, m: int)
    requires
        m <= links.len(),
    ensures
        degree_sum(links, m) == links_total(links, m) + links_into_below(links, m, links.len() as int),
    decreases m,
{
    if m > 0 {
        lemma_degree_sum_split(links, m - 1);
    }
}

/// Every link adds one connection at each of its ends: when each link leads
/// to one of the notes, the connections of all notes add up to twice the
/// number of links.
pub proof fn lemma_connections_count_links_twice(links: Seq<Seq<usize>>)
    requires
        links.len() <= usize::MAX,
        forall|i: int, j: int| 0 <= i < links.len() && 0 <= j < links[i].len() ==> links[i][j] < links.len(),
    ensures
        degree_sum(links, links.len() as int) == 2 * links_total(links, links.len() as int),
{
    let n = links.len() as int;
    lemma_degree_sum_split(links, n);
    lemma_into_below_rows(links, n, n);
    lemma_rows_below_total(links, n, n);
}

/// Whether a note makes it into the graph: none of its tags is excluded,
/// and it has at least `min_links` links.
pub fn keep_note(tags: &Vec<String>, exclude_tags: &Vec<String>, link_count: usize, min_links: usize) -> (r: bool)
    ensures
        r == note_kept(
            tags@.map_values(|x: String| x@),
            exclude_tags@.map_values(|x: String| x@),
            link_count as nat,
            min_links as nat,
        ),
{
    let ghost tv = tags@.map_values(|x: String| x@);
    let ghost ev = exclude_tags@.map_values(|x: String| x@);
    let mut k: usize = 0;
    while k < tags.len()
        invariant
            k <= tags.len(),
            tv == tags@.map_values(|x: String| x@),
            ev == exclude_tags@.map_values(|x: String| x@),
            forall|q: int| 0 <= q < k ==> !ev.contains(#[trigger] tv[q]),
        decreases tags.len() - k,
    {
        let mut e: usize = 0;
        while e < exclude_tags.len()
            invariant
                k < tags.len(),
                e <= exclude_tags.len(),
                tv == tags@.map_values(|x: String| x@),
                ev == exclude_tags@.map_values(|x: String| x@),
                forall|q: int| 0 <= q < e ==> ev[q] != tv[k as int],
            decreases exclude_tags.len() - e,
        {
            if exclude_tags[e] == tags[k] {
                assert(ev[e as int] == tv[k as int]);
                assert(ev.contains(tv[k as int]));
                return false;
            }
            e = e + 1;
        }
        assert(!ev.contains(tv[k as int]));
        k = k + 1;
    }
    link_count >= min_links
}

// ---------------------------------------------------------------------------
// Laws of note reading and filtering
// ---------------------------------------------------------------------------

/// A front matter field is found on whichever line of the block holds it:
/// when line `j` is the first to begin with `key:`, the field's value is the
/// rest of that line, trimmed.
pub proof fn lemma_field_found_on_any_line(lines: Seq<Seq<char>>, key: Seq<char>, j: int)
    requires
        0 <= j < lines.len(),
        key.len() + 1 <= lines[j].len(),
        lines[j].subrange(0, key.len() as int) == key,
        lines[j][key.len() as int] == ':',
        forall|i: int|
            0 <= i < j ==> !(key.len() + 1 <= lines[i].len() && #[trigger] lines[i].subrange(0, key.len() as int)
                == key && lines[i][key.len() as int] == ':'),
    ensures
        field_value(lines, key) == Some(trimmed(lines[j].subrange(key.len() as int + 1, lines[j].len() as int))),
    decreases j,
{
    let p = key.push(':');
    if j == 0 {
        assert(lines[0].subrange(0, p.len() as int) =~= p);
    } else {
        if starts_with(lines[0], p) {
            assert(lines[0].subrange(0, key.len() as int) =~= lines[0].subrange(0, p.len() as int).subrange(
                0,
                key.len() as int,
            ));
            assert(lines[0].subrange(0, p.len() as int)[key.len() as int] == lines[0][key.len() as int]);
            assert(p.subrange(0, key.len() as int) =~= key);
            assert(p[key.len() as int] == ':');
            assert(lines[0].subrange(0, key.len() as int) == key);
            assert(false);
        }
        let rest = lines.subrange(1, lines.len() as int);
        assert forall|i: int|
            0 <= i < j - 1 implies !(key.len() + 1 <= rest[i].len() && #[trigger] rest[i].subrange(0, key.len() as int)
                == key && rest[i][key.len() as int] == ':') by {
            assert(rest[i] == lines[i + 1]);
        }
        lemma_field_found_on_any_line(rest, key, j - 1);
    }
}

/// A field that no line of the block holds is absent.
pub proof fn lemma_field_absent(lines: Seq<Seq<char>>, key: Seq<char>)
    requires
        forall|i: int|
            0 <= i < lines.len() ==> !(key.len() + 1 <= lines[i].len() && #[trigger] lines[i].subrange(
                0,
                key.len() as int,
            ) == key && lines[i][key.len() as int] == ':'),
    ensures
        field_value(lines, key) is None,
    decreases lines.len(),
{
    if lines.len() > 0 {
        let p = key.push(':');
        if starts_with(lines[0], p) {
            assert(lines[0].subrange(0, key.len() as int) =~= lines[0].subrange(0, p.len() as int).subrange(
                0,
                key.len() as int,
            ));
            assert(lines[0].subrange(0, p.len() as int)[key.len() as int] == lines[0][key.len() as int]);
            assert(p.subrange(0, key.len() as int) =~= key);
            assert(p[key.len() as int] == ':');
            assert(lines[0].subrange(0, key.len() as int) == key);
            assert(false);
        }
        let rest = lines.subrange(1, lines.len() as int);
        assert forall|i: int|
            0 <= i < rest.len() implies !(key.len() + 1 <= rest[i].len() && #[trigger] rest[i].subrange(
                0,
                key.len() as int,
            ) == key && rest[i][key.len() as int] == ':') by {
            assert(rest[i] == lines[i + 1]);
        }
        lemma_field_absent(rest, key);
    }
}

/// The front matter is the lines between an opening `---` on the first line
/// and the next `---`.
pub proof fn lemma_front_matter_block(lines: Seq<Seq<char>>, k: int)
    requires
        1 <= k < lines.len(),
        lines[0] == seq!['-', '-', '-'],
        lines[k] == seq!['-', '-', '-'],
        forall|i: int| 1 <= i < k ==> #[trigger] lines[i] != seq!['-', '-', '-'],
    ensures
        front_matter(lines) == lines.subrange(1, k),
{
    lemma_closing_fence_at(lines, 1, k);
}

proof fn lemma_closing_fence_at(lines: Seq<Seq<char>>, i: int, k: int)
    requires
        1 <= i <= k < lines.len(),
        lines[k] == seq!['-', '-', '-'],
        forall|q: int| i <= q < k ==> #[trigger] lines[q] != seq!['-', '-', '-'],
    ensures
        closing_fence(lines, i) == Some(k),
    decreases k - i,
{
    if i < k {
        lemma_closing_fence_at(lines, i + 1, k);
    }
}

/// A note with any excluded tag, wherever the tag stands among its tags, is
/// left out; so is a note with fewer links than `min_links`. A note with no
/// excluded tag and enough links is kept.
pub proof fn lemma_note_filter(tags: Seq<Seq<char>>, excluded: Seq<Seq<char>>, link_count: nat, min_links: nat)
    ensures
        forall|k: int|
            0 <= k < tags.len() && excluded.contains(#[trigger] tags[k]) ==> !note_kept(
                tags,
                excluded,
                link_count,
                min_links,
            ),
        link_count < min_links ==> !note_kept(tags, excluded, link_count, min_links),
        (forall|k: int| 0 <= k < tags.len() ==> !excluded.contains(#[trigger] tags[k])) && link_count >= min_links
            ==> note_kept(tags, excluded, link_count, min_links),
{
}

/// The first `# ` heading is found on whichever line holds it.
pub proof fn lemma_heading_found_on_any_line(lines: Seq<Seq<char>>, j: int)
    requires
        0 <= j < lines.len(),
        2 <= lines[j].len(),
        lines[j][0] == '#',
        lines[j][1] == ' ',
        forall|i: int| 0 <= i < j ==> !(2 <= #[trigger] lines[i].len() && lines[i][0] == '#' && lines[i][1] == ' '),
    ensures
        first_heading(lines) == Some(trimmed(lines[j].subrange(2, lines[j].len() as int))),
    decreases j,
{
    if j == 0 {
        assert(lines[0].subrange(0, 2) =~= seq!['#', ' ']);
    } else {
        if starts_with(lines[0], seq!['#', ' ']) {
            assert(lines[0].subrange(0, 2)[0] == lines[0][0]);
            assert(lines[0].subrange(0, 2)[1] == lines[0][1]);
            assert(false);
        }
        let rest = lines.subrange(1, lines.len() as int);
        assert forall|i: int| 0 <= i < j - 1 implies !(2 <= #[trigger] rest[i].len() && rest[i][0] == '#' && rest[i][1]
            == ' ') by {
            assert(rest[i] == lines[i + 1]);
        }
        lemma_heading_found_on_any_line(rest, j - 1);
    }
}

/// Where a title comes from: a non-empty front matter title, else the
/// first heading, else the fallback.
pub proof fn lemma_title_sources(text: Seq<char>, fallback: Seq<char>)
    ensures
        ({
            let lines = trimmed_lines(text);
            let field_title = match field_value(front_matter(lines), "title"@) {
                Some(v) => unquoted(v),
                None => Seq::empty(),
            };
            &&& field_title.len() > 0 ==> title_of(text, fallback) == field_title
            &&& (field_title.len() == 0 && first_heading(lines) is Some) ==> title_of(text, fallback) == first_heading(
                lines,
            )->0
            &&& (field_title.len() == 0 && first_heading(lines) is None) ==> title_of(text, fallback) == fallback
        }),
{
}

/// Quotes of either kind around a value are removed; other values stay.
pub proof fn lemma_unquoted(v: Seq<char>, inner: Seq<char>)
    ensures
        unquoted(seq!['"'] + inner + seq!['"']) == inner,
        unquoted(seq!['\''] + inner + seq!['\'']) == inner,
        (v.len() == 0 || (v[0] != '"' && v[0] != '\'')) ==> unquoted(v) == v,
        unbracketed(seq!['['] + inner + seq![']']) == inner,
        (v.len() == 0 || v[0] != '[') ==> unbracketed(v) == v,
{
    let d = seq!['"'] + inner + seq!['"'];
    assert(d.subrange(1, d.len() - 1) =~= inner);
    let q = seq!['\''] + inner + seq!['\''];
    assert(q.subrange(1, q.len() - 1) =~= inner);
    let b = seq!['['] + inner + seq![']'];
    assert(b.subrange(1, b.len() - 1) =~= inner);
}

/// Each tag piece that is not empty once trimmed and unquoted becomes a tag,
/// in order; empty pieces are dropped.
pub proof fn lemma_tag_items_step(pieces: Seq<Seq<char>>, p: Seq<char>)
    ensures
        unquoted(trimmed(p)).len() > 0 ==> tag_items(pieces.push(p)) == tag_items(pieces).push(unquoted(trimmed(p))),
        unquoted(trimmed(p)).len() == 0 ==> tag_items(pieces.push(p)) == tag_items(pieces),
        tag_items(Seq::empty()) == Seq::<Seq<char>>::empty(),
{
    assert(pieces.push(p).drop_last() =~= pieces);
}

/// A link `[[target]]` or `[[target|text]]` at the start of a text leads to
/// its trimmed target, followed by the links of the rest.
pub proof fn lemma_link_at_start(target: Seq<char>, shown: Seq<char>, rest: Seq<char>)
    requires
        forall|k: int| 0 <= k < target.len() ==> #[trigger] target[k] != ']' && target[k] != '|',
        forall|k: int| 0 <= k < shown.len() ==> #[trigger] shown[k] != ']',
        trimmed(target).len() > 0,
    ensures
        ({
            let inner = if shown.len() == 0 {
                target
            } else {
                target + seq!['|'] + shown
            };
            let s = seq!['[', '['] + inner + seq![']', ']'] + rest;
            link_targets_from(s, 0) == seq![trimmed(target)] + link_targets_from(s, inner.len() as int + 4)
        }),
{
    let inner = if shown.len() == 0 {
        target
    } else {
        target + seq!['|'] + shown
    };
    let s = seq!['[', '['] + inner + seq![']', ']'] + rest;
    let n = inner.len() as int;
    assert(s.subrange(2, 2 + n) =~= inner);
    assert forall|q: int| 2 <= q < 2 + n implies s[q] != ']' by {
        assert(s[q] == inner[q - 2]);
        if shown.len() > 0 && q - 2 > target.len() {
            assert(inner[q - 2] == shown[q - 2 - target.len() - 1]);
        }
    }
    lemma_find_close_at(s, 2, 2 + n);
    lemma_before_bar_target(target, shown);
}

proof fn lemma_find_close_at(s: Seq<char>, i: int, j: int)
    requires
        0 <= i <= j,
        j + 2 <= s.len(),
        s[j] == ']' && s[j + 1] == ']',
        forall|q: int| i <= q < j ==> s[q] != ']',
    ensures
        find_from(s, seq![']', ']'], i) == Some(j),
    decreases j - i,
{
    if i < j {
        assert(s.subrange(i, i + 2)[0] == s[i]);
        lemma_find_close_at(s, i + 1, j);
    } else {
        assert(s.subrange(j, j + 2) =~= seq![']', ']']);
    }
}

proof fn lemma_before_bar_target(target: Seq<char>, shown: Seq<char>)
    requires
        forall|k: int| 0 <= k < target.len() ==> #[trigger] target[k] != ']' && target[k] != '|',
    ensures
        before_bar(target) == target,
        before_bar(target + seq!['|'] + shown) == target,
    decreases target.len(),
{
    if target.len() > 0 {
        let t1 = target.subrange(1, target.len() as int);
        lemma_before_bar_target(t1, shown);
        assert((target + seq!['|'] + shown).subrange(1, (target + seq!['|'] + shown).len() as int) =~= t1 + seq!['|']
            + shown);
        assert(seq![target[0]] + t1 =~= target);
    } else {
        assert(target + seq!['|'] + shown =~= seq!['|'] + shown);
    }
}

/// With no limit (`max_nodes` 0), every file that is not left out is taken,
/// in order; with a limit, no more than the limit.
pub proof fn lemma_selection_unlimited(paths: Seq<Seq<char>>, excluded: Seq<Seq<char>>, patterns: Seq<Seq<char>>, n: int)
    requires
        0 <= n <= paths.len(),
        paths.len() <= usize::MAX,
    ensures
        forall|j: int|
            0 <= j < n && !path_excluded(#[trigger] paths[j], excluded, patterns) ==> selected_paths(
                paths,
                excluded,
                patterns,
                0,
                n,
            ).contains(j as usize),
    decreases n,
{
    if n > 0 {
        lemma_selection_unlimited(paths, excluded, patterns, n - 1);
        let prev = selected_paths(paths, excluded, patterns, 0, n - 1);
        let cur = selected_paths(paths, excluded, patterns, 0, n);
        assert forall|j: int| 0 <= j < n && !path_excluded(#[trigger] paths[j], excluded, patterns) implies cur.contains(
            j as usize,
        ) by {
            if j < n - 1 {
                let w = choose|w: int| 0 <= w < prev.len() && prev[w] == j as usize;
                assert(cur[w] == prev[w]);
            } else {
                assert(cur[prev.len() as int] == j as usize);
            }
        }
    }
}

/// A file is left out when the pattern search found it, or when a pattern
/// occurs in its path; otherwise it is kept.
pub proof fn lemma_path_exclusion(path: Seq<char>, excluded: Seq<Seq<char>>, patterns: Seq<Seq<char>>, k: int)
    ensures
        excluded.contains(path) ==> path_excluded(path, excluded, patterns),
        0 <= k < patterns.len() && has_substring(path, patterns[k]) ==> path_excluded(path, excluded, patterns),
        !excluded.contains(path) && (forall|q: int| 0 <= q < patterns.len() ==> !has_substring(path, #[trigger] patterns[q]))
            ==> !path_excluded(path, excluded, patterns),
{
}

} // verus!
