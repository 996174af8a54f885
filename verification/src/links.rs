//! The `dsync-links` block that records the cross-links of a document
//! (Google Doc, Linear Doc, Git) at the end of its Markdown body.

use vstd::prelude::*;
use crate::text::{
    chars_of, contains, ends_with, extend, extend_str, find, find_from, find_in, lemma_find_from,
    lemma_contains_witness, lemma_find_from_is, lemma_find_from_skip, lemma_occurs_contains,
    lemma_trim_end, occurs_at, slice, starts_with,
    strip_leading, strip_leading_vec, string_of, trim_end, trim_end_vec,
};

verus! {

pub open spec fn links_start() -> Seq<char> {
    "<!-- dsync-links:start -->"@
}

pub open spec fn links_end() -> Seq<char> {
    "<!-- dsync-links:end -->"@
}

pub open spec fn links_heading() -> Seq<char> {
    "\n## Document Links\n"@
}

/// The view of an optional string argument.
pub open spec fn opt_view(o: Option<&str>) -> Option<Seq<char>> {
    match o {
        Some(s) => Some(s@),
        None => None,
    }
}

/// One line `label + url` when the link is present.
pub open spec fn link_line(label: Seq<char>, url: Option<Seq<char>>) -> Seq<Seq<char>> {
    match url {
        Some(u) => seq![label + u],
        None => Seq::empty(),
    }
}

/// The lines of the block, in the order Google Doc, Linear Doc, Git.
pub open spec fn link_lines(
    gdoc: Option<Seq<char>>,
    linear: Option<Seq<char>>,
    git: Option<Seq<char>>,
) -> Seq<Seq<char>> {
    link_line("- GDocs: "@, gdoc) + link_line("- Linear: "@, linear) + link_line("- Git: "@, git)
}

/// Lines joined by `'\n'`.
pub open spec fn join_lines(ls: Seq<Seq<char>>) -> Seq<char>
    decreases ls.len(),
{
    if ls.len() == 0 {
        Seq::empty()
    } else if ls.len() == 1 {
        ls[0]
    } else {
        join_lines(ls.drop_last()) + seq!['\n'] + ls.last()
    }
}

/// Everything of the block before its end marker.
pub open spec fn block_body(ls: Seq<Seq<char>>) -> Seq<char> {
    links_start() + links_heading() + join_lines(ls) + seq!['\n']
}

/// The whole block, from start marker to end marker.
pub open spec fn links_block(ls: Seq<Seq<char>>) -> Seq<char> {
    block_body(ls) + links_end()
}

/// Content with the block put after its trailing whitespace, on a line of its own.
pub open spec fn append_block(content: Seq<char>, block: Seq<char>) -> Seq<char> {
    trim_end(content) + seq!['\n', '\n'] + block + seq!['\n']
}

/// What `upsert_dsync_links` returns: the content unchanged when there is no link;
/// otherwise the first existing block (first start marker, first end marker after
/// it) replaced by the new block, or, with no such block, the new block appended.
pub open spec fn upserted(
    content: Seq<char>,
    gdoc: Option<Seq<char>>,
    linear: Option<Seq<char>>,
    git: Option<Seq<char>>,
) -> Seq<char> {
    let ls = link_lines(gdoc, linear, git);
    if ls.len() == 0 {
        content
    } else {
        let block = links_block(ls);
        match find(content, links_start()) {
            Some(s) => match find_from(content, links_end(), s) {
                Some(e) => {
                    let end = e + links_end().len();
                    let pre = content.take(s);
                    let pre_nl = if pre.len() > 0 && pre.last() == '\n' {
                        pre
                    } else {
                        pre.push('\n')
                    };
                    pre_nl + block + seq!['\n'] + strip_leading(content.skip(end), seq!['\n'])
                },
                None => append_block(content, block),
            },
            None => append_block(content, block),
        }
    }
}

/// Appends `line` to the lines joined so far (`count` of them).
fn push_line(joined: &mut Vec<char>, count: usize, line: &Vec<char>)
    ensures
        final(joined)@ == if count == 0 {
            old(joined)@ + line@
        } else {
            old(joined)@ + seq!['\n'] + line@
        },
{
    if count > 0 {
        joined.push('\n');
    }
    extend(joined, line);
}

/// Adds the line `label + url` when `url` is present.
fn add_link(
    joined: &mut Vec<char>,
    count: &mut usize,
    label: &str,
    url: Option<&str>,
    Ghost(lines): Ghost<Seq<Seq<char>>>,
) -> (new_lines: Ghost<Seq<Seq<char>>>)
    requires
        old(joined)@ == join_lines(lines),
        *old(count) == lines.len(),
        lines.len() < 3,
    ensures
        new_lines@ == lines + link_line(label@, opt_view(url)),
        final(joined)@ == join_lines(new_lines@),
        *final(count) == new_lines@.len(),
        new_lines@.len() <= lines.len() + 1,
{
    match url {
        Some(u) => {
            let mut line = chars_of(label);
            extend_str(&mut line, u);
            push_line(joined, *count, &line);
            *count = *count + 1;
            let ghost nl = lines.push(line@);
            assert(nl.drop_last() =~= lines);
            assert(lines + link_line(label@, opt_view(url)) =~= nl);
            Ghost(nl)
        },
        None => {
            assert(lines + link_line(label@, opt_view(url)) =~= lines);
            Ghost(lines)
        },
    }
}

/// Writes (or rewrites) the block of document links at the end of `content`:
/// one line per link that is present, `- GDocs: `, `- Linear: `, `- Git: `.
pub fn upsert_dsync_links(
    content: &str,
    gdoc: Option<&str>,
    linear: Option<&str>,
    git: Option<&str>,
) -> (r: String)
    ensures
        r@ == upserted(content@, opt_view(gdoc), opt_view(linear), opt_view(git)),
{
    let mut joined: Vec<char> = Vec::new();
    let mut count: usize = 0;
    let Ghost(l1) = add_link(&mut joined, &mut count, "- GDocs: ", gdoc, Ghost(Seq::empty()));
    let Ghost(l2) = add_link(&mut joined, &mut count, "- Linear: ", linear, Ghost(l1));
    let Ghost(l3) = add_link(&mut joined, &mut count, "- Git: ", git, Ghost(l2));
    let ghost ls = link_lines(opt_view(gdoc), opt_view(linear), opt_view(git));
    assert(l3 =~= ls);
    let c = chars_of(content);
    if count == 0 {
        return string_of(&c);
    }
    let start_marker = chars_of("<!-- dsync-links:start -->");
    let end_marker = chars_of("<!-- dsync-links:end -->");
    let mut block = start_marker.clone();
    assert(block@ =~= start_marker@);
    extend_str(&mut block, "\n## Document Links\n");
    extend(&mut block, &joined);
    block.push('\n');
    extend(&mut block, &end_marker);
    assert(block@ =~= links_block(ls));
    let mut out: Vec<char>;
    if let Some(s) = find_in(&c, &start_marker, 0) {
        if let Some(e) = find_in(&c, &end_marker, s) {
            proof {
                lemma_find_from(c@, end_marker@, s as int);
                assert(occurs_at(c@, end_marker@, e as int));
            }
            let total = c.len();
            assert(e + end_marker@.len() <= total);
            let end = e + end_marker.len();
            out = slice(&c, 0, s);
            if out.len() == 0 || out[out.len() - 1] != '\n' {
                out.push('\n');
            }
            extend(&mut out, &block);
            out.push('\n');
            let tail = slice(&c, end, c.len());
            let newline = vec!['\n'];
            assert(newline@ =~= seq!['\n']);
            let rest = strip_leading_vec(&tail, &newline);
            extend(&mut out, &rest);
            assert(out@ =~= upserted(content@, opt_view(gdoc), opt_view(linear), opt_view(git)));
            return string_of(&out);
        }
    }
    out = trim_end_vec(&c);
    out.push('\n');
    out.push('\n');
    extend(&mut out, &block);
    out.push('\n');
    assert(out@ =~= upserted(content@, opt_view(gdoc), opt_view(linear), opt_view(git)));
    string_of(&out)
}


// ---------------------------------------------------------------------------
// Rewriting the block again changes nothing
// ---------------------------------------------------------------------------

/// A link whose URL does not hold the end marker.
pub open spec fn clean_link(url: Option<Seq<char>>) -> bool {
    match url {
        Some(u) => !contains(u, links_end()),
        None => true,
    }
}

/// A text without the first character of `p` does not contain `p`.
proof fn lemma_lacks_first_char(s: Seq<char>, p: Seq<char>)
    requires
        p.len() > 0,
        forall|i: int| 0 <= i < s.len() ==> s[i] != p[0],
    ensures
        !contains(s, p),
{
    if contains(s, p) {
        let q = lemma_contains_witness(s, p);
        assert(s.subrange(q, q + p.len())[0] == s[q]);
    }
}

/// Joining two texts that lack `p` by a newline does not create `p`,
/// when `p` has no newline.
proof fn lemma_join_newline(a: Seq<char>, b: Seq<char>, p: Seq<char>)
    requires
        p.len() > 0,
        forall|k: int| 0 <= k < p.len() ==> p[k] != '\n',
        !contains(a, p),
        !contains(b, p),
    ensures
        !contains(a + seq!['\n'] + b, p),
{
    let x = a + seq!['\n'] + b;
    if contains(x, p) {
        let q = lemma_contains_witness(x, p);
        if q + p.len() <= a.len() {
            assert(a.subrange(q, q + p.len()) =~= x.subrange(q, q + p.len()));
            lemma_occurs_contains(a, p, q);
        } else if q > a.len() {
            let r = q - a.len() - 1;
            assert(b.subrange(r, r + p.len()) =~= x.subrange(q, q + p.len()));
            lemma_occurs_contains(b, p, r);
        } else {
            assert(x.subrange(q, q + p.len())[a.len() - q] == x[a.len() as int]);
        }
    }
}

/// A prefix without the first character of `p` does not create `p`.
proof fn lemma_free_prefix(x: Seq<char>, u: Seq<char>, p: Seq<char>)
    requires
        p.len() > 0,
        forall|i: int| 0 <= i < x.len() ==> x[i] != p[0],
        !contains(u, p),
    ensures
        !contains(x + u, p),
{
    let s = x + u;
    if contains(s, p) {
        let q = lemma_contains_witness(s, p);
        if q < x.len() {
            assert(s.subrange(q, q + p.len())[0] == s[q]);
        } else {
            let r = q - x.len();
            assert(u.subrange(r, r + p.len()) =~= s.subrange(q, q + p.len()));
            lemma_occurs_contains(u, p, r);
        }
    }
}

/// When `a` lacks `p`, `b` starts with `p`, and the first character of `p`
/// does not recur in `p`, the first `p` of `a + b` is where `b` starts.
proof fn lemma_first_at_boundary(a: Seq<char>, b: Seq<char>, p: Seq<char>)
    requires
        p.len() > 0,
        forall|j: int| 0 < j < p.len() ==> #[trigger] p[j] != p[0],
        !contains(a, p),
        starts_with(b, p),
    ensures
        find(a + b, p) == Some(a.len() as int),
{
    let s = a + b;
    assert(s.subrange(a.len() as int, (a.len() + p.len()) as int) =~= b.subrange(0, p.len() as int));
    assert forall|j: int| 0 <= j < a.len() implies !occurs_at(s, p, j) by {
        if occurs_at(s, p, j) {
            if j + p.len() <= a.len() {
                assert(a.subrange(j, j + p.len()) =~= s.subrange(j, j + p.len()));
                lemma_occurs_contains(a, p, j);
            } else {
                assert(s.subrange(j, j + p.len())[a.len() - j] == s[a.len() as int]);
                assert(s[a.len() as int] == b[0]);
                assert(b.subrange(0, p.len() as int)[0] == b[0]);
            }
        }
    }
    lemma_find_from_is(s, p, 0, a.len() as int);
}

/// A prefix that ends before the first occurrence lacks `p`.
proof fn lemma_before_first(s: Seq<char>, p: Seq<char>, k: int)
    requires
        p.len() > 0,
        0 <= k <= s.len(),
        forall|j: int| 0 <= j < k ==> !occurs_at(s, p, j),
    ensures
        !contains(s.take(k), p),
{
    let t = s.take(k);
    if contains(t, p) {
        let q = lemma_contains_witness(t, p);
        assert(s.subrange(q, q + p.len()) =~= t.subrange(q, q + p.len()));
        assert(occurs_at(s, p, q));
    }
}

proof fn lemma_take_lacks(s: Seq<char>, p: Seq<char>, k: int)
    requires
        p.len() > 0,
        0 <= k <= s.len(),
        !contains(s, p),
    ensures
        !contains(s.take(k), p),
{
    lemma_find_from(s, p, 0);
    lemma_before_first(s, p, k);
}

proof fn lemma_markers()
    ensures
        links_start().len() == 26,
        links_end().len() == 24,
        links_heading().len() == 19,
        links_start()[0] == '<',
        links_end()[0] == '<',
        forall|j: int| 0 < j < 26 ==> links_start()[j] != '<',
        forall|j: int| 0 < j < 24 ==> links_end()[j] != '<',
        forall|j: int| 0 <= j < 24 ==> links_end()[j] != '\n',
        forall|j: int| 0 <= j < links_heading().len() ==> links_heading()[j] != '<',
        !contains(links_start(), links_end()),
{
    reveal_strlit("<!-- dsync-links:start -->");
    reveal_strlit("<!-- dsync-links:end -->");
    reveal_strlit("\n## Document Links\n");
    assert(links_start() =~= seq![
        '<', '!', '-', '-', ' ', 'd', 's', 'y', 'n', 'c', '-', 'l', 'i', 'n', 'k', 's', ':',
        's', 't', 'a', 'r', 't', ' ', '-', '-', '>',
    ]);
    assert(links_end() =~= seq![
        '<', '!', '-', '-', ' ', 'd', 's', 'y', 'n', 'c', '-', 'l', 'i', 'n', 'k', 's', ':',
        'e', 'n', 'd', ' ', '-', '-', '>',
    ]);
    assert(links_heading() =~= seq![
        '\n', '#', '#', ' ', 'D', 'o', 'c', 'u', 'm', 'e', 'n', 't', ' ', 'L', 'i', 'n', 'k',
        's', '\n',
    ]);
    let s = links_start();
    let e = links_end();
    if contains(s, e) {
        let q = lemma_contains_witness(s, e);
        assert(s.subrange(q, q + 24)[0] == s[q]);
        if q == 0 {
            assert(s.subrange(0, 24)[17] == s[17]);
        }
    }
}

proof fn lemma_labels()
    ensures
        forall|j: int| 0 <= j < "- GDocs: "@.len() ==> "- GDocs: "@[j] != '<',
        forall|j: int| 0 <= j < "- Linear: "@.len() ==> "- Linear: "@[j] != '<',
        forall|j: int| 0 <= j < "- Git: "@.len() ==> "- Git: "@[j] != '<',
{
    reveal_strlit("- GDocs: ");
    reveal_strlit("- Linear: ");
    reveal_strlit("- Git: ");
    assert("- GDocs: "@ =~= seq!['-', ' ', 'G', 'D', 'o', 'c', 's', ':', ' ']);
    assert("- Linear: "@ =~= seq!['-', ' ', 'L', 'i', 'n', 'e', 'a', 'r', ':', ' ']);
    assert("- Git: "@ =~= seq!['-', ' ', 'G', 'i', 't', ':', ' ']);
}

/// No line of the block holds the end marker when no URL does.
proof fn lemma_lines_clean(gdoc: Option<Seq<char>>, linear: Option<Seq<char>>, git: Option<Seq<char>>)
    requires
        clean_link(gdoc),
        clean_link(linear),
        clean_link(git),
    ensures
        forall|i: int|
            0 <= i < link_lines(gdoc, linear, git).len() ==> !contains(
                #[trigger] link_lines(gdoc, linear, git)[i],
                links_end(),
            ),
{
    lemma_markers();
    lemma_labels();
    let ls = link_lines(gdoc, linear, git);
    if let Some(u) = gdoc {
        lemma_free_prefix("- GDocs: "@, u, links_end());
    }
    if let Some(u) = linear {
        lemma_free_prefix("- Linear: "@, u, links_end());
    }
    if let Some(u) = git {
        lemma_free_prefix("- Git: "@, u, links_end());
    }
    let a = link_line("- GDocs: "@, gdoc);
    let b = link_line("- Linear: "@, linear);
    let c = link_line("- Git: "@, git);
    assert forall|i: int| 0 <= i < ls.len() implies !contains(#[trigger] ls[i], links_end()) by {
        if i < a.len() {
            assert(ls[i] == a[i]);
        } else if i < a.len() + b.len() {
            assert(ls[i] == b[i - a.len()]);
        } else {
            assert(ls[i] == c[i - a.len() - b.len()]);
        }
    }
}

proof fn lemma_join_clean(ls: Seq<Seq<char>>)
    requires
        forall|i: int| 0 <= i < ls.len() ==> !contains(#[trigger] ls[i], links_end()),
    ensures
        !contains(join_lines(ls), links_end()),
    decreases ls.len(),
{
    lemma_markers();
    if ls.len() == 0 {
        lemma_lacks_first_char(join_lines(ls), links_end());
    } else if ls.len() == 1 {
        assert(ls[0] == join_lines(ls));
    } else {
        let d = ls.drop_last();
        assert forall|i: int| 0 <= i < d.len() implies !contains(#[trigger] d[i], links_end()) by {
            assert(d[i] == ls[i]);
        }
        lemma_join_clean(d);
        assert(ls.last() == ls[ls.len() - 1]);
        lemma_join_newline(join_lines(d), ls.last(), links_end());
    }
}

/// The first end marker of a block (and whatever follows it) is its own.
proof fn lemma_block_end(ls: Seq<Seq<char>>, rest: Seq<char>)
    requires
        forall|i: int| 0 <= i < ls.len() ==> !contains(#[trigger] ls[i], links_end()),
    ensures
        find(links_block(ls) + rest, links_end()) == Some(block_body(ls).len() as int),
{
    lemma_markers();
    lemma_join_clean(ls);
    let e = links_end();
    let h2 = links_heading().subrange(1, 18);
    let j = join_lines(ls);
    assert forall|i: int| 0 <= i < h2.len() implies h2[i] != e[0] by {
        assert(h2[i] == links_heading()[i + 1]);
    }
    lemma_lacks_first_char(h2, e);
    lemma_lacks_first_char(Seq::<char>::empty(), e);
    lemma_join_newline(j, Seq::<char>::empty(), e);
    lemma_join_newline(h2, j + seq!['\n'] + Seq::<char>::empty(), e);
    lemma_join_newline(links_start(), h2 + seq!['\n'] + (j + seq!['\n'] + Seq::<char>::empty()), e);
    assert(links_heading() =~= seq!['\n'] + h2 + seq!['\n']) by {
        reveal_strlit("\n## Document Links\n");
    }
    assert(block_body(ls) =~= links_start() + seq!['\n'] + (h2 + seq!['\n'] + (j + seq!['\n']
        + Seq::<char>::empty())));
    assert(e.subrange(0, 24) =~= e);
    assert(links_block(ls) + rest =~= block_body(ls) + (e + rest));
    assert((e + rest).subrange(0, 24) =~= e);
    lemma_first_at_boundary(block_body(ls), e + rest, e);
}

/// A block placed after text that lacks the start marker is the first one found.
proof fn lemma_block_start(a: Seq<char>, ls: Seq<Seq<char>>, rest: Seq<char>)
    requires
        !contains(a, links_start()),
    ensures
        find(a + links_block(ls) + rest, links_start()) == Some(a.len() as int),
{
    lemma_markers();
    let s = links_start();
    let b = links_block(ls) + rest;
    assert(b.subrange(0, 26) =~= s);
    assert(a + links_block(ls) + rest =~= a + b);
    lemma_first_at_boundary(a, b, s);
}

/// `strip_leading` leaves no leading `p`.
proof fn lemma_strip_leading_done(s: Seq<char>, p: Seq<char>)
    requires
        p.len() > 0,
    ensures
        !starts_with(strip_leading(s, p), p),
        strip_leading(strip_leading(s, p), p) == strip_leading(s, p),
    decreases s.len(),
{
    if starts_with(s, p) {
        lemma_strip_leading_done(s.skip(p.len() as int), p);
    }
}

/// Rewriting the links block a second time, with the same links, changes
/// nothing, as long as no URL holds the end marker and the content has no
/// start marker left open (a start marker with no end marker after it).
pub proof fn lemma_upsert_idempotent(
    content: Seq<char>,
    gdoc: Option<Seq<char>>,
    linear: Option<Seq<char>>,
    git: Option<Seq<char>>,
)
    requires
        clean_link(gdoc),
        clean_link(linear),
        clean_link(git),
        find(content, links_start()) matches Some(s) ==> find_from(content, links_end(), s) is Some,
    ensures
        upserted(upserted(content, gdoc, linear, git), gdoc, linear, git) == upserted(
            content,
            gdoc,
            linear,
            git,
        ),
{
    let ls = link_lines(gdoc, linear, git);
    if ls.len() == 0 {
        return;
    }
    lemma_markers();
    lemma_lines_clean(gdoc, linear, git);
    let block = links_block(ls);
    let u = upserted(content, gdoc, linear, git);
    lemma_find_from(content, links_start(), 0);
    // `u` is `pre + block + "\n" + rest` with `pre` ending in a newline and
    // lacking the start marker, and `rest` not starting with a newline.
    let (pre, rest) = match find(content, links_start()) {
        Some(s) => {
            let e = find_from(content, links_end(), s)->0;
            lemma_find_from(content, links_end(), s);
            let end = e + links_end().len();
            let p0 = content.take(s);
            let pre = if p0.len() > 0 && p0.last() == '\n' {
                p0
            } else {
                p0.push('\n')
            };
            lemma_before_first(content, links_start(), s);
            if !(p0.len() > 0 && p0.last() == '\n') {
                lemma_lacks_first_char(Seq::<char>::empty(), links_start());
                lemma_join_newline_start(p0);
                assert(pre =~= p0 + seq!['\n'] + Seq::<char>::empty());
            }
            let rest = strip_leading(content.skip(end), seq!['\n']);
            (pre, rest)
        },
        None => {
            let t = trim_end(content);
            lemma_trim_end(content);
            lemma_take_lacks(content, links_start(), t.len() as int);
            lemma_lacks_first_char(Seq::<char>::empty(), links_start());
            lemma_join_newline_start(t);
            lemma_join_newline_start(t + seq!['\n']);
            assert(t + seq!['\n', '\n'] =~= t + seq!['\n'] + Seq::<char>::empty() + seq!['\n']
                + Seq::<char>::empty());
            (t + seq!['\n', '\n'], Seq::<char>::empty())
        },
    };
    assert(u =~= pre + block + (seq!['\n'] + rest));
    lemma_strip_leading_done(content.skip(0), seq!['\n']);
    assert(!starts_with(rest, seq!['\n'])) by {
        if let Some(s) = find(content, links_start()) {
            let e = find_from(content, links_end(), s)->0;
            lemma_strip_leading_done(content.skip(e + links_end().len()), seq!['\n']);
        }
    }
    // second pass: the start marker found is the one of `block`
    lemma_block_start(pre, ls, seq!['\n'] + rest);
    let s2 = pre.len() as int;
    assert(u.skip(s2) =~= block + (seq!['\n'] + rest));
    lemma_block_end(ls, seq!['\n'] + rest);
    lemma_find_from_skip(u, links_end(), s2, 0);
    let e2 = s2 + block_body(ls).len();
    assert(find_from(u, links_end(), s2) == Some(e2));
    let end2 = e2 + links_end().len();
    assert(u.take(s2) =~= pre);
    assert(u.skip(end2) =~= seq!['\n'] + rest);
    assert((seq!['\n'] + rest).subrange(0, 1) =~= seq!['\n']);
    assert((seq!['\n'] + rest).skip(1) =~= rest);
    lemma_strip_leading_done(rest, seq!['\n']);
    assert(strip_leading(seq!['\n'] + rest, seq!['\n']) == strip_leading(rest, seq!['\n']));
    assert(strip_leading(rest, seq!['\n']) == rest);
    assert(pre.len() > 0 && pre.last() == '\n');
    assert(upserted(u, gdoc, linear, git) =~= pre + block + seq!['\n'] + rest);
}

/// Whenever at least one link is given, the result holds the block of exactly
/// those links, in the order Google Doc, Linear Doc, Git.
pub proof fn lemma_upsert_has_block(
    content: Seq<char>,
    gdoc: Option<Seq<char>>,
    linear: Option<Seq<char>>,
    git: Option<Seq<char>>,
)
    requires
        gdoc is Some || linear is Some || git is Some,
    ensures
        contains(upserted(content, gdoc, linear, git), links_block(link_lines(gdoc, linear, git))),
{
    let ls = link_lines(gdoc, linear, git);
    assert(ls.len() > 0);
    let block = links_block(ls);
    let u = upserted(content, gdoc, linear, git);
    let pre = match find(content, links_start()) {
        Some(s) => match find_from(content, links_end(), s) {
            Some(e) => {
                let p0 = content.take(s);
                if p0.len() > 0 && p0.last() == '\n' {
                    p0
                } else {
                    p0.push('\n')
                }
            },
            None => trim_end(content) + seq!['\n', '\n'],
        },
        None => trim_end(content) + seq!['\n', '\n'],
    };
    let post = match find(content, links_start()) {
        Some(s) => match find_from(content, links_end(), s) {
            Some(e) => seq!['\n'] + strip_leading(content.skip(e + links_end().len()), seq!['\n']),
            None => seq!['\n'],
        },
        None => seq!['\n'],
    };
    assert(u =~= pre + block + post);
    assert(u.subrange(pre.len() as int, pre.len() + block.len() as int) =~= block);
    lemma_occurs_contains(u, block, pre.len() as int);
}

/// A newline after text that lacks the start marker does not create one.
proof fn lemma_join_newline_start(a: Seq<char>)
    requires
        !contains(a, links_start()),
    ensures
        !contains(a + seq!['\n'] + Seq::<char>::empty(), links_start()),
{
    lemma_markers();
    reveal_strlit("<!-- dsync-links:start -->");
    assert(links_start() =~= seq![
        '<', '!', '-', '-', ' ', 'd', 's', 'y', 'n', 'c', '-', 'l', 'i', 'n', 'k', 's', ':',
        's', 't', 'a', 'r', 't', ' ', '-', '-', '>',
    ]);
    lemma_lacks_first_char(Seq::<char>::empty(), links_start());
    lemma_join_newline(a, Seq::<char>::empty(), links_start());
}

} // verus!
