//! Markdown section parsing used by persona files (`theory.md`, `voice.md`,
//! situation cards).

use vstd::prelude::*;

use crate::text::{
    append_chars, chars_of, contains, contains_exec, lines, lines_vec, starts_with,
    starts_with_exec, string_of, trim, trim_start_matches, trim_start_matches_str, trim_vec, views,
};

verus! {

/// Views of `(header, body)` pairs.
pub open spec fn pair_views(v: Seq<(String, String)>) -> Seq<(Seq<char>, Seq<char>)> {
    v.map_values(|p: (String, String)| (p.0@, p.1@))
}

/// Views of a list of `&str`.
pub open spec fn str_views(v: Seq<&str>) -> Seq<Seq<char>> {
    v.map_values(|s: &str| s@)
}

/// Views of a list of `String`.
pub open spec fn string_views(v: Seq<String>) -> Seq<Seq<char>> {
    v.map_values(|s: String| s@)
}

/// Parser state: current header, current body, finished sections.
pub type SectionState = (Seq<char>, Seq<char>, Seq<(Seq<char>, Seq<char>)>);

/// The sections finished so far plus the one in progress, if it holds anything.
pub open spec fn close_section(st: SectionState) -> Seq<(Seq<char>, Seq<char>)> {
    if st.0.len() > 0 || st.1.len() > 0 {
        st.2.push((st.0, trim(st.1)))
    } else {
        st.2
    }
}

/// One line of input: a `## ` line opens a new section, any other line joins
/// the current body.
pub open spec fn section_step(st: SectionState, line: Seq<char>) -> SectionState {
    if starts_with(line, "## "@) {
        (trim(trim_start_matches(line, "## "@)), Seq::empty(), close_section(st))
    } else {
        (st.0, st.1 + line + seq!['\n'], st.2)
    }
}

/// State after the first `n` lines.
pub open spec fn section_fold(ls: Seq<Seq<char>>, n: int) -> SectionState
    decreases n,
{
    if n <= 0 || n > ls.len() {
        (Seq::empty(), Seq::empty(), Seq::empty())
    } else {
        section_step(section_fold(ls, n - 1), ls[n - 1])
    }
}

/// Markdown split at `## ` headers into `(header, trimmed body)` pairs. Text
/// before the first header forms a section with an empty header.
pub open spec fn sections(content: Seq<char>) -> Seq<(Seq<char>, Seq<char>)> {
    let ls = lines(content);
    close_section(section_fold(ls, ls.len() as int))
}

/// Split markdown content by `## ` headers into (header, body) pairs.
pub fn split_sections(content: &str) -> (r: Vec<(String, String)>)
    ensures
        pair_views(r@) == sections(content@),
{
    let cs = chars_of(content);
    let ls = lines_vec(&cs);
    let prefix = chars_of("## ");
    let mut hdr: Vec<char> = Vec::new();
    let mut body: Vec<char> = Vec::new();
    let mut out: Vec<(String, String)> = Vec::new();
    let mut i: usize = 0;
    while i < ls.len()
        invariant
            i <= ls@.len(),
            views(ls@) == lines(content@),
            prefix@ == "## "@,
            (hdr@, body@, pair_views(out@)) == section_fold(views(ls@), i as int),
        decreases ls.len() - i,
    {
        let line = &ls[i];
        assert(views(ls@)[i as int] == line@);
        if starts_with_exec(line, &prefix) {
            if hdr.len() > 0 || body.len() > 0 {
                let b = trim_vec(&body);
                let ghost before = out@;
                out.push((string_of(&hdr), string_of(&b)));
                assert(pair_views(out@) =~= pair_views(before).push((hdr@, b@)));
            }
            let t = trim_start_matches_str(line, "## ");
            hdr = trim_vec(&t);
            body = Vec::new();
        } else {
            let mut j: usize = 0;
            let ghost b0 = body@;
            while j < line.len()
                invariant
                    j <= line@.len(),
                    body@ == b0 + line@.take(j as int),
                decreases line.len() - j,
            {
                body.push(line[j]);
                j = j + 1;
                assert(line@.take(j as int) == line@.take(j - 1).push(line@[j - 1]));
            }
            assert(line@.take(line@.len() as int) == line@);
            body.push('\n');
        }
        i = i + 1;
    }
    if hdr.len() > 0 || body.len() > 0 {
        let b = trim_vec(&body);
        let ghost before = out@;
        out.push((string_of(&hdr), string_of(&b)));
        assert(pair_views(out@) =~= pair_views(before).push((hdr@, b@)));
    }
    out
}

/// Whether header `h` contains one of `kws`.
pub open spec fn header_matches(h: Seq<char>, kws: Seq<Seq<char>>) -> bool {
    exists|k: int| 0 <= k < kws.len() && contains(h, #[trigger] kws[k])
}

/// Body of the first section at or after `i` whose header matches.
pub open spec fn section_from(secs: Seq<(Seq<char>, Seq<char>)>, kws: Seq<Seq<char>>, i: int) -> Seq<
    char,
>
    decreases secs.len() - i,
{
    if i < 0 || i >= secs.len() {
        Seq::empty()
    } else if header_matches(secs[i].0, kws) {
        secs[i].1
    } else {
        section_from(secs, kws, i + 1)
    }
}

/// Body of the first section whose header contains any keyword (empty if none).
pub open spec fn section_body(secs: Seq<(Seq<char>, Seq<char>)>, kws: Seq<Seq<char>>) -> Seq<char> {
    section_from(secs, kws, 0)
}

/// Whether `h` contains any keyword.
pub fn header_matches_exec(h: &str, kws: &[&str]) -> (r: bool)
    ensures
        r == header_matches(h@, str_views(kws@)),
{
    let hc = chars_of(h);
    let mut k: usize = 0;
    while k < kws.len()
        invariant
            k <= kws@.len(),
            hc@ == h@,
            forall|m: int| 0 <= m < k ==> !contains(h@, #[trigger] str_views(kws@)[m]),
        decreases kws.len() - k,
    {
        let kc = chars_of(kws[k]);
        if contains_exec(&hc, &kc) {
            assert(str_views(kws@)[k as int] == kws@[k as int]@);
            return true;
        }
        k = k + 1;
    }
    false
}

/// Find a section whose header contains any of the given keywords; its body,
/// or an empty string.
pub fn find_section(sections: &[(String, String)], keywords: &[&str]) -> (r: String)
    ensures
        r@ == section_body(pair_views(sections@), str_views(keywords@)),
{
    let ghost secs = pair_views(sections@);
    let ghost kws = str_views(keywords@);
    let mut i: usize = 0;
    while i < sections.len()
        invariant
            i <= sections@.len(),
            secs == pair_views(sections@),
            kws == str_views(keywords@),
            section_from(secs, kws, 0) == section_from(secs, kws, i as int),
        decreases sections.len() - i,
    {
        assert(secs[i as int] == (sections@[i as int].0@, sections@[i as int].1@));
        if header_matches_exec(sections[i].0.as_str(), keywords) {
            return sections[i].1.clone();
        }
        i = i + 1;
    }
    String::new()
}

// ---------------------------------------------------------------------------
// Splitting on separator characters
// ---------------------------------------------------------------------------

/// Separators of list sections: ASCII comma and the ideographic enumeration comma.
pub open spec fn is_list_sep(c: char) -> bool {
    c == ',' || c == '、'
}

/// Index of the first separator at or after `i` (or `s.len()`).
pub open spec fn next_sep(s: Seq<char>, i: int) -> int
    decreases s.len() - i,
{
    if i < 0 || i >= s.len() {
        if i < 0 {
            0
        } else {
            s.len() as int
        }
    } else if is_list_sep(s[i]) {
        i
    } else {
        next_sep(s, i + 1)
    }
}

pub proof fn lemma_next_sep(s: Seq<char>, i: int)
    requires
        0 <= i <= s.len(),
    ensures
        i <= next_sep(s, i) <= s.len(),
        next_sep(s, i) < s.len() ==> is_list_sep(s[next_sep(s, i)]),
    decreases s.len() - i,
{
    if i < s.len() && !is_list_sep(s[i]) {
        lemma_next_sep(s, i + 1);
    }
}

/// `s[i..].split(|c| c == ',' || c == '、')`: the pieces between separators,
/// empty ones included.
pub open spec fn pieces_from(s: Seq<char>, i: int) -> Seq<Seq<char>>
    decreases s.len() - i,
{
    if i < 0 || i > s.len() {
        Seq::empty()
    } else {
        let j = next_sep(s, i);
        proof {
            lemma_next_sep(s, i);
        }
        if j < s.len() {
            seq![s.subrange(i, j)] + pieces_from(s, j + 1)
        } else {
            seq![s.subrange(i, s.len() as int)]
        }
    }
}

/// Trimmed, non-empty items of the first `n` pieces.
pub open spec fn clean_items(ps: Seq<Seq<char>>, n: int) -> Seq<Seq<char>>
    decreases n,
{
    if n <= 0 || n > ps.len() {
        Seq::empty()
    } else if trim(ps[n - 1]).len() > 0 {
        clean_items(ps, n - 1).push(trim(ps[n - 1]))
    } else {
        clean_items(ps, n - 1)
    }
}

/// An item line of a bullet list: trimmed, `- ` prefixes dropped, trimmed.
pub open spec fn bullet_item(l: Seq<char>) -> Seq<char> {
    trim(trim_start_matches(trim(l), "- "@))
}

/// Bullet items of the first `n` lines, empty ones dropped.
pub open spec fn bullet_items(ls: Seq<Seq<char>>, n: int) -> Seq<Seq<char>>
    decreases n,
{
    if n <= 0 || n > ls.len() {
        Seq::empty()
    } else if bullet_item(ls[n - 1]).len() > 0 {
        bullet_items(ls, n - 1).push(bullet_item(ls[n - 1]))
    } else {
        bullet_items(ls, n - 1)
    }
}

/// The items of the first `n` lines are exactly their bullet-stripped,
/// trimmed texts that are not empty, in line order: every such line yields
/// one item, and nothing else does.
pub proof fn lemma_bullet_items_keep_every_line(ls: Seq<Seq<char>>, n: int)
    requires
        0 <= n <= ls.len(),
    ensures
        bullet_items(ls, n) == ls.take(n).map_values(|l: Seq<char>| bullet_item(l)).filter(
            |x: Seq<char>| x.len() > 0,
        ),
    decreases n,
{
    reveal(Seq::filter);
    let m = ls.take(n).map_values(|l: Seq<char>| bullet_item(l));
    if n == 0 {
        assert(m =~= Seq::<Seq<char>>::empty());
    } else {
        lemma_bullet_items_keep_every_line(ls, n - 1);
        assert(m.drop_last() =~= ls.take(n - 1).map_values(|l: Seq<char>| bullet_item(l)));
        assert(m.last() == bullet_item(ls[n - 1]));
    }
}

/// The items of the first `n` comma pieces are exactly their trimmed texts
/// that are not empty, in order.
pub proof fn lemma_clean_items_keep_every_piece(ps: Seq<Seq<char>>, n: int)
    requires
        0 <= n <= ps.len(),
    ensures
        clean_items(ps, n) == ps.take(n).map_values(|x: Seq<char>| trim(x)).filter(|x: Seq<char>| x.len() > 0),
    decreases n,
{
    reveal(Seq::filter);
    let m = ps.take(n).map_values(|x: Seq<char>| trim(x));
    if n == 0 {
        assert(m =~= Seq::<Seq<char>>::empty());
    } else {
        lemma_clean_items_keep_every_piece(ps, n - 1);
        assert(m.drop_last() =~= ps.take(n - 1).map_values(|x: Seq<char>| trim(x)));
        assert(m.last() == trim(ps[n - 1]));
    }
}

/// A list body holding `,` or `、` yields one item per separated piece whose
/// trimmed text is not empty, in order.
pub proof fn lemma_comma_list_items(body: Seq<char>)
    requires
        body.len() > 0,
        contains(body, ","@) || contains(body, "、"@),
    ensures
        list_items(body) == pieces_from(body, 0).map_values(|x: Seq<char>| trim(x)).filter(
            |x: Seq<char>| x.len() > 0,
        ),
{
    let ps = pieces_from(body, 0);
    lemma_clean_items_keep_every_piece(ps, ps.len() as int);
    assert(ps.take(ps.len() as int) =~= ps);
}

/// A list body without `,` or `、` yields one item per line whose
/// bullet-stripped, trimmed text is not empty, in order.
pub proof fn lemma_line_list_items(body: Seq<char>)
    requires
        body.len() > 0,
        !contains(body, ","@),
        !contains(body, "、"@),
    ensures
        list_items(body) == lines(body).map_values(|l: Seq<char>| bullet_item(l)).filter(
            |x: Seq<char>| x.len() > 0,
        ),
{
    let ls = lines(body);
    lemma_bullet_items_keep_every_line(ls, ls.len() as int);
    assert(ls.take(ls.len() as int) =~= ls);
}

/// Items of a list body: comma-separated when it holds a `,` or `、`,
/// otherwise one per line (bullets allowed).
pub open spec fn list_items(body: Seq<char>) -> Seq<Seq<char>> {
    if body.len() == 0 {
        Seq::empty()
    } else if contains(body, ","@) || contains(body, "、"@) {
        let ps = pieces_from(body, 0);
        clean_items(ps, ps.len() as int)
    } else {
        let ls = lines(body);
        bullet_items(ls, ls.len() as int)
    }
}

fn split_list(s: &[char]) -> (r: Vec<String>)
    ensures
        string_views(r@) == clean_items(pieces_from(s@, 0), pieces_from(s@, 0).len() as int),
{
    let ghost ps = pieces_from(s@, 0);
    let mut out: Vec<String> = Vec::new();
    let mut i: usize = 0;
    let ghost mut count: int = 0;
    assert(ps.take(0) + pieces_from(s@, 0) =~= ps);
    loop
        invariant_except_break
            ps == ps.take(count) + pieces_from(s@, i as int),
            string_views(out@) == clean_items(ps, count),
        invariant
            i <= s@.len(),
            ps == pieces_from(s@, 0),
            0 <= count <= ps.len(),
        ensures
            string_views(out@) == clean_items(ps, ps.len() as int),
        decreases s@.len() + 1 - i,
    {
        let mut j = i;
        while j < s.len() && s[j] != ',' && s[j] != '、'
            invariant
                i <= j <= s@.len(),
                next_sep(s@, j as int) == next_sep(s@, i as int),
            decreases s.len() - j,
        {
            j = j + 1;
        }
        proof {
            lemma_next_sep(s@, i as int);
        }
        let piece = slice_chars(s, i, j);
        let t = trim_vec(&piece);
        let ghost before = out@;
        if t.len() > 0 {
            out.push(string_of(&t));
            assert(string_views(out@) =~= string_views(before).push(t@));
        }
        proof {
            assert(pieces_from(s@, i as int)[0] == piece@);
            assert(ps[count] == piece@);
        }
        if j == s.len() {
            proof {
                assert(pieces_from(s@, i as int) == seq![piece@]);
                assert(ps.len() == count + 1);
            }
            break ;
        }
        proof {
            assert(ps.take(count + 1) + pieces_from(s@, j + 1) =~= ps);
            count = count + 1;
        }
        i = j + 1;
    }
    out
}

fn slice_chars(s: &[char], a: usize, b: usize) -> (r: Vec<char>)
    requires
        a <= b <= s@.len(),
    ensures
        r@ == s@.subrange(a as int, b as int),
{
    crate::text::slice_vec(s, a, b)
}

/// Parse a section holding comma-separated or line-separated items.
pub fn parse_list_section(sections: &[(String, String)], keywords: &[&str]) -> (r: Vec<String>)
    ensures
        string_views(r@) == list_items(section_body(pair_views(sections@), str_views(keywords@))),
{
    let body = find_section(sections, keywords);
    let bc = chars_of(body.as_str());
    if bc.len() == 0 {
        return Vec::new();
    }
    if contains_exec(&bc, &chars_of(",")) || contains_exec(&bc, &chars_of("、")) {
        split_list(&bc)
    } else {
        let ls = lines_vec(&bc);
        let mut out: Vec<String> = Vec::new();
        let mut i: usize = 0;
        while i < ls.len()
            invariant
                i <= ls@.len(),
                views(ls@) == lines(bc@),
                string_views(out@) == bullet_items(views(ls@), i as int),
            decreases ls.len() - i,
        {
            assert(views(ls@)[i as int] == ls@[i as int]@);
            let t1 = trim_vec(&ls[i]);
            let t2 = trim_start_matches_str(&t1, "- ");
            let t3 = trim_vec(&t2);
            let ghost before = out@;
            if t3.len() > 0 {
                out.push(string_of(&t3));
                assert(string_views(out@) =~= string_views(before).push(t3@));
            }
            i = i + 1;
        }
        out
    }
}

} // verus!
