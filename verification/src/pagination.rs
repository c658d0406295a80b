//! Paginated listings: reading the `Link` header, picking the items of a page,
//! and handing out items page after page.
use vstd::prelude::*;
use crate::json::{as_text, get, get_member, JsonValue};
use crate::text::{
    chars_of, pieces_view, split, split_chars, string_of, trim,
    trim_bounds, trim_char, trim_char_end, trim_char_start,
};
use crate::http::{bearer, payload_view, share, Method, Payload, PayloadView, Request, Requester, Scope};
use crate::params::pairs_view;
use crate::urls::{join_url, parse_url, url_join, url_parse};
use std::collections::VecDeque;
use std::sync::Arc;

verus! {

/// The characters `rel=`.
pub open spec fn rel_prefix() -> Seq<char> {
    seq!['r', 'e', 'l', '=']
}

/// The characters `next`.
pub open spec fn next_word() -> Seq<char> {
    seq!['n', 'e', 'x', 't']
}

/// `s` without every leading `rel=` (`str::trim_start_matches("rel=")`).
pub open spec fn strip_rel(s: Seq<char>) -> Seq<char>
    decreases s.len(),
{
    if s.len() >= 4 && s.subrange(0, 4) == rel_prefix() {
        strip_rel(s.subrange(4, s.len() as int))
    } else {
        s
    }
}

/// The target and relation that one `;`-separated segment of a link sets, given
/// what the segments before it set: a `<...>` segment sets the target, a `rel=`
/// segment sets the relation (quotes removed), any other leaves both as they were.
pub open spec fn segment_effect(
    fields: (Option<Seq<char>>, Option<Seq<char>>),
    segment: Seq<char>,
) -> (Option<Seq<char>>, Option<Seq<char>>) {
    let s = trim(segment);
    if s.len() > 0 && s[0] == '<' && s[s.len() - 1] == '>' {
        (Some(s.subrange(1, s.len() - 1)), fields.1)
    } else if s.len() >= 4 && s.subrange(0, 4) == rel_prefix() {
        (fields.0, Some(trim_char(strip_rel(s), '"')))
    } else {
        fields
    }
}

/// The target and relation of a link made of `segments`; later segments win.
pub open spec fn link_fields(segments: Seq<Seq<char>>) -> (Option<Seq<char>>, Option<Seq<char>>)
    decreases segments.len(),
{
    if segments.len() == 0 {
        (None, None)
    } else {
        segment_effect(
            link_fields(segments.subrange(0, segments.len() - 1)),
            segments[segments.len() - 1],
        )
    }
}

/// The target of the first of `links` whose relation is `next` and which has a target.
pub open spec fn next_target(links: Seq<Seq<char>>) -> Option<Seq<char>>
    decreases links.len(),
{
    if links.len() == 0 {
        None
    } else {
        let f = link_fields(split(links[0], ';'));
        if f.1 == Some(next_word()) && f.0 is Some {
            f.0
        } else {
            next_target(links.subrange(1, links.len() as int))
        }
    }
}

/// The URL of the next page that a `Link` header names: the target of the first
/// comma-separated link with `rel="next"`, parsed as an absolute URL (`None` when
/// there is no such link, or its target does not parse).
pub open spec fn link_next(header: Seq<char>) -> Option<Seq<char>> {
    match next_target(split(header, ',')) {
        Some(t) => url_parse(t),
        None => None,
    }
}

/// `s`, `k` times over.
pub open spec fn repeat_text(s: Seq<char>, k: nat) -> Seq<char>
    decreases k,
{
    if k == 0 {
        seq![]
    } else {
        s + repeat_text(s, (k - 1) as nat)
    }
}

/// The text `rel=`, spelled out for [`names_next`] on its own.
pub open spec fn rel_key() -> Seq<char> {
    seq!['r', 'e', 'l', '=']
}

/// A double quote.
pub open spec fn quote() -> Seq<char> {
    seq!['"']
}

/// A `;`-separated segment of a link that names the relation `next`: once
/// blanks around it are dropped, it is `rel=` (one or more times), then the
/// word `next` with any number of quotes before and after it.
pub open spec fn names_next(segment: Seq<char>) -> bool {
    exists|k: nat, a: nat, b: nat|
        #![trigger repeat_text(rel_key(), k), repeat_text(quote(), a), repeat_text(quote(), b)]
        k >= 1 && trim(segment) == repeat_text(rel_key(), k) + repeat_text(quote(), a) + seq!['n', 'e', 'x', 't']
            + repeat_text(quote(), b)
}

/// A link (one comma-separated part of a `Link` header) one of whose segments
/// names the relation `next`, and one of whose segments is `<target>`.
pub open spec fn link_to_next(link: Seq<char>, target: Seq<char>) -> bool {
    &&& exists|j: int| 0 <= j < split(link, ';').len() && #[trigger] names_next(split(link, ';')[j])
    &&& exists|m: int|
        0 <= m < split(link, ';').len() && #[trigger] trim(split(link, ';')[m]) == seq!['<'] + target + seq!['>']
}

proof fn lemma_strip_rel_shape(s: Seq<char>) -> (k: nat)
    ensures
        s == repeat_text(rel_prefix(), k) + strip_rel(s),
        s.len() >= 4 && s.subrange(0, 4) == rel_prefix() ==> k >= 1,
    decreases s.len(),
{
    if s.len() >= 4 && s.subrange(0, 4) == rel_prefix() {
        let t = s.subrange(4, s.len() as int);
        let k0 = lemma_strip_rel_shape(t);
        assert(repeat_text(rel_prefix(), k0 + 1) == rel_prefix() + repeat_text(rel_prefix(), k0));
        assert(s =~= rel_prefix() + t);
        assert(rel_prefix() + (repeat_text(rel_prefix(), k0) + strip_rel(t)) =~= (rel_prefix() + repeat_text(
            rel_prefix(),
            k0,
        )) + strip_rel(t));
        k0 + 1
    } else {
        assert(s =~= repeat_text(rel_prefix(), 0) + s);
        0
    }
}

proof fn lemma_trim_char_start_shape(s: Seq<char>, c: char) -> (a: nat)
    ensures
        s == repeat_text(seq![c], a) + trim_char_start(s, c),
    decreases s.len(),
{
    if s.len() > 0 && s[0] == c {
        let t = s.subrange(1, s.len() as int);
        let a0 = lemma_trim_char_start_shape(t, c);
        assert(repeat_text(seq![c], a0 + 1) == seq![c] + repeat_text(seq![c], a0));
        assert(s =~= seq![c] + t);
        assert(seq![c] + (repeat_text(seq![c], a0) + trim_char_start(t, c)) =~= (seq![c] + repeat_text(
            seq![c],
            a0,
        )) + trim_char_start(t, c));
        a0 + 1
    } else {
        assert(s =~= repeat_text(seq![c], 0) + s);
        0
    }
}

proof fn lemma_repeat_push(s: Seq<char>, c: char, b: nat)
    ensures
        repeat_text(seq![c], b) + seq![c] == repeat_text(seq![c], b + 1),
    decreases b,
{
    if b > 0 {
        lemma_repeat_push(s, c, (b - 1) as nat);
        assert(seq![c] + (repeat_text(seq![c], (b - 1) as nat) + seq![c]) =~= (seq![c] + repeat_text(
            seq![c],
            (b - 1) as nat,
        )) + seq![c]);
        assert(repeat_text(seq![c], b + 1) == seq![c] + repeat_text(seq![c], b));
    } else {
        assert(repeat_text(seq![c], 1) == seq![c] + repeat_text(seq![c], 0));
        assert(repeat_text(seq![c], 0) + seq![c] =~= seq![c] + Seq::<char>::empty());
    }
}

proof fn lemma_trim_char_end_shape(s: Seq<char>, c: char) -> (b: nat)
    ensures
        s == trim_char_end(s, c) + repeat_text(seq![c], b),
    decreases s.len(),
{
    if s.len() > 0 && s[s.len() - 1] == c {
        let t = s.subrange(0, s.len() - 1);
        let b0 = lemma_trim_char_end_shape(t, c);
        lemma_repeat_push(s, c, b0);
        assert(s =~= t + seq![c]);
        assert((trim_char_end(t, c) + repeat_text(seq![c], b0)) + seq![c] =~= trim_char_end(t, c) + (
        repeat_text(seq![c], b0) + seq![c]));
        b0 + 1
    } else {
        assert(s =~= s + repeat_text(seq![c], 0));
        0
    }
}

/// A segment whose relation reads `next` names it.
proof fn lemma_rel_segment_names_next(segment: Seq<char>)
    requires
        trim(segment).len() >= 4 && trim(segment).subrange(0, 4) == rel_prefix(),
        trim_char(strip_rel(trim(segment)), '"') == next_word(),
    ensures
        names_next(segment),
{
    let s = trim(segment);
    let r = strip_rel(s);
    let k = lemma_strip_rel_shape(s);
    let a = lemma_trim_char_start_shape(r, '"');
    let u = trim_char_start(r, '"');
    let b = lemma_trim_char_end_shape(u, '"');
    assert(trim_char_end(u, '"') == next_word());
    assert(rel_prefix() == rel_key());
    assert(seq!['"'] == quote());
    assert(next_word() == seq!['n', 'e', 'x', 't']);
    assert(s =~= repeat_text(rel_key(), k) + repeat_text(quote(), a) + seq!['n', 'e', 'x', 't'] + repeat_text(
        quote(),
        b,
    ));
}

/// The relation and target of a link come from its segments.
proof fn lemma_link_fields_from_segments(segs: Seq<Seq<char>>)
    ensures
        link_fields(segs).1 matches Some(r) ==> exists|j: int|
            0 <= j < segs.len() && #[trigger] trim(segs[j]).len() >= 4 && trim(segs[j]).subrange(0, 4) == rel_prefix()
                && trim_char(strip_rel(trim(segs[j])), '"') == r,
        link_fields(segs).0 matches Some(t) ==> exists|m: int|
            0 <= m < segs.len() && #[trigger] trim(segs[m]) == seq!['<'] + t + seq!['>'],
    decreases segs.len(),
{
    if segs.len() > 0 {
        let init = segs.subrange(0, segs.len() - 1);
        lemma_link_fields_from_segments(init);
        let last = segs.len() - 1;
        let s = trim(segs[last]);
        if link_fields(segs).1 != link_fields(init).1 {
            assert(trim(segs[last]).len() >= 4 && trim(segs[last]).subrange(0, 4) == rel_prefix());
        } else if link_fields(segs).1 is Some {
            let r = link_fields(segs).1->Some_0;
            let j = choose|j: int|
                0 <= j < init.len() && #[trigger] trim(init[j]).len() >= 4 && trim(init[j]).subrange(0, 4)
                    == rel_prefix() && trim_char(strip_rel(trim(init[j])), '"') == r;
            assert(init[j] == segs[j]);
        }
        if link_fields(segs).0 != link_fields(init).0 {
            assert(s =~= seq!['<'] + s.subrange(1, s.len() - 1) + seq!['>']);
            assert(trim(segs[last]) == seq!['<'] + link_fields(segs).0->Some_0 + seq!['>']);
        } else if link_fields(segs).0 is Some {
            let t = link_fields(segs).0->Some_0;
            let m = choose|m: int| 0 <= m < init.len() && #[trigger] trim(init[m]) == seq!['<'] + t + seq!['>'];
            assert(init[m] == segs[m]);
        }
    }
}

/// The link that `next_target` picks.
proof fn lemma_next_target_link(links: Seq<Seq<char>>)
    ensures
        next_target(links) matches Some(t) ==> exists|i: int|
            0 <= i < links.len() && #[trigger] link_fields(split(links[i], ';')) == (
            Some(t),
            Some(next_word()),
        ),
    decreases links.len(),
{
    if links.len() > 0 {
        let rest = links.subrange(1, links.len() as int);
        lemma_next_target_link(rest);
        let f = link_fields(split(links[0], ';'));
        if f.1 == Some(next_word()) && f.0 is Some {
            assert(link_fields(split(links[0], ';')) == (f.0, Some(next_word())));
        } else if next_target(rest) is Some {
            let t = next_target(rest)->Some_0;
            let i = choose|i: int|
                0 <= i < rest.len() && #[trigger] link_fields(split(rest[i], ';')) == (Some(t), Some(next_word()));
            assert(rest[i] == links[i + 1]);
        }
    }
}

/// The next page is taken only from a link that names the relation `next`:
/// when a `Link` header gives a next page, one of its links has a segment
/// `rel=next` (quotes allowed) and a segment `<target>`, and the next page is
/// that target read as a URL. So a header whose links are only `current`,
/// `prev`, `first` or `last` gives no next page.
pub proof fn lemma_next_page_is_named_next(header: Seq<char>)
    ensures
        link_next(header) matches Some(u) ==> exists|i: int, t: Seq<char>|
            0 <= i < split(header, ',').len() && #[trigger] link_to_next(split(header, ',')[i], t)
                && url_parse(t) == Some(u),
{
    let links = split(header, ',');
    lemma_next_target_link(links);
    if link_next(header) is Some {
        let t = next_target(links)->Some_0;
        let i = choose|i: int|
            0 <= i < links.len() && #[trigger] link_fields(split(links[i], ';')) == (Some(t), Some(next_word()));
        let segs = split(links[i], ';');
        lemma_link_fields_from_segments(segs);
        let j = choose|j: int|
            0 <= j < segs.len() && #[trigger] trim(segs[j]).len() >= 4 && trim(segs[j]).subrange(0, 4)
                == rel_prefix() && trim_char(strip_rel(trim(segs[j])), '"') == next_word();
        lemma_rel_segment_names_next(segs[j]);
        assert(link_to_next(links[i], t));
    }
}

fn starts_with_rel(v: &Vec<char>, a: usize, b: usize) -> (r: bool)
    requires
        a <= b <= v@.len(),
    ensures
        r == (v@.subrange(a as int, b as int).len() >= 4 && v@.subrange(a as int, b as int).subrange(
            0,
            4,
        ) == rel_prefix()),
{
    if b - a < 4 {
        return false;
    }
    let r = v[a] == 'r' && v[a + 1] == 'e' && v[a + 2] == 'l' && v[a + 3] == '=';
    let ghost s = v@.subrange(a as int, b as int);
    proof {
        if r {
            assert(s.subrange(0, 4) =~= rel_prefix());
        } else {
            if s.subrange(0, 4) == rel_prefix() {
                assert(s.subrange(0, 4)[0] == 'r');
                assert(s.subrange(0, 4)[1] == 'e');
                assert(s.subrange(0, 4)[2] == 'l');
                assert(s.subrange(0, 4)[3] == '=');
            }
        }
    }
    r
}

/// The bounds of the relation value in `v[a..b]`: every leading `rel=` dropped,
/// then the quotes at both ends.
fn relation_bounds(v: &Vec<char>, a: usize, b: usize) -> (r: (usize, usize))
    requires
        a <= b <= v@.len(),
    ensures
        a <= r.0 <= r.1 <= b,
        v@.subrange(r.0 as int, r.1 as int) == trim_char(strip_rel(v@.subrange(a as int, b as int)), '"'),
{
    let mut x = a;
    while starts_with_rel(v, x, b)
        invariant
            a <= x <= b <= v@.len(),
            strip_rel(v@.subrange(a as int, b as int)) == strip_rel(v@.subrange(x as int, b as int)),
        decreases b - x,
    {
        let ghost s = v@.subrange(x as int, b as int);
        assert(s.subrange(4, s.len() as int) =~= v@.subrange(x + 4, b as int));
        x = x + 4;
    }
    let mut y = x;
    while y < b && v[y] == '"'
        invariant
            x <= y <= b <= v@.len(),
            trim_char_start(v@.subrange(x as int, b as int), '"') == trim_char_start(
                v@.subrange(y as int, b as int),
                '"',
            ),
        decreases b - y,
    {
        let ghost s = v@.subrange(y as int, b as int);
        assert(s.subrange(1, s.len() as int) =~= v@.subrange(y + 1, b as int));
        y = y + 1;
    }
    let mut z = b;
    while z > y && v[z - 1] == '"'
        invariant
            y <= z <= b <= v@.len(),
            trim_char(v@.subrange(x as int, b as int), '"') == trim_char_end(
                v@.subrange(y as int, z as int),
                '"',
            ),
        decreases z - y,
    {
        let ghost s = v@.subrange(y as int, z as int);
        assert(s.subrange(0, s.len() - 1) =~= v@.subrange(y as int, z - 1));
        z = z - 1;
    }
    (y, z)
}

/// The target and relation of one link, as bounds into `v`.
fn fields_of(v: &Vec<char>, segments: &Vec<Vec<char>>) -> (r: (Option<Vec<char>>, Option<Vec<char>>))
    ensures
        (match r.0 {
            Some(t) => Some(t@),
            None => None,
        }, match r.1 {
            Some(t) => Some(t@),
            None => None,
        }) == link_fields(pieces_view(segments@)),
{
    let mut target: Option<Vec<char>> = None;
    let mut relation: Option<Vec<char>> = None;
    let mut i: usize = 0;
    while i < segments.len()
        invariant
            i <= segments@.len(),
            (match target {
                Some(t) => Some(t@),
                None => None,
            }, match relation {
                Some(t) => Some(t@),
                None => None,
            }) == link_fields(pieces_view(segments@).subrange(0, i as int)),
        decreases segments@.len() - i,
    {
        let seg = &segments[i];
        let (a, b) = trim_bounds(seg, 0, seg.len());
        let ghost s = seg@.subrange(a as int, b as int);
        proof {
            let prefix = pieces_view(segments@).subrange(0, i + 1);
            assert(prefix.subrange(0, prefix.len() - 1) =~= pieces_view(segments@).subrange(0, i as int));
            assert(prefix[prefix.len() - 1] == seg@);
            assert(seg@.subrange(0, seg@.len() as int) =~= seg@);
        }
        if b > a && seg[a] == '<' && seg[b - 1] == '>' {
            let mut t: Vec<char> = Vec::new();
            let mut k = a + 1;
            while k < b - 1
                invariant
                    a + 1 <= k <= b - 1,
                    b <= seg@.len(),
                    t@ == seg@.subrange(a + 1, k as int),
                decreases b - 1 - k,
            {
                t.push(seg[k]);
                assert(t@ =~= seg@.subrange(a + 1, k + 1));
                k = k + 1;
            }
            assert(t@ =~= s.subrange(1, s.len() - 1));
            target = Some(t);
        } else if starts_with_rel(seg, a, b) {
            let (c, d) = relation_bounds(seg, a, b);
            let mut t: Vec<char> = Vec::new();
            let mut k = c;
            while k < d
                invariant
                    c <= k <= d <= seg@.len(),
                    t@ == seg@.subrange(c as int, k as int),
                decreases d - k,
            {
                t.push(seg[k]);
                assert(t@ =~= seg@.subrange(c as int, k + 1));
                k = k + 1;
            }
            relation = Some(t);
        }
        i = i + 1;
    }
    assert(pieces_view(segments@).subrange(0, segments@.len() as int) =~= pieces_view(segments@));
    (target, relation)
}

fn is_next(t: &Vec<char>) -> (b: bool)
    ensures
        b == (t@ == next_word()),
{
    let b = t.len() == 4 && t[0] == 'n' && t[1] == 'e' && t[2] == 'x' && t[3] == 't';
    proof {
        if b {
            assert(t@ =~= next_word());
        } else if t@ == next_word() {
            assert(t@[0] == 'n' && t@[1] == 'e' && t@[2] == 'x' && t@[3] == 't');
        }
    }
    b
}

/// The URL of the next page named by a `Link` header such as
/// `<https://canvas.example.edu/api/v1/courses?page=2>; rel="next", <...>; rel="last"`.
pub fn parse_link_next(header: &str) -> (r: Option<String>)
    ensures
        match r {
            Some(u) => link_next(header@) == Some(u@),
            None => link_next(header@) is None,
        },
{
    let v = chars_of(header);
    let links = split_chars(&v, 0, v.len(), ',');
    assert(v@.subrange(0, v@.len() as int) =~= header@);
    let ghost all = pieces_view(links@);
    assert(all.subrange(0, all.len() as int) =~= all);
    let mut i: usize = 0;
    while i < links.len()
        invariant
            i <= links@.len(),
            all == pieces_view(links@),
            all == split(header@, ','),
            next_target(all) == next_target(all.subrange(i as int, all.len() as int)),
        decreases links@.len() - i,
    {
        let link = &links[i];
        let segments = split_chars(link, 0, link.len(), ';');
        assert(link@.subrange(0, link@.len() as int) =~= link@);
        let (target, relation) = fields_of(link, &segments);
        let ghost rest = all.subrange(i as int, all.len() as int);
        assert(rest[0] == link@);
        assert(rest.subrange(1, rest.len() as int) =~= all.subrange(i + 1, all.len() as int));
        let matched = match &relation {
            Some(rel) => is_next(rel),
            None => false,
        };
        if matched {
            match target {
                Some(t) => {
                    let text = string_of(&t, 0, t.len());
                    assert(t@.subrange(0, t@.len() as int) =~= t@);
                    assert(link_fields(split(link@, ';')).0 == Some(t@));
                    assert(next_target(rest) == Some(t@));
                    return match parse_url(text.as_str()) {
                        Ok(u) => Some(u),
                        Err(_) => None,
                    };
                },
                None => {},
            }
        }
        i = i + 1;
    }
    None
}

/// The first member of an object whose value is an array: its elements.
pub open spec fn first_array(entries: Seq<(String, JsonValue)>) -> Option<Seq<JsonValue>>
    decreases entries.len(),
{
    if entries.len() == 0 {
        None
    } else {
        match entries[0].1 {
            JsonValue::Array(items) => Some(items@),
            _ => first_array(entries.subrange(1, entries.len() as int)),
        }
    }
}

/// The items of a page: the body itself when it is an array; for an object, the
/// elements of its first member that is an array; nothing otherwise.
pub open spec fn page_items_of(body: JsonValue) -> Seq<JsonValue> {
    match body {
        JsonValue::Array(items) => items@,
        JsonValue::Object(entries) => match first_array(entries@) {
            Some(items) => items,
            None => seq![],
        },
        _ => seq![],
    }
}

/// The items of a page body (see [`page_items_of`]).
pub fn page_items(body: &JsonValue) -> (r: &[JsonValue])
    ensures
        r@ == page_items_of(*body),
{
    match body {
        JsonValue::Array(items) => items.as_slice(),
        JsonValue::Object(entries) => {
            let mut i: usize = 0;
            assert(entries@.subrange(0, entries@.len() as int) =~= entries@);
            while i < entries.len()
                invariant
                    i <= entries@.len(),
                    first_array(entries@) == first_array(entries@.subrange(i as int, entries@.len() as int)),
                    page_items_of(*body) == match first_array(entries@) {
                        Some(items) => items,
                        None => seq![],
                    },
                decreases entries@.len() - i,
            {
                let ghost rest = entries@.subrange(i as int, entries@.len() as int);
                assert(rest[0] == entries@[i as int]);
                assert(rest.subrange(1, rest.len() as int) =~= entries@.subrange(i + 1, entries@.len() as int));
                match &entries[i].1 {
                    JsonValue::Array(items) => {
                        return items.as_slice();
                    },
                    _ => {},
                }
                i = i + 1;
            }
            &[]
        },
        _ => &[],
    }
}

/// The next-page URL in a body's `meta.pagination.next`, if it is a string that
/// parses as an absolute URL.
pub open spec fn meta_next(body: JsonValue) -> Option<Seq<char>> {
    match get_member(body, "meta"@) {
        Some(meta) => match get_member(meta, "pagination"@) {
            Some(pagination) => match get_member(pagination, "next"@) {
                Some(next) => match as_text(next) {
                    Some(t) => url_parse(t),
                    None => None,
                },
                None => None,
            },
            None => None,
        },
        None => None,
    }
}

/// The URL of the page after this one: the `Link` header's `next` link, else
/// the body's `meta.pagination.next`.
pub open spec fn page_next(link: Option<Seq<char>>, body: JsonValue) -> Option<Seq<char>> {
    let from_link = match link {
        Some(h) => link_next(h),
        None => None,
    };
    match from_link {
        Some(u) => Some(u),
        None => meta_next(body),
    }
}

fn meta_next_url(body: &JsonValue) -> (r: Option<String>)
    ensures
        match r {
            Some(u) => meta_next(*body) == Some(u@),
            None => meta_next(*body) is None,
        },
{
    let meta = match get(body, "meta") {
        Some(m) => m,
        None => return None,
    };
    let pagination = match get(meta, "pagination") {
        Some(p) => p,
        None => return None,
    };
    let next = match get(pagination, "next") {
        Some(n) => n,
        None => return None,
    };
    match next {
        JsonValue::String(t) => match parse_url(t.as_str()) {
            Ok(u) => Some(u),
            Err(_) => None,
        },
        _ => None,
    }
}

/// The URL of the page after the one with this `Link` header (`None` when there
/// is none, or it is not text) and body (see [`page_next`]).
pub fn page_next_url(link: Option<&str>, body: &JsonValue) -> (r: Option<String>)
    ensures
        match r {
            Some(u) => page_next(
                match link {
                    Some(h) => Some(h@),
                    None => None,
                },
                *body,
            ) == Some(u@),
            None => page_next(
                match link {
                    Some(h) => Some(h@),
                    None => None,
                },
                *body,
            ) is None,
        },
{
    let from_link = match link {
        Some(h) => parse_link_next(h),
        None => None,
    };
    match from_link {
        Some(u) => Some(u),
        None => meta_next_url(body),
    }
}

/// The characters `per_page`.
pub open spec fn per_page_key() -> Seq<char> {
    seq!['p', 'e', 'r', '_', 'p', 'a', 'g', 'e']
}

/// The parameters of a listing: the caller's, with `per_page=100` added when
/// they set no `per_page`.
pub open spec fn listing_params(params: Seq<(Seq<char>, Seq<char>)>) -> Seq<(Seq<char>, Seq<char>)> {
    if exists|i: int| 0 <= i < params.len() && #[trigger] params[i].0 == per_page_key() {
        params
    } else {
        params.push((per_page_key(), seq!['1', '0', '0']))
    }
}

/// Every listing asks for a page size: its parameters always set `per_page`.
/// The caller's parameters come first, unchanged, and a caller's own `per_page`
/// is kept; adding the default a second time changes nothing.
pub proof fn lemma_listing_params(params: Seq<(Seq<char>, Seq<char>)>)
    ensures
        exists|i: int|
            0 <= i < listing_params(params).len() && #[trigger] listing_params(params)[i].0 == per_page_key(),
        listing_params(params).subrange(0, params.len() as int) == params,
        (exists|i: int| 0 <= i < params.len() && #[trigger] params[i].0 == per_page_key())
            ==> listing_params(params) == params,
        listing_params(listing_params(params)) == listing_params(params),
{
    let l = listing_params(params);
    if exists|i: int| 0 <= i < params.len() && #[trigger] params[i].0 == per_page_key() {
        assert(l == params);
        assert(l.subrange(0, params.len() as int) =~= params);
    } else {
        assert(l[params.len() as int].0 == per_page_key());
        assert(l.subrange(0, params.len() as int) =~= params);
    }
}

fn is_per_page(k: &String) -> (b: bool)
    ensures
        b == (k@ == per_page_key()),
{
    let v = chars_of(k.as_str());
    let b = v.len() == 8 && v[0] == 'p' && v[1] == 'e' && v[2] == 'r' && v[3] == '_' && v[4]
        == 'p' && v[5] == 'a' && v[6] == 'g' && v[7] == 'e';
    proof {
        if b {
            assert(v@ =~= per_page_key());
        } else if k@ == per_page_key() {
            assert(v@[0] == 'p' && v@[1] == 'e' && v@[2] == 'r' && v@[3] == '_' && v@[4] == 'p'
                && v@[5] == 'a' && v@[6] == 'g' && v@[7] == 'e');
        }
    }
    b
}

fn text_100() -> (s: String)
    ensures
        s@ == seq!['1', '0', '0'],
{
    let mut s = String::new();
    crate::text::push_char(&mut s, '1');
    crate::text::push_char(&mut s, '0');
    crate::text::push_char(&mut s, '0');
    assert(s@ =~= seq!['1', '0', '0']);
    s
}

fn per_page_text() -> (s: String)
    ensures
        s@ == per_page_key(),
{
    let mut s = String::new();
    crate::text::push_char(&mut s, 'p');
    crate::text::push_char(&mut s, 'e');
    crate::text::push_char(&mut s, 'r');
    crate::text::push_char(&mut s, '_');
    crate::text::push_char(&mut s, 'p');
    crate::text::push_char(&mut s, 'a');
    crate::text::push_char(&mut s, 'g');
    crate::text::push_char(&mut s, 'e');
    assert(s@ =~= per_page_key());
    s
}

/// Adds `per_page=100` to the parameters of a listing unless they set `per_page`.
pub fn with_default_per_page(mut params: Vec<(String, String)>) -> (r: Vec<(String, String)>)
    ensures
        pairs_view(r@) == listing_params(pairs_view(params@)),
{
    let ghost given = pairs_view(params@);
    let mut i: usize = 0;
    while i < params.len()
        invariant
            i <= params@.len(),
            given == pairs_view(params@),
            forall|j: int| 0 <= j < i ==> #[trigger] given[j].0 != per_page_key(),
        decreases params@.len() - i,
    {
        if is_per_page(&params[i].0) {
            assert(given[i as int].0 == per_page_key());
            return params;
        }
        i = i + 1;
    }
    params.push((per_page_text(), text_100()));
    assert(pairs_view(params@) =~= given.push((per_page_key(), seq!['1', '0', '0'])));
    params
}

fn copy_params(p: &Vec<(String, String)>) -> (r: Vec<(String, String)>)
    ensures
        pairs_view(r@) == pairs_view(p@),
{
    let mut r: Vec<(String, String)> = Vec::new();
    let mut i: usize = 0;
    while i < p.len()
        invariant
            i <= p@.len(),
            r@.len() == i,
            pairs_view(r@) == pairs_view(p@).subrange(0, i as int),
        decreases p@.len() - i,
    {
        let pair = &p[i];
        let k = pair.0.clone();
        let v = pair.1.clone();
        assert(k@ == p@[i as int].0@ && v@ == p@[i as int].1@);
        let ghost before = r@;
        r.push((k, v));
        assert(r@ == before.push((k, v)));
        assert forall|j: int| 0 <= j < i implies #[trigger] pairs_view(r@)[j] == pairs_view(p@)[j] by {
            assert(r@[j] == before[j]);
            assert(pairs_view(before)[j] == pairs_view(p@).subrange(0, i as int)[j]);
        }
        assert(pairs_view(r@) =~= pairs_view(p@).subrange(0, i + 1));
        i = i + 1;
    }
    assert(pairs_view(p@).subrange(0, p@.len() as int) =~= pairs_view(p@));
    r
}

/// The state of a listing as plain values: the items fetched but not yet handed
/// out, and the URL of the page still to fetch.
pub struct PageState<T> {
    pub buffer: Seq<T>,
    pub next: Option<Seq<char>>,
}

/// One step of a listing, as plain values.
pub enum StepView<T> {
    Item(T),
    Fetch(Seq<char>),
    Done,
}

/// One step of a listing: hand out the oldest buffered item; when none is left,
/// fetch the next page, which the state then no longer holds; when there is no
/// next page either, stop, leaving the state as it was.
pub open spec fn page_step<T>(s: PageState<T>) -> (StepView<T>, PageState<T>) {
    if s.buffer.len() > 0 {
        (StepView::Item(s.buffer[0]), PageState { buffer: s.buffer.subrange(1, s.buffer.len() as int), next: s.next })
    } else {
        match s.next {
            Some(u) => (StepView::Fetch(u), PageState { buffer: seq![], next: None }),
            None => (StepView::Done, s),
        }
    }
}

/// The state after `n` steps.
pub open spec fn after_steps<T>(s: PageState<T>, n: nat) -> PageState<T>
    decreases n,
{
    if n == 0 {
        s
    } else {
        after_steps(page_step(s).1, (n - 1) as nat)
    }
}

/// What the step after `n` steps does.
pub open spec fn step_at<T>(s: PageState<T>, n: nat) -> StepView<T> {
    page_step(after_steps(s, n)).0
}

/// A listing hands out the items of a page in the order of the page, each once:
/// the `i`-th step from a state with buffered items gives the `i`-th of them.
pub proof fn lemma_items_in_order<T>(s: PageState<T>, i: nat)
    requires
        i < s.buffer.len(),
    ensures
        step_at(s, i) == StepView::Item(s.buffer[i as int]),
        after_steps(s, i).buffer == s.buffer.subrange(i as int, s.buffer.len() as int),
        after_steps(s, i).next == s.next,
    decreases i,
{
    if i == 0 {
        assert(s.buffer.subrange(0, s.buffer.len() as int) =~= s.buffer);
    } else {
        let t = page_step(s).1;
        lemma_items_in_order(t, (i - 1) as nat);
        assert(t.buffer.subrange(i - 1, t.buffer.len() as int) =~= s.buffer.subrange(i as int, s.buffer.len() as int));
    }
}

/// Once every buffered item is handed out, a listing fetches the next page if
/// there is one, and stops otherwise.
pub proof fn lemma_fetch_after_items<T>(s: PageState<T>)
    ensures
        step_at(s, s.buffer.len()) == (match s.next {
            Some(u) => StepView::<T>::Fetch(u),
            None => StepView::<T>::Done,
        }),
    decreases s.buffer.len(),
{
    if s.buffer.len() > 0 {
        let t = page_step(s).1;
        lemma_fetch_after_items(t);
        assert(after_steps(s, s.buffer.len()) == after_steps(t, t.buffer.len()));
    } else {
        assert(after_steps(s, 0) == s);
    }
}

/// A listing that has stopped stays stopped.
pub proof fn lemma_done_is_final<T>(s: PageState<T>, n: nat)
    requires
        page_step(s).0 is Done,
    ensures
        after_steps(s, n) == s,
        step_at(s, n) is Done,
    decreases n,
{
    if n > 0 {
        lemma_done_is_final(s, (n - 1) as nat);
    }
}

/// The state a listing is in once a page has been taken in
/// ([`PageStream::page_loaded`]): the page's items, and the URL of the page
/// after it.
pub open spec fn loaded<T>(page: (Seq<T>, Option<Seq<char>>)) -> PageState<T> {
    PageState { buffer: page.0, next: page.1 }
}

/// Running a listing from `s` for at most `fuel` steps, answering each fetch
/// with the next of `pages`: the items it hands out, the URLs it fetches, and
/// whether it stopped. It also stops, unfinished, at a fetch that no page is
/// left to answer.
pub open spec fn drive<T>(s: PageState<T>, pages: Seq<(Seq<T>, Option<Seq<char>>)>, fuel: nat) -> (
    Seq<T>,
    Seq<Seq<char>>,
    bool,
)
    decreases fuel,
{
    if fuel == 0 {
        (seq![], seq![], false)
    } else {
        let (v, t) = page_step(s);
        match v {
            StepView::Item(x) => {
                let r = drive(t, pages, (fuel - 1) as nat);
                (seq![x] + r.0, r.1, r.2)
            },
            StepView::Fetch(u) => if pages.len() == 0 {
                (seq![], seq![u], false)
            } else {
                let r = drive(loaded(pages[0]), pages.drop_first(), (fuel - 1) as nat);
                (r.0, seq![u] + r.1, r.2)
            },
            StepView::Done => (seq![], seq![], true),
        }
    }
}

/// What a whole listing gives from `s`, page after page: the buffered items,
/// then the items of each page fetched, in order; one fetch of each next URL;
/// and whether it ran out of pages to fetch (rather than of answers).
pub open spec fn pages_run<T>(s: PageState<T>, pages: Seq<(Seq<T>, Option<Seq<char>>)>) -> (
    Seq<T>,
    Seq<Seq<char>>,
    bool,
)
    decreases pages.len(),
{
    match s.next {
        None => (s.buffer, seq![], true),
        Some(u) => if pages.len() == 0 {
            (s.buffer, seq![u], false)
        } else {
            let r = pages_run(loaded(pages[0]), pages.drop_first());
            (s.buffer + r.0, seq![u] + r.1, r.2)
        },
    }
}

/// The number of steps a whole listing takes from `s` with `pages`.
pub open spec fn run_steps<T>(s: PageState<T>, pages: Seq<(Seq<T>, Option<Seq<char>>)>) -> nat
    decreases pages.len(),
{
    s.buffer.len() + 1 + match s.next {
        Some(_) => if pages.len() > 0 {
            run_steps(loaded(pages[0]), pages.drop_first())
        } else {
            0
        },
        None => 0,
    }
}

proof fn lemma_drive_buffer<T>(s: PageState<T>, pages: Seq<(Seq<T>, Option<Seq<char>>)>, f: nat)
    ensures
        drive(s, pages, s.buffer.len() + f) == ({
            let r = drive(PageState { buffer: seq![], next: s.next }, pages, f);
            (s.buffer + r.0, r.1, r.2)
        }),
    decreases s.buffer.len(),
{
    if s.buffer.len() > 0 {
        let t = page_step(s).1;
        lemma_drive_buffer(t, pages, f);
        let r = drive(PageState { buffer: seq![], next: s.next }, pages, f);
        assert(seq![s.buffer[0]] + (t.buffer + r.0) =~= s.buffer + r.0);
        assert((s.buffer.len() + f) as nat - 1 == t.buffer.len() + f);
    } else {
        let r = drive(PageState { buffer: seq![], next: s.next }, pages, f);
        assert(s.buffer + r.0 =~= r.0);
        assert(s.buffer =~= Seq::<T>::empty());
        assert(s == PageState::<T> { buffer: seq![], next: s.next });
    }
}

/// A whole listing, run to its end with each fetch answered by the next page,
/// hands out the buffered items, then the items of the first page, then those
/// of the second, and so on, each once and in order; it fetches each page's
/// next URL once, starting from the listing's own; and it stops after the page
/// that names no next page.
pub proof fn lemma_listing_collects_pages<T>(s: PageState<T>, pages: Seq<(Seq<T>, Option<Seq<char>>)>)
    ensures
        drive(s, pages, run_steps(s, pages)) == pages_run(s, pages),
    decreases pages.len(),
{
    let rest = (run_steps(s, pages) - s.buffer.len()) as nat;
    lemma_drive_buffer(s, pages, rest);
    let e = PageState::<T> { buffer: seq![], next: s.next };
    match s.next {
        None => {
            assert(drive(e, pages, rest) == (Seq::<T>::empty(), Seq::<Seq<char>>::empty(), true));
            assert(s.buffer + Seq::<T>::empty() =~= s.buffer);
        },
        Some(u) => {
            if pages.len() == 0 {
                assert(drive(e, pages, rest) == (Seq::<T>::empty(), seq![u], false));
                assert(s.buffer + Seq::<T>::empty() =~= s.buffer);
            } else {
                lemma_listing_collects_pages(loaded(pages[0]), pages.drop_first());
                assert((rest - 1) as nat == run_steps(loaded(pages[0]), pages.drop_first()));
            }
        },
    }
}

/// `s` is a fresh listing of `endpoint` below `root`, fetched with `requester`,
/// with `params` (and the default page size) and items taking `scope`.
pub open spec fn lists<T>(
    s: PageStream<T>,
    requester: Requester,
    root: Seq<char>,
    endpoint: Seq<char>,
    params: Seq<(Seq<char>, Seq<char>)>,
    scope: Scope,
) -> bool {
    &&& s.state().buffer.len() == 0
    &&& s.state().next == url_join(root, endpoint)
    &&& s.query() == listing_params(params)
    &&& s.requester() == requester
    &&& s.item_scope() == scope
}

/// What a listing does next.
pub enum PageStep<T> {
    /// An item to hand out.
    Item(T),
    /// A page to fetch; its items and next URL go to [`PageStream::page_loaded`].
    Fetch(Request),
    /// No items are left.
    Done,
}

/// A Canvas listing, fetched lazily page by page.
pub struct PageStream<T> {
    requester: Arc<Requester>,
    next_url: Option<String>,
    params: Vec<(String, String)>,
    buffer: VecDeque<T>,
    scope: Scope,
}

impl<T> PageStream<T> {
    /// The state as plain values.
    pub closed spec fn state(&self) -> PageState<T> {
        PageState {
            buffer: self.buffer@,
            next: match self.next_url {
                Some(u) => Some(u@),
                None => None,
            },
        }
    }

    /// The parameters sent with every page.
    pub closed spec fn query(&self) -> Seq<(Seq<char>, Seq<char>)> {
        pairs_view(self.params@)
    }

    /// The context that the items of the listing take.
    pub closed spec fn item_scope(&self) -> Scope {
        self.scope
    }

    /// The requester the pages are fetched with.
    pub closed spec fn requester(&self) -> Requester {
        *self.requester
    }

    /// Another handle on the requester the pages are fetched with; the items
    /// of the listing take it.
    pub fn requester_handle(&self) -> (r: Arc<Requester>)
        ensures
            *r == self.requester(),
    {
        share(&self.requester)
    }

    /// A listing of `endpoint` below `root`.
    fn starting_at(requester: Arc<Requester>, root: &str, endpoint: &str, params: Vec<(String, String)>) -> (s: Self)
        ensures
            s.state().buffer.len() == 0,
            s.state().next == url_join(root@, endpoint@),
            s.query() == listing_params(pairs_view(params@)),
            s.requester() == *requester,
            s.item_scope() == Scope::none(),
    {
        let params = with_default_per_page(params);
        let next_url = match join_url(root, endpoint) {
            Ok(u) => Some(u),
            Err(_) => None,
        };
        PageStream { requester, next_url, params, buffer: VecDeque::new(), scope: Scope::empty() }
    }

    /// A listing of `endpoint` of the REST API. When the URL cannot be formed the
    /// listing is empty.
    pub fn new(requester: Arc<Requester>, endpoint: &str, params: Vec<(String, String)>) -> (s: Self)
        ensures
            s.state().buffer.len() == 0,
            s.state().next == url_join(requester.base(), endpoint@),
            s.query() == listing_params(pairs_view(params@)),
            s.requester() == *requester,
            s.item_scope() == Scope::none(),
    {
        let root = requester.base_url().clone();
        Self::starting_at(requester, root.as_str(), endpoint, params)
    }

    /// A listing of `endpoint` of the New Quizzes API.
    pub fn new_nq(requester: Arc<Requester>, endpoint: &str, params: Vec<(String, String)>) -> (s: Self)
        ensures
            s.state().buffer.len() == 0,
            s.state().next == url_join(requester.nq_root(), endpoint@),
            s.query() == listing_params(pairs_view(params@)),
            s.requester() == *requester,
            s.item_scope() == Scope::none(),
    {
        let root = requester.new_quizzes_url().clone();
        Self::starting_at(requester, root.as_str(), endpoint, params)
    }

    /// The same listing, its items taking `scope`.
    pub fn with_scope(self, scope: Scope) -> (s: Self)
        ensures
            s.state() == self.state(),
            s.query() == self.query(),
            s.requester() == self.requester(),
            s.item_scope() == scope,
    {
        PageStream { scope, ..self }
    }

    /// Takes one step (see [`page_step`]). A fetch is a `GET` of the next page's
    /// URL with the listing's parameters in the query string.
    pub fn next_step(&mut self) -> (r: PageStep<T>)
        ensures
            final(self).query() == old(self).query(),
            final(self).requester() == old(self).requester(),
            final(self).item_scope() == old(self).item_scope(),
            final(self).state() == page_step(old(self).state()).1,
            match page_step(old(self).state()).0 {
                StepView::Item(x) => r == PageStep::Item(x),
                StepView::Fetch(u) => r matches PageStep::Fetch(q) && q.method == Method::Get && q.url@ == u
                    && q.authorization@ == bearer(old(self).requester().token())
                    && payload_view(q.payload) == PayloadView::Query(old(self).query())
                    && q.scope == old(self).item_scope(),
                StepView::Done => r is Done,
            },
    {
        if self.buffer.len() > 0 {
            let ghost before = self.buffer@;
            match self.buffer.pop_front() {
                Some(x) => {
                    assert(self.buffer@ =~= before.subrange(1, before.len() as int));
                    return PageStep::Item(x);
                },
                None => {
                    return PageStep::Done;
                },
            }
        }
        match self.next_url.take() {
            Some(url) => {
                let params = copy_params(&self.params);
                let authorization = self.requester.auth_header();
                assert(self.buffer@ =~= Seq::<T>::empty());
                PageStep::Fetch(
                    Request {
                        method: Method::Get,
                        url,
                        authorization,
                        payload: Payload::Query(params),
                        scope: self.scope,
                    },
                )
            },
            None => PageStep::Done,
        }
    }

    /// Takes in a fetched page: its items become the buffer, and `next_url` the
    /// page still to fetch.
    pub fn page_loaded(&mut self, items: Vec<T>, next_url: Option<String>)
        ensures
            final(self).query() == old(self).query(),
            final(self).requester() == old(self).requester(),
            final(self).item_scope() == old(self).item_scope(),
            final(self).state() == (PageState {
                buffer: items@,
                next: match next_url {
                    Some(u) => Some(u@),
                    None => None,
                },
            }),
    {
        let mut buffer: VecDeque<T> = VecDeque::new();
        let mut items = items;
        let ghost all = items@;
        while items.len() > 0
            invariant
                buffer@ + items@ == all,
            decreases items@.len(),
        {
            let ghost before = items@;
            let x = items.remove(0);
            buffer.push_back(x);
            assert(items@ =~= before.subrange(1, before.len() as int));
        }
        assert(buffer@ =~= all);
        self.buffer = buffer;
        self.next_url = next_url;
    }
}

} // verus!
