//! Text templates with `{{name}}` placeholders.

use vstd::prelude::*;

use crate::codec::{chars_of, copy_range, push_char, vec_chars_eq};

verus! {

/// Where the first `}` at or after `q` stands in `s`, or the length of `s`.
pub open spec fn next_close(s: Seq<char>, q: int) -> int
    decreases s.len() - q,
{
    if q >= s.len() {
        s.len() as int
    } else if s[q] == '}' {
        q
    } else {
        next_close(s, q + 1)
    }
}

/// Where a placeholder that begins at `p` ends: `{{`, then characters other
/// than `}`, then `}}`.
pub open spec fn placeholder_end(s: Seq<char>, p: int) -> Option<int> {
    if 0 <= p && p + 1 < s.len() && s[p] == '{' && s[p + 1] == '{' {
        let q = next_close(s, p + 2);
        if q + 1 < s.len() && s[q + 1] == '}' {
            Some(q + 2)
        } else {
            None
        }
    } else {
        None
    }
}

/// The placeholders of `s` from position `p` on, leftmost first and without
/// overlap, each as its start and end.
pub open spec fn spans_from(s: Seq<char>, p: int) -> Seq<(int, int)>
    decreases s.len() - p,
{
    if p < 0 || p >= s.len() {
        Seq::empty()
    } else {
        match placeholder_end(s, p) {
            Some(e) => if e > p {
                seq![(p, e)] + spans_from(s, e)
            } else {
                Seq::empty()
            },
            None => spans_from(s, p + 1),
        }
    }
}

/// The value bound to `name`: the first pair that has that key.
pub open spec fn lookup(vals: Seq<(Seq<char>, Seq<char>)>, name: Seq<char>) -> Option<Seq<char>>
    decreases vals.len(),
{
    if vals.len() == 0 {
        None
    } else if vals[0].0 == name {
        Some(vals[0].1)
    } else {
        lookup(vals.drop_first(), name)
    }
}

/// What stands in place of the placeholder `s[start..end]`: its value, or the
/// placeholder itself when its name has none.
pub open spec fn replacement(s: Seq<char>, start: int, end: int, vals: Seq<(Seq<char>, Seq<char>)>) -> Seq<
    char,
> {
    match lookup(vals, s.subrange(start + 2, end - 2)) {
        Some(v) => v,
        None => s.subrange(start, end),
    }
}

/// `s` from `pos` on, with the placeholders `spans[i..]` replaced.
pub open spec fn render_from(
    s: Seq<char>,
    spans: Seq<(int, int)>,
    vals: Seq<(Seq<char>, Seq<char>)>,
    i: int,
    pos: int,
) -> Seq<char>
    decreases spans.len() - i,
{
    if i < 0 || i >= spans.len() {
        s.subrange(pos, s.len() as int)
    } else {
        s.subrange(pos, spans[i].0) + replacement(s, spans[i].0, spans[i].1, vals) + render_from(
            s,
            spans,
            vals,
            i + 1,
            spans[i].1,
        )
    }
}

/// `s` with each placeholder replaced by its value.
pub open spec fn rendered(s: Seq<char>, vals: Seq<(Seq<char>, Seq<char>)>) -> Seq<char> {
    render_from(s, spans_from(s, 0), vals, 0, 0)
}

/// A template and where its placeholders stand.
#[derive(Debug, Clone)]
pub struct Template {
    src: Vec<char>,
    matches: Vec<(usize, usize)>,
}

/// The texts of name and value pairs.
pub open spec fn pairs_view(v: Seq<(String, String)>) -> Seq<(Seq<char>, Seq<char>)> {
    v.map_values(|p: (String, String)| (p.0@, p.1@))
}

pub open spec fn spans_view(m: Seq<(usize, usize)>) -> Seq<(int, int)> {
    m.map_values(|x: (usize, usize)| (x.0 as int, x.1 as int))
}

impl Template {
    /// The template's text.
    pub closed spec fn text(&self) -> Seq<char> {
        self.src@
    }

    pub closed spec fn wf(&self) -> bool {
        spans_view(self.matches@) == spans_from(self.src@, 0)
    }

    /// The template of `template`.
    pub fn new(template: &str) -> (r: Self)
        ensures
            r.wf(),
            r.text() == template@,
    {
        let src = chars_of(template);
        let mut matches: Vec<(usize, usize)> = Vec::new();
        let mut p: usize = 0;
        while p < src.len()
            invariant
                p <= src@.len(),
                spans_view(matches@) + spans_from(src@, p as int) == spans_from(src@, 0),
            decreases src@.len() - p,
        {
            match find_end(&src, p) {
                Some(e) => {
                    let ghost before = spans_view(matches@);
                    matches.push((p, e));
                    assert(spans_view(matches@) == before.push((p as int, e as int)));
                    assert(spans_view(matches@) + spans_from(src@, e as int) =~= before
                        + spans_from(src@, p as int));
                    p = e;
                },
                None => {
                    p = p + 1;
                },
            }
        }
        assert(spans_from(src@, p as int) =~= Seq::<(int, int)>::empty());
        assert(spans_view(matches@) =~= spans_view(matches@) + spans_from(src@, p as int));
        Template { src, matches }
    }

    /// The template with each `{{name}}` replaced by the value that `vals`
    /// binds to `name`; a placeholder whose name has no value stays as it is.
    pub fn render(&self, vals: &Vec<(String, String)>) -> (r: String)
        requires
            self.wf(),
        ensures
            r@ == rendered(self.text(), pairs_view(vals@)),
    {
        self.render_named(vals)
    }

    /// The same as `render`.
    pub fn render_named(&self, vals: &Vec<(String, String)>) -> (r: String)
        requires
            self.wf(),
        ensures
            r@ == rendered(self.text(), pairs_view(vals@)),
    {
        let ghost s = self.src@;
        let ghost spans = spans_from(s, 0);
        proof {
            lemma_spans_well_placed(s, 0);
        }
        let mut out = String::new();
        let mut pos: usize = 0;
        let mut i: usize = 0;
        while i < self.matches.len()
            invariant
                self.wf(),
                s == self.src@,
                spans == spans_from(s, 0),
                spans_view(self.matches@) == spans,
                i <= spans.len(),
                i < spans.len() ==> pos <= spans[i as int].0,
                i == spans.len() ==> pos <= s.len(),
                i == 0 ==> pos == 0,
                forall|k: int| 0 <= k < spans.len() ==> 0 <= #[trigger] spans[k].0 && spans[k].0 + 4 <= spans[k].1 <= s.len(),
                forall|k: int| 0 <= k < spans.len() - 1 ==> #[trigger] spans[k].1 <= spans[k + 1].0,
                forall|k: int| 0 <= k < spans.len() ==> placeholder_end(s, #[trigger] spans[k].0) == Some(spans[k].1),
                out@ + render_from(s, spans, pairs_view(vals@), i as int, pos as int) == rendered(s, pairs_view(vals@)),
            decreases spans.len() - i,
        {
            let (start, end) = self.matches[i];
            assert(spans[i as int] == (start as int, end as int));
            push_slice(&mut out, &self.src, pos, start);
            let name = copy_range(&self.src, start + 2, end - 2);
            match find_value(vals, &name) {
                Some(v) => {
                    out.append(v.as_str());
                },
                None => {
                    push_slice(&mut out, &self.src, start, end);
                },
            }
            assert(out@ + render_from(s, spans, pairs_view(vals@), i + 1, end as int) =~= rendered(s, pairs_view(vals@)));
            pos = end;
            i = i + 1;
        }
        push_slice(&mut out, &self.src, pos, self.src.len());
        assert(out@ =~= rendered(s, pairs_view(vals@)));
        out
    }
}

proof fn lemma_next_close(s: Seq<char>, q: int)
    requires
        0 <= q <= s.len(),
    ensures
        q <= next_close(s, q) <= s.len(),
        next_close(s, q) < s.len() ==> s[next_close(s, q)] == '}',
        forall|k: int| q <= k < next_close(s, q) ==> s[k] != '}',
    decreases s.len() - q,
{
    if q < s.len() && s[q] != '}' {
        lemma_next_close(s, q + 1);
    }
}

/// Every placeholder from `p` on lies within `s`, after `p`, is at least four
/// characters long, and ends before the next one begins.
proof fn lemma_spans_well_placed(s: Seq<char>, p: int)
    requires
        0 <= p,
    ensures
        forall|k: int| 0 <= k < spans_from(s, p).len() ==> p <= #[trigger] spans_from(s, p)[k].0 && spans_from(s, p)[k].0 + 4 <= spans_from(s, p)[k].1 <= s.len(),
        forall|k: int| 0 <= k < spans_from(s, p).len() - 1 ==> #[trigger] spans_from(s, p)[k].1 <= spans_from(s, p)[k + 1].0,
        forall|k: int| 0 <= k < spans_from(s, p).len() ==> placeholder_end(s, #[trigger] spans_from(s, p)[k].0) == Some(spans_from(s, p)[k].1),
    decreases s.len() - p,
{
    if p < s.len() {
        match placeholder_end(s, p) {
            Some(e) => {
                lemma_next_close(s, p + 2);
                if e > p {
                    lemma_spans_well_placed(s, e);
                    let rest = spans_from(s, e);
                    let all = spans_from(s, p);
                    assert(all == seq![(p, e)] + rest);
                    assert forall|k: int| 0 <= k < all.len() - 1 implies #[trigger] all[k].1 <= all[k + 1].0 by {
                        if k > 0 {
                            assert(all[k] == rest[k - 1]);
                            assert(all[k + 1] == rest[k]);
                        } else if rest.len() > 0 {
                            assert(all[1] == rest[0]);
                        }
                    }
                    assert forall|k: int| 0 <= k < all.len() implies p <= #[trigger] all[k].0 && all[k].0 + 4 <= all[k].1 <= s.len() by {
                        if k > 0 {
                            assert(all[k] == rest[k - 1]);
                        }
                    }
                    assert forall|k: int| 0 <= k < all.len() implies placeholder_end(s, #[trigger] all[k].0) == Some(all[k].1) by {
                        if k > 0 {
                            assert(all[k] == rest[k - 1]);
                        }
                    }
                }
            },
            None => {
                lemma_spans_well_placed(s, p + 1);
                assert(spans_from(s, p) == spans_from(s, p + 1));
            },
        }
    }
}

fn find_end(s: &Vec<char>, p: usize) -> (r: Option<usize>)
    requires
        p < s@.len(),
    ensures
        match placeholder_end(s@, p as int) {
            Some(e) => r == Some(e as usize) && p < e <= s@.len(),
            None => r is None,
        },
{
    let n = s.len();
    if p + 1 < n && s[p] == '{' && s[p + 1] == '{' {
        let mut q: usize = p + 2;
        while q < s.len() && s[q] != '}'
            invariant
                p + 2 <= q <= s@.len(),
                next_close(s@, (p + 2) as int) == next_close(s@, q as int),
            decreases s@.len() - q,
        {
            q = q + 1;
        }
        if q < n && q + 1 < n && s[q + 1] == '}' {
            Some(q + 2)
        } else {
            None
        }
    } else {
        None
    }
}

fn push_slice(out: &mut String, s: &Vec<char>, from: usize, to: usize)
    requires
        from <= to <= s@.len(),
    ensures
        final(out)@ == old(out)@ + s@.subrange(from as int, to as int),
{
    let mut i: usize = from;
    while i < to
        invariant
            from <= i <= to <= s@.len(),
            out@ == old(out)@ + s@.subrange(from as int, i as int),
        decreases to - i,
    {
        push_char(out, s[i]);
        assert(s@.subrange(from as int, i + 1) =~= s@.subrange(from as int, i as int).push(s@[i as int]));
        i = i + 1;
    }
}

fn find_value<'a>(vals: &'a Vec<(String, String)>, name: &Vec<char>) -> (r: Option<&'a String>)
    ensures
        match lookup(pairs_view(vals@), name@) {
            Some(v) => r matches Some(x) && x@ == v,
            None => r is None,
        },
{
    let mut i: usize = 0;
    let ghost pv = pairs_view(vals@);
    assert(pv.subrange(0, pv.len() as int) =~= pv);
    while i < vals.len()
        invariant
            i <= vals@.len(),
            pv == pairs_view(vals@),
            lookup(pv, name@) == lookup(pv.subrange(i as int, pv.len() as int), name@),
        decreases vals@.len() - i,
    {
        let key = chars_of(vals[i].0.as_str());
        assert(pv.subrange(i as int, pv.len() as int).drop_first() =~= pv.subrange(
            i + 1,
            pv.len() as int,
        ));
        if vec_chars_eq(&key, name) {
            return Some(&vals[i].1);
        }
        i = i + 1;
    }
    None
}

} // verus!
