//! Daily-note rendering: turning a list of headers into the HTML fragment
//! the display clients show.

use vstd::prelude::*;
use vstd::string::StringExecFns;
use crate::strutil::{dec_str_of, u64_to_dec_string, push_char};

verus! {

/// A note as the display clients receive it: one HTML fragment.
pub struct Note {
    pub content: String,
}

/// One task header: an optional emoji and the header text.
pub struct NoteHeader {
    pub emoji: Option<char>,
    pub content: String,
}

/// The HTML for one header at `depth`:
/// `<h{depth} id="org-h{content}" class="org-h{depth}">{content}</h{depth}>`.
pub open spec fn header_html(depth: nat, content: Seq<char>) -> Seq<char> {
    "<h"@ + dec_str_of(depth) + " id=\"org-h"@ + content + "\" class=\"org-h"@ + dec_str_of(depth)
        + "\">"@ + content + "</h"@ + dec_str_of(depth) + ">"@
}

/// The HTML for a list of headers, one per line of the note, depths
/// counting up from `depth`.
pub open spec fn headers_html(strs: Seq<Seq<char>>, depth: nat) -> Seq<char>
    decreases strs.len(),
{
    if strs.len() == 0 {
        Seq::empty()
    } else {
        header_html(depth, strs[0]) + headers_html(strs.subrange(1, strs.len() as int), depth + 1)
    }
}

proof fn lemma_headers_html_push(strs: Seq<Seq<char>>, x: Seq<char>, depth: nat)
    ensures
        headers_html(strs.push(x), depth) == headers_html(strs, depth) + header_html(
            depth + strs.len(),
            x,
        ),
    decreases strs.len(),
{
    let whole = strs.push(x);
    assert(whole.len() == strs.len() + 1);
    assert(whole[0] == if strs.len() == 0 { x } else { strs[0] });
    if strs.len() == 0 {
        assert(whole.subrange(1, whole.len() as int) =~= Seq::<Seq<char>>::empty());
        assert(headers_html(whole.subrange(1, whole.len() as int), depth + 1) == Seq::<
            char,
        >::empty());
        assert(headers_html(whole, depth) == header_html(depth, x) + Seq::<char>::empty());
        assert(headers_html(strs, depth) == Seq::<char>::empty());
        assert(header_html(depth, x) + Seq::<char>::empty() =~= Seq::<char>::empty()
            + header_html(depth, x));
    } else {
        let tail = strs.subrange(1, strs.len() as int);
        assert(whole.subrange(1, whole.len() as int) =~= tail.push(x));
        lemma_headers_html_push(tail, x, depth + 1);
        assert(headers_html(whole, depth) == header_html(depth, strs[0]) + (headers_html(
            tail,
            depth + 1,
        ) + header_html(depth + 1 + tail.len(), x)));
        assert(depth + 1 + tail.len() == depth + strs.len());
        assert(header_html(depth, strs[0]) + (headers_html(tail, depth + 1) + header_html(
            depth + strs.len(),
            x,
        )) =~= (header_html(depth, strs[0]) + headers_html(tail, depth + 1)) + header_html(
            depth + strs.len(),
            x,
        ));
        assert(headers_html(strs, depth) == header_html(depth, strs[0]) + headers_html(
            tail,
            depth + 1,
        ));
    }
}

fn render_header(depth: u64, content: &String) -> (r: String)
    ensures
        r@ == header_html(depth as nat, content@),
{
    let d = u64_to_dec_string(depth);
    let mut s = String::new();
    s.append("<h");
    s.append(d.as_str());
    s.append(" id=\"org-h");
    s.append(content.as_str());
    s.append("\" class=\"org-h");
    s.append(d.as_str());
    s.append("\">");
    s.append(content.as_str());
    s.append("</h");
    s.append(d.as_str());
    s.append(">");
    proof {
        assert(s@ =~= header_html(depth as nat, content@));
    }
    s
}

impl Note {
    /// Renders plain headers, depths counting up from 1, concatenated in
    /// order.
    pub fn from_headers_to_html(strs: Vec<String>) -> (r: Note)
        ensures
            r.content@ == headers_html(strs@.map_values(|s: String| s@), 1),
    {
        let ghost model = strs@.map_values(|s: String| s@);
        let mut content = String::new();
        let n = strs.len();
        let mut i: usize = 0;
        while i < n
            invariant
                n == strs@.len(),
                i <= n,
                model == strs@.map_values(|s: String| s@),
                content@ == headers_html(model.subrange(0, i as int), 1),
            decreases n - i,
        {
            let ghost prefix = model.subrange(0, i as int);
            let h = render_header((i as u64) + 1, &strs[i]);
            content.append(h.as_str());
            proof {
                assert(model.subrange(0, i + 1) =~= prefix.push(model[i as int]));
                lemma_headers_html_push(prefix, model[i as int], 1);
            }
            i = i + 1;
        }
        proof {
            assert(model.subrange(0, n as int) =~= model);
        }
        Note { content }
    }

    /// Renders task headers with their optional emoji, all at depth 2,
    /// concatenated in order.
    pub fn from_task_headers_to_html(strs: &Vec<NoteHeader>) -> (r: Note)
        ensures
            r.content@ == task_headers_html(
                strs@.map_values(|h: NoteHeader| (h.emoji, h.content@)),
            ),
    {
        let ghost model = strs@.map_values(|h: NoteHeader| (h.emoji, h.content@));
        let mut content = String::new();
        let n = strs.len();
        let mut i: usize = 0;
        while i < n
            invariant
                n == strs@.len(),
                i <= n,
                model == strs@.map_values(|h: NoteHeader| (h.emoji, h.content@)),
                content@ == task_headers_html(model.subrange(0, i as int)),
            decreases n - i,
        {
            let ghost prefix = model.subrange(0, i as int);
            let h = render_task_header(&strs[i]);
            content.append(h.as_str());
            proof {
                assert(model.subrange(0, i + 1) =~= prefix.push(model[i as int]));
                lemma_task_headers_html_push(prefix, model[i as int]);
            }
            i = i + 1;
        }
        proof {
            assert(model.subrange(0, n as int) =~= model);
        }
        Note { content }
    }
}

/// An emoji and a trailing space, or nothing.
pub open spec fn emoji_text(e: Option<char>) -> Seq<char> {
    match e {
        Some(c) => seq![c, ' '],
        None => Seq::empty(),
    }
}

/// The HTML for one task header, always at depth 2:
/// `<h2 id="org-h{content}" class="org-h2"><span class="emoji">{emoji}</span>{content}</h2>`.
pub open spec fn task_header_html(h: (Option<char>, Seq<char>)) -> Seq<char> {
    "<h2 id=\"org-h"@ + h.1 + "\" class=\"org-h2\"><span class=\"emoji\">"@ + emoji_text(h.0)
        + "</span>"@ + h.1 + "</h2>"@
}

/// The HTML for a list of task headers, concatenated in order.
pub open spec fn task_headers_html(strs: Seq<(Option<char>, Seq<char>)>) -> Seq<char>
    decreases strs.len(),
{
    if strs.len() == 0 {
        Seq::empty()
    } else {
        task_header_html(strs[0]) + task_headers_html(strs.subrange(1, strs.len() as int))
    }
}

proof fn lemma_task_headers_html_push(strs: Seq<(Option<char>, Seq<char>)>, x: (Option<char>, Seq<char>))
    ensures
        task_headers_html(strs.push(x)) == task_headers_html(strs) + task_header_html(x),
    decreases strs.len(),
{
    let whole = strs.push(x);
    assert(whole.len() == strs.len() + 1);
    assert(whole[0] == if strs.len() == 0 { x } else { strs[0] });
    if strs.len() == 0 {
        assert(whole.subrange(1, whole.len() as int) =~= Seq::<(Option<char>, Seq<char>)>::empty());
        assert(task_headers_html(whole.subrange(1, whole.len() as int)) == Seq::<char>::empty());
        assert(task_headers_html(whole) == task_header_html(x) + Seq::<char>::empty());
        assert(task_headers_html(strs) == Seq::<char>::empty());
        assert(task_header_html(x) + Seq::<char>::empty() =~= Seq::<char>::empty()
            + task_header_html(x));
    } else {
        let tail = strs.subrange(1, strs.len() as int);
        assert(whole.subrange(1, whole.len() as int) =~= tail.push(x));
        lemma_task_headers_html_push(tail, x);
        assert(task_headers_html(whole) == task_header_html(strs[0]) + (task_headers_html(tail)
            + task_header_html(x)));
        assert(task_header_html(strs[0]) + (task_headers_html(tail) + task_header_html(x)) =~= (
        task_header_html(strs[0]) + task_headers_html(tail)) + task_header_html(x));
        assert(task_headers_html(strs) == task_header_html(strs[0]) + task_headers_html(tail));
    }
}

fn render_task_header(h: &NoteHeader) -> (r: String)
    ensures
        r@ == task_header_html((h.emoji, h.content@)),
{
    let mut s = String::new();
    s.append("<h2 id=\"org-h");
    s.append(h.content.as_str());
    s.append("\" class=\"org-h2\"><span class=\"emoji\">");
    match h.emoji {
        Some(c) => {
            push_char(&mut s, c);
            push_char(&mut s, ' ');
        },
        None => {},
    }
    s.append("</span>");
    s.append(h.content.as_str());
    s.append("</h2>");
    proof {
        assert(s@ =~= task_header_html((h.emoji, h.content@)));
    }
    s
}

/// The smallest `p >= from` with `s[p] == a` and `s[p + 1] == b`; -1 when
/// there is none.
pub open spec fn find_pair(s: Seq<char>, from: int, a: char, b: char) -> int
    decreases s.len() - from,
{
    if from < 0 || from + 2 > s.len() {
        -1
    } else if s[from] == a && s[from + 1] == b {
        from
    } else {
        find_pair(s, from + 1, a, b)
    }
}

proof fn lemma_find_pair_props(s: Seq<char>, from: int, a: char, b: char)
    requires
        find_pair(s, from, a, b) >= 0,
    ensures
        from <= find_pair(s, from, a, b),
        find_pair(s, from, a, b) + 2 <= s.len(),
        s[find_pair(s, from, a, b)] == a,
        s[find_pair(s, from, a, b) + 1] == b,
    decreases s.len() - from,
{
    if !(from < 0 || from + 2 > s.len()) && !(s[from] == a && s[from + 1] == b) {
        lemma_find_pair_props(s, from + 1, a, b);
    }
}

fn find_pair_at(s: &str, from: usize, a: char, b: char) -> (r: Option<usize>)
    requires
        from <= s@.len(),
    ensures
        match r {
            Some(p) => find_pair(s@, from as int, a, b) == p && from <= p && p + 2 <= s@.len()
                && s@[p as int] == a && s@[p as int + 1] == b,
            None => find_pair(s@, from as int, a, b) == -1,
        },
{
    let n = s.unicode_len();
    let mut i = from;
    while i < n && i + 1 < n
        invariant
            n == s@.len(),
            from <= i <= n,
            find_pair(s@, from as int, a, b) == find_pair(s@, i as int, a, b),
        decreases n - i,
    {
        if s.get_char(i) == a && s.get_char(i + 1) == b {
            return Some(i);
        }
        proof {
            assert(find_pair(s@, i as int, a, b) == find_pair(s@, i as int + 1, a, b));
        }
        i = i + 1;
    }
    None
}

/// Does a link pattern `[[link][text]]` open at position `p`?
pub open spec fn link_match_at(s: Seq<char>, p: int) -> bool {
    &&& p + 2 <= s.len()
    &&& s[p] == '['
    &&& s[p + 1] == '['
    &&& find_pair(s, p + 2, ']', '[') >= 0
    &&& find_pair(s, find_pair(s, p + 2, ']', '[') + 2, ']', ']') >= 0
}

/// The text from position `p` on with every org link `[[link][text]]`
/// replaced by `<b class="org-bold">text</b>`: links are found left to
/// right, the link part ends at the first `][`, the text part at the first
/// `]]` after it.
pub open spec fn cleaned_links_from(s: Seq<char>, p: int) -> Seq<char>
    decreases s.len() - p,
    via cleaned_links_from_decreases
{
    if p < 0 || p >= s.len() {
        Seq::empty()
    } else if link_match_at(s, p) {
        let q = find_pair(s, p + 2, ']', '[');
        let r = find_pair(s, q + 2, ']', ']');
        "<b class=\"org-bold\">"@ + s.subrange(q + 2, r) + "</b>"@ + cleaned_links_from(s, r + 2)
    } else {
        seq![s[p]] + cleaned_links_from(s, p + 1)
    }
}

#[via_fn]
proof fn cleaned_links_from_decreases(s: Seq<char>, p: int) {
    if 0 <= p < s.len() && link_match_at(s, p) {
        let q = find_pair(s, p + 2, ']', '[');
        lemma_find_pair_props(s, p + 2, ']', '[');
        lemma_find_pair_props(s, q + 2, ']', ']');
    }
}

/// The whole text with every org link replaced by its bold text.
pub open spec fn cleaned_links(s: Seq<char>) -> Seq<char> {
    cleaned_links_from(s, 0)
}

impl Note {
    /// Replaces every org link `[[link][text]]` in `content` by
    /// `<b class="org-bold">text</b>`, keeping everything else as it is.
    pub fn clean_id_str(content: &String) -> (r: String)
        ensures
            r@ == cleaned_links(content@),
    {
        let s = content.as_str();
        let n = s.unicode_len();
        let mut out = String::new();
        let mut p: usize = 0;
        while p < n
            invariant
                n == s@.len(),
                p <= n,
                out@ + cleaned_links_from(s@, p as int) == cleaned_links(s@),
            decreases n - p,
        {
            let ghost out0 = out@;
            let c = s.get_char(p);
            let mut plain = true;
            if c == '[' && p + 1 < n {
                if s.get_char(p + 1) == '[' {
                    if let Some(q) = find_pair_at(s, p + 2, ']', '[') {
                        if let Some(r) = find_pair_at(s, q + 2, ']', ']') {
                            plain = false;
                            let text = s.substring_char(q + 2, r);
                            out.append("<b class=\"org-bold\">");
                            out.append(text);
                            out.append("</b>");
                            proof {
                                assert(link_match_at(s@, p as int));
                                assert(cleaned_links_from(s@, p as int)
                                    == "<b class=\"org-bold\">"@ + s@.subrange(
                                    q as int + 2,
                                    r as int,
                                ) + "</b>"@ + cleaned_links_from(s@, r as int + 2));
                                assert(out@ + cleaned_links_from(s@, r as int + 2) =~= out0
                                    + cleaned_links_from(s@, p as int));
                            }
                            p = r + 2;
                        }
                    }
                }
            }
            if plain {
                push_char(&mut out, c);
                proof {
                    assert(!link_match_at(s@, p as int));
                    assert(cleaned_links_from(s@, p as int) == seq![s@[p as int]]
                        + cleaned_links_from(s@, p as int + 1));
                    assert(out@ + cleaned_links_from(s@, p as int + 1) =~= out0
                        + cleaned_links_from(s@, p as int));
                }
                p = p + 1;
            }
        }
        proof {
            assert(cleaned_links_from(s@, n as int) == Seq::<char>::empty());
            assert(out@ + Seq::<char>::empty() =~= out@);
        }
        out
    }
}

} // verus!
