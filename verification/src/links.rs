//! Message text as the chat shows it: split into lines, with the links in
//! each line marked; and pasted text as the input field takes it.
use vstd::prelude::*;
use vstd::string::*;
use vstd::utf8::*;
use crate::helpers::{trim_lines, trimmed_lines_of};
use crate::text::views;

verus! {

broadcast use group_utf8_lib;

/// A piece of a line: plain text, or a link.
#[derive(Debug, Clone, PartialEq, Eq)]
pub struct LinkSegment {
    pub text: String,
    pub link: bool,
}

/// The segments as their UTF-8 bytes and whether each is a link.
pub open spec fn segments_view(segs: Seq<LinkSegment>) -> Seq<(Seq<u8>, bool)> {
    segs.map_values(|s: LinkSegment| (encode_utf8(s.text@), s.link))
}

/// What makes a link in a message: a scheme, `://`, and what follows up
/// to white space, or through one closing punctuation mark.
pub const LINK_PATTERN: &'static str = r"[^:/?#\s]+://[^\s]+(?:[\s,.!?;:)\]}>]|$)";

/// The byte ranges of the matches of a regular expression (in multi-line
/// mode) in a text, in order; nothing for a pattern that does not compile.
pub uninterp spec fn regex_ranges(pattern: Seq<char>, text: Seq<char>) -> Seq<(usize, usize)>;

/// The byte ranges of the links the link pattern finds in a line, in order.
pub open spec fn link_matches(line: Seq<char>) -> Seq<(usize, usize)> {
    regex_ranges(LINK_PATTERN@, line)
}

/// The ranges lie in order, each within the text and on character
/// boundaries of it.
pub open spec fn ranges_fit(bytes: Seq<u8>, ms: Seq<(usize, usize)>, from: int) -> bool {
    &&& forall|i: int| 0 <= i < ms.len() ==> #[trigger] ms[i].0 <= ms[i].1 <= bytes.len()
    &&& forall|i: int| 0 <= i < ms.len() ==> is_char_boundary(bytes, #[trigger] ms[i].0 as int)
    &&& forall|i: int| 0 <= i < ms.len() ==> is_char_boundary(bytes, #[trigger] ms[i].1 as int)
    &&& forall|i: int| 0 < i < ms.len() ==> ms[i - 1].1 <= #[trigger] ms[i].0
    &&& ms.len() > 0 ==> from <= ms[0].0
}

/// `regex::RegexBuilder` in multi-line mode, then `Regex::find_iter`: the
/// byte ranges of the successive non-overlapping matches of the pattern in
/// the text, which the crate documents as ordered, within the haystack and
/// on character boundaries; nothing when the pattern does not compile.
#[verifier::external_body]
fn find_ranges(pattern: &str, text: &str) -> (r: Vec<(usize, usize)>)
    ensures
        r@ == regex_ranges(pattern@, text@),
        ranges_fit(text.spec_bytes(), r@, 0),
{
    match regex::RegexBuilder::new(pattern).multi_line(true).unicode(true).build() {
        Ok(re) => re.find_iter(text).map(|m| (m.start(), m.end())).collect(),
        Err(_) => Vec::new(),
    }
}

/// The segments of `bytes` from `from` on, given the link ranges `ms`: the
/// text before each link (when there is any), the link, and the text after
/// the last link (when there is any).
pub open spec fn link_segments(bytes: Seq<u8>, ms: Seq<(usize, usize)>, from: int) -> Seq<(Seq<u8>, bool)>
    decreases ms.len(),
{
    if ms.len() == 0 {
        if from < bytes.len() {
            seq![(bytes.subrange(from, bytes.len() as int), false)]
        } else {
            Seq::empty()
        }
    } else {
        let (s, e) = ms[0];
        (if s > from {
            seq![(bytes.subrange(from, s as int), false)]
        } else {
            Seq::empty()
        }) + seq![(bytes.subrange(s as int, e as int), true)] + link_segments(bytes, ms.drop_first(), e as int)
    }
}

/// The texts of the segments, one after the other.
pub open spec fn segments_text(segs: Seq<(Seq<u8>, bool)>) -> Seq<u8>
    decreases segs.len(),
{
    if segs.len() == 0 {
        Seq::empty()
    } else {
        segs[0].0 + segments_text(segs.drop_first())
    }
}

proof fn lemma_segments_text_concat(a: Seq<(Seq<u8>, bool)>, b: Seq<(Seq<u8>, bool)>)
    ensures
        segments_text(a + b) == segments_text(a) + segments_text(b),
    decreases a.len(),
{
    if a.len() == 0 {
        assert(a + b =~= b);
    } else {
        assert((a + b).drop_first() =~= a.drop_first() + b);
        lemma_segments_text_concat(a.drop_first(), b);
    }
}

/// The segments of a line spell the line: no text is lost or repeated.
pub proof fn lemma_link_segments_spell(bytes: Seq<u8>, ms: Seq<(usize, usize)>, from: int)
    requires
        ranges_fit(bytes, ms, from),
        0 <= from <= bytes.len(),
    ensures
        segments_text(link_segments(bytes, ms, from)) == bytes.subrange(from, bytes.len() as int),
    decreases ms.len(),
{
    if ms.len() == 0 {
        if from < bytes.len() {
            let segs = seq![(bytes.subrange(from, bytes.len() as int), false)];
            assert(segs.drop_first() =~= Seq::<(Seq<u8>, bool)>::empty());
            assert(segments_text(segs.drop_first()) =~= Seq::<u8>::empty());
            assert(segments_text(segs) =~= bytes.subrange(from, bytes.len() as int));
        } else {
            assert(bytes.subrange(from, bytes.len() as int) =~= Seq::<u8>::empty());
        }
    } else {
        let (s, e) = ms[0];
        let rest = ms.drop_first();
        assert(ranges_fit(bytes, rest, e as int)) by {
            assert forall|i: int| 0 < i < rest.len() implies rest[i - 1].1 <= #[trigger] rest[i].0 by {
                assert(rest[i] == ms[i + 1]);
                assert(rest[i - 1] == ms[i]);
            }
            assert forall|i: int| 0 <= i < rest.len() implies #[trigger] rest[i].0 <= rest[i].1 <= bytes.len() by {
                assert(rest[i] == ms[i + 1]);
            }
            assert forall|i: int| 0 <= i < rest.len() implies is_char_boundary(bytes, #[trigger] rest[i].0 as int) by {
                assert(rest[i] == ms[i + 1]);
            }
            assert forall|i: int| 0 <= i < rest.len() implies is_char_boundary(bytes, #[trigger] rest[i].1 as int) by {
                assert(rest[i] == ms[i + 1]);
            }
            if rest.len() > 0 {
                assert(rest[0] == ms[1]);
            }
        }
        assert(ms[0].0 <= ms[0].1 <= bytes.len());
        lemma_link_segments_spell(bytes, rest, e as int);
        let gap: Seq<(Seq<u8>, bool)> = if s > from {
            seq![(bytes.subrange(from, s as int), false)]
        } else {
            Seq::empty()
        };
        let link = seq![(bytes.subrange(s as int, e as int), true)];
        let tail = link_segments(bytes, rest, e as int);
        lemma_segments_text_concat(gap + link, tail);
        lemma_segments_text_concat(gap, link);
        assert(link.drop_first() =~= Seq::<(Seq<u8>, bool)>::empty());
        assert(segments_text(link.drop_first()) =~= Seq::<u8>::empty());
        assert(segments_text(link) =~= bytes.subrange(s as int, e as int));
        if s > from {
            assert(gap.drop_first() =~= Seq::<(Seq<u8>, bool)>::empty());
            assert(segments_text(gap.drop_first()) =~= Seq::<u8>::empty());
            assert(segments_text(gap) =~= bytes.subrange(from, s as int));
        } else {
            assert(segments_text(gap) =~= Seq::<u8>::empty());
        }
        assert(bytes.subrange(from, bytes.len() as int) =~= segments_text(gap) + bytes.subrange(s as int, e as int)
            + bytes.subrange(e as int, bytes.len() as int));
    }
}

/// A boundary of a text is one of its prefix.
proof fn lemma_boundary_in_prefix(bytes: Seq<u8>, to: int, at: int)
    requires
        valid_utf8(bytes),
        is_char_boundary(bytes, to),
        is_char_boundary(bytes, at),
        0 <= at <= to <= bytes.len(),
    ensures
        valid_utf8(bytes.subrange(0, to)),
        is_char_boundary(bytes.subrange(0, to), at),
{
    valid_utf8_split(bytes, to);
    let p = bytes.subrange(0, to);
    if at == to {
        is_char_boundary_start_end_of_seq(p);
        assert(p.len() == to);
    } else {
        is_char_boundary_iff_not_is_continuation_byte(bytes, at);
        is_char_boundary_iff_not_is_continuation_byte(p, at);
        assert(p[at] == bytes[at]);
    }
}

/// The bytes `from..to` of a text, as a string.
fn byte_slice(s: &str, from: usize, to: usize) -> (r: String)
    requires
        from <= to <= s.spec_bytes().len(),
        is_char_boundary(s.spec_bytes(), from as int),
        is_char_boundary(s.spec_bytes(), to as int),
    ensures
        encode_utf8(r@) == s.spec_bytes().subrange(from as int, to as int),
{
    proof {
        encode_utf8_valid_utf8(s@);
        lemma_boundary_in_prefix(s.spec_bytes(), to as int, from as int);
    }
    let (head, _) = s.split_at(to);
    let (_, piece) = head.split_at(from);
    proof {
        assert(piece.spec_bytes() =~= s.spec_bytes().subrange(from as int, to as int));
    }
    piece.to_owned()
}

/// The line cut into plain text and links, as the link pattern finds them.
pub fn hyperlinked_line(line: &str) -> (r: Vec<LinkSegment>)
    ensures
        segments_view(r@) == link_segments(line.spec_bytes(), link_matches(line@), 0),
        segments_text(segments_view(r@)) == line.spec_bytes(),
{
    let ms = find_ranges(LINK_PATTERN, line);
    let ghost bytes = line.spec_bytes();
    let len = line.as_bytes().len();
    let mut r: Vec<LinkSegment> = Vec::new();
    let mut last_end: usize = 0;
    let mut i: usize = 0;
    proof {
        assert(ms@.subrange(0, ms@.len() as int) =~= ms@);
    }
    while i < ms.len()
        invariant
            bytes == line.spec_bytes(),
            len == bytes.len(),
            ms@ == link_matches(line@),
            ranges_fit(bytes, ms@, 0),
            0 <= i <= ms.len(),
            last_end <= len,
            i == 0 ==> last_end == 0,
            i > 0 ==> last_end == ms@[i - 1].1,
            is_char_boundary(bytes, last_end as int),
            segments_view(r@) + link_segments(bytes, ms@.subrange(i as int, ms@.len() as int), last_end as int)
                == link_segments(bytes, ms@, 0),
        decreases ms.len() - i,
    {
        let (s, e) = ms[i];
        let ghost rest = ms@.subrange(i as int, ms@.len() as int);
        let ghost before = segments_view(r@);
        proof {
            assert(rest[0] == ms@[i as int]);
            assert(rest.drop_first() =~= ms@.subrange(i + 1, ms@.len() as int));
            assert(ms@[i as int].0 <= ms@[i as int].1 <= bytes.len());
            if i > 0 {
                assert(ms@[i as int - 1].1 <= ms@[i as int].0);
            }
            is_char_boundary_start_end_of_seq(bytes);
        }
        if s > last_end {
            let gap = byte_slice(line, last_end, s);
            r.push(LinkSegment { text: gap, link: false });
        }
        let link = byte_slice(line, s, e);
        r.push(LinkSegment { text: link, link: true });
        proof {
            let gap_seg: Seq<(Seq<u8>, bool)> = if s > last_end {
                seq![(bytes.subrange(last_end as int, s as int), false)]
            } else {
                Seq::empty()
            };
            assert(segments_view(r@) =~= before + gap_seg + seq![(bytes.subrange(s as int, e as int), true)]);
        }
        last_end = e;
        i = i + 1;
    }
    proof {
        is_char_boundary_start_end_of_seq(bytes);
        encode_utf8_valid_utf8(line@);
    }
    let ghost before = segments_view(r@);
    if last_end < len {
        let tail = byte_slice(line, last_end, len);
        r.push(LinkSegment { text: tail, link: false });
        proof {
            assert(segments_view(r@) =~= before + seq![(bytes.subrange(last_end as int, len as int), false)]);
        }
    }
    proof {
        assert(ms@.subrange(i as int, ms@.len() as int) =~= Seq::<(usize, usize)>::empty());
        assert(segments_view(r@) =~= link_segments(bytes, ms@, 0));
        lemma_link_segments_spell(bytes, ms@, 0);
        assert(bytes.subrange(0, bytes.len() as int) =~= bytes);
    }
    r
}

/// The lines of a text: the pieces between its newline characters.
pub open spec fn split_newlines(s: Seq<char>) -> Seq<Seq<char>>
    decreases s.len(),
{
    if s.len() == 0 {
        seq![Seq::empty()]
    } else {
        let rest = split_newlines(s.drop_first());
        if s[0] == '\n' {
            seq![Seq::<char>::empty()] + rest
        } else {
            rest.update(0, seq![s[0]] + rest[0])
        }
    }
}

proof fn lemma_split_newlines_nonempty(s: Seq<char>)
    ensures
        split_newlines(s).len() >= 1,
    decreases s.len(),
{
    if s.len() > 0 {
        lemma_split_newlines_nonempty(s.drop_first());
    }
}

/// `str::split` at `'\n'`: the pieces of the text between newline
/// characters, the first before the first newline and the last after the
/// last one.
#[verifier::external_body]
fn split_at_newlines(text: &str) -> (r: Vec<String>)
    ensures
        views(r@) == split_newlines(text@),
{
    text.split('\n').map(|l| l.to_string()).collect()
}

/// The lines of a message's text, each cut into plain text and links.
pub fn hyperlinked_lines(text: &str) -> (r: Vec<Vec<LinkSegment>>)
    ensures
        r.len() == split_newlines(text@).len(),
        forall|i: int|
            0 <= i < r.len() ==> segments_view(#[trigger] r@[i]@) == link_segments(
                encode_utf8(split_newlines(text@)[i]),
                link_matches(split_newlines(text@)[i]),
                0,
            ),
{
    let lines = split_at_newlines(text);
    let mut r: Vec<Vec<LinkSegment>> = Vec::new();
    let mut i: usize = 0;
    while i < lines.len()
        invariant
            views(lines@) == split_newlines(text@),
            0 <= i <= lines.len(),
            r.len() == i,
            forall|j: int|
                0 <= j < i ==> segments_view(#[trigger] r@[j]@) == link_segments(
                    encode_utf8(split_newlines(text@)[j]),
                    link_matches(split_newlines(text@)[j]),
                    0,
                ),
        decreases lines.len() - i,
    {
        proof {
            assert(views(lines@)[i as int] == lines@[i as int]@);
        }
        let segs = hyperlinked_line(lines[i].as_str());
        r.push(segs);
        i = i + 1;
    }
    r
}

/// The pieces of a text between its line breaks: `"\r\n"`, or a `'\n'` or
/// `'\r'` alone.
pub open spec fn split_line_breaks(s: Seq<char>) -> Seq<Seq<char>>
    decreases s.len(),
{
    if s.len() == 0 {
        seq![Seq::empty()]
    } else if s[0] == '\r' && s.len() > 1 && s[1] == '\n' {
        seq![Seq::<char>::empty()] + split_line_breaks(s.subrange(2, s.len() as int))
    } else if s[0] == '\n' || s[0] == '\r' {
        seq![Seq::<char>::empty()] + split_line_breaks(s.drop_first())
    } else {
        let rest = split_line_breaks(s.drop_first());
        rest.update(0, seq![s[0]] + rest[0])
    }
}

/// The line breaks of pasted text.
pub const LINE_BREAK_PATTERN: &'static str = r"\r?\n|\r";

/// The pieces of a text between the matches of a regular expression; `None`
/// for a pattern that does not compile.
pub uninterp spec fn regex_pieces(pattern: Seq<char>, text: Seq<char>) -> Option<Seq<Seq<char>>>;

/// `regex::Regex::new`, then `Regex::split`: the pieces of the text between
/// the pattern's leftmost-first, non-overlapping matches; `None` when the
/// pattern does not compile. The line break pattern compiles, and its
/// matches are the pairs `"\r\n"` and the lone `'\n'` and `'\r'`.
#[verifier::external_body]
fn split_by(pattern: &str, text: &str) -> (r: Option<Vec<String>>)
    ensures
        r is Some ==> regex_pieces(pattern@, text@) == Some(views(r->0@)),
        r is None ==> regex_pieces(pattern@, text@) is None,
        pattern@ == LINE_BREAK_PATTERN@ ==> r is Some && views(r->0@) == split_line_breaks(text@),
{
    match regex::Regex::new(pattern) {
        Ok(re) => Some(re.split(text).map(|l| l.to_string()).collect()),
        Err(_) => None,
    }
}

/// The lines pasted text puts into the input field: the pieces between
/// its line breaks, with trailing white space cut and the empty lines at
/// the end dropped.
pub fn paste_lines(text: &str) -> (r: Vec<String>)
    ensures
        views(r@) == trimmed_lines_of(split_line_breaks(text@)),
{
    match split_by(LINE_BREAK_PATTERN, text) {
        Some(pieces) => trim_lines(&pieces),
        None => Vec::new(),
    }
}

} // verus!
