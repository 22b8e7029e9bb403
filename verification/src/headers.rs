//! The header text of a request: one header per line, a colon between the
//! name and the value. Lines that are no header are passed over.

use crate::text::{
    feed_free, find_char, first_index_of, is_blank, joined, lemma_blank_iff_trimmed_empty,
    lemma_first_index_of_bounds, lemma_split_joined, lemma_trimmed_has_no_margin,
    lemma_trimmed_is_subrange, split_lines, string_of, to_chars, trim_bounds, trimmed,
};
use vstd::prelude::*;

verus! {

/// A header as the text gives it: the name, then the value.
pub type HeaderPair = (Seq<char>, Seq<char>);

/// The header that a line holds: the text before the first colon is the
/// name, the text after it the value, both trimmed. A line without a colon,
/// or with nothing but white space before it, holds none.
pub open spec fn header_of_line(line: Seq<char>) -> Option<HeaderPair> {
    let i = first_index_of(line, ':');
    if 0 <= i < line.len() && trimmed(line.take(i)).len() > 0 {
        Some((trimmed(line.take(i)), trimmed(line.skip(i + 1))))
    } else {
        None
    }
}

/// The headers that the lines hold, in the order of the lines.
pub open spec fn headers_of_lines(lines: Seq<Seq<char>>) -> Seq<HeaderPair>
    decreases lines.len(),
{
    if lines.len() == 0 {
        Seq::empty()
    } else {
        let before = headers_of_lines(lines.drop_last());
        match header_of_line(lines.last()) {
            Some(h) => before.push(h),
            None => before,
        }
    }
}

/// The headers that a header text holds.
pub open spec fn parsed_headers(raw: Seq<char>) -> Seq<HeaderPair> {
    headers_of_lines(split_lines(raw))
}

/// What a vector of parsed headers holds, as texts.
pub open spec fn pairs_view(pairs: Seq<(String, String)>) -> Seq<HeaderPair> {
    pairs.map_values(|p: (String, String)| (p.0@, p.1@))
}

/// A line holds a header exactly when it has a colon and something other
/// than white space before the first one; the header is then the trimmed
/// text on the two sides of that colon.
pub proof fn lemma_header_of_line(line: Seq<char>)
    ensures
        header_of_line(line) is Some <==> line.contains(':') && !is_blank(
            line.take(first_index_of(line, ':')),
        ),
        header_of_line(line) matches Some(h) ==> h.0.len() > 0 && h.0 == trimmed(h.0) && h.1
            == trimmed(h.1),
{
    let k = first_index_of(line, ':');
    lemma_first_index_of_bounds(line, ':');
    lemma_blank_iff_trimmed_empty(line.take(k));
    if header_of_line(line) is Some {
        assert(line.contains(line[k]));
        lemma_trimmed_idempotent(line.take(k));
        lemma_trimmed_idempotent(line.skip(k + 1));
    }
    if line.contains(':') {
        let i = choose|i: int| 0 <= i < line.len() && line[i] == ':';
        assert(k <= i);
    }
}

/// Trimming a trimmed text changes nothing.
pub proof fn lemma_trimmed_idempotent(s: Seq<char>)
    ensures
        trimmed(trimmed(s)) == trimmed(s),
{
    let t = trimmed(s);
    lemma_trimmed_has_no_margin(s);
    if t.len() > 0 {
        lemma_trimmed_is_subrange(t, 0, t.len() as int);
        assert(t.subrange(0, t.len() as int) =~= t);
    } else {
        lemma_trimmed_is_subrange(t, 0, 0);
        assert(t.subrange(0, 0) =~= t);
    }
}

/// Every header of the result comes from a line that holds it, and every
/// line that holds a header has it in the result.
pub proof fn lemma_headers_of_lines(lines: Seq<Seq<char>>)
    ensures
        forall|h: HeaderPair| #[trigger]
            headers_of_lines(lines).contains(h) <==> exists|i: int|
                0 <= i < lines.len() && header_of_line(#[trigger] lines[i]) == Some(h),
        headers_of_lines(lines).len() <= lines.len(),
    decreases lines.len(),
{
    if lines.len() == 0 {
    } else {
        let before_lines = lines.drop_last();
        let before = headers_of_lines(before_lines);
        lemma_headers_of_lines(before_lines);
        let all = headers_of_lines(lines);
        let n = lines.len() - 1;
        assert forall|h: HeaderPair| #[trigger]
            all.contains(h) <==> exists|i: int|
                0 <= i < lines.len() && header_of_line(#[trigger] lines[i]) == Some(h) by {
            if all.contains(h) {
                let k = choose|k: int| 0 <= k < all.len() && all[k] == h;
                if k < before.len() {
                    assert(before[k] == h);
                    assert(before.contains(h));
                    let i = choose|i: int|
                        0 <= i < before_lines.len() && header_of_line(#[trigger] before_lines[i])
                            == Some(h);
                    assert(lines[i] == before_lines[i]);
                } else {
                    assert(header_of_line(lines[n]) == Some(h));
                }
            }
            if exists|i: int|
                0 <= i < lines.len() && header_of_line(#[trigger] lines[i]) == Some(h) {
                let i = choose|i: int|
                    0 <= i < lines.len() && header_of_line(#[trigger] lines[i]) == Some(h);
                if i < n {
                    assert(before_lines[i] == lines[i]);
                    assert(before.contains(h));
                    let k = choose|k: int| 0 <= k < before.len() && before[k] == h;
                    assert(all[k] == h);
                } else {
                    assert(all.last() == h);
                }
            }
        }
    }
}

/// Whether a line is well formed as a header: it has a colon, and
/// something other than white space stands before the first one.
pub open spec fn is_header_line(line: Seq<char>) -> bool {
    line.contains(':') && !is_blank(line.take(first_index_of(line, ':')))
}

/// The name that a well-formed line gives: the trimmed text before its
/// first colon.
pub open spec fn line_key(line: Seq<char>) -> Seq<char> {
    trimmed(line.take(first_index_of(line, ':')))
}

/// The value that a well-formed line gives: the trimmed text after its
/// first colon.
pub open spec fn line_value(line: Seq<char>) -> Seq<char> {
    trimmed(line.skip(first_index_of(line, ':') + 1))
}

/// The headers of a header text are those of its well-formed lines, keyed
/// by trimmed text: a line without a colon, or with no name before it,
/// gives no header, and every well-formed line gives its own.
pub proof fn lemma_parsed_headers(raw: Seq<char>)
    ensures
        forall|h: HeaderPair| #[trigger]
            parsed_headers(raw).contains(h) <==> exists|i: int|
                0 <= i < split_lines(raw).len() && is_header_line(#[trigger] split_lines(raw)[i])
                    && h == (line_key(split_lines(raw)[i]), line_value(split_lines(raw)[i])),
        forall|i: int|
            0 <= i < split_lines(raw).len() && is_header_line(#[trigger] split_lines(raw)[i])
                ==> parsed_headers(raw).contains(
                (line_key(split_lines(raw)[i]), line_value(split_lines(raw)[i])),
            ),
        forall|h: HeaderPair| #[trigger] parsed_headers(raw).contains(h) ==> h.0.len() > 0,
{
    let lines = split_lines(raw);
    lemma_headers_of_lines(lines);
    assert forall|i: int| 0 <= i < lines.len() implies (is_header_line(#[trigger] lines[i])
        <==> header_of_line(lines[i]) is Some) && (header_of_line(lines[i]) matches Some(h)
        ==> h == (line_key(lines[i]), line_value(lines[i])) && h.0.len() > 0) by {
        lemma_header_of_line(lines[i]);
    }
    assert forall|h: HeaderPair| #[trigger]
        parsed_headers(raw).contains(h) <==> exists|i: int|
            0 <= i < lines.len() && is_header_line(#[trigger] lines[i]) && h == (
                line_key(lines[i]),
                line_value(lines[i]),
            ) by {
        if parsed_headers(raw).contains(h) {
            let i = choose|i: int|
                0 <= i < lines.len() && header_of_line(#[trigger] lines[i]) == Some(h);
            assert(is_header_line(lines[i]));
        }
        if exists|i: int|
            0 <= i < lines.len() && is_header_line(#[trigger] lines[i]) && h == (
                line_key(lines[i]),
                line_value(lines[i]),
            ) {
            let i = choose|i: int|
                0 <= i < lines.len() && is_header_line(#[trigger] lines[i]) && h == (
                    line_key(lines[i]),
                    line_value(lines[i]),
                );
            assert(header_of_line(lines[i]) == Some(h));
        }
    }
    assert forall|i: int|
        0 <= i < lines.len() && is_header_line(
            #[trigger] lines[i],
        ) implies parsed_headers(raw).contains((line_key(lines[i]), line_value(lines[i]))) by {
        assert(header_of_line(lines[i]) == Some((line_key(lines[i]), line_value(lines[i]))));
    }
    assert forall|h: HeaderPair| #[trigger] parsed_headers(raw).contains(h) implies h.0.len()
        > 0 by {
        let i = choose|i: int|
            0 <= i < lines.len() && header_of_line(#[trigger] lines[i]) == Some(h);
        assert(is_header_line(lines[i]));
    }
}

/// The headers of lines that were joined into one text are the headers of
/// the lines themselves, as long as no line holds a line feed.
pub proof fn lemma_parsed_joined(lines: Seq<Seq<char>>)
    requires
        feed_free(lines),
    ensures
        parsed_headers(joined(lines)) == headers_of_lines(lines),
{
    lemma_split_joined(lines);
    if lines.len() > 0 && lines.last().len() == 0 {
        assert(header_of_line(lines.last()) is None);
    }
}

/// The header that `chars[from..to]` holds as a line, if it holds one.
pub fn parse_header_line(chars: &Vec<char>, from: usize, to: usize) -> (r: Option<
    (String, String),
>)
    requires
        from <= to <= chars.len(),
    ensures
        match r {
            Some(p) => header_of_line(chars@.subrange(from as int, to as int)) == Some(
                (p.0@, p.1@),
            ),
            None => header_of_line(chars@.subrange(from as int, to as int)) is None,
        },
{
    let colon = find_char(chars, from, to, ':');
    if colon >= to {
        return None;
    }
    let ghost line = chars@.subrange(from as int, to as int);
    let key = trim_bounds(chars, from, colon);
    let value = trim_bounds(chars, colon + 1, to);
    proof {
        assert(line.take(colon - from) =~= chars@.subrange(from as int, colon as int));
        assert(line.skip(colon - from + 1) =~= chars@.subrange(colon + 1, to as int));
    }
    if key.0 == key.1 {
        return None;
    }
    Some((string_of(chars, key.0, key.1), string_of(chars, value.0, value.1)))
}

/// Parses a header text: each line with a colon and a name before it gives
/// one header, in the order of the lines; every other line is passed over.
pub fn parse_header_lines(raw_headers: &str) -> (headers: Vec<(String, String)>)
    ensures
        pairs_view(headers@) == parsed_headers(raw_headers@),
{
    let chars = to_chars(raw_headers);
    let mut headers: Vec<(String, String)> = Vec::new();
    let mut start: usize = 0;
    let ghost mut done: Seq<Seq<char>> = Seq::empty();
    proof {
        assert(chars@.skip(0) =~= chars@);
        assert(done + split_lines(chars@) =~= split_lines(chars@));
    }
    while start < chars.len()
        invariant
            start <= chars.len(),
            chars@ == raw_headers@,
            split_lines(chars@) == done + split_lines(chars@.skip(start as int)),
            pairs_view(headers@) == headers_of_lines(done),
        decreases chars.len() - start,
    {
        let end = find_char(&chars, start, chars.len(), '\n');
        let parsed = parse_header_line(&chars, start, end);
        let ghost rest = chars@.skip(start as int);
        let ghost line = chars@.subrange(start as int, end as int);
        let ghost before = headers@;
        proof {
            assert(rest =~= chars@.subrange(start as int, chars.len() as int));
            assert(rest.take(end - start) =~= line);
            if end < chars.len() {
                assert(rest.skip(end - start + 1) =~= chars@.skip(end + 1));
            } else {
                assert(rest =~= line);
                assert(split_lines(chars@.skip(chars.len() as int)) =~= Seq::empty());
            }
            assert(split_lines(rest) =~= seq![line] + split_lines(
                chars@.skip(if end < chars.len() {
                    end + 1
                } else {
                    end as int
                }),
            ));
            assert(done.push(line).drop_last() =~= done);
        }
        match parsed {
            Some(p) => {
                headers.push(p);
                proof {
                    assert(pairs_view(headers@) =~= pairs_view(before).push((p.0@, p.1@)));
                }
            },
            None => {},
        }
        proof {
            assert(done + (seq![line] + split_lines(
                chars@.skip(if end < chars.len() {
                    end + 1
                } else {
                    end as int
                }),
            )) =~= done.push(line) + split_lines(
                chars@.skip(if end < chars.len() {
                    end + 1
                } else {
                    end as int
                }),
            ));
            done = done.push(line);
        }
        start = if end < chars.len() {
            end + 1
        } else {
            end
        };
    }
    proof {
        assert(chars@.skip(chars.len() as int) =~= Seq::empty());
        assert(done + Seq::<Seq<char>>::empty() =~= done);
    }
    headers
}

} // verus!
