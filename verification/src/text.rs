//! Text on sequences of characters: white space, trimming, searching,
//! splitting into lines and joining them again.

use vstd::prelude::*;
use vstd::std_specs::iter::IteratorSpec;

verus! {

/// Whether `c` is a white-space character (the Unicode `White_Space` property).
pub open spec fn is_space(c: char) -> bool {
    ||| ('\u{9}' <= c && c <= '\u{d}')
    ||| c == ' '
    ||| c == '\u{85}'
    ||| c == '\u{a0}'
    ||| c == '\u{1680}'
    ||| ('\u{2000}' <= c && c <= '\u{200a}')
    ||| c == '\u{2028}'
    ||| c == '\u{2029}'
    ||| c == '\u{202f}'
    ||| c == '\u{205f}'
    ||| c == '\u{3000}'
}

/// Whether every character of `s` is white space.
pub open spec fn is_blank(s: Seq<char>) -> bool {
    forall|i: int| 0 <= i < s.len() ==> is_space(#[trigger] s[i])
}

/// `s` without its leading white space.
pub open spec fn skip_spaces(s: Seq<char>) -> Seq<char>
    decreases s.len(),
{
    if s.len() > 0 && is_space(s.first()) {
        skip_spaces(s.drop_first())
    } else {
        s
    }
}

/// `s` without its trailing white space.
pub open spec fn drop_trailing_spaces(s: Seq<char>) -> Seq<char>
    decreases s.len(),
{
    if s.len() > 0 && is_space(s.last()) {
        drop_trailing_spaces(s.drop_last())
    } else {
        s
    }
}

/// `s` without the white space that surrounds it.
pub open spec fn trimmed(s: Seq<char>) -> Seq<char> {
    drop_trailing_spaces(skip_spaces(s))
}

/// The index of the first `c` in `s`, or `s.len()` where `s` holds none.
pub open spec fn first_index_of(s: Seq<char>, c: char) -> int
    decreases s.len(),
{
    if s.len() == 0 || s.first() == c {
        0
    } else {
        1 + first_index_of(s.drop_first(), c)
    }
}

/// The lines of `s`: the pieces between line feeds. A line feed that ends
/// the text opens no further line, and the empty text has no line.
pub open spec fn split_lines(s: Seq<char>) -> Seq<Seq<char>>
    decreases s.len(),
{
    let i = first_index_of(s, '\n');
    if s.len() == 0 {
        Seq::empty()
    } else if 0 <= i < s.len() {
        seq![s.take(i)] + split_lines(s.skip(i + 1))
    } else {
        seq![s]
    }
}

/// The lines put together again, with one line feed between neighbours.
pub open spec fn joined(lines: Seq<Seq<char>>) -> Seq<char>
    decreases lines.len(),
{
    if lines.len() == 0 {
        Seq::empty()
    } else if lines.len() == 1 {
        lines[0]
    } else {
        joined(lines.drop_last()) + seq!['\n'] + lines.last()
    }
}

/// The texts that a vector of strings holds.
pub open spec fn lines_view(lines: Seq<String>) -> Seq<Seq<char>> {
    lines.map_values(|s: String| s@)
}

/// `first_index_of` finds the one position before which no `c` stands and
/// at which a `c` stands, if the text has one.
pub proof fn lemma_first_index_of(s: Seq<char>, c: char, i: int)
    requires
        0 <= i <= s.len(),
        forall|j: int| 0 <= j < i ==> s[j] != c,
        i < s.len() ==> s[i] == c,
    ensures
        first_index_of(s, c) == i,
    decreases s.len(),
{
    if s.len() == 0 || s.first() == c {
    } else {
        let t = s.drop_first();
        assert forall|j: int| 0 <= j < i - 1 implies t[j] != c by {
            assert(t[j] == s[j + 1]);
        }
        lemma_first_index_of(t, c, i - 1);
    }
}

/// What `first_index_of` returns lies within the text, no `c` stands before
/// it, and a `c` stands at it unless it is the end.
pub proof fn lemma_first_index_of_bounds(s: Seq<char>, c: char)
    ensures
        0 <= first_index_of(s, c) <= s.len(),
        forall|j: int| 0 <= j < first_index_of(s, c) ==> s[j] != c,
        first_index_of(s, c) < s.len() ==> s[first_index_of(s, c)] == c,
    decreases s.len(),
{
    if s.len() == 0 || s.first() == c {
    } else {
        let t = s.drop_first();
        lemma_first_index_of_bounds(t, c);
        let k = first_index_of(t, c);
        assert forall|j: int| 0 <= j < k + 1 implies s[j] != c by {
            if j > 0 {
                assert(s[j] == t[j - 1]);
            }
        }
        if k < t.len() {
            assert(s[k + 1] == t[k]);
        }
    }
}

/// Where the first `a` characters are white space and the next one is not,
/// skipping the leading white space leaves the text from `a` on.
pub proof fn lemma_skip_spaces(s: Seq<char>, a: int)
    requires
        0 <= a <= s.len(),
        forall|j: int| 0 <= j < a ==> is_space(s[j]),
        a < s.len() ==> !is_space(s[a]),
    ensures
        skip_spaces(s) == s.skip(a),
    decreases s.len(),
{
    if a == 0 {
        assert(s.skip(0) =~= s);
    } else {
        let t = s.drop_first();
        assert(is_space(s[0]));
        assert forall|j: int| 0 <= j < a - 1 implies is_space(t[j]) by {
            assert(t[j] == s[j + 1]);
        }
        if a - 1 < t.len() {
            assert(t[a - 1] == s[a]);
        }
        lemma_skip_spaces(t, a - 1);
        assert(t.skip(a - 1) =~= s.skip(a));
    }
}

/// Where everything from `b` on is white space and the character before `b`
/// is not, dropping the trailing white space leaves the first `b` characters.
pub proof fn lemma_drop_trailing_spaces(s: Seq<char>, b: int)
    requires
        0 <= b <= s.len(),
        forall|j: int| b <= j < s.len() ==> is_space(s[j]),
        b > 0 ==> !is_space(s[b - 1]),
    ensures
        drop_trailing_spaces(s) == s.take(b),
    decreases s.len(),
{
    if b == s.len() {
        assert(s.take(b) =~= s);
    } else {
        let t = s.drop_last();
        assert(is_space(s[s.len() - 1]));
        assert forall|j: int| b <= j < t.len() implies is_space(t[j]) by {
            assert(t[j] == s[j]);
        }
        if b > 0 {
            assert(t[b - 1] == s[b - 1]);
        }
        lemma_drop_trailing_spaces(t, b);
        assert(t.take(b) =~= s.take(b));
    }
}

/// Trimming leaves the stretch between the first and the last character
/// that is no white space: with `a` and `b` its bounds, `s.subrange(a, b)`.
pub proof fn lemma_trimmed_is_subrange(s: Seq<char>, a: int, b: int)
    requires
        0 <= a <= b <= s.len(),
        forall|j: int| 0 <= j < a ==> is_space(s[j]),
        forall|j: int| b <= j < s.len() ==> is_space(s[j]),
        a < b ==> !is_space(s[a]) && !is_space(s[b - 1]),
        a == b ==> a == s.len(),
    ensures
        trimmed(s) == s.subrange(a, b),
{
    lemma_skip_spaces(s, a);
    let t = s.skip(a);
    assert forall|j: int| b - a <= j < t.len() implies is_space(t[j]) by {
        assert(t[j] == s[j + a]);
    }
    if b - a > 0 {
        assert(t[b - a - 1] == s[b - 1]);
    }
    lemma_drop_trailing_spaces(t, b - a);
    assert(t.take(b - a) =~= s.subrange(a, b));
}

/// A trimmed text neither begins nor ends with white space.
pub proof fn lemma_trimmed_has_no_margin(s: Seq<char>)
    ensures
        trimmed(s).len() > 0 ==> !is_space(trimmed(s).first()) && !is_space(trimmed(s).last()),
        trimmed(s).len() <= s.len(),
{
    lemma_skip_spaces_shape(s);
    lemma_drop_trailing_shape(skip_spaces(s));
}

/// Skipping leading white space yields a suffix that does not begin with
/// white space.
pub proof fn lemma_skip_spaces_shape(s: Seq<char>)
    ensures
        skip_spaces(s).len() <= s.len(),
        skip_spaces(s) == s.skip(s.len() - skip_spaces(s).len()),
        skip_spaces(s).len() > 0 ==> !is_space(skip_spaces(s).first()),
    decreases s.len(),
{
    if s.len() > 0 && is_space(s.first()) {
        let t = s.drop_first();
        lemma_skip_spaces_shape(t);
        assert(t.skip(t.len() - skip_spaces(t).len()) =~= s.skip(s.len() - skip_spaces(t).len()));
    } else {
        assert(s.skip(0) =~= s);
    }
}

/// Dropping trailing white space yields a prefix that does not end with
/// white space, and keeps the first character where any is left.
pub proof fn lemma_drop_trailing_shape(s: Seq<char>)
    ensures
        drop_trailing_spaces(s).len() <= s.len(),
        drop_trailing_spaces(s) == s.take(drop_trailing_spaces(s).len() as int),
        drop_trailing_spaces(s).len() > 0 ==> !is_space(drop_trailing_spaces(s).last()),
        drop_trailing_spaces(s).len() > 0 ==> drop_trailing_spaces(s).first() == s.first(),
    decreases s.len(),
{
    if s.len() > 0 && is_space(s.last()) {
        let t = s.drop_last();
        lemma_drop_trailing_shape(t);
        let n = drop_trailing_spaces(t).len() as int;
        assert(t.take(n) =~= s.take(n));
    } else {
        assert(s.take(s.len() as int) =~= s);
    }
}

/// A text is blank exactly when trimming leaves nothing of it.
pub proof fn lemma_blank_iff_trimmed_empty(s: Seq<char>)
    ensures
        is_blank(s) <==> trimmed(s).len() == 0,
{
    if is_blank(s) {
        lemma_trimmed_is_subrange(s, s.len() as int, s.len() as int);
    } else {
        let i = choose|i: int| 0 <= i < s.len() && !is_space(#[trigger] s[i]);
        lemma_skip_spaces_shape(s);
        let t = skip_spaces(s);
        if t.len() == 0 {
            lemma_skip_spaces_all(s);
            assert(is_space(s[i]));
        }
        lemma_drop_trailing_shape(t);
        if drop_trailing_spaces(t).len() == 0 {
            assert(!is_space(t.first()));
            lemma_drop_trailing_all(t);
            assert(is_space(t[0]));
        }
    }
}

/// Where skipping leading white space leaves nothing, all of it was white
/// space.
pub proof fn lemma_skip_spaces_all(s: Seq<char>)
    requires
        skip_spaces(s).len() == 0,
    ensures
        is_blank(s),
    decreases s.len(),
{
    if s.len() > 0 {
        let t = s.drop_first();
        lemma_skip_spaces_all(t);
        assert forall|i: int| 0 <= i < s.len() implies is_space(#[trigger] s[i]) by {
            if i > 0 {
                assert(s[i] == t[i - 1]);
            }
        }
    }
}

/// Where dropping trailing white space leaves nothing, all of it was white
/// space.
pub proof fn lemma_drop_trailing_all(s: Seq<char>)
    requires
        drop_trailing_spaces(s).len() == 0,
    ensures
        is_blank(s),
    decreases s.len(),
{
    if s.len() > 0 {
        let t = s.drop_last();
        lemma_drop_trailing_all(t);
        assert forall|i: int| 0 <= i < s.len() implies is_space(#[trigger] s[i]) by {
            if i < t.len() {
                assert(s[i] == t[i]);
            }
        }
    }
}

/// Whether no line holds a line feed.
pub open spec fn feed_free(lines: Seq<Seq<char>>) -> bool {
    forall|i: int| 0 <= i < lines.len() ==> !(#[trigger] lines[i]).contains('\n')
}

/// Joining the lines with one more line in front puts that line and a line
/// feed before the joined rest.
pub proof fn lemma_joined_front(first: Seq<char>, rest: Seq<Seq<char>>)
    requires
        rest.len() > 0,
    ensures
        joined(seq![first] + rest) == first + seq!['\n'] + joined(rest),
    decreases rest.len(),
{
    let all = seq![first] + rest;
    assert(all.len() == rest.len() + 1);
    assert(all.last() == rest.last());
    assert(joined(all) == joined(all.drop_last()) + seq!['\n'] + all.last());
    if rest.len() == 1 {
        assert(all.drop_last() =~= seq![first]);
        assert(joined(seq![first]) == first);
        assert(joined(rest) == rest[0]);
    } else {
        assert(all.drop_last() =~= seq![first] + rest.drop_last());
        lemma_joined_front(first, rest.drop_last());
        assert(joined(rest) == joined(rest.drop_last()) + seq!['\n'] + rest.last());
        assert(first + seq!['\n'] + joined(rest.drop_last()) + seq!['\n'] + rest.last() =~= first
            + seq!['\n'] + (joined(rest.drop_last()) + seq!['\n'] + rest.last()));
    }
}

/// Joining lines that hold no line feed and splitting the text again gives
/// the lines back, except that an empty last line is lost.
pub proof fn lemma_split_joined(lines: Seq<Seq<char>>)
    requires
        feed_free(lines),
    ensures
        split_lines(joined(lines)) == if lines.len() > 0 && lines.last().len() == 0 {
            lines.drop_last()
        } else {
            lines
        },
    decreases lines.len(),
{
    if lines.len() == 0 {
    } else if lines.len() == 1 {
        let line = lines[0];
        if line.len() == 0 {
            assert(lines.drop_last() =~= Seq::<Seq<char>>::empty());
        } else {
            assert forall|j: int| 0 <= j < line.len() implies line[j] != '\n' by {
                if line[j] == '\n' {
                    assert(line.contains('\n'));
                }
            }
            lemma_first_index_of(line, '\n', line.len() as int);
            assert(lines =~= seq![line]);
        }
    } else {
        let first = lines[0];
        let rest = lines.drop_first();
        assert(lines =~= seq![first] + rest);
        assert(feed_free(rest)) by {
            assert forall|i: int| 0 <= i < rest.len() implies !(#[trigger] rest[i]).contains(
                '\n',
            ) by {
                assert(rest[i] == lines[i + 1]);
            }
        }
        lemma_joined_front(first, rest);
        let text = joined(lines);
        let n = first.len() as int;
        assert(text =~= first + seq!['\n'] + joined(rest));
        assert forall|j: int| 0 <= j < n implies text[j] != '\n' by {
            if first[j] == '\n' {
                assert(first.contains('\n'));
            }
        }
        lemma_first_index_of(text, '\n', n);
        assert(text.take(n) =~= first);
        assert(text.skip(n + 1) =~= joined(rest));
        lemma_split_joined(rest);
        assert(lines.last() == rest.last());
        if rest.last().len() == 0 {
            assert(seq![first] + rest.drop_last() =~= lines.drop_last());
        }
    }
}

/// Whether `c` is white space.
pub fn is_whitespace(c: char) -> (b: bool)
    ensures
        b == is_space(c),
{
    ('\u{9}' <= c && c <= '\u{d}') || c == ' ' || c == '\u{85}' || c == '\u{a0}' || c
        == '\u{1680}' || ('\u{2000}' <= c && c <= '\u{200a}') || c == '\u{2028}' || c
        == '\u{2029}' || c == '\u{202f}' || c == '\u{205f}' || c == '\u{3000}'
}

/// The characters of `s`, in order.
pub fn to_chars(s: &str) -> (v: Vec<char>)
    ensures
        v@ == s@,
{
    let mut v: Vec<char> = Vec::new();
    for c in it: s.chars()
        invariant
            it.seq() == s@,
            v@ == it.seq().take(it.index()),
    {
        v.push(c);
    }
    v
}

/// The text made of `chars[from..to]`.
pub fn string_of(chars: &Vec<char>, from: usize, to: usize) -> (s: String)
    requires
        from <= to <= chars.len(),
    ensures
        s@ == chars@.subrange(from as int, to as int),
{
    let mut s = String::new();
    let mut i: usize = from;
    while i < to
        invariant
            from <= i <= to <= chars.len(),
            s@ == chars@.subrange(from as int, i as int),
        decreases to - i,
    {
        s.push(chars[i]);
        i += 1;
    }
    s
}

/// The position in `chars[from..to]` of the first `c`, counted from the
/// start of `chars`; `to` where the stretch holds none.
pub fn find_char(chars: &Vec<char>, from: usize, to: usize, c: char) -> (i: usize)
    requires
        from <= to <= chars.len(),
    ensures
        from <= i <= to,
        i == from + first_index_of(chars@.subrange(from as int, to as int), c),
{
    let mut i: usize = from;
    while i < to && chars[i] != c
        invariant
            from <= i <= to <= chars.len(),
            forall|j: int| from <= j < i ==> chars@[j] != c,
        decreases to - i,
    {
        i += 1;
    }
    proof {
        let s = chars@.subrange(from as int, to as int);
        lemma_first_index_of(s, c, i - from);
    }
    i
}

/// The bounds within `chars[from..to]` of what trimming leaves of it.
pub fn trim_bounds(chars: &Vec<char>, from: usize, to: usize) -> (r: (usize, usize))
    requires
        from <= to <= chars.len(),
    ensures
        from <= r.0 <= r.1 <= to,
        chars@.subrange(r.0 as int, r.1 as int) == trimmed(chars@.subrange(from as int, to as int)),
{
    let mut a: usize = from;
    while a < to && is_whitespace(chars[a])
        invariant
            from <= a <= to <= chars.len(),
            forall|j: int| from <= j < a ==> is_space(chars@[j]),
        decreases to - a,
    {
        a += 1;
    }
    let mut b: usize = to;
    while b > a && is_whitespace(chars[b - 1])
        invariant
            a <= b <= to <= chars.len(),
            forall|j: int| b <= j < to ==> is_space(chars@[j]),
        decreases b,
    {
        b -= 1;
    }
    proof {
        let s = chars@.subrange(from as int, to as int);
        lemma_trimmed_is_subrange(s, a - from, b - from);
        assert(s.subrange(a - from, b - from) =~= chars@.subrange(a as int, b as int));
    }
    (a, b)
}

/// Whether `s` holds nothing but white space.
pub fn is_blank_text(s: &str) -> (b: bool)
    ensures
        b == is_blank(s@),
{
    let chars = to_chars(s);
    let mut i: usize = 0;
    while i < chars.len()
        invariant
            i <= chars.len(),
            chars@ == s@,
            forall|j: int| 0 <= j < i ==> is_space(chars@[j]),
        decreases chars.len() - i,
    {
        if !is_whitespace(chars[i]) {
            assert(!is_space(s@[i as int]));
            return false;
        }
        i += 1;
    }
    true
}

/// The lines joined by line feeds.
pub fn join_lines(lines: &Vec<String>) -> (text: String)
    ensures
        text@ == joined(lines_view(lines@)),
{
    let mut text = String::new();
    let mut i: usize = 0;
    while i < lines.len()
        invariant
            i <= lines.len(),
            text@ == joined(lines_view(lines@).take(i as int)),
        decreases lines.len() - i,
    {
        proof {
            let all = lines_view(lines@);
            let next = all.take(i + 1);
            assert(next.drop_last() =~= all.take(i as int));
            assert(next.last() == lines@[i as int]@);
            reveal_strlit("\n");
            assert("\n"@ =~= seq!['\n']);
        }
        if i > 0 {
            text.push('\n');
        }
        text.push_str(lines[i].as_str());
        i += 1;
    }
    proof {
        assert(lines_view(lines@).take(lines.len() as int) =~= lines_view(lines@));
    }
    text
}

} // verus!
