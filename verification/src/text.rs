//! Text utilities shared by the other modules. Every text is characterised by
//! its sequence of characters, and every function here is pinned to a
//! mathematical description of the characters it returns.

use vstd::prelude::*;
use vstd::std_specs::iter::IteratorSpec;

verus! {

/// The characters of `s`, in order, in a vector that can be indexed in
/// constant time.
pub fn chars_of(s: &str) -> (v: Vec<char>)
    ensures
        v@ == s@,
{
    broadcast use vstd::string::group_string_axioms;

    let mut v: Vec<char> = Vec::new();
    let mut rest = s.chars();
    loop
        invariant
            rest.obeys_prophetic_iter_laws(),
            rest.decrease() is Some,
            v@ + rest.remaining() == s@,
        ensures
            v@ == s@,
        decreases rest.decrease()->0,
    {
        match rest.next() {
            Some(c) => {
                v.push(c);
                assert(v@ + rest.remaining() =~= s@);
            },
            None => {
                assert(v@ =~= s@);
                break ;
            },
        }
    }
    v
}

/// Whether `needle` occurs in `hay` as a run of neighbouring characters.
pub open spec fn contains(hay: Seq<char>, needle: Seq<char>) -> bool {
    exists|at: int|
        0 <= at && at + needle.len() <= hay.len() && #[trigger] hay.subrange(
            at,
            at + needle.len(),
        ) == needle
}

/// A text contains what it ends with.
pub proof fn lemma_contains_last(before: Seq<char>, last: Seq<char>)
    ensures
        contains(before + last, last),
{
    let whole = before + last;
    let at = before.len() as int;
    assert(whole.subrange(at, at + last.len()) =~= last);
}

/// What a text contains, it still contains when more is appended to it.
pub proof fn lemma_contains_longer(text: Seq<char>, more: Seq<char>, needle: Seq<char>)
    requires
        contains(text, needle),
    ensures
        contains(text + more, needle),
{
    let at = choose|at: int|
        0 <= at && at + needle.len() <= text.len() && #[trigger] text.subrange(
            at,
            at + needle.len(),
        ) == needle;
    assert((text + more).subrange(at, at + needle.len()) =~= text.subrange(
        at,
        at + needle.len(),
    ));
}

/// What a text contains, it still contains when it is appended to another.
pub proof fn lemma_contains_later(before: Seq<char>, text: Seq<char>, needle: Seq<char>)
    requires
        contains(text, needle),
    ensures
        contains(before + text, needle),
{
    let at = choose|at: int|
        0 <= at && at + needle.len() <= text.len() && #[trigger] text.subrange(
            at,
            at + needle.len(),
        ) == needle;
    assert((before + text).subrange(before.len() + at, before.len() + at + needle.len())
        =~= text.subrange(at, at + needle.len()));
}

/// The texts one after the other, with nothing between them.
pub open spec fn concat(parts: Seq<Seq<char>>) -> Seq<char>
    decreases parts.len(),
{
    if parts.len() == 0 {
        Seq::<char>::empty()
    } else {
        concat(parts.drop_last()) + parts.last()
    }
}

/// What is put together from parts contains each of them.
pub proof fn lemma_concat_contains(parts: Seq<Seq<char>>, i: int)
    requires
        0 <= i < parts.len(),
    ensures
        contains(concat(parts), parts[i]),
    decreases parts.len(),
{
    if i == parts.len() - 1 {
        lemma_contains_last(concat(parts.drop_last()), parts.last());
    } else {
        lemma_concat_contains(parts.drop_last(), i);
        lemma_contains_longer(concat(parts.drop_last()), parts.last(), parts[i]);
    }
}

/// The decimal digit that stands for `d`, for `d` from 0 to 9.
pub open spec fn digit(d: int) -> char {
    if d == 0 {
        '0'
    } else if d == 1 {
        '1'
    } else if d == 2 {
        '2'
    } else if d == 3 {
        '3'
    } else if d == 4 {
        '4'
    } else if d == 5 {
        '5'
    } else if d == 6 {
        '6'
    } else if d == 7 {
        '7'
    } else if d == 8 {
        '8'
    } else {
        '9'
    }
}

/// The decimal numeral of `n`, without sign or leading zeros.
pub open spec fn decimal_text(n: nat) -> Seq<char>
    decreases n,
{
    if n < 10 {
        seq![digit(n as int)]
    } else {
        decimal_text(n / 10).push(digit((n % 10) as int))
    }
}

fn digit_str(d: u16) -> (r: &'static str)
    requires
        d < 10,
    ensures
        r@ == seq![digit(d as int)],
{
    proof {
        reveal_strlit("0");
        reveal_strlit("1");
        reveal_strlit("2");
        reveal_strlit("3");
        reveal_strlit("4");
        reveal_strlit("5");
        reveal_strlit("6");
        reveal_strlit("7");
        reveal_strlit("8");
        reveal_strlit("9");
    }
    let r = if d == 0 {
        "0"
    } else if d == 1 {
        "1"
    } else if d == 2 {
        "2"
    } else if d == 3 {
        "3"
    } else if d == 4 {
        "4"
    } else if d == 5 {
        "5"
    } else if d == 6 {
        "6"
    } else if d == 7 {
        "7"
    } else if d == 8 {
        "8"
    } else {
        "9"
    };
    assert(r@ =~= seq![digit(d as int)]);
    r
}

/// Writes `n` as a decimal numeral.
pub fn decimal(n: u16) -> (r: String)
    ensures
        r@ == decimal_text(n as nat),
    decreases n,
{
    if n < 10 {
        digit_str(n).to_owned()
    } else {
        let mut r = decimal(n / 10);
        r.append(digit_str(n % 10));
        assert(r@ =~= decimal_text(n as nat));
        r
    }
}

/// Whether `c` is white space: one of the characters with Unicode's property
/// `White_Space`. These are the tab, the line feed, the vertical tab, the
/// form feed, the carriage return and the space; the next-line control and
/// the no-break space; and the spaces and separators of the general
/// punctuation and beyond.
pub open spec fn white_space(c: char) -> bool {
    let n = c as u32;
    ||| 0x09 <= n <= 0x0D
    ||| n == 0x20
    ||| n == 0x85
    ||| n == 0xA0
    ||| n == 0x1680
    ||| 0x2000 <= n <= 0x200A
    ||| n == 0x2028
    ||| n == 0x2029
    ||| n == 0x202F
    ||| n == 0x205F
    ||| n == 0x3000
}

/// Whether `c` is white space.
pub fn is_white_space(c: char) -> (b: bool)
    ensures
        b == white_space(c),
{
    let n: u32 = c as u32;
    (0x09 <= n && n <= 0x0D) || n == 0x20 || n == 0x85 || n == 0xA0 || n == 0x1680 || (0x2000 <= n
        && n <= 0x200A) || n == 0x2028 || n == 0x2029 || n == 0x202F || n == 0x205F || n == 0x3000
}

/// `s` without the white space it begins with.
pub open spec fn trim_start(s: Seq<char>) -> Seq<char>
    decreases s.len(),
{
    if s.len() > 0 && white_space(s[0]) {
        trim_start(s.drop_first())
    } else {
        s
    }
}

/// `s` without the white space it ends with.
pub open spec fn trim_end(s: Seq<char>) -> Seq<char>
    decreases s.len(),
{
    if s.len() > 0 && white_space(s.last()) {
        trim_end(s.drop_last())
    } else {
        s
    }
}

/// `s` without the white space around it. White space inside stays.
pub open spec fn trimmed(s: Seq<char>) -> Seq<char> {
    trim_end(trim_start(s))
}

proof fn lemma_trim_start_skips(s: Seq<char>, lead: int)
    requires
        0 <= lead <= s.len(),
        forall|k: int| 0 <= k < lead ==> white_space(#[trigger] s[k]),
        lead < s.len() ==> !white_space(s[lead]),
    ensures
        trim_start(s) == s.skip(lead),
    decreases lead,
{
    if lead == 0 {
        assert(s.skip(0) =~= s);
    } else {
        let rest = s.drop_first();
        assert forall|k: int| 0 <= k < lead - 1 implies white_space(#[trigger] rest[k]) by {
            assert(rest[k] == s[k + 1]);
        }
        lemma_trim_start_skips(rest, lead - 1);
        assert(rest.skip(lead - 1) =~= s.skip(lead));
    }
}

proof fn lemma_trim_end_takes(s: Seq<char>, keep: int)
    requires
        0 <= keep <= s.len(),
        forall|k: int| keep <= k < s.len() ==> white_space(#[trigger] s[k]),
        keep > 0 ==> !white_space(s[keep - 1]),
    ensures
        trim_end(s) == s.take(keep),
    decreases s.len() - keep,
{
    if keep == s.len() {
        assert(s.take(keep) =~= s);
    } else {
        let rest = s.drop_last();
        lemma_trim_end_takes(rest, keep);
        assert(rest.take(keep) =~= s.take(keep));
    }
}

/// Trimming a second time changes nothing.
pub proof fn lemma_trimmed_is_stable(s: Seq<char>)
    ensures
        trimmed(trimmed(s)) == trimmed(s),
{
    let t = trimmed(s);
    lemma_trimmed_has_bare_ends(s);
    lemma_trim_start_skips(t, 0);
    assert(t.skip(0) =~= t);
    lemma_trim_end_takes(t, t.len() as int);
    assert(t.take(t.len() as int) =~= t);
}

/// A trimmed text neither begins nor ends with white space.
pub proof fn lemma_trimmed_has_bare_ends(s: Seq<char>)
    ensures
        trimmed(s).len() > 0 ==> !white_space(trimmed(s)[0]) && !white_space(trimmed(s).last()),
{
    lemma_trim_start_is_bare(s);
    lemma_trim_end_is_bare(trim_start(s));
    lemma_trim_end_is_prefix(trim_start(s));
}

proof fn lemma_trim_start_is_bare(s: Seq<char>)
    ensures
        trim_start(s).len() > 0 ==> !white_space(trim_start(s)[0]),
    decreases s.len(),
{
    if s.len() > 0 && white_space(s[0]) {
        lemma_trim_start_is_bare(s.drop_first());
    }
}

proof fn lemma_trim_end_is_bare(s: Seq<char>)
    ensures
        trim_end(s).len() > 0 ==> !white_space(trim_end(s).last()),
    decreases s.len(),
{
    if s.len() > 0 && white_space(s.last()) {
        lemma_trim_end_is_bare(s.drop_last());
    }
}

proof fn lemma_trim_end_is_prefix(s: Seq<char>)
    ensures
        trim_end(s).len() <= s.len(),
        trim_end(s) == s.take(trim_end(s).len() as int),
    decreases s.len(),
{
    if s.len() > 0 && white_space(s.last()) {
        let rest = s.drop_last();
        lemma_trim_end_is_prefix(rest);
        assert(rest.take(trim_end(rest).len() as int) =~= s.take(trim_end(rest).len() as int));
    } else {
        assert(s.take(s.len() as int) =~= s);
    }
}

/// Removes the white space around `s`.
pub fn trim(s: &str) -> (r: String)
    ensures
        r@ == trimmed(s@),
{
    let chars = chars_of(s);
    let n: usize = chars.len();
    let mut from: usize = 0;
    while from < n
        invariant
            n == chars@.len(),
            from <= n,
            forall|k: int| 0 <= k < from ==> white_space(#[trigger] chars@[k]),
        ensures
            from <= n,
            forall|k: int| 0 <= k < from ==> white_space(#[trigger] chars@[k]),
            from < n ==> !white_space(chars@[from as int]),
        decreases n - from,
    {
        if !is_white_space(chars[from]) {
            break ;
        }
        from = from + 1;
    }
    let mut to: usize = n;
    while to > from
        invariant
            n == chars@.len(),
            from <= to <= n,
            forall|k: int| to <= k < n ==> white_space(#[trigger] chars@[k]),
        ensures
            from <= to <= n,
            forall|k: int| to <= k < n ==> white_space(#[trigger] chars@[k]),
            to > from ==> !white_space(chars@[to - 1]),
        decreases to,
    {
        if !is_white_space(chars[to - 1]) {
            break ;
        }
        to = to - 1;
    }
    proof {
        let rest = s@.skip(from as int);
        lemma_trim_start_skips(s@, from as int);
        assert forall|k: int| to - from <= k < rest.len() implies white_space(
            #[trigger] rest[k],
        ) by {
            assert(rest[k] == chars@[k + from]);
        }
        lemma_trim_end_takes(rest, to - from);
        assert(rest.take(to - from) =~= s@.subrange(from as int, to as int));
    }
    s.substring_char(from, to).to_owned()
}

/// The text of an optional string.
pub open spec fn opt_text(o: Option<String>) -> Option<Seq<char>> {
    match o {
        Some(s) => Some(s@),
        None => None,
    }
}

/// The texts that a vector of strings holds, in order.
pub open spec fn texts(v: Seq<String>) -> Seq<Seq<char>> {
    Seq::new(v.len(), |i: int| v[i]@)
}

/// The pieces into which the occurrences of `sep` cut `s`: one more than there
/// are occurrences. A piece may be empty, and nothing is removed from a piece.
pub open spec fn split_on(s: Seq<char>, sep: char) -> Seq<Seq<char>>
    decreases s.len(),
{
    if s.len() == 0 {
        seq![Seq::<char>::empty()]
    } else {
        let before = split_on(s.drop_last(), sep);
        if s.last() == sep {
            before.push(Seq::<char>::empty())
        } else {
            before.update(before.len() - 1, before.last().push(s.last()))
        }
    }
}

/// The pieces put together again, with `sep` between neighbours.
pub open spec fn joined(pieces: Seq<Seq<char>>, sep: char) -> Seq<char>
    decreases pieces.len(),
{
    if pieces.len() == 0 {
        Seq::<char>::empty()
    } else if pieces.len() == 1 {
        pieces[0]
    } else {
        joined(pieces.drop_last(), sep).push(sep) + pieces.last()
    }
}

/// How often `c` occurs in `s`.
pub open spec fn occurrences(s: Seq<char>, c: char) -> nat
    decreases s.len(),
{
    if s.len() == 0 {
        0
    } else {
        occurrences(s.drop_last(), c) + if s.last() == c {
            1nat
        } else {
            0nat
        }
    }
}

/// Splitting gives one piece more than there are separators.
pub proof fn lemma_split_count(s: Seq<char>, sep: char)
    ensures
        split_on(s, sep).len() == occurrences(s, sep) + 1,
    decreases s.len(),
{
    if s.len() > 0 {
        lemma_split_count(s.drop_last(), sep);
    }
}

/// No piece of a text holds the separator.
pub proof fn lemma_split_pieces_lack_separator(s: Seq<char>, sep: char)
    ensures
        lack_separator(split_on(s, sep), sep),
    decreases s.len(),
{
    if s.len() > 0 {
        lemma_split_count(s.drop_last(), sep);
        lemma_split_pieces_lack_separator(s.drop_last(), sep);
    }
}

/// Joining the pieces with the separator gives the text back.
pub proof fn lemma_split_joins_back(s: Seq<char>, sep: char)
    ensures
        joined(split_on(s, sep), sep) == s,
    decreases s.len(),
{
    if s.len() == 0 {
        assert(joined(split_on(s, sep), sep) =~= s);
    } else {
        let front = s.drop_last();
        let before = split_on(front, sep);
        let pieces = split_on(s, sep);
        lemma_split_count(front, sep);
        lemma_split_joins_back(front, sep);
        if s.last() == sep {
            assert(pieces.drop_last() =~= before);
            assert(joined(pieces, sep) =~= front.push(sep));
        } else if before.len() == 1 {
            assert(joined(before, sep) == before[0]);
            assert(pieces[0] =~= front.push(s.last()));
        } else {
            assert(pieces.drop_last() =~= before.drop_last());
            assert(joined(pieces, sep) =~= joined(before, sep).push(s.last()));
        }
        assert(front.push(s.last()) =~= s);
    }
}

/// Whether no piece holds `sep`.
pub open spec fn lack_separator(pieces: Seq<Seq<char>>, sep: char) -> bool {
    forall|i: int, k: int|
        0 <= i < pieces.len() && 0 <= k < pieces[i].len() ==> (#[trigger] pieces[i][k]) != sep
}

proof fn lemma_joined_ends_with_last(pieces: Seq<Seq<char>>, sep: char)
    requires
        pieces.len() >= 2,
    ensures
        joined(pieces, sep).len() == joined(pieces.drop_last(), sep).len() + 1
            + pieces.last().len(),
        joined(pieces, sep)[joined(pieces.drop_last(), sep).len() as int] == sep,
        pieces.last().len() > 0 ==> joined(pieces, sep).last() == pieces.last().last(),
        pieces.last().len() == 0 ==> joined(pieces, sep).last() == sep,
{
}

/// The cut is the only one: pieces that lack the separator and join back to
/// the text are the pieces of the text.
pub proof fn lemma_split_is_the_only_cut(s: Seq<char>, sep: char, pieces: Seq<Seq<char>>)
    requires
        pieces.len() >= 1,
        lack_separator(pieces, sep),
        joined(pieces, sep) == s,
    ensures
        pieces == split_on(s, sep),
    decreases s.len(),
{
    let n = pieces.len() as int;
    let last = pieces.last();
    if n >= 2 {
        lemma_joined_ends_with_last(pieces, sep);
    }
    if s.len() == 0 {
        assert(n == 1);
        assert(pieces =~~= split_on(s, sep));
    } else if s.last() == sep {
        if last.len() > 0 {
            assert(pieces[n - 1][last.len() - 1] != sep);
        }
        assert(last.len() == 0 && n >= 2);
        let front = pieces.drop_last();
        assert(lack_separator(front, sep)) by {
            assert forall|i: int, k: int|
                0 <= i < front.len() && 0 <= k < front[i].len() implies (
            #[trigger] front[i][k]) != sep by {
                assert(front[i][k] == pieces[i][k]);
            }
        }
        assert(joined(front, sep) =~= s.drop_last());
        lemma_split_is_the_only_cut(s.drop_last(), sep, front);
        assert(pieces =~~= front.push(Seq::<char>::empty()));
    } else {
        assert(last.len() > 0);
        let shorter = pieces.update(n - 1, last.drop_last());
        assert(lack_separator(shorter, sep)) by {
            assert forall|i: int, k: int|
                0 <= i < shorter.len() && 0 <= k < shorter[i].len() implies (
            #[trigger] shorter[i][k]) != sep by {
                assert(shorter[i][k] == pieces[i][k]);
            }
        }
        if n >= 2 {
            assert(shorter.drop_last() =~= pieces.drop_last());
            assert(joined(shorter, sep) =~= s.drop_last());
        } else {
            assert(joined(shorter, sep) =~= s.drop_last());
        }
        lemma_split_is_the_only_cut(s.drop_last(), sep, shorter);
        assert(last.drop_last().push(s.last()) =~= last);
        assert(pieces =~~= shorter.update(n - 1, shorter.last().push(s.last())));
    }
}

/// Cuts `s` at every occurrence of `sep`.
pub fn split(s: &str, sep: char) -> (pieces: Vec<String>)
    ensures
        texts(pieces@) == split_on(s@, sep),
{
    let chars = chars_of(s);
    let n: usize = chars.len();
    let mut pieces: Vec<String> = Vec::new();
    let mut start: usize = 0;
    let mut i: usize = 0;
    assert(texts(pieces@).push(s@.subrange(0, 0)) =~~= split_on(s@.take(0), sep));
    while i < n
        invariant
            n == chars@.len(),
            chars@ == s@,
            start <= i <= n,
            split_on(s@.take(i as int), sep) == texts(pieces@).push(
                s@.subrange(start as int, i as int),
            ),
        decreases n - i,
    {
        let ghost done = texts(pieces@);
        proof {
            assert(s@.take(i + 1).drop_last() =~= s@.take(i as int));
            assert(s@.take(i + 1).last() == s@[i as int]);
        }
        if chars[i] == sep {
            let piece = s.substring_char(start, i).to_owned();
            pieces.push(piece);
            start = i + 1;
            assert(texts(pieces@).push(s@.subrange(start as int, i + 1)) =~~= done.push(
                piece@,
            ).push(Seq::<char>::empty()));
        } else {
            assert(texts(pieces@).push(s@.subrange(start as int, i + 1)) =~~= done.push(
                s@.subrange(start as int, i as int),
            ).update(done.len() as int, s@.subrange(start as int, i as int).push(s@[i as int])));
        }
        i = i + 1;
    }
    let ghost done = texts(pieces@);
    let piece = s.substring_char(start, n).to_owned();
    pieces.push(piece);
    assert(s@.take(n as int) =~= s@);
    assert(texts(pieces@) =~= done.push(piece@));
    pieces
}

/// `text` with `margin` put behind each of its line breaks, so that every
/// line but the first starts with `margin`.
pub open spec fn indented(text: Seq<char>, margin: Seq<char>) -> Seq<char>
    decreases text.len(),
{
    if text.len() == 0 {
        Seq::<char>::empty()
    } else if text.last() == '\n' {
        indented(text.drop_last(), margin).push('\n') + margin
    } else {
        indented(text.drop_last(), margin).push(text.last())
    }
}

/// Indents every line of `text` but the first by `margin`.
pub fn indent(text: &str, margin: &str) -> (r: String)
    ensures
        r@ == indented(text@, margin@),
{
    let chars = chars_of(text);
    let n: usize = chars.len();
    let mut r = String::new();
    let mut start: usize = 0;
    let mut i: usize = 0;
    assert(r@ + text@.subrange(0, 0) =~= indented(text@.take(0), margin@));
    while i < n
        invariant
            n == chars@.len(),
            chars@ == text@,
            start <= i <= n,
            indented(text@.take(i as int), margin@) == r@ + text@.subrange(start as int, i as int),
        decreases n - i,
    {
        proof {
            assert(text@.take(i + 1).drop_last() =~= text@.take(i as int));
            assert(text@.take(i + 1).last() == text@[i as int]);
        }
        let ghost line = text@.subrange(start as int, i as int);
        let ghost sofar = r@;
        if chars[i] == '\n' {
            r.append(text.substring_char(start, i + 1));
            r.append(margin);
            start = i + 1;
            assert(r@ + text@.subrange(start as int, i + 1) =~= (sofar + line).push('\n')
                + margin@);
        } else {
            assert(r@ + text@.subrange(start as int, i + 1) =~= (sofar + line).push(
                text@[i as int],
            ));
        }
        i = i + 1;
    }
    r.append(text.substring_char(start, n));
    assert(text@.take(n as int) =~= text@);
    r
}

/// The text that `std`'s `Debug` formatting gives a string with these
/// characters: the string in double quotes, with the characters that cannot
/// stand there as they are replaced by escapes. The rules of escaping are the
/// standard library's and are not spelled out here.
pub uninterp spec fn debug_form(s: Seq<char>) -> Seq<char>;

/// `std`'s `Debug` formatting of a string slice (the format `{:?}`).
/// Trusted: the result depends on the characters of `s` alone, and is the text
/// that `debug_form` names.
#[verifier::external_body]
pub(crate) fn quote(s: &str) -> (r: String)
    ensures
        r@ == debug_form(s@),
{
    format!("{:?}", s)
}

} // verus!
