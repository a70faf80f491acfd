//! Text primitives on Unicode scalar values.

use vstd::prelude::*;

verus! {

/// `std::string::String::push`: appends one character at the end.
pub assume_specification[ std::string::String::push ](text: &mut std::string::String, c: char)
    ensures
        final(text)@ == old(text)@.push(c),
;

/// `text` ends in `suffix`.
pub open spec fn ends_with(text: Seq<char>, suffix: Seq<char>) -> bool {
    suffix.len() <= text.len() && text.skip(text.len() - suffix.len()) == suffix
}

/// `c` has the Unicode property White_Space.
pub open spec fn white_space(c: char) -> bool {
    ||| '\u{9}' <= c <= '\u{d}'
    ||| c == '\u{20}'
    ||| c == '\u{85}'
    ||| c == '\u{a0}'
    ||| c == '\u{1680}'
    ||| '\u{2000}' <= c <= '\u{200a}'
    ||| c == '\u{2028}'
    ||| c == '\u{2029}'
    ||| c == '\u{202f}'
    ||| c == '\u{205f}'
    ||| c == '\u{3000}'
}

/// `text` holds nothing but white space.
pub open spec fn blank(text: Seq<char>) -> bool {
    forall|i: int| 0 <= i < text.len() ==> white_space(#[trigger] text[i])
}

/// What follows the last `c` of `text`, or all of `text` where `c` does not
/// occur.
pub open spec fn after_last(text: Seq<char>, c: char) -> Seq<char>
    decreases text.len(),
{
    if text.len() == 0 || text.last() == c {
        Seq::empty()
    } else {
        after_last(text.drop_last(), c).push(text.last())
    }
}

/// The position of the first `c` of `text`, or its length where `c` does not
/// occur.
pub open spec fn first_position(text: Seq<char>, c: char) -> nat
    decreases text.len(),
{
    if text.len() == 0 || text[0] == c {
        0
    } else {
        1 + first_position(text.drop_first(), c)
    }
}

/// `line` without the carriage return at its end, where it has one.
pub open spec fn without_carriage_return(line: Seq<char>) -> Seq<char> {
    if line.len() > 0 && line.last() == '\r' {
        line.drop_last()
    } else {
        line
    }
}

/// The lines of `text`. A line ends at a line feed, with or without a carriage
/// return before it, or at the end of the text; neither character belongs to
/// the line. Nothing follows a final line feed, not even an empty line.
pub open spec fn lines(text: Seq<char>) -> Seq<Seq<char>>
    decreases text.len(),
{
    let end = first_position(text, '\n');
    if text.len() == 0 {
        Seq::empty()
    } else if end >= text.len() {
        seq![text]
    } else {
        seq![without_carriage_return(text.take(end as int))] + lines(
            text.skip(end as int + 1),
        )
    }
}

/// `parts` in a row, with `separator` between one and the next.
pub open spec fn join(parts: Seq<Seq<char>>, separator: Seq<char>) -> Seq<char>
    decreases parts.len(),
{
    if parts.len() == 0 {
        Seq::empty()
    } else if parts.len() == 1 {
        parts[0]
    } else {
        join(parts.drop_last(), separator) + separator + parts.last()
    }
}

/// The decimal digit of a number below ten.
pub open spec fn digit(n: nat) -> char {
    (48 + n) as char
}

/// `n` in decimal digits, without leading zeros.
pub open spec fn digits(n: nat) -> Seq<char>
    decreases n,
{
    if n < 10 {
        seq![digit(n)]
    } else {
        digits(n / 10).push(digit(n % 10))
    }
}

/// `n` in decimal, with a minus sign where it is negative.
pub open spec fn decimal(n: int) -> Seq<char> {
    if n < 0 {
        seq!['-'] + digits((-n) as nat)
    } else {
        digits(n as nat)
    }
}

/// The texts that the strings hold.
pub open spec fn texts(strings: Seq<String>) -> Seq<Seq<char>> {
    Seq::new(strings.len(), |i: int| strings[i]@)
}

/// The text of an optional string.
pub open spec fn optional_text(string: Option<String>) -> Option<Seq<char>> {
    match string {
        Some(s) => Some(s@),
        None => None,
    }
}

/// Collects the characters of `text`.
pub fn chars_of(text: &str) -> (chars: Vec<char>)
    ensures
        chars@ == text@,
{
    let mut chars: Vec<char> = Vec::new();
    for c in it: text.chars()
        invariant
            chars@ == it.seq().take(it.index()),
            it.seq() == text@,
    {
        chars.push(c);
    }
    chars
}

/// Whether the two texts are the same.
pub fn same_text(left: &str, right: &str) -> (same: bool)
    ensures
        same == (left@ == right@),
{
    left.to_owned() == right.to_owned()
}

/// Whether `text` ends in `suffix`.
pub fn has_suffix(text: &str, suffix: &str) -> (found: bool)
    ensures
        found == ends_with(text@, suffix@),
{
    let length: usize = text.unicode_len();
    let suffix_length: usize = suffix.unicode_len();
    if suffix_length > length {
        return false;
    }
    let tail = text.substring_char(length - suffix_length, length);
    assert(tail@ =~= text@.skip(length - suffix_length));
    same_text(tail, suffix)
}

/// Whether `c` is white space.
pub fn is_white_space(c: char) -> (found: bool)
    ensures
        found == white_space(c),
{
    ('\u{9}' <= c && c <= '\u{d}') || c == '\u{20}' || c == '\u{85}' || c == '\u{a0}' || c
        == '\u{1680}' || ('\u{2000}' <= c && c <= '\u{200a}') || c == '\u{2028}' || c == '\u{2029}'
        || c == '\u{202f}' || c == '\u{205f}' || c == '\u{3000}'
}

/// Whether nothing is left of `text` once the white space is trimmed off.
pub fn is_blank(text: &str) -> (found: bool)
    ensures
        found == blank(text@),
{
    let chars = chars_of(text);
    let mut i: usize = 0;
    while i < chars.len()
        invariant
            i <= chars.len(),
            chars@ == text@,
            forall|j: int| 0 <= j < i ==> white_space(#[trigger] text@[j]),
        decreases chars.len() - i,
    {
        if !is_white_space(chars[i]) {
            assert(!white_space(text@[i as int]));
            return false;
        }
        i = i + 1;
    }
    true
}

/// Builds a string from the characters from `from` up to `to`.
fn string_of(chars: &Vec<char>, from: usize, to: usize) -> (text: String)
    requires
        from <= to <= chars.len(),
    ensures
        text@ == chars@.subrange(from as int, to as int),
{
    let mut text = String::new();
    let mut i: usize = from;
    while i < to
        invariant
            from <= i <= to <= chars.len(),
            text@ == chars@.subrange(from as int, i as int),
        decreases to - i,
    {
        text.push(chars[i]);
        i = i + 1;
        assert(text@ =~= chars@.subrange(from as int, i as int));
    }
    text
}

/// What follows the last `c` of `text`.
pub fn text_after_last(text: &str, c: char) -> (tail: String)
    ensures
        tail@ == after_last(text@, c),
{
    let chars = chars_of(text);
    let mut from: usize = chars.len();
    proof {
        assert(chars@.take(from as int) =~= text@);
    }
    while from > 0 && chars[from - 1] != c
        invariant
            from <= chars.len(),
            chars@ == text@,
            after_last(text@, c) == after_last(text@.take(from as int), c) + text@.skip(
                from as int,
            ),
        decreases from,
    {
        proof {
            let shorter = text@.take(from as int);
            assert(shorter.drop_last() =~= text@.take(from - 1));
            assert(after_last(text@.take(from - 1), c).push(text@[from - 1]) + text@.skip(
                from as int,
            ) =~= after_last(text@.take(from - 1), c) + text@.skip(from - 1));
        }
        from = from - 1;
    }
    assert(after_last(text@.take(from as int), c) + text@.skip(from as int) =~= text@.subrange(
        from as int,
        text@.len() as int,
    ));
    string_of(&chars, from, chars.len())
}

proof fn lemma_first_position(text: Seq<char>, c: char, end: nat)
    requires
        end <= text.len(),
        forall|i: int| 0 <= i < end ==> text[i] != c,
        end < text.len() ==> text[end as int] == c,
    ensures
        first_position(text, c) == end,
    decreases end,
{
    if end > 0 {
        assert(text[0] != c);
        lemma_first_position(text.drop_first(), c, (end - 1) as nat);
    }
}

/// Splits `text` into its lines.
pub fn split_lines(text: &str) -> (parts: Vec<String>)
    ensures
        texts(parts@) == lines(text@),
{
    let chars = chars_of(text);
    let mut parts: Vec<String> = Vec::new();
    let mut start: usize = 0;
    proof {
        assert(text@.skip(0) =~= text@);
        assert(texts(parts@) + lines(text@) =~= lines(text@));
    }
    while start < chars.len()
        invariant
            start <= chars.len(),
            chars@ == text@,
            texts(parts@) + lines(text@.skip(start as int)) == lines(text@),
        decreases chars.len() - start,
    {
        let mut end: usize = start;
        while end < chars.len() && chars[end] != '\n'
            invariant
                start <= end <= chars.len(),
                chars@ == text@,
                forall|i: int| start <= i < end ==> text@[i] != '\n',
            decreases chars.len() - end,
        {
            end = end + 1;
        }
        let ghost rest = text@.skip(start as int);
        proof {
            lemma_first_position(rest, '\n', (end - start) as nat);
        }
        let ghost before = parts@;
        if end == chars.len() {
            parts.push(string_of(&chars, start, end));
            proof {
                assert(parts@.last()@ =~= rest);
                assert(texts(parts@) =~= texts(before).push(rest));
                assert(text@.skip(end as int) =~= Seq::empty());
                assert(texts(parts@) + lines(text@.skip(end as int)) =~= texts(before) + lines(
                    rest,
                ));
            }
            start = end;
        } else {
            let stop: usize = if end > start && chars[end - 1] == '\r' {
                end - 1
            } else {
                end
            };
            parts.push(string_of(&chars, start, stop));
            proof {
                let line = without_carriage_return(rest.take(end - start));
                assert(parts@.last()@ =~= line);
                assert(texts(parts@) =~= texts(before).push(line));
                assert(rest.skip(end - start + 1) =~= text@.skip(end + 1));
                assert(texts(parts@) + lines(text@.skip(end + 1)) =~= texts(before) + lines(rest));
            }
            start = end + 1;
        }
    }
    proof {
        assert(text@.skip(start as int) =~= Seq::empty());
        assert(texts(parts@) + lines(text@.skip(start as int)) =~= texts(parts@));
    }
    parts
}

/// Puts `parts` in a row, with `separator` between one and the next.
pub fn join_texts(parts: &Vec<String>, separator: &str) -> (text: String)
    ensures
        text@ == join(texts(parts@), separator@),
{
    let mut text = String::new();
    let mut i: usize = 0;
    while i < parts.len()
        invariant
            i <= parts.len(),
            text@ == join(texts(parts@).take(i as int), separator@),
        decreases parts.len() - i,
    {
        if i > 0 {
            text.append(separator);
        }
        text.append(parts[i].as_str());
        i = i + 1;
        proof {
            let done = texts(parts@).take(i as int);
            assert(done.drop_last() =~= texts(parts@).take(i - 1));
            assert(text@ =~= join(done, separator@));
        }
    }
    assert(texts(parts@).take(i as int) =~= texts(parts@));
    text
}

fn append_digits(text: &mut String, n: u64)
    ensures
        final(text)@ == old(text)@ + digits(n as nat),
    decreases n,
{
    if n >= 10 {
        append_digits(text, n / 10);
    }
    let last: u8 = (n % 10) as u8;
    text.push((48u8 + last) as char);
    assert(text@ =~= old(text)@ + digits(n as nat));
}

/// Writes `n` in decimal.
pub fn decimal_text(n: i64) -> (text: String)
    ensures
        text@ == decimal(n as int),
{
    let mut text = String::new();
    if n < 0 {
        text.push('-');
        let size: u64 = (-(n + 1)) as u64 + 1;
        append_digits(&mut text, size);
        assert(text@ =~= decimal(n as int));
    } else {
        append_digits(&mut text, n as u64);
        assert(text@ =~= decimal(n as int));
    }
    text
}

/// No line holds a line feed.
pub proof fn law_lines_hold_no_line_feed(text: Seq<char>)
    ensures
        forall|i: int| 0 <= i < lines(text).len() ==> !(#[trigger] lines(text)[i]).contains('\n'),
    decreases text.len(),
{
    let end = first_position(text, '\n');
    lemma_first_position_bound(text, '\n');
    if text.len() == 0 {
    } else if end >= text.len() {
    } else {
        law_lines_hold_no_line_feed(text.skip(end as int + 1));
        let line = without_carriage_return(text.take(end as int));
        assert(!line.contains('\n'));
        let rest = lines(text.skip(end as int + 1));
        assert forall|i: int| 0 <= i < lines(text).len() implies !(#[trigger] lines(
            text,
        )[i]).contains('\n') by {
            if i > 0 {
                assert(lines(text)[i] == rest[i - 1]);
            }
        }
    }
}

proof fn lemma_first_position_bound(text: Seq<char>, c: char)
    ensures
        first_position(text, c) <= text.len(),
        first_position(text, c) < text.len() ==> text[first_position(text, c) as int] == c,
        forall|i: int| 0 <= i < first_position(text, c) ==> text[i] != c,
    decreases text.len(),
{
    if text.len() > 0 && text[0] != c {
        let rest = text.drop_first();
        lemma_first_position_bound(rest, c);
        assert forall|i: int| 0 <= i < first_position(text, c) implies text[i] != c by {
            if i > 0 {
                assert(text[i] == rest[i - 1]);
            }
        }
    }
}

proof fn lemma_join_from_front(parts: Seq<Seq<char>>, separator: Seq<char>)
    requires
        parts.len() >= 2,
    ensures
        join(parts, separator) == parts[0] + separator + join(parts.drop_first(), separator),
    decreases parts.len(),
{
    let rest = parts.drop_first();
    if parts.len() == 2 {
        assert(join(parts.drop_last(), separator) == parts[0]);
        assert(join(rest, separator) == parts[1]);
    } else {
        lemma_join_from_front(parts.drop_last(), separator);
        assert(parts.drop_last().drop_first() =~= rest.drop_last());
        assert(join(parts, separator) =~= parts[0] + separator + join(rest, separator));
    }
}

/// Lines that hold no line feed come back from the text that joins them, where
/// none but the last ends in a carriage return and the last is not empty.
pub proof fn law_lines_of_joined(parts: Seq<Seq<char>>)
    requires
        forall|i: int| 0 <= i < parts.len() ==> !(#[trigger] parts[i]).contains('\n'),
        forall|i: int|
            0 <= i < parts.len() - 1 ==> without_carriage_return(#[trigger] parts[i]) == parts[i],
        parts.len() > 0 ==> parts.last().len() > 0,
    ensures
        lines(join(parts, seq!['\n'])) == parts,
    decreases parts.len(),
{
    let text = join(parts, seq!['\n']);
    if parts.len() == 0 {
        assert(lines(text) =~= parts);
    } else if parts.len() == 1 {
        assert forall|i: int| 0 <= i < text.len() implies text[i] != '\n' by {
            assert(parts[0].contains(text[i]));
        }
        lemma_first_position(text, '\n', text.len());
        assert(lines(text) =~= parts);
    } else {
        let rest = parts.drop_first();
        lemma_join_from_front(parts, seq!['\n']);
        assert forall|i: int| 0 <= i < rest.len() implies !(#[trigger] rest[i]).contains('\n') by {
            assert(rest[i] == parts[i + 1]);
        }
        assert forall|i: int| 0 <= i < rest.len() - 1 implies without_carriage_return(
            #[trigger] rest[i],
        ) == rest[i] by {
            assert(rest[i] == parts[i + 1]);
        }
        law_lines_of_joined(rest);
        let first = parts[0];
        assert forall|i: int| 0 <= i < first.len() implies text[i] != '\n' by {
            assert(first.contains(text[i]));
        }
        lemma_first_position(text, '\n', first.len());
        assert(text.take(first.len() as int) =~= first);
        assert(text.skip(first.len() as int + 1) =~= join(rest, seq!['\n']));
        assert(lines(text) =~= seq![first] + rest);
        assert(lines(text) =~= parts);
    }
}

/// A text of two parts with a line feed between them has the lines of the first
/// part and then those of the second, where the first part ends in neither a line
/// feed nor a carriage return and is not empty.
pub proof fn law_lines_across_a_line_feed(a: Seq<char>, b: Seq<char>)
    requires
        a.len() > 0,
        a.last() != '\n',
        a.last() != '\r',
    ensures
        lines(a + seq!['\n'] + b) == lines(a) + lines(b),
    decreases a.len(),
{
    let whole = a + seq!['\n'] + b;
    let end = first_position(a, '\n');
    lemma_first_position_bound(a, '\n');
    lemma_first_position(whole, '\n', end);
    if end >= a.len() {
        assert(whole.take(end as int) =~= a);
        assert(whole.skip(end as int + 1) =~= b);
    } else {
        let rest = a.skip(end as int + 1);
        assert(rest.last() == a.last());
        law_lines_across_a_line_feed(rest, b);
        assert(whole.take(end as int) =~= a.take(end as int));
        assert(whole.skip(end as int + 1) =~= rest + seq!['\n'] + b);
        assert(lines(whole) =~= lines(a) + lines(b));
    }
}

/// Joining two rows of parts at once puts one more separator between what each
/// joins to.
pub proof fn law_join_of_two_rows(
    first: Seq<Seq<char>>,
    second: Seq<Seq<char>>,
    separator: Seq<char>,
)
    requires
        first.len() > 0,
        second.len() > 0,
    ensures
        join(first + second, separator) == join(first, separator) + separator + join(
            second,
            separator,
        ),
    decreases second.len(),
{
    let all = first + second;
    assert(all.drop_last() =~= first + second.drop_last());
    if second.len() == 1 {
        assert(all.drop_last() =~= first);
    } else {
        law_join_of_two_rows(first, second.drop_last(), separator);
        assert(join(all, separator) =~= join(first, separator) + separator + join(
            second,
            separator,
        ));
    }
}

/// `text` without the line feed at its end, where it has one.
pub open spec fn without_final_line_feed(text: Seq<char>) -> Seq<char> {
    if text.len() > 0 && text.last() == '\n' {
        text.drop_last()
    } else {
        text
    }
}

/// A text without carriage returns is its lines joined by line feeds, but for a
/// line feed at its end.
pub proof fn law_joined_lines(text: Seq<char>)
    requires
        !text.contains('\r'),
    ensures
        join(lines(text), seq!['\n']) == without_final_line_feed(text),
    decreases text.len(),
{
    let end = first_position(text, '\n');
    lemma_first_position_bound(text, '\n');
    if text.len() == 0 {
    } else if end >= text.len() {
        assert(text.last() != '\n');
    } else {
        let line = text.take(end as int);
        let rest = text.skip(end as int + 1);
        assert(without_carriage_return(line) == line) by {
            if line.len() > 0 {
                assert(text.contains(line.last()));
            }
        }
        assert(!rest.contains('\r')) by {
            if rest.contains('\r') {
                let k = rest.index_of('\r');
                assert(text[end + 1 + k] == '\r');
            }
        }
        law_joined_lines(rest);
        if rest.len() == 0 {
            assert(lines(text) =~= seq![line]);
            assert(text.drop_last() =~= line);
        } else {
            lemma_first_position_bound(rest, '\n');
            assert(lines(rest).len() > 0);
            lemma_join_from_front(lines(text), seq!['\n']);
            assert(lines(text).drop_first() =~= lines(rest));
            assert(text =~= line + seq!['\n'] + rest);
            assert(join(lines(text), seq!['\n']) =~= without_final_line_feed(text));
        }
    }
}

/// A name that ends in a dot and an extension without dots has that extension.
pub proof fn law_extension_of_suffix(name: Seq<char>, extension: Seq<char>)
    requires
        ends_with(name, seq!['.'] + extension),
        !extension.contains('.'),
    ensures
        after_last(name, '.') == extension,
    decreases extension.len(),
{
    let suffix = seq!['.'] + extension;
    let start = name.len() - suffix.len();
    if extension.len() == 0 {
        assert(name.last() == name.skip(start)[0]);
        assert(after_last(name, '.') =~= extension);
    } else {
        assert(name.last() == name.skip(start).last());
        assert(extension.contains(extension.last()));
        let shorter = name.drop_last();
        assert(!extension.drop_last().contains('.')) by {
            if extension.drop_last().contains('.') {
                let k = extension.drop_last().index_of('.');
                assert(extension[k] == '.');
            }
        }
        assert(shorter.skip(start) =~= name.skip(start).drop_last());
        assert(suffix.drop_last() =~= seq!['.'] + extension.drop_last());
        law_extension_of_suffix(shorter, extension.drop_last());
        assert(after_last(name, '.') =~= extension);
    }
}

/// A text ends in a suffix exactly where it is some text with the suffix behind
/// it.
pub proof fn law_suffixes_stand_behind(text: Seq<char>, suffix: Seq<char>)
    ensures
        ends_with(text, suffix) <==> exists|before: Seq<char>| text == #[trigger] (before + suffix),
        forall|before: Seq<char>| ends_with(#[trigger] (before + suffix), suffix),
{
    assert forall|before: Seq<char>| ends_with(#[trigger] (before + suffix), suffix) by {
        assert((before + suffix).skip(before.len() as int) =~= suffix);
    }
    if ends_with(text, suffix) {
        assert(text =~= text.take(text.len() - suffix.len()) + suffix);
    }
}

/// White space are the twenty-five characters that Unicode lists as such: of the
/// ASCII characters the tabs, the line ends and the space, and no letter, digit or
/// sign of any script.
pub proof fn law_white_space_is_the_listed(c: char)
    ensures
        white_space(c) <==> seq![
            0x9int, 0xa, 0xb, 0xc, 0xd, 0x20, 0x85, 0xa0, 0x1680, 0x2000, 0x2001, 0x2002, 0x2003,
            0x2004, 0x2005, 0x2006, 0x2007, 0x2008, 0x2009, 0x200a, 0x2028, 0x2029, 0x202f, 0x205f,
            0x3000,
        ].contains(c as int),
{
    let listed = seq![
        0x9int, 0xa, 0xb, 0xc, 0xd, 0x20, 0x85, 0xa0, 0x1680, 0x2000, 0x2001, 0x2002, 0x2003,
        0x2004, 0x2005, 0x2006, 0x2007, 0x2008, 0x2009, 0x200a, 0x2028, 0x2029, 0x202f, 0x205f,
        0x3000,
    ];
    if '\u{9}' <= c <= '\u{d}' {
        assert(listed[c as int - 0x9] == c as int);
    } else if '\u{2000}' <= c <= '\u{200a}' {
        assert(listed[c as int - 0x2000 + 9] == c as int);
    } else {
        assert(listed[5] == 0x20 && listed[6] == 0x85 && listed[7] == 0xa0 && listed[8] == 0x1680);
        assert(listed[20] == 0x2028 && listed[21] == 0x2029 && listed[22] == 0x202f);
        assert(listed[23] == 0x205f && listed[24] == 0x3000);
    }
}

/// A text is blank exactly where both of its parts are, and a single character is
/// where it is white space. So one character that is not fills the whole text,
/// wherever it stands.
pub proof fn law_blank_part_by_part(a: Seq<char>, b: Seq<char>, c: char)
    ensures
        blank(Seq::<char>::empty()),
        blank(seq![c]) <==> white_space(c),
        blank(a + b) <==> blank(a) && blank(b),
        !white_space(c) ==> !blank(a + seq![c] + b),
{
    assert(seq![c][0] == c);
    if blank(a + b) {
        assert forall|i: int| 0 <= i < a.len() implies white_space(#[trigger] a[i]) by {
            assert((a + b)[i] == a[i]);
        }
        assert forall|i: int| 0 <= i < b.len() implies white_space(#[trigger] b[i]) by {
            assert((a + b)[a.len() + i] == b[i]);
        }
    }
    assert((a + seq![c] + b)[a.len() as int] == c);
}

/// What follows the last mark of a text is what stands behind it, where that holds
/// no further mark. A text without the mark stays whole.
pub proof fn law_tail_stands_behind_the_mark(before: Seq<char>, c: char, tail: Seq<char>)
    requires
        !tail.contains(c),
    ensures
        after_last(before + seq![c] + tail, c) == tail,
        after_last(tail, c) == tail,
    decreases tail.len(),
{
    let text = before + seq![c] + tail;
    if tail.len() == 0 {
        assert(text.last() == c);
        assert(after_last(text, c) =~= tail);
        assert(after_last(tail, c) =~= tail);
    } else {
        let shorter = tail.drop_last();
        assert(tail.contains(tail.last()));
        assert(!shorter.contains(c)) by {
            if shorter.contains(c) {
                let k = shorter.index_of(c);
                assert(tail[k] == c);
            }
        }
        law_tail_stands_behind_the_mark(before, c, shorter);
        assert(text.drop_last() =~= before + seq![c] + shorter);
        assert(text.last() == tail.last());
        assert(shorter.push(tail.last()) =~= tail);
    }
}

/// The lines of a text from its front: a line ends at the first line feed, with or
/// without a carriage return before it, and the lines of the rest follow. Where
/// there is no line feed, the text is one line, and the empty text is none.
pub proof fn law_lines_from_the_front(line: Seq<char>, rest: Seq<char>)
    requires
        !line.contains('\n'),
    ensures
        lines(Seq::<char>::empty()) == Seq::<Seq<char>>::empty(),
        line.len() > 0 ==> lines(line) == seq![line],
        lines(line + seq!['\r', '\n'] + rest) == seq![line] + lines(rest),
        line.len() == 0 || line.last() != '\r' ==> lines(line + seq!['\n'] + rest) == seq![line]
            + lines(rest),
{
    assert forall|i: int| 0 <= i < line.len() implies line[i] != '\n' by {
        assert(line.contains(line[i]));
    }
    lemma_first_position(line, '\n', line.len());
    let returned = line + seq!['\r', '\n'] + rest;
    lemma_first_position(returned, '\n', line.len() + 1);
    assert(returned.take(line.len() as int + 1) =~= line.push('\r'));
    assert(line.push('\r').drop_last() =~= line);
    assert(returned.skip(line.len() as int + 2) =~= rest);
    let fed = line + seq!['\n'] + rest;
    lemma_first_position(fed, '\n', line.len());
    assert(fed.take(line.len() as int) =~= line);
    assert(fed.skip(line.len() as int + 1) =~= rest);
}

/// No part joins to nothing, and one part to itself. Together with the joining of
/// two rows this settles every row.
pub proof fn law_join_of_few(part: Seq<char>, separator: Seq<char>)
    ensures
        join(Seq::empty(), separator) == Seq::<char>::empty(),
        join(seq![part], separator) == part,
{
}

/// The number that a row of decimal digits stands for.
pub open spec fn digits_value(text: Seq<char>) -> int
    decreases text.len(),
{
    if text.len() == 0 {
        0
    } else {
        10 * digits_value(text.drop_last()) + (text.last() as int - '0' as int)
    }
}

/// The number that a decimal stands for, with or without a minus sign.
pub open spec fn decimal_value(text: Seq<char>) -> int {
    if text.len() > 0 && text[0] == '-' {
        -digits_value(text.drop_first())
    } else {
        digits_value(text)
    }
}

proof fn lemma_digits_read_back(n: nat)
    ensures
        digits(n).len() > 0,
        digits_value(digits(n)) == n,
        forall|i: int| 0 <= i < digits(n).len() ==> '0' <= #[trigger] digits(n)[i] <= '9',
        n > 0 ==> digits(n)[0] != '0',
    decreases n,
{
    reveal_with_fuel(digits_value, 2);
    if n < 10 {
        assert(digits(n).drop_last() =~= Seq::empty());
    } else {
        lemma_digits_read_back(n / 10);
        assert(digits(n).drop_last() =~= digits(n / 10));
    }
}

/// A number is read back from its decimal, which holds nothing but digits, and in
/// front of them a minus sign where the number is negative. It begins with a zero
/// only where it is zero.
pub proof fn law_decimal_reads_back(n: int)
    ensures
        decimal_value(decimal(n)) == n,
        decimal(n).len() > 0,
        decimal(n)[0] == '-' <==> n < 0,
        forall|i: int|
            (if n < 0 {
                1int
            } else {
                0int
            }) <= i < decimal(n).len() ==> '0' <= #[trigger] decimal(n)[i] <= '9',
        n > 0 ==> decimal(n)[0] != '0',
        n < 0 ==> decimal(n)[1] != '0',
        n == 0 ==> decimal(n) == seq!['0'],
        !decimal(n).contains('x'),
{
    if n < 0 {
        lemma_digits_read_back((-n) as nat);
        assert(decimal(n).drop_first() =~= digits((-n) as nat));
    } else {
        lemma_digits_read_back(n as nat);
    }
}

/// What is known of strings is the text that each of them holds, in their order.
pub proof fn law_strings_hold_their_texts(strings: Seq<String>, string: Option<String>)
    ensures
        texts(strings).len() == strings.len(),
        forall|i: int| 0 <= i < strings.len() ==> #[trigger] texts(strings)[i] == strings[i]@,
        string is Some ==> optional_text(string) == Some(string->0@),
        string is None ==> optional_text(string) is None,
{
}

} // verus!
