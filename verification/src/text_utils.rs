//! Positions in source text.
//!
//! An editor counts the UTF-16 code units of a line from zero; a span counts lines and the bytes of
//! a line from one.

use vstd::prelude::*;
use vstd::string::*;

use crate::hir::{HirType, SourceSpan, StrId};
use crate::list::{Cons, List, Nil};
use crate::type_checker::{after_usize, next_usize, Occurrence};
use crate::type_context::SymbolId;

verus! {

/// A line and a column as an editor counts them.
#[derive(Clone, Copy, Debug, PartialEq, Eq, Structural)]
pub struct Position {
    pub line: u32,
    pub character: u32,
}

#[derive(Clone, Copy, Debug, PartialEq, Eq, Structural)]
pub struct Range {
    pub start: Position,
    pub end: Position,
}

/// The number of bytes of a character.
pub open spec fn byte_width(c: char) -> nat {
    if (c as u32) < 0x80 {
        1
    } else if (c as u32) < 0x800 {
        2
    } else if (c as u32) < 0x10000 {
        3
    } else {
        4
    }
}

/// The number of UTF-16 code units of a character.
pub open spec fn unit_width(c: char) -> nat {
    if (c as u32) < 0x10000 {
        1
    } else {
        2
    }
}

/// The number of bytes of a text.
pub open spec fn byte_len(chars: Seq<char>) -> nat
    decreases chars.len(),
{
    if chars.len() == 0 {
        0
    } else {
        byte_len(chars.drop_last()) + byte_width(chars.last())
    }
}

/// The number of UTF-16 code units of a text.
pub open spec fn unit_len(chars: Seq<char>) -> nat
    decreases chars.len(),
{
    if chars.len() == 0 {
        0
    } else {
        unit_len(chars.drop_last()) + unit_width(chars.last())
    }
}

/// Behind how many characters, from some number on, a number of code units is reached, or the end of
/// the text.
pub open spec fn units_from(chars: Seq<char>, units: int, count: int) -> int
    decreases chars.len() - count,
{
    if count >= chars.len() || unit_len(chars.take(count)) >= units {
        count
    } else {
        units_from(chars, units, count + 1)
    }
}

/// Behind how many characters a number of code units is reached, or the end of the text.
pub open spec fn units_end(chars: Seq<char>, units: int) -> int {
    units_from(chars, units, 0)
}

/// Behind how many characters, from some number on, a number of bytes is reached, or the end of the
/// text.
pub open spec fn bytes_from(chars: Seq<char>, bytes: int, count: int) -> int
    decreases chars.len() - count,
{
    if count >= chars.len() || byte_len(chars.take(count)) >= bytes {
        count
    } else {
        bytes_from(chars, bytes, count + 1)
    }
}

/// Behind how many characters a number of bytes is reached, or the end of the text.
pub open spec fn bytes_end(chars: Seq<char>, bytes: int) -> int {
    bytes_from(chars, bytes, 0)
}

/// Whether a byte offset lies between two characters, or at an end.
pub open spec fn between_chars(chars: Seq<char>, offset: int) -> bool {
    exists|count: int|
        0 <= count <= chars.len() && byte_len(#[trigger] chars.take(count)) == offset
}

/// Whether `std` takes a character for a letter or a digit.
pub uninterp spec fn alphanumeric(c: char) -> bool;

/// `char::is_alphanumeric`: whether a character is alphabetic or numeric by its Unicode properties.
#[verifier::external_body]
fn is_alphanumeric(c: char) -> (yes: bool)
    ensures
        yes == alphanumeric(c),
{
    c.is_alphanumeric()
}

/// Whether a character can stand in an identifier.
pub open spec fn in_word(c: char) -> bool {
    alphanumeric(c) || c == '_'
}

pub open spec fn words_of(chars: Seq<char>) -> Seq<bool> {
    Seq::new(chars.len(), |i: int| in_word(chars[i]))
}

/// Where the run of words that ends at a position starts.
pub open spec fn word_start(words: Seq<bool>, at: int) -> int
    decreases at,
{
    if at <= 0 || !words[at - 1] {
        at
    } else {
        word_start(words, at - 1)
    }
}

/// Where the run of words that starts at a position ends.
pub open spec fn word_end(words: Seq<bool>, at: int) -> int
    decreases words.len() - at,
{
    if at >= words.len() || !words[at] {
        at
    } else {
        word_end(words, at + 1)
    }
}

/// The position of the first line feed from here on, or the end of the text.
pub open spec fn line_feed(chars: Seq<char>, from: int) -> int
    decreases chars.len() - from,
{
    if from >= chars.len() || chars[from] == '\n' {
        from
    } else {
        line_feed(chars, from + 1)
    }
}

/// Where a line starts, if the text has that many. A line feed at the very end starts none.
pub open spec fn line_start(chars: Seq<char>, line: nat) -> Option<int>
    decreases line,
{
    if line == 0 {
        if chars.len() > 0 {
            Some(0)
        } else {
            None
        }
    } else {
        match line_start(chars, (line - 1) as nat) {
            Some(start) => if line_feed(chars, start) + 1 < chars.len() {
                Some(line_feed(chars, start) + 1)
            } else {
                None
            },
            None => None,
        }
    }
}

/// Where the line that starts at a position ends: before its line feed, and before a carriage
/// return in front of that.
pub open spec fn line_end(chars: Seq<char>, start: int) -> int {
    let feed = line_feed(chars, start);
    if feed < chars.len() && feed > start && chars[feed - 1] == '\r' {
        feed - 1
    } else {
        feed
    }
}

/// The text of a line, without its ending.
pub open spec fn line_text(chars: Seq<char>, line: nat) -> Option<Seq<char>> {
    match line_start(chars, line) {
        Some(start) => Some(chars.subrange(start, line_end(chars, start))),
        None => None,
    }
}

proof fn byte_len_splits(chars: Seq<char>)
    requires
        chars.len() > 0,
    ensures
        byte_len(chars) == byte_width(chars[0]) + byte_len(chars.skip(1)),
    decreases chars.len(),
{
    if chars.len() == 1 {
        assert(chars.drop_last() == Seq::<char>::empty());
        assert(chars.skip(1) == Seq::<char>::empty());
        assert(byte_len(Seq::<char>::empty()) == 0);
    } else {
        byte_len_splits(chars.drop_last());
        assert(chars.drop_last().skip(1) == chars.skip(1).drop_last());
        assert(chars.skip(1).last() == chars.last());
    }
}

/// The encoding of a text is as long as its characters are wide.
pub proof fn encoding_has_byte_len(chars: Seq<char>)
    ensures
        vstd::utf8::encode_utf8(chars).len() == byte_len(chars),
    decreases chars.len(),
{
    if chars.len() > 0 {
        vstd::utf8::char_is_scalar(chars[0]);
        byte_len_splits(chars);
        encoding_has_byte_len(chars.drop_first());
        assert(chars.drop_first() == chars.skip(1));
    }
}

proof fn prefix_is_shorter(chars: Seq<char>, count: int)
    requires
        0 <= count <= chars.len(),
    ensures
        byte_len(chars.take(count)) <= byte_len(chars),
        count <= byte_len(chars.take(count)),
    decreases chars.len() + count,
{
    if count == chars.len() {
        assert(chars.take(count) == chars);
        if count > 0 {
            prefix_is_shorter(chars.drop_last(), count - 1);
            assert(chars.drop_last().take(count - 1) == chars.drop_last());
        }
    } else {
        prefix_is_shorter(chars.drop_last(), count);
        assert(chars.drop_last().take(count) == chars.take(count));
    }
}

proof fn one_more_char(chars: Seq<char>, count: int)
    requires
        0 <= count < chars.len(),
    ensures
        byte_len(chars.take(count + 1)) == byte_len(chars.take(count)) + byte_width(chars[count]),
        unit_len(chars.take(count + 1)) == unit_len(chars.take(count)) + unit_width(chars[count]),
{
    assert(chars.take(count + 1).drop_last() == chars.take(count));
}

/// A part of a line that is not longer has no more bytes and no more code units.
pub proof fn shorter_prefix(chars: Seq<char>, shorter: int, longer: int)
    requires
        0 <= shorter <= longer <= chars.len(),
    ensures
        byte_len(chars.take(shorter)) <= byte_len(chars.take(longer)),
        unit_len(chars.take(shorter)) <= unit_len(chars.take(longer)),
{
    if shorter < longer {
        prefixes_grow(chars, shorter, longer);
    }
}

/// A longer part of a line has more bytes and more code units.
proof fn prefixes_grow(chars: Seq<char>, shorter: int, longer: int)
    requires
        0 <= shorter < longer <= chars.len(),
    ensures
        byte_len(chars.take(shorter)) < byte_len(chars.take(longer)),
        unit_len(chars.take(shorter)) < unit_len(chars.take(longer)),
    decreases longer - shorter,
{
    one_more_char(chars, longer - 1);
    if shorter < longer - 1 {
        prefixes_grow(chars, shorter, longer - 1);
    }
}

/// The characters of a text, one by one.
fn chars_of(text: &str) -> (chars: Vec<char>)
    ensures
        chars@ == text@,
{
    let mut chars: Vec<char> = Vec::new();
    for c in it: text.chars()
        invariant
            chars@ == it.seq().take(it.index() as int),
            it.seq() == text@,
    {
        chars.push(c);
    }
    assert(chars@ == text@);
    chars
}

fn width_in_bytes(c: char) -> (width: usize)
    ensures
        width == byte_width(c),
{
    let code: u32 = c as u32;
    if code < 0x80 {
        1
    } else if code < 0x800 {
        2
    } else if code < 0x10000 {
        3
    } else {
        4
    }
}

fn width_in_units(c: char) -> (width: u64)
    ensures
        width == unit_width(c),
{
    let code: u32 = c as u32;
    if code < 0x10000 {
        1
    } else {
        2
    }
}

/// Behind how many characters a number of code units is reached, and how many bytes those have.
fn find_units(line: &str, utf16_offset: u32) -> (found: (usize, usize))
    ensures
        found.0 == units_end(line@, utf16_offset as int),
        found.0 <= line@.len(),
        found.1 == byte_len(line@.take(found.0 as int)),
{
    let chars = chars_of(line);
    let total: usize = line.as_bytes().len();
    proof {
        encoding_has_byte_len(line@);
        assert(line@.take(0) == Seq::<char>::empty());
    }
    let mut count: usize = 0;
    let mut bytes: usize = 0;
    let mut units: u64 = 0;
    while count < chars.len() && units < utf16_offset as u64
        invariant
            chars@ == line@,
            total == byte_len(line@),
            count <= chars.len(),
            bytes == byte_len(line@.take(count as int)),
            units == unit_len(line@.take(count as int)),
            units <= utf16_offset + 1,
            units_end(line@, utf16_offset as int) == units_from(
                line@,
                utf16_offset as int,
                count as int,
            ),
        decreases chars.len() - count,
    {
        proof {
            one_more_char(line@, count as int);
            prefix_is_shorter(line@, count + 1);
        }
        bytes = bytes + width_in_bytes(chars[count]);
        units = units + width_in_units(chars[count]);
        count = count + 1;
    }
    (count, bytes)
}

/// The byte offset in a line that is that many UTF-16 code units in, or the end of the line.
pub fn byte_offset_from_utf16(line: &str, utf16_offset: u32) -> (offset: usize)
    ensures
        offset == byte_len(line@.take(units_end(line@, utf16_offset as int))),
{
    let (_, bytes) = find_units(line, utf16_offset);
    bytes
}

/// The number of UTF-16 code units in front of a byte offset, which must not lie inside a character.
pub fn utf16_offset_from_byte(line: &str, byte_offset: usize) -> (offset: u32)
    requires
        byte_offset < byte_len(line@) ==> between_chars(line@, byte_offset as int),
        unit_len(line@) <= u32::MAX,
    ensures
        offset == unit_len(line@.take(bytes_end(line@, byte_offset as int))),
{
    let chars = chars_of(line);
    let total: usize = line.as_bytes().len();
    proof {
        encoding_has_byte_len(line@);
        assert(line@.take(0) == Seq::<char>::empty());
        assert(line@.take(line@.len() as int) == line@);
    }
    let mut count: usize = 0;
    let mut bytes: usize = 0;
    let mut units: u32 = 0;
    while count < chars.len() && bytes < byte_offset
        invariant
            chars@ == line@,
            total == byte_len(line@),
            unit_len(line@) <= u32::MAX,
            line@.take(line@.len() as int) == line@,
            count <= chars.len(),
            bytes == byte_len(line@.take(count as int)),
            units == unit_len(line@.take(count as int)),
            bytes_end(line@, byte_offset as int) == bytes_from(
                line@,
                byte_offset as int,
                count as int,
            ),
        decreases chars.len() - count,
    {
        proof {
            one_more_char(line@, count as int);
            prefix_is_shorter(line@, count + 1);
            if count + 1 < chars.len() {
                prefixes_grow(line@, count + 1, chars.len() as int);
            }
        }
        bytes = bytes + width_in_bytes(chars[count]);
        units = units + width_in_units(chars[count]) as u32;
        count = count + 1;
    }
    units
}

proof fn line_starts_inside(chars: Seq<char>, line: nat)
    ensures
        match line_start(chars, line) {
            Some(start) => 0 <= start < chars.len(),
            None => true,
        },
    decreases line,
{
    if line > 0 {
        line_starts_inside(chars, (line - 1) as nat);
        if let Some(start) = line_start(chars, (line - 1) as nat) {
            line_feed_behind(chars, start);
        }
    }
}

proof fn line_feed_behind(chars: Seq<char>, from: int)
    requires
        0 <= from <= chars.len(),
    ensures
        from <= line_feed(chars, from) <= chars.len(),
    decreases chars.len() - from,
{
    if from < chars.len() && chars[from] != '\n' {
        line_feed_behind(chars, from + 1);
    }
}

fn find_line_feed(chars: &Vec<char>, from: usize) -> (feed: usize)
    requires
        from <= chars.len(),
    ensures
        feed == line_feed(chars@, from as int),
        from <= feed <= chars.len(),
{
    let mut feed: usize = from;
    while feed < chars.len() && chars[feed] != '\n'
        invariant
            from <= feed <= chars.len(),
            line_feed(chars@, feed as int) == line_feed(chars@, from as int),
        decreases chars.len() - feed,
    {
        feed = feed + 1;
    }
    feed
}

fn find_line_start(chars: &Vec<char>, line: u32) -> (start: Option<usize>)
    ensures
        match start {
            Some(found) => line_start(chars@, line as nat) == Some(found as int) && found
                < chars.len(),
            None => line_start(chars@, line as nat) is None,
        },
{
    if chars.len() == 0 {
        proof {
            no_lines(chars@, line as nat);
        }
        return None;
    }
    let mut start: usize = 0;
    let mut seen: u32 = 0;
    while seen < line
        invariant
            seen <= line,
            start < chars.len(),
            line_start(chars@, seen as nat) == Some(start as int),
        decreases line - seen,
    {
        let feed: usize = find_line_feed(chars, start);
        if feed >= chars.len() || feed + 1 >= chars.len() {
            proof {
                assert(line_start(chars@, (seen + 1) as nat) is None);
                no_later_lines(chars@, (seen + 1) as nat, line as nat);
            }
            return None;
        }
        start = feed + 1;
        seen = seen + 1;
    }
    Some(start)
}

proof fn no_lines(chars: Seq<char>, line: nat)
    requires
        chars.len() == 0,
    ensures
        line_start(chars, line) is None,
    decreases line,
{
    if line > 0 {
        no_lines(chars, (line - 1) as nat);
    }
}

proof fn no_later_lines(chars: Seq<char>, line: nat, later: nat)
    requires
        line_start(chars, line) is None,
        line <= later,
    ensures
        line_start(chars, later) is None,
    decreases later,
{
    if line < later {
        no_later_lines(chars, line, (later - 1) as nat);
    }
}

/// A line of a text, without its ending.
pub fn line_at<'t>(source: &'t str, line: u32) -> (text: Option<&'t str>)
    ensures
        match text {
            Some(found) => line_text(source@, line as nat) == Some(found@),
            None => line_text(source@, line as nat) is None,
        },
{
    let chars = chars_of(source);
    match find_line_start(&chars, line) {
        None => None,
        Some(start) => {
            let feed: usize = find_line_feed(&chars, start);
            let end: usize = if feed < chars.len() && feed > start && chars[feed - 1] == '\r' {
                feed - 1
            } else {
                feed
            };
            Some(source.substring_char(start, end))
        },
    }
}

/// The text on the line of a position up to the position.
pub open spec fn text_before(chars: Seq<char>, position: Position) -> Seq<char> {
    match line_text(chars, position.line as nat) {
        Some(line) => line.take(units_end(line, position.character as int)),
        None => Seq::empty(),
    }
}

pub fn prefix_before(source: &str, position: Position) -> (prefix: String)
    ensures
        prefix@ == text_before(source@, position),
{
    match line_at(source, position.line) {
        None => String::new(),
        Some(line) => {
            let (count, _) = find_units(line, position.character);
            let before = line.substring_char(0, count);
            assert(before@ == line@.take(count as int));
            before.to_owned()
        },
    }
}

fn flag_words(chars: &Vec<char>) -> (words: Vec<bool>)
    ensures
        words@ == words_of(chars@),
{
    let mut words: Vec<bool> = Vec::new();
    while words.len() < chars.len()
        invariant
            words.len() <= chars.len(),
            words@ == words_of(chars@).take(words.len() as int),
        decreases chars.len() - words.len(),
    {
        let c = chars[words.len()];
        words.push(is_alphanumeric(c) || c == '_');
    }
    assert(words@ == words_of(chars@));
    words
}

proof fn word_start_inside(words: Seq<bool>, at: int)
    requires
        0 <= at <= words.len(),
    ensures
        0 <= word_start(words, at) <= at,
        forall|i: int| word_start(words, at) <= i < at ==> #[trigger] words[i],
        word_start(words, at) > 0 ==> !words[word_start(words, at) - 1],
    decreases at,
{
    if at > 0 && words[at - 1] {
        word_start_inside(words, at - 1);
    }
}

proof fn word_end_inside(words: Seq<bool>, at: int)
    requires
        0 <= at <= words.len(),
    ensures
        at <= word_end(words, at) <= words.len(),
        forall|i: int| at <= i < word_end(words, at) ==> #[trigger] words[i],
        word_end(words, at) < words.len() ==> !words[word_end(words, at)],
    decreases words.len() - at,
{
    if at < words.len() && words[at] {
        word_end_inside(words, at + 1);
    }
}

/// Where the word around a position starts and ends, given which characters belong to words.
pub fn word_bounds(words: &Vec<bool>, at: usize) -> (bounds: (usize, usize))
    requires
        at <= words.len(),
    ensures
        bounds.0 == word_start(words@, at as int),
        bounds.1 == word_end(words@, at as int),
        bounds.0 <= at <= bounds.1 <= words.len(),
{
    let mut start: usize = at;
    while start > 0 && words[start - 1]
        invariant
            start <= at <= words.len(),
            word_start(words@, start as int) == word_start(words@, at as int),
        decreases start,
    {
        start = start - 1;
    }
    let mut end: usize = at;
    while end < words.len() && words[end]
        invariant
            at <= end <= words.len(),
            word_end(words@, end as int) == word_end(words@, at as int),
        decreases words.len() - end,
    {
        end = end + 1;
    }
    (start, end)
}

/// Whether the character in front of the word that ends at a position is a single byte wide.
pub open spec fn narrow_before(chars: Seq<char>, at: int) -> bool {
    let start = word_start(words_of(chars), at);
    start > 0 ==> byte_width(chars[start - 1]) == 1
}

/// The identifier that a text ends in. What stands in front of it must be a single byte wide.
pub fn ident_at_end<'t>(prefix: &'t str) -> (ident: &'t str)
    requires
        narrow_before(prefix@, prefix@.len() as int),
    ensures
        ident@ == prefix@.skip(word_start(words_of(prefix@), prefix@.len() as int)),
{
    let chars = chars_of(prefix);
    let words = flag_words(&chars);
    let (start, _) = word_bounds(&words, words.len());
    let ident = prefix.substring_char(start, chars.len());
    assert(ident@ == prefix@.skip(start as int));
    ident
}

/// The identifier that a text ends in, unless what stands in front of it is wider than a byte.
pub fn narrow_ident_at_end<'t>(prefix: &'t str) -> (ident: Option<&'t str>)
    ensures
        match ident {
            Some(found) => narrow_before(prefix@, prefix@.len() as int) && found@ == prefix@.skip(
                word_start(words_of(prefix@), prefix@.len() as int),
            ),
            None => !narrow_before(prefix@, prefix@.len() as int),
        },
{
    let chars = chars_of(prefix);
    let words = flag_words(&chars);
    let (start, _) = word_bounds(&words, words.len());
    if start > 0 && width_in_bytes(chars[start - 1]) != 1 {
        None
    } else {
        Some(ident_at_end(prefix))
    }
}

/// The identifier around a position of a line.
pub open spec fn ident_around(chars: Seq<char>, at: int) -> Option<Seq<char>> {
    let start = word_start(words_of(chars), at);
    let end = word_end(words_of(chars), at);
    if start >= end {
        None
    } else {
        Some(chars.subrange(start, end))
    }
}

/// The identifier around a column of a line. What stands in front of it must be a single byte wide.
pub fn ident_at_column<'t>(line: &'t str, utf16_char: u32) -> (ident: Option<&'t str>)
    requires
        narrow_before(line@, units_end(line@, utf16_char as int)),
    ensures
        match ident {
            Some(found) => ident_around(line@, units_end(line@, utf16_char as int)) == Some(found@),
            None => ident_around(line@, units_end(line@, utf16_char as int)) is None,
        },
{
    let (count, _) = find_units(line, utf16_char);
    let chars = chars_of(line);
    let words = flag_words(&chars);
    let (start, end) = word_bounds(&words, count);
    if start >= end {
        None
    } else {
        Some(line.substring_char(start, end))
    }
}

/// The identifier around a column of a line, and whether what stands in front of it is a single
/// byte wide, as it must be for an identifier to be found.
pub fn narrow_ident_at_column<'t>(line: &'t str, utf16_char: u32) -> (ident: (bool, Option<&'t str>))
    ensures
        ident.0 == narrow_before(line@, units_end(line@, utf16_char as int)),
        match ident.1 {
            Some(found) => ident.0 && ident_around(line@, units_end(line@, utf16_char as int))
                == Some(found@),
            None => ident.0 ==> ident_around(line@, units_end(line@, utf16_char as int)) is None,
        },
{
    let (count, _) = find_units(line, utf16_char);
    let chars = chars_of(line);
    let words = flag_words(&chars);
    let (start, _) = word_bounds(&words, count);
    if start > 0 && width_in_bytes(chars[start - 1]) != 1 {
        (false, None)
    } else {
        (true, ident_at_column(line, utf16_char))
    }
}

proof fn units_are_reached(chars: Seq<char>, goal: int, count: int)
    requires
        0 <= count <= goal <= chars.len(),
    ensures
        units_from(chars, unit_len(chars.take(goal)) as int, count) == goal,
        bytes_from(chars, byte_len(chars.take(goal)) as int, count) == goal,
    decreases goal - count,
{
    if count < goal {
        prefixes_grow(chars, count, goal);
        units_are_reached(chars, goal, count + 1);
    }
}

/// The code units in front of a character lead back to where the character is, and so do its bytes:
/// converting an offset of either kind into the other and back changes nothing.
pub proof fn offsets_are_inverse(chars: Seq<char>, count: int)
    requires
        0 <= count <= chars.len(),
    ensures
        units_end(chars, unit_len(chars.take(count)) as int) == count,
        bytes_end(chars, byte_len(chars.take(count)) as int) == count,
        between_chars(chars, byte_len(chars.take(count)) as int),
{
    units_are_reached(chars, count, 0);
}

/// The line and the column of a span that a position stands for.
pub open spec fn span_coords(chars: Seq<char>, position: Position) -> (usize, usize) {
    (
        after_usize(position.line as usize),
        match line_text(chars, position.line as nat) {
            Some(line) => after_usize(
                byte_len(line.take(units_end(line, position.character as int))) as usize,
            ),
            None => after_usize(position.character as usize),
        },
    )
}

pub fn to_span_coords(source: &str, position: Position) -> (coords: (usize, usize))
    ensures
        coords == span_coords(source@, position),
{
    let line: usize = next_usize(position.line as usize);
    let column: usize = match line_at(source, position.line) {
        Some(text) => {
            let bytes: usize = byte_offset_from_utf16(text, position.character);
            next_usize(bytes)
        },
        None => next_usize(position.character as usize),
    };
    (line, column)
}

/// The number in front of a number, stopping at zero.
pub open spec fn one_less(value: usize) -> usize {
    if value == 0 {
        0
    } else {
        (value - 1) as usize
    }
}

fn find_one_less(value: usize) -> (less: usize)
    ensures
        less == one_less(value),
{
    if value == 0 {
        0
    } else {
        value - 1
    }
}

/// Whether the column of a span can be counted in code units: it does not lie inside a character,
/// and the line is not too long for the count.
pub open spec fn column_countable(chars: Seq<char>, line: usize, column: usize) -> bool {
    match line_text(chars, (one_less(line) as u32) as nat) {
        Some(text) => (one_less(column) < byte_len(text) ==> between_chars(
            text,
            one_less(column) as int,
        )) && unit_len(text) <= u32::MAX,
        None => true,
    }
}

/// The position that stands for a line and a column of a span.
pub open spec fn position_of(chars: Seq<char>, line: usize, column: usize) -> Position {
    Position {
        line: one_less(line) as u32,
        character: match line_text(chars, (one_less(line) as u32) as nat) {
            Some(text) => unit_len(text.take(bytes_end(text, one_less(column) as int))) as u32,
            None => one_less(column) as u32,
        },
    }
}

pub fn span_to_position(source: &str, line: usize, column: usize) -> (position: Position)
    requires
        column_countable(source@, line, column),
    ensures
        position == position_of(source@, line, column),
{
    let byte_col: usize = find_one_less(column);
    let line_idx: u32 = find_one_less(line) as u32;
    let character: u32 = match line_at(source, line_idx) {
        Some(text) => utf16_offset_from_byte(text, byte_col),
        None => byte_col as u32,
    };
    Position { line: line_idx, character }
}

pub fn span_to_range(
    source: &str,
    line: usize,
    column: usize,
    end_line: usize,
    end_column: usize,
) -> (range: Range)
    requires
        column_countable(source@, line, column),
        column_countable(source@, end_line, end_column),
    ensures
        range == (Range {
            start: position_of(source@, line, column),
            end: position_of(source@, end_line, end_column),
        }),
{
    Range {
        start: span_to_position(source, line, column),
        end: span_to_position(source, end_line, end_column),
    }
}

/// Whether a span holds a position, both its ends included.
pub open spec fn span_contains(span: SourceSpan, line: usize, column: usize) -> bool {
    &&& span.line <= line <= span.end_line
    &&& line == span.line ==> span.column <= column
    &&& line == span.end_line ==> column <= span.end_column
}

fn contains(span: &SourceSpan, line: usize, column: usize) -> (yes: bool)
    ensures
        yes == span_contains(*span, line, column),
{
    if line < span.line || line > span.end_line {
        return false;
    }
    if line == span.line && column < span.column {
        return false;
    }
    !(line == span.end_line && column > span.end_column)
}

/// How many columns a span has. One of several lines is wider than any other.
pub open spec fn width_of(span: SourceSpan) -> usize {
    if span.end_line != span.line {
        usize::MAX
    } else if span.end_column < span.column {
        0
    } else {
        (span.end_column - span.column) as usize
    }
}

fn span_width(span: &SourceSpan) -> (width: usize)
    ensures
        width == width_of(*span),
{
    if span.end_line != span.line {
        usize::MAX
    } else if span.end_column < span.column {
        0
    } else {
        span.end_column - span.column
    }
}

pub open spec fn is_at(occurrence: Occurrence, module_idx: usize, line: usize, column: usize) -> bool {
    occurrence.module_idx == module_idx && span_contains(occurrence.span, line, column)
}

/// The narrowest occurrence at a position, the first of several.
pub open spec fn tightest(
    occurrences: List<Occurrence>,
    module_idx: usize,
    line: usize,
    column: usize,
) -> Option<Occurrence>
    decreases occurrences,
{
    match occurrences {
        Nil => None,
        Cons(occurrence, rest) => {
            let later = tightest(*rest, module_idx, line, column);
            if !is_at(*occurrence, module_idx, line, column) {
                later
            } else {
                match later {
                    Some(other) => if width_of(other.span) < width_of(occurrence.span) {
                        later
                    } else {
                        Some(*occurrence)
                    },
                    None => Some(*occurrence),
                }
            }
        },
    }
}

pub fn tightest_occurrence(
    occurrences: &List<Occurrence>,
    module_idx: usize,
    line: usize,
    column: usize,
) -> (found: Option<(StrId, HirType, SymbolId)>)
    ensures
        found == match tightest(*occurrences, module_idx, line, column) {
            Some(occurrence) => Some((occurrence.name, occurrence.ty, occurrence.symbol)),
            None => None,
        },
{
    match find_tightest(occurrences, module_idx, line, column) {
        Some(occurrence) => Some((occurrence.name, occurrence.ty.dup(), occurrence.symbol)),
        None => None,
    }
}

fn find_tightest<'o>(
    occurrences: &'o List<Occurrence>,
    module_idx: usize,
    line: usize,
    column: usize,
) -> (found: Option<&'o Occurrence>)
    ensures
        found == match tightest(*occurrences, module_idx, line, column) {
            Some(occurrence) => Some(&occurrence),
            None => None,
        },
    decreases occurrences,
{
    match occurrences {
        Nil => None,
        Cons(occurrence, rest) => {
            let later = find_tightest(rest, module_idx, line, column);
            if !(occurrence.module_idx == module_idx && contains(&occurrence.span, line, column)) {
                later
            } else {
                match later {
                    Some(other) => if span_width(&other.span) < span_width(&occurrence.span) {
                        later
                    } else {
                        Some(occurrence)
                    },
                    None => Some(occurrence),
                }
            }
        },
    }
}

/// What is found at a position is there, and nothing else there is narrower; where nothing is
/// found, nothing is there.
pub proof fn tightest_is_narrowest(
    occurrences: List<Occurrence>,
    module_idx: usize,
    line: usize,
    column: usize,
    other: Occurrence,
)
    requires
        occurrences.has(other),
        is_at(other, module_idx, line, column),
    ensures
        match tightest(occurrences, module_idx, line, column) {
            Some(found) => occurrences.has(found) && is_at(found, module_idx, line, column)
                && width_of(found.span) <= width_of(other.span),
            None => false,
        },
    decreases occurrences,
{
    match occurrences {
        Nil => {},
        Cons(_, _) => {
            let rest = occurrences.rest();
            tightest_is_there(rest, module_idx, line, column);
            if rest.has(other) {
                tightest_is_narrowest(rest, module_idx, line, column, other);
            }
        },
    }
}

proof fn tightest_is_there(occurrences: List<Occurrence>, module_idx: usize, line: usize, column: usize)
    ensures
        match tightest(occurrences, module_idx, line, column) {
            Some(found) => occurrences.has(found) && is_at(found, module_idx, line, column),
            None => true,
        },
    decreases occurrences,
{
    match occurrences {
        Nil => {},
        Cons(_, _) => {
            tightest_is_there(occurrences.rest(), module_idx, line, column);
        },
    }
}

/// Where a symbol is declared.
pub open spec fn declared_at(occurrences: List<Occurrence>, symbol: SymbolId) -> Option<SourceSpan>
    decreases occurrences,
{
    match occurrences {
        Nil => None,
        Cons(occurrence, rest) => if occurrence.symbol == symbol && occurrence.is_declaration {
            Some(occurrence.span)
        } else {
            declared_at(*rest, symbol)
        },
    }
}

pub fn declaration_span(occurrences: &List<Occurrence>, symbol_id: SymbolId) -> (span: Option<
    SourceSpan,
>)
    ensures
        span == declared_at(*occurrences, symbol_id),
    decreases occurrences,
{
    match occurrences {
        Nil => None,
        Cons(occurrence, rest) => if occurrence.symbol == symbol_id && occurrence.is_declaration {
            Some(occurrence.span)
        } else {
            declaration_span(rest, symbol_id)
        },
    }
}

/// Whether a span starts at or before a position.
pub open spec fn starts_by(span: SourceSpan, line: usize, column: usize) -> bool {
    span.line < line || (span.line == line && span.column <= column)
}

pub open spec fn named_before(
    occurrence: Occurrence,
    module_idx: usize,
    name: StrId,
    line: usize,
    column: usize,
) -> bool {
    occurrence.module_idx == module_idx && occurrence.name == name && starts_by(
        occurrence.span,
        line,
        column,
    )
}

/// The latest occurrence of a name that starts at or before a position, the last of several.
pub open spec fn latest_before(
    occurrences: List<Occurrence>,
    module_idx: usize,
    name: StrId,
    line: usize,
    column: usize,
) -> Option<Occurrence>
    decreases occurrences,
{
    match occurrences {
        Nil => None,
        Cons(occurrence, rest) => {
            let later = latest_before(*rest, module_idx, name, line, column);
            if !named_before(*occurrence, module_idx, name, line, column) {
                later
            } else {
                match later {
                    Some(other) => if starts_by(
                        occurrence.span,
                        other.span.line,
                        other.span.column,
                    ) {
                        later
                    } else {
                        Some(*occurrence)
                    },
                    None => Some(*occurrence),
                }
            }
        },
    }
}

fn find_latest_before<'o>(
    occurrences: &'o List<Occurrence>,
    module_idx: usize,
    name: StrId,
    line: usize,
    column: usize,
) -> (found: Option<&'o Occurrence>)
    ensures
        found == match latest_before(*occurrences, module_idx, name, line, column) {
            Some(occurrence) => Some(&occurrence),
            None => None,
        },
    decreases occurrences,
{
    match occurrences {
        Nil => None,
        Cons(occurrence, rest) => {
            let later = find_latest_before(rest, module_idx, name, line, column);
            let span = occurrence.span;
            if !(occurrence.module_idx == module_idx && occurrence.name == name && (span.line < line
                || (span.line == line && span.column <= column))) {
                later
            } else {
                match later {
                    Some(other) => if span.line < other.span.line || (span.line == other.span.line
                        && span.column <= other.span.column) {
                        later
                    } else {
                        Some(occurrence)
                    },
                    None => Some(occurrence),
                }
            }
        },
    }
}

/// The type of the latest occurrence of a name that starts at or before a position.
pub fn nearest_prior_occurrence(
    occurrences: &List<Occurrence>,
    module_idx: usize,
    name: StrId,
    line: usize,
    column: usize,
) -> (ty: Option<HirType>)
    ensures
        ty == match latest_before(*occurrences, module_idx, name, line, column) {
            Some(occurrence) => Some(occurrence.ty),
            None => None,
        },
{
    match find_latest_before(occurrences, module_idx, name, line, column) {
        Some(occurrence) => Some(occurrence.ty.dup()),
        None => None,
    }
}

/// Whether the span lies on one line, inside of the text of that line.
pub open spec fn span_fits(chars: Seq<char>, span: SourceSpan) -> bool {
    &&& span.line == span.end_line
    &&& match line_text(chars, ((span.line - 1) as u32) as nat) {
        Some(line) => one_less(span.column) <= one_less(span.end_column) <= byte_len(line),
        None => false,
    }
}

/// The text that a span covers, if it lies on one line and inside of it.
pub open spec fn covered(chars: Seq<char>, span: SourceSpan) -> Option<Seq<char>> {
    match line_text(chars, ((span.line - 1) as u32) as nat) {
        Some(line) => if span_fits(chars, span) {
            Some(
                line.subrange(
                    bytes_end(line, one_less(span.column) as int),
                    bytes_end(line, one_less(span.end_column) as int),
                ),
            )
        } else {
            None
        },
        None => None,
    }
}

/// The text that a span covers. Lines count from one, and a span that fits its line must not start
/// or end inside a character.
pub fn span_text(source: &str, span: &SourceSpan) -> (text: Option<String>)
    requires
        span.line == span.end_line ==> span.line > 0,
        span_fits(source@, *span) ==> match line_text(source@, ((span.line - 1) as u32) as nat) {
            Some(line) => between_chars(line, one_less(span.column) as int) && between_chars(
                line,
                one_less(span.end_column) as int,
            ),
            None => true,
        },
    ensures
        match text {
            Some(found) => covered(source@, *span) == Some(found@),
            None => covered(source@, *span) is None,
        },
{
    if span.line != span.end_line {
        return None;
    }
    let line_idx: u32 = (span.line - 1) as u32;
    match line_at(source, line_idx) {
        None => None,
        Some(line) => {
            let start: usize = find_one_less(span.column);
            let end: usize = find_one_less(span.end_column);
            let total: usize = line.as_bytes().len();
            proof {
                encoding_has_byte_len(line@);
            }
            if end > total || start > end {
                None
            } else {
                let from: usize = find_bytes(line, start);
                let to: usize = find_bytes(line, end);
                proof {
                    fewer_bytes_end_earlier(line@, start as int, end as int, 0);
                }
                let text = line.substring_char(from, to);
                Some(text.to_owned())
            }
        },
    }
}

/// Fewer bytes are reached no later.
pub proof fn fewer_bytes_end_earlier(chars: Seq<char>, fewer: int, more: int, count: int)
    requires
        fewer <= more,
        0 <= count <= chars.len(),
    ensures
        count <= bytes_from(chars, fewer, count) <= bytes_from(chars, more, count) <= chars.len(),
    decreases chars.len() - count,
{
    if count < chars.len() {
        fewer_bytes_end_earlier(chars, fewer, more, count + 1);
        if byte_len(chars.take(count)) >= fewer {
            bytes_end_later(chars, more, count);
        }
    }
}

proof fn bytes_end_later(chars: Seq<char>, bytes: int, count: int)
    requires
        0 <= count <= chars.len(),
    ensures
        count <= bytes_from(chars, bytes, count) <= chars.len(),
    decreases chars.len() - count,
{
    if count < chars.len() && byte_len(chars.take(count)) < bytes {
        bytes_end_later(chars, bytes, count + 1);
    }
}

/// Behind how many characters a number of bytes is reached.
fn find_bytes(line: &str, wanted: usize) -> (found: usize)
    ensures
        found == bytes_end(line@, wanted as int),
        found <= line@.len(),
{
    let chars = chars_of(line);
    let total: usize = line.as_bytes().len();
    proof {
        encoding_has_byte_len(line@);
        assert(line@.take(0) == Seq::<char>::empty());
    }
    let mut count: usize = 0;
    let mut bytes: usize = 0;
    while count < chars.len() && bytes < wanted
        invariant
            chars@ == line@,
            total == byte_len(line@),
            count <= chars.len(),
            bytes == byte_len(line@.take(count as int)),
            bytes_end(line@, wanted as int) == bytes_from(line@, wanted as int, count as int),
        decreases chars.len() - count,
    {
        proof {
            one_more_char(line@, count as int);
            prefix_is_shorter(line@, count + 1);
        }
        bytes = bytes + width_in_bytes(chars[count]);
        count = count + 1;
    }
    count
}

/// How many characters stand in front of a position of a whole text, or the length of the text where
/// the text has no such line. The line feed counts as part of its line.
pub open spec fn chars_before(chars: Seq<char>, position: Position) -> int {
    match line_start(chars, position.line as nat) {
        Some(start) => {
            let feed = line_feed(chars, start);
            let end = if feed < chars.len() {
                feed + 1
            } else {
                feed
            };
            start + units_end(chars.subrange(start, end), position.character as int)
        },
        None => chars.len() as int,
    }
}

/// The byte offset of a position in a whole text.
pub open spec fn offset_of(chars: Seq<char>, position: Position) -> nat {
    byte_len(chars.take(chars_before(chars, position)))
}

/// How many characters stand in front of a position of a whole text.
pub(crate) fn find_position(source: &str, position: Position) -> (at: usize)
    ensures
        at == chars_before(source@, position),
        at <= source@.len(),
{
    let chars = chars_of(source);
    match find_line_start(&chars, position.line) {
        None => chars.len(),
        Some(start) => {
            let feed: usize = find_line_feed(&chars, start);
            let end: usize = if feed < chars.len() {
                feed + 1
            } else {
                feed
            };
            let line = source.substring_char(start, end);
            let (count, _) = find_units(line, position.character);
            start + count
        },
    }
}

proof fn units_end_later(chars: Seq<char>, units: int, count: int)
    requires
        0 <= count <= chars.len(),
    ensures
        count <= units_from(chars, units, count) <= chars.len(),
    decreases chars.len() - count,
{
    if count < chars.len() && unit_len(chars.take(count)) < units {
        units_end_later(chars, units, count + 1);
    }
}

/// A position of a text lies inside of it.
pub proof fn position_inside(chars: Seq<char>, position: Position)
    ensures
        0 <= chars_before(chars, position) <= chars.len(),
{
    line_starts_inside(chars, position.line as nat);
    if let Some(start) = line_start(chars, position.line as nat) {
        line_feed_behind(chars, start);
        let feed = line_feed(chars, start);
        let end = if feed < chars.len() {
            feed + 1
        } else {
            feed
        };
        units_end_later(chars.subrange(start, end), position.character as int, 0);
    }
}

pub fn byte_offset_in_source(source: &str, position: Position) -> (offset: usize)
    ensures
        offset == offset_of(source@, position),
{
    let at: usize = find_position(source, position);
    let front = source.substring_char(0, at);
    assert(front@ == source@.take(at as int));
    proof {
        encoding_has_byte_len(front@);
    }
    front.as_bytes().len()
}

} // verus!
