//! Text as sequences of characters: the few operations that the rest of the
//! library performs on payloads, field paths and times of day.
use vstd::prelude::*;

verus! {

/// `String::push` appends one character.
pub assume_specification[ String::push ](s: &mut String, c: char)
    ensures
        final(s)@ == old(s)@.push(c),
;

/// What `String::from_utf8_lossy` makes of a byte sequence.
pub uninterp spec fn utf8_lossy(bytes: Seq<u8>) -> Seq<char>;

/// `String::from_utf8_lossy`: the text of `bytes`, with a replacement
/// character for each malformed part. Text that is well formed comes back as
/// it is; which malformed parts share one replacement character is left to the
/// name.
#[verifier::external_body]
pub(crate) fn decode_lossy(bytes: &[u8]) -> (text: String)
    ensures
        text@ == utf8_lossy(bytes@),
        vstd::utf8::valid_utf8(bytes@) ==> text@ == vstd::utf8::decode_utf8(bytes@),
{
    String::from_utf8_lossy(bytes).into_owned()
}

/// The characters of a string, one by one.
pub fn chars_of(s: &str) -> (chars: Vec<char>)
    ensures
        chars@ == s@,
{
    let mut chars: Vec<char> = Vec::new();
    for c in it: s.chars()
        invariant
            it.seq() == s@,
            chars@ == s@.take(it.index()),
    {
        chars.push(c);
    }
    chars
}


/// The string that holds the given characters.
pub fn string_of(chars: &Vec<char>) -> (s: String)
    ensures
        s@ == chars@,
{
    let mut s = String::new();
    let mut i: usize = 0;
    while i < chars.len()
        invariant
            i <= chars.len(),
            s@ == chars@.take(i as int),
        decreases chars.len() - i,
    {
        s.push(chars[i]);
        i = i + 1;
    }
    assert(chars@.take(i as int) =~= chars@);
    s
}

/// Whether two strings hold the same characters.
pub fn same_text(a: &str, b: &str) -> (same: bool)
    ensures
        same == (a@ == b@),
{
    a.to_owned() == b.to_owned()
}

/// `a` followed by `b`.
pub fn join(a: &str, b: &str) -> (s: String)
    ensures
        s@ == a@ + b@,
{
    let mut s = a.to_owned();
    s.append(b);
    s
}

/// The characters with the Unicode property White_Space.
pub open spec fn is_white_space(c: char) -> bool {
    let u = c as u32;
    ||| 0x9 <= u <= 0xd
    ||| u == 0x20
    ||| u == 0x85
    ||| u == 0xa0
    ||| u == 0x1680
    ||| 0x2000 <= u <= 0x200a
    ||| u == 0x2028
    ||| u == 0x2029
    ||| u == 0x202f
    ||| u == 0x205f
    ||| u == 0x3000
}

/// Whether `c` is white space.
pub fn white_space(c: char) -> (white: bool)
    ensures
        white == is_white_space(c),
{
    let u: u32 = c as u32;
    (0x9 <= u && u <= 0xd) || u == 0x20 || u == 0x85 || u == 0xa0 || u == 0x1680 || (0x2000 <= u
        && u <= 0x200a) || u == 0x2028 || u == 0x2029 || u == 0x202f || u == 0x205f || u == 0x3000
}

/// `s` without its leading white space.
pub open spec fn trimmed_start(s: Seq<char>) -> Seq<char>
    decreases s.len(),
{
    if s.len() > 0 && is_white_space(s.first()) {
        trimmed_start(s.drop_first())
    } else {
        s
    }
}

/// `s` without its trailing white space.
pub open spec fn trimmed_end(s: Seq<char>) -> Seq<char>
    decreases s.len(),
{
    if s.len() > 0 && is_white_space(s.last()) {
        trimmed_end(s.drop_last())
    } else {
        s
    }
}

/// Whether `c` ends a line.
pub open spec fn is_line_break(c: char) -> bool {
    c == '\n' || c == '\r'
}

/// A payload as the handlers read it: trimmed on both sides, line breaks
/// inside it taken out.
pub open spec fn cleaned(s: Seq<char>) -> Seq<char> {
    trimmed_end(trimmed_start(s)).filter(|c: char| !is_line_break(c))
}

/// Decodes a raw payload and cleans it.
pub fn payload_text(bytes: &[u8]) -> (text: String)
    ensures
        text@ == cleaned(utf8_lossy(bytes@)),
{
    let decoded = decode_lossy(bytes);
    clean(&decoded)
}

/// Trims `s` on both sides and takes out the line breaks inside it.
pub fn clean(s: &str) -> (text: String)
    ensures
        text@ == cleaned(s@),
{
    let chars = chars_of(s);
    let mut from: usize = 0;
    assert(chars@.skip(0) =~= chars@);
    while from < chars.len() && white_space(chars[from])
        invariant
            from <= chars.len(),
            trimmed_start(chars@) == trimmed_start(chars@.skip(from as int)),
        decreases chars.len() - from,
    {
        assert(chars@.skip(from as int).drop_first() =~= chars@.skip(from + 1));
        from = from + 1;
    }
    let ghost tail = chars@.skip(from as int);
    assert(trimmed_start(chars@) == tail);
    let mut to: usize = chars.len();
    assert(chars@.subrange(from as int, to as int) =~= tail);
    while from < to && white_space(chars[to - 1])
        invariant
            from <= to <= chars.len(),
            trimmed_end(tail) == trimmed_end(chars@.subrange(from as int, to as int)),
        decreases to - from,
    {
        assert(chars@.subrange(from as int, to as int).drop_last() =~= chars@.subrange(
            from as int,
            to - 1,
        ));
        to = to - 1;
    }
    let ghost core = chars@.subrange(from as int, to as int);
    let ghost keep = |c: char| !is_line_break(c);
    assert(trimmed_end(tail) == core);
    let mut text = String::new();
    let mut i: usize = from;
    proof {
        reveal(Seq::filter);
    }
    assert(core.take(0) =~= Seq::<char>::empty());
    while i < to
        invariant
            from <= i <= to <= chars.len(),
            core == chars@.subrange(from as int, to as int),
            keep == (|c: char| !is_line_break(c)),
            text@ == core.take(i - from).filter(keep),
        decreases to - i,
    {
        proof {
            reveal(Seq::filter);
            assert(core.take(i - from + 1).drop_last() =~= core.take(i - from));
        }
        let c = chars[i];
        if !(c == '\n' || c == '\r') {
            text.push(c);
        }
        i = i + 1;
    }
    assert(core.take(to - from) =~= core);
    text
}

/// The first index at or after `i` at which `c` stands in `s`.
pub open spec fn position(s: Seq<char>, c: char, i: int) -> Option<int>
    decreases s.len() - i,
{
    if i < 0 || i >= s.len() {
        None
    } else if s[i] == c {
        Some(i)
    } else {
        position(s, c, i + 1)
    }
}

/// The pieces of `s` between the occurrences of `sep`.
pub open spec fn pieces(s: Seq<char>, sep: char) -> Seq<Seq<char>>
    decreases s.len(),
{
    match position(s, sep, 0) {
        Some(k) => if 0 <= k < s.len() {
            seq![s.take(k)] + pieces(s.skip(k + 1), sep)
        } else {
            seq![s]
        },
        None => seq![s],
    }
}

/// The views of a list of strings.
pub open spec fn views(list: Seq<String>) -> Seq<Seq<char>> {
    list.map_values(|s: String| s@)
}

/// Splits `s` at every occurrence of `sep`.
pub fn split_at_each(s: &str, sep: char) -> (list: Vec<String>)
    ensures
        views(list@) == pieces(s@, sep),
{
    let chars = chars_of(s);
    let mut list: Vec<String> = Vec::new();
    let mut piece = String::new();
    let mut start: usize = 0;
    let mut i: usize = 0;
    assert(chars@.skip(0) =~= chars@);
    assert(views(list@) + pieces(chars@, sep) =~= pieces(chars@, sep));
    while i < chars.len()
        invariant
            start <= i <= chars.len(),
            piece@ == chars@.subrange(start as int, i as int),
            pieces(chars@, sep) == views(list@) + pieces(chars@.skip(start as int), sep),
            position(chars@.skip(start as int), sep, 0) == position(
                chars@.skip(start as int),
                sep,
                i - start,
            ),
        decreases chars.len() - i,
    {
        let c = chars[i];
        let ghost tail = chars@.skip(start as int);
        assert(tail[i - start] == c);
        if c == sep {
            let ghost before = list@;
            list.push(piece);
            proof {
                assert(tail.take(i - start) =~= chars@.subrange(start as int, i as int));
                assert(tail.skip(i - start + 1) =~= chars@.skip(i + 1));
                assert(views(list@) =~= views(before) + seq![tail.take(i - start)]);
                assert(views(before) + (seq![tail.take(i - start)] + pieces(
                    chars@.skip(i + 1),
                    sep,
                )) =~= views(list@) + pieces(chars@.skip(i + 1), sep));
            }
            piece = String::new();
            start = i + 1;
        } else {
            piece.push(c);
        }
        i = i + 1;
    }
    let ghost before = list@;
    list.push(piece);
    proof {
        let tail = chars@.skip(start as int);
        assert(tail =~= chars@.subrange(start as int, i as int));
        assert(views(list@) =~= views(before) + seq![tail]);
    }
    list
}

/// `c` with an upper-case ASCII letter made lower case.
pub open spec fn lower(c: char) -> char {
    if 'A' <= c && c <= 'Z' {
        (c as u32 + 32) as char
    } else {
        c
    }
}

/// Whether `s` is `word` when the case of ASCII letters is passed over.
pub open spec fn is_word(s: Seq<char>, word: Seq<char>) -> bool {
    s.map_values(|c: char| lower(c)) == word
}

/// Whether `s`, lowered, is `word`.
pub fn matches_word(s: &str, word: &str) -> (same: bool)
    ensures
        same == is_word(s@, word@),
{
    let chars = chars_of(s);
    let mut lowered: Vec<char> = Vec::new();
    let mut i: usize = 0;
    while i < chars.len()
        invariant
            i <= chars.len(),
            lowered@ == chars@.take(i as int).map_values(|c: char| lower(c)),
        decreases chars.len() - i,
    {
        let c = chars[i];
        if 'A' <= c && c <= 'Z' {
            lowered.push((c as u8 + 32) as char);
        } else {
            lowered.push(c);
        }
        i = i + 1;
        assert(lowered@ =~= chars@.take(i as int).map_values(|c: char| lower(c)));
    }
    assert(chars@.take(i as int) =~= chars@);
    let text = string_of(&lowered);
    same_text(&text, word)
}

/// The pieces with the separator between them.
pub open spec fn joined(list: Seq<Seq<char>>, sep: char) -> Seq<char>
    decreases list.len(),
{
    if list.len() == 0 {
        seq![]
    } else if list.len() == 1 {
        list[0]
    } else {
        list[0].push(sep) + joined(list.drop_first(), sep)
    }
}

proof fn lemma_position(s: Seq<char>, c: char, i: int)
    requires
        0 <= i <= s.len(),
    ensures
        match position(s, c, i) {
            Some(k) => i <= k < s.len() && s[k] == c && forall|j: int| i <= j < k ==> s[j] != c,
            None => forall|j: int| i <= j < s.len() ==> s[j] != c,
        },
    decreases s.len() - i,
{
    if i < s.len() && s[i] != c {
        lemma_position(s, c, i + 1);
    }
}

/// Splitting loses nothing: the pieces, with the separator between them, give
/// the text back, and there is always one.
pub proof fn law_pieces_give_the_text_back(s: Seq<char>, sep: char)
    ensures
        pieces(s, sep).len() > 0,
        joined(pieces(s, sep), sep) == s,
    decreases s.len(),
{
    lemma_position(s, sep, 0);
    if let Some(k) = position(s, sep, 0) {
        let rest = s.skip(k + 1);
        law_pieces_give_the_text_back(rest, sep);
        let list = pieces(s, sep);
        assert(list.drop_first() =~= pieces(rest, sep));
        assert(list[0] == s.take(k));
        assert(s.take(k).push(sep) + rest =~= s);
    }
}

/// Splitting is complete: no piece holds the separator.
pub proof fn law_pieces_hold_no_separator(s: Seq<char>, sep: char, i: int, j: int)
    requires
        0 <= i < pieces(s, sep).len(),
        0 <= j < pieces(s, sep)[i].len(),
    ensures
        pieces(s, sep)[i][j] != sep,
    decreases s.len(),
{
    lemma_position(s, sep, 0);
    if let Some(k) = position(s, sep, 0) {
        if i > 0 {
            let rest = s.skip(k + 1);
            assert(pieces(s, sep)[i] == pieces(rest, sep)[i - 1]);
            law_pieces_hold_no_separator(rest, sep, i - 1, j);
        }
    }
}

/// Of the ASCII characters the space and the five that move the carriage are
/// white space, and no letter, digit or sign is.
pub proof fn law_ascii_white_space(c: char)
    requires
        (c as u32) < 0x80,
    ensures
        is_white_space(c) <==> c == ' ' || c == '\t' || c == '\n' || c == '\u{b}' || c == '\u{c}'
            || c == '\r',
{
}

/// Beyond ASCII, white space is the next line, the two fixed spaces, the Ogham
/// space, the spaces of typography, the two separators, the mathematical and
/// the ideographic space.
pub proof fn law_other_white_space(c: char)
    requires
        (c as u32) >= 0x80,
    ensures
        is_white_space(c) <==> c == '\u{85}' || c == '\u{a0}' || c == '\u{1680}' || ('\u{2000}' <= c
            && c <= '\u{200a}') || c == '\u{2028}' || c == '\u{2029}' || c == '\u{202f}' || c
            == '\u{205f}' || c == '\u{3000}',
{
}

proof fn lemma_trimmed_start(left: Seq<char>, core: Seq<char>)
    requires
        forall|i: int| 0 <= i < left.len() ==> is_white_space(#[trigger] left[i]),
        core.len() == 0 || !is_white_space(core.first()),
    ensures
        trimmed_start(left + core) == core,
    decreases left.len(),
{
    if left.len() > 0 {
        assert((left + core).drop_first() =~= left.drop_first() + core);
        lemma_trimmed_start(left.drop_first(), core);
    } else {
        assert(left + core =~= core);
    }
}

proof fn lemma_trimmed_end(core: Seq<char>, right: Seq<char>)
    requires
        forall|i: int| 0 <= i < right.len() ==> is_white_space(#[trigger] right[i]),
        core.len() == 0 || !is_white_space(core.last()),
    ensures
        trimmed_end(core + right) == core,
    decreases right.len(),
{
    if right.len() > 0 {
        assert((core + right).drop_last() =~= core + right.drop_last());
        lemma_trimmed_end(core, right.drop_last());
    } else {
        assert(core + right =~= core);
    }
}

proof fn lemma_keeps_all(s: Seq<char>)
    requires
        forall|i: int| 0 <= i < s.len() ==> s[i] != '\n' && s[i] != '\r',
    ensures
        s.filter(|c: char| !is_line_break(c)) == s,
    decreases s.len(),
{
    reveal(Seq::filter);
    if s.len() > 0 {
        assert forall|i: int| 0 <= i < s.drop_last().len() implies s.drop_last()[i] != '\n'
            && s.drop_last()[i] != '\r' by {
            assert(s.drop_last()[i] == s[i]);
        }
        lemma_keeps_all(s.drop_last());
        assert(s.drop_last().push(s.last()) =~= s);
    }
}

/// Cleaning takes the white space on both sides away, and leaves what lies
/// between as it is where that holds no line break.
pub proof fn law_cleaning_takes_the_margins_off(left: Seq<char>, core: Seq<char>, right: Seq<char>)
    requires
        forall|i: int| 0 <= i < left.len() ==> is_white_space(#[trigger] left[i]),
        forall|i: int| 0 <= i < right.len() ==> is_white_space(#[trigger] right[i]),
        core.len() > 0,
        !is_white_space(core.first()) && !is_white_space(core.last()),
        forall|i: int| 0 <= i < core.len() ==> core[i] != '\n' && core[i] != '\r',
    ensures
        cleaned(left + core + right) == core,
{
    assert(left + core + right =~= left + (core + right));
    assert((core + right).first() == core.first());
    lemma_trimmed_start(left, core + right);
    lemma_trimmed_end(core, right);
    lemma_keeps_all(core);
}

/// A line break inside a text is taken out, with nothing in its place: the
/// lines are closed up.
pub proof fn law_cleaning_joins_the_lines(one: Seq<char>, line_break: char, other: Seq<char>)
    requires
        line_break == '\n' || line_break == '\r',
        one.len() > 0 && !is_white_space(one.first()),
        other.len() > 0 && !is_white_space(other.last()),
        forall|i: int| 0 <= i < one.len() ==> one[i] != '\n' && one[i] != '\r',
        forall|i: int| 0 <= i < other.len() ==> other[i] != '\n' && other[i] != '\r',
    ensures
        cleaned(one.push(line_break) + other) == one + other,
{
    let whole = one.push(line_break) + other;
    let none = Seq::<char>::empty();
    let keep = |c: char| !is_line_break(c);
    assert(none + whole =~= whole);
    assert(whole.first() == one.first() && whole.last() == other.last());
    lemma_trimmed_start(none, whole);
    assert(whole + none =~= whole);
    lemma_trimmed_end(whole, none);
    Seq::filter_distributes_over_add(one.push(line_break), other, keep);
    lemma_keeps_all(one);
    lemma_keeps_all(other);
    reveal(Seq::filter);
    assert(one.push(line_break).drop_last() =~= one);
    assert(one.push(line_break).filter(keep) == one);
}

/// What has been cleaned holds no line break.
pub proof fn law_clean_text_is_one_line(s: Seq<char>, i: int)
    requires
        0 <= i < cleaned(s).len(),
    ensures
        cleaned(s)[i] != '\n' && cleaned(s)[i] != '\r',
{
    let core = trimmed_end(trimmed_start(s));
    let keep = |c: char| !is_line_break(c);
    broadcast use vstd::seq_lib::group_filter_ensures;
    assert(keep(core.filter(keep)[i]));
}

/// A text is a word where it has the word's letters, each in either case, and
/// nothing else.
pub proof fn law_words_go_by_their_letters(s: Seq<char>, word: Seq<char>)
    ensures
        is_word(s, word) <==> s.len() == word.len() && forall|i: int|
            0 <= i < s.len() ==> {
                ||| s[i] == #[trigger] word[i] && !('A' <= s[i] && s[i] <= 'Z')
                ||| 'A' <= s[i] && s[i] <= 'Z' && word[i] == (s[i] as u32 + 32) as char
            },
{
    let low = s.map_values(|c: char| lower(c));
    if s.len() == word.len() && forall|i: int|
        0 <= i < s.len() ==> {
            ||| s[i] == #[trigger] word[i] && !('A' <= s[i] && s[i] <= 'Z')
            ||| 'A' <= s[i] && s[i] <= 'Z' && word[i] == (s[i] as u32 + 32) as char
        } {
        assert(low =~= word);
    } else if low == word {
        assert forall|i: int| 0 <= i < s.len() implies {
            ||| s[i] == #[trigger] word[i] && !('A' <= s[i] && s[i] <= 'Z')
            ||| 'A' <= s[i] && s[i] <= 'Z' && word[i] == (s[i] as u32 + 32) as char
        } by {
            assert(low[i] == lower(s[i]));
        }
    }
}

/// A payload is read as its text would be, cleaned.
pub proof fn law_payloads_are_cleaned(bytes: &[u8], s: &str, text: String, other: String)
    requires
        call_ensures(payload_text, (bytes,), text),
        call_ensures(clean, (s,), other),
        utf8_lossy(bytes@) == s@,
    ensures
        text@ == other@,
{
}

/// The list that a text is split into gives the text back, with the separator
/// between its items.
pub proof fn law_split_text_can_be_joined(s: &str, sep: char, list: Vec<String>)
    requires
        call_ensures(split_at_each, (s, sep), list),
    ensures
        list@.len() > 0,
        joined(views(list@), sep) == s@,
{
    law_pieces_give_the_text_back(s@, sep);
}

} // verus!
