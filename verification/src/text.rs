//! Text handling: characters, words and lists.

use vstd::prelude::*;

verus! {

/// Whether std counts `c` as white space.
pub uninterp spec fn is_whitespace(c: char) -> bool;

/// `char::is_whitespace` of std: whether the character has the Unicode
/// property `White_Space`. A function of the character alone.
#[verifier::external_body]
fn whitespace(c: char) -> (blank: bool)
    ensures
        blank == is_whitespace(c),
{
    c.is_whitespace()
}

/// The lower-case form that std gives a text.
pub uninterp spec fn lowercase(s: Seq<char>) -> Seq<char>;

/// `str::to_lowercase` of std: the lower-case equivalent of the text, as a
/// new `String`. A function of the text alone.
#[verifier::external_body]
pub(crate) fn to_lowercase(s: &str) -> (lower: String)
    ensures
        lower@ == lowercase(s@),
{
    s.to_lowercase()
}

/// `String::push` of std: appends the character to the end of the text.
#[verifier::external_body]
pub(crate) fn push_char(s: &mut String, c: char)
    ensures
        final(s)@ == old(s)@.push(c),
{
    s.push(c)
}

/// The characters of `s`, in order.
pub fn chars_of(s: &str) -> (chars: Vec<char>)
    ensures
        chars@ == s@,
{
    let mut chars: Vec<char> = Vec::new();
    for c in it: s.chars()
        invariant
            it.seq() == s@,
            chars@ == s@.take(it.index() as int),
    {
        chars.push(c);
    }
    chars
}

/// How many characters of `s`, from position `from` on, come before the
/// next white space or the end.
pub open spec fn word_len(s: Seq<char>, from: int) -> nat
    decreases s.len() - from,
{
    if 0 <= from < s.len() && !is_whitespace(s[from]) {
        1 + word_len(s, from + 1)
    } else {
        0
    }
}

/// A word ends within the text.
pub proof fn lemma_word_len_bound(s: Seq<char>, from: int)
    requires
        0 <= from <= s.len(),
    ensures
        from + word_len(s, from) <= s.len(),
    decreases s.len() - from,
{
    if from < s.len() && !is_whitespace(s[from]) {
        lemma_word_len_bound(s, from + 1);
    }
}

/// The words of `s` from position `from` on: the longest runs of
/// characters that are not white space, in order.
pub open spec fn tokens_from(s: Seq<char>, from: int) -> Seq<Seq<char>>
    decreases s.len() - from,
    via tokens_from_decreases
{
    if from < 0 || from >= s.len() {
        Seq::empty()
    } else if is_whitespace(s[from]) {
        tokens_from(s, from + 1)
    } else {
        let end = from + word_len(s, from);
        seq![s.subrange(from, end)] + tokens_from(s, end)
    }
}

#[via_fn]
proof fn tokens_from_decreases(s: Seq<char>, from: int) {
    if 0 <= from < s.len() && !is_whitespace(s[from]) {
        lemma_word_len_bound(s, from);
    }
}

/// The words of `s`: what is left when `s` is cut at white space and the
/// empty pieces are dropped.
pub open spec fn tokens(s: Seq<char>) -> Seq<Seq<char>> {
    tokens_from(s, 0)
}

fn word_end(chars: &Vec<char>, from: usize) -> (end: usize)
    requires
        from <= chars.len(),
    ensures
        end == from + word_len(chars@, from as int),
        end <= chars.len(),
{
    let mut end: usize = from;
    while end < chars.len() && !whitespace(chars[end])
        invariant
            from <= end <= chars.len(),
            word_len(chars@, from as int) == (end - from) + word_len(chars@, end as int),
        decreases chars.len() - end,
    {
        end += 1;
    }
    end
}

/// Cuts `text` at white space into its words.
pub fn split_whitespace(text: &str) -> (words: Vec<String>)
    ensures
        words.deep_view() == tokens(text@),
{
    let chars = chars_of(text);
    let n = chars.len();
    let mut words: Vec<String> = Vec::new();
    let mut i: usize = 0;
    while i < n
        invariant
            n == chars.len(),
            chars@ == text@,
            i <= n,
            words.deep_view() + tokens_from(text@, i as int) =~= tokens(text@),
        decreases n - i,
    {
        if whitespace(chars[i]) {
            i += 1;
        } else {
            let end = word_end(&chars, i);
            let word = text.substring_char(i, end).to_owned();
            let ghost before = words.deep_view();
            words.push(word);
            assert(words.deep_view() =~= before.push(text@.subrange(i as int, end as int)));
            assert(before.push(text@.subrange(i as int, end as int)) + tokens_from(
                text@,
                end as int,
            ) =~= before + tokens_from(text@, i as int));
            i = end;
        }
    }
    words
}

/// How many characters of `s`, from position `from` on, come before the
/// next `sep` or the end.
pub open spec fn field_len(s: Seq<char>, from: int, sep: char) -> nat
    decreases s.len() - from,
{
    if 0 <= from < s.len() && s[from] != sep {
        1 + field_len(s, from + 1, sep)
    } else {
        0
    }
}

/// The pieces of `s` from position `from` on when it is cut at every
/// `sep`. Empty pieces stay.
pub open spec fn fields_from(s: Seq<char>, from: int, sep: char) -> Seq<Seq<char>>
    decreases s.len() - from,
{
    let end = from + field_len(s, from, sep);
    if from < 0 || end >= s.len() {
        seq![s.subrange(from, end)]
    } else {
        seq![s.subrange(from, end)] + fields_from(s, end + 1, sep)
    }
}

/// The pieces of `s` when it is cut at every `sep`: one more than there
/// are separators, so the empty text has one empty piece.
pub open spec fn fields(s: Seq<char>, sep: char) -> Seq<Seq<char>> {
    fields_from(s, 0, sep)
}

fn field_end(chars: &Vec<char>, from: usize, sep: char) -> (end: usize)
    requires
        from <= chars.len(),
    ensures
        end == from + field_len(chars@, from as int, sep),
        end <= chars.len(),
{
    let mut end: usize = from;
    while end < chars.len() && chars[end] != sep
        invariant
            from <= end <= chars.len(),
            field_len(chars@, from as int, sep) == (end - from) + field_len(
                chars@,
                end as int,
                sep,
            ),
        decreases chars.len() - end,
    {
        end += 1;
    }
    end
}

/// Cuts `text` at every `sep`, keeping empty pieces.
pub fn split(text: &str, sep: char) -> (pieces: Vec<String>)
    ensures
        pieces.deep_view() == fields(text@, sep),
{
    let chars = chars_of(text);
    let n = chars.len();
    let mut pieces: Vec<String> = Vec::new();
    let mut i: usize = 0;
    loop
        invariant_except_break
            pieces.deep_view() + fields_from(text@, i as int, sep) =~= fields(text@, sep),
        invariant
            n == chars.len(),
            chars@ == text@,
            i <= n,
        ensures
            pieces.deep_view() == fields(text@, sep),
        decreases n - i,
    {
        let end = field_end(&chars, i, sep);
        let piece = text.substring_char(i, end).to_owned();
        let ghost before = pieces.deep_view();
        pieces.push(piece);
        assert(pieces.deep_view() =~= before.push(text@.subrange(i as int, end as int)));
        if end >= n {
            break ;
        }
        assert(before.push(text@.subrange(i as int, end as int)) + fields_from(
            text@,
            end + 1,
            sep,
        ) =~= before + fields_from(text@, i as int, sep));
        i = end + 1;
    }
    pieces
}

/// The words put together again, with one space between neighbours.
pub open spec fn joined(words: Seq<Seq<char>>) -> Seq<char>
    decreases words.len(),
{
    if words.len() == 0 {
        Seq::empty()
    } else if words.len() == 1 {
        words[0]
    } else {
        joined(words.drop_last()) + seq![' '] + words.last()
    }
}

/// The words from position `from` on: none where there are not that many.
pub open spec fn rest(words: Seq<Seq<char>>, from: int) -> Seq<Seq<char>> {
    if 0 <= from <= words.len() {
        words.skip(from)
    } else {
        Seq::empty()
    }
}

/// Joins the words from position `from` on with single spaces.
pub fn join(words: &Vec<String>, from: usize) -> (line: String)
    ensures
        line@ == joined(rest(words.deep_view(), from as int)),
{
    let ghost all = rest(words.deep_view(), from as int);
    let mut line = String::new();
    if from > words.len() {
        return line;
    }
    let mut i: usize = from;
    while i < words.len()
        invariant
            from <= i <= words.len(),
            all == words.deep_view().skip(from as int),
            line@ == joined(all.take(i - from)),
        decreases words.len() - i,
    {
        proof {
            reveal_strlit(" ");
            assert(all.take(i - from + 1).drop_last() =~= all.take(i - from));
            assert(all.take(i - from + 1).last() == words[i as int]@);
        }
        if i > from {
            line.append(" ");
            assert(" "@ =~= seq![' ']);
        }
        line.append(words[i].as_str());
        i += 1;
    }
    assert(all.take(i - from) =~= all);
    line
}

} // verus!
