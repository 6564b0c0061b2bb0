//! Reading what the user entered.

use vstd::prelude::*;
use vstd::string::StringExecFns;

verus! {

/// The word that cancels a dialogue.
pub const EXIT: &'static str = "exit";

/// The word that finishes a list of foods.
pub const DONE: &'static str = "done";

/// Whether `c` is white space: whether it has the property `White_Space`
/// of Unicode, by which `str::trim` goes.
pub uninterp spec fn is_white_space(c: char) -> bool;

/// What `str::to_lowercase` makes of a text: the text with every character
/// replaced by its lower-case form.
pub uninterp spec fn lowercased(text: Seq<char>) -> Seq<char>;

/// The number of white-space characters with which `text` begins.
pub open spec fn leading_space(text: Seq<char>) -> nat
    decreases text.len(),
{
    if text.len() > 0 && is_white_space(text.first()) {
        1 + leading_space(text.drop_first())
    } else {
        0
    }
}

/// The number of white-space characters with which `text` ends.
pub open spec fn trailing_space(text: Seq<char>) -> nat
    decreases text.len(),
{
    if text.len() > 0 && is_white_space(text.last()) {
        1 + trailing_space(text.drop_last())
    } else {
        0
    }
}

/// The text without the white space at its beginning and at its end.
pub open spec fn trimmed(text: Seq<char>) -> Seq<char> {
    let rest = text.skip(leading_space(text) as int);
    rest.take(rest.len() - trailing_space(rest))
}

/// The white space at the beginning of a text is within the text, is white
/// space throughout, and ends before the first character that is none.
pub proof fn lemma_leading_space(text: Seq<char>)
    ensures
        leading_space(text) <= text.len(),
        forall|i: int| 0 <= i < leading_space(text) ==> is_white_space(#[trigger] text[i]),
        leading_space(text) < text.len() ==> !is_white_space(text[leading_space(text) as int]),
    decreases text.len(),
{
    if text.len() > 0 && is_white_space(text.first()) {
        let rest = text.drop_first();
        lemma_leading_space(rest);
        assert forall|i: int| 0 <= i < leading_space(text) implies is_white_space(
            #[trigger] text[i],
        ) by {
            if i > 0 {
                assert(text[i] == rest[i - 1]);
            }
        }
        if leading_space(text) < text.len() {
            assert(text[leading_space(text) as int] == rest[leading_space(rest) as int]);
        }
    }
}

/// The white space at the end of a text is within the text, is white space
/// throughout, and begins after the last character that is none.
pub proof fn lemma_trailing_space(text: Seq<char>)
    ensures
        trailing_space(text) <= text.len(),
        forall|i: int|
            text.len() - trailing_space(text) <= i < text.len() ==> is_white_space(
                #[trigger] text[i],
            ),
        trailing_space(text) < text.len() ==> !is_white_space(
            text[text.len() - trailing_space(text) - 1],
        ),
    decreases text.len(),
{
    if text.len() > 0 && is_white_space(text.last()) {
        let rest = text.drop_last();
        lemma_trailing_space(rest);
        assert forall|i: int|
            text.len() - trailing_space(text) <= i < text.len() implies is_white_space(
            #[trigger] text[i],
        ) by {
            if i < text.len() - 1 {
                assert(text[i] == rest[i]);
            }
        }
        if trailing_space(text) < text.len() {
            assert(text[text.len() - trailing_space(text) - 1] == rest[rest.len()
                - trailing_space(rest) - 1]);
        }
    }
}

/// The white space at the beginning of a text is as long as any run of
/// white space from the beginning that ends at the end of the text or
/// before a character that is none.
pub proof fn lemma_leading_space_is(text: Seq<char>, n: int)
    requires
        0 <= n <= text.len(),
        forall|i: int| 0 <= i < n ==> is_white_space(#[trigger] text[i]),
        n < text.len() ==> !is_white_space(text[n]),
    ensures
        leading_space(text) == n,
    decreases text.len(),
{
    if n > 0 {
        assert(is_white_space(text[0]));
        let rest = text.drop_first();
        assert forall|i: int| 0 <= i < n - 1 implies is_white_space(#[trigger] rest[i]) by {
            assert(rest[i] == text[i + 1]);
        }
        lemma_leading_space_is(rest, n - 1);
    }
}

/// The white space at the end of a text is as long as any run of white
/// space up to the end that begins at the beginning of the text or after a
/// character that is none.
pub proof fn lemma_trailing_space_is(text: Seq<char>, n: int)
    requires
        0 <= n <= text.len(),
        forall|i: int| text.len() - n <= i < text.len() ==> is_white_space(#[trigger] text[i]),
        n < text.len() ==> !is_white_space(text[text.len() - n - 1]),
    ensures
        trailing_space(text) == n,
    decreases text.len(),
{
    if n > 0 {
        assert(is_white_space(text[text.len() - 1]));
        let rest = text.drop_last();
        assert forall|i: int| rest.len() - (n - 1) <= i < rest.len() implies is_white_space(
            #[trigger] rest[i],
        ) by {
            assert(rest[i] == text[i]);
        }
        lemma_trailing_space_is(rest, n - 1);
    }
}

/// A part of a text, before and after which there is only white space and
/// which neither begins nor ends with white space, is the trimmed text.
pub proof fn lemma_trimmed_is(text: Seq<char>, start: int, end: int)
    requires
        0 <= start <= end <= text.len(),
        forall|i: int| 0 <= i < start ==> is_white_space(#[trigger] text[i]),
        forall|i: int| end <= i < text.len() ==> is_white_space(#[trigger] text[i]),
        start < end ==> !is_white_space(text[start]) && !is_white_space(text[end - 1]),
    ensures
        trimmed(text) == text.subrange(start, end),
{
    if start < end {
        lemma_leading_space_is(text, start);
        let rest = text.skip(start);
        let n = text.len() - end;
        assert forall|i: int| rest.len() - n <= i < rest.len() implies is_white_space(
            #[trigger] rest[i],
        ) by {
            assert(rest[i] == text[i + start]);
        }
        assert(rest[rest.len() - n - 1] == text[end - 1]);
        lemma_trailing_space_is(rest, n);
        assert(trimmed(text) =~= text.subrange(start, end));
    } else {
        lemma_leading_space_is(text, text.len() as int);
        assert(trimmed(text) =~= text.subrange(start, end));
    }
}

/// A trimmed text neither begins nor ends with white space, and is a part
/// of the text it was trimmed from.
pub proof fn lemma_trimmed_is_bare(text: Seq<char>)
    ensures
        trimmed(text).len() > 0 ==> !is_white_space(trimmed(text).first()) && !is_white_space(
            trimmed(text).last(),
        ),
        trimmed(text).len() + leading_space(text) <= text.len(),
        trimmed(text) == text.subrange(
            leading_space(text) as int,
            (leading_space(text) + trimmed(text).len()) as int,
        ),
{
    lemma_leading_space(text);
    let rest = text.skip(leading_space(text) as int);
    lemma_trailing_space(rest);
    if rest.len() > 0 {
        assert(rest[0] == text[leading_space(text) as int]);
        if trailing_space(rest) == rest.len() {
            assert(is_white_space(rest[0]));
        }
    }
    assert(trimmed(text) =~= text.subrange(
        leading_space(text) as int,
        (leading_space(text) + trimmed(text).len()) as int,
    ));
}

/// A text that neither begins nor ends with white space is its own trimmed
/// form.
pub proof fn lemma_bare_is_trimmed(text: Seq<char>)
    requires
        text.len() > 0 ==> !is_white_space(text.first()) && !is_white_space(text.last()),
    ensures
        trimmed(text) == text,
{
    assert(leading_space(text) == 0);
    assert(text.skip(0) =~= text);
    assert(trailing_space(text) == 0);
    assert(text.take(text.len() as int) =~= text);
}

/// Trimming a trimmed text changes nothing.
pub proof fn lemma_trimmed_twice(text: Seq<char>)
    ensures
        trimmed(trimmed(text)) == trimmed(text),
{
    lemma_trimmed_is_bare(text);
    lemma_bare_is_trimmed(trimmed(text));
}

/// Whether `rest` is `text` without the white space around it: a part of
/// `text`, before and after which there is only white space, and which
/// neither begins nor ends with white space.
pub open spec fn is_trim_of(rest: Seq<char>, text: Seq<char>) -> bool {
    exists|start: int, end: int|
        {
            &&& 0 <= start <= end <= text.len()
            &&& rest == text.subrange(start, end)
            &&& forall|i: int| 0 <= i < start ==> is_white_space(#[trigger] text[i])
            &&& forall|i: int| end <= i < text.len() ==> is_white_space(#[trigger] text[i])
            &&& start < end ==> !is_white_space(text[start]) && !is_white_space(text[end - 1])
        }
}

/// There is one text that is `text` without the white space around it: the
/// trimmed text.
pub proof fn lemma_trim_is_trimmed(rest: Seq<char>, text: Seq<char>)
    ensures
        is_trim_of(rest, text) <==> rest == trimmed(text),
{
    if is_trim_of(rest, text) {
        let (start, end) = choose|start: int, end: int|
            {
                &&& 0 <= start <= end <= text.len()
                &&& rest == text.subrange(start, end)
                &&& forall|i: int| 0 <= i < start ==> is_white_space(#[trigger] text[i])
                &&& forall|i: int| end <= i < text.len() ==> is_white_space(#[trigger] text[i])
                &&& start < end ==> !is_white_space(text[start]) && !is_white_space(
                    text[end - 1],
                )
            };
        lemma_trimmed_is(text, start, end);
    }
    if rest == trimmed(text) {
        lemma_trimmed_is_bare(text);
        lemma_leading_space(text);
        let start = leading_space(text) as int;
        let end = start + trimmed(text).len();
        let tail = text.skip(start);
        lemma_trailing_space(tail);
        assert forall|i: int| end <= i < text.len() implies is_white_space(#[trigger] text[i]) by {
            assert(text[i] == tail[i - start]);
        }
        if start < end {
            assert(text[start] == trimmed(text).first());
            assert(text[end - 1] == trimmed(text).last());
        }
    }
}

/// `str::trim`: the text without the white space around it, where white
/// space is what has the property `White_Space` of Unicode. The result is a
/// part of the text, before and after which there is only white space, and
/// neither begins nor ends with white space.
#[verifier::external_body]
fn trim(text: &str) -> (rest: &str)
    ensures
        is_trim_of(rest@, text@),
        rest@.len() > 0 ==> !is_white_space(rest@.first()) && !is_white_space(rest@.last()),
{
    text.trim()
}

/// `str::to_lowercase`. The result is named, not written out: the
/// lower-case form of a character is what Unicode defines as such, and may
/// depend on the characters around it.
#[verifier::external_body]
fn to_lowercase(text: &str) -> (lower: String)
    ensures
        lower@ == lowercased(text@),
{
    text.to_lowercase()
}

/// What the user meant by a line that was read: the line without the white
/// space around it, the line's end included.
pub fn read_input(line: &str) -> (input: String)
    ensures
        input@ == trimmed(line@),
{
    let rest = trim(line);
    proof {
        lemma_trim_is_trimmed(rest@, line@);
    }
    rest.to_owned()
}

/// The form of an input in which it is compared with a word that ends a
/// dialogue, `exit` or `done`: trimmed and in lower case.
pub fn folded(input: &str) -> (key: String)
    ensures
        key@ == lowercased(trimmed(input@)),
{
    let rest = trim(input);
    proof {
        lemma_trim_is_trimmed(rest@, input@);
    }
    to_lowercase(rest)
}

/// Whether a folded input is `word`.
pub fn is_word(key: &str, word: &str) -> (same: bool)
    ensures
        same == (key@ == word@),
{
    String::from_str(key) == String::from_str(word)
}

} // verus!
