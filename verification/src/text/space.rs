use crate::text::chars::chars_of;
use vstd::prelude::*;

verus! {

/// Whether a character has Unicode's `White_Space` property.
pub uninterp spec fn whitespace(c: char) -> bool;

/// Calls `char::is_whitespace`. Trusted: the result says whether the character has
/// the `White_Space` property, which depends on the character alone.
#[verifier::external_body]
pub(crate) fn is_whitespace(c: char) -> (white: bool)
    ensures
        white == whitespace(c),
{
    c.is_whitespace()
}

/// Whether a text holds nothing but whitespace; the empty text is blank.
pub open spec fn blank(s: Seq<char>) -> bool {
    forall|i: int| 0 <= i < s.len() ==> whitespace(#[trigger] s[i])
}

/// Tells whether `s` holds nothing but whitespace.
pub fn is_blank(s: &str) -> (b: bool)
    ensures
        b == blank(s@),
{
    let text = chars_of(s);
    let mut i: usize = 0;
    while i < text.len()
        invariant
            text@ == s@,
            i <= text.len(),
            forall|j: int| 0 <= j < i ==> whitespace(#[trigger] s@[j]),
        decreases text.len() - i,
    {
        if !is_whitespace(text[i]) {
            return false;
        }
        i += 1;
    }
    true
}

/// With how many whitespace characters `s` begins.
pub open spec fn leading_blanks(s: Seq<char>) -> nat
    decreases s.len(),
{
    if s.len() > 0 && whitespace(s[0]) {
        1 + leading_blanks(s.drop_first())
    } else {
        0
    }
}

/// With how many whitespace characters `s` ends.
pub open spec fn trailing_blanks(s: Seq<char>) -> nat
    decreases s.len(),
{
    if s.len() > 0 && whitespace(s.last()) {
        1 + trailing_blanks(s.drop_last())
    } else {
        0
    }
}

/// `s` without the whitespace it begins and ends with.
pub open spec fn trimmed(s: Seq<char>) -> Seq<char> {
    let rest = s.skip(leading_blanks(s) as int);
    rest.take(rest.len() - trailing_blanks(rest))
}

/// Takes the whitespace off both ends of `s`.
pub fn trim_text(s: &str) -> (t: String)
    ensures
        t@ == trimmed(s@),
{
    let text = chars_of(s);
    let mut start: usize = 0;
    let mut scanning = true;
    assert(text@.skip(0) =~= text@);
    while scanning && start < text.len()
        invariant
            text@ == s@,
            start <= text.len(),
            leading_blanks(text@) == start + leading_blanks(text@.skip(start as int)),
            !scanning ==> start < text.len() && !whitespace(text@[start as int]),
        decreases text.len() - start + if scanning { 1int } else { 0int },
    {
        if is_whitespace(text[start]) {
            assert(text@.skip(start as int).drop_first() =~= text@.skip(start + 1));
            start += 1;
        } else {
            scanning = false;
        }
    }
    let ghost rest = text@.skip(start as int);
    let mut end: usize = text.len();
    scanning = true;
    assert(text@.subrange(start as int, end as int) =~= rest);
    while scanning && end > start
        invariant
            text@ == s@,
            start <= end <= text.len(),
            rest == text@.skip(start as int),
            trailing_blanks(rest) == (text.len() - end) + trailing_blanks(
                text@.subrange(start as int, end as int),
            ),
            !scanning ==> end > start && !whitespace(text@[end - 1]),
        decreases end - start + if scanning { 1int } else { 0int },
    {
        if is_whitespace(text[end - 1]) {
            assert(text@.subrange(start as int, end as int).drop_last() =~= text@.subrange(
                start as int,
                end - 1,
            ));
            end -= 1;
        } else {
            scanning = false;
        }
    }
    assert(text@.subrange(start as int, end as int) =~= rest.take(rest.len() - trailing_blanks(rest)));
    String::from_str(s.substring_char(start, end))
}

/// A blank text begins with as many whitespace characters as it has.
proof fn lemma_blank_is_all_leading(s: Seq<char>)
    ensures
        blank(s) <==> leading_blanks(s) == s.len(),
        leading_blanks(s) <= s.len(),
    decreases s.len(),
{
    if s.len() > 0 {
        lemma_blank_is_all_leading(s.drop_first());
        let rest = s.drop_first();
        if blank(s) {
            assert forall|i: int| 0 <= i < rest.len() implies whitespace(#[trigger] rest[i]) by {
                assert(rest[i] == s[i + 1]);
            }
        }
        if leading_blanks(s) == s.len() {
            assert forall|i: int| 0 <= i < s.len() implies whitespace(#[trigger] s[i]) by {
                if i > 0 {
                    assert(s[i] == rest[i - 1]);
                }
            }
        }
    }
}

/// What is trimmed off a text is never more than the text.
proof fn lemma_trailing_blanks_fit(s: Seq<char>)
    ensures
        trailing_blanks(s) <= s.len(),
        trailing_blanks(s) == 0 <==> s.len() == 0 || !whitespace(s.last()),
    decreases s.len(),
{
    if s.len() > 0 {
        lemma_trailing_blanks_fit(s.drop_last());
    }
}

/// Behind its leading whitespace a text that is not blank goes on with a character
/// that is no whitespace.
proof fn lemma_leading_blanks_stop(s: Seq<char>)
    requires
        leading_blanks(s) < s.len(),
    ensures
        !whitespace(s[leading_blanks(s) as int]),
    decreases s.len(),
{
    if whitespace(s[0]) {
        lemma_leading_blanks_stop(s.drop_first());
        assert(s.drop_first()[leading_blanks(s.drop_first()) as int] == s[leading_blanks(s) as int]);
    }
}

/// The whitespace at the end of a text stops short of a first character that is no
/// whitespace.
proof fn lemma_trailing_blanks_short_of(s: Seq<char>)
    requires
        s.len() > 0,
        !whitespace(s[0]),
    ensures
        trailing_blanks(s) < s.len(),
    decreases s.len(),
{
    if s.len() > 1 && whitespace(s.last()) {
        assert(s.drop_last()[0] == s[0]);
        lemma_trailing_blanks_short_of(s.drop_last());
    }
}

/// A text is blank if and only if trimming leaves nothing of it.
pub proof fn lemma_blank_iff_trimmed_empty(s: Seq<char>)
    ensures
        blank(s) <==> trimmed(s).len() == 0,
{
    lemma_blank_is_all_leading(s);
    let rest = s.skip(leading_blanks(s) as int);
    lemma_trailing_blanks_fit(rest);
    if leading_blanks(s) < s.len() {
        lemma_leading_blanks_stop(s);
        assert(rest[0] == s[leading_blanks(s) as int]);
        lemma_trailing_blanks_short_of(rest);
    }
}

} // verus!
