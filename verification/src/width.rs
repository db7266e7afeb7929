//! Measuring text in terminal columns, and cutting it to a number of them.

use unicode_width::UnicodeWidthChar;
use vstd::prelude::*;
use vstd::std_specs::iter::IteratorSpec;

verus! {

/// The number of columns that a terminal draws a character in, as the
/// unicode-width crate tells it: `None` for a control character.
pub uninterp spec fn char_width(c: char) -> Option<usize>;

/// Calls `UnicodeWidthChar::width` of the unicode-width crate.
///
/// Trusted: the result is the crate's answer for this character and depends
/// on nothing else.
#[verifier::external_body]
pub(crate) fn width_of_char(c: char) -> (w: Option<usize>)
    ensures
        w == char_width(c),
{
    UnicodeWidthChar::width(c)
}

/// The columns that a character takes; a control character takes none.
pub open spec fn columns_of(c: char) -> nat {
    match char_width(c) {
        Some(w) => w as nat,
        None => 0,
    }
}

/// The columns that a text takes.
pub open spec fn text_width(text: Seq<char>) -> nat
    decreases text.len(),
{
    if text.len() == 0 {
        0
    } else {
        text_width(text.drop_last()) + columns_of(text.last())
    }
}

/// The number of characters at the start of a text that fit into `budget`
/// columns: the count stops before the first character that would exceed
/// the budget.
pub open spec fn fitting_len(text: Seq<char>, budget: nat) -> nat
    decreases text.len(),
{
    if text.len() == 0 {
        0
    } else if columns_of(text[0]) > budget {
        0
    } else {
        1 + fitting_len(text.drop_first(), (budget - columns_of(text[0])) as nat)
    }
}

/// The start of a text that fits into `budget` columns.
pub open spec fn fitting(text: Seq<char>, budget: nat) -> Seq<char> {
    text.take(fitting_len(text, budget) as int)
}

/// The part of a text that fits is a part of the text.
pub proof fn lemma_fitting_len_bound(text: Seq<char>, budget: nat)
    ensures
        fitting_len(text, budget) <= text.len(),
    decreases text.len(),
{
    if text.len() > 0 && columns_of(text[0]) <= budget {
        lemma_fitting_len_bound(text.drop_first(), (budget - columns_of(text[0])) as nat);
    }
}

/// The part of a text that fits takes no more columns than the budget.
pub proof fn lemma_fitting_within_budget(text: Seq<char>, budget: nat)
    ensures
        text_width(fitting(text, budget)) <= budget,
    decreases text.len(),
{
    lemma_fitting_len_bound(text, budget);
    if text.len() > 0 && columns_of(text[0]) <= budget {
        let rest = text.drop_first();
        let left = (budget - columns_of(text[0])) as nat;
        lemma_fitting_within_budget(rest, left);
        lemma_fitting_len_bound(rest, left);
        let n = fitting_len(rest, left) as int;
        assert(text.take(n + 1) =~= seq![text[0]] + rest.take(n));
        lemma_width_of_sum(seq![text[0]], rest.take(n));
        assert(seq![text[0]].drop_last() =~= Seq::<char>::empty());
        assert(text_width(seq![text[0]]) == columns_of(text[0])) by {
            assert(text_width(Seq::<char>::empty()) == 0);
        }
    } else {
        assert(fitting(text, budget) =~= Seq::<char>::empty());
    }
}

/// The columns of two texts side by side add up.
pub proof fn lemma_width_of_sum(a: Seq<char>, b: Seq<char>)
    ensures
        text_width(a + b) == text_width(a) + text_width(b),
    decreases b.len(),
{
    if b.len() == 0 {
        assert(a + b =~= a);
    } else {
        assert((a + b).drop_last() =~= a + b.drop_last());
        lemma_width_of_sum(a, b.drop_last());
    }
}

/// Cuts a text to the characters that fit into `budget` columns. Returns
/// them with the columns they take.
pub fn truncate_to_width(text: &str, budget: usize) -> (out: (String, usize))
    ensures
        out.0@ == fitting(text@, budget as nat),
        out.1 == text_width(out.0@),
        out.1 <= budget,
{
    broadcast use vstd::string::group_string_axioms;

    let mut shown = String::new();
    let mut used: usize = 0;
    let mut chars = text.chars();
    let ghost mut taken: int = 0;
    proof {
        assert(text@.take(0) =~= Seq::<char>::empty());
        assert(text@.skip(0) =~= text@);
    }
    loop
        invariant_except_break
            0 <= taken <= text@.len(),
            shown@ == text@.take(taken),
            chars.remaining() == text@.skip(taken),
            used == text_width(shown@),
            used <= budget,
            fitting_len(text@, budget as nat) == taken + fitting_len(
                text@.skip(taken),
                (budget - used) as nat,
            ),
            chars.obeys_prophetic_iter_laws(),
            chars.decrease() is Some,
        ensures
            shown@ == fitting(text@, budget as nat),
            used == text_width(shown@),
            used <= budget,
        decreases chars.decrease()->0,
    {
        match chars.next() {
            None => {
                break ;
            },
            Some(c) => {
                assert(text@.skip(taken)[0] == c);
                let columns: usize = match width_of_char(c) {
                    Some(w) => w,
                    None => 0,
                };
                if columns > budget - used {
                    break ;
                }
                proof {
                    assert(text@.take(taken + 1) =~= text@.take(taken).push(c));
                    assert(text@.take(taken + 1).drop_last() =~= text@.take(taken));
                    assert(text@.skip(taken).drop_first() =~= text@.skip(taken + 1));
                    taken = taken + 1;
                }
                shown.push(c);
                used = used + columns;
            },
        }
    }
    (shown, used)
}

} // verus!
