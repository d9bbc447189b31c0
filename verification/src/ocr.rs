//! Cleaning of the text that OCR reads from a frame.

use vstd::prelude::*;
use vstd::std_specs::iter::IteratorSpec;

verus! {

broadcast use vstd::string::group_string_axioms;

/// Appends `c` to `s` with `String::push`; the contract claims that the
/// characters of `s` grow by `c` at the end, as std documents.
#[verifier::external_body]
pub(crate) fn push_char(s: &mut String, c: char)
    ensures
        final(s)@ == old(s)@.push(c),
{
    s.push(c);
}

/// The characters of `text` other than the space, in their order.
pub open spec fn without_spaces(text: Seq<char>) -> Seq<char> {
    text.filter(|c: char| c != ' ')
}

/// Drops every space from OCR text, joining what the spaces separated
/// (`text.split(' ').collect::<String>()`).
pub fn remove_spaces(text: &str) -> (joined: String)
    ensures
        joined@ == without_spaces(text@),
        joined@ == text@.filter(|c: char| c != ' '),
{
    let mut joined = String::new();
    let ghost chars = text@;
    let mut it = text.chars();
    let ghost mut i: int = 0;
    proof {
        assert(chars.skip(0) == chars);
        assert(chars.take(0) =~= Seq::<char>::empty());
    }
    loop
        invariant_except_break
            it.remaining() == chars.skip(i),
            0 <= i <= chars.len(),
            joined@ == without_spaces(chars.take(i)),
        ensures
            joined@ == without_spaces(chars),
        decreases chars.len() - i,
    {
        let ghost before = it.remaining();
        match it.next() {
            Some(c) => {
                proof {
                    assert(before.len() > 0);
                    assert(c == chars[i]);
                    assert(chars.take(i + 1) == chars.take(i).push(c));
                    chars.take(i).lemma_filter_push(c, |c: char| c != ' ');
                    assert(chars.skip(i).drop_first() == chars.skip(i + 1));
                }
                if c != ' ' {
                    push_char(&mut joined, c);
                }
                proof {
                    i = i + 1;
                }
            },
            None => {
                proof {
                    assert(before.len() == 0);
                    assert(chars.take(i) == chars);
                }
                break;
            },
        }
    }
    joined
}

/// Removing the spaces of OCR text leaves no space, and removing them again
/// changes nothing.
pub proof fn law_remove_spaces_idempotent(text: Seq<char>)
    ensures
        !without_spaces(text).contains(' '),
        without_spaces(without_spaces(text)) == without_spaces(text),
    decreases text.len(),
{
    let pred = |c: char| c != ' ';
    if text.len() == 0 {
        assert(without_spaces(text) =~= text);
        assert(without_spaces(without_spaces(text)) =~= without_spaces(text));
    } else {
        let rest = text.drop_last();
        let last = text.last();
        law_remove_spaces_idempotent(rest);
        assert(text == rest.push(last));
        rest.lemma_filter_push(last, pred);
        if last != ' ' {
            without_spaces(rest).lemma_filter_push(last, pred);
        }
        assert forall|i: int| 0 <= i < without_spaces(text).len() implies without_spaces(text)[i] != ' ' by {
            text.lemma_filter_pred(pred, i);
        }
    }
}

/// Whether a character is `c`.
pub open spec fn is_char(c: char) -> spec_fn(char) -> bool {
    |x: char| x == c
}

/// How many times `c` occurs in `s`.
pub open spec fn occurrences(s: Seq<char>, c: char) -> nat {
    s.filter(is_char(c)).len()
}

/// Removing the spaces drops every space and keeps every other character:
/// each character but the space occurs in the result as often as in the
/// text, a newline or a tab too, and the space occurs nowhere.
pub proof fn law_remove_spaces_drops_only_spaces(text: Seq<char>, joined: Seq<char>, c: char)
    requires
        joined == without_spaces(text),
    ensures
        c != ' ' ==> occurrences(joined, c) == occurrences(text, c),
        occurrences(joined, ' ') == 0,
    decreases text.len(),
{
    let keep = |x: char| x != ' ';
    if text.len() == 0 {
        assert(joined =~= Seq::<char>::empty());
        assert(joined.filter(is_char(c)) =~= Seq::<char>::empty());
        assert(joined.filter(is_char(' ')) =~= Seq::<char>::empty());
        assert(text.filter(is_char(c)) =~= Seq::<char>::empty());
    } else {
        let rest = text.drop_last();
        let last = text.last();
        law_remove_spaces_drops_only_spaces(rest, without_spaces(rest), c);
        assert(text == rest.push(last));
        rest.lemma_filter_push(last, keep);
        rest.lemma_filter_push(last, is_char(c));
        without_spaces(rest).lemma_filter_push(last, is_char(c));
        without_spaces(rest).lemma_filter_push(last, is_char(' '));
        if last == ' ' {
            assert(joined == without_spaces(rest));
        } else {
            assert(joined == without_spaces(rest).push(last));
        }
    }
}

} // verus!
