//! Text transforms that the built-in templates apply to names.

use vstd::prelude::*;
use vstd::std_specs::iter::IteratorSpec;

verus! {

/// Whether `c` has the Unicode property `Uppercase`, as `char::is_uppercase` tells it.
pub uninterp spec fn has_uppercase_property(c: char) -> bool;

/// `char::is_uppercase` of std: the answer is the Unicode property of the
/// character and nothing else, so it is given a name.
#[verifier::external_body]
fn is_uppercase(c: char) -> (upper: bool)
    ensures
        upper == has_uppercase_property(c),
{
    c.is_uppercase()
}

/// `String::push` of std: appends one character to the end of the string.
#[verifier::external_body]
fn push_char(text: &mut String, c: char)
    ensures
        final(text)@ == old(text)@.push(c),
{
    text.push(c)
}

/// `s` with one space in front of every uppercase character but the first
/// character of `s`.
pub open spec fn spaced(s: Seq<char>) -> Seq<char>
    decreases s.len(),
{
    if s.len() == 0 {
        s
    } else if s.len() > 1 && has_uppercase_property(s.last()) {
        spaced(s.drop_last()).push(' ').push(s.last())
    } else {
        spaced(s.drop_last()).push(s.last())
    }
}

/// Converts a camelcase string to a string with words separated by whitespaces.
/// For example, "ElectricEnergyConsumption" becomes "Electric Energy Consumption".
pub fn camelcase_to_whitespaces(value: &str) -> (words: String)
    ensures
        words@ == spaced(value@),
{
    let mut words = String::new();
    let mut first = true;
    assert(value@.subrange(0, 0) =~= Seq::<char>::empty());
    for c in it: value.chars()
        invariant
            it.seq() == value@,
            first == (it.index() == 0),
            words@ == spaced(value@.subrange(0, it.index())),
    {
        proof {
            let seen = value@.subrange(0, it.index() + 1);
            assert(seen.drop_last() =~= value@.subrange(0, it.index()));
            assert(seen.last() == c);
        }
        // Insert a space if the current character is uppercase and is not the first one.
        if !first && is_uppercase(c) {
            push_char(&mut words, ' ');
        }
        push_char(&mut words, c);
        first = false;
    }
    assert(value@.subrange(0, value@.len() as int) =~= value@);
    words
}

} // verus!
