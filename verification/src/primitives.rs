//! What the library takes on trust: the three recognisers of `nom` that the
//! grammar is built from, and two functions of the standard library.
//!
//! Each item here stands for one function that is not verified and states,
//! over the views of its arguments, what a call of it does. Nothing checks
//! these contracts against the code they describe; everything else in the
//! library is proved from them.

use vstd::prelude::*;

verus! {

/// `nom::Err`, the error side of every `nom` result. Its content is not read.
#[verifier::external_type_specification]
#[verifier::external_body]
#[verifier::reject_recursive_types(E)]
pub struct ExNomErr<E>(nom::Err<E>);

/// `nom::error::Error`, the default error of `nom`: a position and a code.
/// Its content is not read.
#[verifier::external_type_specification]
#[verifier::external_body]
#[verifier::reject_recursive_types(I)]
pub struct ExNomError<I>(nom::error::Error<I>);

/// `nom::character::complete::one_of`. It succeeds exactly when the input is
/// not empty and its first character occurs in `list`; it then hands back that
/// character and the input after it.
#[verifier::external_body]
pub(crate) fn one_of<'a>(list: &str, i: &'a str) -> (res: nom::IResult<&'a str, char>)
    ensures
        match res {
            Ok((rest, c)) => i@.len() > 0 && list@.contains(i@[0]) && c == i@[0] && rest@
                == i@.skip(1),
            Err(_) => !(i@.len() > 0 && list@.contains(i@[0])),
        },
{
    nom::character::complete::one_of(list)(i)
}

/// `nom::bytes::complete::tag`. It succeeds exactly when the input begins
/// with `pattern`; it then hands back the part of the input that matched and
/// the input after it.
#[verifier::external_body]
pub(crate) fn tag<'a>(pattern: &str, i: &'a str) -> (res: nom::IResult<&'a str, &'a str>)
    ensures
        match res {
            Ok((rest, matched)) => pattern@.is_prefix_of(i@) && matched@ == pattern@ && rest@
                == i@.skip(pattern@.len() as int),
            Err(_) => !pattern@.is_prefix_of(i@),
        },
{
    nom::bytes::complete::tag(pattern)(i)
}

/// `nom::character::complete::anychar`. It succeeds exactly when the input is
/// not empty; it then hands back the first character and the input after it.
#[verifier::external_body]
pub(crate) fn anychar<'a>(i: &'a str) -> (res: nom::IResult<&'a str, char>)
    ensures
        match res {
            Ok((rest, c)) => i@.len() > 0 && c == i@[0] && rest@ == i@.skip(1),
            Err(_) => i@.len() == 0,
        },
{
    nom::character::complete::anychar(i)
}

/// `String::push` of the standard library: appends one character.
pub assume_specification[ String::push ](s: &mut String, ch: char)
    ensures
        final(s)@ == old(s)@.push(ch),
;

/// `str::eq` of the standard library: two string slices are equal exactly
/// when they hold the same characters.
pub assume_specification[ <str as PartialEq>::eq ](a: &str, b: &str) -> (r: bool)
    ensures
        r == (a@ == b@),
;

} // verus!
