use std::borrow::Cow;
use vstd::prelude::*;

use crate::env::{env_with_context, expansion, finds, lemma_without_errors, pieces, plain_expansion, text_of, Answer, LookupError};
use crate::scan::first_two;
use crate::tilde::{starts_with_tilde, tilde_applies, tilde_outcome, tilde_with_context};

verus! {

/// `out` is what tilde expansion makes of `text`, the variables of `input` expanded.
///
/// A tilde that only the value of a variable brought to the front is left alone.
pub open spec fn tilde_after_env<HD: Fn() -> Option<String>>(
    home_dir: HD,
    input: Seq<char>,
    text: Seq<char>,
    out: Seq<char>,
) -> bool {
    if !starts_with_tilde(input) && starts_with_tilde(text) {
        out == text
    } else {
        tilde_outcome(home_dir, text, out)
    }
}

/// `res` is what both expansions make of `input`: the variables first, with the lookups
/// answered by `answers`, then the tilde of what that gave. An error of the first is
/// the error of the whole.
pub open spec fn full_expansion<E, C: Fn(&str) -> Answer<E>, HD: Fn() -> Option<String>>(
    context: C,
    home_dir: HD,
    input: Seq<char>,
    answers: Seq<Answer<E>>,
    res: Result<Seq<char>, LookupError<E>>,
) -> bool {
    match res {
        Err(err) => expansion(context, pieces(input), answers, Err(err)),
        Ok(out) => exists|text: Seq<char>| #[trigger] expansion(context, pieces(input), answers, Ok(text))
            && tilde_after_env(home_dir, input, text, out),
    }
}

/// Expands the variables of `input`, then a leading tilde of the result.
pub fn full_with_context<'a, E, C, HD>(input: &'a str, home_dir: HD, context: C) -> (res: Result<Cow<'a, str>, LookupError<E>>)
    where
        C: Fn(&str) -> Result<Option<String>, E>,
        HD: Fn() -> Option<String>,
    requires
        forall|s: &str| call_requires(context, (s,)),
        call_requires(home_dir, ()),
    ensures
        exists|answers: Seq<Answer<E>>| full_expansion(context, home_dir, input@, answers, text_of(res)),
        !input@.contains('$') ==> (res matches Ok(out) && tilde_outcome(home_dir, input@, out@)),
        !input@.contains('$') && !tilde_applies(input@) ==> res == Ok::<Cow<'a, str>, LookupError<E>>(
            Cow::Borrowed(input),
        ),
{
    let expanded = env_with_context(input, context);
    let ghost answers = choose|answers: Seq<Answer<E>>| expansion(context, pieces(input@), answers, text_of(expanded));
    match expanded {
        Err(err) => {
            proof {
                assert(full_expansion(context, home_dir, input@, answers, Err(err)));
            }
            Err(err)
        },
        Ok(Cow::Borrowed(s)) => {
            let out = tilde_with_context(s, home_dir);
            proof {
                assert(expansion(context, pieces(input@), answers, Ok(s@)));
                assert(full_expansion(context, home_dir, input@, answers, Ok(out@)));
            }
            Ok(out)
        },
        Ok(Cow::Owned(s)) => {
            let ghost text = s@;
            proof {
                assert(expansion(context, pieces(input@), answers, Ok(text)));
            }
            if first_two(input).0 != Some('~') && first_two(s.as_str()).0 == Some('~') {
                proof {
                    assert(full_expansion(context, home_dir, input@, answers, Ok(text)));
                }
                Ok(Cow::Owned(s))
            } else {
                let out = into_owned(tilde_with_context(s.as_str(), home_dir));
                proof {
                    assert(full_expansion(context, home_dir, input@, answers, Ok(out@)));
                }
                Ok(Cow::Owned(out))
            }
        },
    }
}

/// Expands the variables of `input` with a lookup that cannot fail, then a leading
/// tilde of the result.
pub fn full_with_context_no_errors<'a, C, HD>(input: &'a str, home_dir: HD, context: C) -> (res: Cow<'a, str>)
    where
        C: Fn(&str) -> Option<String>,
        HD: Fn() -> Option<String>,
    requires
        forall|s: &str| call_requires(context, (s,)),
        call_requires(home_dir, ()),
    ensures
        exists|values: Seq<Option<String>>, text: Seq<char>|
            #[trigger] plain_expansion(context, pieces(input@), values, text)
                && tilde_after_env(home_dir, input@, text, res@),
        !input@.contains('$') ==> tilde_outcome(home_dir, input@, res@),
        !input@.contains('$') && !tilde_applies(input@) ==> res == Cow::<'a, str>::Borrowed(input),
{
    let lookup = |s: &str| -> (r: Result<Option<String>, ()>)
        ensures
            r matches Ok(v) && finds(&context, s, v),
        { Ok(context(s)) };
    let expanded = full_with_context(input, home_dir, lookup);
    proof {
        let answers = choose|answers: Seq<Answer<()>>| full_expansion(lookup, home_dir, input@, answers, text_of(expanded));
        match text_of(expanded) {
            Err(err) => {
                lemma_without_errors(context, lookup, pieces(input@), answers, Err(err));
            },
            Ok(out) => {
                let text = choose|text: Seq<char>| #[trigger] expansion(lookup, pieces(input@), answers, Ok(text))
                    && tilde_after_env(home_dir, input@, text, out);
                lemma_without_errors(context, lookup, pieces(input@), answers, Ok(text));
            },
        }
    }
    match expanded {
        Ok(text) => text,
        Err(_) => vstd::pervasive::unreached(),
    }
}

/// The text of `text` as a string of its own.
fn into_owned(text: Cow<'_, str>) -> (s: String)
    ensures
        s@ == text@,
{
    match text {
        Cow::Owned(s) => s,
        Cow::Borrowed(s) => s.to_owned(),
    }
}

} // verus!
