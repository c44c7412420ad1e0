use std::borrow::Cow;
use vstd::prelude::*;

use crate::scan::{first_two, push_range, to_chars};

verus! {

/// Whether `s` begins with `~`.
pub open spec fn starts_with_tilde(s: Seq<char>) -> bool {
    s.len() > 0 && s[0] == '~'
}

/// Whether the `~` that `s` begins with stands for the home directory: it does where
/// nothing, or `/`, follows it.
pub open spec fn tilde_applies(s: Seq<char>) -> bool {
    starts_with_tilde(s) && (s.len() == 1 || s[1] == '/')
}

/// `out` is what tilde expansion makes of `input` with `home_dir`: where the tilde
/// stands for the home directory and `home_dir` gave one, that directory followed by
/// what comes after the tilde; in every other case the input.
pub open spec fn tilde_outcome<HD: Fn() -> Option<String>>(home_dir: HD, input: Seq<char>, out: Seq<char>) -> bool {
    if tilde_applies(input) {
        exists|found: Option<String>| #[trigger] call_ensures(home_dir, (), found) && out == match found {
            Some(dir) => dir@ + input.skip(1),
            None => input,
        }
    } else {
        out == input
    }
}

/// Replaces a leading `~` by the home directory that `home_dir` gives.
///
/// `home_dir` is asked only where the tilde stands for the home directory. An input
/// that is not changed is handed back borrowed.
pub fn tilde_with_context<'a, HD>(input: &'a str, home_dir: HD) -> (res: Cow<'a, str>)
    where HD: Fn() -> Option<String>
    requires
        call_requires(home_dir, ()),
    ensures
        tilde_outcome(home_dir, input@, res@),
        !tilde_applies(input@) ==> res == Cow::<'a, str>::Borrowed(input),
{
    let (first, second) = first_two(input);
    if first == Some('~') && (second.is_none() || second == Some('/')) {
        match home_dir() {
            Some(dir) => {
                let chars = to_chars(input);
                let mut result = dir;
                push_range(&mut result, &chars, 1, chars.len());
                proof {
                    assert(chars@.subrange(1, chars.len() as int) =~= input@.skip(1));
                    assert(call_ensures(home_dir, (), Some(dir)));
                }
                Cow::Owned(result)
            },
            None => {
                proof {
                    assert(call_ensures(home_dir, (), None::<String>));
                }
                Cow::Borrowed(input)
            },
        }
    } else {
        Cow::Borrowed(input)
    }
}

} // verus!
