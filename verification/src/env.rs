use std::borrow::Cow;
use vstd::prelude::*;
use vstd::string::StringExecFns;

use crate::scan::{
    ascii_alphanumeric, has_dollar, is_valid_var_name_char, is_var_char, lemma_run_len, lemma_run_len_unique, push_range, run_end, run_len,
    string_of_range, to_chars, Run,
};

verus! {

/// A variable could not be looked up: its name, and what the lookup reported.
#[derive(Debug, Clone, PartialEq, Eq)]
pub struct LookupError<E> {
    pub name: String,
    pub cause: E,
}

/// The text that presents a failed lookup of `name` to a reader, `cause` being the
/// text of what the lookup reported.
pub open spec fn lookup_error_text(name: Seq<char>, cause: Seq<char>) -> Seq<char> {
    "error looking key '"@ + name + "' up: "@ + cause
}

impl<E: core::fmt::Display> LookupError<E> {
    /// The text that presents the error to a reader: the name of the variable, and
    /// the cause as it displays itself.
    pub fn message(&self) -> (text: String)
        ensures
            exists|cause: String| vstd::string::to_string_from_display_ensures(&self.cause, cause)
                && text@ == lookup_error_text(self.name@, cause@),
    {
        let cause = self.cause.to_string();
        let text = "error looking key '".to_owned().concat(self.name.as_str()).concat("' up: ").concat(cause.as_str());
        text
    }
}

/// One stretch of an input text, as variable expansion reads it.
pub enum Piece {
    /// Characters that go to the output as they are.
    Text(Seq<char>),
    /// A reference to the variable `name`, which the input writes as `raw`.
    Var { name: Seq<char>, raw: Seq<char> },
}

/// The piece that a non-empty text starts with, and how many characters it takes up.
///
/// A `$` starts a reference where `{` follows it and a `}` comes later (the name stands
/// between the two), or where a name character follows it (the name is the longest run
/// of them). Any other `$` stands for itself, and `$$` for one `$`.
pub open spec fn first_piece(s: Seq<char>) -> (Piece, nat)
    recommends
        s.len() > 0,
{
    if s[0] != '$' {
        let n = run_len(s, Run::Text);
        (Piece::Text(s.take(n as int)), n)
    } else if s.len() >= 2 && s[1] == '{' {
        let close = run_len(s, Run::Braced);
        if close < s.len() {
            (Piece::Var { name: s.subrange(2, close as int), raw: s.take((close + 1) as int) }, (close + 1) as nat)
        } else {
            (Piece::Text(s.take(2)), 2)
        }
    } else if s.len() >= 2 && is_var_char(s[1]) {
        let end = 1 + run_len(s.skip(1), Run::Name);
        (Piece::Var { name: s.subrange(1, end as int), raw: s.take(end as int) }, end)
    } else if s.len() >= 2 && s[1] == '$' {
        (Piece::Text(seq!['$']), 2)
    } else {
        (Piece::Text(seq!['$']), 1)
    }
}

/// The first piece of a non-empty text takes up at least one character and no more
/// than there are; in a reference, `{` and `}` are at their places.
pub proof fn lemma_first_piece(s: Seq<char>)
    requires
        s.len() > 0,
    ensures
        0 < first_piece(s).1 <= s.len(),
{
    lemma_run_len(s, Run::Text);
    lemma_run_len(s, Run::Braced);
    lemma_run_len(s.skip(1), Run::Name);
}

/// A `$` before another `$` stands for one `$`, and the two are one piece; a `$`
/// before an ASCII character that is no letter, digit, underscore, `{` or `$`, or at
/// the end, stands for itself.
pub proof fn lemma_dollar_alone(s: Seq<char>)
    requires
        s.len() > 0,
        s[0] == '$',
    ensures
        s.len() >= 2 && s[1] == '$' ==> first_piece(s) == (Piece::Text(seq!['$']), 2nat),
        s.len() == 1 || ((s[1] as u32) < 0x80 && !ascii_alphanumeric(s[1]) && s[1] != '_' && s[1] != '{' && s[1]
            != '$') ==> first_piece(s) == (Piece::Text(seq!['$']), 1nat),
{
}

/// A `$` before an ASCII letter, digit or underscore begins a reference whose name is
/// the longest run of name characters that follows.
pub proof fn lemma_dollar_name(s: Seq<char>)
    requires
        s.len() >= 2,
        s[0] == '$',
        ascii_alphanumeric(s[1]) || s[1] == '_',
    ensures
        first_piece(s).0 == (Piece::Var {
            name: s.subrange(1, (1 + run_len(s.skip(1), Run::Name)) as int),
            raw: s.take((1 + run_len(s.skip(1), Run::Name)) as int),
        }),
        first_piece(s).1 == 1 + run_len(s.skip(1), Run::Name),
{
}

/// The pieces of a text, in order.
pub open spec fn pieces(s: Seq<char>) -> Seq<Piece>
    decreases s.len(),
    via pieces_decreases
{
    if s.len() == 0 {
        Seq::empty()
    } else {
        seq![first_piece(s).0] + pieces(s.skip(first_piece(s).1 as int))
    }
}

/// The text that is left after the first piece is shorter.
#[via_fn]
proof fn pieces_decreases(s: Seq<char>) {
    if s.len() > 0 {
        lemma_first_piece(s);
    }
}

/// What one lookup may report: the value, that there is none, or a failure.
pub type Answer<E> = Result<Option<String>, E>;

/// What a piece puts into the output, given the answer to its lookup: a text itself,
/// a reference its value, and a reference without a value what the input wrote.
pub open spec fn piece_output<E>(p: Piece, a: Answer<E>) -> Seq<char> {
    match p {
        Piece::Text(t) => t,
        Piece::Var { name, raw } => match a {
            Ok(Some(v)) => v@,
            _ => raw,
        },
    }
}

/// The output of the pieces `ps`, the answer to the lookup of `ps[i]` being `answers[i]`.
pub open spec fn output<E>(ps: Seq<Piece>, answers: Seq<Answer<E>>) -> Seq<char>
    recommends
        ps.len() == answers.len(),
    decreases ps.len(),
{
    if ps.len() == 0 {
        Seq::empty()
    } else {
        output(ps.drop_last(), answers.drop_last()) + piece_output(ps.last(), answers.last())
    }
}

/// `a` is an answer that `context` gave for the piece `p`. A text is not looked up:
/// its place in the answers holds `Ok(None)`.
pub open spec fn answered<E, C: Fn(&str) -> Answer<E>>(context: C, p: Piece, a: Answer<E>) -> bool {
    match p {
        Piece::Var { name, raw } => exists|n: &str| n@ == name && call_ensures(context, (n,), a),
        Piece::Text(_) => a == Ok::<Option<String>, E>(None),
    }
}

/// The lookup of `p` failed with `a`.
pub open spec fn failed<E>(p: Piece, a: Answer<E>) -> bool {
    p is Var && a is Err
}

/// `res` is what expanding the pieces `ps` gives when the lookups are answered by
/// `answers`, one for each piece that was reached.
///
/// On success every piece was reached, each reference has an answer of `context`, none of
/// them a failure, and the text is the output of the pieces. On failure the last piece
/// reached is a reference whose lookup failed, those before it were answered without
/// failure, and the error holds that reference's name and what the lookup reported.
pub open spec fn expansion<E, C: Fn(&str) -> Answer<E>>(
    context: C,
    ps: Seq<Piece>,
    answers: Seq<Answer<E>>,
    res: Result<Seq<char>, LookupError<E>>,
) -> bool {
    &&& answers.len() <= ps.len()
    &&& forall|i: int| 0 <= i < answers.len() ==> answered(context, #[trigger] ps[i], answers[i])
    &&& match res {
        Ok(text) => {
            &&& answers.len() == ps.len()
            &&& forall|i: int| 0 <= i < answers.len() ==> !failed(#[trigger] ps[i], answers[i])
            &&& text == output(ps, answers)
        },
        Err(err) => {
            &&& answers.len() > 0
            &&& forall|i: int| 0 <= i < answers.len() - 1 ==> !failed(#[trigger] ps[i], answers[i])
            &&& ps[answers.len() - 1] matches Piece::Var { name, raw }
            &&& answers.last() matches Err(cause)
            &&& err.name@ == name
            &&& err.cause == cause
        },
    }
}

/// The text of a result, with the error kept.
pub open spec fn text_of<'a, E>(res: Result<Cow<'a, str>, LookupError<E>>) -> Result<Seq<char>, LookupError<E>> {
    match res {
        Ok(text) => Ok(text@),
        Err(err) => Err(err),
    }
}

/// Expands the references to variables in `input`, asking `context` for each value.
///
/// The pieces of the input are taken from left to right. A reference whose variable has a
/// value is replaced by it; one without a value stays as written. The first lookup that
/// fails ends the expansion with its error. An input without `$` is handed back borrowed.
pub fn env_with_context<'a, E, C>(input: &'a str, context: C) -> (res: Result<Cow<'a, str>, LookupError<E>>)
    where C: Fn(&str) -> Result<Option<String>, E>
    requires
        forall|s: &str| call_requires(context, (s,)),
    ensures
        exists|answers: Seq<Answer<E>>| expansion(context, pieces(input@), answers, text_of(res)),
        !input@.contains('$') ==> res == Ok::<Cow<'a, str>, LookupError<E>>(Cow::Borrowed(input)),
        res matches Ok(Cow::Borrowed(text)) ==> text@ == input@,
{
    if !has_dollar(input) {
        proof {
            lemma_pieces_plain(input@);
            let ps = pieces(input@);
            let answers: Seq<Answer<E>> = Seq::new(ps.len(), |i: int| Ok(None));
            lemma_output_plain(ps, answers);
            assert forall|i: int| 0 <= i < ps.len() implies (#[trigger] ps[i]) is Text by {}
            assert(output(ps, answers) =~= input@);
            assert(expansion(context, ps, answers, Ok(input@)));
        }
        return Ok(Cow::Borrowed(input));
    }
    let chars = to_chars(input);
    let n = chars.len();
    let mut result = String::new();
    let mut pos: usize = 0;
    let ghost mut done: Seq<Piece> = Seq::empty();
    let ghost mut answers: Seq<Answer<E>> = Seq::empty();
    proof {
        assert(chars@.skip(0) =~= chars@);
    }
    while pos < n
        invariant
            chars@ == input@,
            n == chars.len(),
            pos <= n,
            forall|s: &str| call_requires(context, (s,)),
            pieces(input@) =~= done + pieces(chars@.skip(pos as int)),
            answers.len() == done.len(),
            forall|i: int| 0 <= i < done.len() ==> answered(context, #[trigger] done[i], answers[i]),
            forall|i: int| 0 <= i < done.len() ==> !failed(#[trigger] done[i], answers[i]),
            result@ == output(done, answers),
        decreases n - pos,
    {
        let ghost rest = chars@.skip(pos as int);
        let ghost piece = first_piece(rest).0;
        let ghost taken = first_piece(rest).1;
        proof {
            lemma_first_piece(rest);
            lemma_run_len(rest, Run::Text);
            lemma_run_len(rest, Run::Braced);
            lemma_run_len(rest.skip(1), Run::Name);
            assert(rest[0] == chars@[pos as int]);
            if rest.len() >= 2 {
                assert(rest[1] == chars@[pos + 1]);
            }
            assert(rest.skip(1) =~= chars@.skip(pos + 1));
            assert(chars@.skip(pos + taken) =~= rest.skip(taken as int));
            assert(pieces(rest) == seq![piece] + pieces(rest.skip(taken as int)));
        }
        let ghost old_result = result@;
        let next: usize;
        let ghost answer: Answer<E>;
        if chars[pos] != '$' {
            next = run_end(&chars, pos, Run::Text);
            push_range(&mut result, &chars, pos, next);
            proof {
                answer = Ok(None);
                assert(chars@.subrange(pos as int, next as int) =~= rest.take(taken as int));
            }
        } else if pos + 1 < n && chars[pos + 1] == '{' {
            let close = run_end(&chars, pos, Run::Braced);
            if close < n {
                let name = string_of_range(&chars, pos + 2, close);
                proof {
                    assert(chars@.subrange(pos + 2, close as int) =~= rest.subrange(2, close - pos));
                    assert(chars@.subrange(pos as int, close + 1) =~= rest.take(close - pos + 1));
                }
                match context(name.as_str()) {
                    Ok(Some(value)) => {
                        result.append(value.as_str());
                        proof {
                            answer = Ok(Some(value));
                        }
                    },
                    Ok(None) => {
                        push_range(&mut result, &chars, pos, close + 1);
                        proof {
                            answer = Ok(None);
                        }
                    },
                    Err(cause) => {
                        proof {
                            assert(pieces(input@)[done.len() as int] == piece);
                            lemma_failed_lookup(context, pieces(input@), done, answers, LookupError { name, cause });
                        }
                        return Err(LookupError { name, cause });
                    },
                }
                next = close + 1;
            } else {
                push_range(&mut result, &chars, pos, pos + 2);
                next = pos + 2;
                proof {
                    answer = Ok(None);
                    assert(chars@.subrange(pos as int, pos + 2) =~= rest.take(2));
                }
            }
        } else if pos + 1 < n && is_valid_var_name_char(chars[pos + 1]) {
            let end = run_end(&chars, pos + 1, Run::Name);
            let name = string_of_range(&chars, pos + 1, end);
            proof {
                assert(chars@.subrange(pos + 1, end as int) =~= rest.subrange(1, end - pos));
                assert(chars@.subrange(pos as int, end as int) =~= rest.take(end - pos));
            }
            match context(name.as_str()) {
                Ok(Some(value)) => {
                    result.append(value.as_str());
                    proof {
                        answer = Ok(Some(value));
                    }
                },
                Ok(None) => {
                    push_range(&mut result, &chars, pos, end);
                    proof {
                        answer = Ok(None);
                    }
                },
                Err(cause) => {
                    proof {
                        assert(pieces(input@)[done.len() as int] == piece);
                        lemma_failed_lookup(context, pieces(input@), done, answers, LookupError { name, cause });
                    }
                    return Err(LookupError { name, cause });
                },
            }
            next = end;
        } else {
            result.push('$');
            next = if pos + 1 < n && chars[pos + 1] == '$' {
                pos + 2
            } else {
                pos + 1
            };
            proof {
                answer = Ok(None);
                assert(old_result.push('$') =~= old_result + seq!['$']);
            }
        }
        proof {
            assert(next == pos + taken);
            assert(result@ == old_result + piece_output(piece, answer));
            let done2 = done.push(piece);
            let answers2 = answers.push(answer);
            assert(done2.drop_last() =~= done);
            assert(answers2.drop_last() =~= answers);
            assert(done2 + pieces(chars@.skip(next as int)) =~= done + pieces(rest));
            done = done2;
            answers = answers2;
        }
        pos = next;
    }
    proof {
        assert(pieces(chars@.skip(pos as int)) =~= Seq::<Piece>::empty());
        assert(pieces(input@) =~= done);
        assert(expansion(context, pieces(input@), answers, Ok(result@)));
    }
    Ok(Cow::Owned(result))
}

/// An expansion that has gone through the pieces `done` without failure, and whose
/// next piece is a variable whose lookup failed, ends with that failure.
proof fn lemma_failed_lookup<E, C: Fn(&str) -> Answer<E>>(
    context: C,
    ps: Seq<Piece>,
    done: Seq<Piece>,
    answers: Seq<Answer<E>>,
    err: LookupError<E>,
)
    requires
        done.len() < ps.len(),
        answers.len() == done.len(),
        forall|i: int| 0 <= i < done.len() ==> ps[i] == #[trigger] done[i],
        forall|i: int| 0 <= i < done.len() ==> answered(context, #[trigger] done[i], answers[i]),
        forall|i: int| 0 <= i < done.len() ==> !failed(#[trigger] done[i], answers[i]),
        ps[done.len() as int] matches Piece::Var { name, raw } && name == err.name@,
        answered(context, ps[done.len() as int], Err(err.cause)),
    ensures
        expansion(context, ps, answers.push(Err(err.cause)), Err(err)),
{
    let all = answers.push(Err(err.cause));
    assert forall|i: int| 0 <= i < all.len() implies answered(context, #[trigger] ps[i], all[i]) by {
        if i < done.len() {
            assert(ps[i] == done[i]);
        }
    }
    assert forall|i: int| 0 <= i < all.len() - 1 implies !failed(#[trigger] ps[i], all[i]) by {
        assert(ps[i] == done[i]);
    }
}

/// `v` is what `context` found for the piece `p`; for a text, `None`.
pub open spec fn found<C: Fn(&str) -> Option<String>>(context: C, p: Piece, v: Option<String>) -> bool {
    match p {
        Piece::Var { name, raw } => exists|n: &str| n@ == name && call_ensures(context, (n,), v),
        Piece::Text(_) => v is None,
    }
}

/// `context` may give `v` for the name `s`.
pub open spec fn finds<C: Fn(&str) -> Option<String>>(context: &C, s: &str, v: Option<String>) -> bool {
    call_ensures(*context, (s,), v)
}

/// The values as answers of lookups that cannot fail.
pub open spec fn as_answers(values: Seq<Option<String>>) -> Seq<Answer<()>> {
    Seq::new(values.len(), |i: int| Ok(values[i]))
}

/// `text` is what expanding the pieces `ps` gives when `values[i]` is what `context`
/// found for `ps[i]`.
pub open spec fn plain_expansion<C: Fn(&str) -> Option<String>>(
    context: C,
    ps: Seq<Piece>,
    values: Seq<Option<String>>,
    text: Seq<char>,
) -> bool {
    &&& values.len() == ps.len()
    &&& forall|i: int| 0 <= i < ps.len() ==> found(context, #[trigger] ps[i], values[i])
    &&& text == output(ps, as_answers(values))
}

/// Expands the references to variables in `input` with a lookup that cannot fail.
///
/// A reference whose variable `context` finds is replaced by the value; every other one
/// stays as written. An input without `$` is handed back borrowed.
pub fn env_with_context_no_errors<'a, C>(input: &'a str, context: C) -> (res: Cow<'a, str>)
    where C: Fn(&str) -> Option<String>
    requires
        forall|s: &str| call_requires(context, (s,)),
    ensures
        exists|values: Seq<Option<String>>| plain_expansion(context, pieces(input@), values, res@),
        !input@.contains('$') ==> res == Cow::<'a, str>::Borrowed(input),
{
    let lookup = |s: &str| -> (r: Result<Option<String>, ()>)
        ensures
            r matches Ok(v) && finds(&context, s, v),
        { Ok(context(s)) };
    let expanded = env_with_context(input, lookup);
    proof {
        let answers = choose|answers: Seq<Answer<()>>| expansion(lookup, pieces(input@), answers, text_of(expanded));
        lemma_without_errors(context, lookup, pieces(input@), answers, text_of(expanded));
    }
    match expanded {
        Ok(text) => text,
        Err(_) => vstd::pervasive::unreached(),
    }
}

/// Where every answer of `lookup` is `Ok` of something that `context` finds, an
/// expansion with `lookup` does not fail, and it is the expansion with `context`.
pub proof fn lemma_without_errors<C: Fn(&str) -> Option<String>, L: Fn(&str) -> Answer<()>>(
    context: C,
    lookup: L,
    ps: Seq<Piece>,
    answers: Seq<Answer<()>>,
    res: Result<Seq<char>, LookupError<()>>,
)
    requires
        forall|s: &str, r: Answer<()>| call_ensures(lookup, (s,), r) ==> (r matches Ok(v) && call_ensures(context, (s,), v)),
        expansion(lookup, ps, answers, res),
    ensures
        res matches Ok(text) && plain_expansion(context, ps, Seq::new(ps.len(), |i: int| answers[i]->Ok_0), text),
{
    let values = Seq::new(ps.len(), |i: int| answers[i]->Ok_0);
    assert forall|i: int| 0 <= i < answers.len() implies (#[trigger] answers[i]) is Ok && found(context, ps[i], answers[i]->Ok_0) by {
        assert(answered(lookup, ps[i], answers[i]));
    }
    assert(answers[answers.len() - 1] is Ok || answers.len() == 0);
    assert(as_answers(values) =~= answers);
}

/// An answer as a plain value.
pub open spec fn answer_view<E>(a: Answer<E>) -> Result<Option<Seq<char>>, E> {
    match a {
        Ok(Some(v)) => Ok(Some(v@)),
        Ok(None) => Ok(None),
        Err(e) => Err(e),
    }
}

/// `context` answers as the function `lookup` does: whatever it may give for a name
/// is what `lookup` has for that name.
pub open spec fn answers_as<E, C: Fn(&str) -> Answer<E>>(
    context: C,
    lookup: spec_fn(Seq<char>) -> Result<Option<Seq<char>>, E>,
) -> bool {
    forall|n: &str, a: Answer<E>| call_ensures(context, (n,), a) ==> answer_view(a) == lookup(n@)
}

/// What expanding the pieces `ps` gives when each variable has the answer that the
/// function `lookup` has for its name: the output of the pieces, or the name and the
/// cause of the first lookup that fails.
pub open spec fn expanded<E>(
    ps: Seq<Piece>,
    lookup: spec_fn(Seq<char>) -> Result<Option<Seq<char>>, E>,
) -> Result<Seq<char>, (Seq<char>, E)>
    decreases ps.len(),
{
    if ps.len() == 0 {
        Ok(Seq::empty())
    } else {
        match expanded(ps.drop_last(), lookup) {
            Err(e) => Err(e),
            Ok(text) => match ps.last() {
                Piece::Text(t) => Ok(text + t),
                Piece::Var { name, raw } => match lookup(name) {
                    Ok(Some(v)) => Ok(text + v),
                    Ok(None) => Ok(text + raw),
                    Err(cause) => Err((name, cause)),
                },
            },
        }
    }
}

/// As long as no lookup has failed, `expanded` gives the output so far.
proof fn lemma_expanded_prefix<E, C: Fn(&str) -> Answer<E>>(
    context: C,
    lookup: spec_fn(Seq<char>) -> Result<Option<Seq<char>>, E>,
    ps: Seq<Piece>,
    answers: Seq<Answer<E>>,
    k: int,
)
    requires
        answers_as(context, lookup),
        0 <= k <= answers.len() <= ps.len(),
        forall|i: int| 0 <= i < k ==> answered(context, #[trigger] ps[i], answers[i]),
        forall|i: int| 0 <= i < k ==> !failed(#[trigger] ps[i], answers[i]),
    ensures
        expanded(ps.take(k), lookup) == Ok::<Seq<char>, (Seq<char>, E)>(output(ps.take(k), answers.take(k))),
    decreases k,
{
    if k > 0 {
        lemma_expanded_prefix(context, lookup, ps, answers, k - 1);
        assert(ps.take(k).drop_last() =~= ps.take(k - 1));
        assert(answers.take(k).drop_last() =~= answers.take(k - 1));
        assert(ps.take(k).last() == ps[k - 1]);
        assert(answers.take(k).last() == answers[k - 1]);
        assert(answered(context, ps[k - 1], answers[k - 1]));
        assert(!failed(ps[k - 1], answers[k - 1]));
    }
}

/// A failure among the first `j` pieces is the failure of the whole.
proof fn lemma_expanded_error_stays<E>(
    lookup: spec_fn(Seq<char>) -> Result<Option<Seq<char>>, E>,
    ps: Seq<Piece>,
    j: int,
)
    requires
        0 <= j <= ps.len(),
        expanded(ps.take(j), lookup) is Err,
    ensures
        expanded(ps, lookup) == expanded(ps.take(j), lookup),
    decreases ps.len() - j,
{
    if j < ps.len() {
        assert(ps.take(j + 1).drop_last() =~= ps.take(j));
        lemma_expanded_error_stays(lookup, ps, j + 1);
    } else {
        assert(ps.take(j) =~= ps);
    }
}

/// Where the lookup is a function of the name, the expansion is a function of the
/// input: whatever answers an expansion with `context` went by, its result is what
/// `expanded` gives for the function that `context` answers as.
pub proof fn lemma_expansion_of_function<E, C: Fn(&str) -> Answer<E>>(
    context: C,
    lookup: spec_fn(Seq<char>) -> Result<Option<Seq<char>>, E>,
    ps: Seq<Piece>,
    answers: Seq<Answer<E>>,
    res: Result<Seq<char>, LookupError<E>>,
)
    requires
        answers_as(context, lookup),
        expansion(context, ps, answers, res),
    ensures
        expanded(ps, lookup) == match res {
            Ok(text) => Ok::<Seq<char>, (Seq<char>, E)>(text),
            Err(err) => Err::<Seq<char>, (Seq<char>, E)>((err.name@, err.cause)),
        },
{
    match res {
        Ok(text) => {
            lemma_expanded_prefix(context, lookup, ps, answers, answers.len() as int);
            assert(ps.take(ps.len() as int) =~= ps);
            assert(answers.take(answers.len() as int) =~= answers);
        },
        Err(err) => {
            let k = answers.len() - 1;
            lemma_expanded_prefix(context, lookup, ps, answers, k);
            assert(ps.take(k + 1).drop_last() =~= ps.take(k));
            assert(ps.take(k + 1).last() == ps[k]);
            assert(answered(context, ps[k], answers[k]));
            lemma_expanded_error_stays(lookup, ps, k + 1);
        },
    }
}

/// A text without `$` is one piece, itself; the empty text has none.
pub proof fn lemma_pieces_plain(s: Seq<char>)
    requires
        !s.contains('$'),
    ensures
        pieces(s) == if s.len() == 0 { Seq::<Piece>::empty() } else { seq![Piece::Text(s)] },
{
    if s.len() > 0 {
        assert(s[0] != '$');
        assert forall|i: int| 0 <= i < s.len() implies Run::Text.holds(#[trigger] s[i]) by {
            assert(s.contains(s[i]));
        }
        lemma_run_len_unique(s, Run::Text, s.len());
        assert(s.take(s.len() as int) =~= s);
        assert(s.skip(s.len() as int).len() == 0);
        assert(pieces(s.skip(s.len() as int)) =~= Seq::<Piece>::empty());
        assert(pieces(s) =~= seq![Piece::Text(s)]);
    }
}

/// The output of texts alone is the texts, whatever the answers.
pub proof fn lemma_output_plain<E>(ps: Seq<Piece>, answers: Seq<Answer<E>>)
    requires
        ps.len() == answers.len(),
        ps.len() <= 1,
        forall|i: int| 0 <= i < ps.len() ==> (#[trigger] ps[i]) is Text,
    ensures
        output(ps, answers) == if ps.len() == 0 { Seq::<char>::empty() } else { ps[0]->Text_0 },
{
    if ps.len() == 1 {
        assert(ps.drop_last().len() == 0);
        assert(output(ps.drop_last(), answers.drop_last()) =~= Seq::<char>::empty());
        assert(output(ps, answers) =~= ps[0]->Text_0);
    }
}

} // verus!
