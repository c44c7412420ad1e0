use vstd::prelude::*;

verus! {

/// Whether a character beyond ASCII is alphabetic or numeric in the sense of Unicode.
pub uninterp spec fn unicode_alphanumeric(c: char) -> bool;

/// Whether `c` is one of the ASCII letters and digits.
pub open spec fn ascii_alphanumeric(c: char) -> bool {
    ||| 0x30 <= c as u32 <= 0x39
    ||| 0x41 <= c as u32 <= 0x5a
    ||| 0x61 <= c as u32 <= 0x7a
}

/// Whether `c` is alphanumeric as `char::is_alphanumeric` has it: among the ASCII
/// characters the letters and the digits, and beyond them what Unicode counts as
/// alphabetic or numeric.
pub open spec fn char_is_alphanumeric(c: char) -> bool {
    if (c as u32) < 0x80 {
        ascii_alphanumeric(c)
    } else {
        unicode_alphanumeric(c)
    }
}

/// `char::is_alphanumeric` of std: the answer is a fixed property of the character.
/// Among the ASCII characters it holds of the letters and digits and of nothing else;
/// beyond ASCII it is named `unicode_alphanumeric`, and nothing more is claimed of it.
pub assume_specification[ char::is_alphanumeric ](c: char) -> (b: bool)
    ensures
        b == (if (c as u32) < 0x80 {
            ascii_alphanumeric(c)
        } else {
            unicode_alphanumeric(c)
        }),
;

/// `String::push` of std: the character is appended at the end and nothing else changes.
pub assume_specification[ String::push ](s: &mut String, c: char)
    ensures
        final(s)@ == old(s)@.push(c),
;

/// The characters a variable name may hold: alphanumeric ones and the underscore.
pub open spec fn is_var_char(c: char) -> bool {
    char_is_alphanumeric(c) || c == '_'
}

/// Whether `c` may stand in a variable name.
pub fn is_valid_var_name_char(c: char) -> (b: bool)
    ensures
        b == is_var_char(c),
{
    c.is_alphanumeric() || c == '_'
}

/// What a scan over the characters of a text runs over.
#[derive(Clone, Copy, Debug, PartialEq, Eq, Structural)]
pub enum Run {
    /// Everything up to the next `$`.
    Text,
    /// Everything up to the next `}`.
    Braced,
    /// The characters of a variable name.
    Name,
}

impl Run {
    /// Whether a run of this kind goes on over `c`.
    pub open spec fn holds(self, c: char) -> bool {
        match self {
            Run::Text => c != '$',
            Run::Braced => c != '}',
            Run::Name => is_var_char(c),
        }
    }

    /// Whether a run of this kind goes on over `c`.
    fn accepts(self, c: char) -> (b: bool)
        ensures
            b == self.holds(c),
    {
        match self {
            Run::Text => c != '$',
            Run::Braced => c != '}',
            Run::Name => is_valid_var_name_char(c),
        }
    }
}

/// The length of the longest prefix of `s` that a run of kind `run` goes over.
pub open spec fn run_len(s: Seq<char>, run: Run) -> nat
    decreases s.len(),
{
    if s.len() == 0 || !run.holds(s[0]) {
        0
    } else {
        1 + run_len(s.drop_first(), run)
    }
}

/// `run_len` is the one length at which the run stops: every character before
/// it is run over, and the character at it, if there is one, is not.
pub proof fn lemma_run_len(s: Seq<char>, run: Run)
    ensures
        run_len(s, run) <= s.len(),
        forall|i: int| 0 <= i < run_len(s, run) ==> run.holds(#[trigger] s[i]),
        run_len(s, run) < s.len() ==> !run.holds(s[run_len(s, run) as int]),
    decreases s.len(),
{
    if s.len() == 0 || !run.holds(s[0]) {
    } else {
        let t = s.drop_first();
        lemma_run_len(t, run);
        assert forall|i: int| 0 <= i < run_len(s, run) implies run.holds(#[trigger] s[i]) by {
            if i > 0 {
                assert(s[i] == t[i - 1]);
            }
        }
        if run_len(s, run) < s.len() {
            assert(s[run_len(s, run) as int] == t[run_len(t, run) as int]);
        }
    }
}

/// A length at which the run stops in the sense of `lemma_run_len` is `run_len`.
pub proof fn lemma_run_len_unique(s: Seq<char>, run: Run, n: nat)
    requires
        n <= s.len(),
        forall|i: int| 0 <= i < n ==> run.holds(#[trigger] s[i]),
        n < s.len() ==> !run.holds(s[n as int]),
    ensures
        run_len(s, run) == n,
    decreases s.len(),
{
    if s.len() == 0 || !run.holds(s[0]) {
    } else {
        let t = s.drop_first();
        assert forall|i: int| 0 <= i < n - 1 implies run.holds(#[trigger] t[i]) by {
            assert(t[i] == s[i + 1]);
        }
        if n - 1 < t.len() {
            assert(t[n - 1] == s[n as int]);
        }
        lemma_run_len_unique(t, run, (n - 1) as nat);
    }
}

/// The characters of `s`, in order.
pub fn to_chars(s: &str) -> (v: Vec<char>)
    ensures
        v@ == s@,
{
    let mut v: Vec<char> = Vec::new();
    for c in it: s.chars()
        invariant
            it.seq() == s@,
            v@ =~= s@.take(it.index() as int),
    {
        v.push(c);
    }
    v
}

/// The first two characters of `s`, as far as it has them.
pub fn first_two(s: &str) -> (r: (Option<char>, Option<char>))
    ensures
        r.0 == (if s@.len() >= 1 { Some(s@[0]) } else { None }),
        r.1 == (if s@.len() >= 2 { Some(s@[1]) } else { None }),
{
    broadcast use {vstd::string::axiom_spec_iter, vstd::string::next_postcondition};
    let mut it = s.chars();
    let first = it.next();
    let second = it.next();
    (first, second)
}

/// Whether `s` holds a `$`.
pub fn has_dollar(s: &str) -> (b: bool)
    ensures
        b == s@.contains('$'),
{
    let mut found = false;
    for c in it: s.chars()
        invariant
            it.seq() == s@,
            found == s@.take(it.index() as int).contains('$'),
    {
        proof {
            let k = it.index() as int;
            assert(s@.take(k + 1) =~= s@.take(k).push(c));
            if s@.take(k).contains('$') {
                let j = choose|j: int| 0 <= j < k && s@.take(k)[j] == '$';
                assert(s@.take(k + 1)[j] == '$');
            }
            if c == '$' {
                assert(s@.take(k + 1)[k] == '$');
            }
        }
        if c == '$' {
            found = true;
        }
    }
    proof {
        assert(s@.take(s@.len() as int) =~= s@);
    }
    found
}

/// The index at which the run of kind `run` that starts at `from` stops.
pub fn run_end(chars: &Vec<char>, from: usize, run: Run) -> (end: usize)
    requires
        from <= chars.len(),
    ensures
        from <= end <= chars.len(),
        end == from + run_len(chars@.skip(from as int), run),
{
    let mut end = from;
    while end < chars.len() && run.accepts(chars[end])
        invariant
            from <= end <= chars.len(),
            forall|i: int| from <= i < end ==> run.holds(#[trigger] chars@[i]),
        decreases chars.len() - end,
    {
        end += 1;
    }
    proof {
        let tail = chars@.skip(from as int);
        assert forall|i: int| 0 <= i < end - from implies run.holds(#[trigger] tail[i]) by {
            assert(tail[i] == chars@[from + i]);
        }
        lemma_run_len_unique(tail, run, (end - from) as nat);
    }
    end
}

/// Appends the characters of `chars` from `from` up to `to` to `out`.
pub fn push_range(out: &mut String, chars: &Vec<char>, from: usize, to: usize)
    requires
        from <= to <= chars.len(),
    ensures
        final(out)@ == old(out)@ + chars@.subrange(from as int, to as int),
{
    let mut i = from;
    while i < to
        invariant
            from <= i <= to <= chars.len(),
            out@ == old(out)@ + chars@.subrange(from as int, i as int),
        decreases to - i,
    {
        out.push(chars[i]);
        i += 1;
        assert(out@ =~= old(out)@ + chars@.subrange(from as int, i as int));
    }
    assert(out@ =~= old(out)@ + chars@.subrange(from as int, to as int));
}

/// The characters of `chars` from `from` up to `to`, as a string.
pub fn string_of_range(chars: &Vec<char>, from: usize, to: usize) -> (s: String)
    requires
        from <= to <= chars.len(),
    ensures
        s@ == chars@.subrange(from as int, to as int),
{
    let mut s = String::new();
    push_range(&mut s, chars, from, to);
    assert(s@ =~= chars@.subrange(from as int, to as int));
    s
}

} // verus!
