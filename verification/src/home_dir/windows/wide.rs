use vstd::prelude::*;

verus! {

/// The 16-bit units that stand for one character in UTF-16: the character itself
/// where it is below U+10000, and a pair of surrogates where it is not.
pub open spec fn utf16_units(c: char) -> Seq<u16> {
    let v = c as u32;
    if v < 0x10000 {
        seq![v as u16]
    } else {
        seq![(0xd800 + (v - 0x10000) / 0x400) as u16, (0xdc00 + (v - 0x10000) % 0x400) as u16]
    }
}

/// The 16-bit units that stand for a text in UTF-16: those of its characters, in order.
pub open spec fn utf16_of(text: Seq<char>) -> Seq<u16>
    decreases text.len(),
{
    if text.len() == 0 {
        Seq::empty()
    } else {
        utf16_units(text[0]) + utf16_of(text.drop_first())
    }
}

/// `str::encode_utf16` of std, collected: the units of the text in UTF-16.
#[verifier::external_body]
pub(crate) fn encode_utf16(text: &str) -> (units: Vec<u16>)
    ensures
        units@ == utf16_of(text@),
{
    text.encode_utf16().collect()
}

/// A character below U+10000 is one unit that is no surrogate; any other is a high
/// surrogate followed by a low one. Either way the units give the character back.
pub proof fn lemma_utf16_units(c: char)
    ensures
        (c as u32) < 0x10000 ==> {
            &&& utf16_units(c).len() == 1
            &&& utf16_units(c)[0] == c as u32
            &&& !(0xd800 <= utf16_units(c)[0] <= 0xdfff)
        },
        (c as u32) >= 0x10000 ==> {
            &&& utf16_units(c).len() == 2
            &&& 0xd800 <= utf16_units(c)[0] <= 0xdbff
            &&& 0xdc00 <= utf16_units(c)[1] <= 0xdfff
            &&& c as u32 == 0x10000 + (utf16_units(c)[0] - 0xd800) * 0x400 + (utf16_units(c)[1] - 0xdc00)
        },
{
}

/// Different texts have different units: the units of a text say what the text is.
pub proof fn lemma_utf16_injective(a: Seq<char>, b: Seq<char>)
    requires
        utf16_of(a) == utf16_of(b),
    ensures
        a == b,
    decreases a.len(),
{
    if a.len() == 0 {
        if b.len() > 0 {
            lemma_utf16_units(b[0]);
            assert(utf16_of(b).len() > 0);
        }
        assert(a =~= b);
    } else if b.len() == 0 {
        lemma_utf16_units(a[0]);
        assert(utf16_of(a).len() > 0);
    } else {
        let ua = utf16_units(a[0]);
        let ub = utf16_units(b[0]);
        let ra = utf16_of(a.drop_first());
        let rb = utf16_of(b.drop_first());
        lemma_utf16_units(a[0]);
        lemma_utf16_units(b[0]);
        assert((ua + ra)[0] == ua[0]);
        assert((ub + rb)[0] == ub[0]);
        if (a[0] as u32) >= 0x10000 {
            assert((ua + ra)[1] == ua[1]);
            assert((ub + rb)[1] == ub[1]);
        }
        assert(a[0] as u32 == b[0] as u32);
        vstd::utf8::char_u32_cast(a[0], a[0] as u32);
        vstd::utf8::char_u32_cast(b[0], a[0] as u32);
        assert(ra =~= (ua + ra).skip(ua.len() as int));
        assert(rb =~= (ub + rb).skip(ub.len() as int));
        lemma_utf16_injective(a.drop_first(), b.drop_first());
        assert(a =~= seq![a[0]] + a.drop_first());
        assert(b =~= seq![b[0]] + b.drop_first());
    }
}

} // verus!
