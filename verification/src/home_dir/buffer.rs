use vstd::prelude::*;

verus! {

/// A scratch buffer for the answers of native calls: units that are kept from call to
/// call, so that the buffer only grows.
pub struct ScratchBuffer<T> {
    pub units: Vec<T>,
}

impl<T: Copy> ScratchBuffer<T> {
    /// A buffer of `len` units, each of them `fill`.
    pub fn new(len: usize, fill: T) -> (buf: Self)
        ensures
            buf.units@ == Seq::new(len as nat, |i: int| fill),
    {
        let mut buf = ScratchBuffer { units: Vec::new() };
        buf.grow_to(len, fill);
        assert(buf.units@ =~= Seq::new(len as nat, |i: int| fill));
        buf
    }

    /// The number of units the buffer holds.
    pub fn len(&self) -> (n: usize)
        ensures
            n == self.units@.len(),
    {
        self.units.len()
    }

    /// Makes the buffer at least `len` units long. What it held stays where it was,
    /// new units are `fill`, and a buffer that is long enough is left as it is.
    pub fn grow_to(&mut self, len: usize, fill: T)
        ensures
            final(self).units@.len() == if old(self).units@.len() < len { len as nat } else { old(self).units@.len() },
            final(self).units@.take(old(self).units@.len() as int) == old(self).units@,
            forall|i: int| old(self).units@.len() <= i < final(self).units@.len() ==> final(self).units@[i] == fill,
    {
        let ghost before = self.units@;
        while self.units.len() < len
            invariant
                before.len() <= self.units@.len(),
                self.units@.len() <= len || self.units@.len() == before.len(),
                self.units@.take(before.len() as int) =~= before,
                forall|i: int| before.len() <= i < self.units@.len() ==> self.units@[i] == fill,
            decreases len - self.units@.len(),
        {
            self.units.push(fill);
        }
    }
}

/// The size that a buffer of `capacity` units is given when it proved too small and
/// the system did not say what it needs: twice the size, and one unit for an empty one.
pub open spec fn doubled(capacity: nat) -> nat {
    if capacity == 0 {
        1
    } else {
        2 * capacity
    }
}

/// The doubled size of a buffer, or `None` where no buffer can be that large.
pub fn double_capacity(capacity: usize) -> (grown: Option<usize>)
    ensures
        grown == (if doubled(capacity as nat) <= usize::MAX { Some(doubled(capacity as nat) as usize) } else { None }),
        grown matches Some(n) ==> n > capacity,
{
    if capacity == 0 {
        Some(1)
    } else {
        capacity.checked_mul(2)
    }
}

/// The bytes of `s` followed by one NUL: the form in which native calls take a name.
pub open spec fn nul_terminated(s: Seq<char>) -> Seq<u8> {
    vstd::utf8::encode_utf8(s).push(0u8)
}

/// Fills `dst` with the bytes of `src` and a terminating NUL, whatever it held.
pub fn copy_into_buffer(src: &str, dst: &mut Vec<u8>)
    ensures
        final(dst)@ == nul_terminated(src@),
{
    dst.clear();
    dst.extend_from_slice(src.as_bytes());
    dst.push(0u8);
}

/// The index of the first unit of `s` that is `zero`, or the length where none is.
pub open spec fn terminator<T>(s: Seq<T>, zero: T) -> nat
    decreases s.len(),
{
    if s.len() == 0 || s[0] == zero {
        0
    } else {
        1 + terminator(s.drop_first(), zero)
    }
}

/// `terminator` is the one index in range before which no unit is `zero` and at
/// which, unless it is the length, one is.
pub proof fn lemma_terminator<T>(s: Seq<T>, zero: T, n: nat)
    requires
        n <= s.len(),
        forall|i: int| 0 <= i < n ==> #[trigger] s[i] != zero,
        n < s.len() ==> s[n as int] == zero,
    ensures
        terminator(s, zero) == n,
    decreases s.len(),
{
    if s.len() == 0 || s[0] == zero {
    } else {
        let t = s.drop_first();
        assert forall|i: int| 0 <= i < n - 1 implies #[trigger] t[i] != zero by {
            assert(t[i] == s[i + 1]);
        }
        if n - 1 < t.len() {
            assert(t[n - 1] == s[n as int]);
        }
        lemma_terminator(t, zero, (n - 1) as nat);
    }
}

/// What a buffer of bytes holds before its first NUL, or `None` where it holds no NUL.
pub open spec fn c_string(buf: Seq<u8>) -> Option<Seq<u8>> {
    if terminator(buf, 0u8) < buf.len() {
        Some(buf.take(terminator(buf, 0u8) as int))
    } else {
        None
    }
}

/// What a buffer of 16-bit units holds before its first NUL, or `None` where it
/// holds no NUL.
pub open spec fn wide_c_string(buf: Seq<u16>) -> Option<Seq<u16>> {
    if terminator(buf, 0u16) < buf.len() {
        Some(buf.take(terminator(buf, 0u16) as int))
    } else {
        None
    }
}

/// The first `len` units of `buf`.
pub fn prefix<T: Copy>(buf: &[T], len: usize) -> (head: Vec<T>)
    requires
        len <= buf@.len(),
    ensures
        head@ == buf@.take(len as int),
{
    let mut head: Vec<T> = Vec::new();
    let mut i: usize = 0;
    while i < len
        invariant
            i <= len <= buf@.len(),
            head@ =~= buf@.take(i as int),
        decreases len - i,
    {
        head.push(buf[i]);
        i += 1;
    }
    head
}

/// The bytes that `buf` holds before its first NUL.
pub fn bytes_until_nul(buf: &[u8]) -> (text: Option<Vec<u8>>)
    ensures
        match text {
            Some(t) => c_string(buf@) == Some(t@),
            None => c_string(buf@) is None,
        },
{
    let mut i: usize = 0;
    while i < buf.len() && buf[i] != 0u8
        invariant
            i <= buf@.len(),
            forall|j: int| 0 <= j < i ==> #[trigger] buf@[j] != 0u8,
        decreases buf@.len() - i,
    {
        i += 1;
    }
    proof {
        lemma_terminator(buf@, 0u8, i as nat);
    }
    if i < buf.len() {
        Some(prefix(buf, i))
    } else {
        None
    }
}

/// The units that `buf` holds before its first NUL.
pub fn units_until_nul(buf: &[u16]) -> (text: Option<Vec<u16>>)
    ensures
        match text {
            Some(t) => wide_c_string(buf@) == Some(t@),
            None => wide_c_string(buf@) is None,
        },
{
    let mut i: usize = 0;
    while i < buf.len() && buf[i] != 0u16
        invariant
            i <= buf@.len(),
            forall|j: int| 0 <= j < i ==> #[trigger] buf@[j] != 0u16,
        decreases buf@.len() - i,
    {
        i += 1;
    }
    proof {
        lemma_terminator(buf@, 0u16, i as nat);
    }
    if i < buf.len() {
        Some(prefix(buf, i))
    } else {
        None
    }
}

} // verus!
