//! UTF-16 strings as the Win32 wide-character APIs take them.

use vstd::prelude::*;

verus! {

/// A buffer of UTF-16 code units.
#[derive(Debug, Clone, PartialEq, Eq)]
pub struct WideString(pub Vec<u16>);

impl View for WideString {
    type V = Seq<u16>;

    open spec fn view(&self) -> Seq<u16> {
        self.0@
    }
}

/// The contents of a fixed-size buffer of `n` units filled from `s`: the first
/// `n - 1` units of `s` (or all of it, padded with zeros), then a NUL.
pub open spec fn fixed_buffer(s: Seq<u16>, n: nat) -> Seq<u16> {
    Seq::new(n, |i: int| if i < n - 1 && i < s.len() { s[i] } else { 0u16 })
}

impl WideString {
    /// Copies the string into an array of `N` units, cutting it to `N - 1`
    /// units if it is longer and padding it with zeros if it is shorter; the
    /// last unit is always a NUL.
    pub fn to_array<const N: usize>(&self) -> (res: [u16; N])
        requires
            N >= 1,
        ensures
            res@ == fixed_buffer(self@, N as nat),
    {
        let mut res: [u16; N] = [0u16; N];
        let len: usize = if self.0.len() < N - 1 { self.0.len() } else { N - 1 };
        let mut i: usize = 0;
        while i < len
            invariant
                N >= 1,
                len <= N - 1,
                len <= self@.len(),
                len == self@.len() || len == N - 1,
                0 <= i <= len,
                res@.len() == N,
                forall|j: int| 0 <= j < i ==> res@[j] == self@[j],
                forall|j: int| i <= j < N ==> res@[j] == 0u16,
            decreases len - i,
        {
            res[i] = self.0[i];
            i = i + 1;
        }
        assert(res@ =~= fixed_buffer(self@, N as nat));
        res
    }
}

/// The character lies in the Basic Multilingual Plane, which UTF-16 encodes
/// in a single unit.
pub open spec fn in_bmp(c: char) -> bool {
    (c as u32) < 0x10000
}

/// The UTF-16 code units of one character: a single unit for a character of
/// the Basic Multilingual Plane, a surrogate pair for any other.
pub open spec fn utf16_of_char(c: char) -> Seq<u16> {
    let v = c as u32;
    if in_bmp(c) {
        seq![v as u16]
    } else {
        let u = (v - 0x10000) as u32;
        seq![(0xD800 + u / 0x400) as u16, (0xDC00 + u % 0x400) as u16]
    }
}

/// The UTF-16 encoding of a sequence of characters.
pub open spec fn utf16_encode(s: Seq<char>) -> Seq<u16>
    decreases s.len(),
{
    if s.len() == 0 {
        Seq::empty()
    } else {
        utf16_encode(s.drop_last()) + utf16_of_char(s.last())
    }
}

/// The NUL-terminated UTF-16 form of a string.
pub open spec fn wide_of(s: Seq<char>) -> Seq<u16> {
    utf16_encode(s).push(0u16)
}

/// Conversion to a NUL-terminated UTF-16 string.
pub trait ToWide {
    /// The units that `to_wide` gives for this value.
    spec fn wide_view(&self) -> Seq<u16>;

    fn to_wide(&self) -> (res: WideString)
        ensures
            res@ == self.wide_view(),
    ;
}

/// Appends the UTF-16 units of `c` to `out`.
fn push_utf16(out: &mut Vec<u16>, c: char)
    ensures
        final(out)@ == old(out)@ + utf16_of_char(c),
{
    let v: u32 = c as u32;
    if v < 0x10000 {
        out.push(v as u16);
    } else {
        let u: u32 = v - 0x10000;
        out.push((0xD800 + u / 0x400) as u16);
        out.push((0xDC00 + u % 0x400) as u16);
    }
}

impl ToWide for &str {
    open spec fn wide_view(&self) -> Seq<u16> {
        wide_of(self@)
    }

    fn to_wide(&self) -> (res: WideString) {
        let mut out: Vec<u16> = Vec::new();
        for c in it: self.chars()
            invariant
                it.seq() == self@,
                out@ == utf16_encode(self@.take(it.index() as int)),
        {
            proof {
                assert(self@.take(it.index() + 1).drop_last() =~= self@.take(it.index() as int));
            }
            push_utf16(&mut out, c);
        }
        assert(self@.take(self@.len() as int) =~= self@);
        out.push(0u16);
        WideString(out)
    }
}

/// A high (leading) surrogate unit.
pub open spec fn is_high_surrogate(u: u16) -> bool {
    0xD800 <= u <= 0xDBFF
}

/// A low (trailing) surrogate unit.
pub open spec fn is_low_surrogate(u: u16) -> bool {
    0xDC00 <= u <= 0xDFFF
}

/// The character that a surrogate pair stands for.
pub open spec fn surrogate_pair_char(hi: u16, lo: u16) -> char {
    ((hi - 0xD800) * 0x400 + (lo - 0xDC00) + 0x10000) as char
}

/// The characters that a sequence of UTF-16 units stands for, read from the
/// end: a low surrogate after a high one is a pair, any other unit a
/// character of its own. On well-formed UTF-16 this is the same as reading
/// from the start, since a pair cannot be split another way.
pub open spec fn utf16_decode(u: Seq<u16>) -> Seq<char>
    decreases u.len(),
{
    if u.len() == 0 {
        Seq::empty()
    } else if u.len() >= 2 && is_high_surrogate(u[u.len() - 2]) && is_low_surrogate(u.last()) {
        utf16_decode(u.take(u.len() - 2)).push(surrogate_pair_char(u[u.len() - 2], u.last()))
    } else {
        utf16_decode(u.drop_last()).push(u.last() as char)
    }
}

/// The units of one character decode back to that character after any
/// encoded prefix.
proof fn lemma_decode_after_char(e: Seq<u16>, c: char)
    ensures
        utf16_decode(e + utf16_of_char(c)) == utf16_decode(e).push(c),
{
    let v = c as u32;
    let w = e + utf16_of_char(c);
    if in_bmp(c) {
        assert(!(0xD800 <= v <= 0xDFFF));
        assert(w.drop_last() =~= e);
        assert(w.last() == v as u16);
        assert((v as u16) as char == c);
    } else {
        let u = (v - 0x10000) as u32;
        assert(v <= 0x10FFFF);
        assert(u / 0x400 < 0x400);
        let hi = (0xD800 + u / 0x400) as u16;
        let lo = (0xDC00 + u % 0x400) as u16;
        assert(w.take(w.len() - 2) =~= e);
        assert(w[w.len() - 2] == hi && w.last() == lo);
        assert((hi - 0xD800) * 0x400 + (lo - 0xDC00) + 0x10000 == v) by (nonlinear_arith)
            requires
                hi == 0xD800 + u / 0x400,
                lo == 0xDC00 + u % 0x400,
                u == v - 0x10000,
        ;
        assert(surrogate_pair_char(hi, lo) == c);
    }
}

/// A character of the Basic Multilingual Plane is the one unit holding its
/// code point; any other character is a high surrogate followed by a low
/// surrogate, which together carry its code point.
pub proof fn lemma_utf16_of_char_shape(c: char)
    ensures
        (c as u32) < 0x10000 ==> utf16_of_char(c) == seq![c as u32 as u16] && (c as u32 as u16)
            == c as u32,
        (c as u32) >= 0x10000 ==> utf16_of_char(c).len() == 2 && is_high_surrogate(
            utf16_of_char(c)[0],
        ) && is_low_surrogate(utf16_of_char(c)[1]) && (utf16_of_char(c)[0] - 0xD800) * 0x400 + (
        utf16_of_char(c)[1] - 0xDC00) + 0x10000 == c as u32,
{
    let v = c as u32;
    if v >= 0x10000 {
        let u = (v - 0x10000) as u32;
        assert(v <= 0x10FFFF);
        assert(u / 0x400 < 0x400);
        let hi = (0xD800 + u / 0x400) as u16;
        let lo = (0xDC00 + u % 0x400) as u16;
        assert((hi - 0xD800) * 0x400 + (lo - 0xDC00) + 0x10000 == v) by (nonlinear_arith)
            requires
                hi == 0xD800 + u / 0x400,
                lo == 0xDC00 + u % 0x400,
                u == v - 0x10000,
        ;
    }
}

/// Dropping the NUL from the wide form of a string and decoding what is left
/// gives back the string, interior NULs included.
pub proof fn lemma_utf16_round_trip(s: Seq<char>)
    ensures
        wide_of(s).drop_last() == utf16_encode(s),
        utf16_decode(wide_of(s).drop_last()) == s,
    decreases s.len(),
{
    assert(wide_of(s).drop_last() =~= utf16_encode(s));
    if s.len() > 0 {
        lemma_utf16_round_trip(s.drop_last());
        lemma_decode_after_char(utf16_encode(s.drop_last()), s.last());
        assert(s.drop_last().push(s.last()) =~= s);
    }
}

/// A fixed-size buffer filled from any string ends with a NUL, and a string
/// that fits, NUL included, is kept whole with zeros after it.
pub proof fn lemma_fixed_buffer_terminated(s: Seq<u16>, n: nat)
    requires
        n >= 1,
    ensures
        fixed_buffer(s, n).len() == n,
        fixed_buffer(s, n)[n - 1] == 0u16,
        s.len() < n ==> fixed_buffer(s, n).take(s.len() as int) == s,
        s.len() < n ==> forall|i: int| s.len() <= i < n ==> #[trigger] fixed_buffer(s, n)[i] == 0u16,
        s.len() >= n ==> fixed_buffer(s, n).take(n - 1) == s.take(n - 1),
{
    if s.len() < n {
        assert(fixed_buffer(s, n).take(s.len() as int) =~= s);
    } else {
        assert(fixed_buffer(s, n).take(n - 1) =~= s.take(n - 1));
    }
}

/// The NUL-terminated UTF-16 form of a string ends with its only guaranteed
/// NUL, after the units of every character; a string of characters from the
/// Basic Multilingual Plane takes one unit per character.
pub proof fn lemma_wide_of_shape(s: Seq<char>)
    ensures
        wide_of(s).len() == utf16_encode(s).len() + 1,
        wide_of(s).last() == 0u16,
        s.len() <= utf16_encode(s).len() <= 2 * s.len(),
        (forall|i: int| 0 <= i < s.len() ==> in_bmp(#[trigger] s[i])) ==> utf16_encode(s).len() == s.len(),
    decreases s.len(),
{
    if s.len() > 0 {
        lemma_wide_of_shape(s.drop_last());
        if forall|i: int| 0 <= i < s.len() ==> in_bmp(#[trigger] s[i]) {
            assert forall|i: int| 0 <= i < s.drop_last().len() implies in_bmp(
                #[trigger] s.drop_last()[i],
            ) by {
                assert(s.drop_last()[i] == s[i]);
            }
            assert(in_bmp(s[s.len() - 1]));
        }
    }
}

} // verus!
