use vstd::prelude::*;

verus! {

/// The UTF-16 code units of one character: one unit for a character of the
/// Basic Multilingual Plane, else a surrogate pair.
pub open spec fn utf16_of_char(c: char) -> Seq<u16> {
    let v = c as int;
    if v < 0x10000 {
        seq![v as u16]
    } else {
        seq![(0xD800 + (v - 0x10000) / 0x400) as u16, (0xDC00 + (v - 0x10000) % 0x400) as u16]
    }
}

/// The UTF-16 encoding of a string.
pub open spec fn utf16(s: Seq<char>) -> Seq<u16>
    decreases s.len(),
{
    if s.len() == 0 {
        seq![]
    } else {
        utf16(s.drop_last()) + utf16_of_char(s.last())
    }
}

/// Appends the UTF-16 code units of `c` to `out`.
fn push_utf16(out: &mut Vec<u16>, c: char)
    ensures
        final(out)@ == old(out)@ + utf16_of_char(c),
{
    let v: u32 = c as u32;
    if v < 0x10000 {
        out.push(v as u16);
    } else {
        let w: u32 = v - 0x10000;
        out.push((0xD800 + w / 0x400) as u16);
        out.push((0xDC00 + w % 0x400) as u16);
    }
}

/// The string as UTF-16 code units.
pub fn to_wide(s: &str) -> (r: Vec<u16>)
    ensures
        r@ == utf16(s@),
{
    broadcast use vstd::string::axiom_spec_iter;
    let mut out: Vec<u16> = Vec::new();
    for c in it: s.chars()
        invariant
            it.seq() == s@,
            out@ == utf16(s@.take(it.index())),
    {
        proof {
            let k = it.index();
            assert(s@.take(k + 1).drop_last() =~= s@.take(k));
            assert(s@.take(k + 1).last() == c);
        }
        push_utf16(&mut out, c);
    }
    proof {
        assert(s@.take(s@.len() as int) =~= s@);
    }
    out
}

/// The string as a NUL-terminated UTF-16 string, as the wide Win32 calls take it.
pub fn to_wide_null(s: &str) -> (r: Vec<u16>)
    ensures
        r@ == utf16(s@).push(0u16),
{
    let mut out = to_wide(s);
    out.push(0);
    out
}

/// Encoding a concatenation encodes each part in turn.
pub proof fn lemma_utf16_concat(a: Seq<char>, b: Seq<char>)
    ensures
        utf16(a + b) == utf16(a) + utf16(b),
    decreases b.len(),
{
    if b.len() == 0 {
        assert(a + b =~= a);
        assert(utf16(a) + utf16(b) =~= utf16(a));
    } else {
        lemma_utf16_concat(a, b.drop_last());
        assert((a + b).drop_last() =~= a + b.drop_last());
        assert((a + b).last() == b.last());
        assert(utf16(a) + utf16(b) =~= utf16(a) + utf16(b.drop_last()) + utf16_of_char(b.last()));
    }
}

/// A string whose characters all lie in the Basic Multilingual Plane (such as
/// any ASCII text) encodes to one code unit per character, equal to the
/// character's code point; any string encodes to at least one and at most two
/// units per character.
pub proof fn lemma_utf16_units(s: Seq<char>)
    ensures
        s.len() <= utf16(s).len() <= 2 * s.len(),
        (forall|i: int| 0 <= i < s.len() ==> (#[trigger] s[i] as int) < 0x10000) ==> {
            &&& utf16(s).len() == s.len()
            &&& forall|i: int| 0 <= i < s.len() ==> #[trigger] utf16(s)[i] == s[i] as u16
        },
    decreases s.len(),
{
    if s.len() > 0 {
        let p = s.drop_last();
        lemma_utf16_units(p);
        if forall|i: int| 0 <= i < s.len() ==> (#[trigger] s[i] as int) < 0x10000 {
            assert forall|i: int| 0 <= i < p.len() implies (#[trigger] p[i] as int) < 0x10000 by {
                assert(p[i] == s[i]);
            }
            assert forall|i: int| 0 <= i < s.len() implies #[trigger] utf16(s)[i] == s[i] as u16 by {
                if i < p.len() {
                    assert(p[i] == s[i]);
                } else {
                    assert(s.last() == s[i]);
                }
            }
        }
    }
}


/// A character outside the Basic Multilingual Plane becomes a high surrogate
/// followed by a low surrogate, from which the character's code point is
/// recovered; a character inside it is its own single code unit.
pub proof fn lemma_utf16_of_char_decodes(c: char)
    ensures
        (c as int) < 0x10000 ==> utf16_of_char(c) =~= seq![c as u16],
        (c as int) >= 0x10000 ==> {
            let u = utf16_of_char(c);
            &&& u.len() == 2
            &&& 0xD800 <= u[0] < 0xDC00
            &&& 0xDC00 <= u[1] < 0xE000
            &&& (u[0] - 0xD800) * 0x400 + (u[1] - 0xDC00) + 0x10000 == c as int
        },
{
    let v = c as int;
    if v >= 0x10000 {
        assert(v <= 0x10FFFF);
        let w = v - 0x10000;
        assert(w == (w / 0x400) * 0x400 + w % 0x400) by (nonlinear_arith);
        assert(0 <= w / 0x400 < 0x400) by (nonlinear_arith)
            requires
                0 <= w < 0x100000,
        ;
    }
}

} // verus!
