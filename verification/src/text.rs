//! Byte-level text rendering: the exact bytes that `{}` on integers, `{:#010x}`, and the
//! kernel's C-string `Display` produce, plus C-string extraction from fixed-size buffers.
//!
//! All renderers append to a `Vec<u8>` and state the appended bytes through a spec function.

use vstd::prelude::*;
use vstd::string::StringSliceAdditionalSpecFns;

verus! {

/// ASCII code of the decimal digit `d` (`d < 10`).
pub open spec fn dec_digit(d: nat) -> u8 {
    (48 + d) as u8
}

/// ASCII code of the lower-case hexadecimal digit `d` (`d < 16`).
pub open spec fn hex_digit(d: nat) -> u8 {
    if d < 10 {
        (48 + d) as u8
    } else {
        (87 + d) as u8
    }
}

/// Decimal representation of `n`, without leading zeros (what `{}` prints for an unsigned integer).
pub open spec fn dec(n: nat) -> Seq<u8>
    decreases n,
{
    if n < 10 {
        seq![dec_digit(n)]
    } else {
        dec(n / 10).push(dec_digit(n % 10))
    }
}

/// The `k` least significant hexadecimal digits of `n`, most significant first, zero padded.
pub open spec fn hex(n: nat, k: nat) -> Seq<u8>
    decreases k,
{
    if k == 0 {
        Seq::empty()
    } else {
        hex(n / 16, (k - 1) as nat).push(hex_digit(n % 16))
    }
}

/// Hexadecimal representation of `n`, without leading zeros.
pub open spec fn hexs(n: nat) -> Seq<u8>
    decreases n,
{
    if n < 16 {
        seq![hex_digit(n)]
    } else {
        hexs(n / 16).push(hex_digit(n % 16))
    }
}

/// What `{:#010x}` prints for a `u32`: `0x` followed by exactly eight lower-case hex digits.
pub open spec fn hex_u32(n: u32) -> Seq<u8> {
    seq![48u8, 120u8] + hex(n as nat, 8)
}

/// How the C-string `Display` shows one byte: printable ASCII as itself, anything else as `\xNN`.
pub open spec fn escape_byte(c: u8) -> Seq<u8> {
    if 0x20 <= c && c < 0x7f {
        seq![c]
    } else {
        seq![92u8, 120u8] + hex(c as nat, 2)
    }
}

/// How the C-string `Display` shows a whole string.
pub open spec fn escape(s: Seq<u8>) -> Seq<u8>
    decreases s.len(),
{
    if s.len() == 0 {
        Seq::empty()
    } else {
        escape(s.drop_last()) + escape_byte(s.last())
    }
}

/// Every byte of `s` is printable ASCII.
pub open spec fn printable(s: Seq<u8>) -> bool {
    forall|i: int| 0 <= i < s.len() ==> 0x20 <= #[trigger] s[i] && s[i] < 0x7f
}

/// A string of printable ASCII is shown as it is.
pub proof fn lemma_escape_printable(s: Seq<u8>)
    requires
        printable(s),
    ensures
        escape(s) == s,
    decreases s.len(),
{
    if s.len() > 0 {
        assert(printable(s.drop_last()));
        lemma_escape_printable(s.drop_last());
        assert(s.drop_last().push(s.last()) =~= s);
        assert(escape_byte(s.last()) =~= seq![s.last()]);
        assert(escape(s) =~= s);
    } else {
        assert(escape(s) =~= s);
    }
}

/// Index of the first NUL byte of `s` at or after `i`, or `-1` if there is none.
pub open spec fn nul_from(s: Seq<u8>, i: int) -> int
    decreases s.len() - i,
{
    if i < 0 || i >= s.len() {
        -1
    } else if s[i] == 0 {
        i
    } else {
        nul_from(s, i + 1)
    }
}

/// The C string held in a buffer: the bytes before its first NUL, or `None` when the buffer has
/// no NUL at all.
pub open spec fn until_nul(s: Seq<u8>) -> Option<Seq<u8>> {
    let k = nul_from(s, 0);
    if k < 0 {
        None
    } else {
        Some(s.take(k))
    }
}

/// `nul_from` finds a NUL at or after `i` and none in between.
pub proof fn lemma_nul_from(s: Seq<u8>, i: int)
    requires
        0 <= i,
    ensures
        nul_from(s, i) == -1 || (i <= nul_from(s, i) < s.len() && s[nul_from(s, i)] == 0),
        forall|j: int| i <= j < s.len() && (nul_from(s, i) == -1 || j < nul_from(s, i)) ==> s[j] != 0,
    decreases s.len() - i,
{
    if i < s.len() && s[i] != 0 {
        lemma_nul_from(s, i + 1);
    }
}

/// Appends the bytes of a string slice.
pub fn push_str(out: &mut Vec<u8>, s: &str)
    ensures
        final(out)@ == old(out)@ + s.spec_bytes(),
{
    push_bytes(out, s.as_bytes());
}

/// Appends a byte slice.
pub fn push_bytes(out: &mut Vec<u8>, s: &[u8])
    ensures
        final(out)@ == old(out)@ + s@,
{
    let ghost start = out@;
    let mut i: usize = 0;
    while i < s.len()
        invariant
            i <= s@.len(),
            out@ == start + s@.take(i as int),
        decreases s@.len() - i,
    {
        out.push(s[i]);
        i += 1;
        assert(out@ =~= start + s@.take(i as int));
    }
    assert(s@.take(i as int) =~= s@);
}

/// Appends the decimal representation of `n`.
pub fn push_dec(out: &mut Vec<u8>, n: u64)
    ensures
        final(out)@ == old(out)@ + dec(n as nat),
    decreases n,
{
    if n >= 10 {
        push_dec(out, n / 10);
    }
    let d: u8 = (n % 10) as u8;
    out.push(48 + d);
    proof {
        if n >= 10 {
            assert(dec(n as nat) == dec((n / 10) as nat).push(dec_digit((n % 10) as nat)));
        }
    }
    assert(final(out)@ =~= old(out)@ + dec(n as nat)) by {
        if n < 10 {
            assert(dec(n as nat) =~= seq![dec_digit(n as nat)]);
        }
    }
}

/// Appends the `k` least significant hexadecimal digits of `n`, most significant first.
pub fn push_hex(out: &mut Vec<u8>, n: u64, k: u32)
    ensures
        final(out)@ == old(out)@ + hex(n as nat, k as nat),
    decreases k,
{
    if k == 0 {
        assert(old(out)@ + hex(n as nat, 0) =~= old(out)@);
        return;
    }
    push_hex(out, n / 16, k - 1);
    let d: u8 = (n % 16) as u8;
    if d < 10 {
        out.push(48 + d);
    } else {
        out.push(87 + d);
    }
    assert(final(out)@ =~= old(out)@ + hex(n as nat, k as nat));
}

/// Appends the hexadecimal representation of `n`, without leading zeros.
pub fn push_hexs(out: &mut Vec<u8>, n: u64)
    ensures
        final(out)@ == old(out)@ + hexs(n as nat),
    decreases n,
{
    if n >= 16 {
        push_hexs(out, n / 16);
    }
    let d: u8 = (n % 16) as u8;
    if d < 10 {
        out.push(48 + d);
    } else {
        out.push(87 + d);
    }
    assert(final(out)@ =~= old(out)@ + hexs(n as nat)) by {
        if n < 16 {
            assert(hexs(n as nat) =~= seq![hex_digit(n as nat)]);
        }
    }
}

/// Appends `n` the way `{:#010x}` prints it.
pub fn push_hex_u32(out: &mut Vec<u8>, n: u32)
    ensures
        final(out)@ == old(out)@ + hex_u32(n),
{
    out.push(48);
    out.push(120);
    push_hex(out, n as u64, 8);
    assert(final(out)@ =~= old(out)@ + hex_u32(n));
}

/// Appends one byte the way the C-string `Display` shows it.
pub fn push_escaped_byte(out: &mut Vec<u8>, c: u8)
    ensures
        final(out)@ == old(out)@ + escape_byte(c),
{
    if 0x20 <= c && c < 0x7f {
        out.push(c);
        assert(final(out)@ =~= old(out)@ + escape_byte(c));
    } else {
        out.push(92);
        out.push(120);
        push_hex(out, c as u64, 2);
        assert(final(out)@ =~= old(out)@ + escape_byte(c));
    }
}

/// Appends a C string the way its `Display` shows it: printable ASCII verbatim, every other
/// byte as `\xNN`.
pub fn push_escaped(out: &mut Vec<u8>, s: &[u8])
    ensures
        final(out)@ == old(out)@ + escape(s@),
{
    let ghost start = out@;
    let mut i: usize = 0;
    assert(escape(s@.take(0)) =~= Seq::<u8>::empty());
    assert(start + Seq::<u8>::empty() =~= start);
    while i < s.len()
        invariant
            i <= s@.len(),
            out@ == start + escape(s@.take(i as int)),
        decreases s@.len() - i,
    {
        push_escaped_byte(out, s[i]);
        let ghost t = s@.take(i + 1);
        assert(t.drop_last() =~= s@.take(i as int));
        assert(t.last() == s@[i as int]);
        i += 1;
        assert(out@ =~= start + escape(s@.take(i as int)));
    }
    assert(s@.take(i as int) =~= s@);
}

/// Position of the first NUL byte of `s`, if any.
pub fn find_nul(s: &[u8]) -> (r: Option<usize>)
    ensures
        match r {
            Some(k) => nul_from(s@, 0) == k,
            None => nul_from(s@, 0) == -1,
        },
{
    let mut i: usize = 0;
    while i < s.len()
        invariant
            i <= s@.len(),
            nul_from(s@, 0) == nul_from(s@, i as int),
        decreases s@.len() - i,
    {
        if s[i] == 0 {
            return Some(i);
        }
        i += 1;
    }
    None
}

/// The C string held in `s` (its bytes before the first NUL), or `None` when `s` holds no NUL.
pub fn bytes_until_nul(s: &[u8]) -> (r: Option<Vec<u8>>)
    ensures
        match r {
            Some(v) => until_nul(s@) == Some(v@),
            None => until_nul(s@) is None,
        },
{
    match find_nul(s) {
        None => None,
        Some(k) => {
            proof {
                lemma_nul_from(s@, 0);
            }
            let mut v: Vec<u8> = Vec::new();
            let mut i: usize = 0;
            while i < k
                invariant
                    k <= s@.len(),
                    i <= k,
                    v@ == s@.take(i as int),
                decreases k - i,
            {
                v.push(s[i]);
                i += 1;
                assert(v@ =~= s@.take(i as int));
            }
            Some(v)
        },
    }
}

} // verus!
