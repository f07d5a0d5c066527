//! Little-endian numbers, prefixes and runs of bytes.
use vstd::prelude::*;

verus! {

/// The `n` lowest base-256 digits of a number, lowest first.
pub open spec fn le_bytes(x: nat, n: nat) -> Seq<u8>
    decreases n,
{
    if n == 0 {
        Seq::empty()
    } else {
        seq![(x % 256) as u8] + le_bytes(x / 256, (n - 1) as nat)
    }
}

/// The number with these base-256 digits, lowest first.
pub open spec fn le_value(s: Seq<u8>) -> nat
    decreases s.len(),
{
    if s.len() == 0 {
        0
    } else {
        s[0] as nat + 256 * le_value(s.subrange(1, s.len() as int))
    }
}

/// Powers of 256.
pub open spec fn pow256(n: nat) -> nat
    decreases n,
{
    if n == 0 {
        1
    } else {
        256 * pow256((n - 1) as nat)
    }
}

/// There are as many digits as asked for.
pub proof fn le_bytes_len(x: nat, n: nat)
    ensures
        le_bytes(x, n).len() == n,
    decreases n,
{
    if n > 0 {
        le_bytes_len(x / 256, (n - 1) as nat);
    }
}

/// A number that fits is read back from its digits.
pub proof fn le_read_back(x: nat, n: nat)
    requires
        x < pow256(n),
    ensures
        le_value(le_bytes(x, n)) == x,
        le_bytes(x, n).len() == n,
    decreases n,
{
    le_bytes_len(x, n);
    if n > 0 {
        let m = (n - 1) as nat;
        assert(x / 256 < pow256(m)) by (nonlinear_arith)
            requires
                x < 256 * pow256(m),
        ;
        le_read_back(x / 256, m);
        let s = le_bytes(x, n);
        assert(s.subrange(1, s.len() as int) =~= le_bytes(x / 256, m));
    }
}

/// Digits are written back from the number they are read as, which they bound.
pub proof fn le_write_back(s: Seq<u8>)
    ensures
        le_bytes(le_value(s), s.len()) == s,
        le_value(s) < pow256(s.len()),
    decreases s.len(),
{
    if s.len() > 0 {
        let rest = s.subrange(1, s.len() as int);
        le_write_back(rest);
        let x = le_value(s);
        assert(x % 256 == s[0] as nat && x / 256 == le_value(rest));
        assert(le_bytes(x, s.len()) =~= s);
    } else {
        assert(le_bytes(0, 0) =~= s);
    }
}

/// Append the `n` lowest digits of a number.
fn put(out: &mut Vec<u8>, x: u64, n: u32)
    ensures
        final(out)@ == old(out)@ + le_bytes(x as nat, n as nat),
{
    let mut rest: u64 = x;
    let mut left: u32 = n;
    while left > 0
        invariant
            old(out)@ + le_bytes(x as nat, n as nat) == out@ + le_bytes(
                rest as nat,
                left as nat,
            ),
        decreases left,
    {
        let ghost before = out@;
        out.push((rest % 256) as u8);
        proof {
            assert(before + le_bytes(rest as nat, left as nat) =~= out@ + le_bytes(
                (rest / 256) as nat,
                (left - 1) as nat,
            ));
        }
        rest = rest / 256;
        left -= 1;
    }
    proof {
        assert(out@ + le_bytes(rest as nat, 0) =~= out@);
    }
}

/// Append a 32-bit number.
pub fn put_u32(out: &mut Vec<u8>, x: u32)
    ensures
        final(out)@ == old(out)@ + le_bytes(x as nat, 4),
{
    put(out, x as u64, 4);
}

/// Append a 64-bit number.
pub fn put_u64(out: &mut Vec<u8>, x: u64)
    ensures
        final(out)@ == old(out)@ + le_bytes(x as nat, 8),
{
    put(out, x, 8);
}

/// Read a number of `n` digits.
fn get(bytes: &[u8], at: usize, n: usize) -> (r: u64)
    requires
        at + n <= bytes@.len(),
        n <= 8,
    ensures
        r == le_value(bytes@.subrange(at as int, at + n)),
        r < pow256(n as nat),
{
    let mut value: u64 = 0;
    let mut left: usize = n;
    proof {
        assert(bytes@.subrange(at + n, at + n) =~= Seq::empty());
        assert(bytes.len() == bytes@.len());
    }
    while left > 0
        invariant
            left <= n <= 8,
            at + n <= bytes@.len() <= usize::MAX,
            value == le_value(bytes@.subrange(at + left, at + n)),
        decreases left,
    {
        left -= 1;
        proof {
            let run = bytes@.subrange(at + left, at + n);
            let rest = bytes@.subrange(at + left + 1, at + n);
            assert(run.subrange(1, run.len() as int) =~= rest);
            le_write_back(run);
            reveal_with_fuel(pow256, 9);
            assert(run.len() <= 8);
            pow256_grows(run.len(), 8);
            assert(run[0] == bytes@[at + left]);
        }
        value = value * 256 + bytes[at + left] as u64;
    }
    proof {
        le_write_back(bytes@.subrange(at as int, at + n));
    }
    value
}

/// Powers of 256 grow.
proof fn pow256_grows(a: nat, b: nat)
    requires
        a <= b,
    ensures
        pow256(a) <= pow256(b),
    decreases b - a,
{
    if a < b {
        pow256_grows(a + 1, b);
        assert(pow256(a + 1) == 256 * pow256(a));
        assert(pow256(a) <= 256 * pow256(a));
    }
}

/// Read a 32-bit number.
pub fn get_u32(bytes: &[u8], at: usize) -> (r: u32)
    requires
        at + 4 <= bytes@.len(),
    ensures
        r == le_value(bytes@.subrange(at as int, at + 4)),
{
    let r: u64 = get(bytes, at, 4);
    proof {
        reveal_with_fuel(pow256, 5);
    }
    r as u32
}

/// Read a 64-bit number.
pub fn get_u64(bytes: &[u8], at: usize) -> (r: u64)
    requires
        at + 8 <= bytes@.len(),
    ensures
        r == le_value(bytes@.subrange(at as int, at + 8)),
{
    get(bytes, at, 8)
}

/// A 32-bit number is read back from its digits.
pub proof fn u32_read_back(x: u32)
    ensures
        le_value(le_bytes(x as nat, 4)) == x,
        le_bytes(x as nat, 4).len() == 4,
{
    reveal_with_fuel(pow256, 5);
    le_read_back(x as nat, 4);
}

/// A 64-bit number is read back from its digits.
pub proof fn u64_read_back(x: u64)
    ensures
        le_value(le_bytes(x as nat, 8)) == x,
        le_bytes(x as nat, 8).len() == 8,
{
    reveal_with_fuel(pow256, 9);
    le_read_back(x as nat, 8);
}

/// Append bytes.
pub fn put_bytes(out: &mut Vec<u8>, bytes: &[u8])
    ensures
        final(out)@ == old(out)@ + bytes@,
{
    let mut i: usize = 0;
    let n: usize = bytes.len();
    proof {
        assert(out@ =~= old(out)@ + bytes@.subrange(0, 0));
    }
    while i < n
        invariant
            i <= n,
            n == bytes@.len(),
            out@ == old(out)@ + bytes@.subrange(0, i as int),
        decreases n - i,
    {
        out.push(bytes[i]);
        i += 1;
        proof {
            assert(out@ =~= old(out)@ + bytes@.subrange(0, i as int));
        }
    }
    proof {
        assert(bytes@.subrange(0, n as int) =~= bytes@);
    }
}

/// The bytes start with a prefix of four.
pub open spec fn tagged(bytes: Seq<u8>, magic: Seq<u8>) -> bool {
    bytes.len() >= 4 && bytes.subrange(0, 4) == magic
}

/// Whether bytes start with four others.
pub fn starts_with(bytes: &[u8], magic: &[u8; 4]) -> (r: bool)
    ensures
        r == tagged(bytes@, magic@),
{
    if bytes.len() < 4 {
        return false;
    }
    let r = bytes[0] == magic[0] && bytes[1] == magic[1] && bytes[2] == magic[2] && bytes[3]
        == magic[3];
    proof {
        if r {
            assert(bytes@.subrange(0, 4) =~= magic@);
        } else {
            assert(bytes@.subrange(0, 4)[0] == bytes@[0]);
            assert(bytes@.subrange(0, 4)[1] == bytes@[1]);
            assert(bytes@.subrange(0, 4)[2] == bytes@[2]);
            assert(bytes@.subrange(0, 4)[3] == bytes@[3]);
        }
    }
    r
}

} // verus!
