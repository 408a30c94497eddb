//! The 64-bit perceptual fingerprint: packing the per-coefficient threshold
//! bits into eight bytes, and its hexadecimal form.
//!
//! The bits themselves come from comparing the low-frequency block of a
//! 32×32 cosine transform with its median; that floating-point stage runs
//! outside this library and hands over one `bool` per coefficient.

use vstd::prelude::*;

verus! {

/// Bit `i` of a fingerprint: byte `i / 8`, bit `7 - i % 8` (most significant
/// bit first).
pub open spec fn bit_at(bytes: Seq<u8>, i: int) -> bool {
    byte_bit(bytes[i / 8], i % 8)
}

/// Bit `k` of a byte, counting from the most significant bit.
pub open spec fn byte_bit(b: u8, k: int) -> bool {
    (b >> ((7 - k) as u8)) & 1u8 == 1u8
}

proof fn lemma_shift_in(acc: u8, x: u8, s: u8)
    requires
        acc >> 7u8 == 0,
        x <= 1,
        s < 7,
    ensures
        (((acc << 1u8) | x) >> ((s + 1) as u8)) & 1u8 == (acc >> s) & 1u8,
        (((acc << 1u8) | x) >> 0u8) & 1u8 == x,
{
    assert((((acc << 1u8) | x) >> ((s + 1) as u8)) & 1u8 == (acc >> s) & 1u8
        && (((acc << 1u8) | x) >> 0u8) & 1u8 == x) by (bit_vector)
        requires
            acc >> 7u8 == 0,
            x <= 1,
            s < 7,
    ;
}

proof fn lemma_shift_bound(acc: u8, x: u8, k: u8)
    requires
        k <= 7,
        acc >> k == 0,
        x <= 1,
    ensures
        k < 7 ==> ((acc << 1u8) | x) >> ((k + 1) as u8) == 0,
        acc >> 7u8 == 0,
{
    assert((k < 7 ==> ((acc << 1u8) | x) >> ((k + 1) as u8) == 0) && acc >> 7u8 == 0) by (bit_vector)
        requires
            k <= 7,
            acc >> k == 0,
            x <= 1,
    ;
}

/// Packs eight bits, first bit into the most significant position.
fn pack_byte(bits: &[bool], start: usize) -> (b: u8)
    requires
        start + 8 <= bits@.len(),
    ensures
        forall|k: int| 0 <= k < 8 ==> #[trigger] byte_bit(b, k) == bits@[start + k],
{
    let len = bits.len();
    let mut acc: u8 = 0;
    let mut k: usize = 0;
    assert(0u8 >> 0u8 == 0u8) by (bit_vector);
    while k < 8
        invariant
            k <= 8,
            len == bits@.len(),
            start + 8 <= bits@.len(),
            k < 8 ==> acc >> (k as u8) == 0,
            forall|m: int|
                0 <= m < k ==> #[trigger] byte_bit(acc, 8 - k + m) == bits@[start + m],
        decreases 8 - k,
    {
        let x: u8 = if bits[start + k] {
            1
        } else {
            0
        };
        let next = (acc << 1u8) | x;
        proof {
            lemma_shift_bound(acc, x, k as u8);
            assert forall|m: int| 0 <= m < k + 1 implies #[trigger] byte_bit(next, 8 - (k + 1) + m)
                == bits@[start + m] by {
                if m < k {
                    lemma_shift_in(acc, x, (k - 1 - m) as u8);
                    assert(byte_bit(acc, 8 - k + m) == bits@[start + m]);
                } else {
                    lemma_shift_in(acc, x, 0);
                }
            }
        }
        acc = next;
        k = k + 1;
    }
    assert forall|j: int| 0 <= j < 8 implies #[trigger] byte_bit(acc, j) == bits@[start + j] by {
        assert(byte_bit(acc, 8 - k + j) == bits@[start + j]);
    }
    acc
}

/// Packs 64 threshold bits into the 8-byte fingerprint: bit `i` goes to byte
/// `i / 8` at bit position `7 - i % 8`.
pub fn pack_bits(bits: &[bool]) -> (r: [u8; 8])
    requires
        bits@.len() == 64,
    ensures
        forall|i: int| 0 <= i < 64 ==> bit_at(r@, i) == bits@[i],
{
    let mut r = [0u8; 8];
    let mut j: usize = 0;
    while j < 8
        invariant
            j <= 8,
            bits@.len() == 64,
            forall|i: int| 0 <= i < 8 * j ==> bit_at(r@, i) == bits@[i],
        decreases 8 - j,
    {
        let b = pack_byte(bits, 8 * j);
        r[j] = b;
        proof {
            assert forall|i: int| 0 <= i < 8 * (j + 1) implies bit_at(r@, i) == bits@[i] by {
                if i >= 8 * j {
                    let k = i - 8 * j;
                    assert(i / 8 == j && i % 8 == k);
                }
            }
        }
        j = j + 1;
    }
    r
}

/// The lowercase hexadecimal digit for `n < 16`.
pub open spec fn hex_digit(n: u8) -> char {
    seq!['0', '1', '2', '3', '4', '5', '6', '7', '8', '9', 'a', 'b', 'c', 'd', 'e', 'f'][n as int]
}

/// Two lowercase hexadecimal digits per byte, high nibble first.
pub open spec fn hex_text(b: Seq<u8>) -> Seq<char> {
    Seq::new(
        2 * b.len(),
        |i: int|
            if i % 2 == 0 {
                hex_digit(b[i / 2] / 16)
            } else {
                hex_digit(b[i / 2] % 16)
            },
    )
}

/// Relies on `hex::encode`: two lowercase hexadecimal digits per byte, high
/// nibble first.
#[verifier::external_body]
pub(crate) fn hex_encode(data: &[u8]) -> (r: String)
    ensures
        r@ == hex_text(data@),
{
    hex::encode(data)
}

/// The fingerprint in hexadecimal: sixteen lowercase digits.
pub fn fingerprint_hex(fingerprint: [u8; 8]) -> (r: String)
    ensures
        r@ == hex_text(fingerprint@),
{
    hex_encode(fingerprint.as_slice())
}

/// Index of row `i`, column `j` in a row-major matrix with `n` columns.
pub open spec fn at(n: int, i: int, j: int) -> int {
    i * n + j
}

proof fn lemma_index_in_range(n: int, rows: int, i: int, j: int)
    requires
        0 <= i < rows,
        0 <= j < n,
    ensures
        0 <= at(n, i, j) < rows * n,
        at(n, i, j) + 1 <= rows * n,
{
    assert(0 <= i * n + j < rows * n) by (nonlinear_arith)
        requires
            0 <= i < rows,
            0 <= j < n,
    ;
}

proof fn lemma_row_start(n: int, i: int)
    requires
        0 <= i,
        0 <= n,
    ensures
        at(n, i + 1, 0) == at(n, i, 0) + n,
{
    assert((i + 1) * n == i * n + n) by (nonlinear_arith);
}

/// The transpose of an `n`×`n` row-major matrix: entry `(i, j)` moves to
/// `(j, i)`.
pub fn transpose<T: Copy>(m: &Vec<T>, n: usize) -> (r: Vec<T>)
    requires
        m@.len() == n * n,
    ensures
        r@.len() == n * n,
        forall|i: int, j: int|
            0 <= i < n && 0 <= j < n ==> #[trigger] r@[at(n as int, j, i)] == m@[at(n as int, i, j)],
{
    let len = m.len();
    let mut r: Vec<T> = Vec::new();
    let mut a: usize = 0;
    while a < n
        invariant
            a <= n,
            len == m@.len(),
            m@.len() == n * n,
            r@.len() == at(n as int, a as int, 0),
            forall|x: int, y: int|
                0 <= x < a && 0 <= y < n ==> #[trigger] r@[at(n as int, x, y)] == m@[at(n as int, y, x)],
        decreases n - a,
    {
        let mut b: usize = 0;
        while b < n
            invariant
                a < n,
                b <= n,
                len == m@.len(),
                m@.len() == n * n,
                r@.len() == at(n as int, a as int, b as int),
                forall|x: int, y: int|
                    0 <= x < a && 0 <= y < n ==> #[trigger] r@[at(n as int, x, y)] == m@[at(n as int, y, x)],
                forall|y: int| 0 <= y < b ==> #[trigger] r@[at(n as int, a as int, y)] == m@[at(n as int, y, a as int)],
            decreases n - b,
        {
            proof {
                lemma_index_in_range(n as int, n as int, b as int, a as int);
            }
            let v = m[b * n + a];
            r.push(v);
            proof {
                assert forall|x: int, y: int|
                    0 <= x < a && 0 <= y < n implies #[trigger] r@[at(n as int, x, y)] == m@[at(n as int, y, x)] by {
                    lemma_index_in_range(n as int, a as int, x, y);
                }
            }
            b = b + 1;
        }
        proof {
            lemma_row_start(n as int, a as int);
            assert forall|x: int, y: int|
                0 <= x < a + 1 && 0 <= y < n implies #[trigger] r@[at(n as int, x, y)] == m@[at(n as int, y, x)] by {
                if x < a {
                } else {
                    assert(r@[at(n as int, a as int, y)] == m@[at(n as int, y, a as int)]);
                }
            }
        }
        a = a + 1;
    }
    proof {
        assert(at(n as int, n as int, 0) == n * n);
    }
    r
}

/// The top-left `k`×`k` block of an `n`×`n` row-major matrix, in row-major
/// order.
pub fn top_left_block<T: Copy>(m: &Vec<T>, n: usize, k: usize) -> (r: Vec<T>)
    requires
        k <= n,
        m@.len() == n * n,
    ensures
        r@.len() == k * k,
        forall|i: int, j: int|
            0 <= i < k && 0 <= j < k ==> #[trigger] r@[at(k as int, i, j)] == m@[at(n as int, i, j)],
{
    let len = m.len();
    let mut r: Vec<T> = Vec::new();
    let mut a: usize = 0;
    while a < k
        invariant
            a <= k <= n,
            len == m@.len(),
            m@.len() == n * n,
            r@.len() == at(k as int, a as int, 0),
            forall|x: int, y: int|
                0 <= x < a && 0 <= y < k ==> #[trigger] r@[at(k as int, x, y)] == m@[at(n as int, x, y)],
        decreases k - a,
    {
        let mut b: usize = 0;
        while b < k
            invariant
                a < k <= n,
                b <= k,
                len == m@.len(),
                m@.len() == n * n,
                r@.len() == at(k as int, a as int, b as int),
                forall|x: int, y: int|
                    0 <= x < a && 0 <= y < k ==> #[trigger] r@[at(k as int, x, y)] == m@[at(n as int, x, y)],
                forall|y: int| 0 <= y < b ==> #[trigger] r@[at(k as int, a as int, y)] == m@[at(n as int, a as int, y)],
            decreases k - b,
        {
            proof {
                lemma_index_in_range(n as int, n as int, a as int, b as int);
            }
            let v = m[a * n + b];
            r.push(v);
            proof {
                assert forall|x: int, y: int|
                    0 <= x < a && 0 <= y < k implies #[trigger] r@[at(k as int, x, y)] == m@[at(n as int, x, y)] by {
                    lemma_index_in_range(k as int, a as int, x, y);
                }
            }
            b = b + 1;
        }
        proof {
            lemma_row_start(k as int, a as int);
            assert forall|x: int, y: int|
                0 <= x < a + 1 && 0 <= y < k implies #[trigger] r@[at(k as int, x, y)] == m@[at(n as int, x, y)] by {
                if x == a {
                    assert(r@[at(k as int, a as int, y)] == m@[at(n as int, a as int, y)]);
                }
            }
        }
        a = a + 1;
    }
    proof {
        assert(at(k as int, k as int, 0) == k * k);
    }
    r
}

} // verus!
