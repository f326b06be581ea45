//! Variable-length integers: seven value bits per byte, least significant
//! group first, the high bit of a byte saying that another byte follows.

use vstd::prelude::*;
use crate::common::common_error::CommonError;

verus! {

/// 128 to the power `i`: the weight of the group held by the byte at index `i`.
pub open spec fn radix_power(i: nat) -> nat
    decreases i,
{
    if i == 0 {
        1
    } else {
        128 * radix_power((i - 1) as nat)
    }
}

/// Index of the first byte at or after `i` whose continuation bit is clear.
pub open spec fn find_end(data: Seq<u8>, i: nat) -> Option<nat>
    decreases data.len() - i,
{
    if i >= data.len() {
        None
    } else if data[i as int] < 0x80 {
        Some(i)
    } else {
        find_end(data, i + 1)
    }
}

/// The number spelled by the seven-bit groups of the first `n` bytes.
pub open spec fn payload(data: Seq<u8>, n: nat) -> nat
    decreases n,
{
    if n == 0 {
        0
    } else {
        payload(data, (n - 1) as nat) + (data[n - 1] % 128) as nat * radix_power((n - 1) as nat)
    }
}

/// The payload of the first `n` bytes read as a two's-complement number of
/// `7 * n` bits: bit 6 of the last byte is the sign.
pub open spec fn signed_payload(data: Seq<u8>, n: nat) -> int {
    if n > 0 && data[n - 1] % 128 >= 64 {
        payload(data, n) - radix_power(n)
    } else {
        payload(data, n) as int
    }
}

/// Index of the last byte that an encoding of the given width may occupy.
pub open spec fn last_index(width: u8) -> nat {
    (width / 7) as nat
}

/// How many bytes the encoding at the start of `data` takes, or why there is
/// none: the byte at `last_index` asks for more, or the bytes run out first.
pub open spec fn encoded_len(data: Seq<u8>, width: u8) -> Result<nat, CommonError> {
    match find_end(data, 0) {
        Some(t) => if t <= last_index(width) {
            Ok((t + 1) as nat)
        } else {
            Err(CommonError::Leb128Error)
        },
        None => if data.len() > last_index(width) {
            Err(CommonError::Leb128Error)
        } else {
            Err(CommonError::UnexpectedEnd)
        },
    }
}

/// `v` reduced modulo 2^64 into the range of `u64`.
pub open spec fn wrap_u64(v: int) -> u64 {
    (v % 0x1_0000_0000_0000_0000int) as u64
}

/// `v` reduced modulo 2^64 into the range of `i64`.
pub open spec fn wrap_i64(v: int) -> i64 {
    ((v + 0x8000_0000_0000_0000int) % 0x1_0000_0000_0000_0000int - 0x8000_0000_0000_0000int) as i64
}

/// What `decode_var_uint` returns: the value and the number of bytes taken.
pub open spec fn decode_var_uint_spec(data: Seq<u8>, width: u8) -> Result<(u64, nat), CommonError> {
    match encoded_len(data, width) {
        Ok(n) => Ok((wrap_u64(payload(data, n) as int), n)),
        Err(e) => Err(e),
    }
}

/// What `decode_var_int` returns: the value and the number of bytes taken.
pub open spec fn decode_var_int_spec(data: Seq<u8>, width: u8) -> Result<(i64, nat), CommonError> {
    match encoded_len(data, width) {
        Ok(n) => Ok((wrap_i64(signed_payload(data, n)), n)),
        Err(e) => Err(e),
    }
}

/// The shortest unsigned encoding of `x`.
pub open spec fn encode_var_uint(x: nat) -> Seq<u8>
    decreases x,
{
    if x < 128 {
        seq![x as u8]
    } else {
        seq![(128 + x % 128) as u8] + encode_var_uint(x / 128)
    }
}

/// The shortest signed encoding of `x`.
pub open spec fn encode_var_int(x: int) -> Seq<u8>
    decreases (if x >= 0 { x } else { -x }),
{
    if -64 <= x < 64 {
        seq![(x % 128) as u8]
    } else {
        seq![(128 + x % 128) as u8] + encode_var_int(x / 128)
    }
}

/// The weights grow with the index.
pub proof fn lemma_radix_power_increases(i: nat, j: nat)
    requires
        i <= j,
    ensures
        1 <= radix_power(i) <= radix_power(j),
    decreases j,
{
    if j > 0 {
        if i < j {
            lemma_radix_power_increases(i, (j - 1) as nat);
        } else {
            lemma_radix_power_increases((i - 1) as nat, (j - 1) as nat);
        }
    }
}

/// The weights that bound a value of 32 and of 64 bits.
pub proof fn lemma_radix_power_values()
    ensures
        radix_power(4) == 0x1000_0000,
        radix_power(5) == 0x8_0000_0000,
        radix_power(9) == 0x8000_0000_0000_0000,
        radix_power(10) == 0x40_0000_0000_0000_0000,
{
    reveal_with_fuel(radix_power, 11);
}

/// What `find_end` finds, said without recursion.
pub proof fn lemma_find_end(data: Seq<u8>, i: nat)
    ensures
        match find_end(data, i) {
            Some(t) => i <= t < data.len() && data[t as int] < 0x80 && forall|j: int|
                i <= j < t ==> data[j] >= 0x80,
            None => forall|j: int| i <= j < data.len() ==> data[j] >= 0x80,
        },
    decreases data.len() - i,
{
    if i < data.len() && data[i as int] >= 0x80 {
        lemma_find_end(data, i + 1);
    }
}

/// The groups of `n` bytes spell a number below 128^n.
pub proof fn lemma_payload_bound(data: Seq<u8>, n: nat)
    ensures
        payload(data, n) < radix_power(n),
    decreases n,
{
    if n > 0 {
        lemma_payload_bound(data, (n - 1) as nat);
        let g = (data[n - 1] % 128) as nat;
        let w = radix_power((n - 1) as nat);
        assert(g * w <= 127 * w) by (nonlinear_arith)
            requires
                g <= 127,
        ;
    }
}

/// Putting a byte in front shifts the groups behind it up by one place.
proof fn lemma_payload_prepend(b: u8, rest: Seq<u8>, n: nat)
    requires
        n <= rest.len(),
    ensures
        payload(seq![b] + rest, n + 1) == (b % 128) as nat + 128 * payload(rest, n),
    decreases n,
{
    let s = seq![b] + rest;
    assert(s[0] == b);
    assert(payload(s, n + 1) == payload(s, n) + (s[n as int] % 128) as nat * radix_power(n));
    if n == 0 {
        assert(payload(s, 0) == 0);
        assert(payload(rest, 0) == 0);
        assert(radix_power(0) == 1);
        let g0 = (s[0] % 128) as nat;
        assert(g0 * radix_power(0) == g0) by (nonlinear_arith)
            requires
                radix_power(0) == 1,
        ;
        assert(payload(s, 1) == payload(s, 0) + g0 * radix_power(0));
    } else {
        lemma_payload_prepend(b, rest, (n - 1) as nat);
        assert(payload(s, n) == (b % 128) as nat + 128 * payload(rest, (n - 1) as nat));
        assert(s[n as int] == rest[n - 1]);
        let g = (rest[n - 1] % 128) as nat;
        let w = radix_power((n - 1) as nat);
        assert(radix_power(n) == 128 * w);
        assert(payload(rest, n) == payload(rest, (n - 1) as nat) + g * w);
        assert(g * (128 * w) == 128 * (g * w)) by (nonlinear_arith);
        assert(payload(s, n + 1) == (b % 128) as nat + 128 * payload(rest, n));
    }
}

/// The shape, the value and the length of an unsigned encoding.
proof fn lemma_encode_var_uint(x: nat, k: nat)
    requires
        k >= 1,
        x < radix_power(k),
    ensures
        1 <= encode_var_uint(x).len() <= k,
        find_end(encode_var_uint(x), 0) == Some((encode_var_uint(x).len() - 1) as nat),
        payload(encode_var_uint(x), encode_var_uint(x).len()) == x,
    decreases x,
{
    let e = encode_var_uint(x);
    if x < 128 {
        assert(e[0] == x);
        assert(payload(e, 0) == 0);
        assert(radix_power(0) == 1);
        assert(payload(e, 1) == payload(e, 0) + (e[0] % 128) as nat * radix_power(0));
    } else {
        let b = (128 + x % 128) as u8;
        let rest = encode_var_uint(x / 128);
        assert(radix_power(1) == 128 * radix_power(0));
        assert(k >= 2);
        lemma_encode_var_uint(x / 128, (k - 1) as nat);
        lemma_payload_prepend(b, rest, rest.len());
        lemma_find_end(rest, 0);
        lemma_find_end(e, 0);
        assert(forall|j: int| 1 <= j < e.len() ==> e[j] == rest[j - 1]);
        assert(e[0] == b);
    }
}

/// The shape, the value and the length of a signed encoding.
proof fn lemma_encode_var_int(x: int, k: nat)
    requires
        k >= 1,
        -(64 * radix_power((k - 1) as nat)) <= x < 64 * radix_power((k - 1) as nat),
    ensures
        1 <= encode_var_int(x).len() <= k,
        find_end(encode_var_int(x), 0) == Some((encode_var_int(x).len() - 1) as nat),
        signed_payload(encode_var_int(x), encode_var_int(x).len()) == x,
    decreases (if x >= 0 { x } else { -x }),
{
    let e = encode_var_int(x);
    if -64 <= x < 64 {
        assert(e[0] == x % 128);
        assert(payload(e, 0) == 0);
        assert(radix_power(0) == 1);
        assert(radix_power(1) == 128 * radix_power(0));
        assert(payload(e, 1) == payload(e, 0) + (e[0] % 128) as nat * radix_power(0));
    } else {
        let b = (128 + x % 128) as u8;
        let rest = encode_var_int(x / 128);
        let n = rest.len();
        assert(radix_power(0) == 1);
        assert(k >= 2);
        assert(radix_power((k - 1) as nat) == 128 * radix_power((k - 2) as nat));
        lemma_encode_var_int(x / 128, (k - 1) as nat);
        lemma_payload_prepend(b, rest, n);
        lemma_find_end(rest, 0);
        lemma_find_end(e, 0);
        assert(forall|j: int| 1 <= j < e.len() ==> e[j] == rest[j - 1]);
        assert(e[0] == b);
        assert(e[e.len() - 1] == rest[n - 1]);
        assert(radix_power(n + 1) == 128 * radix_power(n));
    }
}

/// An encoding lies within the bytes it was found in.
pub proof fn lemma_decoded_len(data: Seq<u8>, width: u8)
    ensures
        match encoded_len(data, width) {
            Ok(n) => 1 <= n <= data.len(),
            Err(_) => true,
        },
{
    lemma_find_end(data, 0);
}

/// Decoding the shortest unsigned encoding of `x` gives `x` back and takes
/// every byte of it, at width 64 for any `x` and at width 32 for `x` of 32
/// bits.
pub proof fn lemma_var_uint_round_trip(x: u64, width: u8)
    requires
        width == 32 || width == 64,
        width == 32 ==> x <= u32::MAX,
    ensures
        decode_var_uint_spec(encode_var_uint(x as nat), width) == Ok::<(u64, nat), CommonError>(
            (x, encode_var_uint(x as nat).len()),
        ),
{
    lemma_radix_power_values();
    lemma_encode_var_uint(x as nat, (last_index(width) + 1) as nat);
}

/// Decoding the shortest signed encoding of `x` gives `x` back and takes
/// every byte of it, at width 64 for any `x` and at width 32 for `x` of 32
/// bits.
pub proof fn lemma_var_int_round_trip(x: i64, width: u8)
    requires
        width == 32 || width == 64,
        width == 32 ==> i32::MIN <= x <= i32::MAX,
    ensures
        decode_var_int_spec(encode_var_int(x as int), width) == Ok::<(i64, nat), CommonError>(
            (x, encode_var_int(x as int).len()),
        ),
{
    lemma_radix_power_values();
    lemma_encode_var_int(x as int, (last_index(width) + 1) as nat);
}

/// Reads the encoding at the start of `data`: its groups summed modulo 2^64,
/// its length, and the weight of its last group.
fn scan(data: &[u8], size: u8) -> (r: Result<(u64, usize, u64), CommonError>)
    requires
        size == 32 || size == 64,
    ensures
        match r {
            Ok((v, n, w)) => {
                &&& encoded_len(data@, size) == Ok::<nat, CommonError>(n as nat)
                &&& 1 <= n <= data.len()
                &&& n <= last_index(size) + 1
                &&& v == wrap_u64(payload(data@, n as nat) as int)
                &&& w == radix_power((n - 1) as nat)
            },
            Err(e) => encoded_len(data@, size) == Err::<nat, CommonError>(e),
        },
{
    let last: usize = (size / 7) as usize;
    let mut result: u64 = 0;
    let mut weight: u64 = 1;
    let mut count: usize = 0;
    proof {
        lemma_find_end(data@, 0);
    }
    while count < data.len()
        invariant
            size == 32 || size == 64,
            last == size / 7,
            count <= data.len(),
            count <= last,
            forall|j: int| 0 <= j < count ==> data@[j] >= 0x80,
            result == payload(data@, count as nat),
            weight == radix_power(count as nat),
            match find_end(data@, 0) {
                Some(t) => 0 <= t < data@.len() && data@[t as int] < 0x80 && forall|j: int|
                    0 <= j < t ==> data@[j] >= 0x80,
                None => forall|j: int| 0 <= j < data@.len() ==> data@[j] >= 0x80,
            },
        decreases data.len() - count,
    {
        let d = data[count];
        if count == last && d >= 0x80 {
            return Err(CommonError::Leb128Error);
        }
        let group = (d % 128) as u64;
        proof {
            lemma_radix_power_values();
            lemma_radix_power_increases(count as nat, 9);
            lemma_payload_bound(data@, count as nat);
            lemma_payload_bound(data@, (count + 1) as nat);
            assert(payload(data@, (count + 1) as nat) == result + group * weight);
        }
        result = result.wrapping_add(group.wrapping_mul(weight));
        if d < 0x80 {
            return Ok((result, count + 1, weight));
        }
        proof {
            lemma_radix_power_increases((count + 1) as nat, 9);
        }
        count = count + 1;
        weight = weight * 128;
    }
    Err(CommonError::UnexpectedEnd)
}

/// Decodes an unsigned variable-length integer of at most `size` bits from
/// the start of `data`.
pub fn decode_var_uint(data: &[u8], size: u8) -> (r: Result<(u64, usize), CommonError>)
    requires
        size == 32 || size == 64,
    ensures
        match r {
            Ok((v, n)) => decode_var_uint_spec(data@, size) == Ok::<(u64, nat), CommonError>(
                (v, n as nat),
            ),
            Err(e) => decode_var_uint_spec(data@, size) == Err::<(u64, nat), CommonError>(e),
        },
{
    match scan(data, size) {
        Ok((v, n, _)) => Ok((v, n)),
        Err(e) => Err(e),
    }
}

/// Decodes a signed variable-length integer of at most `size` bits from the
/// start of `data`, extending the sign from bit 6 of its last byte.
pub fn decode_var_int(data: &[u8], size: u8) -> (r: Result<(i64, usize), CommonError>)
    requires
        size == 32 || size == 64,
    ensures
        match r {
            Ok((v, n)) => decode_var_int_spec(data@, size) == Ok::<(i64, nat), CommonError>(
                (v, n as nat),
            ),
            Err(e) => decode_var_int_spec(data@, size) == Err::<(i64, nat), CommonError>(e),
        },
{
    match scan(data, size) {
        Ok((bits, n, w)) => {
            proof {
                lemma_radix_power_values();
                lemma_payload_bound(data@, n as nat);
                if n < 10 {
                    lemma_radix_power_increases(n as nat, 9);
                    lemma_radix_power_increases((n - 1) as nat, 9);
                }
            }
            let negative = data[n - 1] % 128 >= 64;
            let v: i64 = if n == 10 {
                if bits >= 0x8000_0000_0000_0000 {
                    ((bits - 0x8000_0000_0000_0000) as i64) + i64::MIN
                } else {
                    bits as i64
                }
            } else if negative {
                ((bits as i128) - 128 * (w as i128)) as i64
            } else {
                bits as i64
            };
            Ok((v, n))
        },
        Err(e) => Err(e),
    }
}

} // verus!
