//! The modes in which the Poseidon2 permutation is used: the permutation of
//! a zero-padded input, compression with feed-forward, the sponge, and the
//! domain separator that seeds the sponge.
//!
//! Each mode is stated over the permutation as a function from state to
//! state, and over field elements given by their canonical representatives.
//! What a mode does before and after it calls the permutation stands in
//! functions of its own.

use crate::bigint::{
    biguint_add_u64, biguint_div_u32, biguint_mul_u64, biguint_rem_u32, biguint_value,
    biguint_zero,
};
use crate::field::{
    base_p_digit, base_p_digits, base_p_rest, field_add, lemma_base_p_step, values, BabyBear,
    BABY_BEAR_PRIME,
};
use crate::poseidon2_config::{slice_to_array, Poseidon2BabyBearValidWidth};
use vstd::prelude::*;

verus! {

// ---------------------------------------------------------------------------
// Padded permutation
// ---------------------------------------------------------------------------

/// `x` followed by zeros up to `width` elements (its first `width` elements,
/// if it has more).
pub open spec fn zero_padded(x: Seq<u32>, width: nat) -> Seq<u32> {
    Seq::new(
        width,
        |i: int|
            if i < x.len() {
                x[i]
            } else {
                0u32
            },
    )
}

/// The permutation of `width` elements, applied to the zero-padded `x`.
pub open spec fn spec_padded_permute(
    permutation: spec_fn(Seq<u32>) -> Seq<u32>,
    width: nat,
    x: Seq<u32>,
) -> Seq<u32> {
    permutation(zero_padded(x, width))
}

/// An input of full width is permuted as it is, and the empty input gives
/// the permutation of the state of zeros.
pub proof fn lemma_padded_permute_identities(
    permutation: spec_fn(Seq<u32>) -> Seq<u32>,
    width: nat,
    x: Seq<u32>,
)
    ensures
        x.len() == width ==> zero_padded(x, width) == x && spec_padded_permute(
            permutation,
            width,
            x,
        ) == permutation(x),
        x.len() == 0 ==> spec_padded_permute(permutation, width, x) == permutation(
            Seq::new(width, |i: int| 0u32),
        ),
{
    if x.len() == width {
        assert(zero_padded(x, width) =~= x);
    }
    if x.len() == 0 {
        assert(zero_padded(x, width) =~= Seq::new(width, |i: int| 0u32));
    }
}

/// Fills `x` up with zeros on the right to `width` elements.
pub fn zero_pad(x: &[BabyBear], width: usize) -> (padded: Vec<BabyBear>)
    ensures
        values(padded@) == zero_padded(values(x@), width as nat),
        padded@.len() == width,
{
    let mut padded: Vec<BabyBear> = Vec::with_capacity(width);
    let mut i: usize = 0;
    while i < width
        invariant
            i <= width,
            padded@.len() == i,
            forall|j: int|
                0 <= j < i ==> padded@[j]@ == zero_padded(values(x@), width as nat)[j],
        decreases width - i,
    {
        let element: BabyBear = if i < x.len() {
            x[i]
        } else {
            BabyBear::zero()
        };
        padded.push(element);
        i += 1;
    }
    assert(values(padded@) =~= zero_padded(values(x@), width as nat));
    padded
}

/// Applies the Poseidon2 permutation to a padded input.
///
/// An input of fewer than `WIDTH` elements is filled up with zeros on the
/// right; the permutation is then applied once, and its whole state returned.
pub fn poseidon2_padded_permute<I: Poseidon2BabyBearValidWidth>(
    instance: &I,
    x: &[BabyBear],
) -> (permuted: Vec<BabyBear>)
    requires
        x@.len() <= I::WIDTH,
    ensures
        values(permuted@) == spec_padded_permute(
            instance.spec_permutation(),
            I::WIDTH as nat,
            values(x@),
        ),
        permuted@.len() == I::WIDTH,
{
    // Pad input with zeroes if necessary
    let padded_x = zero_pad(x, I::WIDTH);

    // Apply Poseidon permutation
    instance.permute(padded_x.as_slice())
}

// ---------------------------------------------------------------------------
// Compression
// ---------------------------------------------------------------------------

/// The first `out_len` elements of the sum of `permuted` and `x`, element by
/// element.
pub open spec fn spec_feed_forward(permuted: Seq<u32>, x: Seq<u32>, out_len: nat) -> Seq<u32> {
    Seq::new(out_len, |i: int| field_add(permuted[i], x[i]))
}

/// Compression of `x` to `out_len` elements: the permuted padded input plus
/// the input itself, element by element, cut off after `out_len` elements.
pub open spec fn spec_compress(
    permutation: spec_fn(Seq<u32>) -> Seq<u32>,
    width: nat,
    x: Seq<u32>,
    out_len: nat,
) -> Seq<u32> {
    spec_feed_forward(spec_padded_permute(permutation, width, x), x, out_len)
}

/// Adds the input onto the permuted state, element by element, and keeps the
/// first `OUT_LEN` elements.
pub fn feed_forward<const OUT_LEN: usize>(
    permuted: &[BabyBear],
    x: &[BabyBear],
) -> (digest: [BabyBear; OUT_LEN])
    requires
        OUT_LEN <= permuted@.len(),
        OUT_LEN <= x@.len(),
    ensures
        values(digest@) == spec_feed_forward(values(permuted@), values(x@), OUT_LEN as nat),
{
    let mut digest: [BabyBear; OUT_LEN] = [BabyBear::zero(); OUT_LEN];
    let mut i: usize = 0;
    while i < OUT_LEN
        invariant
            i <= OUT_LEN,
            OUT_LEN <= permuted@.len(),
            OUT_LEN <= x@.len(),
            forall|j: int| 0 <= j < i ==> digest@[j]@ == field_add(permuted@[j]@, x@[j]@),
        decreases OUT_LEN - i,
    {
        digest[i] = permuted[i] + x[i];
        i += 1;
    }
    assert(values(digest@) =~= spec_feed_forward(
        values(permuted@),
        values(x@),
        OUT_LEN as nat,
    ));
    digest
}

/// Implements the Poseidon2 compression mode:
/// `Truncate(Permute(pad(x)) + x)`, with one call of the permutation.
pub fn poseidon2_compress<const OUT_LEN: usize, I: Poseidon2BabyBearValidWidth>(
    poseidon_instance: &I,
    x: &[BabyBear],
) -> (digest: [BabyBear; OUT_LEN])
    requires
        OUT_LEN <= x@.len(),
        x@.len() <= I::WIDTH,
    ensures
        values(digest@) == spec_compress(
            poseidon_instance.spec_permutation(),
            I::WIDTH as nat,
            values(x@),
            OUT_LEN as nat,
        ),
        forall|i: int|
            0 <= i < OUT_LEN ==> (#[trigger] digest@[i])@ == field_add(
                (poseidon_instance.spec_permutation())(
                    zero_padded(values(x@), I::WIDTH as nat),
                )[i],
                x@[i]@,
            ),
{
    // Apply Poseidon2 permutation
    let permuted_x = poseidon2_padded_permute(poseidon_instance, x);

    // Compute element-wise addition and truncate to OUT_LEN
    let digest = feed_forward::<OUT_LEN>(permuted_x.as_slice(), x);
    assert forall|i: int| 0 <= i < OUT_LEN implies (#[trigger] digest@[i])@ == field_add(
        (poseidon_instance.spec_permutation())(zero_padded(values(x@), I::WIDTH as nat))[i],
        x@[i]@,
    ) by {
        assert(values(digest@)[i] == digest@[i]@);
    }
    digest
}

// ---------------------------------------------------------------------------
// Sponge
// ---------------------------------------------------------------------------

/// The state that the sponge starts from: the capacity value in the first
/// positions, zeros behind.
pub open spec fn sponge_initial_state(capacity_value: Seq<u32>, width: nat) -> Seq<u32> {
    zero_padded(capacity_value, width)
}

/// The number of chunks of `rate` elements that hold `len` elements.
pub open spec fn chunk_count(len: nat, rate: nat) -> nat {
    ((len + rate - 1) / (rate as int)) as nat
}

/// `rate` elements of `input` from position `start` on, with zeros where
/// `input` has ended.
pub open spec fn chunk_from(input: Seq<u32>, start: nat, rate: nat) -> Seq<u32> {
    Seq::new(
        rate,
        |i: int|
            if start + i < input.len() {
                input[start + i]
            } else {
                0u32
            },
    )
}

/// Chunk `index` of `input`, the input cut into chunks of `rate` elements
/// and the last chunk filled up with zeros.
pub open spec fn input_chunk(input: Seq<u32>, rate: nat, index: nat) -> Seq<u32> {
    chunk_from(input, index * rate, rate)
}

/// `state` with `chunk` added into its first positions, element by element.
pub open spec fn absorb_chunk(state: Seq<u32>, chunk: Seq<u32>) -> Seq<u32> {
    Seq::new(
        state.len(),
        |i: int|
            if i < chunk.len() {
                field_add(state[i], chunk[i])
            } else {
                state[i]
            },
    )
}

/// The state of the sponge after the first `chunks` chunks of `input` were
/// absorbed: each chunk is added into the first `rate` positions of the
/// state, also where these hold the capacity value, and the state permuted.
pub open spec fn sponge_absorbed(
    permutation: spec_fn(Seq<u32>) -> Seq<u32>,
    width: nat,
    capacity_value: Seq<u32>,
    input: Seq<u32>,
    rate: nat,
    chunks: nat,
) -> Seq<u32>
    decreases chunks,
{
    if chunks == 0 {
        sponge_initial_state(capacity_value, width)
    } else {
        permutation(
            absorb_chunk(
                sponge_absorbed(
                    permutation,
                    width,
                    capacity_value,
                    input,
                    rate,
                    (chunks - 1) as nat,
                ),
                input_chunk(input, rate, (chunks - 1) as nat),
            ),
        )
    }
}

/// `state` after `times` applications of the permutation.
pub open spec fn permuted_times(
    permutation: spec_fn(Seq<u32>) -> Seq<u32>,
    state: Seq<u32>,
    times: nat,
) -> Seq<u32>
    decreases times,
{
    if times == 0 {
        state
    } else {
        permutation(permuted_times(permutation, state, (times - 1) as nat))
    }
}

/// What one read takes from `state`: its first `rate` elements, or as many
/// as are still `missing` if these are fewer.
pub open spec fn squeezed_block(state: Seq<u32>, rate: nat, missing: nat) -> Seq<u32> {
    state.take(
        if missing > rate {
            rate as int
        } else {
            missing as int
        },
    )
}

/// The sponge hash of `input` under `capacity_value`, with
/// `rate = width - capacity_value.len()`: after absorbing all of `input`,
/// output element `i` is element `i % rate` of the state after `i / rate`
/// further permutations.
pub open spec fn spec_sponge(
    permutation: spec_fn(Seq<u32>) -> Seq<u32>,
    width: nat,
    capacity_value: Seq<u32>,
    input: Seq<u32>,
    out_len: nat,
) -> Seq<u32> {
    let rate = (width - capacity_value.len()) as nat;
    let absorbed = sponge_absorbed(
        permutation,
        width,
        capacity_value,
        input,
        rate,
        chunk_count(input.len(), rate),
    );
    Seq::new(
        out_len,
        |i: int|
            permuted_times(permutation, absorbed, (i / (rate as int)) as nat)[i % (rate as int)],
    )
}

/// The sponge is a function of the permutation, the capacity value and the
/// input: the same of each gives the same digest.
pub proof fn lemma_sponge_deterministic(
    permutation: spec_fn(Seq<u32>) -> Seq<u32>,
    width: nat,
    capacity_value: Seq<u32>,
    input: Seq<u32>,
    other_capacity_value: Seq<u32>,
    other_input: Seq<u32>,
    out_len: nat,
)
    requires
        capacity_value == other_capacity_value,
        input == other_input,
    ensures
        spec_sponge(permutation, width, capacity_value, input, out_len) == spec_sponge(
            permutation,
            width,
            other_capacity_value,
            other_input,
            out_len,
        ),
{
}

/// Makes the state that the sponge starts from.
pub fn sponge_start(capacity_value: &[BabyBear], width: usize) -> (state: Vec<BabyBear>)
    ensures
        values(state@) == sponge_initial_state(values(capacity_value@), width as nat),
        state@.len() == width,
{
    zero_pad(capacity_value, width)
}

/// Adds the `rate` elements of `x` from position `start` on into the first
/// `rate` elements of the state; where `x` has ended, zero is added.
pub fn absorb_chunk_into(state: &mut Vec<BabyBear>, x: &[BabyBear], start: usize, rate: usize)
    requires
        rate <= old(state)@.len(),
        start <= x@.len(),
    ensures
        values(final(state)@) == absorb_chunk(
            values(old(state)@),
            chunk_from(values(x@), start as nat, rate as nat),
        ),
        final(state)@.len() == old(state)@.len(),
{
    let len: usize = x.len();
    let mut k: usize = 0;
    while k < rate
        invariant
            k <= rate,
            rate <= state@.len(),
            start <= len,
            len == x@.len(),
            state@.len() == old(state)@.len(),
            forall|j: int|
                0 <= j < k ==> state@[j]@ == field_add(
                    old(state)@[j]@,
                    chunk_from(values(x@), start as nat, rate as nat)[j],
                ),
            forall|j: int| k <= j < state@.len() ==> state@[j] == old(state)@[j],
        decreases rate - k,
    {
        let element: BabyBear = if k < len - start {
            x[start + k]
        } else {
            BabyBear::zero()
        };
        let sum: BabyBear = state[k] + element;
        state.set(k, sum);
        k += 1;
    }
    assert(values(state@) =~= absorb_chunk(
        values(old(state)@),
        chunk_from(values(x@), start as nat, rate as nat),
    ));
}

/// Reads output off the state: appends the first `rate` elements of the
/// state to `out`, or as many as `out` still lacks to `out_len` elements.
pub fn squeeze_into(out: &mut Vec<BabyBear>, state: &[BabyBear], rate: usize, out_len: usize)
    requires
        rate <= state@.len(),
        old(out)@.len() <= out_len,
    ensures
        values(final(out)@) == values(old(out)@) + squeezed_block(
            values(state@),
            rate as nat,
            (out_len - old(out)@.len()) as nat,
        ),
{
    let missing: usize = out_len - out.len();
    let take: usize = if missing > rate {
        rate
    } else {
        missing
    };
    let mut k: usize = 0;
    while k < take
        invariant
            k <= take,
            take <= state@.len(),
            out@ == old(out)@ + state@.take(k as int),
        decreases take - k,
    {
        out.push(state[k]);
        assert(out@ =~= old(out)@ + state@.take(k + 1));
        k += 1;
    }
    assert(values(out@) =~= values(old(out)@) + squeezed_block(
        values(state@),
        rate as nat,
        (out_len - old(out)@.len()) as nat,
    ));
}

/// Implements the Poseidon2 sponge mode.
///
/// The state starts as the capacity value followed by zeros. The input is
/// absorbed in chunks of `rate = WIDTH - CAPACITY` elements, the last one
/// filled up with zeros: each chunk is added into the first `rate` elements
/// of the state and the state permuted. The output is then read off the
/// first `rate` elements of the state, with a permutation after each read,
/// until `OUT_LEN` elements are there.
pub fn poseidon2_sponge<
    const OUT_LEN: usize,
    const CAPACITY: usize,
    I: Poseidon2BabyBearValidWidth,
>(
    poseidon_instance: &I,
    capacity_value: &[BabyBear; CAPACITY],
    x: &[BabyBear],
) -> (digest: [BabyBear; OUT_LEN])
    requires
        CAPACITY < I::WIDTH,
    ensures
        values(digest@) == spec_sponge(
            poseidon_instance.spec_permutation(),
            I::WIDTH as nat,
            values(capacity_value@),
            values(x@),
            OUT_LEN as nat,
        ),
{
    // Compute the rate (available absorption space)
    let width: usize = I::WIDTH;
    let rate: usize = width - CAPACITY;
    let len: usize = x.len();

    // Initialize state with `capacity_value`
    let mut state = sponge_start(capacity_value.as_slice(), width);

    // Absorption phase
    let ghost chunks: nat = 0;
    let mut pos: usize = 0;
    proof {
        lemma_chunk_count(len as nat, rate as nat, 0);
    }
    while pos < len
        invariant
            width == I::WIDTH,
            rate == width - CAPACITY,
            0 < rate,
            len == x@.len(),
            pos <= len,
            pos < len ==> pos == chunks * rate,
            pos == len ==> chunks == chunk_count(len as nat, rate as nat),
            state@.len() == width,
            values(state@) == sponge_absorbed(
                poseidon_instance.spec_permutation(),
                width as nat,
                values(capacity_value@),
                values(x@),
                rate as nat,
                chunks,
            ),
        decreases len - pos,
    {
        absorb_chunk_into(&mut state, x, pos, rate);
        state = poseidon_instance.permute(state.as_slice());
        proof {
            assert((chunks + 1) * rate == chunks * rate + rate) by (nonlinear_arith);
            lemma_chunk_count(len as nat, rate as nat, chunks + 1);
            chunks = chunks + 1;
        }
        pos = if len - pos > rate {
            pos + rate
        } else {
            len
        };
    }

    // Squeeze phase - extract output
    let ghost absorbed = values(state@);
    let ghost blocks: nat = 0;
    let mut out: Vec<BabyBear> = Vec::new();
    while out.len() < OUT_LEN
        invariant
            width == I::WIDTH,
            rate == width - CAPACITY,
            0 < rate,
            out@.len() <= OUT_LEN,
            out@.len() < OUT_LEN ==> out@.len() == blocks * rate,
            state@.len() == width,
            values(state@) == permuted_times(
                poseidon_instance.spec_permutation(),
                absorbed,
                blocks,
            ),
            forall|j: int|
                0 <= j < out@.len() ==> out@[j]@ == permuted_times(
                    poseidon_instance.spec_permutation(),
                    absorbed,
                    (j / (rate as int)) as nat,
                )[j % (rate as int)],
        decreases OUT_LEN - out@.len(),
    {
        let ghost before = out@;
        squeeze_into(&mut out, state.as_slice(), rate, OUT_LEN);
        proof {
            assert(out@.len() == values(out@).len());
            assert forall|j: int| 0 <= j < out@.len() implies out@[j]@ == permuted_times(
                poseidon_instance.spec_permutation(),
                absorbed,
                (j / (rate as int)) as nat,
            )[j % (rate as int)] by {
                assert(values(out@)[j] == out@[j]@);
                if j < before.len() {
                    assert(values(before)[j] == before[j]@);
                } else {
                    let k = j - before.len();
                    assert(values(state@)[k] == state@[k]@);
                    vstd::arithmetic::div_mod::lemma_fundamental_div_mod_converse(
                        j,
                        rate as int,
                        blocks as int,
                        k,
                    );
                }
            }
            assert((blocks + 1) * rate == blocks * rate + rate) by (nonlinear_arith);
        }
        state = poseidon_instance.permute(state.as_slice());
        proof {
            blocks = blocks + 1;
        }
    }
    assert(values(out@) =~= spec_sponge(
        poseidon_instance.spec_permutation(),
        width as nat,
        values(capacity_value@),
        values(x@),
        OUT_LEN as nat,
    ));
    slice_to_array(out.as_slice())
}

/// How the number of chunks relates to the position that absorption has
/// reached: `chunks` whole chunks lie before the end of the input exactly if
/// fewer than all chunks were taken, and a last chunk that reaches the end
/// completes the count.
proof fn lemma_chunk_count(len: nat, rate: nat, chunks: nat)
    requires
        0 < rate,
    ensures
        chunks * rate < len ==> chunks < chunk_count(len, rate),
        chunks * rate >= len && (chunks == 0 || (chunks - 1) * rate < len) ==> chunks
            == chunk_count(len, rate),
{
    let total = (len + rate - 1) as int;
    let count = total / (rate as int);
    vstd::arithmetic::div_mod::lemma_fundamental_div_mod(total, rate as int);
    vstd::arithmetic::div_mod::lemma_mod_bound(total, rate as int);
    assert(total == rate * count + total % (rate as int));
    if chunks * rate < len {
        assert(chunks < count) by (nonlinear_arith)
            requires
                chunks * rate < len,
                len + rate - 1 == rate * count + total % (rate as int),
                0 <= total % (rate as int) < rate,
                0 < rate,
        ;
    }
    if chunks * rate >= len && (chunks == 0 || (chunks - 1) * rate < len) {
        assert(chunks == count) by (nonlinear_arith)
            requires
                chunks * rate >= len,
                chunks == 0 || (chunks - 1) * rate < len,
                len + rate - 1 == rate * count + total % (rate as int),
                0 <= total % (rate as int) < rate,
                0 < rate,
                0 <= count,
        ;
    }
}

// ---------------------------------------------------------------------------
// Domain separator
// ---------------------------------------------------------------------------

/// The configuration integers `params` folded into one number, the first
/// one in the highest place: each step shifts by 32 bits and adds the next.
pub open spec fn packed_params(params: Seq<usize>) -> nat
    decreases params.len(),
{
    if params.len() == 0 {
        0
    } else {
        packed_params(params.drop_last()) * 0x1_0000_0000 + params.last() as nat
    }
}

/// The domain separator of the configuration `params`: the packed
/// configuration, written as `width` base-`p` digits and compressed to
/// `out_len` elements.
pub open spec fn spec_domain_separator(
    permutation: spec_fn(Seq<u32>) -> Seq<u32>,
    width: nat,
    params: Seq<usize>,
    out_len: nat,
) -> Seq<u32> {
    spec_compress(permutation, width, base_p_digits(packed_params(params), width), out_len)
}

/// Packs the configuration `params` into one number and writes it as
/// `width` base-`p` digits, least significant first.
pub fn domain_separator_input(params: &[usize], width: usize) -> (input: Vec<BabyBear>)
    ensures
        values(input@) == base_p_digits(packed_params(params@), width as nat),
{
    // Turn params into a big integer
    let mut domain_uint = biguint_zero();
    let mut i: usize = 0;
    assert(params@.take(0) =~= Seq::<usize>::empty());
    while i < params.len()
        invariant
            i <= params@.len(),
            biguint_value(domain_uint) == packed_params(params@.take(i as int)),
        decreases params@.len() - i,
    {
        assert(params@.take(i + 1).drop_last() =~= params@.take(i as int));
        let item: usize = params[i];
        domain_uint = biguint_add_u64(biguint_mul_u64(domain_uint, 0x1_0000_0000u64), item as u64);
        i += 1;
    }
    assert(params@.take(params@.len() as int) =~= params@);
    let ghost packed = packed_params(params@);

    // create the Poseidon input by interpreting the number in base-p
    let mut input: Vec<BabyBear> = Vec::with_capacity(width);
    let mut k: usize = 0;
    proof {
        lemma_base_p_step(packed, 0);
    }
    while k < width
        invariant
            k <= width,
            input@.len() == k,
            biguint_value(domain_uint) == base_p_rest(packed, k as nat),
            forall|j: int| 0 <= j < k ==> input@[j]@ == base_p_digit(packed, j as nat),
        decreases width - k,
    {
        proof {
            lemma_base_p_step(packed, k as nat);
        }
        let digit: u32 = biguint_rem_u32(&domain_uint, BABY_BEAR_PRIME);
        input.push(BabyBear::new(digit));
        domain_uint = biguint_div_u32(domain_uint, BABY_BEAR_PRIME);
        k += 1;
    }
    assert(values(input@) =~= base_p_digits(packed, width as nat));
    input
}

/// Derives the value that seeds the sponge from the configuration `params`,
/// so that differently configured hashes start from different states.
pub fn poseidon_safe_domain_separator<const OUT_LEN: usize, I: Poseidon2BabyBearValidWidth>(
    poseidon_instance: &I,
    params: &[usize],
) -> (separator: [BabyBear; OUT_LEN])
    requires
        OUT_LEN <= I::WIDTH,
    ensures
        values(separator@) == spec_domain_separator(
            poseidon_instance.spec_permutation(),
            I::WIDTH as nat,
            params@,
            OUT_LEN as nat,
        ),
{
    let input = domain_separator_input(params, I::WIDTH);

    // now run Poseidon
    poseidon2_compress::<OUT_LEN, I>(poseidon_instance, input.as_slice())
}

} // verus!
