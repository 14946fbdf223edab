use num_bigint::BigUint;
use p3_baby_bear::{default_babybear_poseidon2_16, default_babybear_poseidon2_24};
use p3_field::PrimeField32;
use p3_symmetric::Permutation;
use poseidon_tweak_hash::field::{BabyBear, BABY_BEAR_PRIME};
use poseidon_tweak_hash::poseidon2::{
    poseidon2_compress, poseidon2_padded_permute, poseidon2_sponge,
    poseidon_safe_domain_separator,
};
use poseidon_tweak_hash::poseidon2_config::{
    poseidon2_instance, poseidon2_instance_short, Poseidon2BabyBearLong, Poseidon2BabyBearShort,
    Poseidon2BabyBearValidWidth,
};

fn default_permute_16(state: [u32; 16]) -> [u32; 16] {
    default_babybear_poseidon2_16()
        .permute(state.map(p3_baby_bear::BabyBear::new))
        .map(|element| element.as_canonical_u32())
}

fn default_permute_24(state: [u32; 24]) -> [u32; 24] {
    default_babybear_poseidon2_24()
        .permute(state.map(p3_baby_bear::BabyBear::new))
        .map(|element| element.as_canonical_u32())
}

fn elements(values: &[u32]) -> Vec<BabyBear> {
    values.iter().map(|value| BabyBear::new(*value)).collect()
}

fn canonical(elements: &[BabyBear]) -> Vec<u32> {
    elements.iter().map(|element| element.as_canonical_u32()).collect()
}

fn padded_permute_16(x: &[u32]) -> Vec<u32> {
    canonical(&poseidon2_padded_permute(&poseidon2_instance_short(), &elements(x)))
}

fn padded_permute_24(x: &[u32]) -> Vec<u32> {
    canonical(&poseidon2_padded_permute(&poseidon2_instance(), &elements(x)))
}

fn compress_16<const OUT_LEN: usize>(x: &[u32]) -> Vec<u32> {
    canonical(&poseidon2_compress::<OUT_LEN, _>(&poseidon2_instance_short(), &elements(x)))
}

fn compress_24<const OUT_LEN: usize>(x: &[u32]) -> Vec<u32> {
    canonical(&poseidon2_compress::<OUT_LEN, _>(&poseidon2_instance(), &elements(x)))
}

fn sponge<const OUT_LEN: usize, const CAPACITY: usize>(
    capacity: [u32; CAPACITY],
    x: &[u32],
) -> Vec<u32> {
    let capacity = capacity.map(BabyBear::new);
    canonical(&poseidon2_sponge::<OUT_LEN, CAPACITY, _>(
        &poseidon2_instance(),
        &capacity,
        &elements(x),
    ))
}

fn separator_24<const OUT_LEN: usize>(params: &[usize]) -> Vec<u32> {
    canonical(&poseidon_safe_domain_separator::<OUT_LEN, _>(&poseidon2_instance(), params))
}

fn add(a: u32, b: u32) -> u32 {
    ((a as u64 + b as u64) % BABY_BEAR_PRIME as u64) as u32
}

fn plain_sponge(capacity: &[u32], input: &[u32], out_len: usize) -> Vec<u32> {
    let rate = 24 - capacity.len();
    let mut padded = input.to_vec();
    while padded.len() % rate != 0 {
        padded.push(0);
    }
    let mut state = [0u32; 24];
    state[..capacity.len()].copy_from_slice(capacity);
    for chunk in padded.chunks(rate) {
        for (s, c) in state.iter_mut().zip(chunk) {
            *s = add(*s, *c);
        }
        state = default_permute_24(state);
    }
    let mut out = Vec::new();
    while out.len() < out_len {
        out.extend_from_slice(&state[..rate]);
        state = default_permute_24(state);
    }
    out.truncate(out_len);
    out
}

fn packed_digits(params: &[usize], width: usize) -> Vec<u32> {
    let mut acc = BigUint::from(0u32);
    for item in params {
        acc = acc * BigUint::from(1u64 << 32) + BigUint::from(*item);
    }
    let prime = BigUint::from(BABY_BEAR_PRIME);
    let mut digits = Vec::new();
    for _ in 0..width {
        let digit = &acc % &prime;
        digits.push(digit.to_u32_digits().first().copied().unwrap_or(0));
        acc = acc / &prime;
    }
    digits
}

#[test]
fn instance_widths_are_16_and_24() {
    assert_eq!(<Poseidon2BabyBearShort as Poseidon2BabyBearValidWidth>::WIDTH, 16);
    assert_eq!(<Poseidon2BabyBearLong as Poseidon2BabyBearValidWidth>::WIDTH, 24);
}

#[test]
fn permute_agrees_with_the_default_permutation() {
    let state: Vec<u32> = (0..16).map(|i| i * 1000 + 7).collect();
    let permuted = canonical(&poseidon2_instance_short().permute(&elements(&state)));
    let mut array = [0u32; 16];
    array.copy_from_slice(&state);
    assert_eq!(permuted, default_permute_16(array));
    assert_ne!(permuted, state);

    let state: Vec<u32> = (0..24).map(|i| 2013265920 - i * 31).collect();
    let permuted = canonical(&poseidon2_instance().permute(&elements(&state)));
    let mut array = [0u32; 24];
    array.copy_from_slice(&state);
    assert_eq!(permuted, default_permute_24(array));
    assert_ne!(permuted, state);
}

#[test]
fn padded_permute_fills_up_with_zeros() {
    let x = [11u32, 22, 33];
    let mut padded = [0u32; 16];
    padded[..3].copy_from_slice(&x);
    assert_eq!(padded_permute_16(&x), default_permute_16(padded));

    let mut padded = [0u32; 24];
    padded[..3].copy_from_slice(&x);
    assert_eq!(padded_permute_24(&x), default_permute_24(padded));
}

#[test]
fn padded_permute_of_full_width_input_adds_no_padding() {
    let x: [u32; 16] = core::array::from_fn(|i| (i as u32 + 1) * 123456789 % BABY_BEAR_PRIME);
    let permuted = padded_permute_16(&x);
    assert_eq!(permuted, default_permute_16(x));
    assert_eq!(permuted.len(), 16);

    let x: [u32; 24] = core::array::from_fn(|i| (i as u32 + 5) * 1234567 % BABY_BEAR_PRIME);
    let permuted = padded_permute_24(&x);
    assert_eq!(permuted, default_permute_24(x));
    assert_eq!(permuted.len(), 24);
}

#[test]
fn padded_permute_of_empty_input_is_the_permutation_of_zeros() {
    assert_eq!(padded_permute_16(&[]), default_permute_16([0; 16]));
    assert_eq!(padded_permute_24(&[]), default_permute_24([0; 24]));
}

#[test]
fn padded_permute_returns_canonical_elements() {
    let permuted = padded_permute_24(&[u32::MAX, BABY_BEAR_PRIME, 5]);
    assert!(permuted.iter().all(|element| *element < BABY_BEAR_PRIME));
    assert_eq!(permuted, padded_permute_24(&[u32::MAX % BABY_BEAR_PRIME, 0, 5]));
}

#[test]
fn compress_adds_the_input_to_the_permuted_state() {
    let x = [5u32, 2013265920, 77, 1000000, 3, 9, 2013265000];
    let permuted = padded_permute_16(&x);
    let digest = compress_16::<7>(&x);
    for i in 0..7 {
        assert_eq!(digest[i], add(permuted[i], x[i]));
    }
    assert_eq!(compress_16::<4>(&x)[..], digest[..4]);
    assert_eq!(compress_16::<0>(&x), []);
}

#[test]
fn compress_of_full_width_input() {
    let x: [u32; 24] = core::array::from_fn(|i| i as u32 * 3 + 1);
    let digest = compress_24::<24>(&x);
    let permuted = default_permute_24(x);
    for i in 0..24 {
        assert_eq!(digest[i], add(permuted[i], x[i]));
    }
}

#[test]
fn sponge_agrees_with_a_plain_construction() {
    let capacity = [1u32, 2, 3, 4, 5, 6, 7, 8, 9];
    for len in [0usize, 1, 14, 15, 16, 29, 30, 31, 45, 100] {
        let input: Vec<u32> = (0..len as u32).map(|i| i * 7919 + 13).collect();
        let digest = sponge::<7, 9>(capacity, &input);
        assert_eq!(digest, plain_sponge(&capacity, &input, 7));
        let long_digest = sponge::<40, 9>(capacity, &input);
        assert_eq!(long_digest, plain_sponge(&capacity, &input, 40));
        assert_eq!(long_digest[..7], digest[..]);
    }
}

#[test]
fn sponge_with_rate_below_capacity() {
    let capacity: [u32; 20] = core::array::from_fn(|i| i as u32 + 100);
    let input: Vec<u32> = (0..9).collect();
    assert_eq!(sponge::<10, 20>(capacity, &input), plain_sponge(&capacity, &input, 10));
}

#[test]
fn sponge_of_empty_input_reads_the_initial_state() {
    assert_eq!(sponge::<5, 3>([10, 20, 30], &[]), [10, 20, 30, 0, 0]);
    assert_eq!(sponge::<0, 3>([10, 20, 30], &[1, 2, 3]), []);
}

#[test]
fn sponge_absorbs_into_the_capacity_positions() {
    // With rate 21 > capacity 3 the first chunk is added onto the capacity value.
    let digest = sponge::<24, 3>([10, 20, 30], &[1, 2, 3, 4]);
    let mut state = [0u32; 24];
    state[..4].copy_from_slice(&[11, 22, 33, 4]);
    let first = default_permute_24(state);
    let second = default_permute_24(first);
    assert_eq!(digest[..21], first[..21]);
    assert_eq!(digest[21..], second[..3]);
}

#[test]
fn sponge_is_deterministic() {
    let input: Vec<u32> = (0..50).collect();
    assert_eq!(sponge::<8, 8>([3; 8], &input), sponge::<8, 8>([3; 8], &input));
}

#[test]
fn sponge_output_changes_with_the_capacity_value() {
    let input: Vec<u32> = (0..50).collect();
    let first = sponge::<8, 8>([3; 8], &input);
    assert_ne!(first, sponge::<8, 8>([4; 8], &input));
    let mut other = [3u32; 8];
    other[7] = 5;
    assert_ne!(first, sponge::<8, 8>(other, &input));
}

#[test]
fn domain_separator_compresses_the_base_p_digits_of_the_packed_parameters() {
    let params = [5usize, 2, 64, 7];
    let separator = separator_24::<9>(&params);
    let input = packed_digits(&params, 24);
    assert_eq!(separator, compress_24::<9>(&input));
    let mut array = [0u32; 24];
    array.copy_from_slice(&input);
    let permuted = default_permute_24(array);
    for i in 0..9 {
        assert_eq!(separator[i], add(permuted[i], input[i]));
    }

    let short: [BabyBear; 4] =
        poseidon_safe_domain_separator(&poseidon2_instance_short(), &params);
    assert_eq!(canonical(&short), compress_16::<4>(&packed_digits(&params, 16)));
}

#[test]
fn domain_separator_input_digits_are_exact() {
    // 5 * 2^96 + 2 * 2^64 + 64 * 2^32 + 7 in base p
    let digits = packed_digits(&[5, 2, 64, 7], 24);
    assert_eq!(digits[..5], [981280554, 873906804, 1097602617, 48, 0]);
    assert!(digits[5..].iter().all(|digit| *digit == 0));
}

#[test]
fn domain_separator_tells_configurations_apart() {
    let first = separator_24::<8>(&[5, 2, 64, 7]);
    assert_ne!(first, separator_24::<8>(&[5, 2, 64, 8]));
    assert_ne!(first, separator_24::<8>(&[5, 2, 7, 64]));
    assert_eq!(first, separator_24::<8>(&[5, 2, 64, 7]));
}

#[test]
fn domain_separator_of_no_parameters_compresses_zeros() {
    let separator = separator_24::<8>(&[]);
    assert_eq!(separator, compress_24::<8>(&[0u32; 24]));
    assert_eq!(separator[..], default_permute_24([0; 24])[..8]);
}

#[test]
fn domain_separator_with_many_large_parameters() {
    let params: Vec<usize> = (0..40).map(|i| u32::MAX as usize - i).collect();
    let input = packed_digits(&params, 24);
    assert_eq!(separator_24::<24>(&params), compress_24::<24>(&input));
    assert!(input.iter().any(|digit| *digit != 0));
}

#[test]
fn permutation_of_the_zero_state_of_width_16() {
    assert_eq!(
        padded_permute_16(&[]),
        [
            1168947398, 128782440, 747404447, 883925857, 360581875, 1704698758, 1878363991,
            1054281681, 682225194, 705839125, 1218819873, 41544645, 1095344608, 174996601,
            1678438226, 11259290
        ]
    );
}

#[test]
fn padded_permutation_of_width_24() {
    assert_eq!(
        padded_permute_24(&[1, 2, 3]),
        [
            1251173414, 217210428, 1499016147, 477270446, 311992716, 416996844, 1293128504,
            1983056255, 938787612, 1258007345, 1587161448, 1414081706, 1754898577, 1468232544,
            14747813, 1761220209, 1943280225, 2012429711, 1746670534, 1009604027, 601834328,
            88613510, 1031123962, 1429806779
        ]
    );
}

#[test]
fn compression_vectors() {
    assert_eq!(
        compress_16::<4>(&[1, 2, 3, 4, 5]),
        [1745697959, 1883316609, 1528744217, 380958914]
    );
    assert_eq!(
        compress_24::<4>(&[1, 2, 3, 4, 5]),
        [1150047655, 198236408, 374583358, 1872633101]
    );
}

#[test]
fn sponge_vector() {
    assert_eq!(
        sponge::<6, 8>([1, 2, 3, 4, 5, 6, 7, 8], &[9, 10, 11]),
        [1206464798, 1259147269, 893640007, 458049327, 262877528, 15162756]
    );
}

#[test]
fn domain_separator_vector() {
    assert_eq!(
        separator_24::<9>(&[5, 2, 64, 7]),
        [
            1404669101, 230363176, 2270619, 1160418583, 1781768708, 1727277734, 1021234898,
            1608354823, 48533344
        ]
    );
}
