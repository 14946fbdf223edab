use poseidon_tweak_hash::field::BabyBear;
use poseidon_tweak_hash::poseidon2::{
    absorb_chunk_into, domain_separator_input, feed_forward, sponge_start, squeeze_into, zero_pad,
};
use poseidon_tweak_hash::tweak::PoseidonTweak;
use poseidon_tweak_hash::tweak_hash::PoseidonTweakHash;

const PRIME: u32 = 2013265921;

fn elements(values: &[u32]) -> Vec<BabyBear> {
    values.iter().map(|value| BabyBear::new(*value)).collect()
}

fn canonical(elements: &[BabyBear]) -> Vec<u32> {
    elements.iter().map(|element| element.as_canonical_u32()).collect()
}

#[test]
fn zero_pad_fills_up_on_the_right() {
    assert_eq!(canonical(&zero_pad(&elements(&[7, 8]), 5)), [7, 8, 0, 0, 0]);
    assert_eq!(canonical(&zero_pad(&[], 3)), [0, 0, 0]);
    assert_eq!(canonical(&zero_pad(&elements(&[1, 2, 3]), 3)), [1, 2, 3]);
    assert_eq!(canonical(&zero_pad(&[], 0)), []);
}

#[test]
fn feed_forward_adds_and_truncates() {
    let permuted = elements(&[PRIME - 1, 2, 3]);
    let x = elements(&[10, 20, 30]);
    let digest: [BabyBear; 2] = feed_forward(&permuted, &x);
    assert_eq!(canonical(&digest), [9, 22]);
    let whole: [BabyBear; 3] = feed_forward(&permuted, &x);
    assert_eq!(canonical(&whole), [9, 22, 33]);
    let none: [BabyBear; 0] = feed_forward(&permuted, &x);
    assert_eq!(canonical(&none), []);
}

#[test]
fn feed_forward_takes_the_shorter_input_as_far_as_needed() {
    let digest: [BabyBear; 2] =
        feed_forward(&elements(&[1, 2, 3, 4, 5]), &elements(&[100, 200]));
    assert_eq!(canonical(&digest), [101, 202]);
}

#[test]
fn sponge_start_puts_the_capacity_value_first() {
    assert_eq!(canonical(&sponge_start(&elements(&[5, 6, 7]), 6)), [5, 6, 7, 0, 0, 0]);
    assert_eq!(canonical(&sponge_start(&[], 2)), [0, 0]);
}

#[test]
fn absorb_adds_a_chunk_into_the_first_elements() {
    let x = elements(&[1, 2, 3, 4, 5]);
    let mut state = elements(&[10, 20, 30, 40]);
    absorb_chunk_into(&mut state, &x, 0, 3);
    assert_eq!(canonical(&state), [11, 22, 33, 40]);
    absorb_chunk_into(&mut state, &x, 3, 3);
    assert_eq!(canonical(&state), [15, 27, 33, 40]);
}

#[test]
fn absorb_wraps_at_the_prime() {
    let mut state = elements(&[PRIME - 1, PRIME - 2]);
    absorb_chunk_into(&mut state, &elements(&[1, 5]), 0, 2);
    assert_eq!(canonical(&state), [0, 3]);
}

#[test]
fn absorb_past_the_end_of_the_input_adds_zeros() {
    let mut state = elements(&[10, 20]);
    absorb_chunk_into(&mut state, &elements(&[1, 2]), 2, 2);
    assert_eq!(canonical(&state), [10, 20]);
    let mut untouched = elements(&[1, 2, 3]);
    absorb_chunk_into(&mut untouched, &elements(&[9, 9, 9]), 0, 0);
    assert_eq!(canonical(&untouched), [1, 2, 3]);
}

#[test]
fn squeeze_reads_whole_blocks_until_the_output_is_full() {
    let mut out = Vec::new();
    squeeze_into(&mut out, &elements(&[1, 2, 3, 4]), 3, 5);
    assert_eq!(canonical(&out), [1, 2, 3]);
    squeeze_into(&mut out, &elements(&[7, 8, 9, 10]), 3, 5);
    assert_eq!(canonical(&out), [1, 2, 3, 7, 8]);
    squeeze_into(&mut out, &elements(&[7, 8, 9, 10]), 3, 5);
    assert_eq!(canonical(&out), [1, 2, 3, 7, 8]);
}

#[test]
fn domain_separator_input_is_the_packed_configuration_in_base_p() {
    assert_eq!(canonical(&domain_separator_input(&[5], 3)), [5, 0, 0]);
    // 2^32 = 2 p + 268435454
    assert_eq!(canonical(&domain_separator_input(&[1, 0], 3)), [268435454, 2, 0]);
    // 5 * 2^96 + 2 * 2^64 + 64 * 2^32 + 7
    assert_eq!(
        canonical(&domain_separator_input(&[5, 2, 64, 7], 6)),
        [981280554, 873906804, 1097602617, 48, 0, 0]
    );
    assert_eq!(canonical(&domain_separator_input(&[], 2)), [0, 0]);
}

#[test]
fn domain_separator_input_drops_digits_beyond_the_width() {
    assert_eq!(canonical(&domain_separator_input(&[5, 2, 64, 7], 2)), [981280554, 873906804]);
    assert_eq!(canonical(&domain_separator_input(&[5, 2, 64, 7], 0)), []);
}

#[test]
fn combined_input_is_parameter_tweak_and_blocks() {
    let tweak = PoseidonTweak::new_tree(1, 2);
    let hash = PoseidonTweakHash::<18, 8, 4, 3, 2, 2, 9, 64>::new(
        [11, 12, 13].map(BabyBear::new),
        tweak,
        vec![[21, 22].map(BabyBear::new), [31, 32].map(BabyBear::new), [41, 42].map(BabyBear::new)],
    )
    .expect("fits");
    assert_eq!(
        canonical(&hash.combined_input()),
        [11, 12, 13, 268435423, 546, 21, 22, 31, 32, 41, 42]
    );
}

#[test]
fn combined_input_without_blocks() {
    let tweak = PoseidonTweak::new_chain(1, 2, 3);
    let hash =
        PoseidonTweakHash::<18, 8, 4, 1, 2, 3, 9, 64>::new([BabyBear::new(11)], tweak, Vec::new())
            .expect("fits");
    assert_eq!(canonical(&hash.combined_input()), [11, 301990110, 546, 0]);
}
