//! The tweakable hash: a public parameter, a tweak and one or more message
//! blocks, hashed by compression where there are one or two blocks and by
//! the sponge where there are more.

use crate::field::{base_p_digits, values, BabyBear};
use crate::poseidon2::{
    poseidon2_compress, poseidon2_sponge, poseidon_safe_domain_separator, spec_compress,
    spec_domain_separator, spec_sponge,
};
use crate::poseidon2_config::{
    lemma_instance_widths, long_permutation, poseidon2_instance, poseidon2_instance_short,
    short_permutation, POSEIDON2_WIDTH_16, POSEIDON2_WIDTH_24,
};
use crate::tweak::{PoseidonTweak, TweakTransfformation};
use vstd::prelude::*;

verus! {

/// The number of configuration integers that the domain separator is made
/// from.
pub const DOMAIN_PARAMETERS_LENGTH: usize = 4;

/// The message blocks one after the other, each element by its canonical
/// representative: element `k` is element `k % N` of block `k / N`.
pub open spec fn concatenated<const N: usize>(blocks: Seq<[BabyBear; N]>) -> Seq<u32> {
    Seq::new((blocks.len() * N) as nat, |k: int| blocks[k / (N as int)]@[k % (N as int)]@)
}

/// A Poseidon tweak hash representation.
///
/// This struct defines a tweakable hash function based on the Poseidon2 permutation.
///
/// ## Parameters:
///
/// - `LOG_LIFETIME`: Determines the total lifetime of the Merkle tree in powers of 2. The number of
///   leaves in the Merkle tree for this instantiation is `2^LOG_LIFETIME`. A higher value means a
///   longer lifetime, allowing more signatures before key rotation is needed.
///
/// - `CEIL_LOG_NUM_CHAINS`: Represents an upper bound (ceil) on the logarithm (base 2) of the
///   number of chains in the hash-based signature scheme. This affects the number of parallel
///   chains used in signature generation, ensuring security and efficiency.
///
/// - `CHUNK_SIZE`: Defines the number of field elements per chunk when processing messages. Larger
///   chunk sizes reduce the number of hash function calls but require more precomputed values.
///
/// - `PARAMETER_LEN`: Specifies the number of field elements used to encode public parameters.
///   Public parameters are fixed per user or system-wide and are included in the hashing process.
///
/// - `HASH_LEN`: The length of the hash output in terms of field elements. This defines the
///   security level of the hash function, affecting collision and preimage resistance.
///
/// - `TWEAK_LEN`: Defines the number of field elements used to encode the tweak. The tweak provides
///   domain separation between different hash function calls, preventing collision attacks and
///   ensuring security in hierarchical signature schemes.
///
/// - `CAPACITY`: Represents the number of field elements reserved for capacity in the Poseidon
///   sponge. Capacity determines resistance to collision attacks by ensuring enough diffusion in
///   the permutation.
///
/// - `NUM_CHUNKS`: Defines the total number of chunks used to process an input message. This
///   determines how the message is split for hashing and affects the overall signature scheme
///   efficiency.
#[derive(Debug)]
pub struct PoseidonTweakHash<
    const LOG_LIFETIME: usize,
    const CEIL_LOG_NUM_CHAINS: usize,
    const CHUNK_SIZE: usize,
    const PARAMETER_LEN: usize,
    const HASH_LEN: usize,
    const TWEAK_LEN: usize,
    const CAPACITY: usize,
    const NUM_CHUNKS: usize,
> {
    parameter: [BabyBear; PARAMETER_LEN],
    tweak: PoseidonTweak,
    message: Vec<[BabyBear; HASH_LEN]>,
}

/// Whether a hash of `blocks` message blocks is within what the permutations
/// can take: with one block the whole input fits the state of width 16, with
/// two blocks that of width 24; with any other number the capacity leaves
/// room for a rate in the state of width 24, and the input's length is a
/// `usize`.
pub open spec fn configuration_fits(
    parameter_len: nat,
    tweak_len: nat,
    hash_len: nat,
    capacity: nat,
    blocks: nat,
) -> bool {
    if blocks == 1 {
        parameter_len + tweak_len + hash_len <= POSEIDON2_WIDTH_16
    } else if blocks == 2 {
        parameter_len + tweak_len + 2 * hash_len <= POSEIDON2_WIDTH_24
    } else {
        capacity < POSEIDON2_WIDTH_24 && parameter_len + tweak_len + blocks * hash_len
            <= usize::MAX
    }
}

impl<
    const LOG_LIFETIME: usize,
    const CEIL_LOG_NUM_CHAINS: usize,
    const CHUNK_SIZE: usize,
    const PARAMETER_LEN: usize,
    const HASH_LEN: usize,
    const TWEAK_LEN: usize,
    const CAPACITY: usize,
    const NUM_CHUNKS: usize,
> PoseidonTweakHash<
    LOG_LIFETIME,
    CEIL_LOG_NUM_CHAINS,
    CHUNK_SIZE,
    PARAMETER_LEN,
    HASH_LEN,
    TWEAK_LEN,
    CAPACITY,
    NUM_CHUNKS,
> {
    #[verifier::type_invariant]
    spec fn fits(self) -> bool {
        configuration_fits(
            PARAMETER_LEN as nat,
            TWEAK_LEN as nat,
            HASH_LEN as nat,
            CAPACITY as nat,
            self.message@.len(),
        )
    }

    /// The public parameter, each element by its canonical representative.
    pub closed spec fn spec_parameter(&self) -> Seq<u32> {
        values(self.parameter@)
    }

    /// The tweak.
    pub closed spec fn spec_tweak(&self) -> PoseidonTweak {
        self.tweak
    }

    /// The message blocks.
    pub closed spec fn spec_message(&self) -> Seq<[BabyBear; HASH_LEN]> {
        self.message@
    }

    /// What is hashed: the parameter, then the tweak's field elements, then
    /// the message blocks.
    pub open spec fn spec_input(&self) -> Seq<u32> {
        self.spec_parameter() + base_p_digits(self.spec_tweak().packed(), TWEAK_LEN as nat)
            + concatenated(self.spec_message())
    }

    /// The configuration integers that the domain separator of the sponge is
    /// made from.
    pub open spec fn spec_domain_parameters() -> Seq<usize> {
        seq![PARAMETER_LEN, TWEAK_LEN, NUM_CHUNKS, HASH_LEN]
    }

    /// The digest: with one message block the compression of the input under
    /// the permutation of width 16, with two blocks its compression under
    /// the permutation of width 24, and with any other number of blocks its
    /// sponge hash under the permutation of width 24, the capacity seeded
    /// with the domain separator of the configuration.
    pub open spec fn spec_apply(&self) -> Seq<u32> {
        if self.spec_message().len() == 1 {
            spec_compress(
                short_permutation(),
                POSEIDON2_WIDTH_16 as nat,
                self.spec_input(),
                HASH_LEN as nat,
            )
        } else if self.spec_message().len() == 2 {
            spec_compress(
                long_permutation(),
                POSEIDON2_WIDTH_24 as nat,
                self.spec_input(),
                HASH_LEN as nat,
            )
        } else {
            spec_sponge(
                long_permutation(),
                POSEIDON2_WIDTH_24 as nat,
                spec_domain_separator(
                    long_permutation(),
                    POSEIDON2_WIDTH_24 as nat,
                    Self::spec_domain_parameters(),
                    CAPACITY as nat,
                ),
                self.spec_input(),
                HASH_LEN as nat,
            )
        }
    }

    /// Puts parameter, tweak and message blocks together. There is no hash
    /// of them where the configuration does not fit the number of blocks.
    pub fn new(
        parameter: [BabyBear; PARAMETER_LEN],
        tweak: PoseidonTweak,
        message: Vec<[BabyBear; HASH_LEN]>,
    ) -> (hash: Option<Self>)
        ensures
            hash is Some <==> configuration_fits(
                PARAMETER_LEN as nat,
                TWEAK_LEN as nat,
                HASH_LEN as nat,
                CAPACITY as nat,
                message@.len(),
            ),
            hash matches Some(h) ==> h.spec_parameter() == values(parameter@) && h.spec_tweak()
                == tweak && h.spec_message() == message@,
    {
        let blocks: usize = message.len();
        let fits: bool = if blocks == 1 {
            PARAMETER_LEN <= POSEIDON2_WIDTH_16 && TWEAK_LEN <= POSEIDON2_WIDTH_16 && HASH_LEN
                <= POSEIDON2_WIDTH_16 && PARAMETER_LEN + TWEAK_LEN + HASH_LEN
                <= POSEIDON2_WIDTH_16
        } else if blocks == 2 {
            PARAMETER_LEN <= POSEIDON2_WIDTH_24 && TWEAK_LEN <= POSEIDON2_WIDTH_24 && HASH_LEN
                <= POSEIDON2_WIDTH_24 && PARAMETER_LEN + TWEAK_LEN + 2 * HASH_LEN
                <= POSEIDON2_WIDTH_24
        } else {
            CAPACITY < POSEIDON2_WIDTH_24 && match blocks.checked_mul(HASH_LEN) {
                Some(message_len) => match PARAMETER_LEN.checked_add(TWEAK_LEN) {
                    Some(prefix_len) => prefix_len.checked_add(message_len).is_some(),
                    None => false,
                },
                None => false,
            }
        };
        if fits {
            Some(PoseidonTweakHash { parameter, tweak, message })
        } else {
            None
        }
    }

    /// Computes the digest.
    pub fn apply(&self) -> (digest: [BabyBear; HASH_LEN])
        ensures
            values(digest@) == self.spec_apply(),
            self.spec_message().len() == 1 ==> values(digest@) == spec_compress(
                short_permutation(),
                POSEIDON2_WIDTH_16 as nat,
                self.spec_input(),
                HASH_LEN as nat,
            ),
            self.spec_message().len() == 2 ==> values(digest@) == spec_compress(
                long_permutation(),
                POSEIDON2_WIDTH_24 as nat,
                self.spec_input(),
                HASH_LEN as nat,
            ),
            digest@.len() == HASH_LEN,
    {
        proof {
            use_type_invariant(self);
            lemma_instance_widths();
        }
        let combined_input = self.combined_input();
        let blocks: usize = self.message.len();
        if blocks == 1 {
            // we compress parameter, tweak, message
            poseidon2_compress::<HASH_LEN, _>(
                &poseidon2_instance_short(),
                combined_input.as_slice(),
            )
        } else if blocks == 2 {
            poseidon2_compress::<HASH_LEN, _>(&poseidon2_instance(), combined_input.as_slice())
        } else {
            let lengths: [usize; DOMAIN_PARAMETERS_LENGTH] = [
                PARAMETER_LEN,
                TWEAK_LEN,
                NUM_CHUNKS,
                HASH_LEN,
            ];
            assert(lengths@ =~= Self::spec_domain_parameters());
            let poseidon_instance = poseidon2_instance();
            let safe_input = poseidon_safe_domain_separator::<CAPACITY, _>(
                &poseidon_instance,
                lengths.as_slice(),
            );
            poseidon2_sponge::<HASH_LEN, CAPACITY, _>(
                &poseidon_instance,
                &safe_input,
                combined_input.as_slice(),
            )
        }
    }

    /// The input of the hash as one vector: the parameter, the tweak's field
    /// elements, the message blocks.
    pub fn combined_input(&self) -> (input: Vec<BabyBear>)
        ensures
            values(input@) == self.spec_input(),
            input@.len() == self.spec_input().len(),
    {
        proof {
            use_type_invariant(self);
        }
        let tweak_fe: [BabyBear; TWEAK_LEN] = self.tweak.to_field_elements();
        let mut input: Vec<BabyBear> = Vec::new();
        let mut i: usize = 0;
        while i < PARAMETER_LEN
            invariant
                i <= PARAMETER_LEN,
                input@ == self.parameter@.take(i as int),
            decreases PARAMETER_LEN - i,
        {
            input.push(self.parameter[i]);
            assert(input@ =~= self.parameter@.take(i + 1));
            i += 1;
        }
        assert(input@ =~= self.parameter@);
        let mut j: usize = 0;
        while j < TWEAK_LEN
            invariant
                j <= TWEAK_LEN,
                input@ == self.parameter@ + tweak_fe@.take(j as int),
            decreases TWEAK_LEN - j,
        {
            input.push(tweak_fe[j]);
            assert(input@ =~= self.parameter@ + tweak_fe@.take(j + 1));
            j += 1;
        }
        assert(input@ =~= self.parameter@ + tweak_fe@);
        let ghost prefix = input@;
        let blocks: usize = self.message.len();
        let mut b: usize = 0;
        while b < blocks
            invariant
                b <= blocks,
                blocks == self.message@.len(),
                input@.len() == prefix.len() + b * HASH_LEN,
                forall|k: int| 0 <= k < prefix.len() ==> input@[k] == prefix[k],
                forall|k: int|
                    0 <= k < b * HASH_LEN ==> input@[prefix.len() + k]@ == concatenated(
                        self.message@,
                    )[k],
            decreases blocks - b,
        {
            let block = &self.message[b];
            let mut e: usize = 0;
            while e < HASH_LEN
                invariant
                    e <= HASH_LEN,
                    b < blocks,
                    blocks == self.message@.len(),
                    *block == self.message@[b as int],
                    input@.len() == prefix.len() + b * HASH_LEN + e,
                    forall|k: int| 0 <= k < prefix.len() ==> input@[k] == prefix[k],
                    forall|k: int|
                        0 <= k < b * HASH_LEN + e ==> input@[prefix.len() + k]@ == concatenated(
                            self.message@,
                        )[k],
                decreases HASH_LEN - e,
            {
                proof {
                    vstd::arithmetic::div_mod::lemma_fundamental_div_mod_converse(
                        b * HASH_LEN + e,
                        HASH_LEN as int,
                        b as int,
                        e as int,
                    );
                    assert(b * HASH_LEN + e < blocks * HASH_LEN) by (nonlinear_arith)
                        requires
                            b < blocks,
                            e < HASH_LEN,
                    ;
                }
                input.push(block[e]);
                e += 1;
            }
            proof {
                assert((b + 1) * HASH_LEN == b * HASH_LEN + HASH_LEN) by (nonlinear_arith);
            }
            b += 1;
        }
        proof {
            let expected = values(self.parameter@) + values(tweak_fe@) + concatenated(
                self.message@,
            );
            assert(values(input@).len() == expected.len());
            assert forall|k: int| 0 <= k < input@.len() implies values(input@)[k]
                == expected[k] by {
                if k < PARAMETER_LEN {
                    assert(input@[k] == prefix[k]);
                    assert(prefix[k] == self.parameter@[k]);
                } else if k < prefix.len() {
                    assert(input@[k] == prefix[k]);
                    assert(prefix[k] == tweak_fe@[k - PARAMETER_LEN]);
                } else {
                    assert(input@[prefix.len() + (k - prefix.len())]@ == concatenated(
                        self.message@,
                    )[k - prefix.len()]);
                }
            }
            assert(values(input@) =~= expected);
        }
        input
    }
}

impl<
    const LOG_LIFETIME: usize,
    const CEIL_LOG_NUM_CHAINS: usize,
    const CHUNK_SIZE: usize,
    const PARAMETER_LEN: usize,
    const HASH_LEN: usize,
    const TWEAK_LEN: usize,
    const CAPACITY: usize,
    const NUM_CHUNKS: usize,
> Clone for PoseidonTweakHash<
    LOG_LIFETIME,
    CEIL_LOG_NUM_CHAINS,
    CHUNK_SIZE,
    PARAMETER_LEN,
    HASH_LEN,
    TWEAK_LEN,
    CAPACITY,
    NUM_CHUNKS,
> {
    fn clone(&self) -> (copy: Self)
        ensures
            copy.spec_parameter() == self.spec_parameter(),
            copy.spec_tweak() == self.spec_tweak(),
            copy.spec_message() == self.spec_message(),
            copy.spec_apply() == self.spec_apply(),
    {
        proof {
            use_type_invariant(self);
        }
        let mut message: Vec<[BabyBear; HASH_LEN]> = Vec::with_capacity(self.message.len());
        let mut i: usize = 0;
        while i < self.message.len()
            invariant
                i <= self.message@.len(),
                message@ == self.message@.take(i as int),
            decreases self.message@.len() - i,
        {
            message.push(self.message[i]);
            assert(message@ =~= self.message@.take(i + 1));
            i += 1;
        }
        assert(self.message@.take(self.message@.len() as int) =~= self.message@);
        PoseidonTweakHash { parameter: self.parameter, tweak: self.tweak, message }
    }
}

} // verus!
