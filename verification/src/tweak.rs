//! Tweaks: the position of a hash call inside the signature scheme, packed
//! into one integer and written out as field elements.

use crate::field::{
    base_p_capacity, base_p_digits, base_p_expand, lemma_base_p_digits_equal_iff_congruent,
    lemma_base_p_digits_injective, lemma_three_digits_hold_72_bits,
    lemma_two_digits_hold_48_bits, values, BabyBear,
};
use vstd::prelude::*;

verus! {

/// The separator for message hash tweaks.
pub const TWEAK_SEPARATOR_FOR_MESSAGE_HASH: u8 = 0x02;

/// The separator for tree hash tweaks.
pub const TWEAK_SEPARATOR_FOR_TREE_HASH: u8 = 0x01;

/// The separator for chain hash tweaks.
pub const TWEAK_SEPARATOR_FOR_CHAIN_HASH: u8 = 0x00;

/// A trait for converting tweaks into field elements for Poseidon2 hashing.
pub trait TweakTransfformation<const TWEAK_LEN: usize> {
    /// The field elements that stand for `self`, each by its canonical
    /// representative.
    spec fn spec_field_elements(&self) -> Seq<u32>;

    /// Converts the tweak into field elements for Poseidon2 hashing.
    ///
    /// In Poseidon2, tweaks need to be encoded as elements of a finite field.
    fn to_field_elements(&self) -> (elements: [BabyBear; TWEAK_LEN])
        ensures
            values(elements@) == self.spec_field_elements(),
    ;
}

/// The position of a node in the Merkle tree.
#[derive(Debug, Clone, Copy, PartialEq, Eq, Hash, Structural)]
pub struct TreeTweak {
    /// The depth of the node in the Merkle tree.
    level: u8,
    /// The position of the node in the given level.
    position: u32,
}

impl TreeTweak {
    /// The depth of the node in the Merkle tree.
    pub closed spec fn spec_level(&self) -> u8 {
        self.level
    }

    /// The position of the node in its level.
    pub closed spec fn spec_position(&self) -> u32 {
        self.position
    }

    /// The integer that the tweak is packed into: the level from bit 40 up,
    /// the position from bit 8 up, the tree separator in the low byte.
    pub open spec fn packed(&self) -> nat {
        (self.spec_level() as nat) * 0x100_0000_0000 + (self.spec_position() as nat) * 0x100
            + TWEAK_SEPARATOR_FOR_TREE_HASH as nat
    }

    /// The tweak of the node at `position` in level `level`.
    pub fn new(level: u8, position: u32) -> (tweak: Self)
        ensures
            tweak.spec_level() == level,
            tweak.spec_position() == position,
    {
        TreeTweak { level, position }
    }

    /// The depth of the node in the Merkle tree.
    pub fn level(&self) -> (level: u8)
        ensures
            level == self.spec_level(),
    {
        self.level
    }

    /// The position of the node in its level.
    pub fn position(&self) -> (position: u32)
        ensures
            position == self.spec_position(),
    {
        self.position
    }
}

impl<const TWEAK_LEN: usize> TweakTransfformation<TWEAK_LEN> for TreeTweak {
    open spec fn spec_field_elements(&self) -> Seq<u32> {
        base_p_digits(self.packed(), TWEAK_LEN as nat)
    }

    fn to_field_elements(&self) -> (elements: [BabyBear; TWEAK_LEN]) {
        let level: u64 = self.level as u64;
        let position: u64 = self.position as u64;
        let tweak: u64 = (level << 40) | (position << 8) | (TWEAK_SEPARATOR_FOR_TREE_HASH as u64);
        assert(tweak == level * 0x100_0000_0000 + position * 0x100 + 0x01) by (bit_vector)
            requires
                tweak == (level << 40) | (position << 8) | 0x01u64,
                level < 0x100,
                position < 0x1_0000_0000,
        ;
        base_p_expand(tweak as u128)
    }
}

/// The position of a value in one of the hash chains.
#[derive(Debug, Clone, Copy, PartialEq, Eq, Hash, Structural)]
pub struct ChainTweak {
    /// The key epoch (time interval) of the signature scheme.
    epoch: u32,
    /// Which chain the value belongs to.
    chain_index: u16,
    /// The position of the value in the chain.
    position: u16,
}

impl ChainTweak {
    /// The key epoch of the signature scheme.
    pub closed spec fn spec_epoch(&self) -> u32 {
        self.epoch
    }

    /// Which chain the value belongs to.
    pub closed spec fn spec_chain_index(&self) -> u16 {
        self.chain_index
    }

    /// The position of the value in the chain.
    pub closed spec fn spec_position(&self) -> u16 {
        self.position
    }

    /// The integer that the tweak is packed into: the epoch from bit 40 up,
    /// the chain index from bit 24 up, the position from bit 8 up, the chain
    /// separator in the low byte.
    pub open spec fn packed(&self) -> nat {
        (self.spec_epoch() as nat) * 0x100_0000_0000 + (self.spec_chain_index() as nat)
            * 0x100_0000 + (self.spec_position() as nat) * 0x100
            + TWEAK_SEPARATOR_FOR_CHAIN_HASH as nat
    }

    /// The tweak of step `position` of chain `chain_index` in `epoch`.
    pub fn new(epoch: u32, chain_index: u16, position: u16) -> (tweak: Self)
        ensures
            tweak.spec_epoch() == epoch,
            tweak.spec_chain_index() == chain_index,
            tweak.spec_position() == position,
    {
        ChainTweak { epoch, chain_index, position }
    }

    /// The key epoch of the signature scheme.
    pub fn epoch(&self) -> (epoch: u32)
        ensures
            epoch == self.spec_epoch(),
    {
        self.epoch
    }

    /// Which chain the value belongs to.
    pub fn chain_index(&self) -> (chain_index: u16)
        ensures
            chain_index == self.spec_chain_index(),
    {
        self.chain_index
    }

    /// The position of the value in the chain.
    pub fn position(&self) -> (position: u16)
        ensures
            position == self.spec_position(),
    {
        self.position
    }
}

impl<const TWEAK_LEN: usize> TweakTransfformation<TWEAK_LEN> for ChainTweak {
    open spec fn spec_field_elements(&self) -> Seq<u32> {
        base_p_digits(self.packed(), TWEAK_LEN as nat)
    }

    fn to_field_elements(&self) -> (elements: [BabyBear; TWEAK_LEN]) {
        let epoch: u128 = self.epoch as u128;
        let chain_index: u128 = self.chain_index as u128;
        let position: u128 = self.position as u128;
        let tweak: u128 = (epoch << 40) | (chain_index << 24) | (position << 8) | (
        TWEAK_SEPARATOR_FOR_CHAIN_HASH as u128);
        assert(tweak == epoch * 0x100_0000_0000 + chain_index * 0x100_0000 + position * 0x100)
            by (bit_vector)
            requires
                tweak == (epoch << 40) | (chain_index << 24) | (position << 8) | 0x00u128,
                epoch < 0x1_0000_0000,
                chain_index < 0x1_0000,
                position < 0x1_0000,
        ;
        base_p_expand(tweak)
    }
}

/// A tweak of either kind.
#[derive(Debug, Clone, Copy, PartialEq, Eq, Hash, Structural)]
pub enum PoseidonTweak {
    Tree(TreeTweak),
    Chain(ChainTweak),
}

impl PoseidonTweak {
    /// The integer that the tweak is packed into.
    pub open spec fn packed(&self) -> nat {
        match self {
            PoseidonTweak::Tree(tree_tweak) => tree_tweak.packed(),
            PoseidonTweak::Chain(chain_tweak) => chain_tweak.packed(),
        }
    }

    /// The tweak of the tree node at `position` in level `level`.
    pub fn new_tree(level: u8, position: u32) -> (tweak: Self)
        ensures
            tweak matches PoseidonTweak::Tree(tree_tweak) && tree_tweak.spec_level() == level
                && tree_tweak.spec_position() == position,
    {
        PoseidonTweak::Tree(TreeTweak::new(level, position))
    }

    /// The tweak of step `position` of chain `chain_index` in `epoch`.
    pub fn new_chain(epoch: u32, chain_index: u16, position: u16) -> (tweak: Self)
        ensures
            tweak matches PoseidonTweak::Chain(chain_tweak) && chain_tweak.spec_epoch() == epoch
                && chain_tweak.spec_chain_index() == chain_index && chain_tweak.spec_position()
                == position,
    {
        PoseidonTweak::Chain(ChainTweak::new(epoch, chain_index, position))
    }
}

impl<const TWEAK_LEN: usize> TweakTransfformation<TWEAK_LEN> for PoseidonTweak {
    open spec fn spec_field_elements(&self) -> Seq<u32> {
        base_p_digits(self.packed(), TWEAK_LEN as nat)
    }

    fn to_field_elements(&self) -> (elements: [BabyBear; TWEAK_LEN]) {
        match self {
            PoseidonTweak::Tree(tree_tweak) => tree_tweak.to_field_elements(),
            PoseidonTweak::Chain(chain_tweak) => chain_tweak.to_field_elements(),
        }
    }
}

/// A tree tweak and a chain tweak are never packed into the same integer:
/// the low byte holds the separator of the kind.
pub proof fn lemma_tree_and_chain_packed_differ(tree: TreeTweak, chain: ChainTweak)
    ensures
        tree.packed() % 0x100 == TWEAK_SEPARATOR_FOR_TREE_HASH,
        chain.packed() % 0x100 == TWEAK_SEPARATOR_FOR_CHAIN_HASH,
        tree.packed() != chain.packed(),
        tree.packed() < 0x1_0000_0000_0000,
        chain.packed() < 0x1_00_0000_0000_0000_0000,
{
}

/// A tree tweak and a chain tweak have the same `len` field elements exactly
/// if their packed integers differ by a multiple of `p^len`: the digits from
/// position `len` on are dropped.
pub proof fn lemma_tree_and_chain_encodings_equal_iff(
    tree: TreeTweak,
    chain: ChainTweak,
    len: nat,
)
    ensures
        base_p_digits(tree.packed(), len) == base_p_digits(chain.packed(), len) <==> tree.packed()
            % base_p_capacity(len) == chain.packed() % base_p_capacity(len),
{
    lemma_base_p_digits_equal_iff_congruent(tree.packed(), chain.packed(), len);
}

/// A tree tweak and a chain tweak never have the same field elements, as
/// long as the elements are enough to hold both packed integers.
pub proof fn lemma_tree_and_chain_encodings_differ(tree: TreeTweak, chain: ChainTweak, len: nat)
    requires
        tree.packed() < base_p_capacity(len),
        chain.packed() < base_p_capacity(len),
    ensures
        base_p_digits(tree.packed(), len) != base_p_digits(chain.packed(), len),
{
    lemma_tree_and_chain_packed_differ(tree, chain);
    if base_p_digits(tree.packed(), len) == base_p_digits(chain.packed(), len) {
        lemma_base_p_digits_injective(tree.packed(), chain.packed(), len);
    }
}

/// With three field elements or more, no tree tweak has the field elements
/// of a chain tweak.
pub proof fn lemma_three_elements_separate_tree_and_chain(
    tree: TreeTweak,
    chain: ChainTweak,
    len: nat,
)
    requires
        len >= 3,
    ensures
        base_p_digits(tree.packed(), len) != base_p_digits(chain.packed(), len),
{
    lemma_tree_and_chain_packed_differ(tree, chain);
    lemma_three_digits_hold_72_bits(len);
    lemma_tree_and_chain_encodings_differ(tree, chain, len);
}

/// With three field elements or more, tweaks of different kinds never have
/// the same field elements.
pub proof fn lemma_tweak_kinds_never_collide(a: PoseidonTweak, b: PoseidonTweak, len: nat)
    requires
        len >= 3,
        (a is Tree) != (b is Tree),
    ensures
        base_p_digits(a.packed(), len) != base_p_digits(b.packed(), len),
{
    match (a, b) {
        (PoseidonTweak::Tree(tree), PoseidonTweak::Chain(chain)) => {
            lemma_three_elements_separate_tree_and_chain(tree, chain, len);
        },
        (PoseidonTweak::Chain(chain), PoseidonTweak::Tree(tree)) => {
            lemma_three_elements_separate_tree_and_chain(tree, chain, len);
        },
        _ => {},
    }
}

/// With two field elements or more, tree tweaks with the same field elements
/// are the same tweak.
pub proof fn lemma_tree_encoding_injective(a: TreeTweak, b: TreeTweak, len: nat)
    requires
        len >= 2,
        base_p_digits(a.packed(), len) == base_p_digits(b.packed(), len),
    ensures
        a.spec_level() == b.spec_level(),
        a.spec_position() == b.spec_position(),
{
    lemma_two_digits_hold_48_bits(len);
    lemma_base_p_digits_injective(a.packed(), b.packed(), len);
}

/// With three field elements or more, chain tweaks with the same field
/// elements are the same tweak.
pub proof fn lemma_chain_encoding_injective(a: ChainTweak, b: ChainTweak, len: nat)
    requires
        len >= 3,
        base_p_digits(a.packed(), len) == base_p_digits(b.packed(), len),
    ensures
        a.spec_epoch() == b.spec_epoch(),
        a.spec_chain_index() == b.spec_chain_index(),
        a.spec_position() == b.spec_position(),
{
    lemma_three_digits_hold_72_bits(len);
    lemma_base_p_digits_injective(a.packed(), b.packed(), len);
}

} // verus!
