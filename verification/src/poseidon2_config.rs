//! Round constants of the Poseidon2 permutation over Baby Bear, and the
//! permutations of width 16 and 24 that are made from them.
//!
//! The permutation itself is the one of `p3_poseidon2`, and the round
//! constants come from the tables of `zkhash`. Both are reached through a
//! few functions whose contracts are taken on trust; they stand together
//! below, each under the name that the contracts give to what it returns.

use crate::field::{values, BabyBear, BABY_BEAR_PRIME};
use p3_field::PrimeField32;
use p3_symmetric::Permutation;
use vstd::prelude::*;
use zkhash::ark_ff::PrimeField;

verus! {

/// The half of the Baby Bear Poseidon2 full round permutation
pub const BABY_BEAR_POSEIDON2_HALF_FULL_ROUNDS: usize = 4;

/// The number of full rounds of the Baby Bear Poseidon2 permutation
pub const BABY_BEAR_POSEIDON2_FULL_ROUNDS: usize = 8;

/// The number of partial rounds of the Baby Bear Poseidon2 permutation (16 state width version)
pub const BABY_BEAR_POSEIDON2_PARTIAL_ROUNDS_16: usize = 13;

/// The number of partial rounds of the Baby Bear Poseidon2 permutation (24 state width version)
pub const BABY_BEAR_POSEIDON2_PARTIAL_ROUNDS_24: usize = 21;

/// The degree of the Baby Bear Poseidon2 SBox component
pub const BABY_BEAR_POSEIDON2_SBOX_DEGREE: u64 = 7;

/// The width of the Baby Bear Poseidon2 permutation (16 state width version)
pub const POSEIDON2_WIDTH_16: usize = 16;

/// The width of the Baby Bear Poseidon2 permutation (24 state width version)
pub const POSEIDON2_WIDTH_24: usize = 24;

/// The rows of a list of full-width constant vectors, each element by its
/// canonical representative.
pub open spec fn row_values<const WIDTH: usize>(constants: Seq<[BabyBear; WIDTH]>) -> Seq<
    Seq<u32>,
> {
    Seq::new(constants.len(), |i: int| values(constants[i]@))
}

// ---------------------------------------------------------------------------
// What is taken on trust
// ---------------------------------------------------------------------------

/// What the Poseidon2 permutation of `p3_poseidon2` returns for `state`, when
/// it was made over Baby Bear from the external constants `initial` and
/// `terminal` and the internal constants `internal`. Every field element is
/// given by its canonical representative.
pub uninterp spec fn poseidon2_permutation(
    initial: Seq<Seq<u32>>,
    internal: Seq<u32>,
    terminal: Seq<Seq<u32>>,
    state: Seq<u32>,
) -> Seq<u32>;

/// Row `round` of the table `RC16` of `zkhash`, each element as its canonical
/// integer.
pub uninterp spec fn horizen_rc16(round: int) -> Seq<u64>;

/// Row `round` of the table `RC24` of `zkhash`, each element as its canonical
/// integer.
pub uninterp spec fn horizen_rc24(round: int) -> Seq<u64>;

/// Makes the permutation `p3_baby_bear::Poseidon2BabyBear<16>` with
/// `Poseidon2::new` of `p3_poseidon2`, from `ExternalLayerConstants::new`
/// (which panics unless there are as many terminal rounds as initial ones)
/// and the internal constants, and calls `Permutation::permute` of
/// `p3_symmetric` on it. An element of this library becomes one of
/// `p3_baby_bear` by `BabyBear::new` on its canonical representative, and
/// comes back by `as_canonical_u32` of `p3_field`. Claimed: the result is the
/// named permutation of the constants and `state`.
#[verifier::external_body]
fn permute_width_16(
    initial: &Vec<[BabyBear; 16]>,
    internal: &Vec<BabyBear>,
    terminal: &Vec<[BabyBear; 16]>,
    state: &[BabyBear; 16],
) -> (permuted: [BabyBear; 16])
    requires
        initial@.len() == terminal@.len(),
    ensures
        values(permuted@) == poseidon2_permutation(
            row_values(initial@),
            values(internal@),
            row_values(terminal@),
            values(state@),
        ),
{
    let to_p3 = |element: BabyBear| p3_baby_bear::BabyBear::new(element.as_canonical_u32());
    let external = p3_poseidon2::ExternalLayerConstants::new(
        initial.iter().map(|row| row.map(to_p3)).collect(),
        terminal.iter().map(|row| row.map(to_p3)).collect(),
    );
    let internal = internal.iter().map(|constant| to_p3(*constant)).collect();
    let permutation = p3_baby_bear::Poseidon2BabyBear::<16>::new(external, internal);
    let permuted = permutation.permute(state.map(to_p3));
    permuted.map(|element| BabyBear::new(element.as_canonical_u32()))
}

/// Makes the permutation `p3_baby_bear::Poseidon2BabyBear<24>` with
/// `Poseidon2::new` of `p3_poseidon2`, from `ExternalLayerConstants::new`
/// (which panics unless there are as many terminal rounds as initial ones)
/// and the internal constants, and calls `Permutation::permute` of
/// `p3_symmetric` on it. An element of this library becomes one of
/// `p3_baby_bear` by `BabyBear::new` on its canonical representative, and
/// comes back by `as_canonical_u32` of `p3_field`. Claimed: the result is the
/// named permutation of the constants and `state`.
#[verifier::external_body]
fn permute_width_24(
    initial: &Vec<[BabyBear; 24]>,
    internal: &Vec<BabyBear>,
    terminal: &Vec<[BabyBear; 24]>,
    state: &[BabyBear; 24],
) -> (permuted: [BabyBear; 24])
    requires
        initial@.len() == terminal@.len(),
    ensures
        values(permuted@) == poseidon2_permutation(
            row_values(initial@),
            values(internal@),
            row_values(terminal@),
            values(state@),
        ),
{
    let to_p3 = |element: BabyBear| p3_baby_bear::BabyBear::new(element.as_canonical_u32());
    let external = p3_poseidon2::ExternalLayerConstants::new(
        initial.iter().map(|row| row.map(to_p3)).collect(),
        terminal.iter().map(|row| row.map(to_p3)).collect(),
    );
    let internal = internal.iter().map(|constant| to_p3(*constant)).collect();
    let permutation = p3_baby_bear::Poseidon2BabyBear::<24>::new(external, internal);
    let permuted = permutation.permute(state.map(to_p3));
    permuted.map(|element| BabyBear::new(element.as_canonical_u32()))
}

/// Reads row `round` of the table `RC16` of `zkhash` (21 rows of 16
/// elements) and takes each element's canonical integer, the one limb of
/// `into_bigint` of `ark_ff`. Claimed: the row is the named one and has
/// 16 elements.
#[verifier::external_body]
fn horizen_rc16_round(round: usize) -> (row: Vec<u64>)
    requires
        round < 21,
    ensures
        row@ == horizen_rc16(round as int),
        row@.len() == 16,
{
    let table = &zkhash::poseidon2::poseidon2_instance_babybear::RC16;
    table[round].iter().map(|element| element.into_bigint().0[0]).collect()
}

/// Reads row `round` of the table `RC24` of `zkhash` (29 rows of 24
/// elements) and takes each element's canonical integer, the one limb of
/// `into_bigint` of `ark_ff`. Claimed: the row is the named one and has
/// 24 elements.
#[verifier::external_body]
fn horizen_rc24_round(round: usize) -> (row: Vec<u64>)
    requires
        round < 29,
    ensures
        row@ == horizen_rc24(round as int),
        row@.len() == 24,
{
    let table = &zkhash::poseidon2::poseidon2_instance_babybear::RC24;
    table[round].iter().map(|element| element.into_bigint().0[0]).collect()
}

// ---------------------------------------------------------------------------
// The model of the constants and of the permutations
// ---------------------------------------------------------------------------

/// The table of round constants for width 16, one row a round.
pub open spec fn horizen_table_16() -> Seq<Seq<u64>> {
    Seq::new(21, |round: int| horizen_rc16(round))
}

/// The table of round constants for width 24, one row a round.
pub open spec fn horizen_table_24() -> Seq<Seq<u64>> {
    Seq::new(29, |round: int| horizen_rc24(round))
}

/// The rows of a table, as sequences.
pub open spec fn table_rows(table: Seq<Vec<u64>>) -> Seq<Seq<u64>> {
    Seq::new(table.len(), |i: int| table[i]@)
}

/// The field element that the integer `value` stands for.
pub open spec fn spec_horizen_to_p3_babybear(value: u64) -> u32 {
    (value % (BABY_BEAR_PRIME as u64)) as u32
}

/// The number of partial rounds of the permutation of the given width.
pub open spec fn partial_rounds(width: nat) -> nat {
    if width == 16 {
        13
    } else {
        21
    }
}

/// The constants of four full rounds: rows `first` to `first + 3` of
/// `table`, `width` elements of each.
pub open spec fn spec_full_round_constants(table: Seq<Seq<u64>>, first: int, width: nat) -> Seq<
    Seq<u32>,
> {
    Seq::new(
        4,
        |i: int| Seq::new(width, |j: int| spec_horizen_to_p3_babybear(table[first + i][j])),
    )
}

/// The constants of `count` partial rounds: the first element of each of the
/// rows of `table` that follow the first four.
pub open spec fn spec_partial_round_constants(table: Seq<Seq<u64>>, count: nat) -> Seq<u32> {
    Seq::new(count, |i: int| spec_horizen_to_p3_babybear(table[4 + i][0]))
}

/// Whether `table` has the rows that the constants of a permutation of
/// `width` elements with `count` partial round constants are read from:
/// four rows of `width` elements, a row for each partial round constant,
/// and four rows of `width` elements behind the partial rounds of `width`.
pub open spec fn table_fits(table: Seq<Seq<u64>>, width: nat, count: nat) -> bool {
    &&& (width == 16 || width == 24)
    &&& table.len() >= 4 + partial_rounds(width) + 4
    &&& table.len() >= 4 + count
    &&& forall|i: int| 0 <= i < 4 ==> (#[trigger] table[i]).len() == width
    &&& forall|i: int| 4 <= i < 4 + count ==> (#[trigger] table[i]).len() >= 1
    &&& forall|i: int|
        4 + partial_rounds(width) <= i < 4 + partial_rounds(width) + 4 ==> (
        #[trigger] table[i]).len() == width
}

/// The permutation with the given round constants, as a function from state
/// to state.
pub open spec fn spec_permutation_with(
    initial: Seq<Seq<u32>>,
    internal: Seq<u32>,
    terminal: Seq<Seq<u32>>,
) -> spec_fn(Seq<u32>) -> Seq<u32> {
    |state: Seq<u32>| poseidon2_permutation(initial, internal, terminal, state)
}

/// The permutation of width 16 with the round constants of the source
/// table.
pub open spec fn short_permutation() -> spec_fn(Seq<u32>) -> Seq<u32> {
    spec_permutation_with(
        spec_full_round_constants(horizen_table_16(), 0, 16),
        spec_partial_round_constants(horizen_table_16(), 13),
        spec_full_round_constants(horizen_table_16(), 17, 16),
    )
}

/// The permutation of width 24 with the round constants of the source
/// table.
pub open spec fn long_permutation() -> spec_fn(Seq<u32>) -> Seq<u32> {
    spec_permutation_with(
        spec_full_round_constants(horizen_table_24(), 0, 24),
        spec_partial_round_constants(horizen_table_24(), 21),
        spec_full_round_constants(horizen_table_24(), 25, 24),
    )
}

// ---------------------------------------------------------------------------
// Round constants
// ---------------------------------------------------------------------------

/// Struct containing Poseidon2 round constants
#[derive(Clone, Copy, Debug)]
pub struct Poseidon2Constants<const WIDTH: usize, const P: usize, F> {
    pub beginning_full_round_constants: [[F; WIDTH]; BABY_BEAR_POSEIDON2_HALF_FULL_ROUNDS],
    pub partial_round_constants: [F; P],
    pub ending_full_round_constants: [[F; WIDTH]; BABY_BEAR_POSEIDON2_HALF_FULL_ROUNDS],
}

/// The round constants of the external layers of a permutation: one
/// full-width vector for each initial and each terminal round, as many
/// terminal rounds as initial ones.
#[derive(Debug)]
pub struct ExternalLayerConstants<const WIDTH: usize> {
    initial: Vec<[BabyBear; WIDTH]>,
    terminal: Vec<[BabyBear; WIDTH]>,
}

impl<const WIDTH: usize> ExternalLayerConstants<WIDTH> {
    #[verifier::type_invariant]
    spec fn balanced(self) -> bool {
        self.initial@.len() == self.terminal@.len()
    }

    /// The constants of the initial rounds.
    pub closed spec fn initial(&self) -> Seq<[BabyBear; WIDTH]> {
        self.initial@
    }

    /// The constants of the terminal rounds.
    pub closed spec fn terminal(&self) -> Seq<[BabyBear; WIDTH]> {
        self.terminal@
    }

    /// Puts the constants of the initial and of the terminal rounds together.
    /// There must be as many terminal rounds as initial ones.
    pub fn new(
        initial: Vec<[BabyBear; WIDTH]>,
        terminal: Vec<[BabyBear; WIDTH]>,
    ) -> (constants: Self)
        requires
            initial@.len() == terminal@.len(),
        ensures
            constants.initial() == initial@,
            constants.terminal() == terminal@,
    {
        ExternalLayerConstants { initial, terminal }
    }
}

impl<const WIDTH: usize> Clone for ExternalLayerConstants<WIDTH> {
    fn clone(&self) -> (copy: Self)
        ensures
            copy.initial() == self.initial(),
            copy.terminal() == self.terminal(),
    {
        proof {
            use_type_invariant(self);
        }
        ExternalLayerConstants {
            initial: copy_rows(&self.initial),
            terminal: copy_rows(&self.terminal),
        }
    }
}

/// Converts an element of the source table, given as its canonical integer,
/// into a field element.
pub(crate) fn horizen_to_p3_babybear(horizen_babybear: u64) -> (element: BabyBear)
    ensures
        element@ == spec_horizen_to_p3_babybear(horizen_babybear),
{
    BabyBear::new((horizen_babybear % (BABY_BEAR_PRIME as u64)) as u32)
}

/// Converts one row of the source table into a full-width vector of
/// constants.
fn full_round_row<const WIDTH: usize>(row: &Vec<u64>) -> (constants: [BabyBear; WIDTH])
    requires
        row@.len() == WIDTH,
    ensures
        values(constants@) == Seq::new(
            WIDTH as nat,
            |j: int| spec_horizen_to_p3_babybear(row@[j]),
        ),
{
    let mut constants: [BabyBear; WIDTH] = [BabyBear::zero(); WIDTH];
    let mut j: usize = 0;
    while j < WIDTH
        invariant
            j <= WIDTH,
            row@.len() == WIDTH,
            forall|k: int| 0 <= k < j ==> constants@[k]@ == spec_horizen_to_p3_babybear(row@[k]),
        decreases WIDTH - j,
    {
        constants[j] = horizen_to_p3_babybear(row[j]);
        j += 1;
    }
    assert(values(constants@) =~= Seq::new(
        WIDTH as nat,
        |j: int| spec_horizen_to_p3_babybear(row@[j]),
    ));
    constants
}

/// Converts four rows of the source table, from row `first` on, into the
/// constants of four full rounds.
fn full_rounds<const WIDTH: usize>(
    rc_source: &[Vec<u64>],
    first: usize,
) -> (constants: [[BabyBear; WIDTH]; BABY_BEAR_POSEIDON2_HALF_FULL_ROUNDS])
    requires
        first + 4 <= rc_source@.len(),
        forall|i: int| first <= i < first + 4 ==> (#[trigger] rc_source@[i])@.len() == WIDTH,
    ensures
        row_values(constants@) == spec_full_round_constants(
            table_rows(rc_source@),
            first as int,
            WIDTH as nat,
        ),
{
    let mut constants = [[BabyBear::zero(); WIDTH]; BABY_BEAR_POSEIDON2_HALF_FULL_ROUNDS];
    let rounds: usize = rc_source.len();
    let mut i: usize = 0;
    while i < BABY_BEAR_POSEIDON2_HALF_FULL_ROUNDS
        invariant
            i <= 4,
            rounds == rc_source@.len(),
            first + 4 <= rc_source@.len(),
            forall|k: int| first <= k < first + 4 ==> (#[trigger] rc_source@[k])@.len() == WIDTH,
            forall|k: int|
                0 <= k < i ==> values((#[trigger] constants@[k])@) == spec_full_round_constants(
                    table_rows(rc_source@),
                    first as int,
                    WIDTH as nat,
                )[k],
        decreases 4 - i,
    {
        let row = full_round_row::<WIDTH>(&rc_source[first + i]);
        assert(values(row@) =~= spec_full_round_constants(
            table_rows(rc_source@),
            first as int,
            WIDTH as nat,
        )[i as int]);
        constants[i] = row;
        i += 1;
    }
    assert(row_values(constants@) =~= spec_full_round_constants(
        table_rows(rc_source@),
        first as int,
        WIDTH as nat,
    ));
    constants
}

/// Generates Poseidon2 round constants for a given `WIDTH` from the rows of
/// the source table: four rows of full-round constants, then one row for
/// each partial round, of which the first element counts, then four more
/// rows of full-round constants. Each integer of the table is taken modulo
/// the prime.
pub fn generate_round_constants<const WIDTH: usize, const P: usize>(
    rc_source: &[Vec<u64>],
) -> (constants: Poseidon2Constants<WIDTH, P, BabyBear>)
    requires
        table_fits(table_rows(rc_source@), WIDTH as nat, P as nat),
    ensures
        row_values(constants.beginning_full_round_constants@) == spec_full_round_constants(
            table_rows(rc_source@),
            0,
            WIDTH as nat,
        ),
        values(constants.partial_round_constants@) == spec_partial_round_constants(
            table_rows(rc_source@),
            P as nat,
        ),
        row_values(constants.ending_full_round_constants@) == spec_full_round_constants(
            table_rows(rc_source@),
            4 + partial_rounds(WIDTH as nat) as int,
            WIDTH as nat,
        ),
{
    let p_end: usize = if WIDTH == 16 {
        BABY_BEAR_POSEIDON2_HALF_FULL_ROUNDS + BABY_BEAR_POSEIDON2_PARTIAL_ROUNDS_16
    } else {
        BABY_BEAR_POSEIDON2_HALF_FULL_ROUNDS + BABY_BEAR_POSEIDON2_PARTIAL_ROUNDS_24
    };
    assert forall|i: int| 0 <= i < rc_source@.len() implies (#[trigger] rc_source@[i])@
        == table_rows(rc_source@)[i] by {}
    let beginning_full_round_constants = full_rounds::<WIDTH>(rc_source, 0);
    let mut partial_round_constants: [BabyBear; P] = [BabyBear::zero(); P];
    let rounds: usize = rc_source.len();
    let mut i: usize = 0;
    while i < P
        invariant
            i <= P,
            rounds == rc_source@.len(),
            table_fits(table_rows(rc_source@), WIDTH as nat, P as nat),
            forall|k: int|
                0 <= k < i ==> partial_round_constants@[k]@ == spec_partial_round_constants(
                    table_rows(rc_source@),
                    P as nat,
                )[k],
        decreases P - i,
    {
        assert(table_rows(rc_source@)[4 + i].len() >= 1);
        partial_round_constants[i] = horizen_to_p3_babybear(
            rc_source[i + BABY_BEAR_POSEIDON2_HALF_FULL_ROUNDS][0],
        );
        i += 1;
    }
    assert(values(partial_round_constants@) =~= spec_partial_round_constants(
        table_rows(rc_source@),
        P as nat,
    ));
    let ending_full_round_constants = full_rounds::<WIDTH>(rc_source, p_end);
    Poseidon2Constants {
        beginning_full_round_constants,
        partial_round_constants,
        ending_full_round_constants,
    }
}

impl<const WIDTH: usize, const P: usize> Poseidon2Constants<WIDTH, P, BabyBear> {
    /// The constants in the form from which a permutation is made: those of
    /// the external rounds, initial and terminal, and those of the internal
    /// rounds.
    pub fn to_external_internal_constants(&self) -> (constants: (
        ExternalLayerConstants<WIDTH>,
        Vec<BabyBear>,
    ))
        ensures
            constants.0.initial() == self.beginning_full_round_constants@,
            constants.0.terminal() == self.ending_full_round_constants@,
            constants.1@ == self.partial_round_constants@,
    {
        let mut initial: Vec<[BabyBear; WIDTH]> = Vec::new();
        let mut terminal: Vec<[BabyBear; WIDTH]> = Vec::new();
        let mut i: usize = 0;
        while i < BABY_BEAR_POSEIDON2_HALF_FULL_ROUNDS
            invariant
                i <= 4,
                initial@.len() == i,
                terminal@.len() == i,
                forall|k: int|
                    0 <= k < i ==> initial@[k] == self.beginning_full_round_constants@[k],
                forall|k: int|
                    0 <= k < i ==> terminal@[k] == self.ending_full_round_constants@[k],
            decreases 4 - i,
        {
            initial.push(self.beginning_full_round_constants[i]);
            terminal.push(self.ending_full_round_constants[i]);
            i += 1;
        }
        assert(initial@ =~= self.beginning_full_round_constants@);
        assert(terminal@ =~= self.ending_full_round_constants@);
        let internal = array_to_vec(&self.partial_round_constants);
        (ExternalLayerConstants::new(initial, terminal), internal)
    }
}

/// The source table of the round constants for width 16.
pub fn rc16_source() -> (table: Vec<Vec<u64>>)
    ensures
        table_rows(table@) == horizen_table_16(),
        table_fits(horizen_table_16(), 16, 13),
{
    let mut table: Vec<Vec<u64>> = Vec::new();
    let mut round: usize = 0;
    while round < 21
        invariant
            round <= 21,
            table@.len() == round,
            forall|i: int| 0 <= i < round ==> (#[trigger] table@[i])@ == horizen_rc16(i),
            forall|i: int| 0 <= i < round ==> (#[trigger] table@[i])@.len() == 16,
        decreases 21 - round,
    {
        let row = horizen_rc16_round(round);
        table.push(row);
        round += 1;
    }
    assert(table_rows(table@) =~= horizen_table_16());
    assert forall|i: int| 0 <= i < 21 implies (#[trigger] horizen_table_16()[i]).len() == 16 by {
        assert(table@[i]@.len() == 16);
    }
    table
}

/// The source table of the round constants for width 24.
pub fn rc24_source() -> (table: Vec<Vec<u64>>)
    ensures
        table_rows(table@) == horizen_table_24(),
        table_fits(horizen_table_24(), 24, 21),
{
    let mut table: Vec<Vec<u64>> = Vec::new();
    let mut round: usize = 0;
    while round < 29
        invariant
            round <= 29,
            table@.len() == round,
            forall|i: int| 0 <= i < round ==> (#[trigger] table@[i])@ == horizen_rc24(i),
            forall|i: int| 0 <= i < round ==> (#[trigger] table@[i])@.len() == 24,
        decreases 29 - round,
    {
        let row = horizen_rc24_round(round);
        table.push(row);
        round += 1;
    }
    assert(table_rows(table@) =~= horizen_table_24());
    assert forall|i: int| 0 <= i < 29 implies (#[trigger] horizen_table_24()[i]).len() == 24 by {
        assert(table@[i]@.len() == 24);
    }
    table
}

/// Get Poseidon2 constants for `WIDTH = 16`
pub fn get_poseidon2_16() -> (constants: Poseidon2Constants<
    16,
    BABY_BEAR_POSEIDON2_PARTIAL_ROUNDS_16,
    BabyBear,
>)
    ensures
        row_values(constants.beginning_full_round_constants@) == spec_full_round_constants(
            horizen_table_16(),
            0,
            16,
        ),
        values(constants.partial_round_constants@) == spec_partial_round_constants(
            horizen_table_16(),
            13,
        ),
        row_values(constants.ending_full_round_constants@) == spec_full_round_constants(
            horizen_table_16(),
            17,
            16,
        ),
{
    let table = rc16_source();
    generate_round_constants::<16, BABY_BEAR_POSEIDON2_PARTIAL_ROUNDS_16>(table.as_slice())
}

/// Get Poseidon2 constants for `WIDTH = 24`
pub fn get_poseidon2_24() -> (constants: Poseidon2Constants<
    24,
    BABY_BEAR_POSEIDON2_PARTIAL_ROUNDS_24,
    BabyBear,
>)
    ensures
        row_values(constants.beginning_full_round_constants@) == spec_full_round_constants(
            horizen_table_24(),
            0,
            24,
        ),
        values(constants.partial_round_constants@) == spec_partial_round_constants(
            horizen_table_24(),
            21,
        ),
        row_values(constants.ending_full_round_constants@) == spec_full_round_constants(
            horizen_table_24(),
            25,
            24,
        ),
{
    let table = rc24_source();
    generate_round_constants::<24, BABY_BEAR_POSEIDON2_PARTIAL_ROUNDS_24>(table.as_slice())
}

// ---------------------------------------------------------------------------
// Permutations
// ---------------------------------------------------------------------------

/// The state widths for which a permutation exists.
pub trait Poseidon2BabyBearValidWidth {
    /// The number of field elements in the permutation's state.
    const WIDTH: usize;

    /// The permutation, as a function from state to state, each element
    /// given by its canonical representative.
    spec fn spec_permutation(&self) -> spec_fn(Seq<u32>) -> Seq<u32>;

    /// Applies the permutation to `state`.
    fn permute(&self, state: &[BabyBear]) -> (permuted: Vec<BabyBear>)
        requires
            state@.len() == Self::WIDTH,
        ensures
            values(permuted@) == (self.spec_permutation())(values(state@)),
            permuted@.len() == Self::WIDTH,
    ;
}

/// A Poseidon2 permutation over Baby Bear of state width `WIDTH`, given by
/// its round constants.
#[derive(Debug)]
pub struct Poseidon2BabyBear<const WIDTH: usize> {
    external_constants: ExternalLayerConstants<WIDTH>,
    internal_constants: Vec<BabyBear>,
}

/// The permutation of width 24.
pub type Poseidon2BabyBearLong = Poseidon2BabyBear<24>;

/// The permutation of width 16.
pub type Poseidon2BabyBearShort = Poseidon2BabyBear<16>;

impl<const WIDTH: usize> Poseidon2BabyBear<WIDTH> {
    /// The constants of the initial external rounds, one row a round.
    pub closed spec fn initial_constants(&self) -> Seq<Seq<u32>> {
        row_values(self.external_constants.initial())
    }

    /// The constants of the internal rounds.
    pub closed spec fn internal_constants(&self) -> Seq<u32> {
        values(self.internal_constants@)
    }

    /// The constants of the terminal external rounds, one row a round.
    pub closed spec fn terminal_constants(&self) -> Seq<Seq<u32>> {
        row_values(self.external_constants.terminal())
    }

    /// The permutation, as a function from state to state.
    pub open spec fn permutation(&self) -> spec_fn(Seq<u32>) -> Seq<u32> {
        spec_permutation_with(
            self.initial_constants(),
            self.internal_constants(),
            self.terminal_constants(),
        )
    }

    /// The permutation with the given round constants.
    pub fn new(
        external_constants: ExternalLayerConstants<WIDTH>,
        internal_constants: Vec<BabyBear>,
    ) -> (instance: Self)
        ensures
            instance.initial_constants() == row_values(external_constants.initial()),
            instance.internal_constants() == values(internal_constants@),
            instance.terminal_constants() == row_values(external_constants.terminal()),
    {
        Poseidon2BabyBear { external_constants, internal_constants }
    }
}

impl<const WIDTH: usize> Clone for Poseidon2BabyBear<WIDTH> {
    fn clone(&self) -> (copy: Self)
        ensures
            copy.initial_constants() == self.initial_constants(),
            copy.internal_constants() == self.internal_constants(),
            copy.terminal_constants() == self.terminal_constants(),
            copy.permutation() == self.permutation(),
    {
        let external_constants = self.external_constants.clone();
        let internal_constants = slice_to_vec(self.internal_constants.as_slice());
        Poseidon2BabyBear { external_constants, internal_constants }
    }
}

impl Poseidon2BabyBearValidWidth for Poseidon2BabyBear<16> {
    const WIDTH: usize = 16;

    open spec fn spec_permutation(&self) -> spec_fn(Seq<u32>) -> Seq<u32> {
        self.permutation()
    }

    fn permute(&self, state: &[BabyBear]) -> (permuted: Vec<BabyBear>) {
        proof {
            use_type_invariant(&self.external_constants);
        }
        let input: [BabyBear; 16] = slice_to_array(state);
        let output = permute_width_16(
            &self.external_constants.initial,
            &self.internal_constants,
            &self.external_constants.terminal,
            &input,
        );
        array_to_vec(&output)
    }
}

impl Poseidon2BabyBearValidWidth for Poseidon2BabyBear<24> {
    const WIDTH: usize = 24;

    open spec fn spec_permutation(&self) -> spec_fn(Seq<u32>) -> Seq<u32> {
        self.permutation()
    }

    fn permute(&self, state: &[BabyBear]) -> (permuted: Vec<BabyBear>) {
        proof {
            use_type_invariant(&self.external_constants);
        }
        let input: [BabyBear; 24] = slice_to_array(state);
        let output = permute_width_24(
            &self.external_constants.initial,
            &self.internal_constants,
            &self.external_constants.terminal,
            &input,
        );
        array_to_vec(&output)
    }
}

/// The two permutations have the state widths that their names say.
pub proof fn lemma_instance_widths()
    ensures
        <Poseidon2BabyBear<16> as Poseidon2BabyBearValidWidth>::WIDTH == POSEIDON2_WIDTH_16,
        <Poseidon2BabyBear<24> as Poseidon2BabyBearValidWidth>::WIDTH == POSEIDON2_WIDTH_24,
{
}

/// The permutation of width 16 with the round constants of the source
/// table.
pub fn poseidon2_instance_short() -> (instance: Poseidon2BabyBear<16>)
    ensures
        instance.initial_constants() == spec_full_round_constants(horizen_table_16(), 0, 16),
        instance.internal_constants() == spec_partial_round_constants(horizen_table_16(), 13),
        instance.terminal_constants() == spec_full_round_constants(horizen_table_16(), 17, 16),
        instance.permutation() == short_permutation(),
{
    let poseidon_constants = get_poseidon2_16();
    let (external_constants, internal_constants) =
        poseidon_constants.to_external_internal_constants();
    Poseidon2BabyBear::new(external_constants, internal_constants)
}

/// The permutation of width 24 with the round constants of the source
/// table.
pub fn poseidon2_instance() -> (instance: Poseidon2BabyBear<24>)
    ensures
        instance.initial_constants() == spec_full_round_constants(horizen_table_24(), 0, 24),
        instance.internal_constants() == spec_partial_round_constants(horizen_table_24(), 21),
        instance.terminal_constants() == spec_full_round_constants(horizen_table_24(), 25, 24),
        instance.permutation() == long_permutation(),
{
    let poseidon_constants = get_poseidon2_24();
    let (external_constants, internal_constants) =
        poseidon_constants.to_external_internal_constants();
    Poseidon2BabyBear::new(external_constants, internal_constants)
}

// ---------------------------------------------------------------------------
// Copies between slices, arrays and vectors
// ---------------------------------------------------------------------------

/// Copies a list of full-width constant vectors.
fn copy_rows<const WIDTH: usize>(
    source: &Vec<[BabyBear; WIDTH]>,
) -> (copy: Vec<[BabyBear; WIDTH]>)
    ensures
        copy@ == source@,
{
    let mut copy: Vec<[BabyBear; WIDTH]> = Vec::with_capacity(source.len());
    let mut i: usize = 0;
    while i < source.len()
        invariant
            i <= source@.len(),
            copy@ == source@.take(i as int),
        decreases source@.len() - i,
    {
        copy.push(source[i]);
        assert(copy@ =~= source@.take(i + 1));
        i += 1;
    }
    assert(source@.take(source@.len() as int) =~= source@);
    copy
}

/// Copies a slice into a vector.
pub(crate) fn slice_to_vec(elements: &[BabyBear]) -> (copy: Vec<BabyBear>)
    ensures
        copy@ == elements@,
{
    let mut copy: Vec<BabyBear> = Vec::with_capacity(elements.len());
    let mut i: usize = 0;
    while i < elements.len()
        invariant
            i <= elements@.len(),
            copy@ == elements@.take(i as int),
        decreases elements@.len() - i,
    {
        copy.push(elements[i]);
        assert(copy@ =~= elements@.take(i + 1));
        i += 1;
    }
    assert(elements@.take(elements@.len() as int) =~= elements@);
    copy
}

/// Copies a slice of `N` elements into an array.
pub(crate) fn slice_to_array<const N: usize>(elements: &[BabyBear]) -> (array: [BabyBear; N])
    requires
        elements@.len() == N,
    ensures
        array@ == elements@,
{
    let mut array: [BabyBear; N] = [BabyBear::zero(); N];
    let mut i: usize = 0;
    while i < N
        invariant
            i <= N,
            elements@.len() == N,
            forall|j: int| 0 <= j < i ==> array@[j] == elements@[j],
        decreases N - i,
    {
        array[i] = elements[i];
        i += 1;
    }
    assert(array@ =~= elements@);
    array
}

/// Copies an array into a vector.
pub(crate) fn array_to_vec<const N: usize>(array: &[BabyBear; N]) -> (elements: Vec<BabyBear>)
    ensures
        elements@ == array@,
{
    let mut elements: Vec<BabyBear> = Vec::with_capacity(N);
    let mut i: usize = 0;
    while i < N
        invariant
            i <= N,
            elements@.len() == i,
            forall|j: int| 0 <= j < i ==> elements@[j] == array@[j],
        decreases N - i,
    {
        elements.push(array[i]);
        i += 1;
    }
    assert(elements@ =~= array@);
    elements
}

} // verus!
