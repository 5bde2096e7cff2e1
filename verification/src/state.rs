//! State transition types

use vstd::prelude::*;

use crate::curve::base::{lemma_swap_curve_slot_len, lemma_swap_curve_slot_roundtrip, SwapCurve};
use crate::curve::fees::{lemma_fees_read_prefix, Fees};
use crate::error::ProgramError;
use crate::packing::{append_bytes, overwrite, write_bytes, IsInitialized, Pack};
use crate::pubkey::Pubkey;

verus! {

/// Max number of accounts in registry
pub const MAX_REGISTRY_SIZE: usize = ((2 * 1024 * 1024) / 32) - 1;

/// Pool Registry
pub struct PoolRegistry {
    /// Track if registry has been created
    pub is_initialized: bool,
    /// Current size of the registry array
    pub registry_size: u32,
    /// Array of pubkeys
    pub accounts: Vec<Pubkey>,
}

impl PoolRegistry {
    /// The registry holds its full array of slots and counts no more of them
    /// than it has.
    pub open spec fn well_formed(&self) -> bool {
        &&& self.accounts@.len() == MAX_REGISTRY_SIZE
        &&& self.registry_size <= MAX_REGISTRY_SIZE
    }

    /// The registered keys, in order.
    pub open spec fn keys(&self) -> Seq<Pubkey> {
        self.accounts@.take(self.registry_size as int)
    }

    /// Adds a pubkey to the registry
    pub fn append(&mut self, key: &Pubkey)
        requires
            old(self).well_formed(),
            old(self).registry_size < MAX_REGISTRY_SIZE,
        ensures
            final(self).well_formed(),
            final(self).is_initialized == old(self).is_initialized,
            final(self).registry_size == old(self).registry_size + 1,
            final(self).accounts@ == old(self).accounts@.update(
                old(self).registry_size as int,
                *key,
            ),
            final(self).keys() == old(self).keys().push(*key),
    {
        let index = PoolRegistry::index_of(self.registry_size);
        self.accounts.set(index, *key);
        self.registry_size = self.registry_size + 1;
        proof {
            assert(self.keys() =~= old(self).keys().push(*key));
        }
    }

    /// Remove the item at the provided index by replacing it with the last item in
    /// the registry and decreasing the size by 1. If the index provided IS the last
    /// item, the size is simply decreased by 1.
    /// Also clears out the last item in the list after (or if) moving.
    pub fn remove(&mut self, index: u32) -> (r: Result<(), ProgramError>)
        requires
            old(self).well_formed(),
        ensures
            final(self).well_formed(),
            final(self).is_initialized == old(self).is_initialized,
            index >= old(self).registry_size ==> r == Err::<(), ProgramError>(
                ProgramError::InvalidArgument,
            ) && final(self).registry_size == old(self).registry_size && final(self).accounts@
                == old(self).accounts@,
            index < old(self).registry_size ==> {
                let last = old(self).registry_size - 1;
                &&& r is Ok
                &&& final(self).registry_size == last
                &&& final(self).accounts@ == old(self).accounts@.update(
                    index as int,
                    old(self).accounts@[last],
                ).update(last, Pubkey::zero())
            },
    {
        if index >= self.registry_size {
            return Err(ProgramError::InvalidArgument);
        }

        let last_index = PoolRegistry::index_of(self.registry_size - 1);

        if index != self.registry_size - 1 {
            let last = self.accounts[last_index];
            self.accounts.set(PoolRegistry::index_of(index), last);
        }
        self.accounts.set(last_index, Pubkey::default());
        self.registry_size = self.registry_size - 1;
        proof {
            if index == old(self).registry_size - 1 {
                assert(old(self).accounts@.update(index as int, old(self).accounts@[last_index as int])
                    =~= old(self).accounts@);
            }
        }
        Ok(())
    }

    /// Gets a key by index
    pub fn index_of(counter: u32) -> (r: usize)
        ensures
            r == counter,
    {
        counter as usize
    }
}

/// Removing a registered key leaves every other registered key registered,
/// once each, and nothing else: the slot of the removed key takes the last
/// key.
pub proof fn lemma_remove_keeps_other_keys(before: PoolRegistry, after: PoolRegistry, index: u32)
    requires
        before.well_formed(),
        index < before.registry_size,
        after.registry_size == before.registry_size - 1,
        after.accounts@ == before.accounts@.update(
            index as int,
            before.accounts@[before.registry_size - 1],
        ).update(before.registry_size - 1, Pubkey::zero()),
    ensures
        after.keys().len() == before.keys().len() - 1,
        after.keys().to_multiset() == before.keys().to_multiset().remove(before.keys()[index as int]),
{
    broadcast use vstd::multiset::group_multiset_axioms;

    let n = before.registry_size as int;
    let old_keys = before.keys();
    let new_keys = after.keys();
    let removed = old_keys[index as int];
    assert(old_keys.contains(removed));
    vstd::seq_lib::to_multiset_contains(old_keys, removed);
    if index as int == n - 1 {
        assert(old_keys =~= new_keys.push(removed));
        vstd::seq_lib::to_multiset_build(new_keys, removed);
        assert forall|x: Pubkey|
            new_keys.to_multiset().count(x) == old_keys.to_multiset().remove(removed).count(
                x,
            ) by {
            assert(old_keys.to_multiset().count(x) == new_keys.to_multiset().insert(removed).count(
                x,
            ));
        }
    } else {
        let last = old_keys[n - 1];
        // the removed key's slot takes the last key, then the last slot goes
        let swapped = old_keys.update(index as int, last);
        assert(swapped =~= new_keys.push(last));
        vstd::seq_lib::to_multiset_update(old_keys, index as int, last);
        vstd::seq_lib::to_multiset_build(new_keys, last);
        assert forall|x: Pubkey|
            new_keys.to_multiset().count(x) == old_keys.to_multiset().remove(removed).count(
                x,
            ) by {
            assert(swapped.to_multiset().count(x) == new_keys.to_multiset().insert(last).count(x));
            assert(swapped.to_multiset().count(x) == old_keys.to_multiset().insert(last).remove(
                removed,
            ).count(x));
            assert(old_keys.to_multiset().insert(last).count(removed) > 0);
        }
    }
    assert(new_keys.to_multiset() =~= old_keys.to_multiset().remove(removed));
}

/// The address held in the 32 bytes of `src` from `offset` on.
pub open spec fn key_at(src: Seq<u8>, offset: int) -> Pubkey {
    Pubkey(choose|a: [u8; 32]| a@ == src.subrange(offset, offset + 32))
}

/// An address whose bytes are those at `offset` is the address read there.
pub(crate) proof fn lemma_key_at(src: Seq<u8>, offset: int, bytes: [u8; 32])
    requires
        bytes@ == src.subrange(offset, offset + 32),
    ensures
        key_at(src, offset) == Pubkey(bytes),
{
    let a = choose|a: [u8; 32]| a@ == src.subrange(offset, offset + 32);
    assert(a@ == src.subrange(offset, offset + 32));
    vstd::array::axiom_array_ext_equal(a, bytes);
    assert(a =~= bytes);
}

/// Reads the address stored at `offset`.
pub(crate) fn read_key(input: &[u8], offset: usize) -> (r: Pubkey)
    requires
        offset + 32 <= input@.len(),
    ensures
        r == key_at(input@, offset as int),
        r.0@ == input@.subrange(offset as int, offset + 32),
{
    let mut bytes = [0u8; 32];
    let n = input.len();
    let mut i: usize = 0;
    while i < 32
        invariant
            n == input@.len(),
            offset + 32 <= input@.len(),
            0 <= i <= 32,
            bytes@.len() == 32,
            forall|j: int| 0 <= j < i ==> bytes@[j] == input@[offset + j],
        decreases 32 - i,
    {
        bytes[i] = input[offset + i];
        i = i + 1;
    }
    proof {
        assert(bytes@ =~= input@.subrange(offset as int, offset + 32));
        lemma_key_at(input@, offset as int, bytes);
    }
    Pubkey(bytes)
}

/// Trait representing access to program state across all versions
pub trait SwapState {
    /// The state that the accessors read.
    spec fn spec_state(&self) -> SwapV1;

    /// Is the swap initialized, with data written to it
    fn is_initialized(&self) -> (r: bool)
        ensures
            r == self.spec_state().is_initialized,
    ;

    /// Bump seed used to generate the program address / authority
    fn nonce(&self) -> (r: u8)
        ensures
            r == self.spec_state().nonce,
    ;

    /// Token program ID associated with the swap
    fn token_program_id(&self) -> (r: &Pubkey)
        ensures
            *r == self.spec_state().token_program_id,
    ;

    /// Address of token A liquidity account
    fn token_a_account(&self) -> (r: &Pubkey)
        ensures
            *r == self.spec_state().token_a,
    ;

    /// Address of token B liquidity account
    fn token_b_account(&self) -> (r: &Pubkey)
        ensures
            *r == self.spec_state().token_b,
    ;

    /// Address of pool token mint
    fn pool_mint(&self) -> (r: &Pubkey)
        ensures
            *r == self.spec_state().pool_mint,
    ;

    /// Address of token A mint
    fn token_a_mint(&self) -> (r: &Pubkey)
        ensures
            *r == self.spec_state().token_a_mint,
    ;

    /// Address of token B mint
    fn token_b_mint(&self) -> (r: &Pubkey)
        ensures
            *r == self.spec_state().token_b_mint,
    ;

    /// Address of pool fee account
    fn pool_fee_account(&self) -> (r: &Pubkey)
        ensures
            *r == self.spec_state().pool_fee_account,
    ;

    /// Fees associated with swap
    fn fees(&self) -> (r: &Fees)
        ensures
            *r == self.spec_state().fees,
    ;

    /// Curve associated with swap
    fn swap_curve(&self) -> (r: &SwapCurve)
        ensures
            *r == self.spec_state().swap_curve,
    ;

    /// Bump seed used to generate the pool program address / authority
    fn pool_nonce(&self) -> (r: u8)
        ensures
            r == self.spec_state().pool_nonce,
    ;
}

/// Program states.
#[derive(Debug)]
pub struct SwapV1 {
    /// Initialized state.
    pub is_initialized: bool,
    /// Nonce used in program address.
    /// The program address is created deterministically with the nonce,
    /// swap program id, and swap account pubkey.  This program address has
    /// authority over the swap's token A account, token B account, and pool
    /// token mint.
    pub nonce: u8,
    /// Program ID of the tokens being exchanged.
    pub token_program_id: Pubkey,
    /// Token A
    pub token_a: Pubkey,
    /// Token B
    pub token_b: Pubkey,
    /// Pool tokens are issued when A or B tokens are deposited.
    /// Pool tokens can be withdrawn back to the original A or B token.
    pub pool_mint: Pubkey,
    /// Mint information for token A
    pub token_a_mint: Pubkey,
    /// Mint information for token B
    pub token_b_mint: Pubkey,
    /// Pool token account to receive trading and / or withdrawal fees
    pub pool_fee_account: Pubkey,
    /// All fee information
    pub fees: Fees,
    /// Swap curve parameters, to be unpacked and used by the SwapCurve, which
    /// calculates swaps, deposits, and withdrawals
    pub swap_curve: SwapCurve,
    /// Nonce used in pool program address.
    /// The program address is created deterministically with the nonce,
    /// swap program id, mint A, mint B, and curve type. This program address has
    /// authority over the pool account.
    pub pool_nonce: u8,
}

/// Whether two swap states are equal: their curves compare by their packed
/// bytes.
pub open spec fn spec_swap_v1_eq(a: SwapV1, b: SwapV1) -> bool {
    &&& a.is_initialized == b.is_initialized
    &&& a.nonce == b.nonce
    &&& a.token_program_id == b.token_program_id
    &&& a.token_a == b.token_a
    &&& a.token_b == b.token_b
    &&& a.pool_mint == b.pool_mint
    &&& a.token_a_mint == b.token_a_mint
    &&& a.token_b_mint == b.token_b_mint
    &&& a.pool_fee_account == b.pool_fee_account
    &&& a.fees == b.fees
    &&& a.swap_curve.packed() == b.swap_curve.packed()
    &&& a.pool_nonce == b.pool_nonce
}

impl PartialEq for SwapV1 {
    fn eq(&self, other: &Self) -> (r: bool) {
        self.is_initialized == other.is_initialized && self.nonce == other.nonce
            && self.token_program_id.same(&other.token_program_id) && self.token_a.same(
            &other.token_a,
        ) && self.token_b.same(&other.token_b) && self.pool_mint.same(&other.pool_mint)
            && self.token_a_mint.same(&other.token_a_mint) && self.token_b_mint.same(
            &other.token_b_mint,
        ) && self.pool_fee_account.same(&other.pool_fee_account) && self.fees == other.fees
            && self.swap_curve == other.swap_curve && self.pool_nonce == other.pool_nonce
    }
}

impl vstd::std_specs::cmp::PartialEqSpecImpl for SwapV1 {
    open spec fn obeys_eq_spec() -> bool {
        true
    }

    open spec fn eq_spec(&self, other: &SwapV1) -> bool {
        spec_swap_v1_eq(*self, *other)
    }
}

impl Default for SwapV1 {
    fn default() -> (r: Self)
        ensures
            !r.is_initialized,
            r.nonce == 0,
            r.token_program_id == Pubkey::zero(),
            r.token_a == Pubkey::zero(),
            r.token_b == Pubkey::zero(),
            r.pool_mint == Pubkey::zero(),
            r.token_a_mint == Pubkey::zero(),
            r.token_b_mint == Pubkey::zero(),
            r.pool_fee_account == Pubkey::zero(),
            r.fees == (Fees {
                trade_fee_numerator: 0,
                trade_fee_denominator: 0,
                owner_trade_fee_numerator: 0,
                owner_trade_fee_denominator: 0,
                owner_withdraw_fee_numerator: 0,
                owner_withdraw_fee_denominator: 0,
            }),
            r.swap_curve.curve_type == crate::curve::base::CurveType::ConstantProduct,
            r.pool_nonce == 0,
    {
        SwapV1 {
            is_initialized: false,
            nonce: 0,
            token_program_id: Pubkey::default(),
            token_a: Pubkey::default(),
            token_b: Pubkey::default(),
            pool_mint: Pubkey::default(),
            token_a_mint: Pubkey::default(),
            token_b_mint: Pubkey::default(),
            pool_fee_account: Pubkey::default(),
            fees: Fees {
                trade_fee_numerator: 0,
                trade_fee_denominator: 0,
                owner_trade_fee_numerator: 0,
                owner_trade_fee_denominator: 0,
                owner_withdraw_fee_numerator: 0,
                owner_withdraw_fee_denominator: 0,
            },
            swap_curve: SwapCurve::default(),
            pool_nonce: 0,
        }
    }
}

impl SwapState for SwapV1 {
    open spec fn spec_state(&self) -> SwapV1 {
        *self
    }

    fn is_initialized(&self) -> (r: bool) {
        self.is_initialized
    }

    fn nonce(&self) -> (r: u8) {
        self.nonce
    }

    fn token_program_id(&self) -> (r: &Pubkey) {
        &self.token_program_id
    }

    fn token_a_account(&self) -> (r: &Pubkey) {
        &self.token_a
    }

    fn token_b_account(&self) -> (r: &Pubkey) {
        &self.token_b
    }

    fn pool_mint(&self) -> (r: &Pubkey) {
        &self.pool_mint
    }

    fn token_a_mint(&self) -> (r: &Pubkey) {
        &self.token_a_mint
    }

    fn token_b_mint(&self) -> (r: &Pubkey) {
        &self.token_b_mint
    }

    fn pool_fee_account(&self) -> (r: &Pubkey) {
        &self.pool_fee_account
    }

    fn fees(&self) -> (r: &Fees) {
        &self.fees
    }

    fn swap_curve(&self) -> (r: &SwapCurve) {
        &self.swap_curve
    }

    fn pool_nonce(&self) -> (r: u8) {
        self.pool_nonce
    }
}

/// The byte that stands for a flag.
pub open spec fn bool_byte(b: bool) -> u8 {
    if b {
        1
    } else {
        0
    }
}

impl SwapV1 {
    /// Size of the packed state: the flag and nonce bytes, seven addresses,
    /// the fees, the curve's slot and the pool nonce.
    pub const LEN: usize = 308;

    /// The packed state up to its curve.
    pub open spec fn header_bytes(&self) -> Seq<u8> {
        seq![bool_byte(self.is_initialized), self.nonce] + self.token_program_id.0@
            + self.token_a.0@ + self.token_b.0@ + self.pool_mint.0@ + self.token_a_mint.0@
            + self.token_b_mint.0@ + self.pool_fee_account.0@ + self.fees.spec_bytes()
    }

    fn pack_header(&self) -> (r: Vec<u8>)
        ensures
            r@ == self.header_bytes(),
            r@.len() == 274,
    {
        let mut buf: Vec<u8> = Vec::new();
        buf.push(if self.is_initialized {
            1
        } else {
            0
        });
        buf.push(self.nonce);
        append_bytes(&mut buf, self.token_program_id.0.as_slice());
        append_bytes(&mut buf, self.token_a.0.as_slice());
        append_bytes(&mut buf, self.token_b.0.as_slice());
        append_bytes(&mut buf, self.pool_mint.0.as_slice());
        append_bytes(&mut buf, self.token_a_mint.0.as_slice());
        append_bytes(&mut buf, self.token_b_mint.0.as_slice());
        append_bytes(&mut buf, self.pool_fee_account.0.as_slice());
        let fees = self.fees.to_bytes();
        append_bytes(&mut buf, fees.as_slice());
        proof {
            assert(buf@ =~= self.header_bytes());
        }
        buf
    }
}

impl IsInitialized for SwapV1 {
    open spec fn spec_is_initialized(&self) -> bool {
        self.is_initialized
    }

    fn is_initialized(&self) -> (b: bool) {
        self.is_initialized
    }
}

impl Pack for SwapV1 {
    open spec fn spec_packable(&self) -> bool {
        self.swap_curve.fits_slot()
    }

    open spec fn spec_len() -> nat {
        308
    }

    open spec fn spec_pack_into(&self, dst: Seq<u8>) -> Seq<u8> {
        let with_header = overwrite(dst, 0, self.header_bytes());
        let with_curve = overwrite(with_header, 274, self.swap_curve.slot_bytes());
        with_curve.update(307, self.pool_nonce)
    }

    open spec fn spec_unpack_from_slice(src: Seq<u8>) -> Result<Self, ProgramError> {
        if src[0] != 0 && src[0] != 1 {
            Err(ProgramError::InvalidAccountData)
        } else {
            match SwapCurve::spec_unpack_slot(src.subrange(274, 307)) {
                Err(e) => Err(e),
                Ok(swap_curve) => Ok(
                    SwapV1 {
                        is_initialized: src[0] == 1,
                        nonce: src[1],
                        token_program_id: key_at(src, 2),
                        token_a: key_at(src, 34),
                        token_b: key_at(src, 66),
                        pool_mint: key_at(src, 98),
                        token_a_mint: key_at(src, 130),
                        token_b_mint: key_at(src, 162),
                        pool_fee_account: key_at(src, 194),
                        fees: Fees::spec_read(src.subrange(226, 274)),
                        swap_curve,
                        pool_nonce: src[307],
                    },
                ),
            }
        }
    }

    fn get_packed_len() -> (n: usize) {
        308
    }

    fn pack_into_slice(&self, output: &mut [u8]) {
        let header = self.pack_header();
        write_bytes(output, 0, header.as_slice());
        let region = vstd::slice::slice_subrange(output, 274, 307);
        let mut swap_curve: Vec<u8> = vstd::slice::slice_to_vec(region);
        proof {
            lemma_swap_curve_slot_len(self.swap_curve);
        }
        self.swap_curve.pack_into_slot(swap_curve.as_mut_slice());
        proof {
            assert(swap_curve@ =~= self.swap_curve.slot_bytes());
        }
        write_bytes(output, 274, swap_curve.as_slice());
        output[307] = self.pool_nonce;
    }

    /// Unpacks a byte buffer into a [SwapV1](struct.SwapV1.html).
    fn unpack_from_slice(input: &[u8]) -> (r: Result<Self, ProgramError>) {
        let is_initialized = match input[0] {
            0 => false,
            1 => true,
            _ => return Err(ProgramError::InvalidAccountData),
        };
        let fees_bytes = vstd::slice::slice_subrange(input, 226, 274);
        let curve_bytes = vstd::slice::slice_subrange(input, 274, 307);
        let fees = Fees::unpack_from_slice(fees_bytes)?;
        let swap_curve = SwapCurve::unpack_from_slot(curve_bytes)?;
        Ok(
            SwapV1 {
                is_initialized,
                nonce: input[1],
                token_program_id: read_key(input, 2),
                token_a: read_key(input, 34),
                token_b: read_key(input, 66),
                pool_mint: read_key(input, 98),
                token_a_mint: read_key(input, 130),
                token_b_mint: read_key(input, 162),
                pool_fee_account: read_key(input, 194),
                fees,
                swap_curve,
                pool_nonce: input[307],
            },
        )
    }
}

/// Packing a swap state whose curve is of the type it names and fits its
/// slot, and unpacking the bytes, gives the state back.
pub proof fn lemma_swap_v1_pack_roundtrip(swap: SwapV1, dst: Seq<u8>)
    requires
        swap.swap_curve.well_formed(),
        swap.swap_curve.fits_slot(),
        dst.len() >= 308,
    ensures
        swap.spec_pack_into(dst).len() == dst.len(),
        SwapV1::spec_unpack_from_slice(swap.spec_pack_into(dst)) == Ok::<SwapV1, ProgramError>(
            swap,
        ),
{
    let header = swap.header_bytes();
    lemma_fees_read_prefix(swap.fees, Seq::<u8>::empty());
    let with_header = overwrite(dst, 0, header);
    lemma_swap_curve_slot_roundtrip(swap.swap_curve);
    let packed_curve = swap.swap_curve.slot_bytes();
    let with_curve = overwrite(with_header, 274, packed_curve);
    let packed = with_curve.update(307, swap.pool_nonce);
    assert(packed.subrange(274, 307) =~= packed_curve);
    assert(packed.subrange(0, 274) =~= header);
    assert(packed.subrange(226, 274) =~= swap.fees.spec_bytes() + Seq::<u8>::empty());
    vstd::array::array_len_matches_n(&swap.token_program_id.0);
    vstd::array::array_len_matches_n(&swap.token_a.0);
    vstd::array::array_len_matches_n(&swap.token_b.0);
    vstd::array::array_len_matches_n(&swap.pool_mint.0);
    vstd::array::array_len_matches_n(&swap.token_a_mint.0);
    vstd::array::array_len_matches_n(&swap.token_b_mint.0);
    vstd::array::array_len_matches_n(&swap.pool_fee_account.0);
    assert(packed.subrange(2, 34) =~= swap.token_program_id.0@);
    assert(packed.subrange(34, 66) =~= swap.token_a.0@);
    assert(packed.subrange(66, 98) =~= swap.token_b.0@);
    assert(packed.subrange(98, 130) =~= swap.pool_mint.0@);
    assert(packed.subrange(130, 162) =~= swap.token_a_mint.0@);
    assert(packed.subrange(162, 194) =~= swap.token_b_mint.0@);
    assert(packed.subrange(194, 226) =~= swap.pool_fee_account.0@);
    lemma_key_at(packed, 2, swap.token_program_id.0);
    lemma_key_at(packed, 34, swap.token_a.0);
    lemma_key_at(packed, 66, swap.token_b.0);
    lemma_key_at(packed, 98, swap.pool_mint.0);
    lemma_key_at(packed, 130, swap.token_a_mint.0);
    lemma_key_at(packed, 162, swap.token_b_mint.0);
    lemma_key_at(packed, 194, swap.pool_fee_account.0);
}

/// Packing a swap state into a buffer keeps the buffer's length.
pub proof fn lemma_swap_v1_pack_len(swap: SwapV1, dst: Seq<u8>)
    requires
        dst.len() >= 308,
    ensures
        swap.spec_pack_into(dst).len() == dst.len(),
{
    lemma_fees_read_prefix(swap.fees, Seq::<u8>::empty());
    vstd::array::array_len_matches_n(&swap.token_program_id.0);
    vstd::array::array_len_matches_n(&swap.token_a.0);
    vstd::array::array_len_matches_n(&swap.token_b.0);
    vstd::array::array_len_matches_n(&swap.pool_mint.0);
    vstd::array::array_len_matches_n(&swap.token_a_mint.0);
    vstd::array::array_len_matches_n(&swap.token_b_mint.0);
    vstd::array::array_len_matches_n(&swap.pool_fee_account.0);
    let with_header = overwrite(dst, 0, swap.header_bytes());
    lemma_swap_curve_slot_len(swap.swap_curve);
}

/// All versions of SwapState
#[derive(Debug)]
pub enum SwapVersion {
    /// Latest version, used for all new swaps
    SwapV1(SwapV1),
}

impl SwapState for SwapVersion {
    open spec fn spec_state(&self) -> SwapV1 {
        match self {
            SwapVersion::SwapV1(s) => *s,
        }
    }

    fn is_initialized(&self) -> (r: bool) {
        match self {
            SwapVersion::SwapV1(s) => s.is_initialized,
        }
    }

    fn nonce(&self) -> (r: u8) {
        match self {
            SwapVersion::SwapV1(s) => s.nonce,
        }
    }

    fn token_program_id(&self) -> (r: &Pubkey) {
        match self {
            SwapVersion::SwapV1(s) => &s.token_program_id,
        }
    }

    fn token_a_account(&self) -> (r: &Pubkey) {
        match self {
            SwapVersion::SwapV1(s) => &s.token_a,
        }
    }

    fn token_b_account(&self) -> (r: &Pubkey) {
        match self {
            SwapVersion::SwapV1(s) => &s.token_b,
        }
    }

    fn pool_mint(&self) -> (r: &Pubkey) {
        match self {
            SwapVersion::SwapV1(s) => &s.pool_mint,
        }
    }

    fn token_a_mint(&self) -> (r: &Pubkey) {
        match self {
            SwapVersion::SwapV1(s) => &s.token_a_mint,
        }
    }

    fn token_b_mint(&self) -> (r: &Pubkey) {
        match self {
            SwapVersion::SwapV1(s) => &s.token_b_mint,
        }
    }

    fn pool_fee_account(&self) -> (r: &Pubkey) {
        match self {
            SwapVersion::SwapV1(s) => &s.pool_fee_account,
        }
    }

    fn fees(&self) -> (r: &Fees) {
        match self {
            SwapVersion::SwapV1(s) => &s.fees,
        }
    }

    fn swap_curve(&self) -> (r: &SwapCurve) {
        match self {
            SwapVersion::SwapV1(s) => &s.swap_curve,
        }
    }

    fn pool_nonce(&self) -> (r: u8) {
        match self {
            SwapVersion::SwapV1(s) => s.pool_nonce,
        }
    }
}

/// What unpacking a versioned swap state gives: the version byte 1 for the
/// latest version, followed by its packed state, which must be initialized.
pub open spec fn spec_swap_version_unpack(input: Seq<u8>) -> Result<SwapVersion, ProgramError> {
    if input.len() == 0 {
        Err(ProgramError::InvalidAccountData)
    } else if input[0] != 1 {
        Err(ProgramError::UninitializedAccount)
    } else {
        let rest = input.skip(1);
        if rest.len() != 308 {
            Err(ProgramError::InvalidAccountData)
        } else {
            match SwapV1::spec_unpack_from_slice(rest) {
                Err(e) => Err(e),
                Ok(swap) => if swap.is_initialized {
                    Ok(SwapVersion::SwapV1(swap))
                } else {
                    Err(ProgramError::UninitializedAccount)
                },
            }
        }
    }
}

/// SwapVersion does not implement program_pack::Pack because there are size
/// checks on pack and unpack that would break backwards compatibility, so
/// special implementations are provided here
impl SwapVersion {
    /// Size of the latest version of the SwapState
    pub const LATEST_LEN: usize = 309;

    /// Pack a swap into a byte array, based on its version
    pub fn pack(src: Self, dst: &mut [u8]) -> (r: Result<(), ProgramError>)
        requires
            old(dst)@.len() >= 1,
            old(dst)@.len() == 309 ==> match src {
                SwapVersion::SwapV1(swap) => swap.swap_curve.fits_slot(),
            },
        ensures
            final(dst)@.len() == old(dst)@.len(),
            final(dst)@[0] == 1,
            match src {
                SwapVersion::SwapV1(swap) => if old(dst)@.len() == 309 {
                    &&& r is Ok
                    &&& final(dst)@.skip(1) == swap.spec_pack_into(old(dst)@.skip(1))
                } else {
                    &&& r == Err::<(), ProgramError>(ProgramError::InvalidAccountData)
                    &&& final(dst)@ == old(dst)@.update(0, 1)
                },
            },
    {
        match src {
            SwapVersion::SwapV1(swap_info) => {
                dst[0] = 1;
                if dst.len() != SwapVersion::LATEST_LEN {
                    return Err(ProgramError::InvalidAccountData);
                }
                let rest = vstd::slice::slice_subrange(dst, 1, dst.len());
                let mut buf: Vec<u8> = vstd::slice::slice_to_vec(rest);
                proof {
                    assert(buf@ =~= old(dst)@.skip(1));
                    if buf@.len() == 308 {
                        lemma_swap_v1_pack_len(swap_info, buf@);
                    }
                }
                let result = SwapV1::pack(swap_info, buf.as_mut_slice());
                if result.is_ok() {
                    write_bytes(dst, 1, buf.as_slice());
                    proof {
                        assert(dst@.skip(1) =~= buf@);
                    }
                }
                result
            },
        }
    }

    /// Unpack the swap account based on its version, returning the state of
    /// that version
    pub fn unpack(input: &[u8]) -> (r: Result<SwapVersion, ProgramError>)
        ensures
            r == spec_swap_version_unpack(input@),
    {
        if input.len() == 0 {
            return Err(ProgramError::InvalidAccountData);
        }
        let version = input[0];
        let rest = vstd::slice::slice_subrange(input, 1, input.len());
        proof {
            assert(rest@ =~= input@.skip(1));
        }
        match version {
            1 => Ok(SwapVersion::SwapV1(SwapV1::unpack(rest)?)),
            _ => Err(ProgramError::UninitializedAccount),
        }
    }

    /// Special check to be done before any instruction processing, works for
    /// all versions
    pub fn is_initialized(input: &[u8]) -> (r: bool)
        ensures
            r == (spec_swap_version_unpack(input@) is Ok),
    {
        match Self::unpack(input) {
            Ok(swap) => SwapState::is_initialized(&swap),
            Err(_) => false,
        }
    }
}

/// Packing an initialized swap with its version and unpacking the bytes
/// gives the swap back.
pub proof fn lemma_swap_version_roundtrip(swap: SwapV1, dst: Seq<u8>)
    requires
        swap.swap_curve.well_formed(),
        swap.swap_curve.fits_slot(),
        swap.is_initialized,
        dst.len() == 308,
    ensures
        spec_swap_version_unpack(seq![1u8] + swap.spec_pack_into(dst)) == Ok::<
            SwapVersion,
            ProgramError,
        >(SwapVersion::SwapV1(swap)),
{
    lemma_swap_v1_pack_roundtrip(swap, dst);
    assert((seq![1u8] + swap.spec_pack_into(dst)).skip(1) =~= swap.spec_pack_into(dst));
}

} // verus!
