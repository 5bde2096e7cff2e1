//! Fixed-size byte layouts: reading and writing little-endian fields, and
//! the pack / unpack protocol that every stored structure follows.

use vstd::prelude::*;
use vstd::bytes::*;

use crate::error::ProgramError;

verus! {

/// The little-endian encoding of a `u64`.
pub open spec fn le_u64(x: u64) -> Seq<u8> {
    spec_u64_to_le_bytes(x)
}

/// The little-endian encoding of a `u32`.
pub open spec fn le_u32(x: u32) -> Seq<u8> {
    spec_u32_to_le_bytes(x)
}

/// `dst` with the bytes of `bytes` written from position `offset` on.
pub open spec fn overwrite(dst: Seq<u8>, offset: int, bytes: Seq<u8>) -> Seq<u8> {
    dst.take(offset) + bytes + dst.skip(offset + bytes.len())
}

/// The `u64` stored little-endian at `offset`.
pub open spec fn read_le_u64(src: Seq<u8>, offset: int) -> u64 {
    spec_u64_from_le_bytes(src.subrange(offset, offset + 8))
}

/// The `u32` stored little-endian at `offset`.
pub open spec fn read_le_u32(src: Seq<u8>, offset: int) -> u32 {
    spec_u32_from_le_bytes(src.subrange(offset, offset + 4))
}

/// Encoding a `u64` and reading it back gives the same value, and the
/// encoding takes eight bytes.
pub proof fn lemma_le_u64_roundtrip(x: u64)
    ensures
        le_u64(x).len() == 8,
        spec_u64_from_le_bytes(le_u64(x)) == x,
{
    lemma_auto_spec_u64_to_from_le_bytes();
}

/// Encoding a `u32` and reading it back gives the same value, and the
/// encoding takes four bytes.
pub proof fn lemma_le_u32_roundtrip(x: u32)
    ensures
        le_u32(x).len() == 4,
        spec_u32_from_le_bytes(le_u32(x)) == x,
{
    lemma_auto_spec_u32_to_from_le_bytes();
    assert(spec_u32_to_le_bytes(x).len() == 4);
}

/// Reading a field written at `offset` in a buffer gives back the value.
pub proof fn lemma_read_written_u64(dst: Seq<u8>, offset: int, x: u64)
    requires
        0 <= offset,
        offset + 8 <= dst.len(),
    ensures
        overwrite(dst, offset, le_u64(x)).len() == dst.len(),
        read_le_u64(overwrite(dst, offset, le_u64(x)), offset) == x,
{
    lemma_le_u64_roundtrip(x);
    let w = overwrite(dst, offset, le_u64(x));
    assert(w.subrange(offset, offset + 8) =~= le_u64(x));
}

/// Reading after dropping a prefix reads further along the whole.
pub proof fn lemma_read_skip_u64(s: Seq<u8>, skipped: int, offset: int)
    requires
        0 <= skipped,
        0 <= offset,
        skipped + offset + 8 <= s.len(),
    ensures
        read_le_u64(s.skip(skipped), offset) == read_le_u64(s, skipped + offset),
{
    assert(s.skip(skipped).subrange(offset, offset + 8) =~= s.subrange(
        skipped + offset,
        skipped + offset + 8,
    ));
}

/// Reading within a prefix reads the same as reading the whole.
pub proof fn lemma_read_take_u64(s: Seq<u8>, kept: int, offset: int)
    requires
        0 <= offset,
        offset + 8 <= kept <= s.len(),
    ensures
        read_le_u64(s.take(kept), offset) == read_le_u64(s, offset),
{
    assert(s.take(kept).subrange(offset, offset + 8) =~= s.subrange(offset, offset + 8));
}

/// Copies `bytes` into `output` starting at `offset`.
pub fn write_bytes(output: &mut [u8], offset: usize, bytes: &[u8])
    requires
        offset + bytes@.len() <= old(output)@.len(),
    ensures
        final(output)@ == overwrite(old(output)@, offset as int, bytes@),
        final(output)@.len() == old(output)@.len(),
{
    let n = bytes.len();
    let len = output.len();
    let mut i: usize = 0;
    while i < n
        invariant
            n == bytes@.len(),
            offset + n <= old(output)@.len(),
            0 <= i <= n,
            len == output@.len(),
            output@.len() == old(output)@.len(),
            forall|j: int| 0 <= j < offset ==> output@[j] == old(output)@[j],
            forall|j: int| 0 <= j < i ==> output@[offset + j] == bytes@[j],
            forall|j: int| offset + i <= j < output@.len() ==> output@[j] == old(output)@[j],
        decreases n - i,
    {
        output[offset + i] = bytes[i];
        i = i + 1;
    }
    assert(output@ =~= overwrite(old(output)@, offset as int, bytes@));
}

/// Writes `value` little-endian at `offset`.
pub fn write_u64(output: &mut [u8], offset: usize, value: u64)
    requires
        offset + 8 <= old(output)@.len(),
    ensures
        final(output)@ == overwrite(old(output)@, offset as int, le_u64(value)),
        final(output)@.len() == old(output)@.len(),
{
    proof {
        lemma_le_u64_roundtrip(value);
    }
    let bytes = u64_to_le_bytes(value);
    write_bytes(output, offset, bytes.as_slice());
}

/// Writes `value` little-endian at `offset`.
pub fn write_u32(output: &mut [u8], offset: usize, value: u32)
    requires
        offset + 4 <= old(output)@.len(),
    ensures
        final(output)@ == overwrite(old(output)@, offset as int, le_u32(value)),
        final(output)@.len() == old(output)@.len(),
{
    proof {
        lemma_le_u32_roundtrip(value);
    }
    let bytes = u32_to_le_bytes(value);
    write_bytes(output, offset, bytes.as_slice());
}

/// Reads the `u64` stored little-endian at `offset`.
pub fn read_u64(input: &[u8], offset: usize) -> (r: u64)
    requires
        offset + 8 <= input@.len(),
    ensures
        r == read_le_u64(input@, offset as int),
{
    let len = input.len();
    assert(offset + 8 <= len);
    let s = vstd::slice::slice_subrange(input, offset, offset + 8);
    u64_from_le_bytes(s)
}

/// Reads the `u32` stored little-endian at `offset`.
pub fn read_u32(input: &[u8], offset: usize) -> (r: u32)
    requires
        offset + 4 <= input@.len(),
    ensures
        r == read_le_u32(input@, offset as int),
{
    let len = input.len();
    assert(offset + 4 <= len);
    let s = vstd::slice::slice_subrange(input, offset, offset + 4);
    u32_from_le_bytes(s)
}

/// Appends `bytes` to `buf`.
pub fn append_bytes(buf: &mut Vec<u8>, bytes: &[u8])
    ensures
        final(buf)@ == old(buf)@ + bytes@,
{
    let n = bytes.len();
    let mut i: usize = 0;
    while i < n
        invariant
            n == bytes@.len(),
            0 <= i <= n,
            buf@ == old(buf)@ + bytes@.take(i as int),
        decreases n - i,
    {
        buf.push(bytes[i]);
        i = i + 1;
        assert(buf@ =~= old(buf)@ + bytes@.take(i as int));
    }
    assert(bytes@.take(n as int) =~= bytes@);
}

/// Appends the little-endian encoding of `value` to `buf`.
pub fn append_u64(buf: &mut Vec<u8>, value: u64)
    ensures
        final(buf)@ == old(buf)@ + le_u64(value),
{
    let bytes = u64_to_le_bytes(value);
    append_bytes(buf, bytes.as_slice());
}

/// Whether two byte strings are equal.
pub fn bytes_equal(a: &[u8], b: &[u8]) -> (r: bool)
    ensures
        r == (a@ == b@),
{
    if a.len() != b.len() {
        return false;
    }
    let n = a.len();
    let mut i: usize = 0;
    while i < n
        invariant
            n == a@.len(),
            n == b@.len(),
            0 <= i <= n,
            forall|j: int| 0 <= j < i ==> a@[j] == b@[j],
        decreases n - i,
    {
        if a[i] != b[i] {
            return false;
        }
        i = i + 1;
    }
    assert(a@ =~= b@);
    true
}

/// A `u64` encoded after `prefix` is read back from position `prefix.len()`.
pub proof fn lemma_read_concat_u64(prefix: Seq<u8>, x: u64, rest: Seq<u8>)
    ensures
        read_le_u64(prefix + le_u64(x) + rest, prefix.len() as int) == x,
{
    lemma_le_u64_roundtrip(x);
    assert((prefix + le_u64(x) + rest).subrange(
        prefix.len() as int,
        prefix.len() + 8int,
    ) =~= le_u64(x));
}

/// Whether a value holds initialized data.
pub trait IsInitialized {
    /// Whether a value counts as initialized.
    spec fn spec_is_initialized(&self) -> bool;

    /// Whether the value counts as initialized.
    fn is_initialized(&self) -> (b: bool)
        ensures
            b == self.spec_is_initialized(),
    ;
}

/// A structure stored in a fixed number of bytes.
pub trait Pack: Sized {
    /// The number of bytes the structure takes.
    spec fn spec_len() -> nat;

    /// Whether each part of the structure fits in the bytes that the layout
    /// gives it.
    spec fn spec_packable(&self) -> bool;

    /// What packing the structure into `dst` leaves there.
    spec fn spec_pack_into(&self, dst: Seq<u8>) -> Seq<u8>;

    /// What unpacking from `src` gives, when `src` holds at least `spec_len`
    /// bytes.
    spec fn spec_unpack_from_slice(src: Seq<u8>) -> Result<Self, ProgramError>;

    /// The number of bytes the structure takes.
    fn get_packed_len() -> (n: usize)
        ensures
            n == Self::spec_len(),
    ;

    /// Writes the structure into the start of `dst`.
    fn pack_into_slice(&self, dst: &mut [u8])
        requires
            self.spec_packable(),
            old(dst)@.len() >= Self::spec_len(),
        ensures
            final(dst)@ == self.spec_pack_into(old(dst)@),
            final(dst)@.len() == old(dst)@.len(),
    ;

    /// Reads the structure from the start of `src`.
    fn unpack_from_slice(src: &[u8]) -> (r: Result<Self, ProgramError>)
        requires
            src@.len() >= Self::spec_len(),
        ensures
            r == Self::spec_unpack_from_slice(src@),
    ;

    /// Unpacks from a buffer of exactly the packed length, without checking
    /// that the value is initialized.
    fn unpack_unchecked(input: &[u8]) -> (r: Result<Self, ProgramError>)
        ensures
            input@.len() == Self::spec_len() ==> r == Self::spec_unpack_from_slice(input@),
            input@.len() != Self::spec_len() ==> r == Err::<Self, ProgramError>(
                ProgramError::InvalidAccountData,
            ),
    {
        if input.len() != Self::get_packed_len() {
            return Err(ProgramError::InvalidAccountData);
        }
        Self::unpack_from_slice(input)
    }

    /// Unpacks from a buffer of exactly the packed length, and checks that
    /// the value is initialized.
    fn unpack(input: &[u8]) -> (r: Result<Self, ProgramError>) where Self: IsInitialized
        ensures
            input@.len() != Self::spec_len() ==> r == Err::<Self, ProgramError>(
                ProgramError::InvalidAccountData,
            ),
            input@.len() == Self::spec_len() ==> match Self::spec_unpack_from_slice(input@) {
                Ok(v) => if v.spec_is_initialized() {
                    r == Ok::<Self, ProgramError>(v)
                } else {
                    r == Err::<Self, ProgramError>(ProgramError::UninitializedAccount)
                },
                Err(e) => r == Err::<Self, ProgramError>(e),
            },
    {
        let value = Self::unpack_unchecked(input)?;
        if value.is_initialized() {
            Ok(value)
        } else {
            Err(ProgramError::UninitializedAccount)
        }
    }

    /// Packs into a buffer of exactly the packed length.
    fn pack(src: Self, dst: &mut [u8]) -> (r: Result<(), ProgramError>)
        requires
            src.spec_packable(),
        ensures
            old(dst)@.len() == Self::spec_len() ==> r is Ok && final(dst)@ == src.spec_pack_into(
                old(dst)@,
            ),
            old(dst)@.len() != Self::spec_len() ==> r == Err::<(), ProgramError>(
                ProgramError::InvalidAccountData,
            ) && final(dst)@ == old(dst)@,
    {
        if dst.len() != Self::get_packed_len() {
            return Err(ProgramError::InvalidAccountData);
        }
        src.pack_into_slice(dst);
        Ok(())
    }
}

} // verus!
