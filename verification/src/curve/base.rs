//! Base curve implementation

use vstd::prelude::*;

use crate::curve::cp::ConstantProductCurve;
use crate::curve::flat::FlatCurve;
use crate::curve::shared::DynPack;
use crate::curve::stable::StableCurve;
use crate::error::ProgramError;
use crate::packing::{
    bytes_equal, lemma_le_u64_roundtrip, overwrite, read_le_u64, read_u64, write_bytes, Pack,
};

verus! {

/// Curve types supported by the token-swap program.
#[derive(Clone, Copy, Debug, PartialEq, Eq, Structural)]
pub enum CurveType {
    /// Uniswap-style constant product curve, invariant = token_a_amount * token_b_amount
    ConstantProduct,
    /// Flat line, always providing 1:1 from one token to another
    Flat,
    /// Stable, Like uniswap, but with wide zone of 1:1 instead of one point
    Stable,
}

/// The byte that stands for a curve type.
pub open spec fn curve_type_byte(t: CurveType) -> u8 {
    match t {
        CurveType::ConstantProduct => 0,
        CurveType::Flat => 1,
        CurveType::Stable => 2,
    }
}

/// The curve type a byte stands for.
pub open spec fn curve_type_from_byte(b: u8) -> Result<CurveType, ProgramError> {
    if b == 0 {
        Ok(CurveType::ConstantProduct)
    } else if b == 1 {
        Ok(CurveType::Flat)
    } else if b == 2 {
        Ok(CurveType::Stable)
    } else {
        Err(ProgramError::InvalidAccountData)
    }
}

/// Sensible default of CurveType to ConstantProduct, the most popular and
/// well-known curve type.
impl Default for CurveType {
    fn default() -> (r: Self)
        ensures
            r == CurveType::ConstantProduct,
    {
        CurveType::ConstantProduct
    }
}

impl TryFrom<u8> for CurveType {
    type Error = ProgramError;

    fn try_from(curve_type: u8) -> (r: Result<Self, Self::Error>) {
        match curve_type {
            0 => Ok(CurveType::ConstantProduct),
            1 => Ok(CurveType::Flat),
            2 => Ok(CurveType::Stable),
            _ => Err(ProgramError::InvalidAccountData),
        }
    }
}

impl vstd::std_specs::convert::TryFromSpecImpl<u8> for CurveType {
    open spec fn obeys_try_from_spec() -> bool {
        true
    }

    open spec fn try_from_spec(curve_type: u8) -> Result<Self, ProgramError> {
        curve_type_from_byte(curve_type)
    }
}

impl CurveType {
    /// The byte that stands for the curve type.
    pub fn to_byte(&self) -> (b: u8)
        ensures
            b == curve_type_byte(*self),
    {
        match self {
            CurveType::ConstantProduct => 0,
            CurveType::Flat => 1,
            CurveType::Stable => 2,
        }
    }

    /// The curve type a byte stands for.
    pub fn from_byte(curve_type: u8) -> (r: Result<Self, ProgramError>)
        ensures
            r == curve_type_from_byte(curve_type),
    {
        match curve_type {
            0 => Ok(CurveType::ConstantProduct),
            1 => Ok(CurveType::Flat),
            2 => Ok(CurveType::Stable),
            _ => Err(ProgramError::InvalidAccountData),
        }
    }
}

/// The calculator held by a swap curve, one variant per curve type.
#[derive(Debug)]
pub enum Calculator {
    /// A constant product curve
    ConstantProduct(ConstantProductCurve),
    /// A flat curve
    Flat(FlatCurve),
    /// A stable curve
    Stable(StableCurve),
}

impl DynPack for Calculator {
    open spec fn spec_dyn_len(&self) -> nat {
        72
    }

    open spec fn spec_dyn_pack_into(&self, dst: Seq<u8>) -> Seq<u8> {
        match self {
            Calculator::ConstantProduct(c) => c.spec_dyn_pack_into(dst),
            Calculator::Flat(c) => c.spec_dyn_pack_into(dst),
            Calculator::Stable(c) => crate::curve::calculator::DynPack::spec_dyn_pack_into(c, dst),
        }
    }

    fn pack_into_slice(&self, dst: &mut [u8]) {
        match self {
            Calculator::ConstantProduct(c) => DynPack::pack_into_slice(c, dst),
            Calculator::Flat(c) => DynPack::pack_into_slice(c, dst),
            Calculator::Stable(c) => crate::curve::calculator::DynPack::pack_into_slice(c, dst),
        }
    }
}

/// Concrete struct to wrap around the calculator which performs calculation.
#[derive(Debug)]
pub struct SwapCurve {
    /// The type of curve contained in the calculator, helpful for outside
    /// queries
    pub curve_type: CurveType,
    /// The actual calculator, one variant for each type of curve
    pub calculator: Calculator,
}

impl SwapCurve {
    /// Size of encoding of all curve parameters, which include fees and any other
    /// constants used to calculate swaps, deposits, and withdrawals.
    /// This includes 1 byte for the type, and 72 for the calculator to use as
    /// it needs.  Some calculators may be smaller than 72 bytes.
    pub const LEN: usize = 73;

    /// Whether the calculator is of the curve type the curve names.
    pub open spec fn well_formed(&self) -> bool {
        match self.calculator {
            Calculator::ConstantProduct(_) => self.curve_type == CurveType::ConstantProduct,
            Calculator::Flat(_) => self.curve_type == CurveType::Flat,
            Calculator::Stable(_) => self.curve_type == CurveType::Stable,
        }
    }

    /// The packed form of the curve over a zeroed buffer, which is what
    /// equality compares.
    pub open spec fn packed(&self) -> Seq<u8> {
        self.spec_pack_into(Seq::new(73, |i: int| 0u8))
    }

    /// Size of the curve where a pool's state and the instruction that
    /// creates a pool hold it: the first 33 bytes of its packed form, the
    /// type byte and 32 bytes of the calculator.
    pub const SLOT_LEN: usize = 33;

    /// The slot bytes of the curve: the first 33 bytes of its packed form.
    pub open spec fn slot_bytes(&self) -> Seq<u8> {
        self.packed().take(33)
    }

    /// Whether the curve fits its slot: its packed form holds nothing but
    /// zeros past the first 33 bytes.
    pub open spec fn fits_slot(&self) -> bool {
        self.packed().subrange(33, 73) == Seq::new(40, |i: int| 0u8)
    }

    /// What unpacking the curve from the slot at the start of `src` gives:
    /// the slot's bytes stand for a packed curve whose remaining bytes are
    /// zero.
    pub open spec fn spec_unpack_slot(src: Seq<u8>) -> Result<SwapCurve, ProgramError> {
        SwapCurve::spec_unpack_from_slice(src.take(33) + Seq::new(40, |i: int| 0u8))
    }

    /// Packs the curve into the slot at the start of `output`.
    pub fn pack_into_slot(&self, output: &mut [u8])
        requires
            old(output)@.len() >= 33,
        ensures
            final(output)@ == overwrite(old(output)@, 0, self.slot_bytes()),
            final(output)@.len() == old(output)@.len(),
    {
        let mut full: Vec<u8> = vec![0u8; 73];
        proof {
            assert(full@ =~= Seq::new(73, |i: int| 0u8));
            lemma_swap_curve_pack_len(*self, full@);
        }
        Pack::pack_into_slice(self, full.as_mut_slice());
        let head = vstd::slice::slice_subrange(full.as_slice(), 0, 33);
        proof {
            assert(head@ =~= self.slot_bytes());
        }
        write_bytes(output, 0, head);
    }

    /// Unpacks the curve from the slot at the start of `input`.
    pub fn unpack_from_slot(input: &[u8]) -> (r: Result<Self, ProgramError>)
        requires
            input@.len() >= 33,
        ensures
            r == Self::spec_unpack_slot(input@),
    {
        let mut full: Vec<u8> = vec![0u8; 73];
        let head = vstd::slice::slice_subrange(input, 0, 33);
        write_bytes(full.as_mut_slice(), 0, head);
        proof {
            assert(full@ =~= input@.take(33) + Seq::new(40, |i: int| 0u8));
        }
        SwapCurve::unpack_from_slice(full.as_slice())
    }
}

/// Packing a curve of the type it names into a slot, when it fits there,
/// and unpacking the slot gives the curve back.
pub proof fn lemma_swap_curve_slot_roundtrip(curve: SwapCurve)
    requires
        curve.well_formed(),
        curve.fits_slot(),
    ensures
        curve.slot_bytes().len() == 33,
        SwapCurve::spec_unpack_slot(curve.slot_bytes()) == Ok::<SwapCurve, ProgramError>(curve),
{
    let zeros = Seq::new(73, |i: int| 0u8);
    lemma_swap_curve_pack_roundtrip(curve, zeros);
    let packed = curve.packed();
    assert(curve.slot_bytes().take(33) + Seq::new(40, |i: int| 0u8) =~= packed);
}

/// The slot bytes of a curve are 33 bytes long.
pub proof fn lemma_swap_curve_slot_len(curve: SwapCurve)
    ensures
        curve.slot_bytes().len() == 33,
{
    lemma_swap_curve_pack_len(curve, Seq::new(73, |i: int| 0u8));
}

/// A stable curve always fits its slot: its parameter takes 8 of the 32
/// bytes.
pub proof fn lemma_stable_curve_fits_slot(amp: u64)
    ensures
        (SwapCurve {
            curve_type: CurveType::Stable,
            calculator: Calculator::Stable(StableCurve { amp }),
        }).fits_slot(),
{
    let curve = SwapCurve {
        curve_type: CurveType::Stable,
        calculator: Calculator::Stable(StableCurve { amp }),
    };
    lemma_le_u64_roundtrip(amp);
    assert(curve.packed().subrange(33, 73) =~= Seq::new(40, |i: int| 0u8));
}

/// Default implementation for SwapCurve: a constant product curve without fees.
impl Default for SwapCurve {
    fn default() -> (r: Self)
        ensures
            r.curve_type == CurveType::ConstantProduct,
            r.calculator == Calculator::ConstantProduct(ConstantProductCurve::zero()),
    {
        let curve_type: CurveType = CurveType::default();
        let calculator: ConstantProductCurve = ConstantProductCurve::default();
        Self { curve_type, calculator: Calculator::ConstantProduct(calculator) }
    }
}

/// Simple implementation for PartialEq which assumes that the output of
/// `Pack` is enough to guarantee equality
impl PartialEq for SwapCurve {
    fn eq(&self, other: &Self) -> (r: bool) {
        let mut packed_self: Vec<u8> = vec![0u8; 73];
        proof {
            assert(packed_self@ =~= Seq::new(73, |i: int| 0u8));
        }
        Pack::pack_into_slice(self, packed_self.as_mut_slice());
        let mut packed_other: Vec<u8> = vec![0u8; 73];
        proof {
            assert(packed_other@ =~= Seq::new(73, |i: int| 0u8));
        }
        Pack::pack_into_slice(other, packed_other.as_mut_slice());
        bytes_equal(packed_self.as_slice(), packed_other.as_slice())
    }
}

impl vstd::std_specs::cmp::PartialEqSpecImpl for SwapCurve {
    open spec fn obeys_eq_spec() -> bool {
        true
    }

    open spec fn eq_spec(&self, other: &SwapCurve) -> bool {
        self.packed() == other.packed()
    }
}

/// What unpacking the calculator of a curve of type `t` from `src` gives.
pub open spec fn spec_unpack_calculator(t: CurveType, src: Seq<u8>) -> Calculator {
    let calculator = src.subrange(1, src.len() as int);
    match t {
        CurveType::ConstantProduct => Calculator::ConstantProduct(
            ConstantProductCurve::spec_unpack_fields(calculator),
        ),
        CurveType::Flat => Calculator::Flat(FlatCurve::spec_unpack_fields(calculator)),
        CurveType::Stable => Calculator::Stable(StableCurve { amp: read_le_u64(calculator, 0) }),
    }
}

impl Pack for SwapCurve {
    open spec fn spec_packable(&self) -> bool {
        true
    }

    open spec fn spec_len() -> nat {
        73
    }

    open spec fn spec_pack_into(&self, dst: Seq<u8>) -> Seq<u8> {
        let with_type = dst.update(0, curve_type_byte(self.curve_type));
        overwrite(
            with_type,
            1,
            self.calculator.spec_dyn_pack_into(with_type.subrange(1, 73)),
        )
    }

    open spec fn spec_unpack_from_slice(src: Seq<u8>) -> Result<Self, ProgramError> {
        match curve_type_from_byte(src[0]) {
            Err(e) => Err(e),
            Ok(curve_type) => Ok(
                SwapCurve {
                    curve_type,
                    calculator: spec_unpack_calculator(curve_type, src.subrange(0, 73)),
                },
            ),
        }
    }

    fn get_packed_len() -> (n: usize) {
        73
    }

    /// Pack SwapCurve into a byte buffer
    fn pack_into_slice(&self, output: &mut [u8]) {
        output[0] = self.curve_type.to_byte();
        let region = vstd::slice::slice_subrange(output, 1, 73);
        let mut calculator: Vec<u8> = vstd::slice::slice_to_vec(region);
        self.calculator.pack_into_slice(calculator.as_mut_slice());
        write_bytes(output, 1, calculator.as_slice());
    }

    /// Unpacks a byte buffer into a SwapCurve
    fn unpack_from_slice(input: &[u8]) -> (r: Result<Self, ProgramError>) {
        let curve_type = CurveType::from_byte(input[0])?;
        let calculator = vstd::slice::slice_subrange(input, 1, 73);
        proof {
            assert(input@.subrange(0, 73).subrange(1, 73) =~= calculator@);
        }
        Ok(
            Self {
                curve_type,
                calculator: match curve_type {
                    CurveType::ConstantProduct => {
                        Calculator::ConstantProduct(ConstantProductCurve::unpack_fields(calculator))
                    },
                    CurveType::Flat => Calculator::Flat(FlatCurve::unpack_fields(calculator)),
                    CurveType::Stable => Calculator::Stable(
                        StableCurve { amp: read_u64(calculator, 0) },
                    ),
                },
            },
        )
    }
}

/// Packing a well-formed swap curve and unpacking the bytes gives the curve
/// back.
pub proof fn lemma_swap_curve_pack_roundtrip(curve: SwapCurve, dst: Seq<u8>)
    requires
        curve.well_formed(),
        dst.len() >= 73,
    ensures
        SwapCurve::spec_unpack_from_slice(curve.spec_pack_into(dst)) == Ok::<
            SwapCurve,
            ProgramError,
        >(curve),
        curve.spec_pack_into(dst).len() == dst.len(),
{
    let with_type = dst.update(0, curve_type_byte(curve.curve_type));
    let region = with_type.subrange(1, 73);
    let packed = curve.spec_pack_into(dst);
    let inner = curve.calculator.spec_dyn_pack_into(region);
    match curve.calculator {
        Calculator::ConstantProduct(c) => {
            crate::curve::cp::lemma_constant_product_curve_pack_roundtrip(c, region);
        },
        Calculator::Flat(c) => {
            crate::curve::flat::lemma_flat_curve_pack_roundtrip(c, region);
        },
        Calculator::Stable(c) => {
            crate::curve::stable::lemma_stable_curve_pack_roundtrip(c, region);
        },
    }
    assert(packed.subrange(0, 73).subrange(1, 73) =~= inner);
    assert(packed[0] == curve_type_byte(curve.curve_type));
}

/// Packing a swap curve into a buffer keeps the buffer's length.
pub proof fn lemma_swap_curve_pack_len(curve: SwapCurve, dst: Seq<u8>)
    requires
        dst.len() >= 73,
    ensures
        curve.spec_pack_into(dst).len() == dst.len(),
{
    let with_type = dst.update(0, curve_type_byte(curve.curve_type));
    let region = with_type.subrange(1, 73);
    match curve.calculator {
        Calculator::ConstantProduct(c) => {
            crate::curve::cp::lemma_constant_product_curve_pack_roundtrip(c, region);
        },
        Calculator::Flat(c) => {
            crate::curve::flat::lemma_flat_curve_pack_roundtrip(c, region);
        },
        Calculator::Stable(c) => {
            crate::curve::stable::lemma_stable_curve_pack_roundtrip(c, region);
        },
    }
}

} // verus!
