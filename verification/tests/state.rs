use token_swap::curve::base::{Calculator, CurveType, SwapCurve};
use token_swap::curve::fees::Fees;
use token_swap::curve::stable::StableCurve;
use token_swap::error::ProgramError;
use token_swap::packing::{IsInitialized, Pack};
use token_swap::pubkey::Pubkey;
use token_swap::state::{PoolRegistry, SwapState, SwapV1, SwapVersion, MAX_REGISTRY_SIZE};

const TEST_FEES: Fees = Fees {
    trade_fee_numerator: 1,
    trade_fee_denominator: 4,
    owner_trade_fee_numerator: 3,
    owner_trade_fee_denominator: 10,
    owner_withdraw_fee_numerator: 2,
    owner_withdraw_fee_denominator: 7,
};

const TEST_NONCE: u8 = 255;
const TEST_TOKEN_PROGRAM_ID: Pubkey = Pubkey([1u8; 32]);
const TEST_TOKEN_A: Pubkey = Pubkey([2u8; 32]);
const TEST_TOKEN_B: Pubkey = Pubkey([3u8; 32]);
const TEST_POOL_MINT: Pubkey = Pubkey([4u8; 32]);
const TEST_TOKEN_A_MINT: Pubkey = Pubkey([5u8; 32]);
const TEST_TOKEN_B_MINT: Pubkey = Pubkey([6u8; 32]);
const TEST_POOL_FEE_ACCOUNT: Pubkey = Pubkey([7u8; 32]);

const TEST_CURVE_TYPE: u8 = 2;
const TEST_AMP: u64 = 1;
const TEST_CURVE: StableCurve = StableCurve { amp: TEST_AMP };
const TEST_POOL_NONCE: u8 = 250;

fn empty_registry() -> PoolRegistry {
    PoolRegistry {
        is_initialized: false,
        registry_size: 0,
        accounts: vec![Pubkey::default(); MAX_REGISTRY_SIZE],
    }
}

fn test_curve() -> SwapCurve {
    SwapCurve {
        curve_type: CurveType::try_from(TEST_CURVE_TYPE).unwrap(),
        calculator: Calculator::Stable(TEST_CURVE),
    }
}

fn test_swap() -> SwapV1 {
    SwapV1 {
        is_initialized: true,
        nonce: TEST_NONCE,
        token_program_id: TEST_TOKEN_PROGRAM_ID,
        token_a: TEST_TOKEN_A,
        token_b: TEST_TOKEN_B,
        pool_mint: TEST_POOL_MINT,
        token_a_mint: TEST_TOKEN_A_MINT,
        token_b_mint: TEST_TOKEN_B_MINT,
        pool_fee_account: TEST_POOL_FEE_ACCOUNT,
        fees: TEST_FEES,
        swap_curve: test_curve(),
        pool_nonce: TEST_POOL_NONCE,
    }
}

#[test]
fn pool_registry_pack() {
    let mut pool_registry = empty_registry();
    pool_registry.append(&TEST_TOKEN_A);
    pool_registry.append(&TEST_TOKEN_B);
    assert!(!pool_registry.is_initialized);
    assert_eq!(pool_registry.registry_size, 2);
    assert_eq!(pool_registry.accounts[0], TEST_TOKEN_A);
    assert_eq!(pool_registry.accounts[1], TEST_TOKEN_B);
}

#[test]
fn pool_registry_remove() {
    let mut pool_registry = empty_registry();
    pool_registry.append(&Pubkey([11u8; 32]));
    pool_registry.append(&Pubkey([12u8; 32]));
    let mid = Pubkey([13u8; 32]);
    pool_registry.append(&mid);
    pool_registry.append(&Pubkey([14u8; 32]));
    let last = Pubkey([15u8; 32]);
    pool_registry.append(&last);

    assert_eq!(pool_registry.accounts[2], mid);
    assert_eq!(pool_registry.accounts[4], last);
    assert_eq!(pool_registry.registry_size, 5u32);

    pool_registry.remove(2).unwrap();

    assert_eq!(pool_registry.accounts[2], last);
    assert_eq!(pool_registry.registry_size, 4u32);
    assert_eq!(pool_registry.accounts[4], Pubkey::default());
    assert_eq!(pool_registry.remove(4), Err(ProgramError::InvalidArgument));
    // removing the last key only clears its slot
    pool_registry.remove(3).unwrap();
    assert_eq!(pool_registry.registry_size, 3u32);
    assert_eq!(pool_registry.accounts[3], Pubkey::default());
    assert_eq!(PoolRegistry::index_of(7), 7usize);
}

#[test]
fn swap_version_pack() {
    let swap_info = SwapVersion::SwapV1(test_swap());

    let mut packed = [0u8; SwapVersion::LATEST_LEN];
    SwapVersion::pack(swap_info, &mut packed).unwrap();
    let unpacked = SwapVersion::unpack(&packed).unwrap();

    assert!(unpacked.is_initialized());
    assert_eq!(unpacked.nonce(), TEST_NONCE);
    assert_eq!(*unpacked.token_program_id(), TEST_TOKEN_PROGRAM_ID);
    assert_eq!(*unpacked.token_a_account(), TEST_TOKEN_A);
    assert_eq!(*unpacked.token_b_account(), TEST_TOKEN_B);
    assert_eq!(*unpacked.pool_mint(), TEST_POOL_MINT);
    assert_eq!(*unpacked.token_a_mint(), TEST_TOKEN_A_MINT);
    assert_eq!(*unpacked.token_b_mint(), TEST_TOKEN_B_MINT);
    assert_eq!(*unpacked.pool_fee_account(), TEST_POOL_FEE_ACCOUNT);
    assert_eq!(*unpacked.fees(), TEST_FEES);
    assert_eq!(*unpacked.swap_curve(), test_curve());
    assert_eq!(unpacked.pool_nonce(), TEST_POOL_NONCE);
    assert!(SwapVersion::is_initialized(&packed));
    // an unknown version is not initialized
    packed[0] = 2;
    assert!(!SwapVersion::is_initialized(&packed));
    assert_eq!(
        SwapVersion::unpack(&packed).map(|_| ()),
        Err(ProgramError::UninitializedAccount)
    );
}

#[test]
fn swap_v1_pack() {
    let swap_info = test_swap();

    let mut packed = [0u8; SwapV1::LEN];
    SwapV1::pack_into_slice(&swap_info, &mut packed);
    let unpacked = SwapV1::unpack(&packed).unwrap();
    assert_eq!(swap_info, unpacked);

    let mut packed = vec![1u8, TEST_NONCE];
    packed.extend_from_slice(&TEST_TOKEN_PROGRAM_ID.to_bytes());
    packed.extend_from_slice(&TEST_TOKEN_A.to_bytes());
    packed.extend_from_slice(&TEST_TOKEN_B.to_bytes());
    packed.extend_from_slice(&TEST_POOL_MINT.to_bytes());
    packed.extend_from_slice(&TEST_TOKEN_A_MINT.to_bytes());
    packed.extend_from_slice(&TEST_TOKEN_B_MINT.to_bytes());
    packed.extend_from_slice(&TEST_POOL_FEE_ACCOUNT.to_bytes());
    packed.extend_from_slice(&TEST_FEES.trade_fee_numerator.to_le_bytes());
    packed.extend_from_slice(&TEST_FEES.trade_fee_denominator.to_le_bytes());
    packed.extend_from_slice(&TEST_FEES.owner_trade_fee_numerator.to_le_bytes());
    packed.extend_from_slice(&TEST_FEES.owner_trade_fee_denominator.to_le_bytes());
    packed.extend_from_slice(&TEST_FEES.owner_withdraw_fee_numerator.to_le_bytes());
    packed.extend_from_slice(&TEST_FEES.owner_withdraw_fee_denominator.to_le_bytes());
    packed.push(TEST_CURVE_TYPE);
    packed.extend_from_slice(&TEST_AMP.to_le_bytes());
    packed.extend_from_slice(&[0u8; 24]);
    packed.push(TEST_POOL_NONCE);
    let unpacked = SwapV1::unpack(&packed).unwrap();
    assert_eq!(swap_info, unpacked);

    let packed = [0u8; SwapV1::LEN];
    let swap_info: SwapV1 = Default::default();
    let unpack_unchecked = SwapV1::unpack_unchecked(&packed).unwrap();
    assert_eq!(unpack_unchecked, swap_info);
    assert!(!IsInitialized::is_initialized(&unpack_unchecked));
    let err = SwapV1::unpack(&packed).unwrap_err();
    assert_eq!(err, ProgramError::UninitializedAccount);

    // a flag byte other than 0 or 1 is refused
    let mut packed = [0u8; SwapV1::LEN];
    packed[0] = 2;
    assert_eq!(
        SwapV1::unpack_unchecked(&packed).map(|_| ()),
        Err(ProgramError::InvalidAccountData)
    );
}

#[test]
fn swap_version_pack_refuses_a_wrong_length() {
    // a curve that does not fit the curve's slot still gets the length error
    let mut swap = test_swap();
    swap.swap_curve = SwapCurve::default();
    if let Calculator::ConstantProduct(ref mut c) = swap.swap_curve.calculator {
        c.host_fee_numerator = 1;
    }
    let mut packed = [7u8; 10];
    assert_eq!(
        SwapVersion::pack(SwapVersion::SwapV1(swap), &mut packed),
        Err(ProgramError::InvalidAccountData)
    );
    assert_eq!(packed[0], 1);
    assert_eq!(&packed[1..], &[7u8; 9]);
}
