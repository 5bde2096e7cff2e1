use token_swap::instruction::{
    deposit_all_token_types, deregister_pool, initialize_registry, repair_closed_fee_account,
    routed_swap, swap, system_program_id, DepositAllTokenTypes, Swap, SwapInstruction,
};
use token_swap::curve::base::{Calculator, CurveType, SwapCurve};
use token_swap::curve::fees::Fees;
use token_swap::curve::stable::StableCurve;
use token_swap::instruction::initialize;
use token_swap::pubkey::Pubkey;

fn key(b: u8) -> Pubkey {
    Pubkey([b; 32])
}

#[test]
fn builders_swap_accounts_and_data() {
    let instruction = Swap {
        amount_in: 7,
        minimum_amount_out: 3,
        flags: 1,
    };
    let ix = swap(
        &key(1),
        &key(2),
        &key(3),
        &key(4),
        &key(5),
        &key(6),
        &key(7),
        &key(8),
        &key(9),
        &key(10),
        &key(11),
        Some(&key(12)),
        &key(13),
        instruction,
    )
    .unwrap();
    assert_eq!(ix.program_id, key(1));
    assert_eq!(ix.accounts.len(), 12);
    assert_eq!(ix.accounts[0].pubkey, key(3));
    assert!(!ix.accounts[0].is_writable);
    assert!(ix.accounts[2].is_signer);
    assert_eq!(ix.accounts[9].pubkey, key(13));
    assert_eq!(ix.accounts[10].pubkey, key(2));
    assert!(!ix.accounts[10].is_writable);
    assert_eq!(ix.accounts[11].pubkey, key(12));
    assert!(ix.accounts[11].is_writable);
    assert_eq!(ix.data, SwapInstruction::Swap(instruction).pack());
    let without_host = swap(
        &key(1),
        &key(2),
        &key(3),
        &key(4),
        &key(5),
        &key(6),
        &key(7),
        &key(8),
        &key(9),
        &key(10),
        &key(11),
        None,
        &key(13),
        instruction,
    )
    .unwrap();
    assert_eq!(without_host.accounts.len(), 11);
}

#[test]
fn builders_other_instructions() {
    let deposit = DepositAllTokenTypes {
        pool_token_amount: 1,
        maximum_token_a_amount: 2,
        maximum_token_b_amount: 3,
    };
    let ix = deposit_all_token_types(
        &key(1),
        &key(2),
        &key(3),
        &key(4),
        &key(5),
        &key(6),
        &key(7),
        &key(8),
        &key(9),
        &key(10),
        &key(11),
        deposit,
    )
    .unwrap();
    assert_eq!(ix.accounts.len(), 10);
    assert_eq!(ix.accounts[9].pubkey, key(2));
    assert_eq!(ix.data[0], 2);
    let ix = initialize_registry(&key(1), &key(2), &key(3)).unwrap();
    assert_eq!(ix.data, vec![6]);
    assert!(ix.accounts[0].is_signer && ix.accounts[0].is_writable);
    let ix = deregister_pool(&key(1), &key(2), &key(3), 5).unwrap();
    assert_eq!(ix.data[0], 8);
    assert_eq!(&ix.data[1..], &5u64.to_le_bytes());
    let ix = repair_closed_fee_account(&key(1), &key(2), &key(3), &key(4)).unwrap();
    assert_eq!(ix.data, vec![9]);
    assert_eq!(ix.accounts.len(), 3);
    assert_eq!(system_program_id(), Pubkey([0u8; 32]));
}

#[test]
fn builders_routed_swap_accounts_and_data() {
    let instruction = Swap {
        amount_in: 100,
        minimum_amount_out: 90,
        flags: 14,
    };
    let ix = routed_swap(
        &key(1),
        &key(2),
        &key(3),
        &key(4),
        &key(5),
        &key(6),
        &key(7),
        &key(8),
        &key(9),
        &key(10),
        &key(11),
        &key(12),
        &key(13),
        &key(14),
        &key(15),
        &key(16),
        &key(17),
        &key(18),
        &key(19),
        instruction,
    )
    .unwrap();
    assert_eq!(ix.program_id, key(1));
    assert_eq!(ix.accounts.len(), 18);
    assert_eq!(ix.accounts[0].pubkey, key(3));
    assert!(!ix.accounts[0].is_writable);
    assert!(ix.accounts[2].is_signer);
    assert_eq!(ix.accounts[2].pubkey, key(5));
    assert_eq!(ix.accounts[9].pubkey, key(2));
    assert!(!ix.accounts[9].is_writable);
    assert_eq!(ix.accounts[10].pubkey, key(12));
    assert_eq!(ix.accounts[17].pubkey, key(19));
    assert!(ix.accounts[17].is_writable);
    assert_eq!(ix.data[0], 7);
    assert_eq!(ix.data, SwapInstruction::RoutedSwap(instruction).pack());
}

#[test]
fn builders_initialize_names_the_rent_sysvar() {
    let fees = Fees {
        trade_fee_numerator: 1,
        trade_fee_denominator: 4,
        owner_trade_fee_numerator: 2,
        owner_trade_fee_denominator: 5,
        owner_withdraw_fee_numerator: 1,
        owner_withdraw_fee_denominator: 3,
    };
    let swap_curve = SwapCurve {
        curve_type: CurveType::Stable,
        calculator: Calculator::Stable(StableCurve { amp: 1 }),
    };
    let ix = initialize(
        &key(1),
        &key(2),
        &key(3),
        &key(4),
        &key(5),
        &key(6),
        &key(7),
        &key(8),
        &key(9),
        &key(10),
        255,
        fees,
        swap_curve,
        &key(11),
        250,
    )
    .unwrap();
    assert_eq!(ix.accounts.len(), 12);
    assert_eq!(ix.accounts[10].pubkey, Pubkey([0u8; 32]));
    let rent = Pubkey(solana_program::sysvar::rent::id().to_bytes());
    assert_eq!(ix.accounts[11].pubkey, rent);
    assert_eq!(
        rent.0,
        [
            6, 167, 213, 23, 25, 44, 92, 81, 33, 140, 201, 76, 61, 74, 241, 127, 88, 218, 238, 8,
            155, 161, 253, 68, 227, 219, 217, 138, 0, 0, 0, 0
        ]
    );
    assert!(!ix.accounts[11].is_writable && !ix.accounts[11].is_signer);
    assert_eq!(ix.data.len(), 84);
}
