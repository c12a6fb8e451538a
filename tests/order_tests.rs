use ckb_std::ckb_types::packed::{Byte, Script};
use ckb_std::ckb_types::prelude::{Builder, Entity, Pack};
use ckb_std::error::SysError;
use dex_lock::args::DexArgs;
use dex_lock::bytes::parse_array;
use dex_lock::cells::{inputs_contain_owner_cell, position_dex_lock_in_inputs, InputCell, OutputCell};
use dex_lock::error::Error;
use dex_lock::settle::{settle, verify_order};

const DEX_CODE_HASH: [u8; 32] = [0xd2; 32];
const LOCK_CODE_HASH: [u8; 32] = [0xa2; 32];
const TOKEN_HASH: [u8; 32] = [0x7e; 32];

fn script_bytes(code_hash: [u8; 32], args: &[u8]) -> Vec<u8> {
    Script::new_builder()
        .code_hash(code_hash.pack())
        .hash_type(Byte::new(1))
        .args(args.pack())
        .build()
        .as_slice()
        .to_vec()
}

fn maker_lock() -> Vec<u8> {
    script_bytes(LOCK_CODE_HASH, &[0x01; 20])
}

fn terms(setup: u8, total_value: u128, unit_type_hash: Option<[u8; 32]>) -> DexArgs {
    DexArgs { owner_lock: maker_lock(), setup, total_value, receiver_lock: None, unit_type_hash }
}

/// One order input at index 0, one paired output; returns the verdict.
fn run_order(args: &DexArgs, input_capacity: u64, output: OutputCell) -> Result<(), Error> {
    let arg_bytes = args.to_vec().unwrap();
    let own = script_bytes(DEX_CODE_HASH, &arg_bytes);
    let inputs = vec![
        InputCell { lock: own.clone(), capacity: input_capacity },
        InputCell { lock: script_bytes(LOCK_CODE_HASH, &[0x09; 20]), capacity: 5000 },
    ];
    verify_order(&arg_bytes, &own, &inputs, &vec![output])
}

fn capacity_output(capacity: u64) -> OutputCell {
    OutputCell { lock: maker_lock(), capacity, type_hash: None, data: Vec::new() }
}

fn token_output(type_hash: Option<[u8; 32]>, data: Vec<u8>) -> OutputCell {
    OutputCell { lock: maker_lock(), capacity: 142_0000_0000, type_hash, data }
}

#[test]
fn round_trip_keeps_every_field() {
    for setup in [0u8, 2, 4, 6] {
        let hash = if setup & 2 != 0 { Some(TOKEN_HASH) } else { None };
        let d = terms(setup, 0x0102_0304_0506_0708_090a_0b0c_0d0e_0f10u128, hash);
        let bytes = d.to_vec().unwrap();
        let back = DexArgs::from_script(&bytes).unwrap();
        assert_eq!(back.owner_lock, d.owner_lock);
        assert_eq!(back.setup, setup);
        assert_eq!(back.total_value, d.total_value);
        assert_eq!(back.receiver_lock, None);
        assert_eq!(back.unit_type_hash, hash);
    }
}

#[test]
fn total_value_is_big_endian() {
    let d = terms(0, 0x0102_0304_0506_0708_090a_0b0c_0d0e_0f10u128, None);
    let bytes = d.to_vec().unwrap();
    let l = d.owner_lock.len();
    assert_eq!(bytes[l], 0);
    assert_eq!(bytes[l + 1], 0x01);
    assert_eq!(bytes[l + 16], 0x10);
    assert_eq!(bytes.len(), l + 17);
}

#[test]
fn encoding_refuses_missing_announced_fields() {
    assert_eq!(terms(1, 5, None).to_vec(), Err(Error::LockArgsInvalid));
    assert_eq!(terms(2, 5, None).to_vec(), Err(Error::LockArgsInvalid));
}

#[test]
fn short_args_are_invalid() {
    let full = terms(0, 77, None).to_vec().unwrap();
    for n in 0..66 {
        let short: Vec<u8> = full.iter().cycle().take(n).copied().collect();
        assert!(matches!(DexArgs::from_script(&short), Err(Error::LockArgsInvalid)));
    }
}

#[test]
fn declared_size_beyond_args_is_invalid() {
    let mut bytes = terms(0, 77, None).to_vec().unwrap();
    bytes[0] = bytes[0].wrapping_add(1);
    assert!(matches!(DexArgs::from_script(&bytes), Err(Error::LockArgsInvalid)));
}

#[test]
fn malformed_owner_lock_is_an_encoding_error() {
    let mut bytes = terms(0, 77, None).to_vec().unwrap();
    // second offset of the script table points past its end
    bytes[8] = 0xff;
    assert!(matches!(DexArgs::from_script(&bytes), Err(Error::Encoding)));
}

#[test]
fn unknown_or_reserved_setup_bits_are_refused() {
    let mut bytes = terms(0, 77, None).to_vec().unwrap();
    let l = maker_lock().len();
    bytes[l] = 8;
    assert!(matches!(DexArgs::from_script(&bytes), Err(Error::DexSetupInvalid)));
    bytes[l] = 1;
    assert!(matches!(DexArgs::from_script(&bytes), Err(Error::DexSetupInvalid)));
    bytes[l] = 5;
    assert!(matches!(DexArgs::from_script(&bytes), Err(Error::DexSetupInvalid)));
}

#[test]
fn token_hash_must_fill_the_tail_exactly() {
    let mut bytes = terms(2, 77, Some(TOKEN_HASH)).to_vec().unwrap();
    bytes.push(0);
    assert!(matches!(DexArgs::from_script(&bytes), Err(Error::LockArgsInvalid)));
    bytes.truncate(bytes.len() - 2);
    assert!(matches!(DexArgs::from_script(&bytes), Err(Error::LockArgsInvalid)));
}

#[test]
fn reversed_args_fail_to_decode() {
    let d = terms(0, 9_8765_0000_1234u128, None);
    let mut bytes = d.to_vec().unwrap();
    bytes.reverse();
    let own = script_bytes(DEX_CODE_HASH, &bytes);
    let inputs = vec![InputCell { lock: own.clone(), capacity: 1 }];
    let r = verify_order(&bytes, &own, &inputs, &Vec::new());
    assert!(r == Err(Error::LockArgsInvalid) || r == Err(Error::Encoding));
}

#[test]
fn fungible_capacity_settles_exactly() {
    let d = terms(0, 1234_5678_0000u128, None);
    let need = 300_0000_0000u64 + 1234_5678_0000u64;
    assert_eq!(run_order(&d, 300_0000_0000, capacity_output(need)), Ok(()));
    assert_eq!(run_order(&d, 300_0000_0000, capacity_output(need + 1)), Ok(()));
}

#[test]
fn fungible_capacity_underpaid_by_one() {
    let d = terms(0, 1234_5678_0000u128, None);
    let need = 300_0000_0000u64 + 1234_5678_0000u64;
    assert_eq!(
        run_order(&d, 300_0000_0000, capacity_output(need - 1)),
        Err(Error::DexFTTotalValueNotMatch)
    );
}

#[test]
fn fungible_overflow_is_reported() {
    let d = terms(0, u128::MAX - 5, None);
    assert_eq!(run_order(&d, 10, capacity_output(u64::MAX)), Err(Error::TotalValueOverflow));
    let d = terms(0, u128::MAX - 10, None);
    assert_eq!(run_order(&d, 10, capacity_output(u64::MAX)), Err(Error::DexFTTotalValueNotMatch));
}

#[test]
fn nft_capacity_ignores_the_order_cell_capacity() {
    let d = terms(4, 500, None);
    assert_eq!(run_order(&d, 1_000_000, capacity_output(500)), Ok(()));
    assert_eq!(run_order(&d, 1_000_000, capacity_output(499)), Err(Error::DexNFTTotalValueNotMatch));
}

#[test]
fn token_settlement_checks_type_and_amount() {
    let d = terms(2, 1234_5678_0000u128, Some(TOKEN_HASH));
    let paid = 1234_5678_0000u128.to_le_bytes().to_vec();
    assert_eq!(run_order(&d, 1000, token_output(Some(TOKEN_HASH), paid.clone())), Ok(()));
    let short = (1234_5678_0000u128 - 1).to_le_bytes().to_vec();
    assert_eq!(
        run_order(&d, 1000, token_output(Some(TOKEN_HASH), short)),
        Err(Error::TotalValueNotMatch)
    );
    assert_eq!(
        run_order(&d, 1000, token_output(Some([0x7f; 32]), paid.clone())),
        Err(Error::UnitTypeNotMatch)
    );
    assert_eq!(run_order(&d, 1000, token_output(None, paid)), Err(Error::UnitTypeNotMatch));
}

#[test]
fn token_amount_reads_the_first_sixteen_bytes() {
    let d = terms(2, 1000, Some(TOKEN_HASH));
    let mut data = 1000u128.to_le_bytes().to_vec();
    data.extend([0xff; 8]);
    assert_eq!(run_order(&d, 1, token_output(Some(TOKEN_HASH), data)), Ok(()));
    let data = vec![0xffu8; 15];
    assert_eq!(run_order(&d, 1, token_output(Some(TOKEN_HASH), data)), Err(Error::Encoding));
}

#[test]
fn maker_input_cancels_whatever_the_outputs() {
    let d = terms(0, 1234_5678_0000u128, None);
    let arg_bytes = d.to_vec().unwrap();
    let own = script_bytes(DEX_CODE_HASH, &arg_bytes);
    let inputs = vec![
        InputCell { lock: own.clone(), capacity: 300_0000_0000 },
        InputCell { lock: maker_lock(), capacity: 1 },
    ];
    assert_eq!(verify_order(&arg_bytes, &own, &inputs, &Vec::new()), Ok(()));
    let junk = vec![OutputCell { lock: vec![1, 2, 3], capacity: 0, type_hash: None, data: Vec::new() }];
    assert_eq!(verify_order(&arg_bytes, &own, &inputs, &junk), Ok(()));
    assert!(inputs_contain_owner_cell(&d, &inputs));
}

#[test]
fn wrong_lock_at_paired_index_fails() {
    let d = terms(0, 100, None);
    let arg_bytes = d.to_vec().unwrap();
    let own = script_bytes(DEX_CODE_HASH, &arg_bytes);
    let inputs = vec![
        InputCell { lock: script_bytes(LOCK_CODE_HASH, &[0x0a; 20]), capacity: 7 },
        InputCell { lock: own.clone(), capacity: 100 },
    ];
    // the maker is paid enough, but at index 0 rather than at the order's index 1
    let outputs = vec![
        capacity_output(1_000_000),
        OutputCell {
            lock: script_bytes(LOCK_CODE_HASH, &[0x0b; 20]),
            capacity: 1_000_000,
            type_hash: None,
            data: Vec::new(),
        },
    ];
    assert_eq!(settle(&d, &own, &inputs, &outputs), Err(Error::DexOwnerLockNotMatch));
}

#[test]
fn order_cell_must_be_found_with_its_output() {
    let d = terms(0, 100, None);
    let arg_bytes = d.to_vec().unwrap();
    let own = script_bytes(DEX_CODE_HASH, &arg_bytes);
    let other = InputCell { lock: script_bytes(LOCK_CODE_HASH, &[0x0c; 20]), capacity: 7 };
    let inputs = vec![other];
    assert_eq!(position_dex_lock_in_inputs(&own, &inputs), Err(Error::IndexOutOfBound));
    assert_eq!(verify_order(&arg_bytes, &own, &inputs, &Vec::new()), Err(Error::IndexOutOfBound));
    let inputs = vec![
        InputCell { lock: script_bytes(LOCK_CODE_HASH, &[0x0c; 20]), capacity: 7 },
        InputCell { lock: own.clone(), capacity: 100 },
        InputCell { lock: own.clone(), capacity: 100 },
    ];
    assert_eq!(position_dex_lock_in_inputs(&own, &inputs), Ok(1));
    assert_eq!(
        verify_order(&arg_bytes, &own, &inputs, &vec![capacity_output(1_000)]),
        Err(Error::IndexOutOfBound)
    );
}

#[test]
fn asset_kind_follows_setup_bit_two() {
    assert!(terms(0, 1, None).is_udt());
    assert!(!terms(0, 1, None).is_nft());
    assert!(terms(6, 1, None).is_nft());
    assert!(!terms(4, 1, None).is_udt());
}

#[test]
fn parse_array_requires_the_exact_width() {
    let r: Result<[u8; 4], Error> = parse_array(&[1, 2, 3, 4]);
    assert_eq!(r, Ok([1, 2, 3, 4]));
    let r: Result<[u8; 4], Error> = parse_array(&[1, 2, 3]);
    assert_eq!(r, Err(Error::Encoding));
    let r: Result<[u8; 2], Error> = parse_array(&[1, 2, 3]);
    assert_eq!(r, Err(Error::Encoding));
}

#[test]
fn error_codes_and_syscall_errors() {
    assert_eq!(Error::IndexOutOfBound.code(), 1);
    assert_eq!(Error::LockArgsInvalid.code(), 5);
    assert_eq!(Error::DexSetupInvalid.code(), 9);
    assert_eq!(Error::TotalValueOverflow.code(), 10);
    assert_eq!(Error::TotalValueNotMatch.code(), 12);
    assert_eq!(Error::from_sys_error(SysError::IndexOutOfBound), Some(Error::IndexOutOfBound));
    assert_eq!(Error::from_sys_error(SysError::ItemMissing), Some(Error::ItemMissing));
    assert_eq!(Error::from_sys_error(SysError::LengthNotEnough(3)), Some(Error::LengthNotEnough));
    assert_eq!(Error::from_sys_error(SysError::Encoding), Some(Error::Encoding));
    assert_eq!(Error::from_sys_error(SysError::Unknown(42)), None);
}
