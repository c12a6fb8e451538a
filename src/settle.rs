use vstd::bytes::{spec_u128_from_le_bytes, u128_from_le_bytes};
use vstd::prelude::*;

use crate::args::{decode_terms, DexArgs, OrderTerms, NFT_FLAG};
use crate::bytes::bytes_eq;
use crate::cells::{
    first_with_lock,
    has_lock,
    inputs_contain_owner_cell,
    lemma_first_with_lock,
    position_dex_lock_in_inputs,
    InputCell,
    OutputCell,
};
use crate::error::Error;

verus! {

/// Width of a token amount at the start of a token cell's data.
pub const UDT_AMOUNT_LEN: usize = 16;

/// The token amount that a token cell's data holds: its first 16 bytes,
/// little-endian.
pub open spec fn token_amount(data: Seq<u8>) -> u128 {
    spec_u128_from_le_bytes(data.subrange(0, UDT_AMOUNT_LEN as int))
}

/// The verdict on the output paired with the order's input, which held
/// `input_capacity`, when the maker does not take part.
pub open spec fn fulfil_verdict(d: OrderTerms, input_capacity: u64, out: OutputCell) -> Result<
    (),
    Error,
> {
    if out.lock@ != d.owner_lock {
        Err(Error::DexOwnerLockNotMatch)
    } else {
        match d.unit_type_hash {
            Some(h) => {
                if !(out.type_hash matches Some(t) && t@ == h) {
                    Err(Error::UnitTypeNotMatch)
                } else if out.data@.len() < UDT_AMOUNT_LEN {
                    Err(Error::Encoding)
                } else if token_amount(out.data@) < d.total_value {
                    Err(Error::TotalValueNotMatch)
                } else {
                    Ok(())
                }
            },
            None => {
                if d.setup & NFT_FLAG != 0 {
                    if d.total_value > out.capacity {
                        Err(Error::DexNFTTotalValueNotMatch)
                    } else {
                        Ok(())
                    }
                } else if d.total_value + input_capacity > u128::MAX {
                    Err(Error::TotalValueOverflow)
                } else if d.total_value + input_capacity > out.capacity {
                    Err(Error::DexFTTotalValueNotMatch)
                } else {
                    Ok(())
                }
            },
        }
    }
}

/// The verdict on a transaction for an order with terms `d`, whose lock
/// script serializes to `own`.
pub open spec fn settle_verdict(
    d: OrderTerms,
    own: Seq<u8>,
    inputs: Seq<InputCell>,
    outputs: Seq<OutputCell>,
) -> Result<(), Error> {
    if has_lock(inputs, d.owner_lock) {
        Ok(())
    } else if !has_lock(inputs, own) {
        Err(Error::IndexOutOfBound)
    } else {
        let i = first_with_lock(inputs, own);
        if i >= outputs.len() {
            Err(Error::IndexOutOfBound)
        } else {
            fulfil_verdict(d, inputs[i].capacity, outputs[i])
        }
    }
}

/// The verdict on a transaction for the order lock with arguments `args`,
/// whose whole script serializes to `own`.
pub open spec fn order_verdict(
    args: Seq<u8>,
    own: Seq<u8>,
    inputs: Seq<InputCell>,
    outputs: Seq<OutputCell>,
) -> Result<(), Error> {
    match decode_terms(args) {
        Ok(d) => settle_verdict(d, own, inputs, outputs),
        Err(e) => Err(e),
    }
}

/// Checks the output paired with the order's input.
fn check_fulfilment(args: &DexArgs, input_capacity: u64, out: &OutputCell) -> (r: Result<
    (),
    Error,
>)
    ensures
        r == fulfil_verdict(args@, input_capacity, *out),
{
    if !bytes_eq(args.owner_lock.as_slice(), out.lock.as_slice()) {
        return Err(Error::DexOwnerLockNotMatch);
    }
    match &args.unit_type_hash {
        Some(unit_type_hash) => {
            match &out.type_hash {
                Some(type_hash) => {
                    if !bytes_eq(type_hash.as_slice(), unit_type_hash.as_slice()) {
                        return Err(Error::UnitTypeNotMatch);
                    }
                },
                None => return Err(Error::UnitTypeNotMatch),
            }
            if out.data.len() < UDT_AMOUNT_LEN {
                return Err(Error::Encoding);
            }
            let amount = u128_from_le_bytes(&out.data.as_slice()[0..UDT_AMOUNT_LEN]);
            if amount < args.total_value {
                return Err(Error::TotalValueNotMatch);
            }
            Ok(())
        },
        None => {
            let output_capacity = out.capacity as u128;
            if args.is_nft() {
                if args.total_value > output_capacity {
                    return Err(Error::DexNFTTotalValueNotMatch);
                }
                Ok(())
            } else {
                let total_capacity = match args.total_value.checked_add(input_capacity as u128) {
                    Some(t) => t,
                    None => return Err(Error::TotalValueOverflow),
                };
                if total_capacity > output_capacity {
                    return Err(Error::DexFTTotalValueNotMatch);
                }
                Ok(())
            }
        },
    }
}

/// Checks a transaction against decoded order terms: it passes when the maker
/// spends a cell of their own in it, or when the output at the index of the
/// order's input pays the maker what the terms ask.
pub fn settle(
    args: &DexArgs,
    current_lock: &[u8],
    inputs: &Vec<InputCell>,
    outputs: &Vec<OutputCell>,
) -> (r: Result<(), Error>)
    ensures
        r == settle_verdict(args@, current_lock@, inputs@, outputs@),
{
    if inputs_contain_owner_cell(args, inputs) {
        return Ok(());
    }
    let dex_index = match position_dex_lock_in_inputs(current_lock, inputs) {
        Ok(i) => i,
        Err(e) => return Err(e),
    };
    proof {
        lemma_first_with_lock(inputs@, current_lock@, dex_index as int);
    }
    if dex_index >= outputs.len() {
        return Err(Error::IndexOutOfBound);
    }
    check_fulfilment(args, inputs[dex_index].capacity, &outputs[dex_index])
}

/// Runs the whole order check: decodes the lock arguments `args`, then checks
/// the transaction against them. `current_lock` is the executing lock script,
/// serialized.
pub fn verify_order(
    args: &[u8],
    current_lock: &[u8],
    inputs: &Vec<InputCell>,
    outputs: &Vec<OutputCell>,
) -> (r: Result<(), Error>)
    ensures
        r == order_verdict(args@, current_lock@, inputs@, outputs@),
{
    match DexArgs::from_script(args) {
        Ok(d) => settle(&d, current_lock, inputs, outputs),
        Err(e) => Err(e),
    }
}

} // verus!
