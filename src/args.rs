use ckb_std::ckb_types::packed::Script;
use ckb_std::ckb_types::prelude::Entity;
use vstd::bytes::{spec_u32_from_le_bytes, u32_from_le_bytes};
use vstd::prelude::*;

use crate::bytes::{append_bytes, be_bytes, be_u128, parse_array, read_be_u128, write_be_u128};
use crate::error::Error;

verus! {

/// Shortest argument string that can hold an order: a 49-byte lock, the
/// setup byte and the 16-byte value.
pub const MIN_ARGS_SIZE: usize = 66;

/// Width of the owner lock's little-endian length header.
pub const SIZE_HEADER_LEN: usize = 4;

/// Width of the big-endian total value.
pub const TOTAL_VALUE_LEN: usize = 16;

/// Width of a type-script hash.
pub const HASH_LEN: usize = 32;

/// Setup bit: a receiver lock follows the value (reserved, always refused).
pub const RECEIVER_LOCK_FLAG: u8 = 1;

/// Setup bit: the hash of the required token type script follows.
pub const UNIT_TYPE_HASH_FLAG: u8 = 2;

/// Setup bit: the asset is non-fungible.
pub const NFT_FLAG: u8 = 4;

/// Largest setup byte whose bits are all known.
pub const SETUP_MAX: u8 = 7;

/// Whether a byte string is a well-formed molecule `Script` table.
pub uninterp spec fn script_verifies(bytes: Seq<u8>) -> bool;

/// Relies on `Script::from_slice` of ckb-types (a molecule entity): it succeeds
/// exactly on the byte strings that verify as a `Script` table, which depends
/// on the bytes alone.
#[verifier::external_body]
fn verify_script(bytes: &[u8]) -> (r: bool)
    ensures
        r == script_verifies(bytes@),
{
    Script::from_slice(bytes).is_ok()
}

/// The order terms as mathematical values.
pub struct OrderTerms {
    pub owner_lock: Seq<u8>,
    pub setup: u8,
    pub total_value: u128,
    pub receiver_lock: Option<Seq<u8>>,
    pub unit_type_hash: Option<Seq<u8>>,
}

/// The order terms that a lock's arguments carry.
pub struct DexArgs {
    /// Serialized lock script of the maker; compared by bytes only.
    pub owner_lock: Vec<u8>,
    /// 0b_xxxx_x0xx is a fungible asset and 0b_xxxx_x1xx a non-fungible one.
    pub setup: u8,
    pub total_value: u128,
    pub receiver_lock: Option<[u8; 32]>,
    pub unit_type_hash: Option<[u8; 32]>,
}

/// A fixed-width hash as a byte sequence.
pub open spec fn hash_view(h: Option<[u8; 32]>) -> Option<Seq<u8>> {
    match h {
        Some(a) => Some(a@),
        None => None,
    }
}

impl View for DexArgs {
    type V = OrderTerms;

    open spec fn view(&self) -> OrderTerms {
        OrderTerms {
            owner_lock: self.owner_lock@,
            setup: self.setup,
            total_value: self.total_value,
            receiver_lock: hash_view(self.receiver_lock),
            unit_type_hash: hash_view(self.unit_type_hash),
        }
    }
}

/// The owner lock's size as its length header declares it.
pub open spec fn declared_owner_size(a: Seq<u8>) -> int {
    spec_u32_from_le_bytes(a.subrange(0, 4)) as int
}

/// What an argument string decodes to.
///
/// Layout: the owner lock (whose first four bytes give its own size `l`,
/// little-endian), the setup byte at `l`, the total value big-endian at
/// `l + 1 .. l + 17`, then the 32-byte token type hash when setup bit 1 is set.
pub open spec fn decode_terms(a: Seq<u8>) -> Result<OrderTerms, Error> {
    let l = declared_owner_size(a);
    if a.len() < MIN_ARGS_SIZE {
        Err(Error::LockArgsInvalid)
    } else if a.len() < l + 17 {
        Err(Error::LockArgsInvalid)
    } else if !script_verifies(a.subrange(0, l)) {
        Err(Error::Encoding)
    } else if a[l] > SETUP_MAX {
        Err(Error::DexSetupInvalid)
    } else if a[l] & RECEIVER_LOCK_FLAG != 0 {
        Err(Error::DexSetupInvalid)
    } else if a[l] & UNIT_TYPE_HASH_FLAG != 0 && a.len() != l + 17 + HASH_LEN {
        Err(Error::LockArgsInvalid)
    } else {
        Ok(
            OrderTerms {
                owner_lock: a.subrange(0, l),
                setup: a[l],
                total_value: be_u128(a.subrange(l + 1, l + 17)),
                receiver_lock: None,
                unit_type_hash: if a[l] & UNIT_TYPE_HASH_FLAG != 0 {
                    Some(a.subrange(l + 17, l + 17 + HASH_LEN))
                } else {
                    None
                },
            },
        )
    }
}

/// The argument string that order terms encode to, or the error when a
/// field that the setup byte announces is absent.
pub open spec fn encode_terms(d: OrderTerms) -> Result<Seq<u8>, Error> {
    let head = d.owner_lock + seq![d.setup] + be_bytes(d.total_value);
    if d.setup & RECEIVER_LOCK_FLAG != 0 && d.receiver_lock is None {
        Err(Error::LockArgsInvalid)
    } else if d.setup & UNIT_TYPE_HASH_FLAG != 0 && d.unit_type_hash is None {
        Err(Error::LockArgsInvalid)
    } else {
        let with_receiver = if d.setup & RECEIVER_LOCK_FLAG != 0 {
            head + d.receiver_lock->0
        } else {
            head
        };
        Ok(
            if d.setup & UNIT_TYPE_HASH_FLAG != 0 {
                with_receiver + d.unit_type_hash->0
            } else {
                with_receiver
            },
        )
    }
}

impl DexArgs {
    /// Decodes the order terms from the arguments of the executing lock script.
    pub fn from_script(data: &[u8]) -> (r: Result<DexArgs, Error>)
        ensures
            match r {
                Ok(d) => decode_terms(data@) == Ok::<OrderTerms, Error>(d@),
                Err(e) => decode_terms(data@) == Err::<OrderTerms, Error>(e),
            },
    {
        if data.len() < MIN_ARGS_SIZE {
            return Err(Error::LockArgsInvalid);
        }
        let header = match parse_array::<4>(&data[0..SIZE_HEADER_LEN]) {
            Ok(h) => h,
            Err(e) => return Err(e),
        };
        let owner_size = u32_from_le_bytes(header.as_slice()) as usize;
        proof {
            assert(header@ == data@.subrange(0, 4));
        }
        if data.len() - 17 < owner_size {
            return Err(Error::LockArgsInvalid);
        }
        let required_size = owner_size + 17;
        if !verify_script(&data[0..owner_size]) {
            return Err(Error::Encoding);
        }
        let setup = data[owner_size];
        if setup > SETUP_MAX {
            return Err(Error::DexSetupInvalid);
        }
        let value_bytes = match parse_array::<16>(&data[owner_size + 1..required_size]) {
            Ok(b) => b,
            Err(e) => return Err(e),
        };
        let total_value = read_be_u128(&value_bytes);
        if setup & RECEIVER_LOCK_FLAG != 0 {
            return Err(Error::DexSetupInvalid);
        }
        let unit_type_hash = match Self::get_hash(
            data,
            setup & UNIT_TYPE_HASH_FLAG != 0,
            required_size,
        ) {
            Ok(h) => h,
            Err(e) => return Err(e),
        };
        let mut owner_lock: Vec<u8> = Vec::new();
        append_bytes(&mut owner_lock, &data[0..owner_size]);
        proof {
            assert(owner_lock@ =~= data@.subrange(0, owner_size as int));
        }
        Ok(DexArgs { owner_lock, setup, total_value, receiver_lock: None, unit_type_hash })
    }

    /// The token type hash that fills the rest of `data` from `from_pos` on,
    /// when `flag` announces one.
    fn get_hash(data: &[u8], flag: bool, from_pos: usize) -> (r: Result<Option<[u8; 32]>, Error>)
        requires
            from_pos <= data@.len(),
        ensures
            !flag ==> r == Ok::<Option<[u8; 32]>, Error>(None),
            flag && data@.len() != from_pos + HASH_LEN ==> r == Err::<Option<[u8; 32]>, Error>(
                Error::LockArgsInvalid,
            ),
            flag && data@.len() == from_pos + HASH_LEN ==> (r matches Ok(Some(h)) && h@
                == data@.subrange(from_pos as int, from_pos + HASH_LEN)),
    {
        if !flag {
            return Ok(None);
        }
        if data.len() - from_pos != HASH_LEN {
            Err(Error::LockArgsInvalid)
        } else {
            match parse_array::<32>(&data[from_pos..data.len()]) {
                Ok(h) => Ok(Some(h)),
                Err(e) => Err(e),
            }
        }
    }

    /// Whether the asset is fungible (setup bit 2 clear).
    pub fn is_udt(&self) -> (r: bool)
        ensures
            r == (self.setup & NFT_FLAG == 0),
    {
        self.setup & NFT_FLAG == 0
    }

    /// Whether the asset is non-fungible (setup bit 2 set).
    pub fn is_nft(&self) -> (r: bool)
        ensures
            r == (self.setup & NFT_FLAG != 0),
    {
        self.setup & NFT_FLAG != 0
    }

    /// Encodes the order terms as lock arguments; fails when the setup byte
    /// announces a receiver lock or a type hash that is absent.
    pub fn to_vec(&self) -> (r: Result<Vec<u8>, Error>)
        ensures
            match r {
                Ok(v) => encode_terms(self@) == Ok::<Seq<u8>, Error>(v@),
                Err(e) => encode_terms(self@) == Err::<Seq<u8>, Error>(e),
            },
    {
        let mut ret: Vec<u8> = Vec::new();
        append_bytes(&mut ret, self.owner_lock.as_slice());
        ret.push(self.setup);
        let value = write_be_u128(self.total_value);
        append_bytes(&mut ret, value.as_slice());
        if self.setup & RECEIVER_LOCK_FLAG != 0 {
            match &self.receiver_lock {
                Some(lock) => append_bytes(&mut ret, lock.as_slice()),
                None => return Err(Error::LockArgsInvalid),
            }
        }
        if self.setup & UNIT_TYPE_HASH_FLAG != 0 {
            match &self.unit_type_hash {
                Some(hash) => append_bytes(&mut ret, hash.as_slice()),
                None => return Err(Error::LockArgsInvalid),
            }
        }
        proof {
            assert(ret@ =~= encode_terms(self@)->Ok_0);
        }
        Ok(ret)
    }
}

} // verus!
