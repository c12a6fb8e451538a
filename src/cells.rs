use vstd::prelude::*;

use crate::args::DexArgs;
use crate::bytes::bytes_eq;
use crate::error::Error;

verus! {

/// What the order check reads of a transaction input.
pub struct InputCell {
    /// Serialized lock script.
    pub lock: Vec<u8>,
    /// Native capacity.
    pub capacity: u64,
}

/// What the order check reads of a transaction output.
pub struct OutputCell {
    /// Serialized lock script.
    pub lock: Vec<u8>,
    /// Native capacity.
    pub capacity: u64,
    /// Hash of the type script, if the cell has one.
    pub type_hash: Option<[u8; 32]>,
    /// Cell data.
    pub data: Vec<u8>,
}

/// Whether some input is locked by exactly `lock`.
pub open spec fn has_lock(inputs: Seq<InputCell>, lock: Seq<u8>) -> bool {
    exists|i: int| 0 <= i < inputs.len() && #[trigger] inputs[i].lock@ == lock
}

/// Whether `i` is the first input locked by exactly `lock`.
pub open spec fn is_first_with_lock(inputs: Seq<InputCell>, lock: Seq<u8>, i: int) -> bool {
    &&& 0 <= i < inputs.len()
    &&& inputs[i].lock@ == lock
    &&& forall|j: int| 0 <= j < i ==> #[trigger] inputs[j].lock@ != lock
}

/// The first input locked by exactly `lock` (meaningful when there is one).
pub open spec fn first_with_lock(inputs: Seq<InputCell>, lock: Seq<u8>) -> int {
    choose|i: int| is_first_with_lock(inputs, lock, i)
}

/// There is at most one first input with a given lock, and there is one
/// whenever some input has it.
pub proof fn lemma_first_with_lock(inputs: Seq<InputCell>, lock: Seq<u8>, i: int)
    requires
        is_first_with_lock(inputs, lock, i),
    ensures
        first_with_lock(inputs, lock) == i,
        has_lock(inputs, lock),
{
    let c = first_with_lock(inputs, lock);
    assert(is_first_with_lock(inputs, lock, c));
    if c < i {
        assert(inputs[c].lock@ != lock);
    } else if i < c {
        assert(inputs[i].lock@ != lock);
    }
}

/// Whether some input is locked by the maker's own lock, which means the
/// maker takes part in the transaction (and may cancel the order).
pub fn inputs_contain_owner_cell(args: &DexArgs, inputs: &Vec<InputCell>) -> (r: bool)
    ensures
        r == has_lock(inputs@, args.owner_lock@),
{
    let mut i: usize = 0;
    while i < inputs.len()
        invariant
            i <= inputs@.len(),
            forall|j: int| 0 <= j < i ==> #[trigger] inputs@[j].lock@ != args.owner_lock@,
        decreases inputs@.len() - i,
    {
        if bytes_eq(inputs[i].lock.as_slice(), args.owner_lock.as_slice()) {
            assert(inputs@[i as int].lock@ == args.owner_lock@);
            return true;
        }
        i += 1;
    }
    false
}

/// The index of the first input locked by `current_lock`, the executing
/// order lock itself.
pub fn position_dex_lock_in_inputs(current_lock: &[u8], inputs: &Vec<InputCell>) -> (r: Result<
    usize,
    Error,
>)
    ensures
        match r {
            Ok(i) => is_first_with_lock(inputs@, current_lock@, i as int),
            Err(e) => e == Error::IndexOutOfBound && !has_lock(inputs@, current_lock@),
        },
{
    let mut i: usize = 0;
    while i < inputs.len()
        invariant
            i <= inputs@.len(),
            forall|j: int| 0 <= j < i ==> #[trigger] inputs@[j].lock@ != current_lock@,
        decreases inputs@.len() - i,
    {
        if bytes_eq(inputs[i].lock.as_slice(), current_lock) {
            return Ok(i);
        }
        i += 1;
    }
    Err(Error::IndexOutOfBound)
}

} // verus!
