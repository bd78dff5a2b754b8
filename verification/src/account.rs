//! What the ledger assumes of an account identifier type.

use vstd::laws_cmp::obeys_cmp;
use vstd::laws_eq::obeys_concrete_eq;
use vstd::prelude::*;

verus! {

/// An account identifier type can key the ledger's maps when its order is a
/// total order that agrees with equality, `==` holds of two identifiers
/// exactly when they are the same identifier, and a clone of an identifier
/// is that identifier.
pub open spec fn obeys_account_id_model<K: Ord + Clone>() -> bool {
    &&& obeys_cmp::<K>()
    &&& obeys_concrete_eq::<K>()
    &&& forall|a: K, b: K| #[trigger] call_ensures(K::clone, (&a,), b) ==> a == b
}

/// The unsigned integer types obey the account identifier model.
pub proof fn lemma_unsigned_account_ids()
    ensures
        obeys_account_id_model::<u8>(),
        obeys_account_id_model::<u16>(),
        obeys_account_id_model::<u32>(),
        obeys_account_id_model::<u64>(),
        obeys_account_id_model::<u128>(),
        obeys_account_id_model::<usize>(),
{
}

} // verus!
