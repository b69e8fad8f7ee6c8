//! The identifiers of accounts and organisations.

use uuid::Uuid;
use vstd::prelude::*;

verus! {

/// `uuid::Uuid`, a 128-bit identifier. The library carries such a value from
/// the caller to the account and never looks inside it.
#[verifier::external_type_specification]
#[verifier::external_body]
pub struct ExUuid(Uuid);

/// Whether an identifier is the nil identifier, all of whose bits are zero:
/// what `Uuid::is_nil` tells of it.
pub uninterp spec fn is_nil_id(id: Uuid) -> bool;

/// `Uuid::new_v4` draws an identifier at random. It sets the bits of the
/// version and of the variant, so that the identifier it gives is never the
/// nil one; nothing else is claimed of the value. It takes its random
/// bytes from the operating system and panics if the system gives none.
pub assume_specification[ Uuid::new_v4 ]() -> (id: Uuid)
    ensures
        !is_nil_id(id),
;

} // verus!
