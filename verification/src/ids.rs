use vstd::prelude::*;

verus! {

/// A random identifier: `uuid::Uuid::new_v4()` in its text form. The value is random;
/// the crate formats it in the hyphenated form, which is 36 characters long.
#[verifier::external_body]
pub fn random_uuid() -> (id: String)
    ensures
        id@.len() == 36,
{
    uuid::Uuid::new_v4().to_string()
}

} // verus!
