//! Identifiers for the records of a run.

use vstd::prelude::*;

verus! {

/// The length of an identifier: 32 hexadecimal digits in five groups.
pub const IDENTIFIER_LENGTH: usize = 36;

/// Every text of `ids` has the length of an identifier.
pub open spec fn are_identifiers(ids: Seq<Seq<char>>) -> bool {
    forall|i: int| 0 <= i < ids.len() ==> (#[trigger] ids[i]).len() == IDENTIFIER_LENGTH
}

/// Draws a random version 4 UUID with `uuid::Uuid::new_v4` and writes it with
/// its `Display` impl, the hyphenated lower-case form. Trusted: that form is
/// 36 characters long. Which characters they are depends on chance.
#[verifier::external_body]
fn random_identifier() -> (id: String)
    ensures
        id@.len() == IDENTIFIER_LENGTH,
{
    uuid::Uuid::new_v4().to_string()
}

/// A fresh identifier for one record.
pub fn fresh_identifier() -> (id: String)
    ensures
        id@.len() == IDENTIFIER_LENGTH,
{
    random_identifier()
}

/// `count` fresh identifiers.
pub fn fresh_identifiers(count: usize) -> (ids: Vec<String>)
    ensures
        ids.len() == count,
        are_identifiers(ids@.map_values(|s: String| s@)),
{
    let mut ids: Vec<String> = Vec::new();
    let mut i: usize = 0;
    while i < count
        invariant
            i <= count,
            ids.len() == i,
            forall|k: int| 0 <= k < i ==> (#[trigger] ids@[k])@.len() == IDENTIFIER_LENGTH,
        decreases count - i,
    {
        ids.push(random_identifier());
        i += 1;
    }
    ids
}

} // verus!
