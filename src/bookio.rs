//! The catalog of book collections, and the check that a collection id is in it.

use vstd::prelude::*;

verus! {

/// One collection of the catalog.
pub struct Collection {
    pub collection_id: String,
    pub description: String,
    pub blockchain: String,
    pub network: String,
}

/// The catalog's answer to a listing request.
pub struct CollectionResponse {
    pub kind: String,
    pub data: Vec<Collection>,
}

/// Some collection of `collections` has the id `policy_id`.
pub open spec fn is_listed(collections: Seq<Collection>, policy_id: Seq<char>) -> bool {
    exists|i: int| 0 <= i < collections.len() && #[trigger] collections[i].collection_id@ == policy_id
}

/// Whether the catalog lists a collection with the id `policy_id`.
pub fn verify_policy_id(collections: &Vec<Collection>, policy_id: &str) -> (r: bool)
    ensures
        r == is_listed(collections@, policy_id@),
{
    let wanted = String::from_str(policy_id);
    let mut i: usize = 0;
    while i < collections.len()
        invariant
            i <= collections@.len(),
            wanted@ == policy_id@,
            forall|j: int| 0 <= j < i ==> #[trigger] collections@[j].collection_id@ != policy_id@,
        decreases collections@.len() - i,
    {
        if collections[i].collection_id == wanted {
            return true;
        }
        i = i + 1;
    }
    false
}

impl CollectionResponse {
    /// The collections of the response.
    pub fn into_collections(self) -> (r: Vec<Collection>)
        ensures
            r@ == self.data@,
    {
        self.data
    }
}

} // verus!
