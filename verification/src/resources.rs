//! The resources that the service lists.

use vstd::prelude::*;

verus! {

/// A resource: its id and its kind.
pub struct Resource {
    pub id: u32,
    pub kind: String,
}

/// The kind that a resource looked up by id is given.
pub const LOOKED_UP_KIND: &'static str = "kind5";

/// The listed resources: resource 1 of kind `kind1`, then resource 2 of kind
/// `kind2`.
pub fn list_resources() -> (resources: Vec<Resource>)
    ensures
        resources@.len() == 2,
        resources@[0].id == 1,
        resources@[0].kind@ == "kind1"@,
        resources@[1].id == 2,
        resources@[1].kind@ == "kind2"@,
{
    let mut resources: Vec<Resource> = Vec::new();
    resources.push(Resource { id: 1, kind: "kind1".to_owned() });
    resources.push(Resource { id: 2, kind: "kind2".to_owned() });
    resources
}

/// The resource with id `id`: whatever the id, it is of kind `kind5`.
pub fn get_resource(id: u32) -> (resource: Resource)
    ensures
        resource.id == id,
        resource.kind@ == LOOKED_UP_KIND@,
{
    Resource { id, kind: LOOKED_UP_KIND.to_owned() }
}

} // verus!
