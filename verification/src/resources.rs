use vstd::prelude::*;

verus! {

/// The filter of a resource-listing request: restrict the listing to one
/// resource type, or list them all.
pub struct ListResourceQuery {
    pub resource_type: Option<String>,
}

impl ListResourceQuery {
    /// Whether a resource of the given type passes the filter.
    pub fn admits(&self, resource_type: &String) -> (r: bool)
        ensures
            r == (match self.resource_type.deep_view() {
                Some(t) => t == resource_type@,
                None => true,
            }),
    {
        match &self.resource_type {
            Some(t) => t.eq(resource_type),
            None => true,
        }
    }
}

} // verus!
