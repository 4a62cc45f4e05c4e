use vstd::prelude::*;

use crate::params::{opt_bool_entry, opt_i64_entry, push_opt_bool, push_opt_i64, push_pair};
use crate::xml::response::entities::{spec_entity_type_str, EntityType};

verus! {

/// One `rootType` pair per requested reference book, under its wire name.
pub open spec fn root_type_entries(types: Seq<EntityType>) -> Seq<(Seq<char>, Seq<char>)> {
    types.map_values(|t: EntityType| ("rootType"@, spec_entity_type_str(t)))
}

/// The query pairs of the reference-book listing: one `rootType` pair per
/// requested book, then `includeDeleted` and `revisionFrom` when present.
pub fn entities_list_params(
    root_types: &Vec<EntityType>,
    include_deleted: Option<bool>,
    revision_from: Option<i64>,
) -> (r: Vec<(String, String)>)
    ensures
        r.deep_view() == root_type_entries(root_types@) + opt_bool_entry(
            "includeDeleted"@,
            include_deleted,
        ) + opt_i64_entry("revisionFrom"@, revision_from),
{
    let mut params: Vec<(String, String)> = Vec::new();
    let n = root_types.len();
    let mut i: usize = 0;
    proof {
        assert(params.deep_view() =~= root_type_entries(root_types@.subrange(0, 0)));
    }
    while i < n
        invariant
            i <= n,
            n == root_types@.len(),
            params.deep_view() =~= root_type_entries(root_types@.subrange(0, i as int)),
        decreases n - i,
    {
        push_pair(&mut params, "rootType", root_types[i].as_str().to_owned());
        proof {
            assert(root_types@.subrange(0, i + 1) =~= root_types@.subrange(0, i as int) + seq![
                root_types@[i as int],
            ]);
            assert(root_type_entries(root_types@.subrange(0, i + 1)) =~= root_type_entries(
                root_types@.subrange(0, i as int),
            ) + seq![("rootType"@, spec_entity_type_str(root_types@[i as int]))]);
            assert(params.deep_view() =~= root_type_entries(root_types@.subrange(0, i + 1)));
        }
        i = i + 1;
    }
    proof {
        assert(root_types@.subrange(0, n as int) =~= root_types@);
        assert(params.deep_view() =~= root_type_entries(root_types@));
    }
    push_opt_bool(&mut params, "includeDeleted", &include_deleted);
    push_opt_i64(&mut params, "revisionFrom", &revision_from);
    params
}

} // verus!
