use vstd::prelude::*;

use crate::params::{opt_bool_entry, opt_entry, push_opt_bool, push_opt_str, push_pair};
use crate::text::{dec_int, i64_to_dec};

verus! {

/// The revision a corporation listing asks for when none is given.
pub open spec fn spec_default_revision(revision_from: Option<i64>) -> int {
    match revision_from {
        Some(v) => v as int,
        None => -1,
    }
}

/// The single query pair of the corporation listings: `revisionFrom`,
/// defaulting to -1 when no revision is given.
pub fn corporation_revision_params(revision_from: Option<i64>) -> (r: Vec<(String, String)>)
    ensures
        r.deep_view() == seq![("revisionFrom"@, dec_int(spec_default_revision(revision_from)))],
{
    let revision: i64 = match revision_from {
        Some(v) => v,
        None => -1,
    };
    let mut params: Vec<(String, String)> = Vec::new();
    proof {
        assert(params.deep_view() =~= Seq::<(Seq<char>, Seq<char>)>::empty());
    }
    push_pair(&mut params, "revisionFrom", i64_to_dec(revision));
    proof {
        assert(params.deep_view() =~= seq![
            ("revisionFrom"@, dec_int(spec_default_revision(revision_from))),
        ]);
    }
    params
}

/// The query pairs of the group search: `name` and `departmentId`, each
/// present exactly when the argument is.
pub fn corporation_search_groups_params(name: Option<&str>, department_id: Option<&str>) -> (r: Vec<
    (String, String),
>)
    ensures
        r.deep_view() == opt_entry("name"@, name.deep_view()) + opt_entry(
            "departmentId"@,
            department_id.deep_view(),
        ),
{
    let mut params: Vec<(String, String)> = Vec::new();
    proof {
        assert(params.deep_view() =~= Seq::<(Seq<char>, Seq<char>)>::empty());
    }
    push_opt_str(&mut params, "name", &name);
    proof {
        assert(params.deep_view() =~= opt_entry("name"@, name.deep_view()));
    }
    push_opt_str(&mut params, "departmentId", &department_id);
    params
}

/// The query pairs of the terminal search: `name`, `computerName` and
/// `anonymous`, each present exactly when the argument is.
pub fn corporation_search_terminals_params(
    name: Option<&str>,
    computer_name: Option<&str>,
    anonymous: Option<bool>,
) -> (r: Vec<(String, String)>)
    ensures
        r.deep_view() == opt_entry("name"@, name.deep_view()) + opt_entry(
            "computerName"@,
            computer_name.deep_view(),
        ) + opt_bool_entry("anonymous"@, anonymous),
{
    let mut params: Vec<(String, String)> = Vec::new();
    proof {
        assert(params.deep_view() =~= Seq::<(Seq<char>, Seq<char>)>::empty());
    }
    push_opt_str(&mut params, "name", &name);
    proof {
        assert(params.deep_view() =~= opt_entry("name"@, name.deep_view()));
    }
    push_opt_str(&mut params, "computerName", &computer_name);
    push_opt_bool(&mut params, "anonymous", &anonymous);
    params
}

} // verus!
