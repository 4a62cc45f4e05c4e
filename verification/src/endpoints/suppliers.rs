use vstd::prelude::*;

use crate::params::{opt_entry, opt_i32_entry, push_opt_i32, push_opt_str};

verus! {

/// The query pairs of the supplier listing: `revisionFrom` exactly when a
/// revision is given.
pub fn suppliers_list_params(revision_from: Option<i32>) -> (r: Vec<(String, String)>)
    ensures
        r.deep_view() == opt_i32_entry("revisionFrom"@, revision_from),
{
    let mut params: Vec<(String, String)> = Vec::new();
    proof {
        assert(params.deep_view() =~= Seq::<(Seq<char>, Seq<char>)>::empty());
    }
    push_opt_i32(&mut params, "revisionFrom", &revision_from);
    proof {
        assert(params.deep_view() =~= opt_i32_entry("revisionFrom"@, revision_from));
    }
    params
}

/// The query pairs of the supplier search: one pair per present field, in
/// the fixed field order.
pub fn suppliers_search_params(
    name: Option<&str>,
    code: Option<&str>,
    phone: Option<&str>,
    cell_phone: Option<&str>,
    first_name: Option<&str>,
    middle_name: Option<&str>,
    last_name: Option<&str>,
    email: Option<&str>,
    card_number: Option<&str>,
    taxpayer_id_number: Option<&str>,
) -> (r: Vec<(String, String)>)
    ensures
        r.deep_view() == opt_entry("name"@, name.deep_view()) + opt_entry("code"@, code.deep_view())
            + opt_entry("phone"@, phone.deep_view()) + opt_entry(
            "cellPhone"@,
            cell_phone.deep_view(),
        ) + opt_entry("firstName"@, first_name.deep_view()) + opt_entry(
            "middleName"@,
            middle_name.deep_view(),
        ) + opt_entry("lastName"@, last_name.deep_view()) + opt_entry("email"@, email.deep_view())
            + opt_entry("cardNumber"@, card_number.deep_view()) + opt_entry(
            "taxpayerIdNumber"@,
            taxpayer_id_number.deep_view(),
        ),
{
    let mut params: Vec<(String, String)> = Vec::new();
    proof {
        assert(params.deep_view() =~= Seq::<(Seq<char>, Seq<char>)>::empty());
    }
    push_opt_str(&mut params, "name", &name);
    proof {
        assert(params.deep_view() =~= opt_entry("name"@, name.deep_view()));
    }
    push_opt_str(&mut params, "code", &code);
    push_opt_str(&mut params, "phone", &phone);
    push_opt_str(&mut params, "cellPhone", &cell_phone);
    push_opt_str(&mut params, "firstName", &first_name);
    push_opt_str(&mut params, "middleName", &middle_name);
    push_opt_str(&mut params, "lastName", &last_name);
    push_opt_str(&mut params, "email", &email);
    push_opt_str(&mut params, "cardNumber", &card_number);
    push_opt_str(&mut params, "taxpayerIdNumber", &taxpayer_id_number);
    params
}

} // verus!
