use vstd::prelude::*;

use crate::params::{opt_bool_entry, opt_entry, opt_i64_entry, push_opt_bool, push_opt_i64,
    push_opt_str};

verus! {

/// The query pairs of the employee listing: `includeDeleted` and
/// `revisionFrom`, each present exactly when the argument is.
pub fn employees_list_params(include_deleted: Option<bool>, revision_from: Option<i64>) -> (r: Vec<
    (String, String),
>)
    ensures
        r.deep_view() == opt_bool_entry("includeDeleted"@, include_deleted) + opt_i64_entry(
            "revisionFrom"@,
            revision_from,
        ),
{
    let mut params: Vec<(String, String)> = Vec::new();
    proof {
        assert(params.deep_view() =~= Seq::<(Seq<char>, Seq<char>)>::empty());
    }
    push_opt_bool(&mut params, "includeDeleted", &include_deleted);
    proof {
        assert(params.deep_view() =~= opt_bool_entry("includeDeleted"@, include_deleted));
    }
    push_opt_i64(&mut params, "revisionFrom", &revision_from);
    params
}

/// The query pairs of the by-department employee listing: `includeDeleted`
/// exactly when the argument is present.
pub fn employees_by_department_params(include_deleted: Option<bool>) -> (r: Vec<(String, String)>)
    ensures
        r.deep_view() == opt_bool_entry("includeDeleted"@, include_deleted),
{
    let mut params: Vec<(String, String)> = Vec::new();
    proof {
        assert(params.deep_view() =~= Seq::<(Seq<char>, Seq<char>)>::empty());
    }
    push_opt_bool(&mut params, "includeDeleted", &include_deleted);
    proof {
        assert(params.deep_view() =~= opt_bool_entry("includeDeleted"@, include_deleted));
    }
    params
}

/// The query pairs of the employee search: one pair per present field, in
/// the fixed field order, booleans rendered `true` or `false`.
pub fn employees_search_params(
    address: Option<&str>,
    card_number: Option<&str>,
    cell_phone: Option<&str>,
    client: Option<bool>,
    code: Option<&str>,
    email: Option<&str>,
    employee: Option<bool>,
    first_name: Option<&str>,
    last_name: Option<&str>,
    login: Option<&str>,
    main_role_code: Option<&str>,
    middle_name: Option<&str>,
    name: Option<&str>,
    note: Option<&str>,
    phone: Option<&str>,
    supplier: Option<bool>,
    include_deleted: Option<bool>,
) -> (r: Vec<(String, String)>)
    ensures
        r.deep_view() == opt_entry("address"@, address.deep_view()) + opt_entry(
            "cardNumber"@,
            card_number.deep_view(),
        ) + opt_entry("cellPhone"@, cell_phone.deep_view()) + opt_bool_entry("client"@, client)
            + opt_entry("code"@, code.deep_view()) + opt_entry("email"@, email.deep_view())
            + opt_bool_entry("employee"@, employee) + opt_entry("firstName"@, first_name.deep_view())
            + opt_entry("lastName"@, last_name.deep_view()) + opt_entry("login"@, login.deep_view())
            + opt_entry("mainRoleCode"@, main_role_code.deep_view()) + opt_entry(
            "middleName"@,
            middle_name.deep_view(),
        ) + opt_entry("name"@, name.deep_view()) + opt_entry("note"@, note.deep_view()) + opt_entry(
            "phone"@,
            phone.deep_view(),
        ) + opt_bool_entry("supplier"@, supplier) + opt_bool_entry(
            "includeDeleted"@,
            include_deleted,
        ),
{
    let mut params: Vec<(String, String)> = Vec::new();
    proof {
        assert(params.deep_view() =~= Seq::<(Seq<char>, Seq<char>)>::empty());
    }
    push_opt_str(&mut params, "address", &address);
    proof {
        assert(params.deep_view() =~= opt_entry("address"@, address.deep_view()));
    }
    push_opt_str(&mut params, "cardNumber", &card_number);
    push_opt_str(&mut params, "cellPhone", &cell_phone);
    push_opt_bool(&mut params, "client", &client);
    push_opt_str(&mut params, "code", &code);
    push_opt_str(&mut params, "email", &email);
    push_opt_bool(&mut params, "employee", &employee);
    push_opt_str(&mut params, "firstName", &first_name);
    push_opt_str(&mut params, "lastName", &last_name);
    push_opt_str(&mut params, "login", &login);
    push_opt_str(&mut params, "mainRoleCode", &main_role_code);
    push_opt_str(&mut params, "middleName", &middle_name);
    push_opt_str(&mut params, "name", &name);
    push_opt_str(&mut params, "note", &note);
    push_opt_str(&mut params, "phone", &phone);
    push_opt_bool(&mut params, "supplier", &supplier);
    push_opt_bool(&mut params, "includeDeleted", &include_deleted);
    params
}

} // verus!
