use vstd::prelude::*;

use crate::params::{opt_entry, push_opt_str, push_pair};
use crate::text::{bool_seq, bool_str};

verus! {

/// The query pairs of the outgoing-invoice export: `from`, `to`, and
/// `supplierId` exactly when a supplier is given.
pub fn export_outgoing_invoice_params(from: &str, to: &str, supplier_id: Option<&str>) -> (r: Vec<
    (String, String),
>)
    ensures
        r.deep_view() == seq![("from"@, from@), ("to"@, to@)] + opt_entry(
            "supplierId"@,
            supplier_id.deep_view(),
        ),
{
    let mut params: Vec<(String, String)> = Vec::new();
    proof {
        assert(params.deep_view() =~= Seq::<(Seq<char>, Seq<char>)>::empty());
    }
    push_pair(&mut params, "from", from.to_owned());
    proof {
        assert(params.deep_view() =~= seq![("from"@, from@)]);
    }
    push_pair(&mut params, "to", to.to_owned());
    proof {
        assert(params.deep_view() =~= seq![("from"@, from@), ("to"@, to@)]);
    }
    push_opt_str(&mut params, "supplierId", &supplier_id);
    params
}

/// The query pairs of the by-number outgoing-invoice export: the document
/// number and the `currentYear` flag always, and the `from` and `to` dates
/// only when the search is not limited to the current year.
pub fn export_outgoing_invoice_by_number_params(
    number: &str,
    current_year: bool,
    from: Option<&str>,
    to: Option<&str>,
) -> (r: Vec<(String, String)>)
    ensures
        r.deep_view() == seq![("number"@, number@), ("currentYear"@, bool_seq(current_year))] + (
        if current_year {
            Seq::<(Seq<char>, Seq<char>)>::empty()
        } else {
            opt_entry("from"@, from.deep_view()) + opt_entry("to"@, to.deep_view())
        }),
{
    let mut params: Vec<(String, String)> = Vec::new();
    proof {
        assert(params.deep_view() =~= Seq::<(Seq<char>, Seq<char>)>::empty());
    }
    push_pair(&mut params, "number", number.to_owned());
    proof {
        assert(params.deep_view() =~= seq![("number"@, number@)]);
    }
    push_pair(&mut params, "currentYear", bool_str(current_year).to_owned());
    proof {
        assert(params.deep_view() =~= seq![
            ("number"@, number@),
            ("currentYear"@, bool_seq(current_year)),
        ]);
    }
    if !current_year {
        push_opt_str(&mut params, "from", &from);
        push_opt_str(&mut params, "to", &to);
    } else {
        proof {
            assert(params.deep_view() =~= params.deep_view() + Seq::<
                (Seq<char>, Seq<char>),
            >::empty());
        }
    }
    params
}

} // verus!
