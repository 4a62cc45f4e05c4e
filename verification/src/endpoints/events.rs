use vstd::prelude::*;

use crate::params::{opt_entry, opt_i64_entry, push_opt_i64, push_opt_str};

verus! {

/// The query pairs of the event listing: `from_time`, `to_time` and
/// `from_rev`, each present exactly when the argument is.
pub fn events_params(
    from_time: Option<&str>,
    to_time: Option<&str>,
    from_rev: Option<i64>,
) -> (r: Vec<(String, String)>)
    ensures
        r.deep_view() == opt_entry("from_time"@, from_time.deep_view()) + opt_entry(
            "to_time"@,
            to_time.deep_view(),
        ) + opt_i64_entry("from_rev"@, from_rev),
{
    let mut params: Vec<(String, String)> = Vec::new();
    proof {
        assert(params.deep_view() =~= Seq::<(Seq<char>, Seq<char>)>::empty());
    }
    push_opt_str(&mut params, "from_time", &from_time);
    proof {
        assert(params.deep_view() =~= opt_entry("from_time"@, from_time.deep_view()));
    }
    push_opt_str(&mut params, "to_time", &to_time);
    push_opt_i64(&mut params, "from_rev", &from_rev);
    params
}

/// The query pairs of the cash-session listing: `from_time` and `to_time`,
/// each present exactly when the argument is.
pub fn sessions_params(from_time: Option<&str>, to_time: Option<&str>) -> (r: Vec<
    (String, String),
>)
    ensures
        r.deep_view() == opt_entry("from_time"@, from_time.deep_view()) + opt_entry(
            "to_time"@,
            to_time.deep_view(),
        ),
{
    let mut params: Vec<(String, String)> = Vec::new();
    proof {
        assert(params.deep_view() =~= Seq::<(Seq<char>, Seq<char>)>::empty());
    }
    push_opt_str(&mut params, "from_time", &from_time);
    proof {
        assert(params.deep_view() =~= opt_entry("from_time"@, from_time.deep_view()));
    }
    push_opt_str(&mut params, "to_time", &to_time);
    params
}

} // verus!
