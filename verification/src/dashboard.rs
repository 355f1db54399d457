//! Pieces of the administration dashboard: group choices, usage figures
//! and limit inputs.

use vstd::prelude::*;

use crate::text::{escape, escape_html, push_signed_decimal, push_str, signed_decimal, to_owned_string};

verus! {

/// One `<option>` of a usage group choice.
pub open spec fn group_option(id: Seq<char>, name: Seq<char>, selected: bool) -> Seq<char> {
    "<option value=\""@ + escape(id) + "\""@ + (if selected {
        " selected"@
    } else {
        Seq::empty()
    }) + ">"@ + escape(name) + "</option>"@
}

/// The options for the groups `(id, name)`, the one at `selected` marked.
pub open spec fn group_options(groups: Seq<(Seq<char>, Seq<char>)>, selected: Option<int>, n: int) -> Seq<char>
    decreases n,
{
    if n <= 0 {
        Seq::empty()
    } else {
        group_options(groups, selected, n - 1) + group_option(
            groups[n - 1].0,
            groups[n - 1].1,
            selected == Some(n - 1),
        )
    }
}

/// The groups as pairs of texts.
pub open spec fn group_views(groups: Seq<(String, String)>) -> Seq<(Seq<char>, Seq<char>)> {
    groups.map_values(|g: (String, String)| (g.0@, g.1@))
}

/// Renders the options of a usage group choice; the group at `selected`,
/// if any, is preselected.
pub fn render_group_options(groups: &Vec<(String, String)>, selected: Option<usize>) -> (res: String)
    ensures
        res@ == group_options(
            group_views(groups@),
            match selected {
                Some(i) => Some(i as int),
                None => None,
            },
            groups@.len() as int,
        ),
{
    let ghost gv = group_views(groups@);
    let ghost sel = match selected {
        Some(i) => Some(i as int),
        None => None::<int>,
    };
    let mut out = String::new();
    let mut k: usize = 0;
    proof {
        reveal_strlit("");
    }
    while k < groups.len()
        invariant
            k <= groups.len(),
            gv == group_views(groups@),
            sel == (match selected {
                Some(i) => Some(i as int),
                None => None::<int>,
            }),
            out@ == group_options(gv, sel, k as int),
        decreases groups.len() - k,
    {
        let ghost before = out@;
        push_str(&mut out, "<option value=\"");
        let id = escape_html(groups[k].0.as_str());
        push_str(&mut out, id.as_str());
        push_str(&mut out, "\"");
        let is_selected = match selected {
            Some(i) => i == k,
            None => false,
        };
        if is_selected {
            push_str(&mut out, " selected");
        }
        push_str(&mut out, ">");
        let name = escape_html(groups[k].1.as_str());
        push_str(&mut out, name.as_str());
        push_str(&mut out, "</option>");
        proof {
            reveal_strlit("");
            assert(gv[k as int] == (groups@[k as int].0@, groups@[k as int].1@));
            assert(out@ =~= before + group_option(gv[k as int].0, gv[k as int].1, sel == Some(k as int)));
        }
        k = k + 1;
    }
    out
}

/// A usage figure: `used/limit label`, or `used label` without a limit.
pub open spec fn usage_figure(used: i64, limit: Option<i64>, label: Seq<char>) -> Seq<char> {
    match limit {
        Some(l) => signed_decimal(used as int) + "/"@ + signed_decimal(l as int) + " "@ + label,
        None => signed_decimal(used as int) + " "@ + label,
    }
}

/// Renders a usage figure.
pub fn usage_text(used: i64, limit: Option<i64>, label: &str) -> (res: String)
    ensures
        res@ == usage_figure(used, limit, label@),
{
    let mut out = String::new();
    push_signed_decimal(&mut out, used);
    match limit {
        Some(l) => {
            push_str(&mut out, "/");
            push_signed_decimal(&mut out, l);
        },
        None => {},
    }
    push_str(&mut out, " ");
    push_str(&mut out, label);
    proof {
        reveal_strlit("");
    }
    out
}

/// The usage summary of a user: the units of all modules and the tokens.
pub fn usage_summary(total_units: i64, token_text: &str) -> (res: String)
    ensures
        res@ == signed_decimal(total_units as int) + " 项 · "@ + token_text@,
{
    let mut out = String::new();
    push_signed_decimal(&mut out, total_units);
    push_str(&mut out, " 项 · ");
    push_str(&mut out, token_text);
    proof {
        reveal_strlit("");
    }
    out
}

/// The label of a user's role.
pub fn role_label(is_admin: bool) -> (res: &'static str)
    ensures
        res@ == (if is_admin {
            "管理员"@
        } else {
            "普通用户"@
        }),
{
    if is_admin {
        "管理员"
    } else {
        "普通用户"
    }
}

/// The `value` attribute of a limit input: empty without a limit.
pub fn limit_value_attr(limit: Option<i64>) -> (res: String)
    ensures
        res@ == match limit {
            Some(v) => " value=\""@ + signed_decimal(v as int) + "\""@,
            None => Seq::empty(),
        },
{
    proof {
        reveal_strlit("");
    }
    match limit {
        Some(v) => {
            let mut out = to_owned_string(" value=\"");
            push_signed_decimal(&mut out, v);
            push_str(&mut out, "\"");
            out
        },
        None => String::new(),
    }
}

} // verus!
