//! What a request asks the tracker for: column lists, and how a case listing
//! is sent depending on its filter.
use vstd::prelude::*;

use crate::enums::{column_name, Column};
use crate::text::{trim_str, trimmed};

verus! {

/// The characters of each string, in order.
pub open spec fn names_of(v: Seq<String>) -> Seq<Seq<char>> {
    v.map_values(|s: String| s@)
}

/// The name of each column, in order.
pub open spec fn column_names_of(cols: Seq<Column>) -> Seq<Seq<char>> {
    cols.map_values(|c: Column| column_name(c))
}

/// The columns a case-details request asks for unless it is told otherwise.
pub open spec fn default_case_detail_columns() -> Seq<Column> {
    seq![
        Column::CaseId,
        Column::Title,
        Column::Events,
        Column::Project,
        Column::Area,
        Column::Priority,
        Column::Status,
        Column::Category,
        Column::IsOpen,
    ]
}

/// `cs` with `name` at its end unless it already holds it.
pub open spec fn with_column(cs: Seq<Seq<char>>, name: Seq<char>) -> Seq<Seq<char>> {
    if cs.contains(name) {
        cs
    } else {
        cs.push(name)
    }
}

/// `cs` completed with the columns that a listed case needs: case id,
/// project id, project and title, each added at the end when missing.
pub open spec fn with_case_columns(cs: Seq<Seq<char>>) -> Seq<Seq<char>> {
    with_column(
        with_column(with_column(with_column(cs, "ixBug"@), "ixProject"@), "sProject"@),
        "sTitle"@,
    )
}

/// Whether `c` is an ASCII decimal digit.
pub open spec fn is_digit(c: char) -> bool {
    '0' <= c && c <= '9'
}

/// The value of a digit character.
pub open spec fn digit_value(c: char) -> nat {
    (c as nat - '0' as nat) as nat
}

/// The value of a string of decimal digits.
pub open spec fn digits_value(s: Seq<char>) -> nat
    decreases s.len(),
{
    if s.len() == 0 {
        0
    } else {
        digits_value(s.drop_last()) * 10 + digit_value(s.last())
    }
}

/// Whether `s` reads as a `u32`: an optional `+`, then one or more decimal
/// digits whose value fits in 32 bits.
pub open spec fn parses_as_u32(s: Seq<char>) -> bool {
    let d = if s.len() > 0 && s[0] == '+' {
        s.drop_first()
    } else {
        s
    };
    &&& d.len() > 0
    &&& forall|i: int| 0 <= i < d.len() ==> is_digit(#[trigger] d[i])
    &&& digits_value(d) <= u32::MAX
}

/// Relies on `str::parse::<u32>`: it succeeds exactly on an optional `+`
/// followed by decimal digits whose value fits in a `u32`.
#[verifier::external_body]
fn reads_as_u32(s: &str) -> (r: bool)
    ensures
        r == parses_as_u32(s@),
{
    s.parse::<u32>().is_ok()
}

/// The name of each column, in order.
pub fn column_names(cols: &[Column]) -> (r: Vec<String>)
    ensures
        names_of(r@) == column_names_of(cols@),
{
    let mut out: Vec<String> = Vec::new();
    let mut i: usize = 0;
    while i < cols.len()
        invariant
            i <= cols@.len(),
            names_of(out@) == column_names_of(cols@.subrange(0, i as int)),
        decreases cols@.len() - i,
    {
        let ghost before = out@;
        out.push(cols[i].to_name_string());
        assert(names_of(out@) =~= names_of(before).push(column_name(cols@[i as int])));
        assert(cols@.subrange(0, i + 1) =~= cols@.subrange(0, i as int).push(cols@[i as int]));
        assert(column_names_of(cols@.subrange(0, i + 1)) =~= column_names_of(
            cols@.subrange(0, i as int),
        ).push(column_name(cols@[i as int])));
        i = i + 1;
    }
    assert(cols@.subrange(0, cols@.len() as int) =~= cols@);
    out
}

/// The columns a case-details request asks for unless it is told otherwise.
pub fn default_case_columns() -> (r: Vec<Column>)
    ensures
        r@ == default_case_detail_columns(),
{
    let r = vec![
        Column::CaseId,
        Column::Title,
        Column::Events,
        Column::Project,
        Column::Area,
        Column::Priority,
        Column::Status,
        Column::Category,
        Column::IsOpen,
    ];
    assert(r@ =~= default_case_detail_columns());
    r
}

/// The column list after asking for one more column: `cols`, or an empty list
/// when none was set, with the name of `col` at its end.
pub fn add_column(cols: Option<Vec<String>>, col: Column) -> (r: Vec<String>)
    ensures
        names_of(r@) == (match cols {
            Some(v) => names_of(v@),
            None => Seq::empty(),
        }).push(column_name(col)),
{
    let mut v = match cols {
        Some(v) => v,
        None => {
            let e: Vec<String> = Vec::new();
            assert(names_of(e@) =~= Seq::empty());
            e
        },
    };
    let ghost before = v@;
    v.push(col.to_name_string());
    assert(names_of(v@) =~= names_of(before).push(column_name(col)));
    v
}

/// Whether `cols` holds a column named `name`.
fn has_column(cols: &Vec<String>, name: &String) -> (r: bool)
    ensures
        r == names_of(cols@).contains(name@),
{
    let mut i: usize = 0;
    while i < cols.len()
        invariant
            i <= cols@.len(),
            forall|j: int| 0 <= j < i ==> (#[trigger] cols@[j])@ != name@,
        decreases cols@.len() - i,
    {
        if cols[i] == *name {
            assert(names_of(cols@)[i as int] == name@);
            return true;
        }
        i = i + 1;
    }
    assert forall|j: int| 0 <= j < names_of(cols@).len() implies names_of(cols@)[j] != name@ by {
        assert(names_of(cols@)[j] == cols@[j]@);
    }
    false
}

/// Adds the column `name` at the end of `cols` unless it is already there.
fn ensure_column(cols: &mut Vec<String>, name: &str)
    ensures
        names_of(final(cols)@) == with_column(names_of(old(cols)@), name@),
{
    let name = name.to_owned();
    if !has_column(cols, &name) {
        let ghost before = cols@;
        cols.push(name);
        assert(names_of(cols@) =~= names_of(before).push(name@));
    }
}

/// `cols` completed with the columns that a listed case needs.
pub fn case_list_columns(cols: Option<Vec<String>>) -> (r: Vec<String>)
    ensures
        names_of(r@) == with_case_columns(
            match cols {
                Some(v) => names_of(v@),
                None => Seq::empty(),
            },
        ),
{
    let mut v = match cols {
        Some(v) => v,
        None => {
            let e: Vec<String> = Vec::new();
            assert(names_of(e@) =~= Seq::empty());
            e
        },
    };
    ensure_column(&mut v, "ixBug");
    ensure_column(&mut v, "ixProject");
    ensure_column(&mut v, "sProject");
    ensure_column(&mut v, "sTitle");
    v
}

/// The command by which a case listing is sent.
#[derive(Debug, Clone, Copy, PartialEq, Eq, Structural)]
pub enum ListCommand {
    /// `listCases`, with the filter as a saved filter's id (or none).
    ListCases,
    /// `search`, with the filter as a query.
    Search,
}

/// How a listing is sent for an already trimmed filter.
pub open spec fn command_for(filter: Seq<char>) -> ListCommand {
    if filter.len() == 0 || parses_as_u32(filter) {
        ListCommand::ListCases
    } else {
        ListCommand::Search
    }
}

/// How a case listing is sent: an empty filter or a saved filter's numeric id
/// goes to `listCases`, anything else is a query for `search`.
pub struct ListPlan {
    pub command: ListCommand,
    pub filter: String,
    pub columns: Vec<String>,
}

/// Plans a listing whose filter is already trimmed.
pub fn plan_with_trimmed_filter(filter: &str, cols: Option<Vec<String>>) -> (r: ListPlan)
    ensures
        r.command == command_for(filter@),
        r.filter@ == filter@,
        names_of(r.columns@) == with_case_columns(
            match cols {
                Some(v) => names_of(v@),
                None => Seq::empty(),
            },
        ),
{
    let command = if filter.is_empty() || reads_as_u32(filter) {
        ListCommand::ListCases
    } else {
        ListCommand::Search
    };
    ListPlan { command, filter: filter.to_owned(), columns: case_list_columns(cols) }
}

/// Plans a case listing: the filter (none counts as empty) is trimmed, the
/// command chosen by it, and the columns completed.
pub fn plan_list_cases(filter: Option<&str>, cols: Option<Vec<String>>) -> (r: ListPlan)
    ensures
        ({
            let f = match filter {
                Some(f) => trimmed(f@),
                None => Seq::empty(),
            };
            &&& r.command == command_for(f)
            &&& r.filter@ == f
        }),
        names_of(r.columns@) == with_case_columns(
            match cols {
                Some(v) => names_of(v@),
                None => Seq::empty(),
            },
        ),
{
    match filter {
        Some(f) => plan_with_trimmed_filter(trim_str(f), cols),
        None => {
            proof {
                reveal_strlit("");
            }
            plan_with_trimmed_filter("", cols)
        },
    }
}

} // verus!
