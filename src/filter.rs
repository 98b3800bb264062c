//! Search components and the two composers that collect them: an ordered,
//! AND-joined sequence of clauses, and OR-groups of terms, phrases and axis
//! matches.
use vstd::prelude::*;

use crate::text::{
    decimal, decimal_string, escaped, format_value, push_char, push_escaped, push_value, quoted,
    strip_leading_dashes, trim_str, trimmed, without_leading_dashes,
};

verus! {

// ---------------------------------------------------------------------------
// The model: clauses over characters, and how each is written.
// ---------------------------------------------------------------------------

/// A clause that an OR-group may hold.
pub enum OrClause {
    Term(Seq<char>),
    Phrase(Seq<char>),
    Axis(Seq<char>, Seq<char>),
}

/// A clause of a query: the text it holds, and for the axis forms the field
/// name and the value.
pub enum Clause {
    Term(Seq<char>),
    Phrase(Seq<char>),
    NegatedTerm(Seq<char>),
    Axis(Seq<char>, Seq<char>),
    NegatedAxis(Seq<char>, Seq<char>),
    ExactAxis(Seq<char>, Seq<char>),
    Or(Seq<OrClause>),
}

/// The separator between the clauses of a query.
pub open spec fn and_separator() -> Seq<char> {
    seq![' ']
}

/// The separator between the members of an OR-group.
pub open spec fn or_separator() -> Seq<char> {
    seq![' ', 'O', 'R', ' ']
}

/// `parts` joined with `sep` between each two neighbours.
pub open spec fn joined(parts: Seq<Seq<char>>, sep: Seq<char>) -> Seq<char>
    decreases parts.len(),
{
    if parts.len() == 0 {
        Seq::empty()
    } else if parts.len() == 1 {
        parts[0]
    } else {
        joined(parts.drop_last(), sep) + sep + parts.last()
    }
}

/// The parts that are not empty, in their order.
pub open spec fn non_empty(parts: Seq<Seq<char>>) -> Seq<Seq<char>> {
    parts.filter(|p: Seq<char>| p.len() > 0)
}

/// How a member of an OR-group is written.
pub open spec fn or_clause_text(c: OrClause) -> Seq<char> {
    match c {
        OrClause::Term(t) => t,
        OrClause::Phrase(t) => quoted(t),
        OrClause::Axis(n, v) => n + seq![':'] + format_value(v),
    }
}

/// The text of each member of an OR-group.
pub open spec fn member_texts(cs: Seq<OrClause>) -> Seq<Seq<char>> {
    cs.map_values(|c: OrClause| or_clause_text(c))
}

/// How an OR-group is written: its non-empty members joined by ` OR ` in
/// parentheses, or nothing when no member has text.
pub open spec fn group_text(cs: Seq<OrClause>) -> Seq<char> {
    let parts = non_empty(member_texts(cs));
    if parts.len() == 0 {
        Seq::empty()
    } else {
        seq!['('] + joined(parts, or_separator()) + seq![')']
    }
}

/// How a clause is written.
pub open spec fn clause_text(c: Clause) -> Seq<char> {
    match c {
        Clause::Term(t) => t,
        Clause::Phrase(t) => quoted(t),
        Clause::NegatedTerm(t) => seq!['-'] + t,
        Clause::Axis(n, v) => n + seq![':'] + format_value(v),
        Clause::NegatedAxis(n, v) => seq!['-'] + n + seq![':'] + format_value(v),
        Clause::ExactAxis(n, v) => n + seq![':', '='] + escaped(v),
        Clause::Or(cs) => group_text(cs),
    }
}

/// The text of each clause.
pub open spec fn clause_texts(cs: Seq<Clause>) -> Seq<Seq<char>> {
    cs.map_values(|c: Clause| clause_text(c))
}

/// The query for a sequence of clauses: the non-empty texts in order, joined
/// by single spaces.
pub open spec fn query_text(cs: Seq<Clause>) -> Seq<char> {
    joined(non_empty(clause_texts(cs)), and_separator())
}

/// A member of an OR-group holds no empty text.
pub open spec fn or_clause_wf(c: OrClause) -> bool {
    match c {
        OrClause::Term(t) => t.len() > 0,
        OrClause::Phrase(t) => t.len() > 0,
        OrClause::Axis(n, v) => n.len() > 0 && v.len() > 0,
    }
}

/// A clause holds no empty text, and an OR-group has at least one member.
pub open spec fn clause_wf(c: Clause) -> bool {
    match c {
        Clause::Term(t) => t.len() > 0,
        Clause::Phrase(t) => t.len() > 0,
        Clause::NegatedTerm(t) => t.len() > 0,
        Clause::Axis(n, v) => n.len() > 0 && v.len() > 0,
        Clause::NegatedAxis(n, v) => n.len() > 0 && v.len() > 0,
        Clause::ExactAxis(n, v) => n.len() > 0 && v.len() > 0,
        Clause::Or(cs) => cs.len() > 0 && forall|i: int| 0 <= i < cs.len() ==> or_clause_wf(
            #[trigger] cs[i],
        ),
    }
}

/// `cs` with `c` at its end when `c` is well formed; `cs` itself otherwise.
pub open spec fn appended(cs: Seq<Clause>, c: Clause) -> Seq<Clause> {
    if clause_wf(c) {
        cs.push(c)
    } else {
        cs
    }
}

/// `ms` with `m` at its end when `m` is well formed; `ms` itself otherwise.
pub open spec fn or_appended(ms: Seq<OrClause>, m: OrClause) -> Seq<OrClause> {
    if or_clause_wf(m) {
        ms.push(m)
    } else {
        ms
    }
}

proof fn lemma_non_empty_step(parts: Seq<Seq<char>>, i: int)
    requires
        0 <= i < parts.len(),
    ensures
        parts[i].len() == 0 ==> non_empty(parts.subrange(0, i + 1)) == non_empty(
            parts.subrange(0, i),
        ),
        parts[i].len() > 0 ==> non_empty(parts.subrange(0, i + 1)) == non_empty(
            parts.subrange(0, i),
        ).push(parts[i]),
{
    reveal(Seq::filter);
    assert(parts.subrange(0, i + 1).drop_last() =~= parts.subrange(0, i));
}

proof fn lemma_joined_push(parts: Seq<Seq<char>>, p: Seq<char>, sep: Seq<char>)
    ensures
        joined(parts.push(p), sep) == (if parts.len() == 0 {
            p
        } else {
            joined(parts, sep) + sep + p
        }),
{
    assert(parts.push(p).drop_last() =~= parts);
}

proof fn lemma_non_empty_parts(parts: Seq<Seq<char>>)
    ensures
        forall|i: int|
            0 <= i < non_empty(parts).len() ==> (#[trigger] non_empty(parts)[i]).len() > 0,
    decreases parts.len(),
{
    reveal(Seq::filter);
    if parts.len() > 0 {
        lemma_non_empty_parts(parts.drop_last());
    }
}

proof fn lemma_non_empty_keeps(parts: Seq<Seq<char>>, i: int)
    requires
        0 <= i < parts.len(),
        parts[i].len() > 0,
    ensures
        non_empty(parts).len() > 0,
    decreases parts.len(),
{
    reveal(Seq::filter);
    if i < parts.len() - 1 {
        lemma_non_empty_keeps(parts.drop_last(), i);
    }
}

proof fn lemma_joined_empty(parts: Seq<Seq<char>>, sep: Seq<char>)
    requires
        forall|i: int| 0 <= i < parts.len() ==> (#[trigger] parts[i]).len() > 0,
    ensures
        (joined(parts, sep).len() == 0) == (parts.len() == 0),
    decreases parts.len(),
{
    if parts.len() > 1 {
        lemma_joined_empty(parts.drop_last(), sep);
    }
}

/// A well-formed member of an OR-group is written as non-empty text.
pub proof fn lemma_or_clause_text_non_empty(c: OrClause)
    requires
        or_clause_wf(c),
    ensures
        or_clause_text(c).len() > 0,
{
}

/// A well-formed clause is written as non-empty text, so it always shows in
/// the query.
pub proof fn lemma_clause_text_non_empty(c: Clause)
    requires
        clause_wf(c),
    ensures
        clause_text(c).len() > 0,
{
    if let Clause::Or(ms) = c {
        let parts = member_texts(ms);
        assert(or_clause_wf(ms[0]));
        lemma_or_clause_text_non_empty(ms[0]);
        lemma_non_empty_keeps(parts, 0);
    }
}

/// The query of no clauses is empty.
pub proof fn lemma_empty_query()
    ensures
        query_text(Seq::empty()) == Seq::<char>::empty(),
{
    reveal(Seq::filter);
    assert(clause_texts(Seq::empty()) =~= Seq::<Seq<char>>::empty());
}

/// Appending a well-formed clause adds its text at the end of the query,
/// after a single space unless the query was empty; what was there before is
/// kept as it was.
pub proof fn lemma_append_rendered(cs: Seq<Clause>, c: Clause)
    requires
        clause_wf(c),
    ensures
        query_text(cs.push(c)) == (if query_text(cs).len() == 0 {
            clause_text(c)
        } else {
            query_text(cs) + and_separator() + clause_text(c)
        }),
{
    let parts = clause_texts(cs);
    let t = clause_text(c);
    let all = clause_texts(cs.push(c));
    lemma_clause_text_non_empty(c);
    assert(all =~= parts.push(t));
    lemma_non_empty_step(all, parts.len() as int);
    assert(all.subrange(0, parts.len() + 1 as int) =~= all);
    assert(all.subrange(0, parts.len() as int) =~= parts);
    lemma_joined_push(non_empty(parts), t, and_separator());
    lemma_non_empty_parts(parts);
    lemma_joined_empty(non_empty(parts), and_separator());
}

/// Clauses are written in the order they were appended: `a` then `b` gives
/// the text of `a`, one space, and the text of `b`.
pub proof fn lemma_insertion_order(a: Clause, b: Clause)
    requires
        clause_wf(a),
        clause_wf(b),
    ensures
        query_text(seq![a, b]) == clause_text(a) + and_separator() + clause_text(b),
{
    lemma_empty_query();
    lemma_append_rendered(Seq::empty(), a);
    assert(Seq::<Clause>::empty().push(a) =~= seq![a]);
    lemma_clause_text_non_empty(a);
    lemma_append_rendered(seq![a], b);
    assert(seq![a].push(b) =~= seq![a, b]);
}

// ---------------------------------------------------------------------------
// Components as values.
// ---------------------------------------------------------------------------

/// A member of an OR-group.
pub enum OrComponent {
    /// A single search term, e.g. `apple`.
    Term(String),
    /// A search phrase, e.g. `"apple peach"`.
    Phrase(String),
    /// An axis search, e.g. `assignedto:Alice`.
    Axis { axis: String, query: String },
}

impl View for OrComponent {
    type V = OrClause;

    open spec fn view(&self) -> OrClause {
        match self {
            OrComponent::Term(t) => OrClause::Term(t@),
            OrComponent::Phrase(t) => OrClause::Phrase(t@),
            OrComponent::Axis { axis, query } => OrClause::Axis(axis@, query@),
        }
    }
}

/// A component of a search query.
pub enum SearchComponent {
    /// A single search term, e.g. `apple`.
    Term(String),
    /// A search phrase, e.g. `"apple peach"`.
    Phrase(String),
    /// A negated term, e.g. `-peach`.
    NegatedTerm(String),
    /// An axis search, e.g. `project:Widget`.
    Axis { axis: String, query: String },
    /// A negated axis search, e.g. `-title:pear`.
    NegatedAxis { axis: String, query: String },
    /// An exact axis search using `:=`, e.g. `project:=1`.
    ExactAxis { axis: String, query: String },
    /// A group of members joined by OR, e.g. `(assignedto:A OR assignedto:B)`.
    Or(Vec<OrComponent>),
}

/// The clauses that the given members stand for.
pub open spec fn member_clauses(ms: Seq<OrComponent>) -> Seq<OrClause> {
    ms.map_values(|m: OrComponent| m@)
}

/// The clauses that the given components stand for.
pub open spec fn component_clauses(cs: Seq<SearchComponent>) -> Seq<Clause> {
    cs.map_values(|c: SearchComponent| c@)
}

impl View for SearchComponent {
    type V = Clause;

    open spec fn view(&self) -> Clause {
        match self {
            SearchComponent::Term(t) => Clause::Term(t@),
            SearchComponent::Phrase(t) => Clause::Phrase(t@),
            SearchComponent::NegatedTerm(t) => Clause::NegatedTerm(t@),
            SearchComponent::Axis { axis, query } => Clause::Axis(axis@, query@),
            SearchComponent::NegatedAxis { axis, query } => Clause::NegatedAxis(axis@, query@),
            SearchComponent::ExactAxis { axis, query } => Clause::ExactAxis(axis@, query@),
            SearchComponent::Or(ms) => Clause::Or(member_clauses(ms@)),
        }
    }
}

impl OrComponent {
    /// The text of this member.
    pub fn stringify(&self) -> (r: String)
        ensures
            r@ == or_clause_text(self@),
    {
        let mut out = String::new();
        match self {
            OrComponent::Term(t) => {
                out.append(t.as_str());
            },
            OrComponent::Phrase(t) => {
                push_char(&mut out, '"');
                push_escaped(&mut out, t.as_str());
                push_char(&mut out, '"');
            },
            OrComponent::Axis { axis, query } => {
                out.append(axis.as_str());
                push_char(&mut out, ':');
                push_value(&mut out, query.as_str());
            },
        }
        assert(out@ =~= or_clause_text(self@));
        out
    }

    /// Whether this member holds no empty text.
    pub fn is_well_formed(&self) -> (r: bool)
        ensures
            r == or_clause_wf(self@),
    {
        match self {
            OrComponent::Term(t) => !t.as_str().is_empty(),
            OrComponent::Phrase(t) => !t.as_str().is_empty(),
            OrComponent::Axis { axis, query } => !axis.as_str().is_empty()
                && !query.as_str().is_empty(),
        }
    }
}

/// The text of an OR-group with the given members.
fn group_string(ms: &Vec<OrComponent>) -> (r: String)
    ensures
        r@ == group_text(member_clauses(ms@)),
{
    let ghost cs = member_clauses(ms@);
    let ghost parts = member_texts(cs);
    let mut inner = String::new();
    let mut any = false;
    let mut i: usize = 0;
    while i < ms.len()
        invariant
            i <= ms.len(),
            cs == member_clauses(ms@),
            parts == member_texts(cs),
            inner@ == joined(non_empty(parts.subrange(0, i as int)), or_separator()),
            any == (non_empty(parts.subrange(0, i as int)).len() > 0),
        decreases ms.len() - i,
    {
        let s = ms[i].stringify();
        proof {
            lemma_non_empty_step(parts, i as int);
            lemma_joined_push(non_empty(parts.subrange(0, i as int)), s@, or_separator());
        }
        if !s.as_str().is_empty() {
            if any {
                proof {
                    reveal_strlit(" OR ");
                }
                inner.append(" OR ");
            }
            inner.append(s.as_str());
            any = true;
        }
        i = i + 1;
    }
    assert(parts.subrange(0, ms.len() as int) =~= parts);
    let mut out = String::new();
    if any {
        push_char(&mut out, '(');
        out.append(inner.as_str());
        push_char(&mut out, ')');
    }
    assert(out@ =~= group_text(cs));
    out
}

impl SearchComponent {
    /// The text of this component in the final query.
    pub fn stringify(&self) -> (r: String)
        ensures
            r@ == clause_text(self@),
    {
        let mut out = String::new();
        match self {
            SearchComponent::Term(t) => {
                out.append(t.as_str());
            },
            SearchComponent::Phrase(t) => {
                push_char(&mut out, '"');
                push_escaped(&mut out, t.as_str());
                push_char(&mut out, '"');
            },
            SearchComponent::NegatedTerm(t) => {
                push_char(&mut out, '-');
                out.append(t.as_str());
            },
            SearchComponent::Axis { axis, query } => {
                out.append(axis.as_str());
                push_char(&mut out, ':');
                push_value(&mut out, query.as_str());
            },
            SearchComponent::NegatedAxis { axis, query } => {
                push_char(&mut out, '-');
                out.append(axis.as_str());
                push_char(&mut out, ':');
                push_value(&mut out, query.as_str());
            },
            SearchComponent::ExactAxis { axis, query } => {
                out.append(axis.as_str());
                push_char(&mut out, ':');
                push_char(&mut out, '=');
                push_escaped(&mut out, query.as_str());
            },
            SearchComponent::Or(ms) => {
                out = group_string(ms);
            },
        }
        assert(out@ =~= clause_text(self@));
        out
    }

    /// Whether this component holds no empty text and, for an OR-group, has at
    /// least one member and only well-formed ones.
    pub fn is_well_formed(&self) -> (r: bool)
        ensures
            r == clause_wf(self@),
    {
        match self {
            SearchComponent::Term(t) => !t.as_str().is_empty(),
            SearchComponent::Phrase(t) => !t.as_str().is_empty(),
            SearchComponent::NegatedTerm(t) => !t.as_str().is_empty(),
            SearchComponent::Axis { axis, query } => !axis.as_str().is_empty()
                && !query.as_str().is_empty(),
            SearchComponent::NegatedAxis { axis, query } => !axis.as_str().is_empty()
                && !query.as_str().is_empty(),
            SearchComponent::ExactAxis { axis, query } => !axis.as_str().is_empty()
                && !query.as_str().is_empty(),
            SearchComponent::Or(ms) => {
                let ghost cs = member_clauses(ms@);
                let mut i: usize = 0;
                while i < ms.len()
                    invariant
                        i <= ms.len(),
                        cs == member_clauses(ms@),
                        self@ == Clause::Or(cs),
                        forall|j: int| 0 <= j < i ==> or_clause_wf(#[trigger] cs[j]),
                    decreases ms.len() - i,
                {
                    if !ms[i].is_well_formed() {
                        assert(!or_clause_wf(cs[i as int]));
                        return false;
                    }
                    i = i + 1;
                }
                ms.len() > 0
            },
        }
    }
}

// ---------------------------------------------------------------------------
// The OR-group composer.
// ---------------------------------------------------------------------------

/// Collects the members of one OR-group, in the order they are added.
pub struct OrBuilder {
    components: Vec<OrComponent>,
}

impl View for OrBuilder {
    type V = Seq<OrClause>;

    closed spec fn view(&self) -> Seq<OrClause> {
        member_clauses(self.components@)
    }
}

impl OrBuilder {
    #[verifier::type_invariant]
    spec fn members_well_formed(&self) -> bool {
        forall|i: int| 0 <= i < self@.len() ==> or_clause_wf(#[trigger] self@[i])
    }

    /// Creates an empty OR-group.
    pub fn new() -> (r: Self)
        ensures
            r@ == Seq::<OrClause>::empty(),
    {
        let r = OrBuilder { components: Vec::new() };
        assert(r@ =~= Seq::<OrClause>::empty());
        r
    }

    /// Adds `member` when it holds no empty text; drops it otherwise.
    pub fn push_member(self, member: OrComponent) -> (r: Self)
        ensures
            r@ == or_appended(self@, member@),
    {
        proof {
            use_type_invariant(&self);
        }
        if member.is_well_formed() {
            let ghost before = self@;
            let mut components = self.components;
            components.push(member);
            assert(member_clauses(components@) =~= before.push(member@));
            OrBuilder { components }
        } else {
            self
        }
    }

    /// Adds a simple term to the group, unless it is blank.
    pub fn term(self, term: &str) -> (r: Self)
        ensures
            r@ == (if trimmed(term@).len() > 0 {
                self@.push(OrClause::Term(term@))
            } else {
                self@
            }),
    {
        if trim_str(term).is_empty() {
            self
        } else {
            self.push_member(OrComponent::Term(term.to_owned()))
        }
    }

    /// Adds a phrase to the group, unless it is blank.
    pub fn phrase(self, phrase: &str) -> (r: Self)
        ensures
            r@ == (if trimmed(phrase@).len() > 0 {
                self@.push(OrClause::Phrase(phrase@))
            } else {
                self@
            }),
    {
        if trim_str(phrase).is_empty() {
            self
        } else {
            self.push_member(OrComponent::Phrase(phrase.to_owned()))
        }
    }

    /// Adds an axis search to the group, unless the axis or the query is blank.
    pub fn axis(self, axis: &str, query: &str) -> (r: Self)
        ensures
            r@ == (if trimmed(axis@).len() > 0 && trimmed(query@).len() > 0 {
                self@.push(OrClause::Axis(axis@, query@))
            } else {
                self@
            }),
    {
        if trim_str(axis).is_empty() || trim_str(query).is_empty() {
            self
        } else {
            self.push_member(OrComponent::Axis { axis: axis.to_owned(), query: query.to_owned() })
        }
    }

    /// Adds the search `name:query` on a fixed, non-blank axis name, unless
    /// the query is blank.
    fn named_axis(self, name: &str, query: &str) -> (r: Self)
        requires
            name@.len() > 0,
        ensures
            r@ == (if trimmed(query@).len() > 0 {
                self@.push(OrClause::Axis(name@, query@))
            } else {
                self@
            }),
    {
        if trim_str(query).is_empty() {
            self
        } else {
            self.push_member(OrComponent::Axis { axis: name.to_owned(), query: query.to_owned() })
        }
    }

    /// Adds an `assignedto` axis search to the group.
    pub fn assigned_to(self, user_name: &str) -> (r: Self)
        ensures
            r@ == (if trimmed(user_name@).len() > 0 {
                self@.push(OrClause::Axis("assignedto"@, user_name@))
            } else {
                self@
            }),
    {
        proof {
            reveal_strlit("assignedto");
        }
        self.named_axis("assignedto", user_name)
    }

    /// Adds a `resolvedby` axis search to the group.
    pub fn resolved_by(self, user_name: &str) -> (r: Self)
        ensures
            r@ == (if trimmed(user_name@).len() > 0 {
                self@.push(OrClause::Axis("resolvedby"@, user_name@))
            } else {
                self@
            }),
    {
        proof {
            reveal_strlit("resolvedby");
        }
        self.named_axis("resolvedby", user_name)
    }

    /// Adds an `editedby` axis search to the group.
    pub fn edited_by(self, user_name: &str) -> (r: Self)
        ensures
            r@ == (if trimmed(user_name@).len() > 0 {
                self@.push(OrClause::Axis("editedby"@, user_name@))
            } else {
                self@
            }),
    {
        proof {
            reveal_strlit("editedby");
        }
        self.named_axis("editedby", user_name)
    }

    /// The members collected so far, in order.
    pub fn into_members(self) -> (r: Vec<OrComponent>)
        ensures
            member_clauses(r@) == self@,
    {
        self.components
    }
}

// ---------------------------------------------------------------------------
// The top-level composer.
// ---------------------------------------------------------------------------

/// `pattern` with a trailing `*` added unless it already ends with one.
pub open spec fn with_wildcard(pattern: Seq<char>) -> Seq<char> {
    if pattern.len() > 0 && pattern.last() == '*' {
        pattern
    } else {
        pattern.push('*')
    }
}

/// The value of a sort directive on `axis`: `-` in front when descending.
pub open spec fn order_value(axis: Seq<char>, descending: bool) -> Seq<char> {
    if descending {
        seq!['-'] + axis
    } else {
        axis
    }
}

/// Builds a search query from components that are joined by AND in the order
/// they are added; `or` adds a group joined by OR.
pub struct FogBugzSearchBuilder {
    components: Vec<SearchComponent>,
}

impl View for FogBugzSearchBuilder {
    type V = Seq<Clause>;

    closed spec fn view(&self) -> Seq<Clause> {
        component_clauses(self.components@)
    }
}

impl FogBugzSearchBuilder {
    #[verifier::type_invariant]
    spec fn components_well_formed(&self) -> bool {
        forall|i: int| 0 <= i < self@.len() ==> clause_wf(#[trigger] self@[i])
    }

    /// Creates an empty search builder.
    pub fn new() -> (r: Self)
        ensures
            r@ == Seq::<Clause>::empty(),
    {
        let r = FogBugzSearchBuilder { components: Vec::new() };
        assert(r@ =~= Seq::<Clause>::empty());
        r
    }

    /// Adds `component` when it is well formed; drops it otherwise.
    pub fn push_component(self, component: SearchComponent) -> (r: Self)
        ensures
            r@ == appended(self@, component@),
    {
        proof {
            use_type_invariant(&self);
        }
        if component.is_well_formed() {
            let ghost before = self@;
            let mut components = self.components;
            components.push(component);
            assert(component_clauses(components@) =~= before.push(component@));
            FogBugzSearchBuilder { components }
        } else {
            self
        }
    }

    /// Adds a simple search term, trimmed; a blank one is dropped.
    /// Example: `term("apple")` adds `apple`.
    pub fn term(self, term: &str) -> (r: Self)
        ensures
            r@ == appended(self@, Clause::Term(trimmed(term@))),
    {
        self.push_component(SearchComponent::Term(trim_str(term).to_owned()))
    }

    /// Adds a search phrase, trimmed; a blank one is dropped.
    /// Example: `phrase("apple peach")` adds `"apple peach"`.
    pub fn phrase(self, phrase: &str) -> (r: Self)
        ensures
            r@ == appended(self@, Clause::Phrase(trimmed(phrase@))),
    {
        self.push_component(SearchComponent::Phrase(trim_str(phrase).to_owned()))
    }

    /// Adds a negated term: trimmed, and without the `-` it may begin with, so
    /// that no double negative comes out. One that is then empty is dropped.
    /// Example: `negated_term("peach")` adds `-peach`.
    pub fn negated_term(self, term: &str) -> (r: Self)
        ensures
            r@ == appended(self@, Clause::NegatedTerm(without_leading_dashes(trimmed(term@)))),
    {
        let clean = strip_leading_dashes(trim_str(term));
        self.push_component(SearchComponent::NegatedTerm(clean.to_owned()))
    }

    /// Adds an axis search with trimmed axis and query; dropped when either is
    /// blank. Example: `axis("project", "Widget Factory")` adds
    /// `project:"Widget Factory"`.
    pub fn axis(self, axis: &str, query: &str) -> (r: Self)
        ensures
            r@ == appended(self@, Clause::Axis(trimmed(axis@), trimmed(query@))),
    {
        self.push_component(
            SearchComponent::Axis {
                axis: trim_str(axis).to_owned(),
                query: trim_str(query).to_owned(),
            },
        )
    }

    /// Adds a negated axis search with trimmed axis and query, the axis also
    /// without a leading `-`; dropped when either is then empty.
    /// Example: `negated_axis("title", "Review")` adds `-title:Review`.
    pub fn negated_axis(self, axis: &str, query: &str) -> (r: Self)
        ensures
            r@ == appended(
                self@,
                Clause::NegatedAxis(without_leading_dashes(trimmed(axis@)), trimmed(query@)),
            ),
    {
        self.push_component(
            SearchComponent::NegatedAxis {
                axis: strip_leading_dashes(trim_str(axis)).to_owned(),
                query: trim_str(query).to_owned(),
            },
        )
    }

    /// Adds an exact axis search using `:=` with trimmed axis and query;
    /// dropped when either is blank. Example: `exact_axis("project", "1")`
    /// adds `project:=1`.
    pub fn exact_axis(self, axis: &str, query: &str) -> (r: Self)
        ensures
            r@ == appended(self@, Clause::ExactAxis(trimmed(axis@), trimmed(query@))),
    {
        self.push_component(
            SearchComponent::ExactAxis {
                axis: trim_str(axis).to_owned(),
                query: trim_str(query).to_owned(),
            },
        )
    }

    /// Adds the finished OR-group `group` when it has members.
    pub fn or_group(self, group: OrBuilder) -> (r: Self)
        ensures
            r@ == (if group@.len() > 0 {
                self@.push(Clause::Or(group@))
            } else {
                self@
            }),
    {
        proof {
            use_type_invariant(&group);
        }
        let ghost members = group@;
        let component = SearchComponent::Or(group.into_members());
        assert(component@ == Clause::Or(members));
        self.push_component(component)
    }

    /// Adds a group joined by OR, built by `build_or_group` from an empty
    /// group; a group that ends up with no members adds nothing.
    /// Example: `or(|g| g.assigned_to("Tester 1").assigned_to("Tester 2"))`
    /// adds `(assignedto:"Tester 1" OR assignedto:"Tester 2")`.
    pub fn or(self, build_or_group: impl FnOnce(OrBuilder) -> OrBuilder) -> (r: Self)
        requires
            forall|g: OrBuilder| g@.len() == 0 ==> call_requires(build_or_group, (g,)),
        ensures
            exists|g: OrBuilder, h: OrBuilder|
                {
                    &&& g@.len() == 0
                    &&& call_ensures(build_or_group, (g,), h)
                    &&& r@ == (if h@.len() > 0 {
                        self@.push(Clause::Or(h@))
                    } else {
                        self@
                    })
                },
    {
        let start = OrBuilder::new();
        let ghost g = start;
        let finished = build_or_group(start);
        let ghost h = finished;
        let r = self.or_group(finished);
        assert(g@.len() == 0 && call_ensures(build_or_group, (g,), h));
        r
    }
    /// Adds the axis search `name:<value>`, the value trimmed; dropped when it
    /// is blank.
    fn named_axis(self, name: &str, value: &str) -> (r: Self)
        ensures
            r@ == appended(self@, Clause::Axis(name@, trimmed(value@))),
    {
        self.push_component(
            SearchComponent::Axis { axis: name.to_owned(), query: trim_str(value).to_owned() },
        )
    }

    /// Adds a `project:<project_name>` axis search.
    pub fn project(self, project_name: &str) -> (r: Self)
        ensures
            r@ == appended(self@, Clause::Axis("project"@, trimmed(project_name@))),
    {
        self.named_axis("project", project_name)
    }

    /// Adds an `assignedto:<user_name>` axis search.
    pub fn assigned_to(self, user_name: &str) -> (r: Self)
        ensures
            r@ == appended(self@, Clause::Axis("assignedto"@, trimmed(user_name@))),
    {
        self.named_axis("assignedto", user_name)
    }

    /// Adds an `openedby:<user_name>` axis search.
    pub fn opened_by(self, user_name: &str) -> (r: Self)
        ensures
            r@ == appended(self@, Clause::Axis("openedby"@, trimmed(user_name@))),
    {
        self.named_axis("openedby", user_name)
    }

    /// Adds an `editedby:<user_name>` axis search; `also_edited_by` adds further editors.
    pub fn edited_by(self, user_name: &str) -> (r: Self)
        ensures
            r@ == appended(self@, Clause::Axis("editedby"@, trimmed(user_name@))),
    {
        self.named_axis("editedby", user_name)
    }

    /// Adds an `alsoeditedby:<user_name>` axis search, meant to follow `edited_by`.
    pub fn also_edited_by(self, user_name: &str) -> (r: Self)
        ensures
            r@ == appended(self@, Clause::Axis("alsoeditedby"@, trimmed(user_name@))),
    {
        self.named_axis("alsoeditedby", user_name)
    }

    /// Adds a `resolvedby:<user_name>` axis search.
    pub fn resolved_by(self, user_name: &str) -> (r: Self)
        ensures
            r@ == appended(self@, Clause::Axis("resolvedby"@, trimmed(user_name@))),
    {
        self.named_axis("resolvedby", user_name)
    }

    /// Adds a `status:<status_name>` axis search.
    pub fn status(self, status_name: &str) -> (r: Self)
        ensures
            r@ == appended(self@, Clause::Axis("status"@, trimmed(status_name@))),
    {
        self.named_axis("status", status_name)
    }

    /// Adds a `tag:<tag_name>` axis search.
    pub fn tag(self, tag_name: &str) -> (r: Self)
        ensures
            r@ == appended(self@, Clause::Axis("tag"@, trimmed(tag_name@))),
    {
        self.named_axis("tag", tag_name)
    }

    /// Adds a `type:<doc_type>` axis search (`case`, `wiki` or `discuss`).
    pub fn type_is(self, doc_type: &str) -> (r: Self)
        ensures
            r@ == appended(self@, Clause::Axis("type"@, trimmed(doc_type@))),
    {
        self.named_axis("type", doc_type)
    }

    /// Adds an `edited:<date_query>` axis search, e.g. `today` or `-1w..today`.
    pub fn edited_date(self, date_query: &str) -> (r: Self)
        ensures
            r@ == appended(self@, Clause::Axis("edited"@, trimmed(date_query@))),
    {
        self.named_axis("edited", date_query)
    }

    /// Adds an `opened:<date_query>` axis search.
    pub fn opened_date(self, date_query: &str) -> (r: Self)
        ensures
            r@ == appended(self@, Clause::Axis("opened"@, trimmed(date_query@))),
    {
        self.named_axis("opened", date_query)
    }

    /// Adds a `resolved:<date_query>` axis search.
    pub fn resolved_date(self, date_query: &str) -> (r: Self)
        ensures
            r@ == appended(self@, Clause::Axis("resolved"@, trimmed(date_query@))),
    {
        self.named_axis("resolved", date_query)
    }

    /// Adds a `closed:<date_query>` axis search.
    pub fn closed_date(self, date_query: &str) -> (r: Self)
        ensures
            r@ == appended(self@, Clause::Axis("closed"@, trimmed(date_query@))),
    {
        self.named_axis("closed", date_query)
    }

    /// Adds a `due:<date_query>` axis search.
    pub fn due_date(self, date_query: &str) -> (r: Self)
        ensures
            r@ == appended(self@, Clause::Axis("due"@, trimmed(date_query@))),
    {
        self.named_axis("due", date_query)
    }

    /// Adds a `project:=<project_id>` search for an exact match by id.
    pub fn project_id(self, project_id: u32) -> (r: Self)
        ensures
            r@ == appended(self@, Clause::ExactAxis("project"@, decimal(project_id as nat))),
    {
        self.push_component(
            SearchComponent::ExactAxis {
                axis: "project".to_owned(),
                query: decimal_string(project_id),
            },
        )
    }

    /// Adds an `ixBug:<case_number>` axis search.
    pub fn case_number(self, case_number: u32) -> (r: Self)
        ensures
            r@ == appended(self@, Clause::Axis("ixBug"@, decimal(case_number as nat))),
    {
        self.push_component(
            SearchComponent::Axis { axis: "ixBug".to_owned(), query: decimal_string(case_number) },
        )
    }

    /// Adds a wildcard tag search such as `tag:mo*`; a `*` is appended to the
    /// pattern unless it already ends with one.
    pub fn tag_wildcard(self, tag_pattern: &str) -> (r: Self)
        ensures
            r@ == appended(self@, Clause::Axis("tag"@, trimmed(with_wildcard(tag_pattern@)))),
    {
        let n = tag_pattern.unicode_len();
        let mut pattern = tag_pattern.to_owned();
        if n == 0 || tag_pattern.get_char(n - 1) != '*' {
            push_char(&mut pattern, '*');
        }
        assert(pattern@ == with_wildcard(tag_pattern@));
        self.named_axis("tag", pattern.as_str())
    }

    /// Adds a search for items that have a value on `axis`, e.g. `tag:*`.
    pub fn has_axis(self, axis: &str) -> (r: Self)
        ensures
            r@ == appended(self@, Clause::Axis(trimmed(axis@), "*"@)),
    {
        self.push_component(
            SearchComponent::Axis { axis: trim_str(axis).to_owned(), query: "*".to_owned() },
        )
    }

    /// Adds a search for items that have no value on `axis`, e.g. `-tag:*`.
    pub fn missing_axis(self, axis: &str) -> (r: Self)
        ensures
            r@ == appended(
                self@,
                Clause::NegatedAxis(without_leading_dashes(trimmed(axis@)), "*"@),
            ),
    {
        self.push_component(
            SearchComponent::NegatedAxis {
                axis: strip_leading_dashes(trim_str(axis)).to_owned(),
                query: "*".to_owned(),
            },
        )
    }

    /// Adds the sort directive on an already trimmed axis name `name`:
    /// `OrderBy:<name>`, or `OrderBy:"-<name>"` when `descending`; an empty
    /// name adds nothing.
    pub fn push_order(self, name: &str, descending: bool) -> (r: Self)
        ensures
            r@ == (if name@.len() > 0 {
                self@.push(Clause::Axis("OrderBy"@, order_value(name@, descending)))
            } else {
                self@
            }),
    {
        if name.is_empty() {
            self
        } else {
            let mut value = String::new();
            if descending {
                push_char(&mut value, '-');
            }
            value.append(name);
            assert(value@ =~= order_value(name@, descending));
            proof {
                reveal_strlit("OrderBy");
            }
            self.push_component(SearchComponent::Axis { axis: "OrderBy".to_owned(), query: value })
        }
    }

    /// Adds a sort directive `OrderBy:<axis>` on the trimmed axis name, or
    /// `OrderBy:"-<axis>"` when `descending`; a blank name adds nothing.
    /// Further calls add secondary sort orders.
    pub fn order_by(self, axis: &str, descending: bool) -> (r: Self)
        ensures
            r@ == (if trimmed(axis@).len() > 0 {
                self@.push(Clause::Axis("OrderBy"@, order_value(trimmed(axis@), descending)))
            } else {
                self@
            }),
    {
        self.push_order(trim_str(axis), descending)
    }

    /// The query text: each component written in order, the empty ones left
    /// out, joined by single spaces. The builder is left as it is.
    pub fn render(&self) -> (r: String)
        ensures
            r@ == query_text(self@),
    {
        let ghost parts = clause_texts(self@);
        let mut out = String::new();
        let mut any = false;
        let mut i: usize = 0;
        while i < self.components.len()
            invariant
                i <= self.components.len(),
                self@ == component_clauses(self.components@),
                parts == clause_texts(self@),
                out@ == joined(non_empty(parts.subrange(0, i as int)), and_separator()),
                any == (non_empty(parts.subrange(0, i as int)).len() > 0),
            decreases self.components.len() - i,
        {
            let s = self.components[i].stringify();
            proof {
                lemma_non_empty_step(parts, i as int);
                lemma_joined_push(non_empty(parts.subrange(0, i as int)), s@, and_separator());
            }
            if !s.as_str().is_empty() {
                if any {
                    push_char(&mut out, ' ');
                }
                out.append(s.as_str());
                any = true;
            }
            i = i + 1;
        }
        assert(parts.subrange(0, self.components.len() as int) =~= parts);
        out
    }

    /// Builds the final query string; see `render`.
    pub fn build(self) -> (r: String)
        ensures
            r@ == query_text(self@),
    {
        self.render()
    }
}

} // verus!
