use fogbugz::filter::{FogBugzSearchBuilder, OrBuilder, OrComponent, SearchComponent};

#[test]
fn single_term_renders_verbatim() {
    assert_eq!(FogBugzSearchBuilder::new().term("apple").render(), "apple");
}

#[test]
fn empty_and_blank_inputs_are_dropped() {
    let query = FogBugzSearchBuilder::new().term("apple").term("").build();
    assert_eq!(query, "apple");
    let query = FogBugzSearchBuilder::new()
        .term("   ")
        .phrase("\t")
        .negated_term(" ")
        .axis("project", " ")
        .axis(" ", "Widget")
        .exact_axis("", "1")
        .negated_axis("title", "")
        .has_axis("  ")
        .missing_axis("")
        .order_by(" ", true)
        .project("  ")
        .build();
    assert_eq!(query, "");
}

#[test]
fn inputs_are_trimmed() {
    let query = FogBugzSearchBuilder::new()
        .term("  apple  ")
        .phrase(" apple peach ")
        .axis(" project ", " Widget ")
        .build();
    assert_eq!(query, "apple \"apple peach\" project:Widget");
    let query = FogBugzSearchBuilder::new().term("\u{2003}apple\u{2003}").build();
    assert_eq!(query, "apple");
}

#[test]
fn negated_term_has_no_double_negative() {
    assert_eq!(FogBugzSearchBuilder::new().negated_term("-peach").render(), "-peach");
    assert_eq!(FogBugzSearchBuilder::new().negated_term("  --peach ").render(), "-peach");
    assert_eq!(FogBugzSearchBuilder::new().negated_term("---").render(), "");
}

#[test]
fn negated_axis_strips_dash_from_name_only() {
    let query = FogBugzSearchBuilder::new().negated_axis("-title", "pear").build();
    assert_eq!(query, "-title:pear");
    let query = FogBugzSearchBuilder::new().negated_axis("title", "-pear").build();
    assert_eq!(query, "-title:\"-pear\"");
    let query = FogBugzSearchBuilder::new().negated_axis("-", "pear").build();
    assert_eq!(query, "");
}

#[test]
fn value_quoting_rules() {
    let b = FogBugzSearchBuilder::new;
    assert_eq!(b().axis("title", "a:b").build(), "title:\"a:b\"");
    assert_eq!(b().axis("due", "-1d").build(), "due:\"-1d\"");
    assert_eq!(b().axis("edited", "a..b").build(), "edited:\"a..b\"");
    assert_eq!(b().axis("edited", "a.b").build(), "edited:a.b");
    assert_eq!(b().axis("title", "a-b").build(), "title:a-b");
    assert_eq!(b().axis("title", "\"").build(), "title:\"\\\"\"");
}

#[test]
fn already_quoted_value_keeps_its_quotes() {
    let query = FogBugzSearchBuilder::new()
        .axis("project", "\"Widget Factory\"")
        .build();
    assert_eq!(query, "project:\"Widget Factory\"");
    let query = FogBugzSearchBuilder::new().axis("title", "\"a\"b\"").build();
    assert_eq!(query, "title:\"a\\\"b\"");
}

#[test]
fn exact_axis_is_never_quoted() {
    let query = FogBugzSearchBuilder::new()
        .exact_axis("title", "a b \"c\"")
        .build();
    assert_eq!(query, "title:=a b \\\"c\\\"");
}

#[test]
fn or_group_of_blank_inputs_adds_nothing() {
    let query = FogBugzSearchBuilder::new()
        .or(|g| g.term("").term("   ").phrase(" ").axis("", "x").axis("x", " "))
        .build();
    assert_eq!(query, "");
    let query = FogBugzSearchBuilder::new()
        .term("a")
        .or(|g| g)
        .term("b")
        .build();
    assert_eq!(query, "a b");
}

#[test]
fn or_group_members_and_shortcuts() {
    let query = FogBugzSearchBuilder::new()
        .or(|g| {
            g.phrase("apple peach")
                .axis("project", "Widget")
                .edited_by("Carol")
                .resolved_by("Dave Smith")
        })
        .build();
    assert_eq!(
        query,
        "(\"apple peach\" OR project:Widget OR editedby:Carol OR resolvedby:\"Dave Smith\")"
    );
}

#[test]
fn or_group_built_outside_a_closure() {
    let group = OrBuilder::new()
        .push_member(OrComponent::Term("apple".to_string()))
        .push_member(OrComponent::Term(String::new()))
        .assigned_to("Bob");
    let query = FogBugzSearchBuilder::new().or_group(group).build();
    assert_eq!(query, "(apple OR assignedto:Bob)");
    let query = FogBugzSearchBuilder::new().or_group(OrBuilder::new()).build();
    assert_eq!(query, "");
}

#[test]
fn order_by_trims_and_quotes_descending() {
    let query = FogBugzSearchBuilder::new()
        .order_by(" Priority ", false)
        .order_by("  Due ", true)
        .build();
    assert_eq!(query, "OrderBy:Priority OrderBy:\"-Due\"");
}

#[test]
fn insertion_order_is_kept() {
    assert_eq!(FogBugzSearchBuilder::new().term("b").term("a").build(), "b a");
    assert_eq!(FogBugzSearchBuilder::new().term("a").term("b").build(), "a b");
}

#[test]
fn render_is_repeatable_and_follows_appends() {
    let builder = FogBugzSearchBuilder::new().term("apple");
    let first = builder.render();
    let second = builder.render();
    assert_eq!(first, second);
    let builder = builder.term("peach");
    assert_eq!(builder.render(), "apple peach");
}

#[test]
fn numeric_shortcuts_render_decimal() {
    assert_eq!(FogBugzSearchBuilder::new().project_id(42).build(), "project:=42");
    assert_eq!(FogBugzSearchBuilder::new().project_id(0).build(), "project:=0");
    assert_eq!(
        FogBugzSearchBuilder::new().case_number(4294967295).build(),
        "ixBug:4294967295"
    );
    assert_eq!(FogBugzSearchBuilder::new().case_number(1007).build(), "ixBug:1007");
}

#[test]
fn tag_wildcard_adds_star_once() {
    assert_eq!(FogBugzSearchBuilder::new().tag_wildcard("mo*").build(), "tag:mo*");
    assert_eq!(FogBugzSearchBuilder::new().tag_wildcard("").build(), "tag:*");
}

#[test]
fn axis_shortcuts() {
    let query = FogBugzSearchBuilder::new()
        .assigned_to("Alice")
        .opened_by("Bob")
        .edited_by("Carol")
        .also_edited_by("Dave")
        .resolved_by("Erin")
        .tag("urgent")
        .type_is("case")
        .opened_date("today")
        .closed_date("yesterday")
        .build();
    assert_eq!(
        query,
        "assignedto:Alice openedby:Bob editedby:Carol alsoeditedby:Dave resolvedby:Erin tag:urgent type:case opened:today closed:yesterday"
    );
}

#[test]
fn push_component_validates() {
    let query = FogBugzSearchBuilder::new()
        .push_component(SearchComponent::Term("apple".to_string()))
        .push_component(SearchComponent::Term(String::new()))
        .push_component(SearchComponent::Or(Vec::new()))
        .push_component(SearchComponent::Or(vec![OrComponent::Term(String::new())]))
        .push_component(SearchComponent::ExactAxis {
            axis: "project".to_string(),
            query: "7".to_string(),
        })
        .build();
    assert_eq!(query, "apple project:=7");
}

#[test]
fn empty_group_component_renders_nothing() {
    assert_eq!(SearchComponent::Or(Vec::new()).stringify(), "");
    let group = SearchComponent::Or(vec![
        OrComponent::Term(String::new()),
        OrComponent::Term("apple".to_string()),
    ]);
    assert_eq!(group.stringify(), "(apple)");
}

#[test]
fn end_to_end_vector() {
    let query = FogBugzSearchBuilder::new()
        .axis("project", "Sample Project")
        .axis("status", "Active")
        .or(|g| g.axis("assignedto", "Alice").axis("assignedto", "Bob"))
        .axis("edited", "-1w..today")
        .negated_axis("tag", "obsolete")
        .order_by("Priority", false)
        .order_by("Due", true)
        .render();
    assert_eq!(
        query,
        "project:\"Sample Project\" status:Active (assignedto:Alice OR assignedto:Bob) edited:\"-1w..today\" -tag:obsolete OrderBy:Priority OrderBy:\"-Due\""
    );
}

#[test]
fn push_order_takes_the_name_as_given() {
    let query = FogBugzSearchBuilder::new()
        .push_order("Due", true)
        .push_order("", false)
        .push_order("Priority", false)
        .build();
    assert_eq!(query, "OrderBy:\"-Due\" OrderBy:Priority");
}
