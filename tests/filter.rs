use fogbugz::filter::{FogBugzSearchBuilder, OrBuilder, OrComponent, SearchComponent};

#[test]
fn test_basic_search_terms() {
    // Single term
    let query = FogBugzSearchBuilder::new().term("apple").build();
    assert_eq!(query, "apple");

    // Multiple terms (AND)
    let query = FogBugzSearchBuilder::new()
        .term("apple")
        .term("peach")
        .build();
    assert_eq!(query, "apple peach");

    // Phrase
    let query = FogBugzSearchBuilder::new().phrase("apple peach").build();
    assert_eq!(query, "\"apple peach\"");

    // Mix of terms and phrase
    let query = FogBugzSearchBuilder::new()
        .term("banana")
        .phrase("apple peach")
        .build();
    assert_eq!(query, "banana \"apple peach\"");
}

#[test]
fn test_negated_terms() {
    // Negated term
    let query = FogBugzSearchBuilder::new().negated_term("peach").build();
    assert_eq!(query, "-peach");

    // Mix with regular term
    let query = FogBugzSearchBuilder::new()
        .term("apple")
        .negated_term("peach")
        .build();
    assert_eq!(query, "apple -peach");
}

#[test]
fn test_axis_search() {
    // Simple axis
    let query = FogBugzSearchBuilder::new()
        .axis("project", "Widget")
        .build();
    assert_eq!(query, "project:Widget");

    // Axis with spaces (should be quoted)
    let query = FogBugzSearchBuilder::new()
        .axis("project", "Widget Factory")
        .build();
    assert_eq!(query, "project:\"Widget Factory\"");

    // Exact axis
    let query = FogBugzSearchBuilder::new()
        .exact_axis("project", "1")
        .build();
    assert_eq!(query, "project:=1");

    // Negated axis
    let query = FogBugzSearchBuilder::new()
        .negated_axis("title", "pear")
        .build();
    assert_eq!(query, "-title:pear");
}

#[test]
fn test_quote_escaping() {
    // Quotes in phrases
    let query = FogBugzSearchBuilder::new()
        .phrase("apple \"red\" peach")
        .build();
    assert_eq!(query, "\"apple \\\"red\\\" peach\"");

    // Quotes in axis values
    let query = FogBugzSearchBuilder::new()
        .axis("openedby", "Joel \"The Bossman\" Spolsky")
        .build();
    assert_eq!(query, "openedby:\"Joel \\\"The Bossman\\\" Spolsky\"");
}

#[test]
fn test_or_groups() {
    // Simple OR
    let query = FogBugzSearchBuilder::new()
        .or(|or| or.term("apple").term("peach"))
        .build();
    assert_eq!(query, "(apple OR peach)");

    // OR with axis searches
    let query = FogBugzSearchBuilder::new()
        .or(|or| or.assigned_to("Tester 1").assigned_to("Tester 2"))
        .build();
    assert_eq!(
        query,
        "(assignedto:\"Tester 1\" OR assignedto:\"Tester 2\")"
    );

    // Complex query with OR groups
    let query = FogBugzSearchBuilder::new()
        .term("newfeature")
        .or(|or| or.assigned_to("Tester 1").assigned_to("Tester 2"))
        .or(|or| or.resolved_by("Developer1").resolved_by("Developer2"))
        .build();
    assert_eq!(
        query,
        "newfeature (assignedto:\"Tester 1\" OR assignedto:\"Tester 2\") (resolvedby:Developer1 OR resolvedby:Developer2)"
    );
}

#[test]
fn test_date_searches() {
    // Simple date search
    let query = FogBugzSearchBuilder::new().edited_date("today").build();
    assert_eq!(query, "edited:today");

    // Date range
    let query = FogBugzSearchBuilder::new()
        .resolved_date("3/26/2007..6/8/2007")
        .build();
    assert_eq!(query, "resolved:\"3/26/2007..6/8/2007\"");

    // Relative date
    let query = FogBugzSearchBuilder::new().due_date("-1d..").build();
    assert_eq!(query, "due:\"-1d..\"");
}

#[test]
fn test_wildcard_searches() {
    // Has tag
    let query = FogBugzSearchBuilder::new().has_axis("tag").build();
    assert_eq!(query, "tag:*");

    // Missing due date
    let query = FogBugzSearchBuilder::new().missing_axis("due").build();
    assert_eq!(query, "-due:*");

    // Tag wildcard search
    let query = FogBugzSearchBuilder::new().tag_wildcard("mo").build();
    assert_eq!(query, "tag:mo*");
}

#[test]
fn test_order_by() {
    // Ascending order
    let query = FogBugzSearchBuilder::new()
        .order_by("Milestone", false)
        .build();
    assert_eq!(query, "OrderBy:Milestone");

    // Descending order
    let query = FogBugzSearchBuilder::new()
        .order_by("Milestone", true)
        .build();
    assert_eq!(query, "OrderBy:\"-Milestone\"");

    // Multiple sort orders
    let query = FogBugzSearchBuilder::new()
        .order_by("Milestone", false)
        .order_by("Priority", false)
        .build();
    assert_eq!(query, "OrderBy:Milestone OrderBy:Priority");
}

#[test]
fn test_complex_query() {
    let query = FogBugzSearchBuilder::new()
        .project("Sample Project")
        .status("Active")
        .or(|or| or.assigned_to("Alice").assigned_to("Bob"))
        .edited_date("-1w..today")
        .negated_axis("tag", "obsolete")
        .order_by("Priority", false)
        .order_by("Due", true)
        .build();

    assert_eq!(
        query,
        "project:\"Sample Project\" status:Active (assignedto:Alice OR assignedto:Bob) edited:\"-1w..today\" -tag:obsolete OrderBy:Priority OrderBy:\"-Due\""
    );
}
