use fogbugz::enums::{Category, Column, EventType, Priority, Status};
use fogbugz::request::{
    add_column, case_list_columns, column_names, default_case_columns, plan_list_cases,
    plan_with_trimmed_filter, ListCommand,
};

#[test]
fn column_names_match_the_tracker() {
    assert_eq!(Column::CaseId.name(), "ixBug");
    assert_eq!(Column::Title.name(), "sTitle");
    assert_eq!(Column::Body.name(), "sHtmlBody");
    assert_eq!(Column::Events.name(), "events");
    assert_eq!(Column::Project.name(), "sProject");
    assert_eq!(Column::ProjectId.name(), "ixProject");
    assert_eq!(Column::Area.name(), "sArea");
    assert_eq!(Column::Priority.name(), "ixPriority");
    assert_eq!(Column::Status.name(), "ixStatus");
    assert_eq!(Column::Category.name(), "ixCategory");
    assert_eq!(Column::IsOpen.name(), "fOpen");
    assert_eq!(Column::CustomFields.to_name_string(), "customFields");
}

#[test]
fn category_and_priority_codes() {
    assert_eq!(Category::from_code(1), Some(Category::Bug));
    assert_eq!(Category::from_code(7), Some(Category::Review));
    assert_eq!(Category::from_code(0), None);
    assert_eq!(Category::from_code(8), None);
    assert_eq!(Category::Emergency.code(), 6);
    assert_eq!(Category::Inquiry.name(), "Inquiry");
    assert_eq!(Priority::from_code(2), Some(Priority::MuyImportante));
    assert_eq!(Priority::from_code(200), None);
    assert_eq!(Priority::DontFix.code(), 7);
    assert_eq!(Priority::FixIfTime.name(), "FixIfTime");
    for code in 1..=7u8 {
        assert_eq!(Category::from_code(code).map(|c| c.code()), Some(code));
        assert_eq!(Priority::from_code(code).map(|p| p.code()), Some(code));
    }
}

#[test]
fn status_codes_group_into_states() {
    for code in [1, 17, 20, 23, 26, 33, 36, 37, 40] {
        assert_eq!(Status::from_code(code), Some(Status::Active));
    }
    for code in [2, 9, 16, 18, 19, 21, 22, 24, 25, 31, 32, 34, 35, 38, 39] {
        assert_eq!(Status::from_code(code), Some(Status::Resolved));
    }
    assert_eq!(Status::from_code(27), Some(Status::Approved));
    assert_eq!(Status::from_code(28), Some(Status::Rejected));
    assert_eq!(Status::from_code(29), Some(Status::WontReview));
    assert_eq!(Status::from_code(30), Some(Status::AbandonedNoConsensus));
    assert_eq!(Status::from_code(0), None);
    assert_eq!(Status::from_code(41), None);
    assert_eq!(Status::from_code(-3), None);
    assert_eq!(Status::WontReview.name(), "WontReview");
}

#[test]
fn event_type_codes() {
    assert_eq!(EventType::from_code(1), EventType::Opened);
    assert_eq!(EventType::from_code(14), EventType::Resolved);
    assert_eq!(EventType::from_code(17), EventType::DeletedAttachment);
    assert_eq!(EventType::from_code(99), EventType::Unknown);
    assert_eq!(EventType::from_code(-1), EventType::Unknown);
    assert_eq!(EventType::ReleaseNoted.code(), 16);
    assert_eq!(EventType::NotSorted.name(), "NotSorted");
    for code in 1..=17 {
        assert_eq!(EventType::from_code(code).code(), code);
    }
}

#[test]
fn column_lists() {
    let names = column_names(&[Column::CaseId, Column::Title]);
    assert_eq!(names, vec!["ixBug".to_string(), "sTitle".to_string()]);
    let defaults = column_names(&default_case_columns());
    assert_eq!(
        defaults,
        vec!["ixBug", "sTitle", "events", "sProject", "sArea", "ixPriority", "ixStatus", "ixCategory", "fOpen"]
    );
    assert_eq!(add_column(None, Column::Area), vec!["sArea".to_string()]);
    assert_eq!(
        add_column(Some(vec!["ixBug".to_string()]), Column::Area),
        vec!["ixBug".to_string(), "sArea".to_string()]
    );
}

#[test]
fn case_list_columns_are_completed_once() {
    assert_eq!(case_list_columns(None), vec!["ixBug", "ixProject", "sProject", "sTitle"]);
    let cols = vec!["sTitle".to_string(), "sArea".to_string(), "ixBug".to_string()];
    assert_eq!(
        case_list_columns(Some(cols)),
        vec!["sTitle", "sArea", "ixBug", "ixProject", "sProject"]
    );
}

#[test]
fn listing_command_follows_the_filter() {
    assert_eq!(plan_list_cases(None, None).command, ListCommand::ListCases);
    let plan = plan_list_cases(Some("  395 "), None);
    assert_eq!(plan.command, ListCommand::ListCases);
    assert_eq!(plan.filter, "395");
    assert_eq!(plan_list_cases(Some("   "), None).command, ListCommand::ListCases);
    assert_eq!(plan_list_cases(Some("+7"), None).command, ListCommand::ListCases);
    let plan = plan_list_cases(Some(" status:Active "), None);
    assert_eq!(plan.command, ListCommand::Search);
    assert_eq!(plan.filter, "status:Active");
    assert_eq!(plan.columns, vec!["ixBug", "ixProject", "sProject", "sTitle"]);
    assert_eq!(plan_with_trimmed_filter("4294967295", None).command, ListCommand::ListCases);
    assert_eq!(plan_with_trimmed_filter("4294967296", None).command, ListCommand::Search);
    assert_eq!(plan_with_trimmed_filter("-1", None).command, ListCommand::Search);
    assert_eq!(plan_with_trimmed_filter("+", None).command, ListCommand::Search);
}
