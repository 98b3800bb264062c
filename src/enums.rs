//! The tracker's fixed vocabularies: the column names a request may ask for,
//! and the numeric codes by which cases report category, priority, status and
//! event type.
use vstd::prelude::*;

verus! {

/// A column that a request can ask the tracker to return.
#[derive(Debug, Clone, Copy, PartialEq, Eq, Structural)]
pub enum Column {
    CaseId,
    Title,
    Body,
    Events,
    Project,
    ProjectId,
    Area,
    Priority,
    Status,
    Category,
    IsOpen,
    CustomFields,
}

/// The name by which the tracker knows a column.
pub open spec fn column_name(v: Column) -> Seq<char> {
    match v {
        Column::CaseId => "ixBug"@,
        Column::Title => "sTitle"@,
        Column::Body => "sHtmlBody"@,
        Column::Events => "events"@,
        Column::Project => "sProject"@,
        Column::ProjectId => "ixProject"@,
        Column::Area => "sArea"@,
        Column::Priority => "ixPriority"@,
        Column::Status => "ixStatus"@,
        Column::Category => "ixCategory"@,
        Column::IsOpen => "fOpen"@,
        Column::CustomFields => "customFields"@,
    }
}

impl Column {
    /// The name by which the tracker knows this column.
    pub fn name(&self) -> (r: &'static str)
        ensures
            r@ == column_name(*self),
    {
        match self {
            Column::CaseId => "ixBug",
            Column::Title => "sTitle",
            Column::Body => "sHtmlBody",
            Column::Events => "events",
            Column::Project => "sProject",
            Column::ProjectId => "ixProject",
            Column::Area => "sArea",
            Column::Priority => "ixPriority",
            Column::Status => "ixStatus",
            Column::Category => "ixCategory",
            Column::IsOpen => "fOpen",
            Column::CustomFields => "customFields",
        }
    }

    /// The name of this column as an owned string.
    pub fn to_name_string(&self) -> (r: String)
        ensures
            r@ == column_name(*self),
    {
        self.name().to_owned()
    }
}

/// The category of a case.
#[derive(Debug, Clone, Copy, PartialEq, Eq, Structural)]
pub enum Category {
    Bug,
    Feature,
    Inquiry,
    Schedule,
    Report,
    Emergency,
    Review,
}

/// The name under which a category is written.
pub open spec fn category_name(v: Category) -> Seq<char> {
    match v {
        Category::Bug => "Bug"@,
        Category::Feature => "Feature"@,
        Category::Inquiry => "Inquiry"@,
        Category::Schedule => "Schedule"@,
        Category::Report => "Report"@,
        Category::Emergency => "Emergency"@,
        Category::Review => "Review"@,
    }
}

/// The numeric code of a category.
pub open spec fn category_code(v: Category) -> int {
    match v {
        Category::Bug => 1,
        Category::Feature => 2,
        Category::Inquiry => 3,
        Category::Schedule => 4,
        Category::Report => 5,
        Category::Emergency => 6,
        Category::Review => 7,
    }
}

impl Category {
    /// The name under which this category is written.
    pub fn name(&self) -> (r: &'static str)
        ensures
            r@ == category_name(*self),
    {
        match self {
            Category::Bug => "Bug",
            Category::Feature => "Feature",
            Category::Inquiry => "Inquiry",
            Category::Schedule => "Schedule",
            Category::Report => "Report",
            Category::Emergency => "Emergency",
            Category::Review => "Review",
        }
    }

    /// The numeric code of this category.
    pub fn code(&self) -> (r: u8)
        ensures
            r as int == category_code(*self),
    {
        match self {
            Category::Bug => 1,
            Category::Feature => 2,
            Category::Inquiry => 3,
            Category::Schedule => 4,
            Category::Report => 5,
            Category::Emergency => 6,
            Category::Review => 7,
        }
    }

    /// The category that `code` stands for, if any.
    pub fn from_code(code: u8) -> (r: Option<Category>)
        ensures
            r matches Some(v) ==> category_code(v) == code as int,
            r is None ==> forall|v: Category| category_code(v) != code as int,
    {
        if code == 1 {
            Some(Category::Bug)
        } else if code == 2 {
            Some(Category::Feature)
        } else if code == 3 {
            Some(Category::Inquiry)
        } else if code == 4 {
            Some(Category::Schedule)
        } else if code == 5 {
            Some(Category::Report)
        } else if code == 6 {
            Some(Category::Emergency)
        } else if code == 7 {
            Some(Category::Review)
        } else {
            None
        }
    }
}

/// The priority of a case.
#[derive(Debug, Clone, Copy, PartialEq, Eq, Structural)]
pub enum Priority {
    Blocker,
    MuyImportante,
    ShouldDo,
    FixIfTime,
    OhWell,
    WhoCares,
    DontFix,
}

/// The name under which a priority is written.
pub open spec fn priority_name(v: Priority) -> Seq<char> {
    match v {
        Priority::Blocker => "Blocker"@,
        Priority::MuyImportante => "MuyImportante"@,
        Priority::ShouldDo => "ShouldDo"@,
        Priority::FixIfTime => "FixIfTime"@,
        Priority::OhWell => "OhWell"@,
        Priority::WhoCares => "WhoCares"@,
        Priority::DontFix => "DontFix"@,
    }
}

/// The numeric code of a priority.
pub open spec fn priority_code(v: Priority) -> int {
    match v {
        Priority::Blocker => 1,
        Priority::MuyImportante => 2,
        Priority::ShouldDo => 3,
        Priority::FixIfTime => 4,
        Priority::OhWell => 5,
        Priority::WhoCares => 6,
        Priority::DontFix => 7,
    }
}

impl Priority {
    /// The name under which this priority is written.
    pub fn name(&self) -> (r: &'static str)
        ensures
            r@ == priority_name(*self),
    {
        match self {
            Priority::Blocker => "Blocker",
            Priority::MuyImportante => "MuyImportante",
            Priority::ShouldDo => "ShouldDo",
            Priority::FixIfTime => "FixIfTime",
            Priority::OhWell => "OhWell",
            Priority::WhoCares => "WhoCares",
            Priority::DontFix => "DontFix",
        }
    }

    /// The numeric code of this priority.
    pub fn code(&self) -> (r: u8)
        ensures
            r as int == priority_code(*self),
    {
        match self {
            Priority::Blocker => 1,
            Priority::MuyImportante => 2,
            Priority::ShouldDo => 3,
            Priority::FixIfTime => 4,
            Priority::OhWell => 5,
            Priority::WhoCares => 6,
            Priority::DontFix => 7,
        }
    }

    /// The priority that `code` stands for, if any.
    pub fn from_code(code: u8) -> (r: Option<Priority>)
        ensures
            r matches Some(v) ==> priority_code(v) == code as int,
            r is None ==> forall|v: Priority| priority_code(v) != code as int,
    {
        if code == 1 {
            Some(Priority::Blocker)
        } else if code == 2 {
            Some(Priority::MuyImportante)
        } else if code == 3 {
            Some(Priority::ShouldDo)
        } else if code == 4 {
            Some(Priority::FixIfTime)
        } else if code == 5 {
            Some(Priority::OhWell)
        } else if code == 6 {
            Some(Priority::WhoCares)
        } else if code == 7 {
            Some(Priority::DontFix)
        } else {
            None
        }
    }
}

/// The kind of an event in a case's history.
#[derive(Debug, Clone, Copy, PartialEq, Eq, Structural)]
pub enum EventType {
    Opened,
    Edited,
    Assigned,
    Reactivated,
    Reopened,
    Closed,
    Moved,
    Unknown,
    Replied,
    Forwarded,
    Received,
    Sorted,
    NotSorted,
    Resolved,
    Emailed,
    ReleaseNoted,
    DeletedAttachment,
}

/// The name under which a event type is written.
pub open spec fn event_type_name(v: EventType) -> Seq<char> {
    match v {
        EventType::Opened => "Opened"@,
        EventType::Edited => "Edited"@,
        EventType::Assigned => "Assigned"@,
        EventType::Reactivated => "Reactivated"@,
        EventType::Reopened => "Reopened"@,
        EventType::Closed => "Closed"@,
        EventType::Moved => "Moved"@,
        EventType::Unknown => "Unknown"@,
        EventType::Replied => "Replied"@,
        EventType::Forwarded => "Forwarded"@,
        EventType::Received => "Received"@,
        EventType::Sorted => "Sorted"@,
        EventType::NotSorted => "NotSorted"@,
        EventType::Resolved => "Resolved"@,
        EventType::Emailed => "Emailed"@,
        EventType::ReleaseNoted => "ReleaseNoted"@,
        EventType::DeletedAttachment => "DeletedAttachment"@,
    }
}

/// The numeric code of a event type.
pub open spec fn event_type_code(v: EventType) -> int {
    match v {
        EventType::Opened => 1,
        EventType::Edited => 2,
        EventType::Assigned => 3,
        EventType::Reactivated => 4,
        EventType::Reopened => 5,
        EventType::Closed => 6,
        EventType::Moved => 7,
        EventType::Unknown => 8,
        EventType::Replied => 9,
        EventType::Forwarded => 10,
        EventType::Received => 11,
        EventType::Sorted => 12,
        EventType::NotSorted => 13,
        EventType::Resolved => 14,
        EventType::Emailed => 15,
        EventType::ReleaseNoted => 16,
        EventType::DeletedAttachment => 17,
    }
}

impl EventType {
    /// The name under which this event type is written.
    pub fn name(&self) -> (r: &'static str)
        ensures
            r@ == event_type_name(*self),
    {
        match self {
            EventType::Opened => "Opened",
            EventType::Edited => "Edited",
            EventType::Assigned => "Assigned",
            EventType::Reactivated => "Reactivated",
            EventType::Reopened => "Reopened",
            EventType::Closed => "Closed",
            EventType::Moved => "Moved",
            EventType::Unknown => "Unknown",
            EventType::Replied => "Replied",
            EventType::Forwarded => "Forwarded",
            EventType::Received => "Received",
            EventType::Sorted => "Sorted",
            EventType::NotSorted => "NotSorted",
            EventType::Resolved => "Resolved",
            EventType::Emailed => "Emailed",
            EventType::ReleaseNoted => "ReleaseNoted",
            EventType::DeletedAttachment => "DeletedAttachment",
        }
    }

    /// The numeric code of this event type.
    pub fn code(&self) -> (r: i32)
        ensures
            r as int == event_type_code(*self),
    {
        match self {
            EventType::Opened => 1,
            EventType::Edited => 2,
            EventType::Assigned => 3,
            EventType::Reactivated => 4,
            EventType::Reopened => 5,
            EventType::Closed => 6,
            EventType::Moved => 7,
            EventType::Unknown => 8,
            EventType::Replied => 9,
            EventType::Forwarded => 10,
            EventType::Received => 11,
            EventType::Sorted => 12,
            EventType::NotSorted => 13,
            EventType::Resolved => 14,
            EventType::Emailed => 15,
            EventType::ReleaseNoted => 16,
            EventType::DeletedAttachment => 17,
        }
    }

    /// The event type that `code` stands for; an unknown code gives `Unknown`.
    pub fn from_code(code: i32) -> (r: EventType)
        ensures
            (exists|v: EventType| event_type_code(v) == code as int) ==> event_type_code(r)
                == code as int,
            (forall|v: EventType| event_type_code(v) != code as int) ==> r == EventType::Unknown,
    {
        let r = if code == 1 {
            EventType::Opened
        } else if code == 2 {
            EventType::Edited
        } else if code == 3 {
            EventType::Assigned
        } else if code == 4 {
            EventType::Reactivated
        } else if code == 5 {
            EventType::Reopened
        } else if code == 6 {
            EventType::Closed
        } else if code == 7 {
            EventType::Moved
        } else if code == 8 {
            EventType::Unknown
        } else if code == 9 {
            EventType::Replied
        } else if code == 10 {
            EventType::Forwarded
        } else if code == 11 {
            EventType::Received
        } else if code == 12 {
            EventType::Sorted
        } else if code == 13 {
            EventType::NotSorted
        } else if code == 14 {
            EventType::Resolved
        } else if code == 15 {
            EventType::Emailed
        } else if code == 16 {
            EventType::ReleaseNoted
        } else if code == 17 {
            EventType::DeletedAttachment
        } else {
            EventType::Unknown
        };
        assert(1 <= code <= 17 ==> event_type_code(r) == code as int);
        r
    }
}

/// The state of a case, as grouped from the tracker's status codes.
#[derive(Debug, Clone, Copy, PartialEq, Eq, Structural)]
pub enum Status {
    Active,
    Resolved,
    Approved,
    Rejected,
    WontReview,
    AbandonedNoConsensus,
}

/// The name under which a status is written.
pub open spec fn status_name(v: Status) -> Seq<char> {
    match v {
        Status::Active => "Active"@,
        Status::Resolved => "Resolved"@,
        Status::Approved => "Approved"@,
        Status::Rejected => "Rejected"@,
        Status::WontReview => "WontReview"@,
        Status::AbandonedNoConsensus => "AbandonedNoConsensus"@,
    }
}

/// The status that a numeric status code stands for, if any.
pub open spec fn status_of_code(code: int) -> Option<Status> {
    if code == 1 || code == 17 || code == 20 || code == 23 || code == 26 || code == 33 || code
        == 36 || code == 37 || code == 40 {
        Some(Status::Active)
    } else if (2 <= code <= 16) || code == 18 || code == 19 || code == 21 || code == 22 || code
        == 24 || code == 25 || code == 31 || code == 32 || code == 34 || code == 35 || code == 38
        || code == 39 {
        Some(Status::Resolved)
    } else if code == 27 {
        Some(Status::Approved)
    } else if code == 28 {
        Some(Status::Rejected)
    } else if code == 29 {
        Some(Status::WontReview)
    } else if code == 30 {
        Some(Status::AbandonedNoConsensus)
    } else {
        None
    }
}

impl Status {
    /// The name under which this status is written.
    pub fn name(&self) -> (r: &'static str)
        ensures
            r@ == status_name(*self),
    {
        match self {
            Status::Active => "Active",
            Status::Resolved => "Resolved",
            Status::Approved => "Approved",
            Status::Rejected => "Rejected",
            Status::WontReview => "WontReview",
            Status::AbandonedNoConsensus => "AbandonedNoConsensus",
        }
    }

    /// The status that a numeric status code stands for, if any.
    pub fn from_code(code: i32) -> (r: Option<Status>)
        ensures
            r == status_of_code(code as int),
    {
        match code {
            1 | 17 | 20 | 23 | 26 | 33 | 36 | 37 | 40 => Some(Status::Active),
            2..=16 | 18 | 19 | 21 | 22 | 24 | 25 | 31 | 32 | 34 | 35 | 38 | 39 => Some(
                Status::Resolved,
            ),
            27 => Some(Status::Approved),
            28 => Some(Status::Rejected),
            29 => Some(Status::WontReview),
            30 => Some(Status::AbandonedNoConsensus),
            _ => None,
        }
    }
}

/// No two categories share a numeric code.
pub proof fn lemma_category_codes_distinct(a: Category, b: Category)
    ensures
        category_code(a) == category_code(b) ==> a == b,
{
}

/// No two priorities share a numeric code.
pub proof fn lemma_priority_codes_distinct(a: Priority, b: Priority)
    ensures
        priority_code(a) == priority_code(b) ==> a == b,
{
}

/// No two event types share a numeric code.
pub proof fn lemma_event_type_codes_distinct(a: EventType, b: EventType)
    ensures
        event_type_code(a) == event_type_code(b) ==> a == b,
{
}

} // verus!
