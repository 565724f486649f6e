//! The task-list provider's query and response shapes, and the extraction
//! of task headers from a response.
//!
//! The HTTP round-trip lives outside; this module owns the data model and
//! the pure step from a response to the headers the note rendering takes.

use vstd::prelude::*;
use vstd::string::StrSliceExecFns;
use crate::note::NoteHeader;
use crate::strutil::str_eq;

verus! {

/// The database query the provider answers: one select filter.
pub struct NotionDbQuery {
    pub filter: Filter,
}

/// A filter on one property.
pub struct Filter {
    pub property: String,
    pub select: QuerySelect,
}

/// The select clause: the value the property must equal.
pub struct QuerySelect {
    pub equals: String,
}

impl NotionDbQuery {
    /// The one query this system asks: tasks whose Status is Today.
    pub fn today_tasks() -> (r: NotionDbQuery)
        ensures
            r.filter.property@ == "Status"@,
            r.filter.select.equals@ == "Today"@,
    {
        NotionDbQuery {
            filter: Filter {
                property: "Status".to_owned(),
                select: QuerySelect { equals: "Today".to_owned() },
            },
        }
    }
}

/// A page icon as far as the extraction reads it: its type tag and, for
/// emoji icons, the emoji text.
pub struct NotionIcon {
    pub icon_type: String,
    pub emoji: String,
}

/// The provider's answer to a database query.
pub struct NotionQueryResponse {
    pub object: String,
    pub results: Vec<NotionResult>,
    pub next_cursor: Option<String>,
    pub has_more: bool,
    pub notion_query_response_type: String,
    pub page: Page,
}

/// The (empty) paging object of a response.
pub struct Page {}

/// One page of the queried database.
pub struct NotionResult {
    pub object: String,
    pub id: String,
    pub created_time: String,
    pub last_edited_time: String,
    pub created_by: TedBy,
    pub last_edited_by: TedBy,
    pub cover: Option<String>,
    pub icon: Option<NotionIcon>,
    pub parent: Parent,
    pub archived: bool,
    pub properties: Properties,
    pub url: String,
}

/// Who created or last edited a page.
pub struct TedBy {
    pub object: String,
    pub id: String,
}

/// The database a page belongs to.
pub struct Parent {
    pub parent_type: String,
    pub database_id: String,
}

/// The properties the task database carries per page.
pub struct Properties {
    pub date_created: DateCreated,
    pub status: Status,
    pub date: Date,
    pub name: Name,
}

/// The optional due date property.
pub struct Date {
    pub id: String,
    pub date_type: String,
    pub date: Option<String>,
}

/// The creation-time property.
pub struct DateCreated {
    pub id: String,
    pub date_created_type: String,
    pub created_time: String,
}

/// The title property: a list of rich-text runs.
pub struct Name {
    pub id: String,
    pub name_type: String,
    pub title: Vec<Title>,
}

/// One rich-text run of a title.
pub struct Title {
    pub title_type: String,
    pub text: Text,
    pub annotations: Annotations,
    pub plain_text: String,
    pub href: Option<String>,
}

/// Formatting flags of a rich-text run.
pub struct Annotations {
    pub bold: bool,
    pub italic: bool,
    pub strikethrough: bool,
    pub underline: bool,
    pub code: bool,
    pub color: String,
}

/// The raw text of a rich-text run.
pub struct Text {
    pub content: String,
    pub link: Option<String>,
}

/// The status property of a page.
pub struct Status {
    pub id: String,
    pub status_type: String,
    pub select: Select,
}

/// The selected status value.
pub struct Select {
    pub id: String,
    pub name: String,
    pub color: String,
}

/// The emoji a page icon contributes to its header: the first character of
/// an emoji-typed icon, nothing for any other icon or none at all.
pub open spec fn icon_emoji(icon: Option<NotionIcon>) -> Option<char> {
    match icon {
        Some(ic) => if ic.icon_type@ == "emoji"@ && ic.emoji@.len() > 0 {
            Some(ic.emoji@[0])
        } else {
            None
        },
        None => None,
    }
}

impl NotionResult {
    /// The header this page contributes: its icon's emoji, if any, and the
    /// plain text of the first title run.
    pub fn header(&self) -> (r: NoteHeader)
        requires
            self.properties.name.title@.len() > 0,
        ensures
            r.emoji == icon_emoji(self.icon),
            r.content@ == self.properties.name.title@[0].plain_text@,
    {
        let emoji: Option<char> = match &self.icon {
            Some(ic) => {
                if str_eq(ic.icon_type.as_str(), "emoji") && ic.emoji.as_str().unicode_len() > 0 {
                    Some(ic.emoji.as_str().get_char(0))
                } else {
                    None
                }
            },
            None => None,
        };
        NoteHeader { emoji, content: self.properties.name.title[0].plain_text.clone() }
    }
}

/// The pure half of fetching the task list: every page of the response
/// becomes one header, in order.
pub fn extract_task_headers(q: &NotionQueryResponse) -> (r: Vec<NoteHeader>)
    requires
        forall|i: int|
            0 <= i < q.results@.len() ==> (#[trigger] q.results@[i]).properties.name.title@.len()
                > 0,
    ensures
        r@.len() == q.results@.len(),
        forall|i: int|
            0 <= i < r@.len() ==> (#[trigger] r@[i]).emoji == icon_emoji(q.results@[i].icon)
                && r@[i].content@ == q.results@[i].properties.name.title@[0].plain_text@,
{
    let mut out: Vec<NoteHeader> = Vec::new();
    let n = q.results.len();
    let mut i: usize = 0;
    while i < n
        invariant
            n == q.results@.len(),
            i <= n,
            out@.len() == i,
            forall|j: int|
                0 <= j < q.results@.len() ==> (#[trigger] q.results@[j]).properties.name.title@.len()
                    > 0,
            forall|j: int|
                0 <= j < i ==> (#[trigger] out@[j]).emoji == icon_emoji(q.results@[j].icon)
                    && out@[j].content@ == q.results@[j].properties.name.title@[0].plain_text@,
        decreases n - i,
    {
        out.push(q.results[i].header());
        i = i + 1;
    }
    out
}

} // verus!
