//! Text and paging logic behind the chat commands: session listings, the
//! page window of a listing, and the running-status lines shown while an
//! answer is produced.
use vstd::prelude::*;
use vstd::string::*;
use crate::session::SessionInfo;
use crate::text::{
    decimal, decimal_text, decimal_value, has_prefix, parse_u64, prefix_bytes, prefix_within_bytes,
    split_on, split_text, text_eq, text_starts_with,
};

verus! {

/// Entries of a listing shown per page.
pub const PER_PAGE: usize = 10;

/// What `chrono` writes for a UTC time given in seconds since the epoch, in
/// the form `%Y-%m-%d %H:%M:%S`; `None` when the time is out of its range.
pub uninterp spec fn utc_text_of(secs: int) -> Option<Seq<char>>;

/// Relies on `chrono::DateTime::from_timestamp` (which refuses times out of
/// range) and on `DateTime::format` with the pattern `%Y-%m-%d %H:%M:%S`.
#[verifier::external_body]
fn utc_text(secs: i64) -> (r: Option<String>)
    ensures
        r.deep_view() == utc_text_of(secs as int),
{
    match chrono::DateTime::from_timestamp(secs, 0) {
        Some(t) => Some(t.format("%Y-%m-%d %H:%M:%S").to_string()),
        None => None,
    }
}

/// A time as shown to users; `?` for a time out of range.
pub open spec fn time_text_of(secs: i64) -> Seq<char> {
    match utc_text_of(secs as int) {
        Some(t) => t,
        None => "?"@,
    }
}

/// Formats a time given in seconds since the epoch, in UTC.
pub fn format_time(secs: i64) -> (r: String)
    ensures
        r@ == time_text_of(secs),
{
    match utc_text(secs) {
        Some(t) => t,
        None => "?".to_owned(),
    }
}

/// Bytes of a session id shown in listings.
pub const SHORT_ID_BYTES: usize = 8;

/// The first bytes of a session id, enough to tell sessions apart: the
/// longest prefix that fits in eight bytes of UTF-8.
pub fn short_session_id(session_id: &str) -> (r: &str)
    ensures
        r@ == prefix_within_bytes(session_id@, SHORT_ID_BYTES as nat),
{
    prefix_bytes(session_id, SHORT_ID_BYTES)
}

/// The listing entry of a session at 0-based position `index`.
pub open spec fn session_entry_text(index: nat, s: SessionInfo) -> Seq<char> {
    "**"@ + decimal(index + 1) + ". 会话 `"@ + prefix_within_bytes(s.id@, SHORT_ID_BYTES as nat)
        + "`**\n   问题: "@ + s.input_preview@ + "\n   时间: "@ + time_text_of(s.last_modified)
        + "\n   图片数: "@ + decimal(s.images as nat) + "\n"@
}

/// Formats one entry of a session listing.
pub fn format_session_info(index: usize, session: &SessionInfo) -> (r: String)
    requires
        index < usize::MAX,
    ensures
        r@ == session_entry_text(index as nat, *session),
{
    let mut r = "**".to_owned();
    r.append(decimal_text((index as u64) + 1).as_str());
    r.append(". 会话 `");
    r.append(short_session_id(session.id.as_str()));
    r.append("`**\n   问题: ");
    r.append(session.input_preview.as_str());
    r.append("\n   时间: ");
    r.append(format_time(session.last_modified).as_str());
    r.append("\n   图片数: ");
    r.append(decimal_text(session.images as u64).as_str());
    r.append("\n");
    r
}

/// A button press on a paged listing.
#[derive(Debug, Clone, Copy, PartialEq, Eq, Structural)]
pub enum PageAction {
    Prev,
    Next,
    Stay,
}

/// The page shown and what of the listing it covers.
#[derive(Debug, Clone, Copy, PartialEq, Eq, Structural)]
pub struct PageWindow {
    pub page: usize,
    pub total_pages: usize,
    pub start: usize,
    pub end: usize,
    pub prev_disabled: bool,
    pub next_disabled: bool,
}

/// Number of pages for `total` entries.
pub open spec fn pages_for(total: nat) -> nat {
    ((total + PER_PAGE - 1) / PER_PAGE as int) as nat
}

/// The page asked for: one back (not below the first), one on, or the same.
pub open spec fn requested_page(page: nat, action: PageAction) -> nat {
    match action {
        PageAction::Prev => if page > 0 {
            (page - 1) as nat
        } else {
            page
        },
        PageAction::Next => page + 1,
        PageAction::Stay => page,
    }
}

/// The window shown when `action` is pressed on page `page` of a listing of
/// `total` entries; a page past the end falls back to the last one.
pub open spec fn window_of(total: nat, page: nat, action: PageAction) -> PageWindow {
    let pages = pages_for(total);
    let asked = requested_page(page, action);
    let shown: nat = if asked >= pages {
        if pages == 0 {
            0
        } else {
            (pages - 1) as nat
        }
    } else {
        asked
    };
    let start = shown * PER_PAGE;
    let end: nat = if (shown + 1) * PER_PAGE < total {
        ((shown + 1) * PER_PAGE) as nat
    } else {
        total
    };
    PageWindow {
        page: shown as usize,
        total_pages: pages as usize,
        start: start as usize,
        end: end as usize,
        prev_disabled: shown == 0,
        next_disabled: shown + 1 >= pages,
    }
}

/// Computes the page window of a listing after a button press.
pub fn page_window(total: usize, page: usize, action: PageAction) -> (r: PageWindow)
    requires
        total <= usize::MAX - PER_PAGE,
    ensures
        r == window_of(total as nat, page as nat, action),
        r.start <= r.end <= total,
{
    let pages = (total + PER_PAGE - 1) / PER_PAGE;
    let asked: usize = match action {
        PageAction::Prev => if page > 0 {
            page - 1
        } else {
            page
        },
        PageAction::Next => if page < usize::MAX {
            page + 1
        } else {
            page
        },
        PageAction::Stay => page,
    };
    let ghost spec_asked = requested_page(page as nat, action);
    assert(asked < pages || spec_asked >= pages);
    let shown: usize = if asked >= pages {
        if pages == 0 {
            0
        } else {
            pages - 1
        }
    } else {
        asked
    };
    assert(shown * PER_PAGE <= total) by (nonlinear_arith)
        requires
            shown == 0 || shown < pages,
            pages == (total + PER_PAGE - 1) / PER_PAGE as int,
            PER_PAGE == 10,
    ;
    let start = shown * PER_PAGE;
    let end = if start + PER_PAGE < total {
        start + PER_PAGE
    } else {
        total
    };
    PageWindow {
        page: shown,
        total_pages: pages,
        start,
        end,
        prev_disabled: shown == 0,
        next_disabled: shown + 1 >= pages,
    }
}

/// Two string fields of a workflow-progress event, as read from its JSON text:
/// `status` and `name`. A field that is missing or not a string is `None`;
/// the whole is `None` when the text is not JSON.
pub uninterp spec fn node_status_of(data: Seq<char>) -> Option<(Option<Seq<char>>, Option<Seq<char>>)>;

/// The fields of a workflow-progress event that the status display reads.
pub struct NodeStatus {
    pub status: Option<String>,
    pub name: Option<String>,
}

/// Relies on `serde_json::from_str` to parse `data` as a JSON value, and on the
/// indexing of `serde_json::Value` with `Value::as_str` to read two fields.
#[verifier::external_body]
fn read_node_status(data: &str) -> (r: Option<NodeStatus>)
    ensures
        match r {
            Some(n) => node_status_of(data@) == Some((n.status.deep_view(), n.name.deep_view())),
            None => node_status_of(data@) is None,
        },
{
    let value: serde_json::Value = serde_json::from_str(data).ok()?;
    Some(NodeStatus {
        status: value["status"].as_str().map(String::from),
        name: value["name"].as_str().map(String::from),
    })
}

/// Mark of the workflow step under way.
pub open spec fn running_mark() -> Seq<char> {
    "🔄 丨"@
}

/// Mark of a finished workflow step.
pub open spec fn done_mark() -> Seq<char> {
    "✅ 丨"@
}

/// `s` with every leading running mark taken off.
pub open spec fn strip_running(s: Seq<char>) -> Seq<char>
    decreases s.len(),
{
    if running_mark().len() > 0 && has_prefix(s, running_mark()) {
        strip_running(s.subrange(running_mark().len() as int, s.len() as int))
    } else {
        s
    }
}

/// Status lines after step `name` starts: the step under way, if the last
/// line shows one, is marked finished, and the new step is added as running.
pub open spec fn advanced_status(lines: Seq<Seq<char>>, name: Seq<char>) -> Seq<Seq<char>> {
    let marked = if lines.len() > 0 && has_prefix(lines.last(), running_mark()) {
        lines.update(lines.len() - 1, done_mark() + strip_running(lines.last()))
    } else {
        lines
    };
    marked.push(running_mark() + name)
}

/// Whether an event reports step `name` as started.
pub open spec fn started_step(event: Seq<char>, data: Seq<char>) -> Option<Seq<char>> {
    if event == "flowNodeStatus"@ {
        match node_status_of(data) {
            Some((Some(status), Some(name))) => if status == "running"@ {
                Some(name)
            } else {
                None
            },
            _ => None,
        }
    } else {
        None
    }
}

fn strip_running_marks(s: &str) -> (r: String)
    ensures
        r@ == strip_running(s@),
{
    proof {
        reveal_strlit("🔄 丨");
    }
    let mark = "🔄 丨";
    let m = mark.unicode_len();
    let mut rest = s;
    while text_starts_with(rest, mark)
        invariant
            mark@ == running_mark(),
            m == running_mark().len(),
            m > 0,
            strip_running(rest@) == strip_running(s@),
        decreases rest@.len(),
    {
        rest = rest.substring_char(m, rest.unicode_len());
    }
    rest.to_owned()
}

/// Updates the status lines for one stream event; returns whether they changed.
pub fn on_progress_event(lines: &mut Vec<String>, event: &str, data: &str) -> (r: bool)
    ensures
        match started_step(event@, data@) {
            Some(name) => r && final(lines).deep_view() == advanced_status(old(lines).deep_view(), name),
            None => !r && final(lines)@ == old(lines)@,
        },
{
    if !text_eq(event, "flowNodeStatus") {
        return false;
    }
    let fields = match read_node_status(data) {
        Some(f) => f,
        None => return false,
    };
    let (status, name) = match (fields.status, fields.name) {
        (Some(s), Some(n)) => (s, n),
        _ => return false,
    };
    if !text_eq(status.as_str(), "running") {
        return false;
    }
    let ghost before = lines.deep_view();
    let n = lines.len();
    if n > 0 && text_starts_with(lines[n - 1].as_str(), "🔄 丨") {
        let mut marked = "✅ 丨".to_owned();
        marked.append(strip_running_marks(lines[n - 1].as_str()).as_str());
        lines.set(n - 1, marked);
    }
    assert(lines.deep_view() =~= if before.len() > 0 && has_prefix(before.last(), running_mark()) {
        before.update(before.len() - 1, done_mark() + strip_running(before.last()))
    } else {
        before
    });
    let mut added = "🔄 丨".to_owned();
    added.append(name.as_str());
    lines.push(added);
    assert(lines.deep_view() =~= advanced_status(before, name@));
    true
}

/// Lines joined with line feeds, as one text.
pub open spec fn joined_lines(lines: Seq<Seq<char>>) -> Seq<char>
    decreases lines.len(),
{
    if lines.len() == 0 {
        Seq::empty()
    } else if lines.len() == 1 {
        lines[0]
    } else {
        joined_lines(lines.drop_last()) + "\n"@ + lines.last()
    }
}

/// Joins lines with line feeds.
pub fn join_lines(lines: &Vec<String>) -> (r: String)
    ensures
        r@ == joined_lines(lines.deep_view()),
{
    let mut r = String::new();
    let mut i: usize = 0;
    while i < lines.len()
        invariant
            i <= lines@.len(),
            r@ == joined_lines(lines.deep_view().subrange(0, i as int)),
        decreases lines@.len() - i,
    {
        let ghost prefix = lines.deep_view().subrange(0, i + 1);
        assert(prefix.drop_last() =~= lines.deep_view().subrange(0, i as int));
        if i > 0 {
            r.append("\n");
        }
        r.append(lines[i].as_str());
        i = i + 1;
    }
    assert(lines.deep_view().subrange(0, lines@.len() as int) =~= lines.deep_view());
    r
}

/// The paged listings whose buttons carry their state in their ids.
#[derive(Debug, Clone, Copy, PartialEq, Eq, Structural)]
pub enum Listing {
    History,
    Stats,
}

/// What a paging button id says: `<listing>_<user>_<page>_<action>`.
pub struct PageButton {
    pub listing: Listing,
    pub user_id: String,
    pub page: usize,
    pub action: PageAction,
}

pub open spec fn listing_tag(l: Listing) -> Seq<char> {
    match l {
        Listing::History => "history"@,
        Listing::Stats => "stats"@,
    }
}

pub open spec fn action_tag(a: PageAction) -> Seq<char> {
    match a {
        PageAction::Prev => "prev"@,
        PageAction::Next => "next"@,
        PageAction::Stay => "stay"@,
    }
}

/// The id of a paging button.
pub open spec fn button_id_of(listing: Listing, user_id: Seq<char>, page: nat, action: PageAction) -> Seq<char> {
    listing_tag(listing) + "_"@ + user_id + "_"@ + decimal(page) + "_"@ + action_tag(action)
}

/// Builds the id of a paging button.
pub fn button_id(listing: Listing, user_id: &str, page: usize, action: PageAction) -> (r: String)
    ensures
        r@ == button_id_of(listing, user_id@, page as nat, action),
{
    let mut r = match listing {
        Listing::History => "history".to_owned(),
        Listing::Stats => "stats".to_owned(),
    };
    r.append("_");
    r.append(user_id);
    r.append("_");
    r.append(decimal_text(page as u64).as_str());
    r.append("_");
    r.append(
        match action {
            PageAction::Prev => "prev",
            PageAction::Next => "next",
            PageAction::Stay => "stay",
        },
    );
    r
}

/// The page written in a button id; an unreadable page counts as the first.
pub open spec fn page_of(t: Seq<char>) -> nat {
    match decimal_value(t) {
        Some(v) => if v <= usize::MAX {
            v
        } else {
            0
        },
        None => 0,
    }
}

/// The action written in a button id; anything but `prev` and `next` stays.
pub open spec fn action_of(t: Seq<char>) -> PageAction {
    if t == "prev"@ {
        PageAction::Prev
    } else if t == "next"@ {
        PageAction::Next
    } else {
        PageAction::Stay
    }
}

/// The listing a button id belongs to, by its prefix.
pub open spec fn listing_of(id: Seq<char>) -> Option<Listing> {
    if has_prefix(id, "history_"@) {
        Some(Listing::History)
    } else if has_prefix(id, "stats_"@) {
        Some(Listing::Stats)
    } else {
        None
    }
}

/// Reads a paging button id; `None` for any other component id.
pub fn parse_page_button(custom_id: &str) -> (r: Option<PageButton>)
    ensures
        ({
            let parts = split_on(custom_id@, '_');
            match (listing_of(custom_id@), parts.len() == 4) {
                (Some(l), true) => r matches Some(b) && b.listing == l && b.user_id@ == parts[1]
                    && b.page as nat == page_of(parts[2]) && b.action == action_of(parts[3]),
                _ => r is None,
            }
        }),
{
    let listing = if text_starts_with(custom_id, "history_") {
        Listing::History
    } else if text_starts_with(custom_id, "stats_") {
        Listing::Stats
    } else {
        return None;
    };
    let parts = split_text(custom_id, '_');
    if parts.len() != 4 {
        return None;
    }
    let page = match parse_u64(parts[2].as_str()) {
        Some(v) => if v <= usize::MAX as u64 {
            v as usize
        } else {
            0
        },
        None => 0,
    };
    let action = if text_eq(parts[3].as_str(), "prev") {
        PageAction::Prev
    } else if text_eq(parts[3].as_str(), "next") {
        PageAction::Next
    } else {
        PageAction::Stay
    };
    Some(PageButton { listing, user_id: parts[1].clone(), page, action })
}

/// Characters an embed field may hold.
pub const FIELD_CHARS: usize = 1024;

/// A field text cut to fit an embed: longer texts keep their first 1021
/// characters and end with an ellipsis.
pub open spec fn clipped_field(t: Seq<char>) -> Seq<char> {
    if t.len() > FIELD_CHARS {
        t.subrange(0, FIELD_CHARS - 3) + "..."@
    } else {
        t
    }
}

/// Cuts a field text to fit an embed.
pub fn clip_field(text: &str) -> (r: String)
    ensures
        r@ == clipped_field(text@),
{
    if text.unicode_len() > FIELD_CHARS {
        let mut r = text.substring_char(0, FIELD_CHARS - 3).to_owned();
        r.append("...");
        r
    } else {
        text.to_owned()
    }
}

/// Total of the image counts of a listing.
pub open spec fn images_total(s: Seq<SessionInfo>) -> nat
    decreases s.len(),
{
    if s.len() == 0 {
        0
    } else {
        images_total(s.drop_last()) + s.last().images as nat
    }
}

/// `n`, or `u64::MAX` when it does not fit.
pub open spec fn clamp_u64(n: nat) -> u64 {
    if n > u64::MAX {
        u64::MAX
    } else {
        n as u64
    }
}

/// Adds up the images of the sessions listed, saturating at `u64::MAX`.
pub fn total_images(sessions: &Vec<SessionInfo>) -> (r: u64)
    ensures
        r == clamp_u64(images_total(sessions@)),
{
    let mut total: u64 = 0;
    let mut i: usize = 0;
    while i < sessions.len()
        invariant
            i <= sessions@.len(),
            total == clamp_u64(images_total(sessions@.subrange(0, i as int))),
        decreases sessions@.len() - i,
    {
        assert(sessions@.subrange(0, i + 1).drop_last() =~= sessions@.subrange(0, i as int));
        let add = sessions[i].images as u64;
        if total > u64::MAX - add {
            total = u64::MAX;
        } else {
            total = total + add;
        }
        i = i + 1;
    }
    assert(sessions@.subrange(0, sessions@.len() as int) =~= sessions@);
    total
}

} // verus!
