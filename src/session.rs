//! Per-interaction session storage: where each artifact of a session lives,
//! how sessions are summarised for their owner, and which image files the
//! cleanup sweep removes.
//!
//! Reading and writing files is left to the caller: it hands over what it
//! found on disk as plain values and carries out the plans made here.
use vstd::prelude::*;
use vstd::seq_lib::*;
use vstd::string::*;
use crate::config::Config;
use crate::paths::{join_path, path_join};
use crate::text::{
    decimal, decimal_text, has_prefix, has_suffix, is_white_space, lemma_trimmed_unchanged, prefix_chars,
    text_ends_with, text_eq, trim_text, trimmed,
};

verus! {

broadcast use {to_multiset_build, to_multiset_insert, to_multiset_len, to_multiset_contains};

/// Characters of the saved question shown in a session summary.
pub const PREVIEW_CHARS: usize = 30;

/// Seconds in a day.
pub const SECONDS_PER_DAY: u64 = 86400;

pub open spec fn owner_file_name() -> Seq<char> {
    "user_id.txt"@
}

pub open spec fn input_file_name() -> Seq<char> {
    "input.txt"@
}

pub open spec fn response_file_name() -> Seq<char> {
    "response.md"@
}

pub open spec fn user_images_file_name() -> Seq<char> {
    "image_urls.txt"@
}

pub open spec fn cleaned_marker_name() -> Seq<char> {
    ".cleaned"@
}

/// Preview shown when the saved question cannot be read.
pub open spec fn unreadable_preview() -> Seq<char> {
    "无法读取输入"@
}

/// A lower-case hexadecimal digit.
pub open spec fn is_hex_digit(c: char) -> bool {
    ('0' <= c && c <= '9') || ('a' <= c && c <= 'f')
}

/// The hyphenated form of a UUID: 32 lower-case hex digits in groups of
/// 8-4-4-4-12.
pub open spec fn is_session_id(s: Seq<char>) -> bool {
    &&& s.len() == 36
    &&& forall|i: int|
        0 <= i < 36 ==> if i == 8 || i == 13 || i == 18 || i == 23 {
            s[i] == '-'
        } else {
            is_hex_digit(#[trigger] s[i])
        }
}

/// Relies on `uuid::Uuid::new_v4` for a random version-4 UUID and on its
/// `Display`, which writes the lower-case hyphenated form.
#[verifier::external_body]
fn random_session_id() -> (r: String)
    ensures
        is_session_id(r@),
{
    uuid::Uuid::new_v4().to_string()
}

/// File names the sweep treats as images: extension `png`, `jpg` or `jpeg`,
/// after a non-empty stem.
pub open spec fn is_image_name(n: Seq<char>) -> bool {
    ||| (has_suffix(n, ".png"@) && n.len() > 4)
    ||| (has_suffix(n, ".jpg"@) && n.len() > 4)
    ||| (has_suffix(n, ".jpeg"@) && n.len() > 5)
}

/// Whether a file name is that of an image.
pub fn is_image_file_name(name: &str) -> (r: bool)
    ensures
        r == is_image_name(name@),
{
    proof {
        reveal_strlit(".png");
        reveal_strlit(".jpg");
        reveal_strlit(".jpeg");
    }
    let n = name.unicode_len();
    (text_ends_with(name, ".png") && n > 4) || (text_ends_with(name, ".jpg") && n > 4) || (
    text_ends_with(name, ".jpeg") && n > 5)
}

/// The image names among `names`, in order.
pub open spec fn images_among(names: Seq<Seq<char>>) -> Seq<Seq<char>>
    decreases names.len(),
{
    if names.len() == 0 {
        Seq::empty()
    } else {
        let rest = images_among(names.drop_last());
        if is_image_name(names.last()) {
            rest.push(names.last())
        } else {
            rest
        }
    }
}

/// The names among `names` that are not images, in order.
pub open spec fn non_images_among(names: Seq<Seq<char>>) -> Seq<Seq<char>>
    decreases names.len(),
{
    if names.len() == 0 {
        Seq::empty()
    } else {
        let rest = non_images_among(names.drop_last());
        if is_image_name(names.last()) {
            rest
        } else {
            rest.push(names.last())
        }
    }
}

/// The files of a session directory that the sweep deletes: its images.
pub fn image_files(names: &Vec<String>) -> (r: Vec<String>)
    ensures
        r.deep_view() == images_among(names.deep_view()),
{
    let mut r: Vec<String> = Vec::new();
    let mut i: usize = 0;
    while i < names.len()
        invariant
            i <= names@.len(),
            r.deep_view() == images_among(names.deep_view().subrange(0, i as int)),
        decreases names@.len() - i,
    {
        let ghost prefix = names.deep_view().subrange(0, i + 1);
        assert(prefix.drop_last() =~= names.deep_view().subrange(0, i as int));
        if is_image_file_name(names[i].as_str()) {
            r.push(names[i].clone());
            assert(r.deep_view() =~= images_among(prefix));
        }
        i = i + 1;
    }
    assert(names.deep_view().subrange(0, names@.len() as int) =~= names.deep_view());
    r
}

/// File names a session summary counts as images: any name ending in
/// `.png`, `.jpg` or `.jpeg`, a bare `.png` included.
pub open spec fn has_image_suffix(n: Seq<char>) -> bool {
    has_suffix(n, ".png"@) || has_suffix(n, ".jpg"@) || has_suffix(n, ".jpeg"@)
}

/// Number of names among `names` that a summary counts as images.
pub open spec fn image_count(names: Seq<Seq<char>>) -> nat
    decreases names.len(),
{
    if names.len() == 0 {
        0
    } else {
        image_count(names.drop_last()) + if has_image_suffix(names.last()) {
            1nat
        } else {
            0nat
        }
    }
}

/// Whether a summary counts a file name as an image.
pub fn has_image_file_suffix(name: &str) -> (r: bool)
    ensures
        r == has_image_suffix(name@),
{
    text_ends_with(name, ".png") || text_ends_with(name, ".jpg") || text_ends_with(name, ".jpeg")
}

/// Counts the images among a session's file names, by suffix, saturating at
/// `u32::MAX`.
pub fn count_images(names: &Vec<String>) -> (r: u32)
    ensures
        r == clamp_u32(image_count(names.deep_view())),
{
    let mut n: u32 = 0;
    let mut i: usize = 0;
    while i < names.len()
        invariant
            i <= names@.len(),
            n == clamp_u32(image_count(names.deep_view().subrange(0, i as int))),
        decreases names@.len() - i,
    {
        let ghost prefix = names.deep_view().subrange(0, i + 1);
        assert(prefix.drop_last() =~= names.deep_view().subrange(0, i as int));
        if has_image_file_suffix(names[i].as_str()) && n < u32::MAX {
            n = n + 1;
        }
        i = i + 1;
    }
    assert(names.deep_view().subrange(0, names@.len() as int) =~= names.deep_view());
    n
}

/// `n`, or `u32::MAX` when it does not fit.
pub open spec fn clamp_u32(n: nat) -> u32 {
    if n > u32::MAX {
        u32::MAX
    } else {
        n as u32
    }
}

/// Whether a session is due for cleanup: it has no owner sentinel, or its
/// directory is older than `expiry_days` whole days.
pub open spec fn due_for_cleanup(has_owner: bool, age_secs: Option<u64>, expiry_days: u64) -> bool {
    ||| !has_owner
    ||| (age_secs matches Some(a) && a > expiry_days * SECONDS_PER_DAY)
}

/// Decides whether a session's images are purged. `age_secs` is the age of
/// its directory, `None` when it is unknown.
pub fn needs_cleanup(has_owner: bool, age_secs: Option<u64>, expiry_days: u64) -> (r: bool)
    ensures
        r == due_for_cleanup(has_owner, age_secs, expiry_days),
{
    if !has_owner {
        return true;
    }
    match age_secs {
        Some(age) => (age as u128) > (expiry_days as u128) * (SECONDS_PER_DAY as u128),
        None => false,
    }
}

/// Text of the marker left in a cleaned session.
pub open spec fn cleaned_marker_text_of(timestamp: Seq<char>) -> Seq<char> {
    "图片已于 "@ + timestamp + " 清理"@
}

/// The marker text recording when a session's images were purged.
pub fn cleaned_marker_text(timestamp: &str) -> (r: String)
    ensures
        r@ == cleaned_marker_text_of(timestamp@),
{
    let mut r = "图片已于 ".to_owned();
    r.append(timestamp);
    r.append(" 清理");
    r
}

/// The preview of a saved question: its first characters, with an ellipsis
/// when it is longer.
pub open spec fn preview_of(input: Option<Seq<char>>) -> Seq<char> {
    match input {
        None => unreadable_preview(),
        Some(c) => if c.len() > PREVIEW_CHARS {
            c.subrange(0, PREVIEW_CHARS as int) + "..."@
        } else {
            c
        },
    }
}

/// Builds the preview of a saved question, `None` when it could not be read.
pub fn input_preview(input: &Option<String>) -> (r: String)
    ensures
        r@ == preview_of(input.deep_view()),
{
    match input {
        None => "无法读取输入".to_owned(),
        Some(c) => {
            if c.as_str().unicode_len() > PREVIEW_CHARS {
                let mut r = c.as_str().substring_char(0, PREVIEW_CHARS).to_owned();
                r.append("...");
                r
            } else {
                c.clone()
            }
        },
    }
}

/// Summary of one session, newest first in listings.
#[derive(Debug, Clone)]
pub struct SessionInfo {
    pub id: String,
    pub input_preview: String,
    /// Modification time of the session directory, in seconds since the epoch.
    pub last_modified: i64,
    pub images: u32,
}

pub struct SessionSummary {
    pub id: Seq<char>,
    pub input_preview: Seq<char>,
    pub last_modified: i64,
    pub images: u32,
}

impl View for SessionInfo {
    type V = SessionSummary;

    open spec fn view(&self) -> SessionSummary {
        SessionSummary {
            id: self.id@,
            input_preview: self.input_preview@,
            last_modified: self.last_modified,
            images: self.images,
        }
    }
}

/// What the caller found on disk for one session directory.
pub struct SessionRecord {
    /// The directory's name.
    pub id: String,
    /// Contents of the owner sentinel, `None` when it could not be read.
    pub owner: Option<String>,
    /// Contents of the saved question, `None` when it could not be read.
    pub input: Option<String>,
    /// Modification time of the directory in seconds, when known.
    pub modified: Option<i64>,
    /// Names of the plain files in the directory.
    pub file_names: Vec<String>,
}

pub struct RecordView {
    pub id: Seq<char>,
    pub owner: Option<Seq<char>>,
    pub input: Option<Seq<char>>,
    pub modified: Option<i64>,
    pub files: Seq<Seq<char>>,
}

impl View for SessionRecord {
    type V = RecordView;

    open spec fn view(&self) -> RecordView {
        RecordView {
            id: self.id@,
            owner: self.owner.deep_view(),
            input: self.input.deep_view(),
            modified: self.modified,
            files: self.file_names.deep_view(),
        }
    }
}

/// Whether the session belongs to `user`: its sentinel, trimmed, is the id.
pub open spec fn owned_by(r: RecordView, user: Seq<char>) -> bool {
    r.owner matches Some(o) && trimmed(o) == user
}

/// Summary of a session; a directory whose time is unknown counts as `now`.
pub open spec fn summary_of(r: RecordView, now: i64) -> SessionSummary {
    SessionSummary {
        id: r.id,
        input_preview: preview_of(r.input),
        last_modified: match r.modified {
            Some(t) => t,
            None => now,
        },
        images: clamp_u32(image_count(r.files)),
    }
}

/// Summaries of the sessions of `user` among `records`, in their order.
pub open spec fn owned_summaries(records: Seq<RecordView>, user: Seq<char>, now: i64) -> Seq<
    SessionSummary,
>
    decreases records.len(),
{
    if records.len() == 0 {
        Seq::empty()
    } else {
        let rest = owned_summaries(records.drop_last(), user, now);
        if owned_by(records.last(), user) {
            rest.push(summary_of(records.last(), now))
        } else {
            rest
        }
    }
}

/// Newest first: modification times never increase along the sequence.
pub open spec fn newest_first(s: Seq<SessionSummary>) -> bool {
    forall|i: int, j: int|
        0 <= i < j < s.len() ==> #[trigger] s[i].last_modified >= #[trigger] s[j].last_modified
}

pub open spec fn summaries(s: Seq<SessionInfo>) -> Seq<SessionSummary> {
    s.map_values(|x: SessionInfo| x@)
}

pub open spec fn record_views(s: Seq<SessionRecord>) -> Seq<RecordView> {
    s.map_values(|x: SessionRecord| x@)
}

/// Whether a session's sentinel names `user_id`.
pub fn is_owned_by(owner: &Option<String>, user_id: &str) -> (r: bool)
    ensures
        r == (owner.deep_view() matches Some(o) && trimmed(o) == user_id@),
{
    match owner {
        Some(o) => text_eq(trim_text(o.as_str()), user_id),
        None => false,
    }
}

/// Summarises one session directory.
pub fn summarize(record: &SessionRecord, now: i64) -> (r: SessionInfo)
    ensures
        r@ == summary_of(record@, now),
{
    let last_modified = match record.modified {
        Some(t) => t,
        None => now,
    };
    SessionInfo {
        id: record.id.clone(),
        input_preview: input_preview(&record.input),
        last_modified,
        images: count_images(&record.file_names),
    }
}

/// Puts `info` into `list`, keeping the newest first.
fn insert_newest_first(list: &mut Vec<SessionInfo>, info: SessionInfo)
    requires
        newest_first(summaries(old(list)@)),
    ensures
        newest_first(summaries(final(list)@)),
        summaries(final(list)@).to_multiset() == summaries(old(list)@).to_multiset().insert(info@),
{
    let mut p: usize = 0;
    while p < list.len() && list[p].last_modified >= info.last_modified
        invariant
            p <= list@.len(),
            forall|k: int| 0 <= k < p ==> list@[k].last_modified >= info.last_modified,
        decreases list@.len() - p,
    {
        p = p + 1;
    }
    let ghost before = summaries(list@);
    assert(forall|k: int| p <= k < list@.len() ==> list@[k].last_modified < info.last_modified)
        by {
        if p < list@.len() {
            assert forall|k: int| p <= k < list@.len() implies list@[k].last_modified
                < info.last_modified by {
                if k > p {
                    assert(before[p as int].last_modified >= before[k].last_modified);
                }
            }
        }
    }
    let ghost v = info@;
    list.insert(p, info);
    assert(summaries(list@) =~= before.insert(p as int, v));
}

/// The sessions of `user_id` among the directories read from disk, newest
/// first. `now` stands in for a directory whose time could not be read.
pub fn select_user_sessions(records: &Vec<SessionRecord>, user_id: &str, now: i64) -> (r: Vec<
    SessionInfo,
>)
    ensures
        newest_first(summaries(r@)),
        summaries(r@).to_multiset() == owned_summaries(
            record_views(records@),
            user_id@,
            now,
        ).to_multiset(),
{
    let mut list: Vec<SessionInfo> = Vec::new();
    let mut i: usize = 0;
    assert(summaries(list@) =~= Seq::<SessionSummary>::empty());
    assert(record_views(records@).subrange(0, 0) =~= Seq::<RecordView>::empty());
    while i < records.len()
        invariant
            i <= records@.len(),
            newest_first(summaries(list@)),
            summaries(list@).to_multiset() == owned_summaries(
                record_views(records@).subrange(0, i as int),
                user_id@,
                now,
            ).to_multiset(),
        decreases records@.len() - i,
    {
        let ghost prefix = record_views(records@).subrange(0, i + 1);
        assert(prefix.drop_last() =~= record_views(records@).subrange(0, i as int));
        assert(prefix.last() == records@[i as int]@);
        let record = &records[i];
        if is_owned_by(&record.owner, user_id) {
            let info = summarize(record, now);
            insert_newest_first(&mut list, info);
        }
        i = i + 1;
    }
    assert(record_views(records@).subrange(0, records@.len() as int) =~= record_views(records@));
    list
}

/// A store holding one session, whose sentinel names `user` (an id without
/// white space at either end) and whose saved question is `question`, lists
/// exactly that session for `user`; its preview starts with the question, or
/// with its first characters when the question is long.
pub proof fn lemma_single_session_listed(
    r: RecordView,
    user: Seq<char>,
    question: Seq<char>,
    now: i64,
    listed: Seq<SessionSummary>,
)
    requires
        r.owner == Some(user),
        user.len() == 0 || (!is_white_space(user[0]) && !is_white_space(user.last())),
        r.input == Some(question),
        listed.to_multiset() == owned_summaries(seq![r], user, now).to_multiset(),
    ensures
        listed.len() == 1,
        listed[0] == summary_of(r, now),
        listed[0].id == r.id,
        has_prefix(listed[0].input_preview, prefix_chars(question, PREVIEW_CHARS as nat)),
{
    lemma_trimmed_unchanged(user);
    let one = seq![r];
    assert(one.drop_last() =~= Seq::<RecordView>::empty());
    let expected = seq![summary_of(r, now)];
    assert(one.last() == r);
    assert(owned_by(r, user));
    assert(owned_summaries(one.drop_last(), user, now) =~= Seq::<SessionSummary>::empty());
    assert(owned_summaries(one, user, now) =~= expected);
    to_multiset_len(listed);
    to_multiset_len(expected);
    assert(listed.len() == expected.len());
    assert(listed.contains(listed[0]));
    to_multiset_contains(listed, listed[0]);
    to_multiset_contains(expected, listed[0]);
    assert(expected.contains(listed[0]));
    let p = preview_of(Some(question));
    if question.len() > PREVIEW_CHARS {
        assert(p.subrange(0, PREVIEW_CHARS as int) =~= question.subrange(0, PREVIEW_CHARS as int));
    } else {
        assert(p.subrange(0, question.len() as int) =~= question);
    }
}

/// Locations of the session store, rooted at `<data_dir>/sessions`.
#[derive(Debug, Clone)]
pub struct SessionManager {
    sessions_dir: String,
}

impl View for SessionManager {
    type V = Seq<char>;

    closed spec fn view(&self) -> Seq<char> {
        self.sessions_dir@
    }
}

/// Paths of a session that was just allotted.
pub struct NewSession {
    pub id: String,
    pub dir: String,
    pub owner_file: String,
}

impl SessionManager {
    /// The store under the configured data directory.
    pub fn new(config: &Config) -> (r: SessionManager)
        ensures
            r@ == path_join(config.data_dir@, "sessions"@),
    {
        SessionManager { sessions_dir: join_path(config.data_dir.as_str(), "sessions") }
    }

    /// The directory that holds every session.
    pub fn sessions_dir(&self) -> (r: &str)
        ensures
            r@ == self@,
    {
        self.sessions_dir.as_str()
    }

    /// The directory of one session.
    pub fn get_session_dir(&self, session_id: &str) -> (r: String)
        ensures
            r@ == path_join(self@, session_id@),
    {
        join_path(self.sessions_dir.as_str(), session_id)
    }

    /// A file of one session.
    pub fn session_file(&self, session_id: &str, name: &str) -> (r: String)
        ensures
            r@ == path_join(path_join(self@, session_id@), name@),
    {
        let dir = self.get_session_dir(session_id);
        join_path(dir.as_str(), name)
    }

    /// Where the owner of a session is recorded.
    pub fn owner_file(&self, session_id: &str) -> (r: String)
        ensures
            r@ == path_join(path_join(self@, session_id@), owner_file_name()),
    {
        self.session_file(session_id, "user_id.txt")
    }

    /// Where the question of a session is saved.
    pub fn input_file(&self, session_id: &str) -> (r: String)
        ensures
            r@ == path_join(path_join(self@, session_id@), input_file_name()),
    {
        self.session_file(session_id, "input.txt")
    }

    /// Where the answer of a session is saved, as markdown.
    pub fn response_file(&self, session_id: &str) -> (r: String)
        ensures
            r@ == path_join(path_join(self@, session_id@), response_file_name()),
    {
        self.session_file(session_id, "response.md")
    }

    /// Where the image links a user supplied are saved.
    pub fn user_images_file(&self, session_id: &str) -> (r: String)
        ensures
            r@ == path_join(path_join(self@, session_id@), user_images_file_name()),
    {
        self.session_file(session_id, "image_urls.txt")
    }

    /// Where the cleanup marker of a session goes.
    pub fn cleaned_marker(&self, session_id: &str) -> (r: String)
        ensures
            r@ == path_join(path_join(self@, session_id@), cleaned_marker_name()),
    {
        self.session_file(session_id, ".cleaned")
    }

    /// Where a rendered answer copied at `secs` (seconds since the epoch) goes:
    /// `response_<secs>.png` in the session directory.
    pub fn response_image_path(&self, session_id: &str, secs: u64) -> (r: String)
        ensures
            r@ == path_join(
                path_join(self@, session_id@),
                "response_"@ + decimal(secs as nat) + ".png"@,
            ),
    {
        let mut name = "response_".to_owned();
        let digits = decimal_text(secs);
        name.append(digits.as_str());
        name.append(".png");
        self.session_file(session_id, name.as_str())
    }

    /// Allots a new session: a fresh random id, its directory and the file
    /// that will record its owner.
    pub fn allot_session(&self) -> (r: NewSession)
        ensures
            is_session_id(r.id@),
            r.dir@ == path_join(self@, r.id@),
            r.owner_file@ == path_join(path_join(self@, r.id@), owner_file_name()),
    {
        let id = random_session_id();
        let dir = self.get_session_dir(id.as_str());
        let owner_file = self.owner_file(id.as_str());
        NewSession { id, dir, owner_file }
    }
}

proof fn lemma_push_contains<A>(s: Seq<A>, x: A, n: A)
    ensures
        s.push(x).contains(n) <==> (s.contains(n) || n == x),
{
    if s.push(x).contains(n) {
        let k = choose|k: int| 0 <= k < s.len() + 1 && s.push(x)[k] == n;
        if k < s.len() {
            assert(s[k] == n);
        }
    }
    if s.contains(n) {
        let k = choose|k: int| 0 <= k < s.len() && s[k] == n;
        assert(s.push(x)[k] == n);
    }
    if n == x {
        assert(s.push(x)[s.len() as int] == n);
    }
}

proof fn lemma_images_among_members(names: Seq<Seq<char>>)
    ensures
        forall|n: Seq<char>|
            #![trigger images_among(names).contains(n)]
            #![trigger names.contains(n)]
            images_among(names).contains(n) <==> (names.contains(n) && is_image_name(n)),
        forall|n: Seq<char>|
            #![trigger non_images_among(names).contains(n)]
            #![trigger names.contains(n)]
            non_images_among(names).contains(n) <==> (names.contains(n) && !is_image_name(n)),
    decreases names.len(),
{
    if names.len() > 0 {
        let init = names.drop_last();
        let last = names.last();
        lemma_images_among_members(init);
        assert(names =~= init.push(last));
        assert forall|n: Seq<char>|
            #![trigger images_among(names).contains(n)]
            #![trigger names.contains(n)]
            images_among(names).contains(n) <==> (names.contains(n) && is_image_name(n)) by {
            lemma_push_contains(init, last, n);
            lemma_push_contains(images_among(init), last, n);
            assert(images_among(init).contains(n) <==> (init.contains(n) && is_image_name(n)));
            assert(images_among(names) == if is_image_name(last) {
                images_among(init).push(last)
            } else {
                images_among(init)
            });
        }
        assert forall|n: Seq<char>|
            #![trigger non_images_among(names).contains(n)]
            #![trigger names.contains(n)]
            non_images_among(names).contains(n) <==> (names.contains(n) && !is_image_name(n)) by {
            lemma_push_contains(init, last, n);
            lemma_push_contains(non_images_among(init), last, n);
            assert(non_images_among(init).contains(n) <==> (init.contains(n) && !is_image_name(n)));
            assert(non_images_among(names) == if is_image_name(last) {
                non_images_among(init)
            } else {
                non_images_among(init).push(last)
            });
        }
    } else {
        assert(images_among(names) =~= Seq::<Seq<char>>::empty());
        assert(non_images_among(names) =~= Seq::<Seq<char>>::empty());
        assert forall|n: Seq<char>|
            !names.contains(n) && !images_among(names).contains(n) && !non_images_among(
                names,
            ).contains(n) by {}
    }
}

proof fn lemma_no_image_left(names: Seq<Seq<char>>)
    ensures
        images_among(non_images_among(names)).len() == 0,
{
    lemma_images_among_members(names);
    lemma_images_among_members(non_images_among(names));
    let left = images_among(non_images_among(names));
    if left.len() > 0 {
        assert(left.contains(left[0]));
    }
}

/// The sweep deletes exactly the images of a directory. The saved question,
/// the saved answer, the owner sentinel and the marker are never among them,
/// and a second sweep over what is left finds nothing more to delete.
pub proof fn lemma_sweep_spares_text_and_repeats_as_no_op(names: Seq<Seq<char>>)
    ensures
        forall|n: Seq<char>|
            #[trigger] images_among(names).contains(n) <==> (names.contains(n) && is_image_name(n)),
        !is_image_name(input_file_name()),
        !is_image_name(response_file_name()),
        !is_image_name(owner_file_name()),
        !is_image_name(cleaned_marker_name()),
        images_among(non_images_among(names)).len() == 0,
{
    lemma_images_among_members(names);
    lemma_no_image_left(names);
    reveal_strlit("input.txt");
    reveal_strlit("response.md");
    reveal_strlit("user_id.txt");
    reveal_strlit(".cleaned");
    reveal_strlit(".png");
    reveal_strlit(".jpg");
    reveal_strlit(".jpeg");
    assert(input_file_name().subrange(5, 9)[1] != ".png"@[1]);
    assert(input_file_name().subrange(5, 9)[1] != ".jpg"@[1]);
    assert(input_file_name().subrange(4, 9)[1] != ".jpeg"@[1]);
    assert(response_file_name().subrange(7, 11)[1] != ".png"@[1]);
    assert(response_file_name().subrange(7, 11)[1] != ".jpg"@[1]);
    assert(response_file_name().subrange(6, 11)[1] != ".jpeg"@[1]);
    assert(owner_file_name().subrange(7, 11)[1] != ".png"@[1]);
    assert(owner_file_name().subrange(7, 11)[1] != ".jpg"@[1]);
    assert(owner_file_name().subrange(6, 11)[1] != ".jpeg"@[1]);
    assert(cleaned_marker_name().subrange(4, 8)[1] != ".png"@[1]);
    assert(cleaned_marker_name().subrange(4, 8)[1] != ".jpg"@[1]);
    assert(cleaned_marker_name().subrange(3, 8)[1] != ".jpeg"@[1]);
}

/// A session with an owner is due once its directory is older than the
/// expiry: three days against an expiry of two, for one.
pub proof fn lemma_expired_session_is_due(age_secs: u64, expiry_days: u64)
    requires
        age_secs > expiry_days * SECONDS_PER_DAY,
    ensures
        due_for_cleanup(true, Some(age_secs), expiry_days),
{
}

/// A session without an owner sentinel is due whatever its age.
pub proof fn lemma_orphan_is_due(age_secs: Option<u64>, expiry_days: u64)
    ensures
        due_for_cleanup(false, age_secs, expiry_days),
{
}

/// The text saved for the image links of a question: one link per line.
pub open spec fn image_links_text_of(urls: Seq<Seq<char>>) -> Seq<char>
    decreases urls.len(),
{
    if urls.len() == 0 {
        Seq::empty()
    } else {
        image_links_text_of(urls.drop_last()) + urls.last() + "\n"@
    }
}

/// Lays out image links for saving, one per line.
pub fn image_links_text(urls: &Vec<String>) -> (r: String)
    ensures
        r@ == image_links_text_of(urls.deep_view()),
{
    let mut r = String::new();
    let mut i: usize = 0;
    while i < urls.len()
        invariant
            i <= urls@.len(),
            r@ == image_links_text_of(urls.deep_view().subrange(0, i as int)),
        decreases urls@.len() - i,
    {
        let ghost prefix = urls.deep_view().subrange(0, i + 1);
        assert(prefix.drop_last() =~= urls.deep_view().subrange(0, i as int));
        r.append(urls[i].as_str());
        r.append("\n");
        i = i + 1;
    }
    assert(urls.deep_view().subrange(0, urls@.len() as int) =~= urls.deep_view());
    r
}

} // verus!
