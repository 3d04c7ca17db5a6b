//! Looking for new versions.
//!
//! The tags of the image come from Docker Hub, the notes of the newest version
//! from GitHub. The requests are made elsewhere; here it is decided what is
//! asked for and what the answers mean.

use vstd::prelude::*;

use crate::admin::error::{AdminServiceError, ErrorView};
use crate::admin::images::{
    an_owner_and_a_name_are_an_image, blanks_make_no_version_newer, comes_before,
    dockerhub_owner_repo, dotted, dotted_numbers_are_a_version, is_older, is_plain_char,
    is_semver_tag, is_version_tag, outer_whitespace_is_ignored, owner_repo, version,
    versions_are_ordered,
};
use crate::admin::schedule::should_apply;
use crate::admin::service::AdminService;
use crate::admin::types::UpdateCheckInfo;
use crate::clock::{rfc3339, utc_now, Timestamp};
use crate::text::{
    chars_of, is_whitespace, keep_non_empty, non_empty, string_of, strip_leading_char, strip_leading_char_chars,
    take_chars, trim, trim_chars, trimmed, view_opt,
};

verus! {

/// How many seconds the result of a look for updates is used for.
pub const UPDATE_CHECK_TTL_SECS: i64 = 1800;

/// What a look for updates has found, and when.
#[derive(Debug)]
pub struct CachedUpdateCheck {
    /// When it was found.
    pub cached_at: Timestamp,
    /// What was found.
    pub info: UpdateCheckInfo,
}

/// A tag of an image on Docker Hub.
#[derive(Debug)]
pub struct DockerHubTag {
    /// The tag.
    pub name: String,
    /// When it was pushed last.
    pub last_updated: String,
}

/// A release on GitHub.
#[derive(Debug)]
pub struct GitHubRelease {
    /// Its title.
    pub name: String,
    /// Its notes.
    pub body: String,
    /// Its page.
    pub html_url: String,
    /// When it was published.
    pub published_at: String,
}

/// The image whose tags are asked for.
#[derive(Debug)]
pub struct TagQuery {
    /// The owner of the image.
    pub owner: String,
    /// The name of the image.
    pub repo: String,
    /// Where to ask.
    pub url: String,
}

/// What Docker Hub has answered.
#[derive(Debug)]
pub enum TagsReply {
    /// There was no answer.
    NoAnswer(String),
    /// The status tells of a failure.
    Refused {
        /// The status.
        status: u16,
        /// The body.
        body: String,
    },
    /// The body cannot be read.
    Unreadable(String),
    /// The tags.
    Tags(Vec<DockerHubTag>),
}

impl TagsReply {
    /// Whether the status is one that HTTP knows.
    pub open spec fn wf(self) -> bool {
        self matches TagsReply::Refused { status, .. } ==> 100 <= status <= 999
    }
}

/// The newest version, before its release is looked up.
#[derive(Debug)]
pub struct ReleaseCandidate {
    /// The version that is running.
    pub current_version: String,
    /// The newest version; empty if there is none.
    pub latest_version: String,
    /// Whether it is newer than the running one.
    pub has_update: bool,
    /// A page with the tags.
    pub release_url: Option<String>,
    /// When the tag was pushed last.
    pub published_at: Option<String>,
}

/// A status in words: its number and its reason phrase, as the http crate
/// writes them.
pub uninterp spec fn status_words(status: u16) -> Seq<char>;

/// `http::StatusCode::from_u16` and the `Display` notation of the status. The
/// reason phrases have a name and no more: the contract does not list them.
#[verifier::external_body]
fn status_text(status: u16) -> (r: String)
    requires
        100 <= status <= 999,
    ensures
        r@ == status_words(status),
{
    http::StatusCode::from_u16(status).unwrap().to_string()
}

/// The image whose tags are asked for: the configured one, or the official one
/// if none is configured.
pub open spec fn checked_image(configured: Seq<char>) -> Seq<char> {
    if trim(configured).len() == 0 {
        "zyphrzero/kiro-rs:latest"@
    } else {
        configured
    }
}

/// Where the tags of an image are.
pub open spec fn tags_url(owner: Seq<char>, repo: Seq<char>) -> Seq<char> {
    "https://hub.docker.com/v2/repositories/"@ + owner + "/"@ + repo
        + "/tags?page_size=100&page=1"@
}

/// The page with the tags of an image.
pub open spec fn tags_page(owner: Seq<char>, repo: Seq<char>) -> Seq<char> {
    "https://hub.docker.com/r/"@ + owner + "/"@ + repo + "/tags"@
}

/// Where the release of a version is.
pub open spec fn release_address(version: Seq<char>) -> Seq<char> {
    "https://api.github.com/repos/ZyphrZero/kiro.rs/releases/tags/v"@ + trim(version)
}

/// The position of the newest version among some tags, if one of them is a
/// version: of equal versions, the last.
pub open spec fn newest(tags: Seq<DockerHubTag>) -> Option<int>
    decreases tags.len(),
{
    if tags.len() == 0 {
        None
    } else {
        let rest = newest(tags.drop_last());
        if !is_version_tag(tags.last().name@) {
            rest
        } else {
            match rest {
                Some(i) if is_older(tags.last().name@, tags[i].name@) => rest,
                _ => Some(tags.len() - 1),
            }
        }
    }
}

/// The version that a tag names: without whitespace around it and without the
/// letters `v` in front.
pub open spec fn tag_version(name: Seq<char>) -> Seq<char> {
    strip_leading_char(trim(name), 'v')
}

/// The newest version among some tags; empty if there is none.
pub open spec fn newest_version(tags: Seq<DockerHubTag>) -> Seq<char> {
    match newest(tags) {
        Some(i) => tag_version(tags[i].name@),
        None => Seq::empty(),
    }
}

/// When the newest version among some tags was pushed last.
pub open spec fn newest_date(tags: Seq<DockerHubTag>) -> Option<Seq<char>> {
    match newest(tags) {
        Some(i) => non_empty(tags[i].last_updated@),
        None => None,
    }
}

/// What it means that Docker Hub gave no tags.
pub open spec fn tags_failure(query: TagQuery, reply: TagsReply) -> Option<ErrorView> {
    match reply {
        TagsReply::NoAnswer(e) => Some(ErrorView::Internal("请求 Docker Hub API 失败: "@ + e@)),
        TagsReply::Refused { status, body } => Some(
            ErrorView::Internal(
                if status == 404 {
                    "Docker Hub 上未找到镜像 "@ + query.owner@ + "/"@ + query.repo@
                        + "（可能仓库还未发布或为私有）。请确认 updateImage 指向的仓库存在并已公开。"@
                } else {
                    refusal(status_words(status), body@)
                },
            ),
        ),
        TagsReply::Unreadable(e) => Some(
            ErrorView::Internal("解析 Docker Hub 响应失败: "@ + e@),
        ),
        TagsReply::Tags(_) => None,
    }
}

/// The beginning of a text, of at most two hundred characters.
pub open spec fn first_chars(s: Seq<char>) -> Seq<char> {
    if s.len() <= 200 {
        s
    } else {
        s.take(200)
    }
}

/// What is said of a refusal: its status in words, and the beginning of its
/// body.
pub open spec fn refusal(words: Seq<char>, body: Seq<char>) -> Seq<char> {
    "Docker Hub API 返回 "@ + words + ": "@ + first_chars(body)
}

/// Says that Docker Hub has refused, with its status in words and the beginning
/// of its body.
pub fn refusal_text(words: &str, body: &str) -> (r: String)
    ensures
        r@ == refusal(words@, body@),
{
    let mut m = "Docker Hub API 返回 ".to_string();
    m.append(words);
    m.append(": ");
    m.append(beginning(body).as_str());
    m
}

/// Whether this is the newest version among some tags of an image.
pub open spec fn is_candidate(
    c: ReleaseCandidate,
    query: TagQuery,
    tags: Seq<DockerHubTag>,
    current: Seq<char>,
) -> bool {
    let latest = newest_version(tags);
    &&& c.current_version@ == current
    &&& c.latest_version@ == latest
    &&& c.has_update == (latest.len() > 0 && is_older(current, latest))
    &&& view_opt(c.release_url) == if latest.len() > 0 {
        Some(tags_page(query.owner@, query.repo@))
    } else {
        None
    }
    &&& view_opt(c.published_at) == newest_date(tags)
}

fn latest_tag(tags: &Vec<DockerHubTag>) -> (r: Option<usize>)
    ensures
        match r {
            Some(i) => i < tags@.len() && newest(tags@) == Some(i as int),
            None => newest(tags@) is None,
        },
{
    let mut best: Option<usize> = None;
    let mut i: usize = 0;
    while i < tags.len()
        invariant
            i <= tags@.len(),
            match best {
                Some(b) => b < i && newest(tags@.take(i as int)) == Some(b as int),
                None => newest(tags@.take(i as int)) is None,
            },
        decreases tags@.len() - i,
    {
        assert(tags@.take(i + 1).drop_last() =~= tags@.take(i as int));
        if is_semver_tag(tags[i].name.as_str()) {
            best = match best {
                Some(b) => if comes_before(tags[i].name.as_str(), tags[b].name.as_str()) {
                    Some(b)
                } else {
                    Some(i)
                },
                None => Some(i),
            };
        }
        i = i + 1;
    }
    assert(tags@.take(i as int) =~= tags@);
    best
}

fn version_of(name: &str) -> (r: String)
    ensures
        r@ == tag_version(name@),
{
    let chars = chars_of(name);
    string_of(strip_leading_char_chars(trim_chars(chars.as_slice()), 'v'))
}

fn beginning(s: &str) -> (r: String)
    ensures
        r@ == first_chars(s@),
{
    let chars = chars_of(s);
    if chars.len() <= 200 {
        string_of(chars.as_slice())
    } else {
        string_of(take_chars(chars.as_slice(), 200))
    }
}

fn joined(a: &str, b: &str, c: &str, d: &str, e: &str) -> (r: String)
    ensures
        r@ == a@ + b@ + c@ + d@ + e@,
{
    let mut out = a.to_string();
    out.append(b);
    out.append(c);
    out.append(d);
    out.append(e);
    out
}

/// What Docker Hub is asked for if an image is configured.
pub open spec fn asks_for(query: TagQuery, configured: Seq<char>) -> bool {
    &&& owner_repo(trim(checked_image(configured))) == Some((query.owner@, query.repo@))
    &&& query.url@ == tags_url(query.owner@, query.repo@)
}

/// Decides which tags are looked up.
pub fn fetch_latest_release(configured: &str) -> (r: Result<TagQuery, AdminServiceError>)
    ensures
        match owner_repo(trim(checked_image(configured@))) {
            Some(_) => r matches Ok(query) && asks_for(query, configured@),
            None => r matches Err(e) && e@ == ErrorView::Internal(
                "无法从镜像 "@ + checked_image(configured@) + " 解析出 Docker Hub owner/repo"@,
            ),
        },
{
    let image = if trimmed(configured).as_str().is_empty() {
        "zyphrzero/kiro-rs:latest".to_string()
    } else {
        configured.to_string()
    };
    match dockerhub_owner_repo(trimmed(image.as_str()).as_str()) {
        Some((owner, repo)) => {
            let url = joined(
                "https://hub.docker.com/v2/repositories/",
                owner.as_str(),
                "/",
                repo.as_str(),
                "/tags?page_size=100&page=1",
            );
            Ok(TagQuery { owner, repo, url })
        },
        None => {
            let mut message = "无法从镜像 ".to_string();
            message.append(image.as_str());
            message.append(" 解析出 Docker Hub owner/repo");
            Err(AdminServiceError::InternalError(message))
        },
    }
}

/// Finds the newest version in what Docker Hub has answered.
pub fn latest_release_candidate(
    query: &TagQuery,
    reply: TagsReply,
    current_version: &str,
) -> (r: Result<ReleaseCandidate, AdminServiceError>)
    requires
        reply.wf(),
    ensures
        match tags_failure(*query, reply) {
            Some(problem) => r matches Err(e) && e@ == problem,
            None => r matches Ok(c) && is_candidate(
                c,
                *query,
                reply->Tags_0@,
                current_version@,
            ),
        },
{
    match reply {
        TagsReply::NoAnswer(e) => {
            let mut message = "请求 Docker Hub API 失败: ".to_string();
            message.append(e.as_str());
            Err(AdminServiceError::InternalError(message))
        },
        TagsReply::Refused { status, body } => {
            let message = if status == 404 {
                joined(
                    "Docker Hub 上未找到镜像 ",
                    query.owner.as_str(),
                    "/",
                    query.repo.as_str(),
                    "（可能仓库还未发布或为私有）。请确认 updateImage 指向的仓库存在并已公开。",
                )
            } else {
                refusal_text(status_text(status).as_str(), body.as_str())
            };
            Err(AdminServiceError::InternalError(message))
        },
        TagsReply::Unreadable(e) => {
            let mut message = "解析 Docker Hub 响应失败: ".to_string();
            message.append(e.as_str());
            Err(AdminServiceError::InternalError(message))
        },
        TagsReply::Tags(tags) => {
            let (latest_version, published_at) = match latest_tag(&tags) {
                Some(i) => (
                    version_of(tags[i].name.as_str()),
                    keep_non_empty(tags[i].last_updated.clone()),
                ),
                None => (String::new(), None),
            };
            let known = !latest_version.as_str().is_empty();
            let has_update = known && comes_before(current_version, latest_version.as_str());
            let release_url = if known {
                Some(
                    joined(
                        "https://hub.docker.com/r/",
                        query.owner.as_str(),
                        "/",
                        query.repo.as_str(),
                        "/tags",
                    ),
                )
            } else {
                None
            };
            Ok(
                ReleaseCandidate {
                    current_version: current_version.to_string(),
                    latest_version,
                    has_update,
                    release_url,
                    published_at,
                },
            )
        },
    }
}

/// Where the release of a version is looked up; nowhere, if there is no version.
pub fn fetch_github_release(version: &str) -> (r: Option<String>)
    ensures
        view_opt(r) == (if version@.len() == 0 {
            None
        } else {
            Some(release_address(version@))
        }),
{
    if version.is_empty() {
        return None;
    }
    let mut url = "https://api.github.com/repos/ZyphrZero/kiro.rs/releases/tags/v".to_string();
    url.append(trimmed(version).as_str());
    Some(url)
}

/// A value of a release, or else another one.
pub open spec fn preferred(value: Seq<char>, other: Option<String>) -> Option<Seq<char>> {
    if value.len() > 0 {
        Some(value)
    } else {
        view_opt(other)
    }
}

/// Whether this is what a look for updates has found: the newest version, with
/// what its release says. The page and the date of the release come before those
/// of Docker Hub. A release that could not be looked up leaves its parts out.
pub open spec fn describes(
    info: UpdateCheckInfo,
    c: ReleaseCandidate,
    release: Option<GitHubRelease>,
    now: Timestamp,
) -> bool {
    &&& info.current_version == c.current_version
    &&& info.latest_version == c.latest_version
    &&& info.has_update == c.has_update
    &&& info.build_type@ == "docker-compose"@
    &&& view_opt(info.release_name) == (match release {
        Some(rel) => non_empty(rel.name@),
        None => None,
    })
    &&& view_opt(info.release_notes) == (match release {
        Some(rel) => non_empty(rel.body@),
        None => None,
    })
    &&& view_opt(info.release_url) == (match release {
        Some(rel) => preferred(rel.html_url@, c.release_url),
        None => view_opt(c.release_url),
    })
    &&& view_opt(info.published_at) == (match release {
        Some(rel) => preferred(rel.published_at@, c.published_at),
        None => view_opt(c.published_at),
    })
    &&& info.checked_at@ == now.text()
    &&& !info.cached
    &&& info.warning is None
}

fn value_or(value: String, other: Option<String>) -> (r: Option<String>)
    ensures
        view_opt(r) == preferred(value@, other),
{
    match keep_non_empty(value) {
        Some(v) => Some(v),
        None => other,
    }
}

/// Puts together what a look for updates has found.
pub fn describe_release(
    c: ReleaseCandidate,
    release: Option<GitHubRelease>,
    now: &Timestamp,
) -> (r: UpdateCheckInfo)
    requires
        now.wf(),
    ensures
        describes(r, c, release, *now),
{
    let (release_name, release_notes, release_url, published_at) = match release {
        Some(rel) => (
            keep_non_empty(rel.name),
            keep_non_empty(rel.body),
            value_or(rel.html_url, c.release_url),
            value_or(rel.published_at, c.published_at),
        ),
        None => (None, None, c.release_url, c.published_at),
    };
    UpdateCheckInfo {
        current_version: c.current_version,
        latest_version: c.latest_version,
        has_update: c.has_update,
        build_type: "docker-compose".to_string(),
        release_name,
        release_notes,
        release_url,
        published_at,
        checked_at: now.to_rfc3339(),
        cached: false,
        warning: None,
    }
}

/// Puts together what a look for updates has found now.
pub fn describe_release_now(c: ReleaseCandidate, release: Option<GitHubRelease>) -> (r:
    UpdateCheckInfo)
    ensures
        exists|now: Timestamp| now.wf() && #[trigger] describes(r, c, release, now),
{
    let now = utc_now();
    describe_release(c, release, &now)
}

/// What an earlier look has found, if it may still be used.
pub open spec fn usable_check(cache: Option<CachedUpdateCheck>, now: Timestamp) -> Option<
    UpdateCheckInfo,
> {
    match cache {
        Some(c) => if now.seconds_since(c.cached_at) < UPDATE_CHECK_TTL_SECS {
            Some(UpdateCheckInfo { cached: true, ..c.info })
        } else {
            None
        },
        None => None,
    }
}

/// Whether this is the answer if a look for updates has failed: what was found
/// last, however old, or that nothing is known, with a warning.
pub open spec fn is_failed_check(
    info: UpdateCheckInfo,
    cache: Option<CachedUpdateCheck>,
    failure: ErrorView,
    current: Seq<char>,
    now: Timestamp,
) -> bool {
    &&& view_opt(info.warning) == Some("检查更新失败："@ + failure.message())
    &&& match cache {
        Some(c) => info == (UpdateCheckInfo { cached: true, warning: info.warning, ..c.info }),
        None => {
            &&& info.current_version@ == current
            &&& info.latest_version@ == Seq::<char>::empty()
            &&& !info.has_update
            &&& info.build_type@ == "docker-compose"@
            &&& info.release_name is None
            &&& info.release_notes is None
            &&& info.release_url is None
            &&& info.published_at is None
            &&& info.checked_at@ == now.text()
            &&& !info.cached
        },
    }
}

impl AdminService {
    /// What an earlier look for updates has found, if that will do; otherwise
    /// Docker Hub is to be asked.
    pub fn check_update_at(&self, force: bool, now: &Timestamp) -> (r: Option<UpdateCheckInfo>)
        requires
            self.wf(),
            now.wf(),
        ensures
            r == (if force {
                None
            } else {
                usable_check(self.update_check_cache, *now)
            }),
    {
        if force {
            return None;
        }
        match &self.update_check_cache {
            Some(c) => if now.age(&c.cached_at) < UPDATE_CHECK_TTL_SECS {
                let mut info = c.info.clone();
                info.cached = true;
                Some(info)
            } else {
                None
            },
            None => None,
        }
    }

    /// What an earlier look for updates has found, if that will do now;
    /// otherwise Docker Hub is to be asked.
    pub fn check_update(&self, force: bool) -> (r: Option<UpdateCheckInfo>)
        requires
            self.wf(),
        ensures
            force ==> r is None,
            !force ==> exists|now: Timestamp|
                now.wf() && r == #[trigger] usable_check(self.update_check_cache, now),
    {
        let now = utc_now();
        self.check_update_at(force, &now)
    }

    /// Takes what a look for updates has found, and gives the answer. A success
    /// is kept; a failure leaves what was kept.
    pub fn check_update_done_at(
        &mut self,
        found: Result<UpdateCheckInfo, AdminServiceError>,
        current_version: &str,
        now: &Timestamp,
    ) -> (r: UpdateCheckInfo)
        requires
            old(self).wf(),
            now.wf(),
        ensures
            final(self).wf(),
            match found {
                Ok(info) => {
                    &&& r == info
                    &&& *final(self) == (AdminService {
                        update_check_cache: Some(CachedUpdateCheck { cached_at: *now, info }),
                        ..*old(self)
                    })
                },
                Err(e) => {
                    &&& is_failed_check(
                        r,
                        old(self).update_check_cache,
                        e@,
                        current_version@,
                        *now,
                    )
                    &&& *final(self) == *old(self)
                },
            },
    {
        match found {
            Ok(info) => {
                let answer = info.clone();
                self.update_check_cache = Some(CachedUpdateCheck { cached_at: *now, info });
                answer
            },
            Err(e) => {
                let mut warning = "检查更新失败：".to_string();
                warning.append(e.message().as_str());
                match &self.update_check_cache {
                    Some(c) => {
                        let mut info = c.info.clone();
                        info.cached = true;
                        info.warning = Some(warning);
                        info
                    },
                    None => UpdateCheckInfo {
                        current_version: current_version.to_string(),
                        latest_version: String::new(),
                        has_update: false,
                        build_type: "docker-compose".to_string(),
                        release_name: None,
                        release_notes: None,
                        release_url: None,
                        published_at: None,
                        checked_at: now.to_rfc3339(),
                        cached: false,
                        warning: Some(warning),
                    },
                }
            },
        }
    }

    /// Takes what a look for updates has found now, and gives the answer.
    pub fn check_update_done(
        &mut self,
        found: Result<UpdateCheckInfo, AdminServiceError>,
        current_version: &str,
    ) -> (r: UpdateCheckInfo)
        requires
            old(self).wf(),
        ensures
            final(self).wf(),
            match found {
                Ok(info) => {
                    &&& r == info
                    &&& final(self).update_check_cache matches Some(c) && c.info == info
                    &&& *final(self) == (AdminService {
                        update_check_cache: final(self).update_check_cache,
                        ..*old(self)
                    })
                },
                Err(e) => {
                    &&& exists|now: Timestamp|
                        now.wf() && #[trigger] is_failed_check(
                            r,
                            old(self).update_check_cache,
                            e@,
                            current_version@,
                            now,
                        )
                    &&& *final(self) == *old(self)
                },
            },
    {
        let now = utc_now();
        self.check_update_done_at(found, current_version, &now)
    }
}

/// The newest version is one of the tags, none of the tags is newer, and a tag
/// behind it is older.
pub proof fn newest_is_newest(tags: Seq<DockerHubTag>, j: int)
    requires
        0 <= j < tags.len(),
        is_version_tag(tags[j].name@),
    ensures
        newest(tags) matches Some(i) && {
            &&& 0 <= i < tags.len()
            &&& is_version_tag(tags[i].name@)
            &&& !is_older(tags[i].name@, tags[j].name@)
            &&& j > i ==> is_older(tags[j].name@, tags[i].name@)
        },
    decreases tags.len(),
{
    let rest = tags.drop_last();
    newest_is_a_version(tags);
    if j < rest.len() {
        newest_is_newest(rest, j);
        let i = newest(rest).unwrap();
        assert(rest[j] == tags[j] && rest[i] == tags[i]);
        versions_are_ordered(tags[j].name@, tags[i].name@, tags.last().name@);
        versions_are_ordered(tags.last().name@, tags[i].name@, tags[j].name@);
    } else {
        newest_is_a_version(rest);
        if newest(rest) is Some {
            let i = newest(rest).unwrap();
            assert(rest[i] == tags[i]);
            versions_are_ordered(tags[j].name@, tags[i].name@, tags[j].name@);
        }
        versions_are_ordered(tags[j].name@, tags[j].name@, tags[j].name@);
    }
}

proof fn newest_is_a_version(tags: Seq<DockerHubTag>)
    ensures
        newest(tags) matches Some(i) ==> 0 <= i < tags.len() && is_version_tag(tags[i].name@),
    decreases tags.len(),
{
    if tags.len() > 0 {
        newest_is_a_version(tags.drop_last());
    }
}

/// What was found is used again for the time to live, marked as found earlier,
/// and no longer.
pub proof fn found_update_is_used_again(info: UpdateCheckInfo, then: Timestamp, now: Timestamp)
    ensures
        usable_check(Some(CachedUpdateCheck { cached_at: then, info }), now) == (if now.seconds_since(
            then,
        ) < UPDATE_CHECK_TTL_SECS {
            Some(UpdateCheckInfo { cached: true, ..info })
        } else {
            None
        }),
{
}

/// A first look for updates that fails finds no update, so nothing is applied
/// because of it.
pub proof fn failed_first_check_applies_nothing(
    info: UpdateCheckInfo,
    failure: ErrorView,
    current: Seq<char>,
    now: Timestamp,
    applied: Seq<Seq<char>>,
)
    requires
        is_failed_check(info, None, failure, current, now),
    ensures
        !should_apply(applied, info),
{
}

/// An update is reported only if there is a version that is newer than the
/// running one.
pub proof fn reported_update_is_newer(
    c: ReleaseCandidate,
    query: TagQuery,
    tags: Seq<DockerHubTag>,
    current: Seq<char>,
)
    requires
        is_candidate(c, query, tags, current),
    ensures
        c.has_update ==> newest(tags) is Some && is_older(c.current_version@, c.latest_version@),
{
}

/// An update is reported whenever one of the tags names a version that is newer than
/// the running one, be it by the patch number alone; and if one is reported, one of
/// the tags, without the blanks around it, names such a version, and it is the one
/// that is told.
#[verifier::rlimit(40)]
#[verifier::spinoff_prover]
pub proof fn every_newer_version_is_reported(
    query: TagQuery,
    tags: Vec<DockerHubTag>,
    current: &str,
    j: int,
    r: Result<ReleaseCandidate, AdminServiceError>,
)
    requires
        call_ensures(latest_release_candidate, (&query, TagsReply::Tags(tags), current), r),
        0 <= j < tags@.len(),
        is_version_tag(tags@[j].name@),
    ensures
        r is Ok,
        ({
            let a = version(current@);
            let b = version(tags@[j].name@);
            a[0] < b[0] || (a[0] == b[0] && (a[1] < b[1] || (a[1] == b[1] && a[2] < b[2])))
        }) ==> r->Ok_0.has_update,
        r->Ok_0.current_version@ == current@,
        exists|i: int|
            0 <= i < tags@.len() && is_version_tag((#[trigger] tags@[i]).name@)
                && r->Ok_0.latest_version@ == strip_leading_char(trim(tags@[i].name@), 'v')
                && (forall|k: int|
                0 <= k < tags@.len() && is_version_tag((#[trigger] tags@[k]).name@) ==> !is_older(
                    tags@[i].name@,
                    tags@[k].name@,
                )) && r->Ok_0.has_update == is_older(current@, trim(tags@[i].name@))
                && view_opt(r->Ok_0.published_at) == (if tags@[i].last_updated@.len() > 0 {
                Some(tags@[i].last_updated@)
            } else {
                None
            }),
        view_opt(r->Ok_0.release_url) == Some(
            "https://hub.docker.com/r/"@ + query.owner@ + "/"@ + query.repo@ + "/tags"@,
        ),
{
    newest_is_newest(tags@, j);
    let i = newest(tags@).unwrap();
    let name = tags@[i].name@;
    blanks_make_no_version_newer(name);
    assert(is_candidate(r->Ok_0, query, tags@, current@));
    assert(is_version_tag(tags@[i].name@));
    assert forall|k: int|
        0 <= k < tags@.len() && is_version_tag((#[trigger] tags@[k]).name@) implies !is_older(
        tags@[i].name@,
        tags@[k].name@,
    ) by {
        newest_is_newest(tags@, k);
    }
}

/// Versions that are written as three numbers: a running version is told of every
/// tag that is higher by its major, minor or patch number.
#[verifier::rlimit(40)]
#[verifier::spinoff_prover]
pub proof fn a_higher_number_is_an_update(
    query: TagQuery,
    tags: Vec<DockerHubTag>,
    current: &str,
    running: (u32, u32, u32),
    offered: (u32, u32, u32),
    j: int,
    r: Result<ReleaseCandidate, AdminServiceError>,
)
    requires
        call_ensures(latest_release_candidate, (&query, TagsReply::Tags(tags), current), r),
        current@ == dotted(running.0, running.1, running.2),
        0 <= j < tags@.len(),
        tags@[j].name@ == dotted(offered.0, offered.1, offered.2),
        running.0 < offered.0 || (running.0 == offered.0 && (running.1 < offered.1 || (running.1
            == offered.1 && running.2 < offered.2))),
    ensures
        r matches Ok(c) && c.has_update && c.latest_version@.len() > 0,
        tags@.len() == 1 ==> r->Ok_0.latest_version@ == dotted(offered.0, offered.1, offered.2),
{
    dotted_numbers_are_a_version(running.0, running.1, running.2);
    dotted_numbers_are_a_version(offered.0, offered.1, offered.2);
    every_newer_version_is_reported(query, tags, current, j, r);
    newest_is_newest(tags@, j);
    blanks_make_no_version_newer(tags@[newest(tags@).unwrap()].name@);
}

/// If none of the tags, without the blanks around them, names a version that is newer
/// than the running one, no update is reported; if none names a version at all, no
/// version is told either.
#[verifier::rlimit(40)]
#[verifier::spinoff_prover]
pub proof fn no_newer_version_is_no_update(
    query: TagQuery,
    tags: Vec<DockerHubTag>,
    current: &str,
    r: Result<ReleaseCandidate, AdminServiceError>,
)
    requires
        call_ensures(latest_release_candidate, (&query, TagsReply::Tags(tags), current), r),
    ensures
        (forall|i: int|
            0 <= i < tags@.len() && is_version_tag((#[trigger] tags@[i]).name@) ==> !is_older(
                current@,
                trim(tags@[i].name@),
            )) ==> (r matches Ok(c) && !c.has_update),
        (forall|i: int| 0 <= i < tags@.len() ==> !is_version_tag((#[trigger] tags@[i]).name@))
            ==> (r matches Ok(c) && c.latest_version@.len() == 0 && !c.has_update && c.release_url
            is None && c.published_at is None),
{
    assert(is_candidate(r->Ok_0, query, tags@, current@));
    newest_is_a_version(tags@);
    if newest(tags@) is Some {
        blanks_make_no_version_newer(tags@[newest(tags@).unwrap()].name@);
    }
}

/// Without tags there is no candidate: every other answer of Docker Hub is an error,
/// and one that says that there is no such image names the image.
pub proof fn without_tags_nothing_is_found(
    query: TagQuery,
    reply: TagsReply,
    current: &str,
    r: Result<ReleaseCandidate, AdminServiceError>,
)
    requires
        reply.wf(),
        call_ensures(latest_release_candidate, (&query, reply, current), r),
    ensures
        r is Ok <==> reply is Tags,
        r matches Err(e) ==> e@.status() == 500,
        reply matches TagsReply::NoAnswer(m) ==> r->Err_0@ == ErrorView::Internal(
            "请求 Docker Hub API 失败: "@ + m@,
        ),
        reply matches TagsReply::Unreadable(m) ==> r->Err_0@ == ErrorView::Internal(
            "解析 Docker Hub 响应失败: "@ + m@,
        ),
        reply matches TagsReply::Refused { status, body } ==> status == 404 ==> r->Err_0@
            == ErrorView::Internal(
            "Docker Hub 上未找到镜像 "@ + query.owner@ + "/"@ + query.repo@
                + "（可能仓库还未发布或为私有）。请确认 updateImage 指向的仓库存在并已公开。"@,
        ),
        reply matches TagsReply::Refused { status, body } ==> status != 404 && body@.len() <= 200
            ==> r->Err_0@ == ErrorView::Internal(
            "Docker Hub API 返回 "@ + status_words(status) + ": "@ + body@,
        ),
        reply matches TagsReply::Refused { status, body } ==> status != 404 && body@.len() > 200
            ==> r->Err_0@ == ErrorView::Internal(
            "Docker Hub API 返回 "@ + status_words(status) + ": "@ + body@.take(200),
        ),
{
}

/// The tags that are asked for are those of the configured image, whatever its tag;
/// with nothing configured they are those of the official image.
#[verifier::rlimit(40)]
#[verifier::spinoff_prover]
pub proof fn the_configured_image_is_asked_for(
    configured: &str,
    owner: Seq<char>,
    name: Seq<char>,
    tag: Seq<char>,
    r: Result<TagQuery, AdminServiceError>,
)
    requires
        call_ensures(fetch_latest_release, (configured,), r),
        owner.len() > 0 && name.len() > 0,
        forall|i: int| 0 <= i < owner.len() ==> is_plain_char(#[trigger] owner[i]) && owner[i] != '.',
        forall|i: int| 0 <= i < name.len() ==> is_plain_char(#[trigger] name[i]),
        tag.len() > 0 ==> !is_whitespace(tag.last()),
    ensures
        trim(configured@) == owner + seq!['/'] + name || trim(configured@) == owner + seq!['/']
            + name + seq![':'] + tag || trim(configured@) == "docker.io/"@ + (owner + seq!['/']
            + name) ==> (r matches Ok(query) && {
            &&& query.owner@ == owner
            &&& query.repo@ == name
            &&& query.url@ == "https://hub.docker.com/v2/repositories/"@ + owner + "/"@ + name
                + "/tags?page_size=100&page=1"@
        }),
        trim(configured@).len() == 0 ==> (r matches Ok(query) && query.owner@ == "zyphrzero"@
            && query.repo@ == "kiro-rs"@),
        r matches Err(e) ==> e@.status() == 500,
{
    an_owner_and_a_name_are_an_image(owner, name, ':', tag);
    outer_whitespace_is_ignored(configured@);
    if trim(configured@) == owner + seq!['/'] + name || trim(configured@) == owner + seq!['/']
        + name + seq![':'] + tag || trim(configured@) == "docker.io/"@ + (owner + seq!['/'] + name) {
        reveal_strlit("docker.io/");
        assert(trim(configured@).len() > 0);
        assert(owner_repo(trim(configured@)) == Some((owner, name)));
    }
    if trim(configured@).len() == 0 {
        official_image();
    }
}

#[verifier::rlimit(40)]
#[verifier::spinoff_prover]
proof fn official_image()
    ensures
        owner_repo(trim("zyphrzero/kiro-rs:latest"@)) == Some(("zyphrzero"@, "kiro-rs"@)),
{
    reveal_strlit("zyphrzero/kiro-rs:latest");
    reveal_strlit("zyphrzero");
    reveal_strlit("kiro-rs");
    reveal_strlit("latest");
    let s = "zyphrzero/kiro-rs:latest"@;
    assert(s =~= "zyphrzero"@ + seq!['/'] + "kiro-rs"@ + seq![':'] + "latest"@);
    an_owner_and_a_name_are_an_image("zyphrzero"@, "kiro-rs"@, ':', "latest"@);
    outer_whitespace_is_ignored(s);
}

/// The release of a version is looked up under its tag with a `v` in front; without
/// a version none is looked up.
pub proof fn the_release_is_looked_up_by_its_version(version: &str, r: Option<String>)
    requires
        call_ensures(fetch_github_release, (version,), r),
    ensures
        version@.len() == 0 ==> r is None,
        version@.len() > 0 ==> (r matches Some(url) && url@
            == "https://api.github.com/repos/ZyphrZero/kiro.rs/releases/tags/v"@ + trim(version@)),
{
}

/// What was found is told as it is, with what the release adds: its title and notes,
/// and its page and date in place of those of Docker Hub where it has them. Whether
/// there is an update does not depend on the release.
pub proof fn the_release_only_adds(
    c: ReleaseCandidate,
    release: GitHubRelease,
    now: Timestamp,
    with: UpdateCheckInfo,
    without: UpdateCheckInfo,
)
    requires
        call_ensures(describe_release, (c, Some(release), &now), with),
        call_ensures(describe_release, (c, None, &now), without),
    ensures
        with.current_version == c.current_version && without.current_version == c.current_version,
        with.latest_version == c.latest_version && without.latest_version == c.latest_version,
        with.has_update == c.has_update && without.has_update == c.has_update,
        with.build_type@ == "docker-compose"@ && without.build_type@ == "docker-compose"@,
        with.checked_at@ == rfc3339(now.seconds, now.nanos),
        without.checked_at@ == rfc3339(now.seconds, now.nanos),
        !with.cached && !without.cached && with.warning is None && without.warning is None,
        release.name@.len() > 0 ==> view_opt(with.release_name) == Some(release.name@),
        release.name@.len() == 0 ==> with.release_name is None,
        release.body@.len() > 0 ==> view_opt(with.release_notes) == Some(release.body@),
        release.body@.len() == 0 ==> with.release_notes is None,
        release.html_url@.len() > 0 ==> view_opt(with.release_url) == Some(release.html_url@),
        release.html_url@.len() == 0 ==> view_opt(with.release_url) == view_opt(c.release_url),
        release.published_at@.len() > 0 ==> view_opt(with.published_at) == Some(
            release.published_at@,
        ),
        release.published_at@.len() == 0 ==> view_opt(with.published_at) == view_opt(
            c.published_at,
        ),
        without.release_name is None && without.release_notes is None,
        view_opt(without.release_url) == view_opt(c.release_url),
        view_opt(without.published_at) == view_opt(c.published_at),
{
}

/// A look for updates that was made less than half an hour ago is told again, marked
/// as such, unless a new one is forced.
pub proof fn a_recent_look_is_told_again(
    before: AdminService,
    after: AdminService,
    info: UpdateCheckInfo,
    current: &str,
    then: Timestamp,
    first: UpdateCheckInfo,
    force: bool,
    now: Timestamp,
    r: Option<UpdateCheckInfo>,
)
    requires
        exists|s: &mut AdminService| #[trigger]
            call_ensures(
                AdminService::check_update_done_at,
                (s, Ok(info), current, &then),
                first,
            ) && *s == before && *final(s) == after,
        call_ensures(AdminService::check_update_at, (&after, force, &now), r),
    ensures
        first == info,
        force ==> r is None,
        !force && now.seconds_since(then) >= 1800 ==> r is None,
        !force && now.seconds_since(then) < 1800 ==> (r matches Some(again) && {
            &&& again.cached
            &&& again == (UpdateCheckInfo { cached: true, ..info })
        }),
        after.update_config == before.update_config,
        after.balance_cache == before.balance_cache,
        after.idc_sessions == before.idc_sessions,
        after.social_sessions == before.social_sessions,
{
}

/// A look for updates that has failed tells what was found last, however long ago,
/// with a warning; if nothing was found before, it tells of no update. It changes
/// nothing.
pub proof fn a_failed_look_tells_what_was_found_last(
    before: AdminService,
    after: AdminService,
    failure: AdminServiceError,
    current: &str,
    now: Timestamp,
    r: UpdateCheckInfo,
)
    requires
        exists|s: &mut AdminService| #[trigger]
            call_ensures(
                AdminService::check_update_done_at,
                (s, Err(failure), current, &now),
                r,
            ) && *s == before && *final(s) == after,
    ensures
        after == before,
        view_opt(r.warning) == Some("检查更新失败："@ + failure@.message()),
        before.update_check_cache matches Some(c) ==> {
            &&& r.cached
            &&& r.latest_version == c.info.latest_version
            &&& r.has_update == c.info.has_update
            &&& r.current_version == c.info.current_version
            &&& r.release_url == c.info.release_url
            &&& r.release_name == c.info.release_name
            &&& r.release_notes == c.info.release_notes
            &&& r.published_at == c.info.published_at
            &&& r.checked_at == c.info.checked_at
        },
        before.update_check_cache is None ==> {
            &&& !r.cached && !r.has_update
            &&& r.current_version@ == current@
            &&& r.latest_version@.len() == 0
            &&& r.release_url is None && r.release_name is None && r.release_notes is None
            &&& r.published_at is None
            &&& r.checked_at@ == rfc3339(now.seconds, now.nanos)
        },
{
}

/// At the moment of the call too a forced look is never answered from memory, what is told
/// again was found before, and what was found is kept.
pub proof fn what_was_found_is_kept_now(
    service: AdminService,
    forced: Option<UpdateCheckInfo>,
    again: Option<UpdateCheckInfo>,
    before: AdminService,
    after: AdminService,
    failed: AdminService,
    info: UpdateCheckInfo,
    failure: AdminServiceError,
    current: &str,
    told: UpdateCheckInfo,
    warned: UpdateCheckInfo,
    c: ReleaseCandidate,
    release: Option<GitHubRelease>,
    described: UpdateCheckInfo,
)
    requires
        call_ensures(AdminService::check_update, (&service, true), forced),
        call_ensures(AdminService::check_update, (&service, false), again),
        exists|s: &mut AdminService| #[trigger]
            call_ensures(AdminService::check_update_done, (s, Ok(info), current), told) && *s
                == before && *final(s) == after,
        exists|s: &mut AdminService| #[trigger]
            call_ensures(AdminService::check_update_done, (s, Err(failure), current), warned) && *s
                == before && *final(s) == failed,
        call_ensures(describe_release_now, (c, release), described),
    ensures
        forced is None,
        again matches Some(i) ==> (service.update_check_cache matches Some(k) && i == (
        UpdateCheckInfo { cached: true, ..k.info })),
        service.update_check_cache is None ==> again is None,
        told == info,
        after.update_check_cache matches Some(k) && k.info == info,
        failed == before,
        view_opt(warned.warning) == Some("检查更新失败："@ + failure@.message()),
        before.update_check_cache is None ==> !warned.has_update && !warned.cached,
        before.update_check_cache matches Some(k) ==> warned.cached && warned.has_update
            == k.info.has_update && warned.latest_version == k.info.latest_version,
        described.has_update == c.has_update && described.latest_version == c.latest_version
            && described.current_version == c.current_version,
        !described.cached && described.warning is None,
{
}

} // verus!
