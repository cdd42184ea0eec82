//! Discovery of the projects of a GitLab group: the requests to make, what each reply
//! means, and when the listing ends.

use vstd::prelude::*;
use vstd::string::*;
use vstd::utf8::encode_utf8;
use crate::text::{chain, decimal, decimal_string, free_of};

verus! {

/// The number of projects asked for per page.
pub const PAGE_SIZE: usize = 100;

/// The number of pages after which a listing ends even if the server has more. A guard
/// against replies that never run dry; what lies beyond is left out without an error.
pub const MAX_PAGES: usize = 100;

/// The number of seconds after which a request is given up.
pub const REQUEST_TIMEOUT_SECS: u64 = 30;

/// The name of the header that carries the token.
pub const TOKEN_HEADER: &'static str = "PRIVATE-TOKEN";

/// A failed exchange with GitLab.
#[derive(Debug, PartialEq)]
pub enum GitLabError {
    /// The request did not go through, or the server answered with an error status.
    RequestFailed(String),
    /// The server refused the token.
    AuthenticationFailed(String),
    /// The reply could not be read as a list of projects.
    ParseError(String),
    /// The server knows no such group; the text is the group's path.
    GroupNotFound(String),
}

/// A failed exchange with GitLab, as texts.
pub enum GitLabErrorView {
    RequestFailed(Seq<char>),
    AuthenticationFailed(Seq<char>),
    ParseError(Seq<char>),
    GroupNotFound(Seq<char>),
}

impl View for GitLabError {
    type V = GitLabErrorView;

    open spec fn view(&self) -> GitLabErrorView {
        match *self {
            GitLabError::RequestFailed(reason) => GitLabErrorView::RequestFailed(reason@),
            GitLabError::AuthenticationFailed(reason) => GitLabErrorView::AuthenticationFailed(
                reason@,
            ),
            GitLabError::ParseError(reason) => GitLabErrorView::ParseError(reason@),
            GitLabError::GroupNotFound(group) => GitLabErrorView::GroupNotFound(group@),
        }
    }
}

impl GitLabErrorView {
    /// The error in words.
    pub open spec fn message(self) -> Seq<char> {
        match self {
            GitLabErrorView::RequestFailed(reason) => "HTTP request failed: "@ + reason,
            GitLabErrorView::AuthenticationFailed(reason) => "Authentication failed: "@ + reason,
            GitLabErrorView::ParseError(reason) => "Failed to parse response: "@ + reason,
            GitLabErrorView::GroupNotFound(group) => "Group not found: "@ + group,
        }
    }
}

impl GitLabError {
    /// The error in words.
    pub fn message(&self) -> (text: String)
        ensures
            text@ == self@.message(),
    {
        match self {
            GitLabError::RequestFailed(reason) => chain("HTTP request failed: ", reason.as_str()),
            GitLabError::AuthenticationFailed(reason) => chain(
                "Authentication failed: ",
                reason.as_str(),
            ),
            GitLabError::ParseError(reason) => chain(
                "Failed to parse response: ",
                reason.as_str(),
            ),
            GitLabError::GroupNotFound(group) => chain("Group not found: ", group.as_str()),
        }
    }
}

/// A project as GitLab describes it.
#[derive(Debug, PartialEq)]
pub struct GitLabProject {
    pub id: u64,
    pub name: String,
    pub path: String,
    /// The project's path with the paths of its group and subgroups before it.
    pub path_with_namespace: String,
    pub ssh_url_to_repo: String,
    pub http_url_to_repo: String,
}

impl Clone for GitLabProject {
    fn clone(&self) -> (copy: Self)
        ensures
            copy == *self,
    {
        GitLabProject {
            id: self.id,
            name: self.name.clone(),
            path: self.path.clone(),
            path_with_namespace: self.path_with_namespace.clone(),
            ssh_url_to_repo: self.ssh_url_to_repo.clone(),
            http_url_to_repo: self.http_url_to_repo.clone(),
        }
    }
}

/// A group as GitLab describes it.
#[derive(Debug, PartialEq)]
pub struct GitLabGroup {
    pub id: u64,
    pub name: String,
    pub path: String,
    pub full_path: String,
}

impl Clone for GitLabGroup {
    fn clone(&self) -> (copy: Self)
        ensures
            copy == *self,
    {
        GitLabGroup {
            id: self.id,
            name: self.name.clone(),
            path: self.path.clone(),
            full_path: self.full_path.clone(),
        }
    }
}

/// Letters, digits and `-`, `.`, `_`, `~`: the bytes that stand for themselves in a URL.
pub open spec fn is_unreserved(byte: u8) -> bool {
    ||| 0x30 <= byte <= 0x39
    ||| 0x41 <= byte <= 0x5a
    ||| 0x61 <= byte <= 0x7a
    ||| byte == 0x2d
    ||| byte == 0x2e
    ||| byte == 0x5f
    ||| byte == 0x7e
}

/// The hexadecimal digit for `value`, in upper case, for `value` below sixteen.
pub open spec fn hex_digit(value: u8) -> char {
    if value < 10 {
        ((0x30 + value) as u8) as char
    } else {
        ((0x41 + value - 10) as u8) as char
    }
}

/// A byte as it stands in a URL: itself where it is unreserved, else `%` and its two
/// hexadecimal digits.
pub open spec fn encoded_byte(byte: u8) -> Seq<char> {
    if is_unreserved(byte) {
        seq![byte as char]
    } else {
        seq!['%', hex_digit(byte / 16), hex_digit(byte % 16)]
    }
}

/// Bytes as they stand in a URL, one after the other.
pub open spec fn percent_encoded(bytes: Seq<u8>) -> Seq<char>
    decreases bytes.len(),
{
    if bytes.len() == 0 {
        Seq::empty()
    } else {
        percent_encoded(bytes.drop_last()) + encoded_byte(bytes.last())
    }
}

/// A character that percent-encoding produces: an unreserved one, `%`, or a hexadecimal
/// digit.
pub open spec fn is_encoded_char(c: char) -> bool {
    let code = c as u32;
    ||| 0x30 <= code <= 0x39
    ||| 0x41 <= code <= 0x5a
    ||| 0x61 <= code <= 0x7a
    ||| code == 0x2d
    ||| code == 0x2e
    ||| code == 0x5f
    ||| code == 0x7e
    ||| code == 0x25
}

/// Percent-encoding leaves nothing behind that cuts a URL: the result is made of
/// unreserved characters, `%` and hexadecimal digits, so it holds no `/`, `?`, `&` or `#`.
pub proof fn lemma_percent_encoded_is_one_segment(bytes: Seq<u8>)
    ensures
        forall|i: int|
            0 <= i < percent_encoded(bytes).len() ==> is_encoded_char(
                #[trigger] percent_encoded(bytes)[i],
            ),
        free_of(percent_encoded(bytes), '/'),
        free_of(percent_encoded(bytes), '?'),
        free_of(percent_encoded(bytes), '&'),
        free_of(percent_encoded(bytes), '#'),
    decreases bytes.len(),
{
    if bytes.len() > 0 {
        lemma_percent_encoded_is_one_segment(bytes.drop_last());
        let head = percent_encoded(bytes.drop_last());
        let tail = encoded_byte(bytes.last());
        assert forall|i: int| 0 <= i < percent_encoded(bytes).len() implies is_encoded_char(
            #[trigger] percent_encoded(bytes)[i],
        ) by {
            if i >= head.len() {
                assert(percent_encoded(bytes)[i] == tail[i - head.len()]);
            }
        }
    }
    assert forall|i: int| 0 <= i < percent_encoded(bytes).len() implies {
        let c = #[trigger] percent_encoded(bytes)[i];
        c != '/' && c != '?' && c != '&' && c != '#'
    } by {
    }
}

/// The address of page `page` of the projects of the group `group_path` on `host`.
pub open spec fn projects_url(
    host: Seq<char>,
    group_path: Seq<char>,
    recursive: bool,
    page: nat,
) -> Seq<char> {
    let plain = host + "/api/v4/groups/"@ + percent_encoded(encode_utf8(group_path))
        + "/projects?per_page="@ + decimal(PAGE_SIZE as nat) + "&page="@ + decimal(page);
    if recursive {
        plain + "&include_subgroups=true"@
    } else {
        plain
    }
}

/// The address that tells whether a token is valid.
pub open spec fn user_url(host: Seq<char>) -> Seq<char> {
    host + "/api/v4/user"@
}

/// `text` as it stands in a URL. Calls `urlencoding::encode`, which goes through the
/// bytes of the text one by one, copies letters, digits and `-`, `.`, `_`, `~`, and writes
/// every other byte as `%` and two upper-case hexadecimal digits.
#[verifier::external_body]
fn percent_encode(text: &str) -> (encoded: String)
    ensures
        encoded@ == percent_encoded(encode_utf8(text@)),
{
    urlencoding::encode(text).into_owned()
}

/// The address of page `page` of the projects of the group `group_path` on `host`.
pub fn projects_page_url(host: &str, group_path: &str, recursive: bool, page: usize) -> (url:
    String)
    ensures
        url@ == projects_url(host@, group_path@, recursive, page as nat),
{
    let mut url = chain(host, "/api/v4/groups/");
    let encoded = percent_encode(group_path);
    url.append(encoded.as_str());
    url.append("/projects?per_page=");
    let size = decimal_string(PAGE_SIZE);
    url.append(size.as_str());
    url.append("&page=");
    let number = decimal_string(page);
    url.append(number.as_str());
    if recursive {
        url.append("&include_subgroups=true");
    }
    url
}

/// What a server sent back.
#[derive(Debug, PartialEq)]
pub struct HttpReply {
    /// The status code.
    pub status: u16,
    /// The status as the client prints it: the code and what it stands for.
    pub status_text: String,
    /// The body, as text.
    pub body: String,
}

/// Whether `status` is a success: the body of such a reply is a list of projects, that
/// of any other reply is the text of a complaint.
pub fn status_is_success(status: u16) -> (success: bool)
    ensures
        success == is_success(status),
{
    200 <= status && status <= 299
}

/// What came of the request for one page.
#[derive(Debug, PartialEq)]
pub enum PageReply {
    /// No reply arrived: the request could not be sent, or the connection failed or timed
    /// out. The text is the reason.
    Failed(String),
    /// A reply arrived. `projects` is its body read as a list of projects, or the
    /// parser's complaint; it counts only where the status is a success, and the body
    /// in `reply` only where it is none.
    Answered { reply: HttpReply, projects: Result<Vec<GitLabProject>, String> },
}

/// The status is one of 200 to 299.
pub open spec fn is_success(status: u16) -> bool {
    200 <= status <= 299
}

/// The status is 401 or 403: the server refuses the token.
pub open spec fn is_unauthorized(status: u16) -> bool {
    status == 401 || status == 403
}

/// What to tell of a refused token.
pub open spec fn bad_token() -> GitLabErrorView {
    GitLabErrorView::AuthenticationFailed("Invalid or expired token"@)
}

/// What a reply to a page request means whose status is no success: a refused token, an
/// unknown group, or a failed request with the status and the body.
pub open spec fn page_rejection(reply: HttpReply, group_path: Seq<char>) -> GitLabErrorView {
    if is_unauthorized(reply.status) {
        bad_token()
    } else if reply.status == 404 {
        GitLabErrorView::GroupNotFound(group_path)
    } else {
        GitLabErrorView::RequestFailed("HTTP "@ + reply.status_text@ + ": "@ + reply.body@)
    }
}

/// What the request for one page of the group `group_path` brought: the projects on the
/// page, or the failure.
pub open spec fn page_content(reply: PageReply, group_path: Seq<char>) -> Result<
    Seq<GitLabProject>,
    GitLabErrorView,
> {
    match reply {
        PageReply::Failed(reason) => Err(GitLabErrorView::RequestFailed(reason@)),
        PageReply::Answered { reply, projects } => if !is_success(reply.status) {
            Err(page_rejection(reply, group_path))
        } else {
            match projects {
                Ok(list) => Ok(list@),
                Err(reason) => Err(GitLabErrorView::ParseError(reason@)),
            }
        },
    }
}

/// What the probe of a token brought: nothing to complain of, a refused token, or a
/// failed request.
pub open spec fn token_verdict(reply: Result<HttpReply, String>) -> Result<(), GitLabErrorView> {
    match reply {
        Err(reason) => Err(GitLabErrorView::RequestFailed(reason@)),
        Ok(reply) => if is_unauthorized(reply.status) {
            Err(bad_token())
        } else if !is_success(reply.status) {
            Err(GitLabErrorView::RequestFailed("HTTP "@ + reply.status_text@))
        } else {
            Ok(())
        },
    }
}

/// How far the listing of a group has come.
pub enum ListingState {
    /// Page `page` is to be requested; `collected` holds the projects of the pages before.
    Requesting { page: nat, collected: Seq<GitLabProject> },
    /// The listing is over.
    Finished { outcome: Result<Seq<GitLabProject>, GitLabErrorView> },
}

/// The state in which a listing of at most `max_pages` pages begins.
pub open spec fn listing_start(max_pages: nat) -> ListingState {
    if max_pages == 0 {
        ListingState::Finished { outcome: Ok(Seq::empty()) }
    } else {
        ListingState::Requesting { page: 1, collected: Seq::empty() }
    }
}

/// The state after the content of the requested page has arrived. A failure ends the
/// listing with that failure; an empty page ends it with what was collected; a page with
/// projects adds them, and the next page is requested unless that was page `max_pages`.
/// A listing that is over stays as it is.
pub open spec fn listing_step(
    state: ListingState,
    content: Result<Seq<GitLabProject>, GitLabErrorView>,
    max_pages: nat,
) -> ListingState {
    match state {
        ListingState::Finished { .. } => state,
        ListingState::Requesting { page, collected } => match content {
            Err(error) => ListingState::Finished { outcome: Err(error) },
            Ok(projects) => if projects.len() == 0 {
                ListingState::Finished { outcome: Ok(collected) }
            } else if page >= max_pages {
                ListingState::Finished { outcome: Ok(collected + projects) }
            } else {
                ListingState::Requesting { page: page + 1, collected: collected + projects }
            },
        },
    }
}

/// The state after the contents of several pages have arrived one after the other.
pub open spec fn listing_run(
    state: ListingState,
    contents: Seq<Result<Seq<GitLabProject>, GitLabErrorView>>,
    max_pages: nat,
) -> ListingState
    decreases contents.len(),
{
    if contents.len() == 0 {
        state
    } else {
        listing_run(
            listing_step(state, contents.first(), max_pages),
            contents.drop_first(),
            max_pages,
        )
    }
}

/// What the requests for several pages of the group `group_path` brought, one for one.
pub open spec fn page_contents(replies: Seq<PageReply>, group_path: Seq<char>) -> Seq<
    Result<Seq<GitLabProject>, GitLabErrorView>,
> {
    replies.map_values(|reply: PageReply| page_content(reply, group_path))
}

/// Pages as the contents of successful replies.
pub open spec fn pages_as_contents(pages: Seq<Seq<GitLabProject>>) -> Seq<
    Result<Seq<GitLabProject>, GitLabErrorView>,
> {
    Seq::new(pages.len(), |i: int| Ok(pages[i]))
}

/// Every page holds at least one project.
pub open spec fn all_nonempty(pages: Seq<Seq<GitLabProject>>) -> bool {
    forall|i: int| 0 <= i < pages.len() ==> (#[trigger] pages[i]).len() > 0
}

/// A request to send: a GET of `url` with the header `TOKEN_HEADER` set to `token`.
#[derive(Debug, PartialEq)]
pub struct ApiRequest {
    pub url: String,
    pub token: String,
}

/// Access to a GitLab instance: its base URL and the token to present.
pub struct GitLabClient {
    base_url: String,
    token: String,
}

/// The progress of a listing: the page that is due and the projects of the pages before
/// it, or the outcome.
enum Progress {
    Requesting { page: usize, collected: Vec<GitLabProject> },
    Finished { outcome: Result<Vec<GitLabProject>, GitLabError> },
}

/// The listing of the projects of one group, page by page. The caller sends the request
/// that `next_request` gives, hands the reply to `receive`, and goes on until there is no
/// further request; `finish` then gives the projects or the failure.
pub struct ProjectListing {
    host: String,
    token: String,
    group_path: String,
    recursive: bool,
    max_pages: usize,
    progress: Progress,
}

impl GitLabClient {
    /// The base URL of the instance.
    pub closed spec fn base_url(&self) -> Seq<char> {
        self.base_url@
    }

    /// The token that requests present.
    pub closed spec fn token(&self) -> Seq<char> {
        self.token@
    }

    /// Access to the instance at `base_url` with `token`.
    pub fn new(base_url: String, token: String) -> (client: Result<Self, GitLabError>)
        ensures
            client.is_ok(),
            client.unwrap().base_url() == base_url@,
            client.unwrap().token() == token@,
    {
        Ok(GitLabClient { base_url, token })
    }

    /// Begins the listing of the projects of the group `group_path`, with those of its
    /// subgroups if `recursive` is set, over at most `MAX_PAGES` pages.
    pub fn get_group_projects(&self, group_path: &str, recursive: bool) -> (listing:
        ProjectListing)
        ensures
            listing.host() == self.base_url(),
            listing.token() == self.token(),
            listing.group_path() == group_path@,
            listing.recursive() == recursive,
            listing.max_pages() == MAX_PAGES,
            listing.state() == listing_start(MAX_PAGES as nat),
    {
        self.get_group_projects_within(group_path, recursive, MAX_PAGES)
    }

    /// Begins the listing of the projects of the group `group_path` over at most
    /// `max_pages` pages.
    pub fn get_group_projects_within(
        &self,
        group_path: &str,
        recursive: bool,
        max_pages: usize,
    ) -> (listing: ProjectListing)
        ensures
            listing.host() == self.base_url(),
            listing.token() == self.token(),
            listing.group_path() == group_path@,
            listing.recursive() == recursive,
            listing.max_pages() == max_pages,
            listing.state() == listing_start(max_pages as nat),
    {
        let progress = if max_pages == 0 {
            Progress::Finished { outcome: Ok(Vec::new()) }
        } else {
            Progress::Requesting { page: 1, collected: Vec::new() }
        };
        ProjectListing {
            host: self.base_url.clone(),
            token: self.token.clone(),
            group_path: group_path.to_owned(),
            recursive,
            max_pages,
            progress,
        }
    }

    /// The request that tells whether the token is valid.
    pub fn verify_token_request(&self) -> (request: ApiRequest)
        ensures
            request.url@ == user_url(self.base_url()),
            request.token@ == self.token(),
    {
        ApiRequest { url: chain(self.base_url.as_str(), "/api/v4/user"), token: self.token.clone() }
    }

    /// What the reply to the request of `verify_token_request` says of the token.
    pub fn verify_token(&self, reply: Result<HttpReply, String>) -> (verdict: Result<
        (),
        GitLabError,
    >)
        ensures
            match token_verdict(reply) {
                Ok(_) => verdict.is_ok(),
                Err(error) => verdict.is_err() && verdict.unwrap_err()@ == error,
            },
    {
        match reply {
            Err(reason) => Err(GitLabError::RequestFailed(reason)),
            Ok(reply) => {
                if reply.status == 401 || reply.status == 403 {
                    Err(GitLabError::AuthenticationFailed("Invalid or expired token".to_owned()))
                } else if !status_is_success(reply.status) {
                    Err(GitLabError::RequestFailed(chain("HTTP ", reply.status_text.as_str())))
                } else {
                    Ok(())
                }
            },
        }
    }
}

impl ProjectListing {
    #[verifier::type_invariant]
    spec fn well_formed(self) -> bool {
        match self.progress {
            Progress::Requesting { page, .. } => 1 <= page <= self.max_pages,
            Progress::Finished { .. } => true,
        }
    }

    /// The base URL of the instance that is asked.
    pub closed spec fn host(&self) -> Seq<char> {
        self.host@
    }

    /// The token that the requests present.
    pub closed spec fn token(&self) -> Seq<char> {
        self.token@
    }

    /// The path of the group whose projects are listed.
    pub closed spec fn group_path(&self) -> Seq<char> {
        self.group_path@
    }

    /// Whether the projects of subgroups are asked for as well.
    pub closed spec fn recursive(&self) -> bool {
        self.recursive
    }

    /// The number of pages after which the listing ends in any case.
    pub closed spec fn max_pages(&self) -> usize {
        self.max_pages
    }

    /// How far the listing has come.
    pub closed spec fn state(&self) -> ListingState {
        match self.progress {
            Progress::Requesting { page, collected } => ListingState::Requesting {
                page: page as nat,
                collected: collected@,
            },
            Progress::Finished { outcome } => ListingState::Finished {
                outcome: match outcome {
                    Ok(projects) => Ok(projects@),
                    Err(error) => Err(error@),
                },
            },
        }
    }

    /// The request to send next: that for the page that is due, which is never a page
    /// beyond the limit. `None` when the listing is over.
    pub fn next_request(&self) -> (request: Option<ApiRequest>)
        ensures
            match self.state() {
                ListingState::Requesting { page, .. } => request.is_some() && 1 <= page
                    <= self.max_pages() && request.unwrap().url@ == projects_url(
                    self.host(),
                    self.group_path(),
                    self.recursive(),
                    page,
                ) && request.unwrap().token@ == self.token(),
                ListingState::Finished { .. } => request.is_none(),
            },
    {
        proof {
            use_type_invariant(self);
        }
        match &self.progress {
            Progress::Requesting { page, .. } => Some(
                ApiRequest {
                    url: projects_page_url(
                        self.host.as_str(),
                        self.group_path.as_str(),
                        self.recursive,
                        *page,
                    ),
                    token: self.token.clone(),
                },
            ),
            Progress::Finished { .. } => None,
        }
    }

    /// Takes in the reply to the request that `next_request` gave.
    pub fn receive(self, reply: PageReply) -> (next: Self)
        ensures
            next.host() == self.host(),
            next.token() == self.token(),
            next.group_path() == self.group_path(),
            next.recursive() == self.recursive(),
            next.max_pages() == self.max_pages(),
            next.state() == listing_step(
                self.state(),
                page_content(reply, self.group_path()),
                self.max_pages() as nat,
            ),
    {
        proof {
            use_type_invariant(&self);
        }
        let ProjectListing { host, token, group_path, recursive, max_pages, progress } = self;
        let progress = match progress {
            Progress::Finished { outcome } => Progress::Finished { outcome },
            Progress::Requesting { page, collected } => {
                match read_page(reply, group_path.as_str()) {
                    Err(error) => Progress::Finished { outcome: Err(error) },
                    Ok(projects) => {
                        let mut projects = projects;
                        let mut collected = collected;
                        if projects.len() == 0 {
                            Progress::Finished { outcome: Ok(collected) }
                        } else {
                            collected.append(&mut projects);
                            if page >= max_pages {
                                Progress::Finished { outcome: Ok(collected) }
                            } else {
                                Progress::Requesting { page: page + 1, collected }
                            }
                        }
                    },
                }
            },
        };
        ProjectListing { host, token, group_path, recursive, max_pages, progress }
    }

    /// Takes in the replies to several requests, one after the other, as `receive` does.
    /// Replies that come after the end of the listing change nothing.
    pub fn receive_all(self, replies: Vec<PageReply>) -> (next: Self)
        ensures
            next.host() == self.host(),
            next.token() == self.token(),
            next.group_path() == self.group_path(),
            next.recursive() == self.recursive(),
            next.max_pages() == self.max_pages(),
            next.state() == listing_run(
                self.state(),
                page_contents(replies@, self.group_path()),
                self.max_pages() as nat,
            ),
    {
        let ghost start = self;
        let ghost all = page_contents(replies@, self.group_path());
        let mut listing = self;
        for reply in iter: replies
            invariant
                iter.seq() == replies@,
                all == page_contents(replies@, start.group_path()),
                listing.host() == start.host(),
                listing.token() == start.token(),
                listing.group_path() == start.group_path(),
                listing.recursive() == start.recursive(),
                listing.max_pages() == start.max_pages(),
                listing.state() == listing_run(
                    start.state(),
                    all.take(iter.index() as int),
                    start.max_pages() as nat,
                ),
        {
            proof {
                let done = all.take(iter.index() as int);
                lemma_listing_run_push(
                    start.state(),
                    done,
                    all[iter.index() as int],
                    start.max_pages() as nat,
                );
                assert(all.take(iter.index() + 1) =~= done.push(all[iter.index() as int]));
            }
            listing = listing.receive(reply);
        }
        assert(all.take(replies@.len() as int) =~= all);
        listing
    }

    /// Whether the listing is over.
    pub fn is_finished(&self) -> (finished: bool)
        ensures
            finished == (self.state() is Finished),
    {
        match &self.progress {
            Progress::Requesting { .. } => false,
            Progress::Finished { .. } => true,
        }
    }

    /// The projects of the group, or the failure that ended the listing; `None` while
    /// requests are still due.
    pub fn finish(self) -> (outcome: Option<Result<Vec<GitLabProject>, GitLabError>>)
        ensures
            match self.state() {
                ListingState::Requesting { .. } => outcome.is_none(),
                ListingState::Finished { outcome: Ok(projects) } => outcome.is_some()
                    && outcome.unwrap().is_ok() && outcome.unwrap().unwrap()@ == projects,
                ListingState::Finished { outcome: Err(error) } => outcome.is_some()
                    && outcome.unwrap().is_err() && outcome.unwrap().unwrap_err()@ == error,
            },
    {
        match self.progress {
            Progress::Requesting { .. } => None,
            Progress::Finished { outcome } => Some(outcome),
        }
    }
}

/// The projects on a page, or the failure that the reply stands for.
pub fn read_page(reply: PageReply, group_path: &str) -> (content: Result<
    Vec<GitLabProject>,
    GitLabError,
>)
    ensures
        match page_content(reply, group_path@) {
            Ok(projects) => content.is_ok() && content.unwrap()@ == projects,
            Err(error) => content.is_err() && content.unwrap_err()@ == error,
        },
{
    match reply {
        PageReply::Failed(reason) => Err(GitLabError::RequestFailed(reason)),
        PageReply::Answered { reply, projects } => {
            if reply.status == 401 || reply.status == 403 {
                Err(GitLabError::AuthenticationFailed("Invalid or expired token".to_owned()))
            } else if reply.status == 404 {
                Err(GitLabError::GroupNotFound(group_path.to_owned()))
            } else if !status_is_success(reply.status) {
                let mut text = chain("HTTP ", reply.status_text.as_str());
                text.append(": ");
                text.append(reply.body.as_str());
                Err(GitLabError::RequestFailed(text))
            } else {
                match projects {
                    Ok(list) => Ok(list),
                    Err(reason) => Err(GitLabError::ParseError(reason)),
                }
            }
        },
    }
}

/// A listing whose pages all hold projects, up to an empty page, gives the projects of
/// all the pages, in order, as long as the pages with projects are no more than the limit
/// allows.
pub proof fn lemma_listing_concatenates_pages(pages: Seq<Seq<GitLabProject>>, max_pages: nat)
    requires
        all_nonempty(pages),
        pages.len() <= max_pages,
    ensures
        listing_run(
            listing_start(max_pages),
            pages_as_contents(pages).push(Ok(Seq::empty())),
            max_pages,
        ) == (ListingState::Finished { outcome: Ok(pages.flatten()) }),
{
    if pages.len() < max_pages {
        lemma_listing_from(1, Seq::empty(), pages, max_pages);
    } else {
        lemma_listing_ends_at_limit(pages, max_pages);
        lemma_listing_run_push(
            listing_start(max_pages),
            pages_as_contents(pages),
            Ok(Seq::empty()),
            max_pages,
        );
        assert(pages.take(max_pages as int) =~= pages);
    }
}

/// A listing whose pages never run dry ends at the limit, with the projects of the pages
/// up to it.
pub proof fn lemma_listing_ends_at_limit(pages: Seq<Seq<GitLabProject>>, max_pages: nat)
    requires
        all_nonempty(pages),
        pages.len() >= max_pages,
    ensures
        listing_run(listing_start(max_pages), pages_as_contents(pages), max_pages) == (
        ListingState::Finished { outcome: Ok(pages.take(max_pages as int).flatten()) }),
{
    if max_pages == 0 {
        lemma_listing_stays_finished(
            listing_start(max_pages),
            pages_as_contents(pages),
            max_pages,
        );
    } else {
        lemma_listing_capped_from(1, Seq::empty(), pages, max_pages);
    }
}

/// A reply that refuses the token ends the listing with an authentication failure,
/// whatever was collected before.
pub proof fn lemma_unauthorized_ends_listing(
    page: nat,
    collected: Seq<GitLabProject>,
    reply: HttpReply,
    projects: Result<Vec<GitLabProject>, String>,
    group_path: Seq<char>,
    max_pages: nat,
)
    requires
        is_unauthorized(reply.status),
    ensures
        page_content(PageReply::Answered { reply, projects }, group_path) == Err::<
            Seq<GitLabProject>,
            GitLabErrorView,
        >(bad_token()),
        listing_step(
            ListingState::Requesting { page, collected },
            page_content(PageReply::Answered { reply, projects }, group_path),
            max_pages,
        ) == (ListingState::Finished { outcome: Err(bad_token()) }),
{
}

/// Once a listing is over, further contents change nothing.
pub proof fn lemma_listing_stays_finished(
    state: ListingState,
    contents: Seq<Result<Seq<GitLabProject>, GitLabErrorView>>,
    max_pages: nat,
)
    requires
        state is Finished,
    ensures
        listing_run(state, contents, max_pages) == state,
    decreases contents.len(),
{
    if contents.len() > 0 {
        lemma_listing_stays_finished(state, contents.drop_first(), max_pages);
    }
}

/// Contents that arrive one after the other are taken in one after the other.
pub proof fn lemma_listing_run_push(
    state: ListingState,
    contents: Seq<Result<Seq<GitLabProject>, GitLabErrorView>>,
    last: Result<Seq<GitLabProject>, GitLabErrorView>,
    max_pages: nat,
)
    ensures
        listing_run(state, contents.push(last), max_pages) == listing_step(
            listing_run(state, contents, max_pages),
            last,
            max_pages,
        ),
    decreases contents.len(),
{
    let all = contents.push(last);
    if contents.len() == 0 {
        assert(listing_run(listing_step(state, last, max_pages), all.drop_first(), max_pages)
            == listing_step(state, last, max_pages));
    } else {
        assert(all.drop_first() =~= contents.drop_first().push(last));
        lemma_listing_run_push(
            listing_step(state, contents.first(), max_pages),
            contents.drop_first(),
            last,
            max_pages,
        );
    }
}

proof fn lemma_listing_from(
    page: nat,
    collected: Seq<GitLabProject>,
    pages: Seq<Seq<GitLabProject>>,
    max_pages: nat,
)
    requires
        all_nonempty(pages),
        1 <= page,
        page + pages.len() <= max_pages,
    ensures
        listing_run(
            ListingState::Requesting { page, collected },
            pages_as_contents(pages).push(Ok(Seq::empty())),
            max_pages,
        ) == (ListingState::Finished { outcome: Ok(collected + pages.flatten()) }),
    decreases pages.len(),
{
    let contents = pages_as_contents(pages).push(Ok(Seq::empty()));
    let state = ListingState::Requesting { page, collected };
    if pages.len() == 0 {
        let last = listing_step(state, contents.first(), max_pages);
        assert(listing_run(last, contents.drop_first(), max_pages) == last);
    } else {
        let rest = pages.drop_first();
        assert(contents.drop_first() =~= pages_as_contents(rest).push(Ok(Seq::empty())));
        assert forall|i: int| 0 <= i < rest.len() implies (#[trigger] rest[i]).len() > 0 by {
        }
        lemma_listing_from(page + 1, collected + pages[0], rest, max_pages);
        assert(collected + pages[0] + rest.flatten() =~= collected + pages.flatten());
    }
}

proof fn lemma_listing_capped_from(
    page: nat,
    collected: Seq<GitLabProject>,
    pages: Seq<Seq<GitLabProject>>,
    max_pages: nat,
)
    requires
        all_nonempty(pages),
        1 <= page <= max_pages,
        page + pages.len() > max_pages,
    ensures
        listing_run(
            ListingState::Requesting { page, collected },
            pages_as_contents(pages),
            max_pages,
        ) == (ListingState::Finished {
            outcome: Ok(collected + pages.take(max_pages - page + 1).flatten()),
        }),
    decreases pages.len(),
{
    let contents = pages_as_contents(pages);
    let state = ListingState::Requesting { page, collected };
    let rest = pages.drop_first();
    assert(contents.drop_first() =~= pages_as_contents(rest));
    let kept = pages.take(max_pages - page + 1);
    if page == max_pages {
        let last = listing_step(state, contents.first(), max_pages);
        lemma_listing_stays_finished(last, contents.drop_first(), max_pages);
        assert(kept.drop_first().flatten() =~= Seq::<GitLabProject>::empty());
    } else {
        assert forall|i: int| 0 <= i < rest.len() implies (#[trigger] rest[i]).len() > 0 by {
        }
        lemma_listing_capped_from(page + 1, collected + pages[0], rest, max_pages);
        assert(kept.drop_first() =~= rest.take(max_pages - (page + 1) + 1));
        assert(collected + pages[0] + rest.take(max_pages - (page + 1) + 1).flatten()
            =~= collected + kept.flatten());
    }
}

} // verus!
