//! The session with the portal and the block fetch: when to log in, which
//! requests make up a block of pages, and how their answers become one
//! ordered list of records.

use crate::models::{GetRecordsRequest, GetRecordsResponse, ListType, LoginRequest, Record};
use vstd::prelude::*;
use vstd::string::*;

verus! {

/// Records that one listing request returns.
pub const DEFAULT_GET_RECORDS_COUNT: i32 = 11;

/// Listing requests that may be in flight at once.
pub const MAX_PARALLEL_REQUESTS: usize = 10;

/// Seconds after which a login is no longer relied on.
pub const SESSION_SECONDS: i64 = 3600;

/// The HTTP status with which the portal accepts a login.
pub const STATUS_OK: u16 = 200;

/// Why an exchange with the portal failed.
#[derive(Debug, Clone, Copy, PartialEq, Eq, Structural)]
pub enum ApiError {
    /// The portal answered the login with a status other than success.
    AuthenticationFailure,
    /// A request did not get through, or was answered with a failure status.
    TransportFailure,
    /// An answer did not have the expected shape.
    MalformedResponse,
    /// An answer held a value outside one of the closed vocabularies.
    UnrecognizedVocabularyValue,
}

/// What has to happen before a block fetch may go out.
#[derive(Debug, Clone, Copy, PartialEq, Eq, Structural)]
pub enum SessionAction {
    /// Log in first: there is no session, or it is too old.
    Login,
    /// The session stands: fetch.
    Proceed,
}

/// The root of every address of the portal.
pub open spec fn api_url() -> Seq<char> {
    "https://portal.biotechware.com"@
}

/// The address that takes the login form.
pub fn login_url() -> (url: String)
    ensures
        url@ == api_url() + "/login_handler?__logins=0&came_from=%2F"@,
{
    String::from_str("https://portal.biotechware.com").concat(
        "/login_handler?__logins=0&came_from=%2F",
    )
}

/// The address that answers listing requests.
pub fn records_url() -> (url: String)
    ensures
        url@ == api_url() + "/manage/ecg/get_other_records"@,
{
    String::from_str("https://portal.biotechware.com").concat("/manage/ecg/get_other_records")
}

/// Whether a session last opened at `last_logged` must be opened anew at `now`.
pub open spec fn login_due(last_logged: Option<i64>, now: i64) -> bool {
    match last_logged {
        None => true,
        Some(at) => now - at > SESSION_SECONDS,
    }
}

/// What has to happen at second `now` before a block fetch may go out.
pub open spec fn session_action(last_logged: Option<i64>, now: i64) -> SessionAction {
    if login_due(last_logged, now) {
        SessionAction::Login
    } else {
        SessionAction::Proceed
    }
}

/// Reads the clock with `chrono::Utc::now` and hands out its `timestamp`,
/// the seconds since the epoch. Trusted; nothing is claimed of the value.
/// chrono gives up where the machine's clock stands before 1970.
#[verifier::external_body]
fn seconds_now() -> (now: i64) {
    chrono::Utc::now().timestamp()
}

/// The portal's counter for the page `index` places after `page`: the
/// 1-based position of that page's first record.
pub open spec fn counter_at(page: int, index: int) -> int {
    (page - 1) * 11 + 1 + 11 * index
}

/// Whether the counters of `num_of_pages` pages from `page` on can be written as `i32`.
pub open spec fn counters_fit(page: int, num_of_pages: int) -> bool {
    0 <= num_of_pages && (num_of_pages > 0 ==> i32::MIN <= counter_at(page, 0) && counter_at(
        page,
        num_of_pages - 1,
    ) <= i32::MAX)
}

/// The records of all pages, one page after the other.
pub open spec fn concat_pages(pages: Seq<Seq<Record>>) -> Seq<Record>
    decreases pages.len(),
{
    if pages.len() == 0 {
        Seq::empty()
    } else {
        concat_pages(pages.drop_last()) + pages.last()
    }
}

/// The contents of each page.
pub open spec fn page_contents(pages: Seq<Vec<Record>>) -> Seq<Seq<Record>> {
    pages.map_values(|page: Vec<Record>| page@)
}

/// The failure of the earliest request that failed, if any did.
pub open spec fn first_failure(answers: Seq<Result<Vec<Record>, ApiError>>) -> Option<ApiError>
    decreases answers.len(),
{
    if answers.len() == 0 {
        None
    } else {
        match first_failure(answers.drop_last()) {
            Some(e) => Some(e),
            None => match answers.last() {
                Err(e) => Some(e),
                Ok(_) => None,
            },
        }
    }
}

/// The pages that the answers delivered, a failed answer counting as an empty page.
pub open spec fn delivered_pages(answers: Seq<Result<Vec<Record>, ApiError>>) -> Seq<Seq<Record>> {
    answers.map_values(
        |a: Result<Vec<Record>, ApiError>|
            match a {
                Ok(page) => page@,
                Err(_) => Seq::<Record>::empty(),
            },
    )
}

/// Counters step by one page: the first of a block stands one past the
/// records of the pages before it, each next one is a page further, and
/// the counter of a page does not depend on the block it is fetched in.
pub proof fn counters_step_by_page(page: int, index: int)
    ensures
        counter_at(page, 0) == (page - 1) * DEFAULT_GET_RECORDS_COUNT + 1,
        counter_at(page, index + 1) == counter_at(page, index) + DEFAULT_GET_RECORDS_COUNT,
        counter_at(page, index) == counter_at(page + index, 0),
{
}

/// Pages read as one stream: the records of two runs of pages, one after
/// the other, are the records of the first run followed by those of the second.
pub proof fn concat_pages_of_two_runs(first: Seq<Seq<Record>>, second: Seq<Seq<Record>>)
    ensures
        concat_pages(first + second) == concat_pages(first) + concat_pages(second),
    decreases second.len(),
{
    if second.len() > 0 {
        concat_pages_of_two_runs(first, second.drop_last());
        assert((first + second).drop_last() =~= first + second.drop_last());
        assert((first + second).last() == second.last());
    }
}

/// The outcome of a block fetch whose requests were answered, in the order
/// of submission, by `answers`: the failure of the earliest request that
/// failed, or else the records of all pages, page after page in that order.
pub open spec fn block_outcome(answers: Seq<Result<Vec<Record>, ApiError>>) -> Result<
    Seq<Record>,
    ApiError,
> {
    match first_failure(answers) {
        Some(e) => Err(e),
        None => Ok(concat_pages(delivered_pages(answers))),
    }
}

/// The session with the portal: the credentials, and when the last login succeeded.
pub struct BiotechwareApi {
    last_logged: Option<i64>,
    username: String,
    password: String,
}

impl BiotechwareApi {
    /// The second at which the last login succeeded, if one did.
    pub closed spec fn last_logged(&self) -> Option<i64> {
        self.last_logged
    }

    /// The name under which the session logs in.
    pub closed spec fn username(&self) -> Seq<char> {
        self.username@
    }

    /// The password with which the session logs in.
    pub closed spec fn password(&self) -> Seq<char> {
        self.password@
    }

    /// A session that has not logged in yet.
    pub fn new(username: String, password: String) -> (api: BiotechwareApi)
        ensures
            api.last_logged() is None,
            api.username() == username@,
            api.password() == password@,
    {
        BiotechwareApi { username, password, last_logged: None }
    }

    /// Decides at second `now` whether a login has to precede the next
    /// fetch: it has when none succeeded yet, or the last one is more than
    /// an hour old.
    pub fn ensure_authenticated(&self, now: i64) -> (action: SessionAction)
        ensures
            action == session_action(self.last_logged(), now),
    {
        let due: bool = match self.last_logged {
            None => true,
            Some(at) => match now.checked_sub(at) {
                Some(age) => age > SESSION_SECONDS,
                None => now > at,
            },
        };
        if due {
            SessionAction::Login
        } else {
            SessionAction::Proceed
        }
    }

    /// Decides by the clock whether a login has to precede the next fetch:
    /// the decision is that of `ensure_authenticated` at the second the
    /// clock showed.
    pub fn ensure_authenticated_now(&self) -> (action: SessionAction)
        ensures
            exists|now: i64| action == #[trigger] session_action(self.last_logged(), now),
            self.last_logged() is None ==> action == SessionAction::Login,
    {
        let now: i64 = seconds_now();
        self.ensure_authenticated(now)
    }

    /// The form to submit for a login.
    pub fn login_request(&self) -> (form: LoginRequest)
        ensures
            form.login@ == self.username(),
            form.password@ == self.password(),
    {
        LoginRequest { login: self.username.clone(), password: self.password.clone() }
    }

    /// Takes note of how the portal answered the login form at second
    /// `now`. Success stamps the session; any other status is an
    /// authentication failure and leaves the session as it was.
    pub fn login(&mut self, status: u16, now: i64) -> (outcome: Result<(), ApiError>)
        ensures
            final(self).username() == old(self).username(),
            final(self).password() == old(self).password(),
            status == STATUS_OK ==> outcome == Ok::<(), ApiError>(()) && final(self).last_logged()
                == Some(now),
            status != STATUS_OK ==> outcome == Err::<(), ApiError>(ApiError::AuthenticationFailure)
                && final(self).last_logged() == old(self).last_logged(),
    {
        if status == STATUS_OK {
            self.last_logged = Some(now);
            Ok(())
        } else {
            Err(ApiError::AuthenticationFailure)
        }
    }

    /// Takes note of how the portal answered the login form just now: as
    /// `login` does, with the second that the clock shows.
    pub fn login_now(&mut self, status: u16) -> (outcome: Result<(), ApiError>)
        ensures
            final(self).username() == old(self).username(),
            final(self).password() == old(self).password(),
            status == STATUS_OK ==> outcome == Ok::<(), ApiError>(()) && final(self).last_logged()
                is Some,
            status != STATUS_OK ==> outcome == Err::<(), ApiError>(ApiError::AuthenticationFailure)
                && final(self).last_logged() == old(self).last_logged(),
    {
        let now: i64 = seconds_now();
        self.login(status, now)
    }

    /// Whether the counters of `num_of_pages` pages from `page` on can be written as `i32`.
    pub fn block_fits(page: i32, num_of_pages: i32) -> (fits: bool)
        ensures
            fits == counters_fit(page as int, num_of_pages as int),
    {
        if num_of_pages < 0 {
            false
        } else if num_of_pages == 0 {
            true
        } else {
            let first: i64 = (page as i64 - 1) * 11 + 1;
            let last: i64 = first + 11 * (num_of_pages as i64 - 1);
            -2147483648 <= first && last <= 2147483647
        }
    }

    /// The portal's counters for `num_of_pages` pages from `page` on: the
    /// first is `(page - 1) * 11 + 1`, and each next one is 11 more.
    pub fn counters(page: i32, num_of_pages: i32) -> (counters: Vec<i32>)
        requires
            counters_fit(page as int, num_of_pages as int),
        ensures
            counters@.len() == num_of_pages,
            forall|i: int| 0 <= i < num_of_pages ==> #[trigger] counters@[i] == counter_at(page as int, i),
    {
        let mut counters: Vec<i32> = Vec::new();
        let mut index: i32 = 0;
        while index < num_of_pages
            invariant
                counters_fit(page as int, num_of_pages as int),
                0 <= index <= num_of_pages,
                counters@.len() == index,
                forall|i: int| 0 <= i < index ==> #[trigger] counters@[i] == counter_at(page as int, i),
            decreases num_of_pages - index,
        {
            let counter: i64 = (page as i64 - 1) * 11 + 1 + 11 * (index as i64);
            counters.push(counter as i32);
            index = index + 1;
        }
        counters
    }

    /// The queries of one block fetch, in the order in which they are
    /// submitted: one per counter, each for the same listing, with the
    /// fixed log type and both filters empty.
    pub fn page_requests(list_type: ListType, page: i32, num_of_pages: i32) -> (requests: Vec<
        GetRecordsRequest,
    >)
        requires
            counters_fit(page as int, num_of_pages as int),
        ensures
            requests@.len() == num_of_pages,
            forall|i: int|
                0 <= i < num_of_pages ==> {
                    let q = #[trigger] requests@[i];
                    &&& q.counter == counter_at(page as int, i)
                    &&& q.type_log@ == "physician"@
                    &&& q.list_type == list_type
                    &&& q.record_types_filter@ == Seq::<char>::empty()
                    &&& q.search_filter@ == Seq::<char>::empty()
                },
    {
        let counters = Self::counters(page, num_of_pages);
        let mut requests: Vec<GetRecordsRequest> = Vec::new();
        let mut index: usize = 0;
        while index < counters.len()
            invariant
                counters@.len() == num_of_pages,
                forall|i: int| 0 <= i < num_of_pages ==> #[trigger] counters@[i] == counter_at(page as int, i),
                0 <= index <= counters@.len(),
                requests@.len() == index,
                forall|i: int|
                    0 <= i < index ==> {
                        let q = #[trigger] requests@[i];
                        &&& q.counter == counter_at(page as int, i)
                        &&& q.type_log@ == "physician"@
                        &&& q.list_type == list_type
                        &&& q.record_types_filter@ == Seq::<char>::empty()
                        &&& q.search_filter@ == Seq::<char>::empty()
                    },
            decreases counters@.len() - index,
        {
            requests.push(
                GetRecordsRequest {
                    counter: counters[index],
                    type_log: String::from_str("physician"),
                    list_type,
                    record_types_filter: String::new(),
                    search_filter: String::new(),
                },
            );
            index = index + 1;
        }
        requests
    }

    /// The records of a block whose pages all arrived: the pages'
    /// records, page after page in the order of submission.
    pub fn flatten_pages(pages: Vec<Vec<Record>>) -> (records: Vec<Record>)
        ensures
            records@ == concat_pages(page_contents(pages@)),
        decreases pages@.len(),
    {
        let mut pages = pages;
        let ghost all = pages@;
        match pages.pop() {
            None => Vec::new(),
            Some(last) => {
                proof {
                    assert(page_contents(all).drop_last() =~= page_contents(all.drop_last()));
                }
                let mut last = last;
                let mut records = Self::flatten_pages(pages);
                records.append(&mut last);
                records
            },
        }
    }

    /// The outcome of a block fetch, from the answers to its requests in
    /// the order of submission. One failed request fails the block, with
    /// the failure of the earliest such request; otherwise the block is the
    /// pages' records, page after page in that order.
    pub fn get_records(answers: Vec<Result<Vec<Record>, ApiError>>) -> (block: Result<
        Vec<Record>,
        ApiError,
    >)
        ensures
            match block_outcome(answers@) {
                Err(e) => block == Err::<Vec<Record>, ApiError>(e),
                Ok(expected) => block matches Ok(records) && records@ == expected,
            },
        decreases answers@.len(),
    {
        let mut answers = answers;
        let ghost all = answers@;
        match answers.pop() {
            None => Ok(Vec::new()),
            Some(last) => {
                proof {
                    assert(delivered_pages(all).drop_last() =~= delivered_pages(all.drop_last()));
                }
                match Self::get_records(answers) {
                    Err(e) => Err(e),
                    Ok(records) => match last {
                        Err(e) => Err(e),
                        Ok(page) => {
                            let mut records = records;
                            let mut page = page;
                            records.append(&mut page);
                            Ok(records)
                        },
                    },
                }
            },
        }
    }

    /// The page of records that an answer of the portal carries.
    pub fn page_of(response: GetRecordsResponse) -> (page: Vec<Record>)
        ensures
            page == response.list,
    {
        response.list
    }
}

} // verus!
