//! The DNS provider name.com, asked through version 4 of its API.
//!
//! The API cannot be asked for the record of one host. So an update lists
//! the records of the domain, picks the one of the configured host, changes
//! its type, answer and lifetime, and sends it back. The record has to be
//! there already: none is created.

use vstd::prelude::*;
use vstd::string::*;

use super::http::{
    join_url, optional_reply, url_joined, Method, Reading, Reply, ReplyView, Request,
    RequestView,
};
use super::{
    conclude, conclusion, credential, pick_credential, refusal, Action, ActionView, Environment,
    EnvironmentView, Progress, UpdateError, UpdateErrorView, Variable,
};
use crate::text::{
    copy_optional_text, integer_digits, integer_text, joined, optional_text, same_optional_text,
    text_result,
};

verus! {

/// Where the API is asked: the addresses of the domains lie below.
pub const BASE_URL: &'static str = "https://api.name.com/v4/domains/";

/// The settings for name.com.
#[derive(Debug, PartialEq, Eq)]
pub struct ConfigNameCom {
    /// The domain whose record is updated.
    pub domain: String,
    /// The type that the record gets, such as `A`.
    pub record_type: String,
    /// The host below the domain whose record is updated; none for the
    /// domain itself.
    pub record_host: Option<String>,
    /// The lifetime that the record gets, in seconds.
    pub record_ttl: u32,
    /// The user of the API; where it is absent the environment is asked.
    pub username: Option<String>,
    /// The token of the API; where it is absent the environment is asked.
    pub token: Option<String>,
}

/// What a [`ConfigNameCom`] holds, as sequences of characters.
pub struct ConfigNameComView {
    pub domain: Seq<char>,
    pub record_type: Seq<char>,
    pub record_host: Option<Seq<char>>,
    pub record_ttl: u32,
    pub username: Option<Seq<char>>,
    pub token: Option<Seq<char>>,
}

impl View for ConfigNameCom {
    type V = ConfigNameComView;

    open spec fn view(&self) -> ConfigNameComView {
        ConfigNameComView {
            domain: self.domain@,
            record_type: self.record_type@,
            record_host: optional_text(self.record_host),
            record_ttl: self.record_ttl,
            username: optional_text(self.username),
            token: optional_text(self.token),
        }
    }
}

/// A DNS record as name.com lists it.
#[derive(Debug, PartialEq, Eq)]
pub struct Record {
    pub id: i32,
    pub domain_name: String,
    pub record_host: Option<String>,
    pub record_type: String,
    pub record_answer: String,
    pub record_ttl: u32,
}

/// What a [`Record`] holds, as sequences of characters.
pub struct RecordView {
    pub id: i32,
    pub domain_name: Seq<char>,
    pub record_host: Option<Seq<char>>,
    pub record_type: Seq<char>,
    pub record_answer: Seq<char>,
    pub record_ttl: u32,
}

impl View for Record {
    type V = RecordView;

    open spec fn view(&self) -> RecordView {
        RecordView {
            id: self.id,
            domain_name: self.domain_name@,
            record_host: optional_text(self.record_host),
            record_type: self.record_type@,
            record_answer: self.record_answer@,
            record_ttl: self.record_ttl,
        }
    }
}

/// What a list of records holds.
pub open spec fn records_view(records: Seq<Record>) -> Seq<RecordView> {
    Seq::new(records.len(), |i: int| records[i]@)
}

impl Record {
    /// Gives the record a new type, answer and lifetime, and leaves the rest
    /// of it as it is.
    pub fn update(&mut self, record_type: &str, record_answer: &str, record_ttl: &u32)
        ensures
            final(self)@ == (RecordView {
                record_type: record_type@,
                record_answer: record_answer@,
                record_ttl: *record_ttl,
                ..old(self)@
            }),
    {
        self.record_type = String::from_str(record_type);
        self.record_answer = String::from_str(record_answer);
        self.record_ttl = *record_ttl;
    }

    /// Another record that holds the same.
    pub fn duplicate(&self) -> (r: Record)
        ensures
            r@ == self@,
    {
        Record {
            id: self.id,
            domain_name: self.domain_name.clone(),
            record_host: copy_optional_text(&self.record_host),
            record_type: self.record_type.clone(),
            record_answer: self.record_answer.clone(),
            record_ttl: self.record_ttl,
        }
    }
}

/// The first of `records` that is the record of `host`: its host is the
/// same text, or both are absent, as they are for the domain itself.
pub open spec fn record_of_host(records: Seq<RecordView>, host: Option<Seq<char>>) -> Option<
    RecordView,
>
    decreases records.len(),
{
    if records.len() == 0 {
        None
    } else if records[0].record_host == host {
        Some(records[0])
    } else {
        record_of_host(records.drop_first(), host)
    }
}

/// What an optional record holds.
pub open spec fn optional_record(record: Option<Record>) -> Option<RecordView> {
    match record {
        Some(r) => Some(r@),
        None => None,
    }
}

/// Finds among the records that name.com listed the one of `record_host`.
pub fn find_record(records: &Vec<Record>, record_host: &Option<String>) -> (r: Option<Record>)
    ensures
        optional_record(r) == record_of_host(records_view(records@), optional_text(*record_host)),
{
    let ghost all = records_view(records@);
    let ghost host = optional_text(*record_host);
    let mut i: usize = 0;
    assert(all.skip(0) =~= all);
    while i < records.len()
        invariant
            i <= records.len(),
            all == records_view(records@),
            host == optional_text(*record_host),
            record_of_host(all, host) == record_of_host(all.skip(i as int), host),
        decreases records.len() - i,
    {
        assert(all.skip(i as int)[0] == records[i as int]@);
        assert(all.skip(i as int).drop_first() =~= all.skip(i + 1));
        if same_optional_text(&records[i].record_host, record_host) {
            return Some(records[i].duplicate());
        }
        i = i + 1;
    }
    None
}

/// What the outcome of making up a request holds.
pub open spec fn request_view(r: Result<Request, UpdateError>) -> Result<
    RequestView,
    UpdateErrorView,
> {
    match r {
        Ok(request) => Ok(request@),
        Err(e) => Err(e@),
    }
}

/// The request to `url` that authenticates as `username` with `token`:
/// `url` is the outcome of making up the address, and its failure is the
/// failure of the request.
pub open spec fn authorized_request(
    method: Method,
    url: Result<Seq<char>, Seq<char>>,
    username: Seq<char>,
    token: Seq<char>,
    body: Option<RecordView>,
    reading: Reading,
) -> Result<RequestView, UpdateErrorView> {
    match url {
        Err(reason) => Err(UpdateErrorView::Url(reason)),
        Ok(address) => Ok(
            RequestView {
                method,
                url: address,
                query: Seq::empty(),
                basic_auth: Some((username, token)),
                body,
                reading,
            },
        ),
    }
}

/// Makes up the request to `url` that authenticates as `username` with
/// `token`.
pub fn authorized(
    method: Method,
    url: Result<String, String>,
    username: String,
    token: String,
    body: Option<Record>,
    reading: Reading,
) -> (r: Result<Request, UpdateError>)
    ensures
        request_view(r) == authorized_request(
            method,
            text_result(url),
            username@,
            token@,
            optional_record(body),
            reading,
        ),
{
    match url {
        Err(reason) => Err(UpdateError::Url(reason)),
        Ok(address) => {
            let request = Request {
                method,
                url: address,
                query: Vec::new(),
                basic_auth: Some((username, token)),
                body,
                reading,
            };
            assert(request@.query =~= Seq::empty());
            Ok(request)
        },
    }
}

/// Where the records of `domain` are listed, below the address of the API.
pub open spec fn records_path(domain: Seq<char>) -> Seq<char> {
    domain + "/records"@
}

/// Where `record` is kept, below the address of the API.
pub open spec fn record_path(record: RecordView) -> Seq<char> {
    record.domain_name + "/records/"@ + integer_digits(record.id as int)
}

/// The request that lists the records of `domain`.
pub open spec fn list_request(domain: Seq<char>, username: Seq<char>, token: Seq<char>) -> Result<
    RequestView,
    UpdateErrorView,
> {
    authorized_request(
        Method::Get,
        url_joined(BASE_URL@, records_path(domain)),
        username,
        token,
        None,
        Reading::Records,
    )
}

/// The request that puts `record` in the place of the one that name.com
/// holds under the same number.
pub open spec fn put_request(record: RecordView, username: Seq<char>, token: Seq<char>) -> Result<
    RequestView,
    UpdateErrorView,
> {
    authorized_request(
        Method::Put,
        url_joined(BASE_URL@, record_path(record)),
        username,
        token,
        Some(record),
        Reading::Message,
    )
}

/// Makes up the request that lists the records of `domain`.
pub fn list_records(domain: &str, username: &str, token: &str) -> (r: Result<Request, UpdateError>)
    ensures
        request_view(r) == list_request(domain@, username@, token@),
{
    let path = joined(domain, "/records");
    let url = join_url(BASE_URL, path.as_str());
    authorized(
        Method::Get,
        url,
        String::from_str(username),
        String::from_str(token),
        None,
        Reading::Records,
    )
}

/// Makes up the request that updates `record` at name.com.
pub fn update_record(username: &str, token: &str, record: Record) -> (r: Result<
    Request,
    UpdateError,
>)
    ensures
        request_view(r) == put_request(record@, username@, token@),
{
    let mut path = joined(record.domain_name.as_str(), "/records/");
    let number = integer_text(record.id);
    path.append(number.as_str());
    let url = join_url(BASE_URL, path.as_str());
    authorized(
        Method::Put,
        url,
        String::from_str(username),
        String::from_str(token),
        Some(record),
        Reading::Message,
    )
}

/// The user and the token to authenticate with: each is the configured one,
/// else the one of the environment; the user is looked for first.
pub open spec fn credentials(conf: ConfigNameComView, environment: EnvironmentView) -> Result<
    (Seq<char>, Seq<char>),
    UpdateErrorView,
> {
    match credential(conf.username, environment.name_com_username) {
        None => Err(UpdateErrorView::MissingVariable(Variable::NameComUsername)),
        Some(username) => match credential(conf.token, environment.name_com_token) {
            None => Err(UpdateErrorView::MissingVariable(Variable::NameComToken)),
            Some(token) => Ok((username, token)),
        },
    }
}

/// The record to send back: what name.com holds, with the configured type
/// and lifetime and with `ip` as the answer.
pub open spec fn updated_record(found: RecordView, conf: ConfigNameComView, ip: Seq<char>) -> RecordView {
    RecordView {
        record_type: conf.record_type,
        record_answer: ip,
        record_ttl: conf.record_ttl,
        ..found
    }
}

/// What follows the list of records: the update of the record of the
/// configured host, or an error where there is no such record.
pub open spec fn after_listing(
    conf: ConfigNameComView,
    ip: Seq<char>,
    username: Seq<char>,
    token: Seq<char>,
    records: Seq<RecordView>,
) -> Result<RequestView, UpdateErrorView> {
    match record_of_host(records, conf.record_host) {
        None => Err(UpdateErrorView::RecordNotFound),
        Some(found) => put_request(updated_record(found, conf, ip), username, token),
    }
}

/// One step of an update at name.com.
///
/// At the start the records of the domain are asked for. The list that
/// comes back is searched for the record of the configured host, and that
/// record is sent back with its new type, answer and lifetime. The answer to
/// that ends the update. Missing credentials, an address that cannot be made
/// up, a reply that is no success and a missing record each end the update
/// with their error.
pub open spec fn update_step(
    conf: ConfigNameComView,
    ip: Seq<char>,
    environment: EnvironmentView,
    progress: Progress,
    reply: Option<ReplyView>,
) -> (Progress, ActionView) {
    match credentials(conf, environment) {
        Err(e) => match progress {
            Progress::Done => (Progress::Done, ActionView::Nothing),
            _ => (Progress::Done, ActionView::Finished(Err(e))),
        },
        Ok((username, token)) => match progress {
            Progress::Start => sending(Progress::Listing, list_request(conf.domain, username, token)),
            Progress::Listing => match reply {
                None => (Progress::Listing, ActionView::Nothing),
                Some(ReplyView::Accepted(records)) => sending(
                    Progress::Updating,
                    after_listing(conf, ip, username, token, records),
                ),
                Some(other) => (Progress::Done, ActionView::Finished(Err(refusal(other)))),
            },
            Progress::Updating => match reply {
                None => (Progress::Updating, ActionView::Nothing),
                Some(r) => (Progress::Done, ActionView::Finished(conclusion(r))),
            },
            Progress::Done => (Progress::Done, ActionView::Nothing),
        },
    }
}

/// A request that could be made up is sent, and the update goes on to
/// `next`; one that could not ends the update.
pub open spec fn sending(next: Progress, request: Result<RequestView, UpdateErrorView>) -> (
    Progress,
    ActionView,
) {
    match request {
        Ok(r) => (next, ActionView::Send(r)),
        Err(e) => (Progress::Done, ActionView::Finished(Err(e))),
    }
}

/// Sends a request that could be made up, or ends the update.
fn send(next: Progress, request: Result<Request, UpdateError>) -> (r: (Progress, Action))
    ensures
        (r.0, r.1@) == sending(next, request_view(request)),
{
    match request {
        Ok(r) => (next, Action::Send(r)),
        Err(e) => (Progress::Done, Action::Finished(Err(e))),
    }
}

/// Updates the record of the configured host at name.com, step by step:
/// called with how far the update has come and what came back for the last
/// request, it says how far the update has come now and what is to be done
/// next. An update begins at `Progress::Start`.
pub fn update(
    conf: &ConfigNameCom,
    ip: &str,
    environment: &Environment,
    progress: Progress,
    reply: Option<Reply>,
) -> (r: (Progress, Action))
    ensures
        (r.0, r.1@) == update_step(conf@, ip@, environment@, progress, optional_reply(reply)),
{
    let username = match pick_credential(
        &conf.username,
        &environment.name_com_username,
        Variable::NameComUsername,
    ) {
        Ok(username) => username,
        Err(e) => {
            return match progress {
                Progress::Done => (Progress::Done, Action::Nothing),
                _ => (Progress::Done, Action::Finished(Err(e))),
            };
        },
    };
    let token = match pick_credential(
        &conf.token,
        &environment.name_com_token,
        Variable::NameComToken,
    ) {
        Ok(token) => token,
        Err(e) => {
            return match progress {
                Progress::Done => (Progress::Done, Action::Nothing),
                _ => (Progress::Done, Action::Finished(Err(e))),
            };
        },
    };
    match progress {
        Progress::Start => send(
            Progress::Listing,
            list_records(conf.domain.as_str(), username.as_str(), token.as_str()),
        ),
        Progress::Listing => match reply {
            None => (Progress::Listing, Action::Nothing),
            Some(Reply::Accepted(records)) => {
                match find_record(&records, &conf.record_host) {
                    None => (Progress::Done, Action::Finished(Err(UpdateError::RecordNotFound))),
                    Some(found) => {
                        let mut record = found;
                        record.update(conf.record_type.as_str(), ip, &conf.record_ttl);
                        send(
                            Progress::Updating,
                            update_record(username.as_str(), token.as_str(), record),
                        )
                    },
                }
            },
            Some(Reply::Failed(reason)) => (
                Progress::Done,
                Action::Finished(Err(UpdateError::Transport(reason))),
            ),
            Some(Reply::Rejected(message)) => (
                Progress::Done,
                Action::Finished(Err(UpdateError::Api(message))),
            ),
            Some(Reply::Garbled(reason)) => (
                Progress::Done,
                Action::Finished(Err(UpdateError::Undecodable(reason))),
            ),
        },
        Progress::Updating => match reply {
            None => (Progress::Updating, Action::Nothing),
            Some(r) => (Progress::Done, Action::Finished(conclude(r))),
        },
        Progress::Done => (Progress::Done, Action::Nothing),
    }
}

} // verus!
