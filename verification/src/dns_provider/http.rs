//! Requests to a DNS provider and its answers, as plain values: the library
//! says what is to be sent, and is told what came back.

use vstd::prelude::*;

use super::name_com::{records_view, Record, RecordView};

verus! {

/// The request methods that the providers are asked with.
#[derive(Debug, Clone, Copy, PartialEq, Eq, Structural)]
pub enum Method {
    Get,
    Put,
}

/// How the answer to a request is to be read.
#[derive(Debug, Clone, Copy, PartialEq, Eq, Structural)]
pub enum Reading {
    /// A success lists records; an error carries a message of the provider.
    Records,
    /// Nothing is read from a success; an error carries a message of the
    /// provider.
    Message,
    /// Nothing is read from the body: an error is told by its status alone.
    Status,
}

/// One request to a provider.
#[derive(Debug, PartialEq, Eq)]
pub struct Request {
    pub method: Method,
    /// The address that is asked, without the query.
    pub url: String,
    /// The parameters of the query, in the order in which they are sent.
    pub query: Vec<(String, String)>,
    /// The user and the password to authenticate with, where the provider
    /// asks for them.
    pub basic_auth: Option<(String, String)>,
    /// The record to send as the body, where there is one.
    pub body: Option<Record>,
    /// How the answer is to be read.
    pub reading: Reading,
}

/// What a [`Request`] holds, as sequences of characters.
pub struct RequestView {
    pub method: Method,
    pub url: Seq<char>,
    pub query: Seq<(Seq<char>, Seq<char>)>,
    pub basic_auth: Option<(Seq<char>, Seq<char>)>,
    pub body: Option<RecordView>,
    pub reading: Reading,
}

/// What a list of pairs of texts holds.
pub open spec fn pairs_view(pairs: Seq<(String, String)>) -> Seq<(Seq<char>, Seq<char>)> {
    Seq::new(pairs.len(), |i: int| (pairs[i].0@, pairs[i].1@))
}

impl View for Request {
    type V = RequestView;

    open spec fn view(&self) -> RequestView {
        RequestView {
            method: self.method,
            url: self.url@,
            query: pairs_view(self.query@),
            basic_auth: match self.basic_auth {
                Some((user, password)) => Some((user@, password@)),
                None => None,
            },
            body: match self.body {
                Some(record) => Some(record@),
                None => None,
            },
            reading: self.reading,
        }
    }
}

/// What came back for a request.
#[derive(Debug, PartialEq, Eq)]
pub enum Reply {
    /// Nothing: the request could not be sent or no answer arrived. The text
    /// says why.
    Failed(String),
    /// An answer with a status that reports no success. The text is what
    /// the provider says of it.
    Rejected(String),
    /// An answer that could not be read. The text says why.
    Garbled(String),
    /// An answer that reports success, with the records that it lists, if it
    /// lists any.
    Accepted(Vec<Record>),
}

/// What a [`Reply`] holds, as sequences of characters.
pub enum ReplyView {
    Failed(Seq<char>),
    Rejected(Seq<char>),
    Garbled(Seq<char>),
    Accepted(Seq<RecordView>),
}

impl View for Reply {
    type V = ReplyView;

    open spec fn view(&self) -> ReplyView {
        match *self {
            Reply::Failed(reason) => ReplyView::Failed(reason@),
            Reply::Rejected(message) => ReplyView::Rejected(message@),
            Reply::Garbled(reason) => ReplyView::Garbled(reason@),
            Reply::Accepted(records) => ReplyView::Accepted(records_view(records@)),
        }
    }
}

/// What an optional [`Reply`] holds.
pub open spec fn optional_reply(reply: Option<Reply>) -> Option<ReplyView> {
    match reply {
        Some(r) => Some(r@),
        None => None,
    }
}

/// Tells whether a status reports anything but success: every status
/// outside of 200 to 299.
pub fn is_error_status(status: u16) -> (r: bool)
    ensures
        r == !(200 <= status < 300),
{
    status < 200 || status >= 300
}

/// What is to be decoded from the body of an answer.
#[derive(Debug, Clone, Copy, PartialEq, Eq, Structural)]
pub enum Decoding {
    /// Nothing.
    Nothing,
    /// The message in which the provider says what went wrong.
    Message,
    /// The records that the provider lists.
    Records,
}

/// What is to be decoded from an answer with this status to a request that
/// is read in this way: from an answer that reports no success the
/// provider's message, where the request reads one; from a success the
/// records, where the request reads them; else nothing.
pub open spec fn what_to_decode(reading: Reading, status: u16) -> Decoding {
    if !(200 <= status < 300) {
        match reading {
            Reading::Status => Decoding::Nothing,
            Reading::Records => Decoding::Message,
            Reading::Message => Decoding::Message,
        }
    } else {
        match reading {
            Reading::Records => Decoding::Records,
            Reading::Message => Decoding::Nothing,
            Reading::Status => Decoding::Nothing,
        }
    }
}

/// Says what is to be decoded from the body of an answer.
pub fn decoding(reading: Reading, status: u16) -> (r: Decoding)
    ensures
        r == what_to_decode(reading, status),
{
    if is_error_status(status) {
        match reading {
            Reading::Status => Decoding::Nothing,
            Reading::Records => Decoding::Message,
            Reading::Message => Decoding::Message,
        }
    } else {
        match reading {
            Reading::Records => Decoding::Records,
            Reading::Message => Decoding::Nothing,
            Reading::Status => Decoding::Nothing,
        }
    }
}

/// What an attempt to decode a message holds.
pub open spec fn decoded_message(message: Option<Result<String, String>>) -> Option<
    Result<Seq<char>, Seq<char>>,
> {
    match message {
        Some(Ok(text)) => Some(Ok(text@)),
        Some(Err(reason)) => Some(Err(reason@)),
        None => None,
    }
}

/// What an attempt to decode a list of records holds.
pub open spec fn decoded_records(records: Option<Result<Vec<Record>, String>>) -> Option<
    Result<Seq<RecordView>, Seq<char>>,
> {
    match records {
        Some(Ok(list)) => Some(Ok(records_view(list@))),
        Some(Err(reason)) => Some(Err(reason@)),
        None => None,
    }
}

/// The reply that an answer stands for. `said` is the status in words;
/// `message` and `records` are what decoding the body gave, where it was
/// tried.
///
/// A status that reports no success is a rejection, in the words of the
/// provider's message where the request reads one, else in the words of the
/// status. A success is accepted, with the records where the request reads
/// them. A body that was to be decoded and could not be makes the answer
/// garbled; records that were to be decoded and are missing do so too.
pub open spec fn reply_read(
    reading: Reading,
    status: u16,
    said: Seq<char>,
    message: Option<Result<Seq<char>, Seq<char>>>,
    records: Option<Result<Seq<RecordView>, Seq<char>>>,
) -> ReplyView {
    match what_to_decode(reading, status) {
        Decoding::Nothing => if !(200 <= status < 300) {
            ReplyView::Rejected(said)
        } else {
            ReplyView::Accepted(Seq::empty())
        },
        Decoding::Message => match message {
            Some(Ok(text)) => ReplyView::Rejected(text),
            Some(Err(reason)) => ReplyView::Garbled(reason),
            None => ReplyView::Rejected(said),
        },
        Decoding::Records => match records {
            Some(Ok(list)) => ReplyView::Accepted(list),
            Some(Err(reason)) => ReplyView::Garbled(reason),
            None => ReplyView::Garbled(said),
        },
    }
}

/// Makes the reply out of an answer: its status, the status in words, and
/// what decoding its body gave.
pub fn reply_of(
    reading: Reading,
    status: u16,
    said: String,
    message: Option<Result<String, String>>,
    records: Option<Result<Vec<Record>, String>>,
) -> (r: Reply)
    ensures
        r@ == reply_read(
            reading,
            status,
            said@,
            decoded_message(message),
            decoded_records(records),
        ),
{
    match decoding(reading, status) {
        Decoding::Nothing => {
            if is_error_status(status) {
                Reply::Rejected(said)
            } else {
                let none: Vec<Record> = Vec::new();
                assert(records_view(none@) =~= Seq::empty());
                Reply::Accepted(none)
            }
        },
        Decoding::Message => match message {
            Some(Ok(text)) => Reply::Rejected(text),
            Some(Err(reason)) => Reply::Garbled(reason),
            None => Reply::Rejected(said),
        },
        Decoding::Records => match records {
            Some(Ok(list)) => Reply::Accepted(list),
            Some(Err(reason)) => Reply::Garbled(reason),
            None => Reply::Garbled(said),
        },
    }
}

/// What `url::Url::join` makes of `relative` against the address that
/// `url::Url::parse` reads from `base`: the text of the address that it
/// names, or the message of the error where either of them fails.
pub uninterp spec fn url_joined(base: Seq<char>, relative: Seq<char>) -> Result<
    Seq<char>,
    Seq<char>,
>;

/// Parses `base` with `reqwest::Url::parse` and resolves `relative` against
/// it with `Url::join`. The contract only gives the outcome its name: nothing
/// is claimed of the address that comes out.
#[verifier::external_body]
pub(crate) fn join_url(base: &str, relative: &str) -> (r: Result<String, String>)
    ensures
        crate::text::text_result(r) == url_joined(base@, relative@),
{
    match reqwest::Url::parse(base) {
        Ok(parsed) => match parsed.join(relative) {
            Ok(joined) => Ok(String::from(joined)),
            Err(e) => Err(e.to_string()),
        },
        Err(e) => Err(e.to_string()),
    }
}

} // verus!
