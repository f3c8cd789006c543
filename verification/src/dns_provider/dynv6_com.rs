//! The DNS provider dynv6.com: one request that names the zone, the token
//! and the new address does the update, and may be repeated at will.

use vstd::prelude::*;
use vstd::string::*;

use super::http::{optional_reply, Method, Reading, Reply, ReplyView, Request, RequestView};
use super::{
    conclude, conclusion, credential, pick_credential, Action, ActionView, Environment,
    EnvironmentView, Progress, UpdateErrorView, Variable,
};
use crate::text::optional_text;

verus! {

/// Where the update is sent.
pub const BASE_URL: &'static str = "https://dynv6.com/api/update";

/// The settings for dynv6.com.
#[derive(Debug, PartialEq, Eq)]
pub struct ConfigDynv6Com {
    /// The zone whose address is updated.
    pub zone: String,
    /// The token of the API; where it is absent the environment is asked.
    pub token: Option<String>,
}

/// What a [`ConfigDynv6Com`] holds, as sequences of characters.
pub struct ConfigDynv6ComView {
    pub zone: Seq<char>,
    pub token: Option<Seq<char>>,
}

impl View for ConfigDynv6Com {
    type V = ConfigDynv6ComView;

    open spec fn view(&self) -> ConfigDynv6ComView {
        ConfigDynv6ComView { zone: self.zone@, token: optional_text(self.token) }
    }
}

/// The request that updates `zone` to `ip` with `token`.
pub open spec fn update_request(zone: Seq<char>, token: Seq<char>, ip: Seq<char>) -> RequestView {
    RequestView {
        method: Method::Get,
        url: BASE_URL@,
        query: seq![("zone"@, zone), ("token"@, token), ("ipv4"@, ip)],
        basic_auth: None,
        body: None,
        reading: Reading::Status,
    }
}

/// One step of an update at dynv6.com.
///
/// At the start the request is made up, or the update ends for want of a
/// token. Once the request is out, the answer to it ends the update.
pub open spec fn update_step(
    conf: ConfigDynv6ComView,
    ip: Seq<char>,
    environment: EnvironmentView,
    progress: Progress,
    reply: Option<ReplyView>,
) -> (Progress, ActionView) {
    match progress {
        Progress::Start => match credential(conf.token, environment.dynv6_com_token) {
            None => (
                Progress::Done,
                ActionView::Finished(Err(UpdateErrorView::MissingVariable(Variable::Dynv6ComToken))),
            ),
            Some(token) => (
                Progress::Updating,
                ActionView::Send(update_request(conf.zone, token, ip)),
            ),
        },
        Progress::Listing => (Progress::Done, ActionView::Nothing),
        Progress::Updating => match reply {
            None => (Progress::Updating, ActionView::Nothing),
            Some(r) => (Progress::Done, ActionView::Finished(conclusion(r))),
        },
        Progress::Done => (Progress::Done, ActionView::Nothing),
    }
}

/// Updates the address of the configured zone at dynv6.com, step by step:
/// called with how far the update has come and what came back for the last
/// request, it says how far the update has come now and what is to be done
/// next. An update begins at `Progress::Start`.
pub fn update(
    conf: &ConfigDynv6Com,
    ip: &str,
    environment: &Environment,
    progress: Progress,
    reply: Option<Reply>,
) -> (r: (Progress, Action))
    ensures
        (r.0, r.1@) == update_step(conf@, ip@, environment@, progress, optional_reply(reply)),
{
    match progress {
        Progress::Start => {
            match pick_credential(&conf.token, &environment.dynv6_com_token, Variable::Dynv6ComToken) {
                Err(e) => (Progress::Done, Action::Finished(Err(e))),
                Ok(token) => {
                    let mut query: Vec<(String, String)> = Vec::new();
                    query.push((String::from_str("zone"), conf.zone.clone()));
                    query.push((String::from_str("token"), token));
                    query.push((String::from_str("ipv4"), String::from_str(ip)));
                    let request = Request {
                        method: Method::Get,
                        url: String::from_str(BASE_URL),
                        query,
                        basic_auth: None,
                        body: None,
                        reading: Reading::Status,
                    };
                    assert(request@.query =~= update_request(conf@.zone, token@, ip@).query);
                    (Progress::Updating, Action::Send(request))
                },
            }
        },
        Progress::Listing => (Progress::Done, Action::Nothing),
        Progress::Updating => match reply {
            None => (Progress::Updating, Action::Nothing),
            Some(r) => (Progress::Done, Action::Finished(conclude(r))),
        },
        Progress::Done => (Progress::Done, Action::Nothing),
    }
}

} // verus!
