use vstd::prelude::*;

use crate::color::{color_of_text, color_text_ok, Rgb};
use crate::error::{ErrorDetail, ErrorKind};
use crate::fetcher::ResponseSummary;
use crate::json::{encodable_text, user_doc_text};
use crate::lifecycle::RequestLifecycle;
use crate::numbers::{dec_rep, dec_val, is_numeral};

verus! {

/// The payload entity of the user service: a display name and a color.
#[derive(Debug, PartialEq)]
pub struct User {
    pub name: String,
    pub color: Rgb,
}

impl Clone for User {
    fn clone(&self) -> (r: Self)
        ensures
            r == *self,
    {
        User { name: self.name.clone(), color: self.color }
    }
}

/// Whether a text names a user id: an unsigned decimal numeral whose
/// value the id type can hold.
pub open spec fn valid_id_text(s: Seq<char>) -> bool {
    is_numeral(s) && dec_val(s) <= u32::MAX
}

/// The address of one user record.
pub open spec fn user_item_url_text(base: Seq<char>, api: Seq<char>, id: nat) -> Seq<char> {
    base + "/"@ + api + "/user/"@ + dec_rep(id)
}

/// The address of the user collection.
pub open spec fn user_collection_url_text(base: Seq<char>, api: Seq<char>) -> Seq<char> {
    base + "/"@ + api + "/user"@
}

fn user_item_url(base: &str, api: &str, id: u32) -> (r: String)
    ensures
        r@ == user_item_url_text(base@, api@, id as nat),
{
    let mut url = String::from_str(base);
    url.append("/");
    url.append(api);
    url.append("/user/");
    url.append(crate::numbers::u32_string(id).as_str());
    proof {
        assert(url@ =~= user_item_url_text(base@, api@, id as nat));
    }
    url
}

fn user_collection_url(base: &str, api: &str) -> (r: String)
    ensures
        r@ == user_collection_url_text(base@, api@),
{
    let mut url = String::from_str(base);
    url.append("/");
    url.append(api);
    url.append("/user");
    proof {
        assert(url@ =~= user_collection_url_text(base@, api@));
    }
    url
}

/// An event on the user page: one of the three buttons, each carrying
/// what its input fields held when it was pressed, or a settlement
/// arriving for one of the three request slots.
pub enum Msg {
    PostUser { name: String, color_text: String },
    DeleteUser { id_text: String },
    GetUser { id_text: String },
    SetGetState(RequestLifecycle<User>),
    SetPostState(RequestLifecycle<ResponseSummary>),
    SetDeleteState(RequestLifecycle<ResponseSummary>),
}

/// What the user page asks its surroundings to do after an event: issue
/// one HTTP request, or notify the user at once.
pub enum RestAction {
    DispatchGet { url: String },
    DispatchPost { url: String, body: String },
    DispatchDelete { url: String },
    Alert { message: String },
}

/// The user page: one lifecycle slot per request kind, and the base
/// address and API path segment requests go to.
pub struct Rest {
    pub base: String,
    pub api: String,
    pub get_state: RequestLifecycle<User>,
    pub post_state: RequestLifecycle<ResponseSummary>,
    pub delete_state: RequestLifecycle<ResponseSummary>,
}

impl Rest {
    /// A fresh page: nothing fetched yet.
    pub fn create(base: String, api: String) -> (r: Self)
        ensures
            r.base == base,
            r.api == api,
            r.get_state is Idle,
            r.post_state is Idle,
            r.delete_state is Idle,
    {
        Rest {
            base,
            api,
            get_state: RequestLifecycle::idle(),
            post_state: RequestLifecycle::idle(),
            delete_state: RequestLifecycle::idle(),
        }
    }

    /// Step the page under one event. The result says whether the page
    /// must re-render and what, if anything, to do next. Malformed
    /// local input (a bad id, a bad color) is rejected with an alert
    /// before any request is issued: the page state does not move and
    /// nothing is dispatched.
    pub fn update(&mut self, msg: Msg) -> (r: (bool, Option<RestAction>))
        ensures
            final(self).base == old(self).base && final(self).api == old(self).api,
            msg matches Msg::SetGetState(s) ==> final(self).get_state == s && final(self).post_state == old(self).post_state && final(self).delete_state == old(self).delete_state && r.0 == true && r.1 is None,
            msg matches Msg::SetPostState(s) ==> final(self).post_state == s && final(self).get_state == old(self).get_state && final(self).delete_state == old(self).delete_state && r.0 == true && r.1 is None,
            msg matches Msg::SetDeleteState(s) ==> final(self).delete_state == s && final(self).get_state == old(self).get_state && final(self).post_state == old(self).post_state
                && r.0 == true && r.1 is None,
            msg matches Msg::GetUser { id_text } ==> (if valid_id_text(id_text@) {
                final(self).get_state is InFlight && final(self).post_state == old(self).post_state
                    && final(self).delete_state == old(self).delete_state && r.0 == true && (
                r.1 matches Some(RestAction::DispatchGet { url }) && url@ == user_item_url_text(
                    old(self).base@,
                    old(self).api@,
                    dec_val(id_text@),
                ))
            } else {
                *final(self) == *old(self) && r.0 == false && (r.1 matches Some(
                    RestAction::Alert { .. },
                ))
            }),
            msg matches Msg::DeleteUser { id_text } ==> (if valid_id_text(id_text@) {
                final(self).delete_state is InFlight && final(self).get_state == old(self).get_state && final(self).post_state == old(self).post_state && r.0 == true && (
                r.1 matches Some(RestAction::DispatchDelete { url }) && url@ == user_item_url_text(
                    old(self).base@,
                    old(self).api@,
                    dec_val(id_text@),
                ))
            } else {
                *final(self) == *old(self) && r.0 == false && (r.1 matches Some(
                    RestAction::Alert { .. },
                ))
            }),
            msg matches Msg::PostUser { name, color_text } ==> (if color_text_ok(color_text@) {
                if encodable_text(name@) {
                    final(self).post_state is InFlight && final(self).get_state == old(self).get_state && final(self).delete_state == old(self).delete_state && r.0
                        == true && (r.1 matches Some(RestAction::DispatchPost { url, body }) && url@
                        == user_collection_url_text(old(self).base@, old(self).api@) && body@
                        == user_doc_text(name@, color_of_text(color_text@)))
                } else {
                    (final(self).post_state matches RequestLifecycle::Failed(e) && e.kind
                        == ErrorKind::Decode) && final(self).get_state == old(self).get_state
                        && final(self).delete_state == old(self).delete_state && r.0 == true
                        && r.1 is None
                }
            } else {
                *final(self) == *old(self) && r.0 == false && (r.1 matches Some(
                    RestAction::Alert { .. },
                ))
            }),
    {
        match msg {
            Msg::SetGetState(s) => {
                self.get_state = s;
                (true, None)
            },
            Msg::SetPostState(s) => {
                self.post_state = s;
                (true, None)
            },
            Msg::SetDeleteState(s) => {
                self.delete_state = s;
                (true, None)
            },
            Msg::GetUser { id_text } => {
                match crate::numbers::parse_u32(id_text.as_str()) {
                    Some(id) => {
                        let url = user_item_url(self.base.as_str(), self.api.as_str(), id);
                        self.get_state = RequestLifecycle::InFlight;
                        (true, Some(RestAction::DispatchGet { url }))
                    },
                    None => (
                        false,
                        Some(
                            RestAction::Alert {
                                message: String::from_str("the user id must be an unsigned number"),
                            },
                        ),
                    ),
                }
            },
            Msg::DeleteUser { id_text } => {
                match crate::numbers::parse_u32(id_text.as_str()) {
                    Some(id) => {
                        let url = user_item_url(self.base.as_str(), self.api.as_str(), id);
                        self.delete_state = RequestLifecycle::InFlight;
                        (true, Some(RestAction::DispatchDelete { url }))
                    },
                    None => (
                        false,
                        Some(
                            RestAction::Alert {
                                message: String::from_str("the user id must be an unsigned number"),
                            },
                        ),
                    ),
                }
            },
            Msg::PostUser { name, color_text } => {
                match crate::color::parse_hex_color(color_text.as_str()) {
                    Err(e) => (false, Some(RestAction::Alert { message: e.message })),
                    Ok(color) => {
                        match crate::json::encode_user_text(name.as_str(), color) {
                            None => {
                                self.post_state = RequestLifecycle::Failed(
                                    ErrorDetail::decode(
                                        String::from_str(
                                            "the name holds characters the wire format cannot carry",
                                        ),
                                    ),
                                );
                                (true, None)
                            },
                            Some(body) => {
                                let url = user_collection_url(
                                    self.base.as_str(),
                                    self.api.as_str(),
                                );
                                self.post_state = RequestLifecycle::InFlight;
                                (true, Some(RestAction::DispatchPost { url, body }))
                            },
                        }
                    },
                }
            },
        }
    }

    /// The notice the page raises for the delete slot: nothing while
    /// idle or in flight; on a settled delete, "Deleted" when the
    /// status was a success and "No such user id" otherwise; on a
    /// failed request, the failure with its reason.
    pub fn delete_notice(&self) -> (r: Option<String>)
        ensures
            self.delete_state is Idle || self.delete_state is InFlight <==> r is None,
            self.delete_state matches RequestLifecycle::Succeeded(resp) ==> (r matches Some(m) && m@
                == (if resp.spec_ok() {
                "Deleted"@
            } else {
                "No such user id"@
            })),
            self.delete_state matches RequestLifecycle::Failed(e) ==> (r matches Some(m) && m@
                == "Delete request failed; Reason: "@ + e.message@),
    {
        match &self.delete_state {
            RequestLifecycle::Idle => None,
            RequestLifecycle::InFlight => None,
            RequestLifecycle::Succeeded(resp) => {
                if resp.ok() {
                    Some(String::from_str("Deleted"))
                } else {
                    Some(String::from_str("No such user id"))
                }
            },
            RequestLifecycle::Failed(e) => {
                let mut m = String::from_str("Delete request failed; Reason: ");
                m.append(e.message.as_str());
                Some(m)
            },
        }
    }

    /// The notice the page raises for the get slot: only a failed get
    /// is reported, with its reason.
    pub fn get_notice(&self) -> (r: Option<String>)
        ensures
            self.get_state is Failed <==> r is Some,
            self.get_state matches RequestLifecycle::Failed(e) ==> (r matches Some(m) && m@
                == "Get request failed; Reason: "@ + e.message@),
    {
        match &self.get_state {
            RequestLifecycle::Failed(e) => {
                let mut m = String::from_str("Get request failed; Reason: ");
                m.append(e.message.as_str());
                Some(m)
            },
            _ => None,
        }
    }

    /// The user the page shows: the payload of a settled get, nothing
    /// in every other state.
    pub fn current_user(&self) -> (r: Option<User>)
        ensures
            self.get_state is Succeeded <==> r is Some,
            self.get_state matches RequestLifecycle::Succeeded(u) ==> (r matches Some(v) && v == u),
    {
        match &self.get_state {
            RequestLifecycle::Succeeded(u) => Some(u.clone()),
            _ => None,
        }
    }
}

/// The inline style under which a user's name is shown.
pub open spec fn user_style_text(c: Rgb) -> Seq<char> {
    "color: rgb("@ + dec_rep(c.r as nat) + ", "@ + dec_rep(c.g as nat) + ", "@ + dec_rep(
        c.b as nat,
    ) + "); margin: .25rem;"@
}

/// Render the inline style under which a user's name is shown.
pub fn user_style(u: &User) -> (r: String)
    ensures
        r@ == user_style_text(u.color),
{
    let mut s = String::from_str("color: rgb(");
    s.append(crate::numbers::u32_string(u.color.r as u32).as_str());
    s.append(", ");
    s.append(crate::numbers::u32_string(u.color.g as u32).as_str());
    s.append(", ");
    s.append(crate::numbers::u32_string(u.color.b as u32).as_str());
    s.append("); margin: .25rem;");
    proof {
        assert(s@ =~= user_style_text(u.color));
    }
    s
}

} // verus!
