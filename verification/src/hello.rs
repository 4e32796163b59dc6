use vstd::prelude::*;

use crate::lifecycle::RequestLifecycle;

verus! {

/// The address of the plain greeting.
pub open spec fn hello_url_text(base: Seq<char>) -> Seq<char> {
    base + "/hello"@
}

/// The address of the delayed greeting.
pub open spec fn delay_url_text(base: Seq<char>, delay: Seq<char>) -> Seq<char> {
    base + "/hello/delay/"@ + delay
}

/// The address of the personal greeting.
pub open spec fn name_url_text(base: Seq<char>, name: Seq<char>) -> Seq<char> {
    base + "/hello/"@ + name
}

/// The name greeted when the input field is empty.
pub open spec fn effective_name(input: Seq<char>) -> Seq<char> {
    if input.len() == 0 {
        "Jimmy"@
    } else {
        input
    }
}

/// An event on the greeting page: a settlement arriving, or one of the
/// three fetch buttons, each carrying what its input field held when it
/// was pressed.
pub enum Msg {
    SetFetchState(RequestLifecycle<String>),
    FetchHello,
    FetchAsyncDelay { delay: String },
    FetchHelloName { input: String },
}

/// The greeting page: one lifecycle slot for whichever greeting was
/// requested last, and the base address requests go to.
pub struct Hello {
    pub base: String,
    pub fetch_state: RequestLifecycle<String>,
}

impl Hello {
    /// A fresh page: nothing fetched yet.
    pub fn create(base: String) -> (r: Self)
        ensures
            r.base == base,
            r.fetch_state is Idle,
    {
        Hello { base, fetch_state: RequestLifecycle::idle() }
    }

    /// Step the page under one event. The result says whether the page
    /// must re-render and which address, if any, to fetch as text.
    pub fn update(&mut self, msg: Msg) -> (r: (bool, Option<String>))
        ensures
            final(self).base == old(self).base,
            msg matches Msg::SetFetchState(s) ==> final(self).fetch_state == s && r.0 == true
                && r.1 is None,
            msg matches Msg::FetchHello ==> final(self).fetch_state is InFlight && r.0 == true && (
            r.1 matches Some(url) && url@ == hello_url_text(old(self).base@)),
            msg matches Msg::FetchAsyncDelay { delay } ==> final(self).fetch_state is InFlight
                && r.0 == true && (r.1 matches Some(url) && url@ == delay_url_text(
                old(self).base@,
                delay@,
            )),
            msg matches Msg::FetchHelloName { input } ==> final(self).fetch_state is InFlight && r.0
                == true && (r.1 matches Some(url) && url@ == name_url_text(
                old(self).base@,
                effective_name(input@),
            )),
    {
        match msg {
            Msg::SetFetchState(s) => {
                self.fetch_state = s;
                (true, None)
            },
            Msg::FetchHello => {
                let mut url = self.base.clone();
                url.append("/hello");
                self.fetch_state = RequestLifecycle::InFlight;
                (true, Some(url))
            },
            Msg::FetchAsyncDelay { delay } => {
                let mut url = self.base.clone();
                url.append("/hello/delay/");
                url.append(delay.as_str());
                self.fetch_state = RequestLifecycle::InFlight;
                (true, Some(url))
            },
            Msg::FetchHelloName { input } => {
                let mut url = self.base.clone();
                url.append("/hello/");
                if input.as_str().is_empty() {
                    url.append("Jimmy");
                } else {
                    url.append(input.as_str());
                }
                self.fetch_state = RequestLifecycle::InFlight;
                (true, Some(url))
            },
        }
    }

    /// The line the page shows for its current state.
    pub fn status_line(&self) -> (r: String)
        ensures
            self.fetch_state is Idle ==> r@ == "Not fetching"@,
            self.fetch_state is InFlight ==> r@ == "Fetching"@,
            self.fetch_state is Failed ==> r@ == "Failed to fetch"@,
            self.fetch_state matches RequestLifecycle::Succeeded(d) ==> r == d,
    {
        match &self.fetch_state {
            RequestLifecycle::Idle => String::from_str("Not fetching"),
            RequestLifecycle::InFlight => String::from_str("Fetching"),
            RequestLifecycle::Failed(_) => String::from_str("Failed to fetch"),
            RequestLifecycle::Succeeded(d) => d.clone(),
        }
    }
}

} // verus!
