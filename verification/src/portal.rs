//! The portal that shows the balance: where it is asked, and with what.
//!
//! One form is posted to the servlet of the regional building society. The
//! answer is the page that `balance` reads. No session is kept.

use crate::balance::ExtractError;
use crate::text::same_text;
use vstd::prelude::*;

verus! {

/// The regional building societies whose portal is known.
#[derive(Debug, Clone, Copy, PartialEq, Eq, Structural)]
pub enum Region {
    /// Baden-Württemberg.
    Bw,
    /// Nordrhein-Westfalen.
    Nw,
}

/// The region that a code names, if it names one.
pub open spec fn region_of(code: Seq<char>) -> Option<Region> {
    if code == "bw"@ {
        Some(Region::Bw)
    } else if code == "nw"@ {
        Some(Region::Nw)
    } else {
        None
    }
}

impl Region {
    /// The code of the region, as it stands in the address of its portal.
    pub open spec fn code_text(self) -> Seq<char> {
        match self {
            Region::Bw => "bw"@,
            Region::Nw => "nw"@,
        }
    }

    /// The code of the region.
    pub fn code(self) -> (r: &'static str)
        ensures
            r@ == self.code_text(),
    {
        match self {
            Region::Bw => "bw",
            Region::Nw => "nw",
        }
    }

    /// The region that `code` names. Only the codes of the known regions are
    /// taken, written in lower case.
    pub fn parse(code: &str) -> (r: Option<Region>)
        ensures
            r == region_of(code@),
    {
        if same_text(code, "bw") {
            Some(Region::Bw)
        } else if same_text(code, "nw") {
            Some(Region::Nw)
        } else {
            None
        }
    }
}

/// A code names a region exactly where it is that region's code: every region
/// is found again by its code, and no other text finds it.
pub proof fn lemma_region_codes(region: Region, code: Seq<char>)
    ensures
        region_of(code) == Some(region) <==> code == region.code_text(),
{
    reveal_strlit("bw");
    reveal_strlit("nw");
    assert("bw"@[0] != "nw"@[0]);
}

/// The field that tells the servlet what is asked of it.
pub const REQUEST_FIELD: &'static str = "REQ_ID";

/// What is asked of the servlet: a login.
pub const REQUEST_LOGIN: &'static str = "LOGIN";

/// The field that carries the identity.
pub const IDENTITY_FIELD: &'static str = "IN_ID";

/// The field that carries the secret.
pub const SECRET_FIELD: &'static str = "IN_PIN";

/// The address of the servlet of a region.
pub open spec fn portal_url_text(region: Region) -> Seq<char> {
    "https://kundenservice.lbs.de/lbs-"@ + region.code_text() + "/guiServlet"@
}

/// The form that logs in: the kind of request, the identity and the secret,
/// in this order.
pub open spec fn login_form_view(identity: Seq<char>, secret: Seq<char>) -> Seq<
    (Seq<char>, Seq<char>),
> {
    seq![(REQUEST_FIELD@, REQUEST_LOGIN@), (IDENTITY_FIELD@, identity), (SECRET_FIELD@, secret)]
}

/// One login, ready to be posted as a form.
#[derive(Debug)]
pub struct LoginRequest {
    /// Where the form is posted.
    pub url: String,
    /// The fields of the form, each with its name and its value.
    pub form: Vec<(String, String)>,
}

/// A login as a value of specifications.
pub struct LoginView {
    pub url: Seq<char>,
    pub form: Seq<(Seq<char>, Seq<char>)>,
}

impl View for LoginRequest {
    type V = LoginView;

    open spec fn view(&self) -> LoginView {
        LoginView { url: self.url@, form: self.form.deep_view() }
    }
}

/// The address of the servlet of `region`.
pub fn portal_url(region: Region) -> (r: String)
    ensures
        r@ == portal_url_text(region),
{
    let mut out = "https://kundenservice.lbs.de/lbs-".to_owned();
    out.append(region.code());
    out.append("/guiServlet");
    out
}

/// The form that logs `identity` in with `secret`.
pub fn login_form(identity: &str, secret: &str) -> (r: Vec<(String, String)>)
    ensures
        r.deep_view() == login_form_view(identity@, secret@),
{
    let mut form: Vec<(String, String)> = Vec::new();
    form.push((REQUEST_FIELD.to_owned(), REQUEST_LOGIN.to_owned()));
    form.push((IDENTITY_FIELD.to_owned(), identity.to_owned()));
    form.push((SECRET_FIELD.to_owned(), secret.to_owned()));
    form
}

/// The login that asks the portal of `region` for the page with the balance.
pub fn login_request(identity: &str, secret: &str, region: Region) -> (r: LoginRequest)
    ensures
        r@ == (LoginView {
            url: portal_url_text(region),
            form: login_form_view(identity@, secret@),
        }),
{
    LoginRequest { url: portal_url(region), form: login_form(identity, secret) }
}

/// Why no balance was fetched.
#[derive(Debug)]
pub enum FetchError {
    /// The login did not get through, or no answer came back; the text says
    /// what went wrong.
    Transport(String),
    /// The answer could not be read as text; the text says why.
    Body(String),
    /// The page was read, and the balance was not in it.
    Extract(ExtractError),
}

impl FetchError {
    /// What the error says to a reader: for a failure on the way, what was
    /// being done and the cause; for a page without a balance, what was
    /// missing.
    pub open spec fn message_text(self) -> Seq<char> {
        match self {
            FetchError::Transport(cause) => "Fetching balance failed: "@ + cause@,
            FetchError::Body(cause) => "Failed to get response html: "@ + cause@,
            FetchError::Extract(e) => e.message_text(),
        }
    }

    /// What the error says to a reader.
    pub fn message(&self) -> (r: String)
        ensures
            r@ == self.message_text(),
    {
        match self {
            FetchError::Transport(cause) => {
                let mut out = "Fetching balance failed: ".to_owned();
                out.append(cause.as_str());
                out
            },
            FetchError::Body(cause) => {
                let mut out = "Failed to get response html: ".to_owned();
                out.append(cause.as_str());
                out
            },
            FetchError::Extract(e) => e.message().to_owned(),
        }
    }
}

/// The line that reports a failed fetch.
pub open spec fn fetch_report_text(e: FetchError) -> Seq<char> {
    "Unable to fetch balance: "@ + e.message_text()
}

/// The line that reports a failed fetch.
pub fn fetch_report(e: &FetchError) -> (r: String)
    ensures
        r@ == fetch_report_text(*e),
{
    let mut out = "Unable to fetch balance: ".to_owned();
    out.append(e.message().as_str());
    out
}

} // verus!
