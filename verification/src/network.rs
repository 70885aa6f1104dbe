//! Decisions of the network clients: which credentials to present to an
//! OCI registry, how tag listing pages through a registry, and how the
//! meta-registry's answers are read.
use vstd::prelude::*;
use crate::text::{concat2, concat3, str_eq, to_owned};

verus! {

/// The key under which the default Docker registry's credentials are kept.
pub const DOCKER_HUB_CREDENTIAL_KEY: &'static str = "https://index.docker.io/v1/";

/// The host name of the default Docker registry.
pub const DOCKER_HUB_REGISTRY: &'static str = "index.docker.io";

/// The server under which credentials for `registry` are looked up: the
/// default Docker registry is keyed by its v1 URL, every other registry by
/// its domain name.
pub open spec fn credential_server_of(registry: Seq<char>) -> Seq<char> {
    if registry == DOCKER_HUB_REGISTRY@ {
        DOCKER_HUB_CREDENTIAL_KEY@
    } else {
        registry
    }
}

/// The server under which credentials for `registry` are looked up.
pub fn credential_server(registry: &str) -> (r: &str)
    ensures
        r@ == credential_server_of(registry@),
{
    if str_eq(registry, DOCKER_HUB_REGISTRY) {
        DOCKER_HUB_CREDENTIAL_KEY
    } else {
        registry
    }
}

/// What the Docker credential store holds for a server.
#[derive(Debug, Clone)]
pub enum CredentialLookup {
    /// A username and password.
    UsernamePassword(String, String),
    /// An identity token.
    IdentityToken,
    /// Nothing could be read.
    Missing,
}

/// How to authenticate to a registry.
#[derive(Debug, Clone)]
pub enum Auth {
    /// Basic authentication with a username and password.
    Basic(String, String),
    /// No authentication.
    Anonymous,
}

/// The authentication to use given what the credential store holds:
/// basic with a username and password, anonymous when nothing could be
/// read; identity tokens are not supported.
pub fn auth_from_lookup(lookup: CredentialLookup) -> (r: Result<Auth, String>)
    ensures
        match lookup {
            CredentialLookup::UsernamePassword(u, p) => r matches Ok(Auth::Basic(ru, rp)) && ru == u && rp == p,
            CredentialLookup::IdentityToken => r matches Err(m) && m@ == "identity tokens not supported"@,
            CredentialLookup::Missing => r matches Ok(Auth::Anonymous),
        },
{
    match lookup {
        CredentialLookup::UsernamePassword(u, p) => Ok(Auth::Basic(u, p)),
        CredentialLookup::IdentityToken => Err(to_owned("identity tokens not supported")),
        CredentialLookup::Missing => Ok(Auth::Anonymous),
    }
}

/// The next request of a tag listing, or its end.
#[derive(Debug, Clone)]
pub enum TagRequest {
    /// Fetch a page of tags after `last` (from the start when `None`).
    Page(Option<String>),
    /// Fetch one tag after `last`, to learn whether more pages follow.
    Probe(String),
    /// The listing is complete.
    Done,
}

/// Pages through a registry's tag list: a page is fetched after the last
/// tag seen, then a single tag is probed to learn whether another page
/// follows. A failure ends the listing with the tags gathered so far.
pub struct TagPager {
    tags: Vec<String>,
    last: Option<String>,
    done: bool,
}

/// The state of a tag listing.
pub struct PagerView {
    /// The tags gathered so far, in order.
    pub tags: Seq<Seq<char>>,
    /// The last tag seen, after which the next page starts.
    pub last: Option<Seq<char>>,
    /// Whether the listing is complete.
    pub done: bool,
}

impl View for TagPager {
    type V = PagerView;

    closed spec fn view(&self) -> PagerView {
        PagerView {
            tags: self.tags@.map_values(|t: String| t@),
            last: match self.last {
                Some(l) => Some(l@),
                None => None,
            },
            done: self.done,
        }
    }
}

/// The views of a list of tags.
pub open spec fn tag_views(tags: Seq<String>) -> Seq<Seq<char>> {
    tags.map_values(|t: String| t@)
}

impl TagPager {
    /// A listing that has gathered nothing; its first request is a page
    /// from the start.
    pub fn new() -> (r: Self)
        ensures
            r@.tags.len() == 0,
            r@.last is None,
            !r@.done,
    {
        let r = TagPager { tags: Vec::new(), last: None, done: false };
        assert(r@.tags =~= Seq::<Seq<char>>::empty());
        r
    }

    /// The first request.
    pub fn start(&self) -> (r: TagRequest)
        ensures
            r matches TagRequest::Page(last) && last is None,
    {
        TagRequest::Page(None)
    }

    /// Take the answer to a page request: a failure or an empty page ends
    /// the listing; otherwise the page's tags are gathered and the next
    /// request probes after the page's last tag.
    pub fn on_page(&mut self, page: Result<Vec<String>, String>) -> (r: TagRequest)
        requires
            !old(self)@.done,
        ensures
            match page {
                Err(_) => final(self)@.done && final(self)@.tags == old(self)@.tags && r is Done,
                Ok(p) => if p@.len() == 0 {
                    final(self)@.done && final(self)@.tags == old(self)@.tags && r is Done
                } else {
                    &&& !final(self)@.done
                    &&& final(self)@.tags == old(self)@.tags + tag_views(p@)
                    &&& final(self)@.last == Some(p@.last()@)
                    &&& r matches TagRequest::Probe(l) && l@ == p@.last()@
                },
            },
    {
        match page {
            Err(_) => {
                self.done = true;
                TagRequest::Done
            },
            Ok(mut p) => {
                if p.len() == 0 {
                    self.done = true;
                    TagRequest::Done
                } else {
                    let last = p[p.len() - 1].clone();
                    let ghost before = self@.tags;
                    let ghost added = tag_views(p@);
                    self.tags.append(&mut p);
                    assert(self@.tags =~= before + added);
                    self.last = Some(last.clone());
                    TagRequest::Probe(last)
                }
            },
        }
    }

    /// Take the answer to a probe: a failure or an empty answer ends the
    /// listing; otherwise the next page is fetched after the last tag seen.
    pub fn on_probe(&mut self, probe: Result<Vec<String>, String>) -> (r: TagRequest)
        requires
            !old(self)@.done,
            old(self)@.last is Some,
        ensures
            final(self)@.tags == old(self)@.tags,
            final(self)@.last == old(self)@.last,
            match probe {
                Ok(p) if p@.len() > 0 => {
                    &&& !final(self)@.done
                    &&& r matches TagRequest::Page(Some(l))
                    &&& Some(l@) == old(self)@.last
                },
                _ => final(self)@.done && r is Done,
            },
    {
        let more = match &probe {
            Ok(p) => p.len() > 0,
            Err(_) => false,
        };
        if more {
            match &self.last {
                Some(l) => TagRequest::Page(Some(l.clone())),
                None => TagRequest::Done,
            }
        } else {
            self.done = true;
            TagRequest::Done
        }
    }

    /// The tags gathered.
    pub fn into_tags(self) -> (r: Vec<String>)
        ensures
            tag_views(r@) == self@.tags,
    {
        self.tags
    }
}

/// `s` without all its trailing `/`s.
pub open spec fn without_trailing_slashes(s: Seq<char>) -> Seq<char>
    decreases s.len(),
{
    if s.len() > 0 && s.last() == '/' {
        without_trailing_slashes(s.drop_last())
    } else {
        s
    }
}

/// The base URL of a meta-registry, without trailing `/`s.
pub fn registry_base_url(url: &str) -> (r: String)
    ensures
        r@ == without_trailing_slashes(url@),
{
    let mut n = url.unicode_len();
    assert(url@.take(n as int) =~= url@);
    while n > 0 && url.get_char(n - 1) == '/'
        invariant
            n <= url@.len(),
            without_trailing_slashes(url@) == without_trailing_slashes(url@.take(n as int)),
        decreases n,
    {
        assert(url@.take(n as int).drop_last() =~= url@.take(n - 1));
        n = n - 1;
    }
    to_owned(crate::text::slice(url, 0, n))
}

/// The URL of the meta-registry's package list.
pub open spec fn packages_url_of(base: Seq<char>) -> Seq<char> {
    base + "/v1/packages?limit=1000"@
}

/// The URL of the meta-registry's package list under `base`.
pub fn packages_url(base: &str) -> (r: String)
    ensures
        r@ == packages_url_of(base@),
{
    concat2(base, "/v1/packages?limit=1000")
}

/// How the meta-registry answered.
#[derive(Debug, Clone, Copy, PartialEq, Eq, Structural)]
pub enum StatusClass {
    /// 304: the local data is still fresh.
    NotModified,
    /// A success status: new data follows.
    Success,
    /// A server error status.
    ServerError,
    /// Any other status.
    Unexpected,
}

/// The class of an HTTP status code.
pub open spec fn status_class_of(code: u16) -> StatusClass {
    if code == 304 {
        StatusClass::NotModified
    } else if 500 <= code <= 599 {
        StatusClass::ServerError
    } else if 200 <= code <= 299 {
        StatusClass::Success
    } else {
        StatusClass::Unexpected
    }
}

/// Classify the status of the meta-registry's answer.
pub fn classify_status(code: u16) -> (r: StatusClass)
    ensures
        r == status_class_of(code),
{
    if code == 304 {
        StatusClass::NotModified
    } else if 500 <= code && code <= 599 {
        StatusClass::ServerError
    } else if 200 <= code && code <= 299 {
        StatusClass::Success
    } else {
        StatusClass::Unexpected
    }
}

/// The message for a status that carries no data, with the status as
/// text; `None` for the statuses that do not fail.
pub fn status_error(base: &str, class: StatusClass, status: &str) -> (r: Option<String>)
    ensures
        match class {
            StatusClass::ServerError => r matches Some(m) && m@ == "registry at "@ + base@
                + " returned server error: "@ + status@,
            StatusClass::Unexpected => r matches Some(m) && m@ == "registry at "@ + base@
                + " returned unexpected status: "@ + status@,
            _ => r is None,
        },
{
    match class {
        StatusClass::ServerError => {
            let a = concat3("registry at ", base, " returned server error: ");
            Some(concat2(a.as_str(), status))
        },
        StatusClass::Unexpected => {
            let a = concat3("registry at ", base, " returned unexpected status: ");
            Some(concat2(a.as_str(), status))
        },
        _ => None,
    }
}

} // verus!
