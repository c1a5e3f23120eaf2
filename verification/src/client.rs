//! The capability handle and the outbound-request model.
//!
//! A handle holds the access credential; the one operation every transport
//! needs is `get_req_builder`, which yields a request description carrying
//! the credential header. The description is a plain value — URL, header
//! pairs, query pairs — and an unverified transport adapter turns it into an
//! actual HTTP request. Building a request performs no I/O.

use crate::decode::{dec_str, u32_to_decimal};
use crate::error::LTAError;
use vstd::prelude::*;

verus! {

/// What a request description is mathematically: its URL, header pairs and
/// query pairs, as character sequences.
#[verifier::ext_equal]
pub struct ReqBuilderView {
    pub url: Seq<char>,
    pub headers: Seq<(Seq<char>, Seq<char>)>,
    pub query: Seq<(Seq<char>, Seq<char>)>,
}

/// The key/value pairs of a pair list, as character sequences.
pub open spec fn pairs_view(v: Seq<(String, String)>) -> Seq<(Seq<char>, Seq<char>)> {
    v.map_values(|p: (String, String)| (p.0@, p.1@))
}

/// An outbound GET request under construction: a URL plus the header and
/// query pairs to send with it.
#[derive(Debug, Clone)]
pub struct ReqBuilder {
    url: String,
    headers: Vec<(String, String)>,
    query: Vec<(String, String)>,
}

impl View for ReqBuilder {
    type V = ReqBuilderView;

    closed spec fn view(&self) -> ReqBuilderView {
        ReqBuilderView {
            url: self.url@,
            headers: pairs_view(self.headers@),
            query: pairs_view(self.query@),
        }
    }
}

impl ReqBuilder {
    /// The request's URL.
    pub fn url(&self) -> (r: &String)
        ensures
            r@ == self@.url,
    {
        &self.url
    }

    /// The header pairs the request will carry.
    pub fn headers(&self) -> (r: &Vec<(String, String)>)
        ensures
            pairs_view(r@) == self@.headers,
    {
        &self.headers
    }

    /// The query pairs the request will carry.
    pub fn query_pairs(&self) -> (r: &Vec<(String, String)>)
        ensures
            pairs_view(r@) == self@.query,
    {
        &self.query
    }

    /// Appends one query pair; everything else is kept.
    pub fn add_query(self, key: &str, value: String) -> (r: Self)
        ensures
            r@.url == self@.url,
            r@.headers == self@.headers,
            r@.query == self@.query.push((key@, value@)),
    {
        let ReqBuilder { url, headers, mut query } = self;
        query.push((key.to_owned(), value));
        let r = ReqBuilder { url, headers, query };
        proof {
            assert(r@.query =~= self@.query.push((key@, value@)));
        }
        r
    }
}

/// The authenticated capability handle: an access credential, or nothing.
///
/// Immutable once constructed and freely shared by reference; a missing or
/// empty credential does not corrupt the handle, it only fails each request
/// built from it.
#[derive(Debug, Clone)]
pub struct LTAClient {
    api_key: Option<String>,
}

impl View for LTAClient {
    type V = Option<Seq<char>>;

    closed spec fn view(&self) -> Option<Seq<char>> {
        match self.api_key {
            Some(k) => Some(k@),
            None => None,
        }
    }
}

/// The handle holds a usable (non-empty) credential.
pub open spec fn spec_has_key(c: Option<Seq<char>>) -> bool {
    match c {
        Some(k) => k.len() > 0,
        None => false,
    }
}

/// What asking a handle for a request builder yields: for a usable
/// credential, a builder for `url` whose only header is the credential header
/// and whose query is empty; otherwise the configuration error.
pub open spec fn spec_req_builder(c: Option<Seq<char>>, url: Seq<char>) -> Result<
    ReqBuilderView,
    LTAError,
> {
    match c {
        Some(k) => if k.len() > 0 {
            Ok(ReqBuilderView { url, headers: seq![("AccountKey"@, k)], query: Seq::empty() })
        } else {
            Err(LTAError::MissingApiKey)
        },
        None => Err(LTAError::MissingApiKey),
    }
}

impl LTAClient {
    /// A handle from an explicit, possibly absent credential.
    pub fn new(api_key: Option<String>) -> (r: Self)
        ensures
            r@ == (match api_key {
                Some(k) => Some(k@),
                None => None::<Seq<char>>,
            }),
    {
        LTAClient { api_key }
    }

    /// A handle from a credential string; an empty string means "no
    /// credential".
    pub fn with_api_key(api_key: &str) -> (r: Self)
        ensures
            r@ == (if api_key@.len() == 0 {
                None::<Seq<char>>
            } else {
                Some(api_key@)
            }),
    {
        if api_key.is_empty() {
            LTAClient { api_key: None }
        } else {
            LTAClient { api_key: Some(api_key.to_owned()) }
        }
    }

    /// A request builder for `url`, pre-configured with the credential
    /// header — or the configuration error when the credential is absent or
    /// empty, rather than an unauthenticated request.
    pub fn get_req_builder(&self, url: &str) -> (r: Result<ReqBuilder, LTAError>)
        ensures
            match r {
                Ok(rb) => spec_req_builder(self@, url@) == Ok::<ReqBuilderView, LTAError>(rb@),
                Err(e) => spec_req_builder(self@, url@) == Err::<ReqBuilderView, LTAError>(e),
            },
    {
        match &self.api_key {
            None => Err(LTAError::MissingApiKey),
            Some(k) => {
                if k.as_str().is_empty() {
                    Err(LTAError::MissingApiKey)
                } else {
                    let mut headers: Vec<(String, String)> = Vec::new();
                    headers.push(("AccountKey".to_owned(), k.clone()));
                    let rb = ReqBuilder { url: url.to_owned(), headers, query: Vec::new() };
                    proof {
                        assert(rb@ =~= ReqBuilderView {
                            url: url@,
                            headers: seq![("AccountKey"@, k@)],
                            query: Seq::empty(),
                        });
                    }
                    Ok(rb)
                }
            },
        }
    }
}

/// The page offset a listing request carries: the given offset, or zero when
/// none is given.
pub open spec fn spec_skip_value(skip: Option<u32>) -> nat {
    match skip {
        Some(n) => n as nat,
        None => 0,
    }
}

/// The shared shape of every paginated listing: appends the page-offset
/// parameter — the given offset, defaulting to zero — to a request.
pub fn with_skip(rb: ReqBuilder, skip: Option<u32>) -> (r: ReqBuilder)
    ensures
        r@.url == rb@.url,
        r@.headers == rb@.headers,
        r@.query == rb@.query.push(("$skip"@, dec_str(spec_skip_value(skip)))),
{
    let n: u32 = match skip {
        Some(n) => n,
        None => 0,
    };
    rb.add_query("$skip", u32_to_decimal(n))
}

/// Law: a handle with a non-empty credential yields, for every URL, a
/// request whose headers are exactly the one credential pair and whose query
/// is empty; a handle whose credential is absent or empty is refused with
/// the configuration error — never an unauthenticated request.
pub proof fn lemma_credential_header(c: Option<Seq<char>>, url: Seq<char>)
    ensures
        spec_has_key(c) ==> spec_req_builder(c, url) == Ok::<ReqBuilderView, LTAError>(
            ReqBuilderView {
                url,
                headers: seq![("AccountKey"@, c->Some_0)],
                query: Seq::empty(),
            },
        ),
        !spec_has_key(c) ==> spec_req_builder(c, url) == Err::<ReqBuilderView, LTAError>(
            LTAError::MissingApiKey,
        ),
{
}

/// The request of a paginated listing for `url`: the authenticated base
/// request carrying the single page-offset parameter.
pub open spec fn spec_listing_req(
    c: Option<Seq<char>>,
    url: Seq<char>,
    skip: Option<u32>,
) -> Result<ReqBuilderView, LTAError> {
    match spec_req_builder(c, url) {
        Ok(b) => Ok(ReqBuilderView {
            url: b.url,
            headers: b.headers,
            query: seq![("$skip"@, dec_str(spec_skip_value(skip)))],
        }),
        Err(e) => Err(e),
    }
}

/// The shared shape of every paginated listing: the authenticated request
/// for `url` with the page offset — `skip`, defaulting to zero — as its only
/// query parameter.
pub fn listing_req(client: &LTAClient, url: &str, skip: Option<u32>) -> (r: Result<
    ReqBuilder,
    LTAError,
>)
    ensures
        r matches Ok(rb) ==> spec_listing_req(client@, url@, skip) == Ok::<
            ReqBuilderView,
            LTAError,
        >(rb@),
        r matches Err(e) ==> spec_listing_req(client@, url@, skip) == Err::<
            ReqBuilderView,
            LTAError,
        >(e),
{
    match client.get_req_builder(url) {
        Ok(rb) => {
            let out = with_skip(rb, skip);
            proof {
                assert(out@ =~= spec_listing_req(client@, url@, skip)->Ok_0);
            }
            Ok(out)
        },
        Err(e) => Err(e),
    }
}

/// Law: a paginated listing issues the page offset exactly — zero when no
/// offset is given, and the given offset itself otherwise — as its only
/// query parameter.
pub proof fn lemma_page_offset(c: Option<Seq<char>>, url: Seq<char>, skip: Option<u32>)
    ensures
        spec_listing_req(c, url, skip) matches Ok(b) ==> b.query == seq![
            ("$skip"@, dec_str(spec_skip_value(skip))),
        ],
        skip is None ==> spec_skip_value(skip) == 0,
        skip matches Some(n) ==> spec_skip_value(skip) == n as nat,
{
}

/// The returned request of a filtered lookup: some authenticated base
/// request for the URL, transformed by the caller-supplied `query`.
pub open spec fn spec_lookup_result<F: FnOnce(ReqBuilder) -> ReqBuilder>(
    query: F,
    c: Option<Seq<char>>,
    url: Seq<char>,
    out: ReqBuilder,
) -> bool {
    exists|rb: ReqBuilder|
        spec_req_builder(c, url) == Ok::<ReqBuilderView, LTAError>(rb@) && #[trigger] call_ensures(
            query,
            (rb,),
            out,
        )
}

/// The shared shape of every filtered lookup: builds the authenticated
/// request for `url` and lets the caller-supplied transformation attach its
/// query parameters. The transformation receives the freshly built request
/// and whatever it guarantees of its result holds of what is returned.
pub fn req_with_query<F: FnOnce(ReqBuilder) -> ReqBuilder>(
    client: &LTAClient,
    url: &str,
    query: F,
) -> (r: Result<ReqBuilder, LTAError>)
    requires
        forall|rb: ReqBuilder|
            spec_req_builder(client@, url@) == Ok::<ReqBuilderView, LTAError>(rb@)
                ==> #[trigger] call_requires(query, (rb,)),
    ensures
        r matches Ok(out) ==> spec_lookup_result(query, client@, url@, out),
        r matches Err(e) ==> spec_req_builder(client@, url@) == Err::<ReqBuilderView, LTAError>(
            e,
        ),
{
    match client.get_req_builder(url) {
        Ok(rb) => {
            let ghost base = rb;
            let out = query(rb);
            proof {
                assert(spec_req_builder(client@, url@) == Ok::<ReqBuilderView, LTAError>(base@)
                    && call_ensures(query, (base,), out));
            }
            Ok(out)
        },
        Err(e) => Err(e),
    }
}

} // verus!
