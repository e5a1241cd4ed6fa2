use vstd::prelude::*;

verus! {

/// The HTTP method of a request.
#[derive(Debug, Clone, Copy, PartialEq, Eq, Structural)]
pub enum HttpMethod {
    Get,
    Post,
}

/// A request for the caller to send: the URL, query parameters, headers and multipart text
/// fields, each in order, and whether to add a browser-like `User-Agent` chosen at random.
#[derive(Debug)]
pub struct HttpRequest {
    pub method: HttpMethod,
    pub url: String,
    pub query: Vec<(String, String)>,
    pub headers: Vec<(String, String)>,
    pub form: Vec<(String, String)>,
    pub random_user_agent: bool,
}

/// What an `HttpRequest` holds.
pub ghost struct HttpRequestView {
    pub method: HttpMethod,
    pub url: Seq<char>,
    pub query: Seq<(Seq<char>, Seq<char>)>,
    pub headers: Seq<(Seq<char>, Seq<char>)>,
    pub form: Seq<(Seq<char>, Seq<char>)>,
    pub random_user_agent: bool,
}

/// The views of name/value pairs.
pub open spec fn pairs_view(v: Seq<(String, String)>) -> Seq<(Seq<char>, Seq<char>)> {
    v.map_values(|p: (String, String)| (p.0@, p.1@))
}

/// An empty list of pairs views as the empty sequence.
pub proof fn lemma_no_pairs()
    ensures
        pairs_view(Seq::<(String, String)>::empty()) == Seq::<(Seq<char>, Seq<char>)>::empty(),
{
    assert(pairs_view(Seq::<(String, String)>::empty()) =~= Seq::<(Seq<char>, Seq<char>)>::empty());
}

impl View for HttpRequest {
    type V = HttpRequestView;

    open spec fn view(&self) -> HttpRequestView {
        HttpRequestView {
            method: self.method,
            url: self.url@,
            query: pairs_view(self.query@),
            headers: pairs_view(self.headers@),
            form: pairs_view(self.form@),
            random_user_agent: self.random_user_agent,
        }
    }
}

/// A name/value pair.
pub fn pair(name: &str, value: &str) -> (r: (String, String))
    ensures
        r.0@ == name@,
        r.1@ == value@,
{
    (name.to_string(), value.to_string())
}

/// A list of name/value pairs.
pub fn pairs1(a: (String, String)) -> (r: Vec<(String, String)>)
    ensures
        pairs_view(r@) == seq![(a.0@, a.1@)],
{
    let mut v = Vec::new();
    v.push(a);
    proof {
        assert(pairs_view(v@) =~= seq![(a.0@, a.1@)]);
    }
    v
}

/// A list of name/value pairs.
pub fn pairs2(a: (String, String), b: (String, String)) -> (r: Vec<(String, String)>)
    ensures
        pairs_view(r@) == seq![(a.0@, a.1@), (b.0@, b.1@)],
{
    let mut v = Vec::new();
    v.push(a);
    v.push(b);
    proof {
        assert(pairs_view(v@) =~= seq![(a.0@, a.1@), (b.0@, b.1@)]);
    }
    v
}

/// A list of name/value pairs.
pub fn pairs3(a: (String, String), b: (String, String), c: (String, String)) -> (r: Vec<(String, String)>)
    ensures
        pairs_view(r@) == seq![(a.0@, a.1@), (b.0@, b.1@), (c.0@, c.1@)],
{
    let mut v = Vec::new();
    v.push(a);
    v.push(b);
    v.push(c);
    proof {
        assert(pairs_view(v@) =~= seq![(a.0@, a.1@), (b.0@, b.1@), (c.0@, c.1@)]);
    }
    v
}

/// A list of name/value pairs.
pub fn pairs4(a: (String, String), b: (String, String), c: (String, String), d: (String, String)) -> (r: Vec<(String, String)>)
    ensures
        pairs_view(r@) == seq![(a.0@, a.1@), (b.0@, b.1@), (c.0@, c.1@), (d.0@, d.1@)],
{
    let mut v = Vec::new();
    v.push(a);
    v.push(b);
    v.push(c);
    v.push(d);
    proof {
        assert(pairs_view(v@) =~= seq![(a.0@, a.1@), (b.0@, b.1@), (c.0@, c.1@), (d.0@, d.1@)]);
    }
    v
}

/// A GET request without headers or form.
pub fn get_request(url: String, query: Vec<(String, String)>, headers: Vec<(String, String)>) -> (r: HttpRequest)
    ensures
        r@ == (HttpRequestView {
            method: HttpMethod::Get,
            url: url@,
            query: pairs_view(query@),
            headers: pairs_view(headers@),
            form: seq![],
            random_user_agent: false,
        }),
{
    let r = HttpRequest { method: HttpMethod::Get, url, query, headers, form: Vec::new(), random_user_agent: false };
    proof {
        lemma_no_pairs();
    }
    r
}

/// The headers that the movie database is sent: JSON is accepted, and the token is a bearer token.
pub open spec fn tmdb_headers(token: Seq<char>) -> Seq<(Seq<char>, Seq<char>)> {
    seq![("accept"@, "application/json"@), ("Authorization"@, "Bearer "@ + token)]
}

pub fn tmdb_header_list(token: &str) -> (r: Vec<(String, String)>)
    ensures
        pairs_view(r@) == tmdb_headers(token@),
{
    let bearer = crate::text::str_concat("Bearer ", token);
    pairs2(pair("accept", "application/json"), (String::from_str("Authorization"), bearer))
}

} // verus!
