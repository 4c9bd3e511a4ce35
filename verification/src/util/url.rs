use vstd::prelude::*;

verus! {

#[verifier::external_type_specification]
#[verifier::external_body]
pub struct ExUrl(url::Url);

/// What `url::Url::parse` gives for an input: the serialization of the parsed
/// URL, or the text of the parse error.
pub uninterp spec fn url_parse(input: Seq<char>) -> Result<Seq<char>, Seq<char>>;

/// What `url::Url::join` gives for a base URL (by its serialization) and an
/// input: the serialization of the joined URL, or the text of the parse error.
pub uninterp spec fn url_join(base: Seq<char>, input: Seq<char>) -> Result<Seq<char>, Seq<char>>;

/// The scheme of a URL, given its serialization: everything before the first
/// `:` (a scheme never holds one, and parsing lower-cases it).
pub open spec fn url_scheme(url: Seq<char>) -> Seq<char>
    decreases url.len(),
{
    if url.len() == 0 || url[0] == ':' {
        Seq::empty()
    } else {
        seq![url[0]] + url_scheme(url.drop_first())
    }
}

/// A parsed URL together with its serialization. Values are only made by
/// parsing or joining, so the text is always the URL's own serialization.
pub struct LevelUrl {
    url: url::Url,
    text: String,
}

impl LevelUrl {
    /// The parsed URL that this value holds.
    pub closed spec fn parsed_url(&self) -> url::Url {
        self.url
    }
}

impl View for LevelUrl {
    type V = Seq<char>;

    closed spec fn view(&self) -> Seq<char> {
        self.text@
    }
}

/// Parses `input` with `url::Url::parse`. The contract claims that the result
/// is the parsed URL (kept with its serialization, `Url::as_str`) or the text of
/// the `ParseError`, and names it `url_parse`; what that is on a given input is
/// the url crate's WHATWG parser and is not stated.
#[verifier::external_body]
fn parse_url(input: &str) -> (res: Result<LevelUrl, String>)
    ensures
        match res {
            Ok(u) => url_parse(input@) == Ok::<Seq<char>, Seq<char>>(u@),
            Err(e) => url_parse(input@) == Err::<Seq<char>, Seq<char>>(e@),
        },
{
    match url::Url::parse(input) {
        Ok(url) => Ok(LevelUrl { text: url.as_str().to_string(), url }),
        Err(err) => Err(err.to_string()),
    }
}

/// Resolves `input` against `base` with `url::Url::join`. The contract claims the
/// joined URL's serialization, or the text of the `ParseError`, is `url_join` of
/// the base's serialization and the input.
#[verifier::external_body]
fn join_url(base: &LevelUrl, input: &str) -> (res: Result<LevelUrl, String>)
    ensures
        match res {
            Ok(u) => url_join(base@, input@) == Ok::<Seq<char>, Seq<char>>(u@),
            Err(e) => url_join(base@, input@) == Err::<Seq<char>, Seq<char>>(e@),
        },
{
    match base.url.join(input) {
        Ok(url) => Ok(LevelUrl { text: url.as_str().to_string(), url }),
        Err(err) => Err(err.to_string()),
    }
}

/// The scheme of a URL, by `url::Url::scheme`, which the url crate takes from
/// the start of the serialization up to the `:` that ends the scheme; the
/// contract claims it is the serialization's part before its first `:`.
#[verifier::external_body]
fn scheme_of(u: &LevelUrl) -> (res: &str)
    ensures
        res@ == url_scheme(u@),
{
    u.url.scheme()
}

/// A copy of a URL, by `url::Url::clone`; the contract claims that the copy has
/// the same serialization.
#[verifier::external_body]
fn clone_url(u: &LevelUrl) -> (res: LevelUrl)
    ensures
        res@ == u@,
{
    LevelUrl { url: u.url.clone(), text: u.text.clone() }
}

impl LevelUrl {
    /// Parses a URL.
    pub fn parse(input: &str) -> (res: Result<LevelUrl, String>)
        ensures
            match res {
                Ok(u) => url_parse(input@) == Ok::<Seq<char>, Seq<char>>(u@),
                Err(e) => url_parse(input@) == Err::<Seq<char>, Seq<char>>(e@),
            },
    {
        parse_url(input)
    }

    /// Resolves `input` relative to this URL.
    pub fn join(&self, input: &str) -> (res: Result<LevelUrl, String>)
        ensures
            match res {
                Ok(u) => url_join(self@, input@) == Ok::<Seq<char>, Seq<char>>(u@),
                Err(e) => url_join(self@, input@) == Err::<Seq<char>, Seq<char>>(e@),
            },
    {
        join_url(self, input)
    }

    /// The URL's scheme, lower-cased, without the `:`.
    pub fn scheme(&self) -> (res: &str)
        ensures
            res@ == url_scheme(self@),
    {
        scheme_of(self)
    }

    /// A copy of this URL.
    pub fn duplicate(&self) -> (res: LevelUrl)
        ensures
            res@ == self@,
    {
        clone_url(self)
    }

    /// The URL's serialization.
    pub fn as_str(&self) -> (res: &str)
        ensures
            res@ == self@,
    {
        self.text.as_str()
    }

    /// The parsed URL itself, for the code that performs requests.
    pub fn url(&self) -> (res: &url::Url)
        ensures
            *res == self.parsed_url(),
    {
        &self.url
    }
}

} // verus!
