//! The parts of a repository URL that the canonical form is computed from.

use url::Position;
use url::Url;
use vstd::prelude::*;
use vstd::string::StrSliceExecFns;
use vstd::string::StringExecFns;

verus! {

/// A URL as its serialization is laid out: the four parts follow each other
/// without a gap, and the host is the part of the authority that names the
/// machine.
pub struct UrlView {
    /// The scheme, without the colon behind it.
    pub scheme: Seq<char>,
    /// What stands between the scheme and the path: the colon and, where the
    /// URL has one, the authority with its two slashes.
    pub authority: Seq<char>,
    /// The host, where the URL has one.
    pub host: Option<Seq<char>>,
    /// The path; it begins with a slash unless the URL cannot be a base.
    pub path: Seq<char>,
    /// Query and fragment, each with the sign before it.
    pub trailer: Seq<char>,
}

impl UrlView {
    /// The URL written out.
    pub open spec fn text(self) -> Seq<char> {
        self.scheme + self.authority + self.path + self.trailer
    }

    /// The path is a list of segments, each behind a slash.
    pub open spec fn has_segments(self) -> bool {
        self.path.len() > 0 && self.path[0] == '/'
    }
}

/// A repository URL, split into its parts.
#[derive(Debug, PartialEq, Eq)]
pub struct GitUrl {
    pub scheme: String,
    pub authority: String,
    pub host: Option<String>,
    pub path: String,
    pub trailer: String,
}

impl View for GitUrl {
    type V = UrlView;

    open spec fn view(&self) -> UrlView {
        UrlView {
            scheme: self.scheme@,
            authority: self.authority@,
            host: match self.host {
                Some(h) => Some(h@),
                None => None,
            },
            path: self.path@,
            trailer: self.trailer@,
        }
    }
}

impl Clone for GitUrl {
    fn clone(&self) -> (r: Self)
        ensures
            r == *self,
    {
        GitUrl {
            scheme: self.scheme.clone(),
            authority: self.authority.clone(),
            host: match &self.host {
                Some(h) => Some(h.clone()),
                None => None,
            },
            path: self.path.clone(),
            trailer: self.trailer.clone(),
        }
    }
}

/// The URL parser turns a host name into ASCII with a counter of 32 bits.
/// For each character of the name, as the parser has decoded, mapped and
/// normalised it, the counter grows by little more than the number of code
/// points there are, so that a name of fewer than 3856 characters cannot
/// bring it to its end. A string whose load stays below this limit holds no
/// longer name; another is not handed to the parser.
pub const READ_LIMIT: usize = 3800;

/// What one character can weigh once a host name is mapped and normalised:
/// mapping makes up to 18 characters of one, and normalising up to 4 of each
/// of them.
pub const GROWTH: usize = 72;

/// `c` stays one character whatever the parser does with a host name: it is
/// ASCII, and no percent sign, behind which another character can hide.
pub open spec fn is_plain(c: char) -> bool {
    (c as u32) < 128 && c != '%'
}

/// How many characters a host name can have after the parser has decoded,
/// mapped and normalised it, if all of `input` were that name: one for each
/// plain character, and `GROWTH` for each other.
pub open spec fn parser_load(input: Seq<char>) -> nat
    decreases input.len(),
{
    if input.len() == 0 {
        0
    } else {
        parser_load(input.drop_last()) + if is_plain(input.last()) {
            1nat
        } else {
            GROWTH as nat
        }
    }
}

/// `input` is light enough for the parser to read it.
pub open spec fn parser_reads(input: Seq<char>) -> bool {
    parser_load(input) < READ_LIMIT
}

/// The load of a string is at least its length, and at most `GROWTH` times
/// that.
pub proof fn lemma_parser_load_bounds(input: Seq<char>)
    ensures
        input.len() <= parser_load(input) <= GROWTH * input.len(),
    decreases input.len(),
{
    if input.len() > 0 {
        lemma_parser_load_bounds(input.drop_last());
    }
}

/// What a string is parsed to: what `Url::parse` makes of it where it is
/// light enough to be read, nothing where it is not.
pub open spec fn parsed(input: Seq<char>) -> Option<UrlView> {
    if parser_reads(input) {
        url_parse(input)
    } else {
        None
    }
}

/// What `Url::parse` makes of `input`: the parts of the URL it returns, or
/// `None` where it returns an error.
pub uninterp spec fn url_parse(input: Seq<char>) -> Option<UrlView>;

/// What `str::to_lowercase` returns for `s`.
pub uninterp spec fn lowercase_of(s: Seq<char>) -> Seq<char>;

/// Calls `Url::parse` and splits the URL it returns at the positions the
/// parser recorded. Nothing is proved of it: the result is, by definition,
/// `url_parse` of the input. On a host name that has several thousand
/// characters once it is mapped, the parser's counter can reach its end and
/// stop the program, so strings that could hold such a name are not taken.
#[verifier::external_body]
fn parse_url(input: &str) -> (r: Option<GitUrl>)
    requires
        parser_reads(input@),
    ensures
        match r {
            Some(u) => url_parse(input@) == Some(u@),
            None => url_parse(input@).is_none(),
        },
{
    match Url::parse(input) {
        Ok(u) => Some(GitUrl {
            scheme: u.scheme().to_string(),
            authority: u[Position::AfterScheme..Position::BeforePath].to_string(),
            host: u.host_str().map(|h| h.to_string()),
            path: u.path().to_string(),
            trailer: u[Position::AfterPath..].to_string(),
        }),
        Err(_) => None,
    }
}

/// `str::to_lowercase` of std: the result is, by definition, `lowercase_of`
/// the string.
pub assume_specification[ str::to_lowercase ](s: &str) -> (r: String)
    ensures
        r@ == lowercase_of(s@),
;

/// Whether `input` is light enough for the parser to read it.
pub fn is_readable(input: &str) -> (r: bool)
    ensures
        r == parser_reads(input@),
{
    let n = input.unicode_len();
    proof {
        lemma_parser_load_bounds(input@);
    }
    if n >= READ_LIMIT {
        return false;
    }
    let mut load: usize = 0;
    let mut i: usize = 0;
    while i < n
        invariant
            n == input@.len(),
            n < READ_LIMIT,
            i <= n,
            load == parser_load(input@.subrange(0, i as int)),
            load <= GROWTH * i,
        decreases n - i,
    {
        let c = input.get_char(i);
        assert(input@.subrange(0, i + 1).drop_last() == input@.subrange(0, i as int));
        if (c as u32) < 128 && c != '%' {
            load += 1;
        } else {
            load += GROWTH;
        }
        i += 1;
    }
    assert(input@.subrange(0, n as int) == input@);
    load < READ_LIMIT
}

impl GitUrl {
    /// Parses `input` as an absolute URL. A string too heavy for the parser
    /// to read is no URL.
    pub fn parse(input: &str) -> (r: Option<GitUrl>)
        ensures
            match r {
                Some(u) => parsed(input@) == Some(u@),
                None => parsed(input@).is_none(),
            },
    {
        if is_readable(input) {
            parse_url(input)
        } else {
            None
        }
    }

    /// The URL written out.
    pub fn text(&self) -> (r: String)
        ensures
            r@ == self@.text(),
    {
        let r = String::from_str(self.scheme.as_str());
        let r = r.concat(self.authority.as_str());
        let r = r.concat(self.path.as_str());
        r.concat(self.trailer.as_str())
    }
}

} // verus!
