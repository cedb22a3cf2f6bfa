//! The canonical form of a repository URL.
//!
//! URLs that differ only on the surface (a slash at the end, the case of a
//! path on the hosted platform, the scheme used to reach that platform, a
//! `.git` behind the repository's name) name one repository and get one
//! canonical form. The form serves to compare and to hash, never to connect.

use crate::git_url::lowercase_of;
use crate::git_url::GitUrl;
use crate::git_url::UrlView;
use crate::text::ends_with;
use crate::text::str_ends_with;
use crate::text::str_eq;
use vstd::prelude::*;
use vstd::string::StrSliceExecFns;
use vstd::string::StringExecFns;

verus! {

/// The host whose paths are compared without regard to case.
pub open spec fn hosted_platform() -> Seq<char> {
    "github.com"@
}

/// The scheme that every URL of the hosted platform is given.
pub open spec fn secure_scheme() -> Seq<char> {
    "https"@
}

/// The suffix that a repository's name may carry.
pub open spec fn repository_suffix() -> Seq<char> {
    ".git"@
}

/// `u` without one slash at the end of its path. The slash that opens the path
/// stays, and so does a path that is not made of segments.
pub open spec fn without_trailing_slash(u: UrlView) -> UrlView {
    if u.path.len() > 1 && u.path[0] == '/' && u.path.last() == '/' {
        UrlView { path: u.path.drop_last(), ..u }
    } else {
        u
    }
}

/// `u` with the secure scheme and its path in lower case, if its host is the
/// hosted platform; `u` otherwise.
pub open spec fn folded(u: UrlView) -> UrlView {
    if u.host == Some(hosted_platform()) {
        UrlView { scheme: secure_scheme(), path: lowercase_of(u.path), ..u }
    } else {
        u
    }
}

/// The path of `u` is made of segments and ends with the repository suffix.
pub open spec fn has_suffix(u: UrlView) -> bool {
    u.has_segments() && ends_with(u.path, repository_suffix())
}

/// `u` with the repository suffix cut from the end of its path, if the path
/// ends with one. Nothing else of the path changes.
pub open spec fn without_suffix(u: UrlView) -> UrlView {
    if has_suffix(u) {
        UrlView { path: u.path.subrange(0, u.path.len() - repository_suffix().len()), ..u }
    } else {
        u
    }
}

/// The canonical form of `u`: the three rules, in this order.
pub open spec fn canonical(u: UrlView) -> UrlView {
    without_suffix(folded(without_trailing_slash(u)))
}

/// The scheme of the canonical form: the secure one on the hosted platform,
/// the URL's own elsewhere.
pub open spec fn canonical_scheme(u: UrlView) -> Seq<char> {
    if u.host == Some(hosted_platform()) {
        secure_scheme()
    } else {
        u.scheme
    }
}

/// `u` with the scheme of its canonical form.
pub open spec fn with_canonical_scheme(u: UrlView) -> UrlView {
    UrlView { scheme: canonical_scheme(u), ..u }
}

/// `u` with the repository suffix behind its path.
pub open spec fn with_suffix(u: UrlView) -> UrlView {
    UrlView { path: u.path + repository_suffix(), ..u }
}

/// On the hosted platform the path of `u` is in lower case already; elsewhere
/// nothing is asked.
pub open spec fn is_in_lower_case(u: UrlView) -> bool {
    u.host == Some(hosted_platform()) ==> lowercase_of(u.path) == u.path
}

/// No rule of the canonical form finds anything to change in `c`: its path
/// has no slash at the end to drop and no repository suffix, and on the
/// hosted platform it is in lower case.
pub open spec fn is_settled(c: UrlView) -> bool {
    &&& without_trailing_slash(c) == c
    &&& !has_suffix(c)
    &&& is_in_lower_case(c)
}

/// The paths of `a` and `b` are the same in lower case, once a slash at the
/// end is dropped.
pub open spec fn same_in_lower_case(a: UrlView, b: UrlView) -> bool {
    lowercase_of(without_trailing_slash(a).path) == lowercase_of(without_trailing_slash(b).path)
}

/// `b` is `a` with another path.
pub open spec fn differ_in_path_only(a: UrlView, b: UrlView) -> bool {
    b == (UrlView { path: b.path, ..a })
}

/// Takes one slash from the end of the path.
pub fn strip_trailing_slash(url: GitUrl) -> (r: GitUrl)
    ensures
        r@ == without_trailing_slash(url@),
{
    let n = url.path.as_str().unicode_len();
    if n > 1 && url.path.as_str().get_char(0) == '/' && url.path.as_str().get_char(n - 1) == '/' {
        let path = String::from_str(url.path.as_str().substring_char(0, n - 1));
        assert(path@ == url.path@.drop_last());
        GitUrl { path, ..url }
    } else {
        url
    }
}

/// Whether the host of `url` is the hosted platform.
pub fn is_on_hosted_platform(url: &GitUrl) -> (r: bool)
    ensures
        r == (url@.host == Some(hosted_platform())),
{
    match &url.host {
        Some(h) => str_eq(h.as_str(), "github.com"),
        None => false,
    }
}

/// Gives a URL of the hosted platform the secure scheme and a path in lower
/// case.
pub fn fold_hosted(url: GitUrl) -> (r: GitUrl)
    ensures
        r@ == folded(url@),
{
    if is_on_hosted_platform(&url) {
        let path = url.path.as_str().to_lowercase();
        GitUrl { scheme: String::from_str("https"), path, ..url }
    } else {
        url
    }
}

/// Whether the path of `url` is made of segments and ends with the
/// repository suffix.
pub fn ends_with_suffix(url: &GitUrl) -> (r: bool)
    ensures
        r == has_suffix(url@),
{
    let n = url.path.as_str().unicode_len();
    n > 0 && url.path.as_str().get_char(0) == '/' && str_ends_with(url.path.as_str(), ".git")
}

/// Cuts the repository suffix from the end of the path.
pub fn strip_suffix(url: GitUrl) -> (r: GitUrl)
    ensures
        r@ == without_suffix(url@),
{
    if ends_with_suffix(&url) {
        let n = url.path.as_str().unicode_len();
        let m = ".git".unicode_len();
        let path = String::from_str(url.path.as_str().substring_char(0, n - m));
        GitUrl { path, ..url }
    } else {
        url
    }
}

/// The canonical form of `url`.
///
/// One slash at the end of the path is dropped. A URL of the hosted platform
/// gets the secure scheme and a lower-case path. A `.git` at the end of the
/// path is dropped. Authority, query and fragment stay as they are, and so
/// does every other character of the path.
pub fn canonicalize_url(url: &GitUrl) -> (r: GitUrl)
    ensures
        r@ == canonical(url@),
        r@.authority == url@.authority,
        r@.host == url@.host,
        r@.trailer == url@.trailer,
        r@.scheme == canonical_scheme(url@),
{
    proof {
        lemma_canonical_keeps_rest(url@);
    }
    strip_suffix(fold_hosted(strip_trailing_slash(url.clone())))
}

/// The canonical form differs from the URL in scheme and path at most:
/// authority, host, query and fragment are those of the URL.
pub proof fn lemma_canonical_keeps_rest(u: UrlView)
    ensures
        canonical(u).authority == u.authority,
        canonical(u).host == u.host,
        canonical(u).trailer == u.trailer,
        canonical(u).scheme == canonical_scheme(u),
{
}

/// The canonical form of a canonical form is that form itself, provided that
/// the first pass left nothing to do. Each rule is applied once: of two
/// slashes at the end of a path, or of two repository suffixes, the first
/// pass takes one and a second pass would take the other.
pub proof fn lemma_canonical_idempotent(u: UrlView)
    requires
        is_settled(canonical(u)),
    ensures
        canonical(canonical(u)) == canonical(u),
{
    let c = canonical(u);
    lemma_canonical_keeps_rest(u);
    assert(folded(c) == c);
}

/// Away from the hosted platform, a URL that has nothing left to drop once a
/// slash is taken from its path is canonical with that slash taken, and a
/// second pass changes nothing.
pub proof fn lemma_canonical_of_plain_url(u: UrlView)
    requires
        u.host != Some(hosted_platform()),
        is_settled(without_trailing_slash(u)),
    ensures
        canonical(u) == without_trailing_slash(u),
        canonical(canonical(u)) == canonical(u),
{
}

/// A slash at the end of a path makes no difference: a URL and the same URL
/// with one slash more have one canonical form. The URL itself must not end
/// with a slash that would be dropped in turn.
pub proof fn lemma_trailing_slash_ignored(a: UrlView, b: UrlView)
    requires
        a.has_segments(),
        without_trailing_slash(a) == a,
        b == (UrlView { path: a.path.push('/'), ..a }),
    ensures
        canonical(a) == canonical(b),
{
    assert(b.path.drop_last() =~= a.path);
    assert(without_trailing_slash(b) == a);
}

/// On the hosted platform the scheme makes no difference: two URLs that
/// differ in nothing else have one canonical form.
pub proof fn lemma_scheme_ignored_on_hosted_platform(a: UrlView, b: UrlView)
    requires
        a.host == Some(hosted_platform()),
        b == (UrlView { scheme: b.scheme, ..a }),
    ensures
        canonical(a) == canonical(b),
{
    let sa = without_trailing_slash(a);
    let sb = without_trailing_slash(b);
    assert(sb == (UrlView { scheme: b.scheme, ..sa }));
    assert(folded(sa) == folded(sb));
}

/// On the hosted platform the case of a path makes no difference: two URLs
/// that differ in their paths only, and whose paths are the same in lower
/// case once a slash at the end is dropped, have one canonical form.
pub proof fn lemma_case_ignored_on_hosted_platform(a: UrlView, b: UrlView)
    requires
        a.host == Some(hosted_platform()),
        differ_in_path_only(a, b),
        same_in_lower_case(a, b),
    ensures
        canonical(a) == canonical(b),
{
    let sa = without_trailing_slash(a);
    let sb = without_trailing_slash(b);
    assert(sb == (UrlView { path: sb.path, ..sa }));
    assert(folded(sa) == folded(sb));
}

/// The repository suffix makes no difference: a URL with a path of
/// segments that has nothing to drop, and the same URL with the suffix
/// behind its path, have one canonical form, which is the URL without the
/// suffix, under the scheme of the canonical form. On the hosted platform
/// the path with the suffix has to be in lower case as the path without it
/// is.
pub proof fn lemma_suffix_ignored(a: UrlView)
    requires
        a.has_segments(),
        is_settled(a),
        is_in_lower_case(with_suffix(a)),
    ensures
        canonical(a) == with_canonical_scheme(a),
        canonical(with_suffix(a)) == canonical(a),
{
    reveal_strlit(".git");
    let b = with_suffix(a);
    let n = a.path.len() as int;
    assert(b.path.subrange(n, n + 4) =~= repository_suffix());
    assert(b.path.last() == 't');
    assert(b.path.subrange(0, n) =~= a.path);
    assert(without_trailing_slash(b) == b);
    assert(folded(a) == with_canonical_scheme(a));
    assert(folded(b) == with_canonical_scheme(b));
    assert(has_suffix(folded(b)));
}

/// Away from the hosted platform the repository suffix makes no difference
/// to a URL with a path of segments that has no slash at its end to drop and
/// no suffix yet: with the suffix behind its path, its canonical form is the
/// URL itself.
pub proof fn lemma_suffix_ignored_away_from_hosted_platform(a: UrlView)
    requires
        a.host != Some(hosted_platform()),
        a.has_segments(),
        without_trailing_slash(a) == a,
        !has_suffix(a),
    ensures
        canonical(a) == a,
        canonical(with_suffix(a)) == a,
{
    lemma_suffix_ignored(a);
}

/// Whether `b` is `a` with another path.
pub fn differs_in_path_only(a: &GitUrl, b: &GitUrl) -> (r: bool)
    ensures
        r == differ_in_path_only(a@, b@),
{
    let same_host = match (&a.host, &b.host) {
        (Some(x), Some(y)) => str_eq(x.as_str(), y.as_str()),
        (None, None) => true,
        _ => false,
    };
    same_host && str_eq(a.scheme.as_str(), b.scheme.as_str()) && str_eq(
        a.authority.as_str(),
        b.authority.as_str(),
    ) && str_eq(a.trailer.as_str(), b.trailer.as_str())
}

/// Whether, on the hosted platform, the path of `url` is in lower case
/// already.
pub fn is_url_in_lower_case(url: &GitUrl) -> (r: bool)
    ensures
        r == is_in_lower_case(url@),
{
    if is_on_hosted_platform(url) {
        let lowered = url.path.as_str().to_lowercase();
        str_eq(lowered.as_str(), url.path.as_str())
    } else {
        true
    }
}

/// Whether the paths of `a` and `b` are the same in lower case, once a slash
/// at the end is dropped.
pub fn is_same_in_lower_case(a: &GitUrl, b: &GitUrl) -> (r: bool)
    ensures
        r == same_in_lower_case(a@, b@),
{
    let a = strip_trailing_slash(a.clone());
    let b = strip_trailing_slash(b.clone());
    let lower_a = a.path.as_str().to_lowercase();
    let lower_b = b.path.as_str().to_lowercase();
    str_eq(lower_a.as_str(), lower_b.as_str())
}

/// Whether no rule of the canonical form finds anything to change in `url`.
pub fn is_settled_url(url: &GitUrl) -> (r: bool)
    ensures
        r == is_settled(url@),
{
    let n = url.path.as_str().unicode_len();
    let slash = n > 1 && url.path.as_str().get_char(0) == '/' && url.path.as_str().get_char(n - 1)
        == '/';
    proof {
        if slash {
            assert(without_trailing_slash(url@).path.len() != url@.path.len());
        }
    }
    !slash && !ends_with_suffix(url) && is_url_in_lower_case(url)
}

/// Whether the canonical form of `url` is settled, so that a second pass
/// changes nothing in it.
pub fn settles_in_one_pass(url: &GitUrl) -> (r: bool)
    ensures
        r == is_settled(canonical(url@)),
        r ==> canonical(canonical(url@)) == canonical(url@),
{
    let r = is_settled_url(&canonicalize_url(url));
    proof {
        if r {
            lemma_canonical_idempotent(url@);
        }
    }
    r
}

/// Whether `a` and `b` are on the hosted platform and differ in the case of
/// their paths only, so that they have one canonical form.
pub fn differ_in_case_only(a: &GitUrl, b: &GitUrl) -> (r: bool)
    ensures
        r == (a@.host == Some(hosted_platform()) && differ_in_path_only(a@, b@)
            && same_in_lower_case(a@, b@)),
        r ==> canonical(a@) == canonical(b@),
{
    let r = is_on_hosted_platform(a) && differs_in_path_only(a, b) && is_same_in_lower_case(a, b);
    proof {
        if r {
            lemma_case_ignored_on_hosted_platform(a@, b@);
        }
    }
    r
}

/// Whether `url` has a path of segments with nothing to drop, in lower case
/// with the repository suffix as without it where the hosted platform asks
/// for that, so that the suffix makes no difference to its canonical form.
pub fn is_same_with_suffix(url: &GitUrl) -> (r: bool)
    ensures
        r == (url@.has_segments() && is_settled(url@) && is_in_lower_case(with_suffix(url@))),
        r ==> canonical(with_suffix(url@)) == canonical(url@),
{
    let n = url.path.as_str().unicode_len();
    let segments = n > 0 && url.path.as_str().get_char(0) == '/';
    let longer = GitUrl { path: url.path.clone().concat(".git"), ..url.clone() };
    assert(longer@ == with_suffix(url@));
    let r = segments && is_settled_url(url) && is_url_in_lower_case(&longer);
    proof {
        if r {
            lemma_suffix_ignored(url@);
        }
    }
    r
}

} // verus!
