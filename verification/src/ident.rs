//! The identity of a repository: a short name that is safe in a file system
//! and the same for every URL with the same canonical form.

use crate::canonical::canonical;
use crate::canonical::canonicalize_url;
use crate::canonical::differ_in_path_only;
use crate::canonical::hosted_platform;
use crate::canonical::is_in_lower_case;
use crate::canonical::is_settled;
use crate::canonical::lemma_case_ignored_on_hosted_platform;
use crate::canonical::lemma_scheme_ignored_on_hosted_platform;
use crate::canonical::lemma_suffix_ignored;
use crate::canonical::lemma_trailing_slash_ignored;
use crate::canonical::same_in_lower_case;
use crate::canonical::with_suffix;
use crate::canonical::without_trailing_slash;
use crate::git_url::GitUrl;
use crate::git_url::UrlView;
use crate::hex::hex_of;
use crate::hex::short_hash;
use crate::hex::sip_hash_of;
use crate::text::last_segment;
use crate::text::str_last_segment;
use vstd::prelude::*;
use vstd::string::StrSliceExecFns;
use vstd::string::StringExecFns;

verus! {

/// The tag of a URL that has no name to show.
pub open spec fn placeholder() -> Seq<char> {
    "_empty"@
}

/// The last path segment of `u`; empty where the path has no segments.
pub open spec fn repository_name(u: UrlView) -> Seq<char> {
    if u.has_segments() {
        last_segment(u.path, '/')
    } else {
        Seq::empty()
    }
}

/// The readable part of an identity: the repository's name, or the
/// placeholder where the name is empty.
pub open spec fn tag_of(u: UrlView) -> Seq<char> {
    if repository_name(u).len() == 0 {
        placeholder()
    } else {
        repository_name(u)
    }
}

/// Tag, a hyphen and the short hash.
pub open spec fn joined(tag: Seq<char>, short_hash: Seq<char>) -> Seq<char> {
    tag + "-"@ + short_hash
}

/// The identity of `u`: the tag of its canonical form, joined to the short
/// hash of the whole canonical URL.
pub open spec fn ident_of(u: UrlView) -> Seq<char> {
    let c = canonical(u);
    joined(tag_of(c), hex_of(sip_hash_of(c.text())))
}

/// URLs with one canonical form have one identity.
pub proof fn lemma_ident_of_canonical_form(a: UrlView, b: UrlView)
    requires
        canonical(a) == canonical(b),
    ensures
        ident_of(a) == ident_of(b),
{
}

/// A slash at the end of a path makes no difference to the identity.
pub proof fn lemma_ident_ignores_trailing_slash(a: UrlView, b: UrlView)
    requires
        a.has_segments(),
        without_trailing_slash(a) == a,
        b == (UrlView { path: a.path.push('/'), ..a }),
    ensures
        ident_of(a) == ident_of(b),
{
    lemma_trailing_slash_ignored(a, b);
}

/// On the hosted platform the scheme makes no difference to the identity.
pub proof fn lemma_ident_ignores_scheme_on_hosted_platform(a: UrlView, b: UrlView)
    requires
        a.host == Some(hosted_platform()),
        b == (UrlView { scheme: b.scheme, ..a }),
    ensures
        ident_of(a) == ident_of(b),
{
    lemma_scheme_ignored_on_hosted_platform(a, b);
}

/// On the hosted platform the case of a path makes no difference to the
/// identity.
pub proof fn lemma_ident_ignores_case_on_hosted_platform(a: UrlView, b: UrlView)
    requires
        a.host == Some(hosted_platform()),
        differ_in_path_only(a, b),
        same_in_lower_case(a, b),
    ensures
        ident_of(a) == ident_of(b),
{
    lemma_case_ignored_on_hosted_platform(a, b);
}

/// The repository suffix makes no difference to the identity of a URL with
/// a path of segments that has nothing to drop. On the hosted platform the
/// path with the suffix has to be in lower case as the path without it is.
pub proof fn lemma_ident_ignores_suffix(a: UrlView)
    requires
        a.has_segments(),
        is_settled(a),
        is_in_lower_case(with_suffix(a)),
    ensures
        ident_of(with_suffix(a)) == ident_of(a),
{
    lemma_suffix_ignored(a);
}

/// An identity begins with the tag of the canonical form and a hyphen; the
/// sixteen digits of the short hash follow.
pub proof fn lemma_ident_shape(u: UrlView)
    ensures
        ident_of(u).len() == tag_of(canonical(u)).len() + 17,
        ident_of(u).subrange(0, tag_of(canonical(u)).len() as int) == tag_of(canonical(u)),
        ident_of(u)[tag_of(canonical(u)).len() as int] == '-',
        ident_of(u).skip(tag_of(canonical(u)).len() as int + 1) == hex_of(
            sip_hash_of(canonical(u).text()),
        ),
{
    reveal_strlit("-");
    let tag = tag_of(canonical(u));
    let hash = hex_of(sip_hash_of(canonical(u).text()));
    assert(ident_of(u).subrange(0, tag.len() as int) =~= tag);
    assert(ident_of(u).skip(tag.len() as int + 1) =~= hash);
}

/// Where the canonical form has no repository name, because its path has no
/// segments or the last one is empty, the identity begins with the
/// placeholder and a hyphen.
pub proof fn lemma_placeholder_for_empty_name(u: UrlView)
    requires
        repository_name(canonical(u)).len() == 0,
    ensures
        ident_of(u).subrange(0, 7) == "_empty-"@,
{
    reveal_strlit("-");
    reveal_strlit("_empty");
    reveal_strlit("_empty-");
    assert(ident_of(u).subrange(0, 7) =~= "_empty-"@);
}

/// The readable part of the identity of `url`.
pub fn tag(url: &GitUrl) -> (r: String)
    ensures
        r@ == tag_of(url@),
{
    let n = url.path.as_str().unicode_len();
    if n > 0 && url.path.as_str().get_char(0) == '/' {
        let name = str_last_segment(url.path.as_str(), '/');
        if name.unicode_len() > 0 {
            return String::from_str(name);
        }
    }
    String::from_str("_empty")
}

/// Joins a tag and a short hash with a hyphen.
pub fn join(tag: String, short_hash: &str) -> (r: String)
    ensures
        r@ == joined(tag@, short_hash@),
{
    tag.concat("-").concat(short_hash)
}

/// The identity of the repository at `url`.
///
/// It is a function of the canonical form alone: the hash covers the whole
/// canonical URL, so that two repositories with one name differ in it.
pub fn ident(url: &GitUrl) -> (r: String)
    ensures
        r@ == ident_of(url@),
{
    let url = canonicalize_url(url);
    let text = url.text();
    join(tag(&url), short_hash(text.as_str()).as_str())
}

} // verus!
