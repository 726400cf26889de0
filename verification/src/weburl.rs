//! URLs, held as their serialization, and the two operations of the `url`
//! crate that the library needs: parsing and joining.
use vstd::prelude::*;
use crate::text::string_push;

verus! {

/// The serialization of the URL that `url::Url::parse` makes of `text`, or
/// `None` where it refuses the text.
pub uninterp spec fn parsed_url(text: Seq<char>) -> Option<Seq<char>>;

/// The serialization of the URL that `url::Url::join` makes of `href`
/// relative to the URL serialized as `base`, or `None` where it fails.
pub uninterp spec fn joined_url(base: Seq<char>, href: Seq<char>) -> Option<Seq<char>>;

/// Calls `url::Url::parse` and serializes the URL it gives. The contract
/// names the outcome (`parsed_url`) and says nothing of the error value.
#[verifier::external_body]
pub(crate) fn url_parse(text: &str) -> (r: Result<String, url::ParseError>)
    ensures
        r is Ok <==> parsed_url(text@) is Some,
        r matches Ok(u) ==> Some(u@) == parsed_url(text@),
{
    match url::Url::parse(text) {
        Ok(u) => Ok(u.into()),
        Err(e) => Err(e),
    }
}

/// Parses the serialized URL `base` and calls `url::Url::join` on it with
/// `href`, serializing the URL it gives. The contract names the outcome
/// (`joined_url`) and says nothing of the error value.
#[verifier::external_body]
pub(crate) fn url_join(base: &str, href: &str) -> (r: Result<String, url::ParseError>)
    ensures
        r is Ok <==> joined_url(base@, href@) is Some,
        r matches Ok(u) ==> Some(u@) == joined_url(base@, href@),
{
    match url::Url::parse(base) {
        Ok(b) => match b.join(href) {
            Ok(u) => Ok(u.into()),
            Err(e) => Err(e),
        },
        Err(e) => Err(e),
    }
}

/// Whether `text` is a URL that `url::Url::parse` accepts.
pub fn url_is_valid(text: &str) -> (r: bool)
    ensures
        r == parsed_url(text@) is Some,
{
    url_parse(text).is_ok()
}

/// The scheme of a serialized URL: the characters before its first colon.
pub open spec fn url_scheme(s: Seq<char>) -> Seq<char>
    decreases s.len(),
{
    if s.len() == 0 || s[0] == ':' {
        Seq::empty()
    } else {
        seq![s[0]] + url_scheme(s.drop_first())
    }
}

proof fn lemma_url_scheme_prefix(s: Seq<char>, i: int)
    requires
        0 <= i <= s.len(),
        forall|j: int| 0 <= j < i ==> s[j] != ':',
        i == s.len() || s[i] == ':',
    ensures
        url_scheme(s) == s.take(i),
    decreases s.len(),
{
    if s.len() > 0 && s[0] != ':' {
        lemma_url_scheme_prefix(s.drop_first(), i - 1);
        assert(s.take(i) =~= seq![s[0]] + s.drop_first().take(i - 1));
    } else {
        assert(s.take(i) =~= Seq::<char>::empty());
    }
}

/// The scheme of a URL is what comes before its first colon: a URL that
/// begins `http:`, `https:` or `file:` has the scheme `http`, `https` or
/// `file`.
pub proof fn law_scheme_is_the_text_before_the_colon(u: Seq<char>, i: int)
    ensures
        0 <= i <= u.len() && (i == u.len() || u[i] == ':') && (forall|j: int| 0 <= j < i ==> u[j]
            != ':') ==> url_scheme(u) == u.take(i),
        u.len() >= 5 && u.take(5) == "http:"@ ==> url_scheme(u) == "http"@,
        u.len() >= 6 && u.take(6) == "https:"@ ==> url_scheme(u) == "https"@,
        u.len() >= 5 && u.take(5) == "file:"@ ==> url_scheme(u) == "file"@,
{
    reveal_strlit("http:");
    reveal_strlit("https:");
    reveal_strlit("file:");
    reveal_strlit("http");
    reveal_strlit("https");
    reveal_strlit("file");
    if 0 <= i <= u.len() && (i == u.len() || u[i] == ':') && (forall|j: int| 0 <= j < i ==> u[j] != ':') {
        lemma_url_scheme_prefix(u, i);
    }
    if u.len() >= 5 && u.take(5) == "http:"@ {
        assert(u[4] == u.take(5)[4]);
        assert forall|j: int| 0 <= j < 4 implies u[j] != ':' by {
            assert(u[j] == u.take(5)[j]);
        }
        lemma_url_scheme_prefix(u, 4);
        assert(u.take(4) =~= "http"@);
    }
    if u.len() >= 6 && u.take(6) == "https:"@ {
        assert(u[5] == u.take(6)[5]);
        assert forall|j: int| 0 <= j < 5 implies u[j] != ':' by {
            assert(u[j] == u.take(6)[j]);
        }
        lemma_url_scheme_prefix(u, 5);
        assert(u.take(5) =~= "https"@);
    }
    if u.len() >= 5 && u.take(5) == "file:"@ {
        assert(u[4] == u.take(5)[4]);
        assert forall|j: int| 0 <= j < 4 implies u[j] != ':' by {
            assert(u[j] == u.take(5)[j]);
        }
        lemma_url_scheme_prefix(u, 4);
        assert(u.take(4) =~= "file"@);
    }
}

/// The scheme of the serialized URL `url`.
pub fn scheme_of(url: &str) -> (r: String)
    ensures
        r@ == url_scheme(url@),
{
    let n = url.unicode_len();
    let mut scheme = String::new();
    let mut i: usize = 0;
    while i < n
        invariant
            n == url@.len(),
            i <= n,
            scheme@ == url@.take(i as int),
            forall|j: int| 0 <= j < i ==> url@[j] != ':',
        ensures
            i == n || url@[i as int] == ':',
        decreases n - i,
    {
        let c = url.get_char(i);
        if c == ':' {
            break;
        }
        string_push(&mut scheme, c);
        assert(url@.take(i + 1) =~= url@.take(i as int).push(c));
        i = i + 1;
    }
    proof {
        lemma_url_scheme_prefix(url@, i as int);
    }
    scheme
}

} // verus!
