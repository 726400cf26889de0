//! Where an asset of a level is fetched from: the href is resolved against
//! the manifest's URL, and the scheme of the result picks the transport.
use vstd::prelude::*;
use crate::weburl::{joined_url, scheme_of, url_join, url_scheme};

verus! {

/// Why an asset could not be fetched.
#[derive(Debug)]
pub enum FetchError {
    HTTP(Box<ureq::Error>),
    IO(std::io::Error),
    URLJoin(url::ParseError),
    InvalidScheme,
}

/// A resolved request: the serialized URL to read, and how to read it.
#[derive(Debug, PartialEq, Eq, Structural)]
pub enum FetchTransport {
    Http,
    File,
}

#[derive(Debug)]
pub struct FetchRequest {
    pub transport: FetchTransport,
    pub url: String,
}

/// The transport that a scheme calls for, if any.
pub open spec fn transport_for_scheme(scheme: Seq<char>) -> Option<FetchTransport> {
    if scheme == "http"@ || scheme == "https"@ {
        Some(FetchTransport::Http)
    } else if scheme == "file"@ {
        Some(FetchTransport::File)
    } else {
        None
    }
}

/// Assets are read over the web for `http` and `https` URLs alike, and from
/// the file system for `file` URLs; a URL of any other scheme is refused.
pub proof fn law_schemes_pick_transports(scheme: Seq<char>)
    ensures
        transport_for_scheme("http"@) == Some(FetchTransport::Http),
        transport_for_scheme("https"@) == Some(FetchTransport::Http),
        transport_for_scheme("file"@) == Some(FetchTransport::File),
        transport_for_scheme(scheme) is Some ==> scheme == "http"@ || scheme == "https"@ || scheme
            == "file"@,
{
    reveal_strlit("http");
    reveal_strlit("https");
    reveal_strlit("file");
    assert("http"@.len() == 4 && "https"@.len() == 5 && "file"@.len() == 4);
    assert("http"@[0] != "file"@[0]);
}

/// Resolves `href` against the manifest URL `base_url` and picks the
/// transport: HTTP for `http` and `https`, the file system for `file`.
pub fn fetch_request(base_url: &str, href: &str) -> (r: Result<FetchRequest, FetchError>)
    ensures
        r matches Err(FetchError::URLJoin(_)) <==> joined_url(base_url@, href@) is None,
        r matches Err(FetchError::InvalidScheme) <==> (joined_url(base_url@, href@) matches Some(
            u,
        ) && transport_for_scheme(url_scheme(u)) is None),
        r matches Ok(req) ==> joined_url(base_url@, href@) == Some(req.url@) && transport_for_scheme(
            url_scheme(req.url@),
        ) == Some(req.transport),
        r is Err ==> r matches Err(FetchError::URLJoin(_)) || r matches Err(
            FetchError::InvalidScheme,
        ),
{
    let url = match url_join(base_url, href) {
        Ok(url) => url,
        Err(e) => return Err(FetchError::URLJoin(e)),
    };
    let scheme = scheme_of(url.as_str());
    if scheme == "http".to_owned() || scheme == "https".to_owned() {
        Ok(FetchRequest { transport: FetchTransport::Http, url })
    } else if scheme == "file".to_owned() {
        Ok(FetchRequest { transport: FetchTransport::File, url })
    } else {
        Err(FetchError::InvalidScheme)
    }
}

} // verus!
