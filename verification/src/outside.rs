//! Error types of std and of outside crates that the library carries through
//! without looking inside them.
use vstd::prelude::*;

verus! {

/// `std::str::Utf8Error`: why a byte string is not UTF-8.
#[verifier::external_type_specification]
#[verifier::external_body]
pub struct ExUtf8Error(std::str::Utf8Error);

/// `std::io::Error`: a failed read.
#[verifier::external_type_specification]
#[verifier::external_body]
pub struct ExIoError(std::io::Error);

/// `url::ParseError`: why a URL could not be parsed or joined.
#[verifier::external_type_specification]
#[verifier::external_body]
pub struct ExUrlParseError(url::ParseError);

/// `serde_json::Error`: why JSON text could not be decoded.
#[verifier::external_type_specification]
#[verifier::external_body]
pub struct ExJsonError(serde_json::Error);

/// `ureq::Error`: a failed HTTP request.
#[verifier::external_type_specification]
#[verifier::external_body]
pub struct ExHttpError(ureq::Error);

/// `image::ImageError`: why image data could not be decoded.
#[verifier::external_type_specification]
#[verifier::external_body]
pub struct ExImageError(image::ImageError);

} // verus!
