//! Errors of the AFIP services and of the requests made to them.
use vstd::prelude::*;

verus! {

#[verifier::external_type_specification]
#[verifier::external_body]
pub struct ExIoError(std::io::Error);

#[verifier::external_type_specification]
#[verifier::external_body]
pub struct ExErrorStack(openssl::error::ErrorStack);

#[verifier::external_type_specification]
#[verifier::external_body]
pub struct ExReqwestError(reqwest::Error);

#[verifier::external_type_specification]
#[verifier::external_body]
pub struct ExJsonError(serde_json::Error);

#[verifier::external_type_specification]
#[verifier::external_body]
pub struct ExXmlError(roxmltree::Error);

/// Errors of the AFIP web services and of talking to them.
#[derive(Debug)]
pub enum AfipError {
    Io(std::io::Error),
    OpenSsl(openssl::error::ErrorStack),
    Http(reqwest::Error),
    Json(serde_json::Error),
    Xml(roxmltree::Error),
    /// A SOAP `<Fault>` was returned by the web service.
    SoapFault { service: String, message: String },
    /// WSAA rejected the login (bad cert, clock skew, not authorized, ...).
    Wsaa(String),
    /// WSFE returned an error record (`<Errors><Err>`) on a query call.
    Wsfe(String),
    /// WSFE returned `Resultado = R` (rejected) with observations/errors.
    WsfeRejected(String),
    /// A field expected in a web-service response was missing.
    MissingField(&'static str),
    Config(String),
}

} // verus!
