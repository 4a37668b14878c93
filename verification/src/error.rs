//! The errors that the transport reports, and the parsing of a destination.

use vstd::prelude::*;
use vstd::std_specs::convert::FromSpecImpl;
use vstd::string::StringExecFns;

verus! {

/// The error that `tonic` reports of a destination or of a connection.
#[verifier::external_type_specification]
#[verifier::external_body]
pub struct ExTransportError(tonic::transport::Error);

/// The status with which the server ends a call.
#[verifier::external_type_specification]
#[verifier::external_body]
pub struct ExStatus(tonic::Status);

/// The address of a server, as `tonic` holds it once it has parsed.
#[verifier::external_type_specification]
#[verifier::external_body]
pub struct ExEndpoint(tonic::transport::Endpoint);

/// What can go wrong between this library and the server.
#[derive(Debug)]
pub enum LayerError {
    /// The destination is no address, or no connection could be made.
    TonicTransportError(tonic::transport::Error),
    /// The server ended the stream with a status.
    TonicStatus(tonic::Status),
}

impl From<tonic::transport::Error> for LayerError {
    fn from(value: tonic::transport::Error) -> (error: Self) {
        LayerError::TonicTransportError(value)
    }
}

impl FromSpecImpl<tonic::transport::Error> for LayerError {
    open spec fn obeys_from_spec() -> bool {
        true
    }

    open spec fn from_spec(value: tonic::transport::Error) -> Self {
        LayerError::TonicTransportError(value)
    }
}

impl From<tonic::Status> for LayerError {
    fn from(value: tonic::Status) -> (error: Self) {
        LayerError::TonicStatus(value)
    }
}

impl FromSpecImpl<tonic::Status> for LayerError {
    open spec fn obeys_from_spec() -> bool {
        true
    }

    open spec fn from_spec(value: tonic::Status) -> Self {
        LayerError::TonicStatus(value)
    }
}

/// Whether `tonic::transport::Endpoint::from_shared` takes `destination` for
/// an address: whether the text parses as a URI.
pub uninterp spec fn destination_accepted(destination: Seq<char>) -> bool;

/// Calls `tonic::transport::Endpoint::from_shared`, which parses the text as
/// a URI and does nothing else: it fails exactly on the texts that are none.
#[verifier::external_body]
fn parse_endpoint(destination: String) -> (parsed: Result<
    tonic::transport::Endpoint,
    tonic::transport::Error,
>)
    ensures
        parsed.is_ok() == destination_accepted(destination@),
{
    tonic::transport::Endpoint::from_shared(destination)
}

/// What the `Display` of a transport error writes.
pub uninterp spec fn transport_error_text_of(error: tonic::transport::Error) -> Seq<char>;

/// What the `Display` of a status writes.
pub uninterp spec fn status_text_of(status: tonic::Status) -> Seq<char>;

/// Renders a transport error with its `Display`, which writes a text that
/// the error's kind alone decides.
#[verifier::external_body]
fn transport_error_text(error: &tonic::transport::Error) -> (text: String)
    ensures
        text@ == transport_error_text_of(*error),
{
    error.to_string()
}

/// Renders a status with its `Display`, which writes the status code, the
/// message, the details and the metadata.
#[verifier::external_body]
fn status_text(status: &tonic::Status) -> (text: String)
    ensures
        text@ == status_text_of(*status),
{
    status.to_string()
}

/// The words that open the description of a transport error.
pub open spec fn transport_prefix() -> Seq<char> {
    "Tonic Transport Error: "@
}

/// The words that open the description of a status.
pub open spec fn status_prefix() -> Seq<char> {
    "Tonic Status: "@
}

/// The server address that `destination` names, or the error of a
/// destination that is no address.
pub fn endpoint_for(destination: String) -> (parsed: Result<tonic::transport::Endpoint, LayerError>)
    ensures
        parsed.is_ok() == destination_accepted(destination@),
        parsed matches Err(e) ==> e is TonicTransportError,
{
    match parse_endpoint(destination) {
        Ok(endpoint) => Ok(endpoint),
        Err(e) => Err(LayerError::from(e)),
    }
}

/// The description of a transport error.
pub open spec fn transport_description(error: tonic::transport::Error) -> Seq<char> {
    transport_prefix() + transport_error_text_of(error)
}

/// The description of a status.
pub open spec fn status_description(status: tonic::Status) -> Seq<char> {
    status_prefix() + status_text_of(status)
}

/// Describes a transport error: the words that name the kind, then what
/// the transport says of it.
pub fn describe_transport_error(error: &tonic::transport::Error) -> (text: String)
    ensures
        text@ == transport_description(*error),
{
    let detail = transport_error_text(error);
    "Tonic Transport Error: ".to_string().concat(detail.as_str())
}

/// Describes a status: the words that name the kind, then what the server
/// says of it.
pub fn describe_status(status: &tonic::Status) -> (text: String)
    ensures
        text@ == status_description(*status),
{
    let detail = status_text(status);
    "Tonic Status: ".to_string().concat(detail.as_str())
}

impl LayerError {
    /// The description of this error.
    pub open spec fn description(self) -> Seq<char> {
        match self {
            LayerError::TonicTransportError(e) => transport_description(e),
            LayerError::TonicStatus(s) => status_description(s),
        }
    }

    /// The description of this error: the words that name its kind, then
    /// what the transport says of it.
    pub fn message(&self) -> (text: String)
        ensures
            text@ == self.description(),
    {
        match self {
            LayerError::TonicTransportError(e) => describe_transport_error(e),
            LayerError::TonicStatus(s) => describe_status(s),
        }
    }
}

} // verus!
