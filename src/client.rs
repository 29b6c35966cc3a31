//! The client: request addresses for each operation, and what each operation
//! returns for the outcome of its request.
//!
//! The client holds only its base address. Sending a request and reading
//! the whole body is the caller's part; the functions here take that outcome
//! and classify it, decoding the body where one came back.
use crate::decode::{decode_stations_in, decode_trains_in, stations_in, trains_in, Envelope};
use crate::errors::{DebuggingError, Error};
use crate::json::{decode_utf8, utf8_text};
use crate::model::{StationsByCode, TrainsByNumber};
use reqwest::Error as TransportError;
use vstd::prelude::*;

verus! {

/// The production address of the service.
pub open spec fn default_base_url() -> Seq<char> {
    "https://api-v3.amtraker.com/v3"@
}

/// A client of the service.
///
/// This is no connection: it holds the base address alone, and every
/// operation stands on its own.
#[derive(Clone, Debug)]
pub struct Client {
    base_url: String,
}

impl View for Client {
    type V = Seq<char>;

    /// The base address.
    closed spec fn view(&self) -> Seq<char> {
        self.base_url@
    }
}

pub open spec fn trains_url_spec(base: Seq<char>) -> Seq<char> {
    base + "/trains"@
}

pub open spec fn train_url_spec(base: Seq<char>, id: Seq<char>) -> Seq<char> {
    base + "/trains/"@ + id
}

pub open spec fn stations_url_spec(base: Seq<char>) -> Seq<char> {
    base + "/stations"@
}

pub open spec fn station_url_spec(base: Seq<char>, code: Seq<char>) -> Seq<char> {
    base + "/stations/"@ + code
}

impl Default for Client {
    fn default() -> (r: Client)
        ensures
            r@ == default_base_url(),
    {
        Client::new()
    }
}

impl Client {
    /// A client of the production service.
    pub fn new() -> (r: Client)
        ensures
            r@ == default_base_url(),
    {
        Client { base_url: "https://api-v3.amtraker.com/v3".to_owned() }
    }

    /// A client of the service at `base_url`.
    pub fn with_base_url(base_url: &str) -> (r: Client)
        ensures
            r@ == base_url@,
    {
        Client { base_url: base_url.to_owned() }
    }

    /// The base address.
    pub fn base_url(&self) -> (r: &str)
        ensures
            r@ == self@,
    {
        self.base_url.as_str()
    }

    /// Where the list of all trains is asked for.
    pub fn trains_url(&self) -> (r: String)
        ensures
            r@ == trains_url_spec(self@),
    {
        self.base_url.clone().concat("/trains")
    }

    /// Where the trains of an identifier (a train id or a train number) are
    /// asked for.
    pub fn train_url(&self, train_identifier: &str) -> (r: String)
        ensures
            r@ == train_url_spec(self@, train_identifier@),
    {
        self.base_url.clone().concat("/trains/").concat(train_identifier)
    }

    /// Where the list of all stations is asked for.
    pub fn stations_url(&self) -> (r: String)
        ensures
            r@ == stations_url_spec(self@),
    {
        self.base_url.clone().concat("/stations")
    }

    /// Where one station is asked for.
    pub fn station_url(&self, station_code: &str) -> (r: String)
        ensures
            r@ == station_url_spec(self@, station_code@),
    {
        self.base_url.clone().concat("/stations/").concat(station_code)
    }
}

/// What a trains operation returns for a body it received.
pub open spec fn trains_outcome(body: Seq<u8>, r: Result<TrainsByNumber, Error>) -> bool {
    match r {
        Ok(m) => trains_in(body, Envelope::Bare) == Ok::<_, crate::errors::Fault>(m@) && m.wf(),
        Err(Error::DeserializeFailed(d)) => trains_in(body, Envelope::Bare) == Err::<
            Seq<(Seq<char>, Seq<crate::model::TrainView>)>,
            _,
        >(d@),
        Err(_) => false,
    }
}

/// What a stations operation returns for a body it received.
pub open spec fn stations_outcome(body: Seq<u8>, r: Result<StationsByCode, Error>) -> bool {
    match r {
        Ok(m) => stations_in(body, Envelope::Bare) == Ok::<_, crate::errors::Fault>(m@) && m.wf(),
        Err(Error::DeserializeFailed(d)) => stations_in(body, Envelope::Bare) == Err::<
            Seq<(Seq<char>, crate::model::StationView)>,
            _,
        >(d@),
        Err(_) => false,
    }
}

/// The text of a body, as a diagnostic error carries it.
pub open spec fn response_text(body: Seq<u8>) -> Seq<char> {
    match utf8_text(body) {
        Some(s) => s,
        None => "Failed to convert bytes to string"@,
    }
}

/// What a diagnostic trains operation returns for a body it received.
pub open spec fn trains_outcome_with_debugging(
    body: Seq<u8>,
    r: Result<TrainsByNumber, DebuggingError>,
) -> bool {
    match r {
        Ok(m) => trains_in(body, Envelope::Wrapped) == Ok::<_, crate::errors::Fault>(m@) && m.wf(),
        Err(DebuggingError::DeserializeFailed { error, response }) => trains_in(
            body,
            Envelope::Wrapped,
        ) == Err::<Seq<(Seq<char>, Seq<crate::model::TrainView>)>, _>(error@) && response@
            == response_text(body),
        Err(_) => false,
    }
}

/// What a diagnostic stations operation returns for a body it received.
pub open spec fn stations_outcome_with_debugging(
    body: Seq<u8>,
    r: Result<StationsByCode, DebuggingError>,
) -> bool {
    match r {
        Ok(m) => stations_in(body, Envelope::Wrapped) == Ok::<_, crate::errors::Fault>(m@)
            && m.wf(),
        Err(DebuggingError::DeserializeFailed { error, response }) => stations_in(
            body,
            Envelope::Wrapped,
        ) == Err::<Seq<(Seq<char>, crate::model::StationView)>, _>(error@) && response@
            == response_text(body),
        Err(_) => false,
    }
}

fn body_text(body: &[u8]) -> (r: String)
    ensures
        r@ == response_text(body@),
{
    match decode_utf8(body) {
        Some(s) => s,
        None => "Failed to convert bytes to string".to_owned(),
    }
}

/// Decodes the body of a trains response: the bare mapping from train
/// number to trains.
pub fn decode_trains(body: &[u8]) -> (r: Result<TrainsByNumber, Error>)
    ensures
        trains_outcome(body@, r),
{
    match decode_trains_in(body, Envelope::Bare) {
        Ok(m) => Ok(m),
        Err(e) => Err(Error::DeserializeFailed(e)),
    }
}

/// Decodes the body of a stations response: the bare mapping from station
/// code to station.
pub fn decode_stations(body: &[u8]) -> (r: Result<StationsByCode, Error>)
    ensures
        stations_outcome(body@, r),
{
    match decode_stations_in(body, Envelope::Bare) {
        Ok(m) => Ok(m),
        Err(e) => Err(Error::DeserializeFailed(e)),
    }
}

/// Decodes the body of a trains response held in an envelope; a failure
/// carries its path and the text of the body.
pub fn decode_trains_with_debugging(body: &[u8]) -> (r: Result<TrainsByNumber, DebuggingError>)
    ensures
        trains_outcome_with_debugging(body@, r),
{
    match decode_trains_in(body, Envelope::Wrapped) {
        Ok(m) => Ok(m),
        Err(error) => Err(DebuggingError::DeserializeFailed { error, response: body_text(body) }),
    }
}

/// Decodes the body of a stations response held in an envelope; a failure
/// carries its path and the text of the body.
pub fn decode_stations_with_debugging(body: &[u8]) -> (r: Result<StationsByCode, DebuggingError>)
    ensures
        stations_outcome_with_debugging(body@, r),
{
    match decode_stations_in(body, Envelope::Wrapped) {
        Ok(m) => Ok(m),
        Err(error) => Err(DebuggingError::DeserializeFailed { error, response: body_text(body) }),
    }
}

/// The result of a trains operation (all trains, or the trains of one
/// identifier) from the outcome of its request. A failed request is passed on
/// as it came, and nothing is decoded.
pub fn trains_from_response(outcome: Result<Vec<u8>, TransportError>) -> (r: Result<
    TrainsByNumber,
    Error,
>)
    ensures
        outcome matches Err(e) ==> r == Err::<TrainsByNumber, Error>(Error::RequestFailed(e)),
        outcome matches Ok(body) ==> trains_outcome(body@, r),
{
    match outcome {
        Ok(body) => decode_trains(body.as_slice()),
        Err(e) => Err(Error::RequestFailed(e)),
    }
}

/// The result of a stations operation (all stations, or one station) from
/// the outcome of its request. A failed request is passed on as it came, and
/// nothing is decoded.
pub fn stations_from_response(outcome: Result<Vec<u8>, TransportError>) -> (r: Result<
    StationsByCode,
    Error,
>)
    ensures
        outcome matches Err(e) ==> r == Err::<StationsByCode, Error>(Error::RequestFailed(e)),
        outcome matches Ok(body) ==> stations_outcome(body@, r),
{
    match outcome {
        Ok(body) => decode_stations(body.as_slice()),
        Err(e) => Err(Error::RequestFailed(e)),
    }
}

/// As `trains_from_response`, with the diagnostic decoder.
pub fn trains_from_response_with_debugging(outcome: Result<Vec<u8>, TransportError>) -> (r: Result<
    TrainsByNumber,
    DebuggingError,
>)
    ensures
        outcome matches Err(e) ==> r == Err::<TrainsByNumber, DebuggingError>(
            DebuggingError::RequestFailed(e),
        ),
        outcome matches Ok(body) ==> trains_outcome_with_debugging(body@, r),
{
    match outcome {
        Ok(body) => decode_trains_with_debugging(body.as_slice()),
        Err(e) => Err(DebuggingError::RequestFailed(e)),
    }
}

/// As `stations_from_response`, with the diagnostic decoder.
pub fn stations_from_response_with_debugging(outcome: Result<Vec<u8>, TransportError>) -> (r: Result<
    StationsByCode,
    DebuggingError,
>)
    ensures
        outcome matches Err(e) ==> r == Err::<StationsByCode, DebuggingError>(
            DebuggingError::RequestFailed(e),
        ),
        outcome matches Ok(body) ==> stations_outcome_with_debugging(body@, r),
{
    match outcome {
        Ok(body) => decode_stations_with_debugging(body.as_slice()),
        Err(e) => Err(DebuggingError::RequestFailed(e)),
    }
}

} // verus!
