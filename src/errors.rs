//! How a call can fail: the request, the payload, or the service itself.
use reqwest::Error as TransportError;
use serde_json::Error as JsonError;
use vstd::prelude::*;

verus! {

#[verifier::external_type_specification]
#[verifier::external_body]
pub struct ExTransportError(TransportError);

/// One step of the way from the top of a document to a value in it.
#[derive(Clone, Debug)]
pub enum Segment {
    /// The member of an object under this key.
    Key(String),
    /// The item of an array at this position.
    Index(usize),
}

pub enum SegmentView {
    Key(Seq<char>),
    Index(int),
}

impl View for Segment {
    type V = SegmentView;

    open spec fn view(&self) -> SegmentView {
        match self {
            Segment::Key(k) => SegmentView::Key(k@),
            Segment::Index(i) => SegmentView::Index(*i as int),
        }
    }
}

/// What was wrong with the value at the end of a path.
#[derive(Debug)]
pub enum Problem {
    /// A required member is absent.
    Missing,
    /// The value is not JSON of the expected kind.
    Malformed(JsonError),
    /// As `Malformed`, with the place inside the value where reading
    /// stopped.
    MalformedAt { at: String, error: JsonError },
    /// An envelope was expected: an object of exactly one member.
    NotEnveloped,
}

#[derive(PartialEq, Eq, Structural)]
pub enum ProblemKind {
    Missing,
    Malformed,
    NotEnveloped,
}

/// A decode failure as the contracts see it.
pub struct Fault {
    pub path: Seq<SegmentView>,
    pub kind: ProblemKind,
}

pub open spec fn fault(kind: ProblemKind) -> Fault {
    Fault { path: seq![], kind }
}

pub open spec fn nest_fault(seg: SegmentView, f: Fault) -> Fault {
    Fault { path: seq![seg].add(f.path), kind: f.kind }
}

pub open spec fn path_view(p: Seq<Segment>) -> Seq<SegmentView> {
    p.map_values(|s: Segment| s@)
}

/// A payload that does not have the expected shape: where, and what is wrong.
#[derive(Debug)]
pub struct DecodeError {
    /// From the top of the document down to the offending value.
    pub path: Vec<Segment>,
    pub problem: Problem,
}

impl View for DecodeError {
    type V = Fault;

    open spec fn view(&self) -> Fault {
        Fault {
            path: path_view(self.path@),
            kind: match self.problem {
                Problem::Missing => ProblemKind::Missing,
                Problem::Malformed(_) => ProblemKind::Malformed,
                Problem::MalformedAt { .. } => ProblemKind::Malformed,
                Problem::NotEnveloped => ProblemKind::NotEnveloped,
            },
        }
    }
}

impl DecodeError {
    pub(crate) fn malformed(e: JsonError) -> (r: DecodeError)
        ensures
            r@ == fault(ProblemKind::Malformed),
    {
        let r = DecodeError { path: Vec::new(), problem: Problem::Malformed(e) };
        assert(r@.path =~= seq![]);
        r
    }

    pub(crate) fn malformed_at(at: String, error: JsonError) -> (r: DecodeError)
        ensures
            r@ == fault(ProblemKind::Malformed),
    {
        let r = DecodeError { path: Vec::new(), problem: Problem::MalformedAt { at, error } };
        assert(r@.path =~= seq![]);
        r
    }

    pub(crate) fn not_enveloped() -> (r: DecodeError)
        ensures
            r@ == fault(ProblemKind::NotEnveloped),
    {
        let r = DecodeError { path: Vec::new(), problem: Problem::NotEnveloped };
        assert(r@.path =~= seq![]);
        r
    }

    /// The member `key` is absent.
    pub(crate) fn missing(key: &str) -> (r: DecodeError)
        ensures
            r@ == nest_fault(SegmentView::Key(key@), fault(ProblemKind::Missing)),
    {
        let mut path: Vec<Segment> = Vec::new();
        path.push(Segment::Key(key.to_owned()));
        let r = DecodeError { path, problem: Problem::Missing };
        assert(r@.path =~= seq![SegmentView::Key(key@)].add(seq![]));
        r
    }

    /// The same failure, one step further down.
    pub(crate) fn nested(seg: Segment, e: DecodeError) -> (r: DecodeError)
        ensures
            r@ == nest_fault(seg@, e@),
    {
        let ghost s = seg@;
        let DecodeError { mut path, problem } = e;
        let ghost old_path = path@;
        path.insert(0, seg);
        let r = DecodeError { path, problem };
        assert(r@.path =~= seq![s].add(path_view(old_path)));
        r
    }
}

/// Why an operation failed.
#[derive(Debug)]
pub enum Error {
    /// The request could not be sent or no response came back.
    RequestFailed(TransportError),
    /// The response did not decode.
    DeserializeFailed(DecodeError),
    /// The service answered with an error of its own.
    ApiErrorResponse(String),
}

/// Why an operation failed, with what helps to diagnose a payload.
#[derive(Debug)]
pub enum DebuggingError {
    /// The request could not be sent or no response came back.
    RequestFailed(TransportError),
    /// The response did not decode; `response` is its text.
    DeserializeFailed { error: DecodeError, response: String },
    /// The service answered with an error of its own.
    ApiErrorResponse(String),
}

} // verus!
