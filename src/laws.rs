//! Properties that hold across the decoders and the client.
use crate::client::{train_url_spec, trains_outcome, Client};
use crate::decode::{
    stations_from, stations_in, Members, member, number_field, optional_text_field, station_spec, stop_spec, text_field, trains_in,
    Envelope,
};
use crate::errors::{fault, nest_fault, Error, Fault, ProblemKind, SegmentView};
use crate::json::{number_text, object_members, string_value};
use crate::model::{StationView, TrainStatus, TrainsByNumber};
use vstd::prelude::*;

verus! {

/// A station that decodes keeps its code, name, coordinates and address
/// exactly as the payload gives them.
pub proof fn lemma_station_fields_kept(t: Seq<u8>)
    requires
        station_spec(t) is Ok,
    ensures
        object_members(t) matches Some(ms) && {
            let s = station_spec(t)->Ok_0;
            &&& member(ms, "code"@) matches Some(x) && string_value(x) == Some(s.code)
            &&& member(ms, "name"@) matches Some(x) && string_value(x) == Some(s.name)
            &&& member(ms, "lat"@) matches Some(x) && number_text(x) == Some(s.lat)
            &&& member(ms, "lon"@) matches Some(x) && number_text(x) == Some(s.lon)
            &&& member(ms, "address1"@) matches Some(x) && string_value(x) == Some(s.address1)
            &&& member(ms, "address2"@) matches Some(x) && string_value(x) == Some(s.address2)
            &&& member(ms, "city"@) matches Some(x) && string_value(x) == Some(s.city)
            &&& member(ms, "state"@) matches Some(x) && string_value(x) == Some(s.state)
            &&& member(ms, "zip"@) matches Some(x) && string_value(x) == Some(s.zip)
        },
{
}

/// A status word other than `Enroute`, `Station` and `Departed` does not make
/// a stop fail: where the other members decode, the stop decodes, with the
/// status `Unknown`.
pub proof fn lemma_unknown_status(t: Seq<u8>, word: Seq<char>)
    requires
        word != "Enroute"@,
        word != "Station"@,
        word != "Departed"@,
        object_members(t) matches Some(ms) && {
            &&& text_field(ms, "name"@) is Ok
            &&& text_field(ms, "code"@) is Ok
            &&& text_field(ms, "status"@) == Ok::<Seq<char>, Fault>(word)
            &&& optional_text_field(ms, "schArr"@) is Ok
            &&& optional_text_field(ms, "schDep"@) is Ok
            &&& optional_text_field(ms, "arr"@) is Ok
            &&& optional_text_field(ms, "dep"@) is Ok
        },
    ensures
        stop_spec(t) matches Ok(s) && s.status == TrainStatus::Unknown,
{
}

/// A station object without a `code` member does not decode; where the
/// members checked before it decode, the failure names `code` as missing.
pub proof fn lemma_missing_code(t: Seq<u8>)
    requires
        object_members(t) matches Some(ms) && member(ms, "code"@) is None,
    ensures
        station_spec(t) is Err,
        object_members(t) matches Some(ms) && text_field(ms, "name"@) is Ok ==> station_spec(t)
            == Err::<crate::model::StationView, Fault>(
            nest_fault(SegmentView::Key("code"@), fault(ProblemKind::Missing)),
        ),
{
}

/// Lookups of two different trains go to two different addresses, and what
/// a lookup returns is decided by its own response body alone: the same
/// body always gives the same trains, whatever was asked before.
pub proof fn lemma_lookups_independent(
    c: Client,
    id1: Seq<char>,
    id2: Seq<char>,
    body1: Seq<u8>,
    body2: Seq<u8>,
    r1: Result<TrainsByNumber, Error>,
    r2: Result<TrainsByNumber, Error>,
)
    requires
        trains_outcome(body1, r1),
        trains_outcome(body2, r2),
    ensures
        id1 != id2 ==> train_url_spec(c@, id1) != train_url_spec(c@, id2),
        body1 == body2 ==> (r1 is Ok <==> r2 is Ok),
        body1 == body2 && r1 is Ok ==> r1->Ok_0@ == r2->Ok_0@,
        body1 == body2 && r1 is Err ==> r1->Err_0->DeserializeFailed_0@
            == r2->Err_0->DeserializeFailed_0@,
{
    if id1 != id2 {
        let p = c@ + "/trains/"@;
        assert((p + id1).subrange(p.len() as int, (p + id1).len() as int) =~= id1);
        assert((p + id2).subrange(p.len() as int, (p + id2).len() as int) =~= id2);
    }
}

/// In diagnostic mode, an envelope around one station that lacks `code`
/// fails with the whole path to that member: the envelope's key, the
/// station's key, then `code`.
pub proof fn lemma_missing_code_path_in_envelope(
    t: Seq<u8>,
    outer: Members,
    stations: Members,
    fields: Members,
)
    requires
        object_members(t) == Some(outer),
        outer.len() == 1,
        object_members(outer[0].1) == Some(stations),
        stations.len() == 1,
        object_members(stations[0].1) == Some(fields),
        member(fields, "code"@) is None,
        text_field(fields, "name"@) is Ok,
    ensures
        stations_in(t, Envelope::Wrapped) == Err::<Seq<(Seq<char>, StationView)>, Fault>(
            Fault {
                path: seq![
                    SegmentView::Key(outer[0].0),
                    SegmentView::Key(stations[0].0),
                    SegmentView::Key("code"@),
                ],
                kind: ProblemKind::Missing,
            },
        ),
{
    let f = nest_fault(SegmentView::Key("code"@), fault(ProblemKind::Missing));
    assert(station_spec(stations[0].1) == Err::<StationView, Fault>(f));
    assert(stations.drop_last().len() == 0);
    assert(stations_from(stations.drop_last()) == Ok::<Seq<(Seq<char>, StationView)>, Fault>(seq![]));
    assert(stations.last() == stations[0]);
    assert(stations_from(stations) == Err::<Seq<(Seq<char>, StationView)>, Fault>(
        nest_fault(SegmentView::Key(stations[0].0), f),
    ));
    assert(f.path =~= seq![SegmentView::Key("code"@)]);
    assert(nest_fault(SegmentView::Key(stations[0].0), f).path =~= seq![
        SegmentView::Key(stations[0].0),
        SegmentView::Key("code"@),
    ]);
    assert(nest_fault(SegmentView::Key(outer[0].0), nest_fault(SegmentView::Key(stations[0].0), f)).path
        =~= seq![
        SegmentView::Key(outer[0].0),
        SegmentView::Key(stations[0].0),
        SegmentView::Key("code"@),
    ]);
}

} // verus!
