//! Decoding response bodies into the model.
//!
//! Each level of a document is read through serde_json (see `json`); what the
//! members must hold, in which order they are checked, and where a failure is
//! reported are decided here. The spec functions below say what each decoder
//! returns, on every input.
use crate::errors::{fault, nest_fault, DecodeError, Fault, ProblemKind, Segment, SegmentView};
use crate::json::{
    array_items, is_null, items_view, members_view, number_text, object_members, read_array,
    read_null, read_number, read_object, read_object_tracked, read_string, string_value, keys_distinct,
};
use crate::model::{
    distinct_keys, status_of, stops_view, texts_view, trains_view, Station, StationStop, TrainStatus,
    StationStopView, StationView, Train, TrainView, StationsByCode, TrainsByNumber,
    station_entries_view, train_entries_view,
};
use vstd::prelude::*;

verus! {

pub type Members = Seq<(Seq<char>, Seq<u8>)>;

/// A failure of `r`, reported one step further down.
pub open spec fn nest<T>(seg: SegmentView, r: Result<T, Fault>) -> Result<T, Fault> {
    match r {
        Ok(v) => Ok(v),
        Err(f) => Err(nest_fault(seg, f)),
    }
}

/// The text of the first member under `key`.
pub open spec fn member(ms: Members, key: Seq<char>) -> Option<Seq<u8>>
    decreases ms.len(),
{
    if ms.len() == 0 {
        None
    } else if ms[0].0 == key {
        Some(ms[0].1)
    } else {
        member(ms.drop_first(), key)
    }
}

pub open spec fn text_spec(t: Seq<u8>) -> Result<Seq<char>, Fault> {
    match string_value(t) {
        Some(s) => Ok(s),
        None => Err(fault(ProblemKind::Malformed)),
    }
}

pub open spec fn missing(key: Seq<char>) -> Fault {
    nest_fault(SegmentView::Key(key), fault(ProblemKind::Missing))
}

/// A required string member.
pub open spec fn text_field(ms: Members, key: Seq<char>) -> Result<Seq<char>, Fault> {
    match member(ms, key) {
        None => Err(missing(key)),
        Some(t) => nest(SegmentView::Key(key), text_spec(t)),
    }
}

/// A required number member, as text.
pub open spec fn number_field(ms: Members, key: Seq<char>) -> Result<Seq<char>, Fault> {
    match member(ms, key) {
        None => Err(missing(key)),
        Some(t) => match number_text(t) {
            Some(s) => Ok(s),
            None => Err(nest_fault(SegmentView::Key(key), fault(ProblemKind::Malformed))),
        },
    }
}

/// An optional string member: absent and `null` both give `None`.
pub open spec fn optional_text_field(ms: Members, key: Seq<char>) -> Result<Option<Seq<char>>, Fault> {
    match member(ms, key) {
        None => Ok(None),
        Some(t) => if is_null(t) {
            Ok(None)
        } else {
            match string_value(t) {
                Some(s) => Ok(Some(s)),
                None => Err(nest_fault(SegmentView::Key(key), fault(ProblemKind::Malformed))),
            }
        },
    }
}

/// The strings of the first `items`, or the first failure among them.
pub open spec fn texts_from(items: Seq<Seq<u8>>) -> Result<Seq<Seq<char>>, Fault>
    decreases items.len(),
{
    if items.len() == 0 {
        Ok(seq![])
    } else {
        match texts_from(items.drop_last()) {
            Err(e) => Err(e),
            Ok(done) => match nest(SegmentView::Index(items.len() - 1), text_spec(items.last())) {
                Err(e) => Err(e),
                Ok(x) => Ok(done.push(x)),
            },
        }
    }
}

/// A required member that is an array of strings.
pub open spec fn text_list_field(ms: Members, key: Seq<char>) -> Result<Seq<Seq<char>>, Fault> {
    match member(ms, key) {
        None => Err(missing(key)),
        Some(t) => match array_items(t) {
            None => Err(nest_fault(SegmentView::Key(key), fault(ProblemKind::Malformed))),
            Some(items) => nest(SegmentView::Key(key), texts_from(items)),
        },
    }
}

/// A station object.
pub open spec fn station_spec(t: Seq<u8>) -> Result<StationView, Fault> {
    match object_members(t) {
        None => Err(fault(ProblemKind::Malformed)),
        Some(ms) => station_from(ms),
    }
}

pub open spec fn station_from(ms: Members) -> Result<StationView, Fault> {
    let name = text_field(ms, "name"@);
    let code = text_field(ms, "code"@);
    let tz = text_field(ms, "tz"@);
    let lat = number_field(ms, "lat"@);
    let lon = number_field(ms, "lon"@);
    let address1 = text_field(ms, "address1"@);
    let address2 = text_field(ms, "address2"@);
    let city = text_field(ms, "city"@);
    let state = text_field(ms, "state"@);
    let zip = text_field(ms, "zip"@);
    let trains = text_list_field(ms, "trains"@);
    if name is Err {
        Err(name->Err_0)
    } else if code is Err {
        Err(code->Err_0)
    } else if tz is Err {
        Err(tz->Err_0)
    } else if lat is Err {
        Err(lat->Err_0)
    } else if lon is Err {
        Err(lon->Err_0)
    } else if address1 is Err {
        Err(address1->Err_0)
    } else if address2 is Err {
        Err(address2->Err_0)
    } else if city is Err {
        Err(city->Err_0)
    } else if state is Err {
        Err(state->Err_0)
    } else if zip is Err {
        Err(zip->Err_0)
    } else if trains is Err {
        Err(trains->Err_0)
    } else {
        Ok(
            StationView {
                name: name->Ok_0,
                code: code->Ok_0,
                tz: tz->Ok_0,
                lat: lat->Ok_0,
                lon: lon->Ok_0,
                address1: address1->Ok_0,
                address2: address2->Ok_0,
                city: city->Ok_0,
                state: state->Ok_0,
                zip: zip->Ok_0,
                trains: trains->Ok_0,
            },
        )
    }
}

/// A stop object of a train's itinerary.
pub open spec fn stop_spec(t: Seq<u8>) -> Result<StationStopView, Fault> {
    match object_members(t) {
        None => Err(fault(ProblemKind::Malformed)),
        Some(ms) => stop_from(ms),
    }
}

pub open spec fn stop_from(ms: Members) -> Result<StationStopView, Fault> {
    let name = text_field(ms, "name"@);
    let code = text_field(ms, "code"@);
    let status = text_field(ms, "status"@);
    let sch_arr = optional_text_field(ms, "schArr"@);
    let sch_dep = optional_text_field(ms, "schDep"@);
    let arr = optional_text_field(ms, "arr"@);
    let dep = optional_text_field(ms, "dep"@);
    if name is Err {
        Err(name->Err_0)
    } else if code is Err {
        Err(code->Err_0)
    } else if status is Err {
        Err(status->Err_0)
    } else if sch_arr is Err {
        Err(sch_arr->Err_0)
    } else if sch_dep is Err {
        Err(sch_dep->Err_0)
    } else if arr is Err {
        Err(arr->Err_0)
    } else if dep is Err {
        Err(dep->Err_0)
    } else {
        Ok(
            StationStopView {
                name: name->Ok_0,
                code: code->Ok_0,
                status: status_of(status->Ok_0),
                scheduled_arrival: sch_arr->Ok_0,
                scheduled_departure: sch_dep->Ok_0,
                arrival: arr->Ok_0,
                departure: dep->Ok_0,
            },
        )
    }
}

/// The stops of the first `items`, or the first failure among them.
pub open spec fn stops_from(items: Seq<Seq<u8>>) -> Result<Seq<StationStopView>, Fault>
    decreases items.len(),
{
    if items.len() == 0 {
        Ok(seq![])
    } else {
        match stops_from(items.drop_last()) {
            Err(e) => Err(e),
            Ok(done) => match nest(SegmentView::Index(items.len() - 1), stop_spec(items.last())) {
                Err(e) => Err(e),
                Ok(x) => Ok(done.push(x)),
            },
        }
    }
}

/// A required member that is an array of stops.
pub open spec fn stop_list_field(ms: Members, key: Seq<char>) -> Result<Seq<StationStopView>, Fault> {
    match member(ms, key) {
        None => Err(missing(key)),
        Some(t) => match array_items(t) {
            None => Err(nest_fault(SegmentView::Key(key), fault(ProblemKind::Malformed))),
            Some(items) => nest(SegmentView::Key(key), stops_from(items)),
        },
    }
}

/// A train object.
pub open spec fn train_spec(t: Seq<u8>) -> Result<TrainView, Fault> {
    match object_members(t) {
        None => Err(fault(ProblemKind::Malformed)),
        Some(ms) => train_from(ms),
    }
}

pub open spec fn train_from(ms: Members) -> Result<TrainView, Fault> {
    let route_name = text_field(ms, "routeName"@);
    let train_num = text_field(ms, "trainNum"@);
    let train_id = text_field(ms, "trainID"@);
    let origin_code = text_field(ms, "origCode"@);
    let origin_name = text_field(ms, "origName"@);
    let destination_code = text_field(ms, "destCode"@);
    let destination_name = text_field(ms, "destName"@);
    let stations = stop_list_field(ms, "stations"@);
    if route_name is Err {
        Err(route_name->Err_0)
    } else if train_num is Err {
        Err(train_num->Err_0)
    } else if train_id is Err {
        Err(train_id->Err_0)
    } else if origin_code is Err {
        Err(origin_code->Err_0)
    } else if origin_name is Err {
        Err(origin_name->Err_0)
    } else if destination_code is Err {
        Err(destination_code->Err_0)
    } else if destination_name is Err {
        Err(destination_name->Err_0)
    } else if stations is Err {
        Err(stations->Err_0)
    } else {
        Ok(
            TrainView {
                route_name: route_name->Ok_0,
                train_num: train_num->Ok_0,
                train_id: train_id->Ok_0,
                origin_code: origin_code->Ok_0,
                origin_name: origin_name->Ok_0,
                destination_code: destination_code->Ok_0,
                destination_name: destination_name->Ok_0,
                stations: stations->Ok_0,
            },
        )
    }
}

/// The trains of the first `items`, or the first failure among them.
pub open spec fn trains_from(items: Seq<Seq<u8>>) -> Result<Seq<TrainView>, Fault>
    decreases items.len(),
{
    if items.len() == 0 {
        Ok(seq![])
    } else {
        match trains_from(items.drop_last()) {
            Err(e) => Err(e),
            Ok(done) => match nest(SegmentView::Index(items.len() - 1), train_spec(items.last())) {
                Err(e) => Err(e),
                Ok(x) => Ok(done.push(x)),
            },
        }
    }
}

/// An array of trains.
pub open spec fn train_list_spec(t: Seq<u8>) -> Result<Seq<TrainView>, Fault> {
    match array_items(t) {
        None => Err(fault(ProblemKind::Malformed)),
        Some(items) => trains_from(items),
    }
}

/// The stations of the first members, each under its key, or the first
/// failure among them.
pub open spec fn stations_from(ms: Members) -> Result<Seq<(Seq<char>, StationView)>, Fault>
    decreases ms.len(),
{
    if ms.len() == 0 {
        Ok(seq![])
    } else {
        match stations_from(ms.drop_last()) {
            Err(e) => Err(e),
            Ok(done) => match nest(SegmentView::Key(ms.last().0), station_spec(ms.last().1)) {
                Err(e) => Err(e),
                Ok(x) => Ok(done.push((ms.last().0, x))),
            },
        }
    }
}

/// The trains of the first members, grouped under their keys, or the first
/// failure among them.
pub open spec fn train_groups_from(ms: Members) -> Result<Seq<(Seq<char>, Seq<TrainView>)>, Fault>
    decreases ms.len(),
{
    if ms.len() == 0 {
        Ok(seq![])
    } else {
        match train_groups_from(ms.drop_last()) {
            Err(e) => Err(e),
            Ok(done) => match nest(SegmentView::Key(ms.last().0), train_list_spec(ms.last().1)) {
                Err(e) => Err(e),
                Ok(x) => Ok(done.push((ms.last().0, x))),
            },
        }
    }
}

/// Whether the text is the empty JSON array, which the service sends where
/// nothing matched.
pub open spec fn is_empty_array(t: Seq<u8>) -> bool {
    array_items(t) matches Some(items) && items.len() == 0
}

/// A mapping from station code to station, or an empty array.
pub open spec fn station_map_spec(t: Seq<u8>) -> Result<Seq<(Seq<char>, StationView)>, Fault> {
    match object_members(t) {
        Some(ms) => stations_from(ms),
        None => if is_empty_array(t) {
            Ok(seq![])
        } else {
            Err(fault(ProblemKind::Malformed))
        },
    }
}

/// A mapping from train number to trains, or an empty array.
pub open spec fn train_map_spec(t: Seq<u8>) -> Result<Seq<(Seq<char>, Seq<TrainView>)>, Fault> {
    match object_members(t) {
        Some(ms) => train_groups_from(ms),
        None => if is_empty_array(t) {
            Ok(seq![])
        } else {
            Err(fault(ProblemKind::Malformed))
        },
    }
}

/// How a response body holds its mapping.
#[derive(Clone, Copy, Debug, PartialEq, Eq, Structural)]
pub enum Envelope {
    /// The body is the mapping.
    Bare,
    /// The body is an object of one member, whose value is the mapping.
    Wrapped,
}

/// A stations response in the given envelope.
pub open spec fn stations_in(t: Seq<u8>, env: Envelope) -> Result<Seq<(Seq<char>, StationView)>, Fault> {
    match env {
        Envelope::Bare => station_map_spec(t),
        Envelope::Wrapped => match object_members(t) {
            None => Err(fault(ProblemKind::Malformed)),
            Some(ms) => if ms.len() == 1 {
                nest(SegmentView::Key(ms[0].0), station_map_spec(ms[0].1))
            } else {
                Err(fault(ProblemKind::NotEnveloped))
            },
        },
    }
}

/// A trains response in the given envelope.
pub open spec fn trains_in(t: Seq<u8>, env: Envelope) -> Result<Seq<(Seq<char>, Seq<TrainView>)>, Fault> {
    match env {
        Envelope::Bare => train_map_spec(t),
        Envelope::Wrapped => match object_members(t) {
            None => Err(fault(ProblemKind::Malformed)),
            Some(ms) => if ms.len() == 1 {
                nest(SegmentView::Key(ms[0].0), train_map_spec(ms[0].1))
            } else {
                Err(fault(ProblemKind::NotEnveloped))
            },
        },
    }
}

/// A failure among the first `i` items is the failure of the whole list.
proof fn lemma_texts_failure_stays(items: Seq<Seq<u8>>, i: int)
    requires
        0 <= i <= items.len(),
        texts_from(items.subrange(0, i)) is Err,
    ensures
        texts_from(items) == texts_from(items.subrange(0, i)),
    decreases items.len() - i,
{
    if i < items.len() {
        assert(items.subrange(0, i + 1).drop_last() =~= items.subrange(0, i));
        lemma_texts_failure_stays(items, i + 1);
    } else {
        assert(items.subrange(0, i) =~= items);
    }
}

proof fn lemma_stops_failure_stays(items: Seq<Seq<u8>>, i: int)
    requires
        0 <= i <= items.len(),
        stops_from(items.subrange(0, i)) is Err,
    ensures
        stops_from(items) == stops_from(items.subrange(0, i)),
    decreases items.len() - i,
{
    if i < items.len() {
        assert(items.subrange(0, i + 1).drop_last() =~= items.subrange(0, i));
        lemma_stops_failure_stays(items, i + 1);
    } else {
        assert(items.subrange(0, i) =~= items);
    }
}

proof fn lemma_trains_failure_stays(items: Seq<Seq<u8>>, i: int)
    requires
        0 <= i <= items.len(),
        trains_from(items.subrange(0, i)) is Err,
    ensures
        trains_from(items) == trains_from(items.subrange(0, i)),
    decreases items.len() - i,
{
    if i < items.len() {
        assert(items.subrange(0, i + 1).drop_last() =~= items.subrange(0, i));
        lemma_trains_failure_stays(items, i + 1);
    } else {
        assert(items.subrange(0, i) =~= items);
    }
}

proof fn lemma_stations_failure_stays(items: Members, i: int)
    requires
        0 <= i <= items.len(),
        stations_from(items.subrange(0, i)) is Err,
    ensures
        stations_from(items) == stations_from(items.subrange(0, i)),
    decreases items.len() - i,
{
    if i < items.len() {
        assert(items.subrange(0, i + 1).drop_last() =~= items.subrange(0, i));
        lemma_stations_failure_stays(items, i + 1);
    } else {
        assert(items.subrange(0, i) =~= items);
    }
}

proof fn lemma_groups_failure_stays(items: Members, i: int)
    requires
        0 <= i <= items.len(),
        train_groups_from(items.subrange(0, i)) is Err,
    ensures
        train_groups_from(items) == train_groups_from(items.subrange(0, i)),
    decreases items.len() - i,
{
    if i < items.len() {
        assert(items.subrange(0, i + 1).drop_last() =~= items.subrange(0, i));
        lemma_groups_failure_stays(items, i + 1);
    } else {
        assert(items.subrange(0, i) =~= items);
    }
}

/// Position of the first member under `key`.
fn find_member(ms: &Vec<(String, Vec<u8>)>, key: &str) -> (r: Option<usize>)
    ensures
        r matches Some(i) ==> i < ms@.len() && member(members_view(ms@), key@) == Some(
            ms@[i as int].1@,
        ),
        r is None ==> member(members_view(ms@), key@) is None,
{
    let ghost mv = members_view(ms@);
    let k = key.to_owned();
    let mut i: usize = 0;
    assert(mv.subrange(0, mv.len() as int) =~= mv);
    while i < ms.len()
        invariant
            k@ == key@,
            mv == members_view(ms@),
            i <= ms@.len(),
            member(mv, key@) == member(mv.subrange(i as int, mv.len() as int), key@),
        decreases ms@.len() - i,
    {
        let ghost rest = mv.subrange(i as int, mv.len() as int);
        assert(rest[0] == mv[i as int]);
        if ms[i].0 == k {
            return Some(i);
        }
        assert(rest.drop_first() =~= mv.subrange(i + 1, mv.len() as int));
        i = i + 1;
    }
    None
}

fn text_field_exec(ms: &Vec<(String, Vec<u8>)>, key: &str) -> (r: Result<String, DecodeError>)
    ensures
        r matches Ok(s) ==> text_field(members_view(ms@), key@) == Ok::<Seq<char>, Fault>(s@),
        r matches Err(e) ==> text_field(members_view(ms@), key@) == Err::<Seq<char>, Fault>(e@),
{
    match find_member(ms, key) {
        None => Err(DecodeError::missing(key)),
        Some(i) => match read_string(ms[i].1.as_slice()) {
            Ok(s) => Ok(s),
            Err(e) => Err(DecodeError::nested(Segment::Key(key.to_owned()), DecodeError::malformed(e))),
        },
    }
}

fn number_field_exec(ms: &Vec<(String, Vec<u8>)>, key: &str) -> (r: Result<String, DecodeError>)
    ensures
        r matches Ok(s) ==> number_field(members_view(ms@), key@) == Ok::<Seq<char>, Fault>(s@),
        r matches Err(e) ==> number_field(members_view(ms@), key@) == Err::<Seq<char>, Fault>(e@),
{
    match find_member(ms, key) {
        None => Err(DecodeError::missing(key)),
        Some(i) => match read_number(ms[i].1.as_slice()) {
            Ok(s) => Ok(s),
            Err(e) => Err(DecodeError::nested(Segment::Key(key.to_owned()), DecodeError::malformed(e))),
        },
    }
}

fn optional_text_field_exec(ms: &Vec<(String, Vec<u8>)>, key: &str) -> (r: Result<
    Option<String>,
    DecodeError,
>)
    ensures
        r matches Ok(o) ==> optional_text_field(members_view(ms@), key@) == Ok::<
            Option<Seq<char>>,
            Fault,
        >(crate::model::opt_view(o)),
        r matches Err(e) ==> optional_text_field(members_view(ms@), key@) == Err::<
            Option<Seq<char>>,
            Fault,
        >(e@),
{
    match find_member(ms, key) {
        None => Ok(None),
        Some(i) => {
            if read_null(ms[i].1.as_slice()) {
                Ok(None)
            } else {
                match read_string(ms[i].1.as_slice()) {
                    Ok(s) => Ok(Some(s)),
                    Err(e) => Err(
                        DecodeError::nested(Segment::Key(key.to_owned()), DecodeError::malformed(e)),
                    ),
                }
            }
        },
    }
}

fn text_list_field_exec(ms: &Vec<(String, Vec<u8>)>, key: &str) -> (r: Result<
    Vec<String>,
    DecodeError,
>)
    ensures
        r matches Ok(v) ==> text_list_field(members_view(ms@), key@) == Ok::<
            Seq<Seq<char>>,
            Fault,
        >(texts_view(v@)),
        r matches Err(e) ==> text_list_field(members_view(ms@), key@) == Err::<
            Seq<Seq<char>>,
            Fault,
        >(e@),
{
    let t = match find_member(ms, key) {
        None => {
            return Err(DecodeError::missing(key));
        },
        Some(i) => ms[i].1.as_slice(),
    };
    let items = match read_array(t) {
        Ok(items) => items,
        Err(e) => {
            return Err(DecodeError::nested(Segment::Key(key.to_owned()), DecodeError::malformed(e)));
        },
    };
    let ghost iv = items_view(items@);
    let mut out: Vec<String> = Vec::new();
    let mut i: usize = 0;
    assert(iv.subrange(0, 0).len() == 0);
    assert(texts_view(out@) =~= seq![]);
    while i < items.len()
        invariant
            iv == items_view(items@),
            array_items(t@) == Some(iv),
            member(members_view(ms@), key@) == Some(t@),
            i <= items@.len(),
            texts_from(iv.subrange(0, i as int)) == Ok::<Seq<Seq<char>>, Fault>(texts_view(out@)),
        decreases items@.len() - i,
    {
        let ghost sub = iv.subrange(0, i + 1);
        assert(sub.drop_last() =~= iv.subrange(0, i as int));
        assert(sub.last() == items@[i as int]@);
        match read_string(items[i].as_slice()) {
            Ok(s) => {
                let ghost before = out@;
                out.push(s);
                assert(texts_view(out@) =~= texts_view(before).push(s@));
            },
            Err(e) => {
                let err = DecodeError::nested(Segment::Index(i), DecodeError::malformed(e));
                proof {
                    assert(texts_from(sub) == Err::<Seq<Seq<char>>, Fault>(err@));
                    lemma_texts_failure_stays(iv, i + 1);
                }
                return Err(DecodeError::nested(Segment::Key(key.to_owned()), err));
            },
        }
        i = i + 1;
    }
    assert(iv.subrange(0, iv.len() as int) =~= iv);
    Ok(out)
}

/// Decodes one station object.
pub fn decode_station(t: &[u8]) -> (r: Result<Station, DecodeError>)
    ensures
        r matches Ok(s) ==> station_spec(t@) == Ok::<StationView, Fault>(s@),
        r matches Err(e) ==> station_spec(t@) == Err::<StationView, Fault>(e@),
{
    let ms = match read_object(t) {
        Ok(ms) => ms,
        Err(e) => {
            return Err(DecodeError::malformed(e));
        },
    };
    let name = match text_field_exec(&ms, "name") {
        Ok(x) => x,
        Err(e) => {
            return Err(e);
        },
    };
    let code = match text_field_exec(&ms, "code") {
        Ok(x) => x,
        Err(e) => {
            return Err(e);
        },
    };
    let tz = match text_field_exec(&ms, "tz") {
        Ok(x) => x,
        Err(e) => {
            return Err(e);
        },
    };
    let lat = match number_field_exec(&ms, "lat") {
        Ok(x) => x,
        Err(e) => {
            return Err(e);
        },
    };
    let lon = match number_field_exec(&ms, "lon") {
        Ok(x) => x,
        Err(e) => {
            return Err(e);
        },
    };
    let address1 = match text_field_exec(&ms, "address1") {
        Ok(x) => x,
        Err(e) => {
            return Err(e);
        },
    };
    let address2 = match text_field_exec(&ms, "address2") {
        Ok(x) => x,
        Err(e) => {
            return Err(e);
        },
    };
    let city = match text_field_exec(&ms, "city") {
        Ok(x) => x,
        Err(e) => {
            return Err(e);
        },
    };
    let state = match text_field_exec(&ms, "state") {
        Ok(x) => x,
        Err(e) => {
            return Err(e);
        },
    };
    let zip = match text_field_exec(&ms, "zip") {
        Ok(x) => x,
        Err(e) => {
            return Err(e);
        },
    };
    let trains = match text_list_field_exec(&ms, "trains") {
        Ok(x) => x,
        Err(e) => {
            return Err(e);
        },
    };
    Ok(Station { name, code, tz, lat, lon, address1, address2, city, state, zip, trains })
}

/// Decodes one stop of an itinerary; a status word that is not recognised
/// gives `TrainStatus::Unknown`.
pub fn decode_stop(t: &[u8]) -> (r: Result<StationStop, DecodeError>)
    ensures
        r matches Ok(s) ==> stop_spec(t@) == Ok::<StationStopView, Fault>(s@),
        r matches Err(e) ==> stop_spec(t@) == Err::<StationStopView, Fault>(e@),
{
    let ms = match read_object(t) {
        Ok(ms) => ms,
        Err(e) => {
            return Err(DecodeError::malformed(e));
        },
    };
    let name = match text_field_exec(&ms, "name") {
        Ok(x) => x,
        Err(e) => {
            return Err(e);
        },
    };
    let code = match text_field_exec(&ms, "code") {
        Ok(x) => x,
        Err(e) => {
            return Err(e);
        },
    };
    let status = match text_field_exec(&ms, "status") {
        Ok(x) => x,
        Err(e) => {
            return Err(e);
        },
    };
    let scheduled_arrival = match optional_text_field_exec(&ms, "schArr") {
        Ok(x) => x,
        Err(e) => {
            return Err(e);
        },
    };
    let scheduled_departure = match optional_text_field_exec(&ms, "schDep") {
        Ok(x) => x,
        Err(e) => {
            return Err(e);
        },
    };
    let arrival = match optional_text_field_exec(&ms, "arr") {
        Ok(x) => x,
        Err(e) => {
            return Err(e);
        },
    };
    let departure = match optional_text_field_exec(&ms, "dep") {
        Ok(x) => x,
        Err(e) => {
            return Err(e);
        },
    };
    let status = TrainStatus::from_word(&status);
    Ok(
        StationStop {
            name,
            code,
            status,
            scheduled_arrival,
            scheduled_departure,
            arrival,
            departure,
        },
    )
}

fn stop_list_field_exec(ms: &Vec<(String, Vec<u8>)>, key: &str) -> (r: Result<
    Vec<StationStop>,
    DecodeError,
>)
    ensures
        r matches Ok(v) ==> stop_list_field(members_view(ms@), key@) == Ok::<
            Seq<StationStopView>,
            Fault,
        >(stops_view(v@)),
        r matches Err(e) ==> stop_list_field(members_view(ms@), key@) == Err::<
            Seq<StationStopView>,
            Fault,
        >(e@),
{
    let t = match find_member(ms, key) {
        None => {
            return Err(DecodeError::missing(key));
        },
        Some(i) => ms[i].1.as_slice(),
    };
    let items = match read_array(t) {
        Ok(items) => items,
        Err(e) => {
            return Err(DecodeError::nested(Segment::Key(key.to_owned()), DecodeError::malformed(e)));
        },
    };
    let ghost iv = items_view(items@);
    let mut out: Vec<StationStop> = Vec::new();
    let mut i: usize = 0;
    assert(iv.subrange(0, 0).len() == 0);
    assert(stops_view(out@) =~= seq![]);
    while i < items.len()
        invariant
            iv == items_view(items@),
            array_items(t@) == Some(iv),
            member(members_view(ms@), key@) == Some(t@),
            i <= items@.len(),
            stops_from(iv.subrange(0, i as int)) == Ok::<Seq<StationStopView>, Fault>(
                stops_view(out@),
            ),
        decreases items@.len() - i,
    {
        let ghost sub = iv.subrange(0, i + 1);
        assert(sub.drop_last() =~= iv.subrange(0, i as int));
        assert(sub.last() == items@[i as int]@);
        match decode_stop(items[i].as_slice()) {
            Ok(x) => {
                let ghost before = out@;
                out.push(x);
                assert(stops_view(out@) =~= stops_view(before).push(x@));
            },
            Err(e) => {
                let err = DecodeError::nested(Segment::Index(i), e);
                proof {
                    assert(stops_from(sub) == Err::<Seq<StationStopView>, Fault>(err@));
                    lemma_stops_failure_stays(iv, i + 1);
                }
                return Err(DecodeError::nested(Segment::Key(key.to_owned()), err));
            },
        }
        i = i + 1;
    }
    assert(iv.subrange(0, iv.len() as int) =~= iv);
    Ok(out)
}

/// Decodes one train.
pub fn decode_train(t: &[u8]) -> (r: Result<Train, DecodeError>)
    ensures
        r matches Ok(x) ==> train_spec(t@) == Ok::<TrainView, Fault>(x@),
        r matches Err(e) ==> train_spec(t@) == Err::<TrainView, Fault>(e@),
{
    let ms = match read_object(t) {
        Ok(ms) => ms,
        Err(e) => {
            return Err(DecodeError::malformed(e));
        },
    };
    let route_name = match text_field_exec(&ms, "routeName") {
        Ok(x) => x,
        Err(e) => {
            return Err(e);
        },
    };
    let train_num = match text_field_exec(&ms, "trainNum") {
        Ok(x) => x,
        Err(e) => {
            return Err(e);
        },
    };
    let train_id = match text_field_exec(&ms, "trainID") {
        Ok(x) => x,
        Err(e) => {
            return Err(e);
        },
    };
    let origin_code = match text_field_exec(&ms, "origCode") {
        Ok(x) => x,
        Err(e) => {
            return Err(e);
        },
    };
    let origin_name = match text_field_exec(&ms, "origName") {
        Ok(x) => x,
        Err(e) => {
            return Err(e);
        },
    };
    let destination_code = match text_field_exec(&ms, "destCode") {
        Ok(x) => x,
        Err(e) => {
            return Err(e);
        },
    };
    let destination_name = match text_field_exec(&ms, "destName") {
        Ok(x) => x,
        Err(e) => {
            return Err(e);
        },
    };
    let stations = match stop_list_field_exec(&ms, "stations") {
        Ok(x) => x,
        Err(e) => {
            return Err(e);
        },
    };
    Ok(
        Train {
            route_name,
            train_num,
            train_id,
            origin_code,
            origin_name,
            destination_code,
            destination_name,
            stations,
        },
    )
}

/// Decodes an array of trains.
pub fn decode_train_list(t: &[u8]) -> (r: Result<Vec<Train>, DecodeError>)
    ensures
        r matches Ok(v) ==> train_list_spec(t@) == Ok::<Seq<TrainView>, Fault>(trains_view(v@)),
        r matches Err(e) ==> train_list_spec(t@) == Err::<Seq<TrainView>, Fault>(e@),
{
    let items = match read_array(t) {
        Ok(items) => items,
        Err(e) => {
            return Err(DecodeError::malformed(e));
        },
    };
    let ghost iv = items_view(items@);
    let mut out: Vec<Train> = Vec::new();
    let mut i: usize = 0;
    assert(iv.subrange(0, 0).len() == 0);
    assert(trains_view(out@) =~= seq![]);
    while i < items.len()
        invariant
            iv == items_view(items@),
            array_items(t@) == Some(iv),
            i <= items@.len(),
            trains_from(iv.subrange(0, i as int)) == Ok::<Seq<TrainView>, Fault>(trains_view(out@)),
        decreases items@.len() - i,
    {
        let ghost sub = iv.subrange(0, i + 1);
        assert(sub.drop_last() =~= iv.subrange(0, i as int));
        assert(sub.last() == items@[i as int]@);
        match decode_train(items[i].as_slice()) {
            Ok(x) => {
                let ghost before = out@;
                out.push(x);
                assert(trains_view(out@) =~= trains_view(before).push(x@));
            },
            Err(e) => {
                let err = DecodeError::nested(Segment::Index(i), e);
                proof {
                    assert(trains_from(sub) == Err::<Seq<TrainView>, Fault>(err@));
                    lemma_trains_failure_stays(iv, i + 1);
                }
                return Err(err);
            },
        }
        i = i + 1;
    }
    assert(iv.subrange(0, iv.len() as int) =~= iv);
    Ok(out)
}


/// Decodes a mapping from station code to station. The empty array stands
/// for a mapping with no entries.
pub fn decode_station_map(t: &[u8]) -> (r: Result<StationsByCode, DecodeError>)
    ensures
        r matches Ok(m) ==> station_map_spec(t@) == Ok::<Seq<(Seq<char>, StationView)>, Fault>(m@),
        r matches Ok(m) ==> m.wf(),
        r matches Err(e) ==> station_map_spec(t@) == Err::<Seq<(Seq<char>, StationView)>, Fault>(
            e@,
        ),
{
    let ms = match read_object(t) {
        Ok(ms) => ms,
        Err(e) => {
            return match read_array(t) {
                Ok(items) => if items.len() == 0 {
                    let none: Vec<(String, Station)> = Vec::new();
                    assert(station_entries_view(none@) =~= seq![]);
                    Ok(StationsByCode::from_entries(none))
                } else {
                    Err(DecodeError::malformed(e))
                },
                Err(_) => Err(DecodeError::malformed(e)),
            };
        },
    };
    let ghost mv = members_view(ms@);
    let mut out: Vec<(String, Station)> = Vec::new();
    let mut i: usize = 0;
    assert(mv.subrange(0, 0).len() == 0);
    assert(station_entries_view(out@) =~= seq![]);
    while i < ms.len()
        invariant
            mv == members_view(ms@),
            object_members(t@) == Some(mv),
            keys_distinct(mv),
            i <= ms@.len(),
            out@.len() == i,
            forall|j: int| 0 <= j < i ==> #[trigger] out@[j].0@ == mv[j].0,
            stations_from(mv.subrange(0, i as int)) == Ok::<Seq<(Seq<char>, StationView)>, Fault>(
                station_entries_view(out@),
            ),
        decreases ms@.len() - i,
    {
        let ghost sub = mv.subrange(0, i + 1);
        assert(sub.drop_last() =~= mv.subrange(0, i as int));
        assert(sub.last() == (ms@[i as int].0@, ms@[i as int].1@));
        match decode_station(ms[i].1.as_slice()) {
            Ok(x) => {
                let ghost before = out@;
                out.push((ms[i].0.clone(), x));
                assert(station_entries_view(out@) =~= station_entries_view(before).push(
                    (mv[i as int].0, x@),
                ));
            },
            Err(e) => {
                let err = DecodeError::nested(Segment::Key(ms[i].0.clone()), e);
                proof {
                    assert(stations_from(sub) == Err::<Seq<(Seq<char>, StationView)>, Fault>(err@));
                    lemma_stations_failure_stays(mv, i + 1);
                }
                return Err(err);
            },
        }
        i = i + 1;
    }
    assert(mv.subrange(0, mv.len() as int) =~= mv);
    proof {
        let v = station_entries_view(out@);
        assert forall|a: int, b: int| 0 <= a < b < v.len() implies v[a].0 != v[b].0 by {
            assert(out@[a].0@ == mv[a].0);
            assert(out@[b].0@ == mv[b].0);
        }
    }
    Ok(StationsByCode::from_entries(out))
}

/// Decodes a mapping from train number to trains. The empty array stands
/// for a mapping with no entries.
pub fn decode_train_map(t: &[u8]) -> (r: Result<TrainsByNumber, DecodeError>)
    ensures
        r matches Ok(m) ==> train_map_spec(t@) == Ok::<Seq<(Seq<char>, Seq<TrainView>)>, Fault>(
            m@,
        ),
        r matches Ok(m) ==> m.wf(),
        r matches Err(e) ==> train_map_spec(t@) == Err::<Seq<(Seq<char>, Seq<TrainView>)>, Fault>(
            e@,
        ),
{
    let ms = match read_object(t) {
        Ok(ms) => ms,
        Err(e) => {
            return match read_array(t) {
                Ok(items) => if items.len() == 0 {
                    let none: Vec<(String, Vec<Train>)> = Vec::new();
                    assert(train_entries_view(none@) =~= seq![]);
                    Ok(TrainsByNumber::from_entries(none))
                } else {
                    Err(DecodeError::malformed(e))
                },
                Err(_) => Err(DecodeError::malformed(e)),
            };
        },
    };
    let ghost mv = members_view(ms@);
    let mut out: Vec<(String, Vec<Train>)> = Vec::new();
    let mut i: usize = 0;
    assert(mv.subrange(0, 0).len() == 0);
    assert(train_entries_view(out@) =~= seq![]);
    while i < ms.len()
        invariant
            mv == members_view(ms@),
            object_members(t@) == Some(mv),
            keys_distinct(mv),
            i <= ms@.len(),
            out@.len() == i,
            forall|j: int| 0 <= j < i ==> #[trigger] out@[j].0@ == mv[j].0,
            train_groups_from(mv.subrange(0, i as int)) == Ok::<
                Seq<(Seq<char>, Seq<TrainView>)>,
                Fault,
            >(train_entries_view(out@)),
        decreases ms@.len() - i,
    {
        let ghost sub = mv.subrange(0, i + 1);
        assert(sub.drop_last() =~= mv.subrange(0, i as int));
        assert(sub.last() == (ms@[i as int].0@, ms@[i as int].1@));
        match decode_train_list(ms[i].1.as_slice()) {
            Ok(x) => {
                let ghost before = out@;
                let ghost xv = trains_view(x@);
                out.push((ms[i].0.clone(), x));
                assert(train_entries_view(out@) =~= train_entries_view(before).push(
                    (mv[i as int].0, xv),
                ));
            },
            Err(e) => {
                let err = DecodeError::nested(Segment::Key(ms[i].0.clone()), e);
                proof {
                    assert(train_groups_from(sub) == Err::<Seq<(Seq<char>, Seq<TrainView>)>, Fault>(
                        err@,
                    ));
                    lemma_groups_failure_stays(mv, i + 1);
                }
                return Err(err);
            },
        }
        i = i + 1;
    }
    assert(mv.subrange(0, mv.len() as int) =~= mv);
    proof {
        let v = train_entries_view(out@);
        assert forall|a: int, b: int| 0 <= a < b < v.len() implies v[a].0 != v[b].0 by {
            assert(out@[a].0@ == mv[a].0);
            assert(out@[b].0@ == mv[b].0);
        }
    }
    Ok(TrainsByNumber::from_entries(out))
}

/// Decodes a stations response held in `env`. Where an envelope is expected
/// and the body cannot be read, the failure says where reading stopped.
pub fn decode_stations_in(body: &[u8], env: Envelope) -> (r: Result<StationsByCode, DecodeError>)
    ensures
        r matches Ok(m) ==> stations_in(body@, env) == Ok::<
            Seq<(Seq<char>, StationView)>,
            Fault,
        >(m@),
        r matches Ok(m) ==> m.wf(),
        r matches Err(e) ==> stations_in(body@, env) == Err::<
            Seq<(Seq<char>, StationView)>,
            Fault,
        >(e@),
{
    match env {
        Envelope::Bare => decode_station_map(body),
        Envelope::Wrapped => {
            let ms = match read_object_tracked(body) {
                Ok(ms) => ms,
                Err((at, e)) => {
                    return Err(DecodeError::malformed_at(at, e));
                },
            };
            if ms.len() != 1 {
                return Err(DecodeError::not_enveloped());
            }
            assert(members_view(ms@)[0] == (ms@[0].0@, ms@[0].1@));
            match decode_station_map(ms[0].1.as_slice()) {
                Ok(m) => Ok(m),
                Err(e) => Err(DecodeError::nested(Segment::Key(ms[0].0.clone()), e)),
            }
        },
    }
}

/// Decodes a trains response held in `env`. Where an envelope is expected
/// and the body cannot be read, the failure says where reading stopped.
pub fn decode_trains_in(body: &[u8], env: Envelope) -> (r: Result<TrainsByNumber, DecodeError>)
    ensures
        r matches Ok(m) ==> trains_in(body@, env) == Ok::<
            Seq<(Seq<char>, Seq<TrainView>)>,
            Fault,
        >(m@),
        r matches Ok(m) ==> m.wf(),
        r matches Err(e) ==> trains_in(body@, env) == Err::<
            Seq<(Seq<char>, Seq<TrainView>)>,
            Fault,
        >(e@),
{
    match env {
        Envelope::Bare => decode_train_map(body),
        Envelope::Wrapped => {
            let ms = match read_object_tracked(body) {
                Ok(ms) => ms,
                Err((at, e)) => {
                    return Err(DecodeError::malformed_at(at, e));
                },
            };
            if ms.len() != 1 {
                return Err(DecodeError::not_enveloped());
            }
            assert(members_view(ms@)[0] == (ms@[0].0@, ms@[0].1@));
            match decode_train_map(ms[0].1.as_slice()) {
                Ok(m) => Ok(m),
                Err(e) => Err(DecodeError::nested(Segment::Key(ms[0].0.clone()), e)),
            }
        },
    }
}

} // verus!
