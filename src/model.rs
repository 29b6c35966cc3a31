//! The entities that the service describes: stations, trains and their stops.
use vstd::prelude::*;

verus! {

/// Where a train stands with respect to one stop of its itinerary.
#[derive(Clone, Copy, Debug, PartialEq, Eq, Structural)]
pub enum TrainStatus {
    /// On the way to the stop.
    Enroute,
    /// At the stop.
    Station,
    /// Left the stop.
    Departed,
    /// Any status word the service sends that is none of the above.
    Unknown,
}

/// The status that a status word of the service stands for.
pub open spec fn status_of(word: Seq<char>) -> TrainStatus {
    if word == "Enroute"@ {
        TrainStatus::Enroute
    } else if word == "Station"@ {
        TrainStatus::Station
    } else if word == "Departed"@ {
        TrainStatus::Departed
    } else {
        TrainStatus::Unknown
    }
}

impl TrainStatus {
    /// Reads a status word; a word that is not recognised gives `Unknown`.
    pub fn from_word(word: &String) -> (r: TrainStatus)
        ensures
            r == status_of(word@),
    {
        if *word == "Enroute".to_owned() {
            TrainStatus::Enroute
        } else if *word == "Station".to_owned() {
            TrainStatus::Station
        } else if *word == "Departed".to_owned() {
            TrainStatus::Departed
        } else {
            TrainStatus::Unknown
        }
    }
}

/// A fixed stop of the network.
#[derive(Clone, Debug)]
pub struct Station {
    pub name: String,
    pub code: String,
    /// Time zone identifier.
    pub tz: String,
    /// Latitude, as the JSON number reads.
    pub lat: String,
    /// Longitude, as the JSON number reads.
    pub lon: String,
    pub address1: String,
    pub address2: String,
    pub city: String,
    pub state: String,
    pub zip: String,
    /// Identifiers of the trains that currently serve the station.
    pub trains: Vec<String>,
}

pub struct StationView {
    pub name: Seq<char>,
    pub code: Seq<char>,
    pub tz: Seq<char>,
    pub lat: Seq<char>,
    pub lon: Seq<char>,
    pub address1: Seq<char>,
    pub address2: Seq<char>,
    pub city: Seq<char>,
    pub state: Seq<char>,
    pub zip: Seq<char>,
    pub trains: Seq<Seq<char>>,
}

pub open spec fn texts_view(v: Seq<String>) -> Seq<Seq<char>> {
    v.map_values(|s: String| s@)
}

impl View for Station {
    type V = StationView;

    open spec fn view(&self) -> StationView {
        StationView {
            name: self.name@,
            code: self.code@,
            tz: self.tz@,
            lat: self.lat@,
            lon: self.lon@,
            address1: self.address1@,
            address2: self.address2@,
            city: self.city@,
            state: self.state@,
            zip: self.zip@,
            trains: texts_view(self.trains@),
        }
    }
}

/// One stop of a train's itinerary.
#[derive(Clone, Debug)]
pub struct StationStop {
    pub name: String,
    pub code: String,
    pub status: TrainStatus,
    /// Scheduled arrival, where the service gives one.
    pub scheduled_arrival: Option<String>,
    /// Scheduled departure, where the service gives one.
    pub scheduled_departure: Option<String>,
    /// Actual or estimated arrival, where the service gives one.
    pub arrival: Option<String>,
    /// Actual or estimated departure, where the service gives one.
    pub departure: Option<String>,
}

pub struct StationStopView {
    pub name: Seq<char>,
    pub code: Seq<char>,
    pub status: TrainStatus,
    pub scheduled_arrival: Option<Seq<char>>,
    pub scheduled_departure: Option<Seq<char>>,
    pub arrival: Option<Seq<char>>,
    pub departure: Option<Seq<char>>,
}

pub open spec fn opt_view(o: Option<String>) -> Option<Seq<char>> {
    match o {
        Some(s) => Some(s@),
        None => None,
    }
}

impl View for StationStop {
    type V = StationStopView;

    open spec fn view(&self) -> StationStopView {
        StationStopView {
            name: self.name@,
            code: self.code@,
            status: self.status,
            scheduled_arrival: opt_view(self.scheduled_arrival),
            scheduled_departure: opt_view(self.scheduled_departure),
            arrival: opt_view(self.arrival),
            departure: opt_view(self.departure),
        }
    }
}

/// One run of a train.
#[derive(Clone, Debug)]
pub struct Train {
    pub route_name: String,
    /// Route-level number; it may repeat across days.
    pub train_num: String,
    /// Identifier of this run.
    pub train_id: String,
    pub origin_code: String,
    pub origin_name: String,
    pub destination_code: String,
    pub destination_name: String,
    /// The itinerary, in order.
    pub stations: Vec<StationStop>,
}

pub struct TrainView {
    pub route_name: Seq<char>,
    pub train_num: Seq<char>,
    pub train_id: Seq<char>,
    pub origin_code: Seq<char>,
    pub origin_name: Seq<char>,
    pub destination_code: Seq<char>,
    pub destination_name: Seq<char>,
    pub stations: Seq<StationStopView>,
}

pub open spec fn stops_view(v: Seq<StationStop>) -> Seq<StationStopView> {
    v.map_values(|s: StationStop| s@)
}

impl View for Train {
    type V = TrainView;

    open spec fn view(&self) -> TrainView {
        TrainView {
            route_name: self.route_name@,
            train_num: self.train_num@,
            train_id: self.train_id@,
            origin_code: self.origin_code@,
            origin_name: self.origin_name@,
            destination_code: self.destination_code@,
            destination_name: self.destination_name@,
            stations: stops_view(self.stations@),
        }
    }
}

pub open spec fn trains_view(v: Seq<Train>) -> Seq<TrainView> {
    v.map_values(|t: Train| t@)
}

/// The stations of a response, each under its code. No code occurs twice.
#[derive(Clone, Debug)]
pub struct StationsByCode {
    entries: Vec<(String, Station)>,
}

pub open spec fn station_entries_view(v: Seq<(String, Station)>) -> Seq<(Seq<char>, StationView)> {
    v.map_values(|p: (String, Station)| (p.0@, p.1@))
}

pub open spec fn distinct_keys<V>(m: Seq<(Seq<char>, V)>) -> bool {
    forall|i: int, j: int| 0 <= i < j < m.len() ==> m[i].0 != m[j].0
}

impl View for StationsByCode {
    type V = Seq<(Seq<char>, StationView)>;

    closed spec fn view(&self) -> Seq<(Seq<char>, StationView)> {
        station_entries_view(self.entries@)
    }
}

impl StationsByCode {
    pub open spec fn wf(&self) -> bool {
        distinct_keys(self@)
    }

    pub(crate) fn from_entries(entries: Vec<(String, Station)>) -> (r: StationsByCode)
        requires
            distinct_keys(station_entries_view(entries@)),
        ensures
            r@ == station_entries_view(entries@),
            r.wf(),
    {
        StationsByCode { entries }
    }

    /// The number of stations.
    pub fn len(&self) -> (r: usize)
        ensures
            r == self@.len(),
    {
        self.entries.len()
    }

    pub fn is_empty(&self) -> (r: bool)
        ensures
            r == (self@.len() == 0),
    {
        self.entries.len() == 0
    }

    /// The station under `code`, if there is one.
    pub fn get(&self, code: &str) -> (r: Option<&Station>)
        ensures
            r is None <==> (forall|i: int| 0 <= i < self@.len() ==> self@[i].0 != code@),
            r matches Some(s) ==> exists|i: int|
                #![trigger self@[i]]
                0 <= i < self@.len() && self@[i].0 == code@ && self@[i].1 == s@,
    {
        let key = code.to_owned();
        let mut i: usize = 0;
        while i < self.entries.len()
            invariant
                key@ == code@,
                i <= self.entries@.len(),
                self@.len() == self.entries@.len(),
                forall|j: int| 0 <= j < i ==> self@[j].0 != code@,
            decreases self.entries@.len() - i,
        {
            assert(self@[i as int] == (self.entries@[i as int].0@, self.entries@[i as int].1@));
            if self.entries[i].0 == key {
                return Some(&self.entries[i].1);
            }
            i = i + 1;
        }
        None
    }

    /// The entries, each a code with its station.
    pub fn entries(&self) -> (r: &Vec<(String, Station)>)
        ensures
            station_entries_view(r@) == self@,
    {
        &self.entries
    }
}

/// The trains of a response, grouped under their train number. No number
/// occurs twice.
#[derive(Clone, Debug)]
pub struct TrainsByNumber {
    entries: Vec<(String, Vec<Train>)>,
}

pub open spec fn train_entries_view(v: Seq<(String, Vec<Train>)>) -> Seq<(Seq<char>, Seq<TrainView>)> {
    v.map_values(|p: (String, Vec<Train>)| (p.0@, trains_view(p.1@)))
}

impl View for TrainsByNumber {
    type V = Seq<(Seq<char>, Seq<TrainView>)>;

    closed spec fn view(&self) -> Seq<(Seq<char>, Seq<TrainView>)> {
        train_entries_view(self.entries@)
    }
}

impl TrainsByNumber {
    pub open spec fn wf(&self) -> bool {
        distinct_keys(self@)
    }

    pub(crate) fn from_entries(entries: Vec<(String, Vec<Train>)>) -> (r: TrainsByNumber)
        requires
            distinct_keys(train_entries_view(entries@)),
        ensures
            r@ == train_entries_view(entries@),
            r.wf(),
    {
        TrainsByNumber { entries }
    }

    /// The number of train numbers.
    pub fn len(&self) -> (r: usize)
        ensures
            r == self@.len(),
    {
        self.entries.len()
    }

    pub fn is_empty(&self) -> (r: bool)
        ensures
            r == (self@.len() == 0),
    {
        self.entries.len() == 0
    }

    /// The trains under `number`, if there are any.
    pub fn get(&self, number: &str) -> (r: Option<&Vec<Train>>)
        ensures
            r is None <==> (forall|i: int| 0 <= i < self@.len() ==> self@[i].0 != number@),
            r matches Some(v) ==> exists|i: int|
                #![trigger self@[i]]
                0 <= i < self@.len() && self@[i].0 == number@ && self@[i].1 == trains_view(v@),
    {
        let key = number.to_owned();
        let mut i: usize = 0;
        while i < self.entries.len()
            invariant
                key@ == number@,
                i <= self.entries@.len(),
                self@.len() == self.entries@.len(),
                forall|j: int| 0 <= j < i ==> self@[j].0 != number@,
            decreases self.entries@.len() - i,
        {
            assert(self@[i as int] == (
                self.entries@[i as int].0@,
                trains_view(self.entries@[i as int].1@),
            ));
            if self.entries[i].0 == key {
                return Some(&self.entries[i].1);
            }
            i = i + 1;
        }
        None
    }

    /// The entries, each a train number with its trains.
    pub fn entries(&self) -> (r: &Vec<(String, Vec<Train>)>)
        ensures
            train_entries_view(r@) == self@,
    {
        &self.entries
    }
}

} // verus!
