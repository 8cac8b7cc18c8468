pub mod connection;
pub mod data_files;
pub mod format_laws;
pub mod import_laws;
pub mod status;

use vstd::prelude::*;
use crate::database_initializer::data_files::{
    byte_at, byte_or_zero, country_code_check, country_code_matches, decode_timepoint,
    decode_timepoint_spec, has_bin_extension, has_bin_extension_spec, le_u16_at, le_u32_at,
    read_len, read_u16_le, read_u32_le, weather_suffix, weather_suffix_spec, Timepoint,
};
use crate::database_initializer::status::{
    entries_view, is_initial, report_spec, stage_name_spec, Status, StatusEntry, STAGE_COUNT,
};

verus! {

/// Where the region file lies.
pub const REGIONS_PATH: &'static str = "large_data/regions/regions.bin";

/// Where the time point file lies.
pub const TIMEPOINTS_PATH: &'static str = "large_data/timepoints/timepoints.bin";

/// The directory of the weather files, one per time point.
pub const WEATHER_DIR: &'static str = "large_data/weather_points/";

/// The directory of the country files.
pub const COUNTRIES_DIR: &'static str = "large_data/countries/";

/// The error of a region file with a wrong first byte.
pub const REGIONS_INVALID: &'static str = "Regions File Invalid";

/// The error of a time point file with a wrong first byte.
pub const TIMEPOINTS_INVALID: &'static str = "Timepoints File Invalid";

/// The error of a region file that ends inside a record.
pub const UNEXPECTED_END: &'static str = "failed to fill whole buffer";

/// The end of the error of a file with a wrong first byte.
pub const INVALID_HEADER: &'static str = ": invalid header";

/// The end of the error of a file whose contents do not match its place.
pub const INVALID_ID: &'static str = ": invalid ID";

/// The first byte of a region file.
pub const REGIONS_MAGIC: u8 = 0xAA;

/// The first byte of a time point file.
pub const TIMEPOINTS_MAGIC: u8 = 0xBB;

/// The first byte of a weather file.
pub const WEATHER_MAGIC: u8 = 0xCC;

/// The first byte of a country file.
pub const COUNTRY_MAGIC: u8 = 0xDD;

/// Records `error` as the error of the import.
pub fn set_error(status: &mut Status, error: String)
    ensures
        final(status).error == Some(error),
        *final(status) == (Status { error: Some(error), ..*old(status) }),
{
    status.error = Some(error);
}

/// A file found in the country directory: whether it is a regular file, its
/// name as raw bytes, and how its path is shown.
pub struct ListedEntry {
    pub is_file: bool,
    pub file_name: Vec<u8>,
    pub display: String,
}

pub struct ListedEntryModel {
    pub is_file: bool,
    pub file_name: Seq<u8>,
    pub display: Seq<char>,
}

impl View for ListedEntry {
    type V = ListedEntryModel;

    open spec fn view(&self) -> ListedEntryModel {
        ListedEntryModel { is_file: self.is_file, file_name: self.file_name@, display: self.display@ }
    }
}

/// What the outside world reports to the import.
pub enum Event {
    /// The status may be read and written now.
    Proceed,
    /// The contents of the requested file.
    FileRead(Vec<u8>),
    /// The entries of the requested directory; `None` for one that could not
    /// be read.
    DirectoryListed(Vec<Option<ListedEntry>>),
    /// The requested file or directory could not be read; the error's text.
    IoFailed(String),
}

pub enum EventModel {
    Proceed,
    FileRead(Seq<u8>),
    DirectoryListed(Seq<Option<ListedEntryModel>>),
    IoFailed(Seq<char>),
}

pub open spec fn entry_view(o: Option<ListedEntry>) -> Option<ListedEntryModel> {
    match o {
        Some(e) => Some(e@),
        None => None,
    }
}

pub open spec fn listing_view(l: Seq<Option<ListedEntry>>) -> Seq<Option<ListedEntryModel>> {
    l.map_values(|o: Option<ListedEntry>| entry_view(o))
}

impl View for Event {
    type V = EventModel;

    open spec fn view(&self) -> EventModel {
        match self {
            Event::Proceed => EventModel::Proceed,
            Event::FileRead(d) => EventModel::FileRead(d@),
            Event::DirectoryListed(l) => EventModel::DirectoryListed(listing_view(l@)),
            Event::IoFailed(m) => EventModel::IoFailed(m@),
        }
    }
}

/// What the import asks the outside world to do next.
pub enum Action {
    /// Read the whole file at this path and report `FileRead` or `IoFailed`.
    ReadFile(String),
    /// List the directory at this path and report `DirectoryListed` or `IoFailed`.
    ListDirectory(String),
    /// Read the whole file of the listed entry with this index.
    ReadListedFile(usize),
    /// Call again with `Proceed`, with the status at hand.
    Proceed,
    /// The import is over.
    Finished,
}

pub enum ActionModel {
    ReadFile(Seq<char>),
    ListDirectory(Seq<char>),
    ReadListedFile(usize),
    Proceed,
    Finished,
}

impl View for Action {
    type V = ActionModel;

    open spec fn view(&self) -> ActionModel {
        match self {
            Action::ReadFile(p) => ActionModel::ReadFile(p@),
            Action::ListDirectory(p) => ActionModel::ListDirectory(p@),
            Action::ReadListedFile(i) => ActionModel::ReadListedFile(*i),
            Action::Proceed => ActionModel::Proceed,
            Action::Finished => ActionModel::Finished,
        }
    }
}

/// What one step of the import does to the status.
pub enum Effect {
    Nothing,
    /// Enters a stage: its name, zero progress, the work it counts.
    BeginStage(usize, u32),
    Progress(u32),
    Fail(Seq<char>),
    Complete,
}

/// `after` is `before` changed by `e` and nothing else.
pub open spec fn effect_applied(before: Status, after: Status, e: Effect) -> bool {
    match e {
        Effect::Nothing => after == before,
        Effect::BeginStage(stage, total) => {
            &&& after.current_stage@ == stage_name_spec(stage as int)
            &&& after == (Status {
                current_stage: after.current_stage,
                current_progress: 0,
                total_work: total,
                discrete_progress: true,
                ..before
            })
        },
        Effect::Progress(p) => after == (Status { current_progress: p, ..before }),
        Effect::Fail(msg) => {
            &&& after.error is Some
            &&& after.error->0@ == msg
            &&& after == (Status { error: after.error, ..before })
        },
        Effect::Complete => after == (Status { completed: true, ..before }),
    }
}

/// Where an import stands.
pub enum JobModel {
    Start,
    AwaitRegions,
    Regions { data: Seq<u8>, pos: usize, count: u32, next: u32 },
    AwaitTimepoints { region_count: u32 },
    Timepoints {
        data: Seq<u8>,
        pos: usize,
        count: u32,
        next: u32,
        region_count: u32,
        timepoints: Seq<Timepoint>,
    },
    WeatherStart { region_count: u32, timepoints: Seq<Timepoint> },
    WeatherNext { region_count: u32, timepoints: Seq<Timepoint>, index: usize },
    AwaitWeather { region_count: u32, timepoints: Seq<Timepoint>, index: usize },
    WeatherRegions { region_count: u32, timepoints: Seq<Timepoint>, index: usize, done: u32 },
    AwaitListing,
    CountryNext { listing: Seq<Option<ListedEntryModel>>, kept: Seq<usize>, index: usize },
    AwaitCountry { listing: Seq<Option<ListedEntryModel>>, kept: Seq<usize>, index: usize },
    Finished,
}

/// Whether a listed entry is a country file: a regular file named "*.bin".
pub open spec fn is_country_entry(o: Option<ListedEntryModel>) -> bool {
    match o {
        Some(e) => e.is_file && has_bin_extension_spec(e.file_name),
        None => false,
    }
}

/// The indices of the country files among the listed entries, in order.
pub open spec fn kept_spec(l: Seq<Option<ListedEntryModel>>) -> Seq<usize>
    decreases l.len(),
{
    if l.len() == 0 {
        Seq::empty()
    } else {
        let r = kept_spec(l.drop_last());
        if is_country_entry(l.last()) {
            r.push((l.len() - 1) as usize)
        } else {
            r
        }
    }
}

impl JobModel {
    pub open spec fn wf(self) -> bool {
        match self {
            JobModel::Regions { data, pos, count, next } => pos <= data.len() && next <= count,
            JobModel::Timepoints { data, pos, count, next, timepoints, .. } => {
                &&& pos <= data.len()
                &&& next <= count
                &&& timepoints.len() == next
            },
            JobModel::WeatherStart { timepoints, .. } => timepoints.len() <= u32::MAX,
            JobModel::WeatherNext { timepoints, index, .. } => {
                timepoints.len() <= u32::MAX && index <= timepoints.len()
            },
            JobModel::AwaitWeather { timepoints, index, .. } => {
                timepoints.len() <= u32::MAX && index < timepoints.len()
            },
            JobModel::WeatherRegions { region_count, timepoints, index, done } => {
                &&& timepoints.len() <= u32::MAX
                &&& index < timepoints.len()
                &&& done <= region_count
            },
            JobModel::CountryNext { listing, kept, index } => {
                kept == kept_spec(listing) && index <= kept.len()
            },
            JobModel::AwaitCountry { listing, kept, index } => {
                kept == kept_spec(listing) && index < kept.len()
            },
            _ => true,
        }
    }

    /// The events that the import can take where it stands.
    pub open spec fn accepts(self, e: EventModel) -> bool {
        match self {
            JobModel::AwaitRegions | JobModel::AwaitTimepoints { .. } | JobModel::AwaitWeather {
                ..
            } | JobModel::AwaitCountry { .. } => e is FileRead || e is IoFailed,
            JobModel::AwaitListing => e is DirectoryListed || e is IoFailed,
            JobModel::Finished => true,
            _ => e is Proceed,
        }
    }
}

/// The path of the weather file of a time point.
pub open spec fn weather_path_spec(t: Timepoint) -> Seq<char> {
    WEATHER_DIR@ + weather_suffix_spec(t) + ".bin"@
}

/// The error of a weather file.
pub open spec fn weather_error_spec(t: Timepoint, tail: Seq<char>) -> Seq<char> {
    "Weatherpoint File "@ + weather_suffix_spec(t) + tail
}

/// The error of a country file.
pub open spec fn country_error_spec(display: Seq<char>, tail: Seq<char>) -> Seq<char> {
    "Country File "@ + display + tail
}

/// The three bytes of the country code, read after the first byte.
pub open spec fn country_code_at(d: Seq<u8>) -> Seq<u8> {
    seq![byte_at(d, 1) as u8, byte_at(d, 2) as u8, byte_at(d, 3) as u8]
}

pub open spec fn failure(msg: Seq<char>) -> (JobModel, Effect, ActionModel) {
    (JobModel::Finished, Effect::Fail(msg), ActionModel::Finished)
}

pub open spec fn to_timepoints() -> ActionModel {
    ActionModel::ReadFile(TIMEPOINTS_PATH@)
}

pub open spec fn to_countries() -> ActionModel {
    ActionModel::ListDirectory(COUNTRIES_DIR@)
}

/// The region file has been read.
pub open spec fn regions_file_spec(d: Seq<u8>, cancelled: bool) -> (JobModel, Effect, ActionModel) {
    if byte_at(d, 0) != REGIONS_MAGIC {
        failure(REGIONS_INVALID@)
    } else {
        let count: u32 = le_u32_at(d, 1) as u32;
        let pos: usize = (1 + read_len(d, 1, 4)) as usize;
        if cancelled {
            (JobModel::AwaitTimepoints { region_count: count }, Effect::Nothing, to_timepoints())
        } else {
            (
                JobModel::Regions { data: d, pos, count, next: 0 },
                Effect::BeginStage(1, count),
                ActionModel::Proceed,
            )
        }
    }
}

/// One region record: two coordinates of two bytes each.
pub open spec fn region_record_spec(
    d: Seq<u8>,
    pos: usize,
    count: u32,
    next: u32,
    cancelled: bool,
) -> (JobModel, Effect, ActionModel) {
    if next == count {
        (JobModel::AwaitTimepoints { region_count: count }, Effect::Nothing, to_timepoints())
    } else if d.len() - pos < 4 {
        failure(UNEXPECTED_END@)
    } else if cancelled {
        (JobModel::AwaitTimepoints { region_count: count }, Effect::Nothing, to_timepoints())
    } else {
        (
            JobModel::Regions { data: d, pos: (pos + 4) as usize, count, next: (next + 1) as u32 },
            Effect::Progress(next),
            ActionModel::Proceed,
        )
    }
}

/// The time point file has been read.
pub open spec fn timepoints_file_spec(d: Seq<u8>, region_count: u32, cancelled: bool) -> (
    JobModel,
    Effect,
    ActionModel,
) {
    if byte_at(d, 0) != TIMEPOINTS_MAGIC {
        failure(TIMEPOINTS_INVALID@)
    } else {
        let count: u32 = le_u32_at(d, 1) as u32;
        let pos: usize = (1 + read_len(d, 1, 4)) as usize;
        if cancelled {
            (
                JobModel::WeatherStart { region_count, timepoints: Seq::empty() },
                Effect::Nothing,
                ActionModel::Proceed,
            )
        } else {
            (
                JobModel::Timepoints {
                    data: d,
                    pos,
                    count,
                    next: 0,
                    region_count,
                    timepoints: Seq::empty(),
                },
                Effect::BeginStage(2, count),
                ActionModel::Proceed,
            )
        }
    }
}

/// One time point record: a 16-bit code.
pub open spec fn timepoint_record_spec(
    d: Seq<u8>,
    pos: usize,
    count: u32,
    next: u32,
    region_count: u32,
    timepoints: Seq<Timepoint>,
    cancelled: bool,
) -> (JobModel, Effect, ActionModel) {
    if next == count {
        (JobModel::WeatherStart { region_count, timepoints }, Effect::Nothing, ActionModel::Proceed)
    } else {
        let t = decode_timepoint_spec(le_u16_at(d, pos as int) as u16);
        let tps = timepoints.push(t);
        let pos2: usize = (pos + read_len(d, pos as int, 2)) as usize;
        if cancelled {
            (
                JobModel::WeatherStart { region_count, timepoints: tps },
                Effect::Nothing,
                ActionModel::Proceed,
            )
        } else {
            (
                JobModel::Timepoints {
                    data: d,
                    pos: pos2,
                    count,
                    next: (next + 1) as u32,
                    region_count,
                    timepoints: tps,
                },
                Effect::Progress(next),
                ActionModel::Proceed,
            )
        }
    }
}

/// The weather stage begins.
pub open spec fn weather_start_spec(region_count: u32, timepoints: Seq<Timepoint>, cancelled: bool) -> (
    JobModel,
    Effect,
    ActionModel,
) {
    if cancelled {
        (JobModel::AwaitListing, Effect::Nothing, to_countries())
    } else {
        (
            JobModel::WeatherNext { region_count, timepoints, index: 0 },
            Effect::BeginStage(3, timepoints.len() as u32),
            ActionModel::Proceed,
        )
    }
}

/// The next weather file, if any, is asked for.
pub open spec fn weather_next_spec(region_count: u32, timepoints: Seq<Timepoint>, index: usize) -> (
    JobModel,
    Effect,
    ActionModel,
) {
    if index >= timepoints.len() {
        (JobModel::AwaitListing, Effect::Nothing, to_countries())
    } else {
        (
            JobModel::AwaitWeather { region_count, timepoints, index },
            Effect::Nothing,
            ActionModel::ReadFile(weather_path_spec(timepoints[index as int])),
        )
    }
}

/// A weather file has been read.
pub open spec fn weather_file_spec(
    d: Seq<u8>,
    region_count: u32,
    timepoints: Seq<Timepoint>,
    index: usize,
) -> (JobModel, Effect, ActionModel) {
    let t = timepoints[index as int];
    if byte_at(d, 0) != WEATHER_MAGIC {
        failure(weather_error_spec(t, INVALID_HEADER@))
    } else if le_u32_at(d, 1) != index {
        failure(weather_error_spec(t, INVALID_ID@))
    } else {
        (
            JobModel::WeatherRegions { region_count, timepoints, index, done: 0 },
            Effect::Nothing,
            ActionModel::Proceed,
        )
    }
}

/// The weather of one region, or the end of a weather file.
pub open spec fn weather_region_spec(
    region_count: u32,
    timepoints: Seq<Timepoint>,
    index: usize,
    done: u32,
    cancelled: bool,
) -> (JobModel, Effect, ActionModel) {
    if cancelled {
        (JobModel::AwaitListing, Effect::Nothing, to_countries())
    } else if done < region_count {
        (
            JobModel::WeatherRegions { region_count, timepoints, index, done: (done + 1) as u32 },
            Effect::Nothing,
            ActionModel::Proceed,
        )
    } else {
        (
            JobModel::WeatherNext { region_count, timepoints, index: (index + 1) as usize },
            Effect::Progress(index as u32),
            ActionModel::Proceed,
        )
    }
}

/// The country directory has been listed.
pub open spec fn listing_spec(listing: Seq<Option<ListedEntryModel>>, cancelled: bool) -> (
    JobModel,
    Effect,
    ActionModel,
) {
    let kept = kept_spec(listing);
    if cancelled {
        (JobModel::Finished, Effect::Complete, ActionModel::Finished)
    } else {
        (
            JobModel::CountryNext { listing, kept, index: 0 },
            Effect::BeginStage(4, kept.len() as u32),
            ActionModel::Proceed,
        )
    }
}

/// The next country file, if any, is asked for.
pub open spec fn country_next_spec(
    listing: Seq<Option<ListedEntryModel>>,
    kept: Seq<usize>,
    index: usize,
) -> (JobModel, Effect, ActionModel) {
    if index >= kept.len() {
        (JobModel::Finished, Effect::Complete, ActionModel::Finished)
    } else {
        (
            JobModel::AwaitCountry { listing, kept, index },
            Effect::Nothing,
            ActionModel::ReadListedFile(kept[index as int]),
        )
    }
}

/// A country file has been read.
pub open spec fn country_file_spec(
    d: Seq<u8>,
    listing: Seq<Option<ListedEntryModel>>,
    kept: Seq<usize>,
    index: usize,
    cancelled: bool,
) -> (JobModel, Effect, ActionModel) {
    let e = listing[kept[index as int] as int]->0;
    if byte_at(d, 0) != COUNTRY_MAGIC {
        failure(country_error_spec(e.display, INVALID_HEADER@))
    } else if !country_code_matches(e.file_name, country_code_at(d)) {
        failure(country_error_spec(e.display, INVALID_ID@))
    } else if cancelled {
        (JobModel::Finished, Effect::Complete, ActionModel::Finished)
    } else {
        (
            JobModel::CountryNext { listing, kept, index: (index + 1) as usize },
            Effect::Progress(index as u32),
            ActionModel::Proceed,
        )
    }
}

/// One step of an import: where it goes next, what it does to the status,
/// and what it asks for.
pub open spec fn step_spec(m: JobModel, cancelled: bool, e: EventModel) -> (
    JobModel,
    Effect,
    ActionModel,
) {
    match e {
        EventModel::IoFailed(msg) => match m {
            JobModel::Finished => (JobModel::Finished, Effect::Nothing, ActionModel::Finished),
            _ => failure(msg),
        },
        _ => match m {
            JobModel::Start => (
                JobModel::AwaitRegions,
                Effect::Nothing,
                ActionModel::ReadFile(REGIONS_PATH@),
            ),
            JobModel::AwaitRegions => match e {
                EventModel::FileRead(d) => regions_file_spec(d, cancelled),
                _ => (m, Effect::Nothing, ActionModel::Finished),
            },
            JobModel::Regions { data, pos, count, next } => region_record_spec(
                data,
                pos,
                count,
                next,
                cancelled,
            ),
            JobModel::AwaitTimepoints { region_count } => match e {
                EventModel::FileRead(d) => timepoints_file_spec(d, region_count, cancelled),
                _ => (m, Effect::Nothing, ActionModel::Finished),
            },
            JobModel::Timepoints { data, pos, count, next, region_count, timepoints } => {
                timepoint_record_spec(data, pos, count, next, region_count, timepoints, cancelled)
            },
            JobModel::WeatherStart { region_count, timepoints } => weather_start_spec(
                region_count,
                timepoints,
                cancelled,
            ),
            JobModel::WeatherNext { region_count, timepoints, index } => weather_next_spec(
                region_count,
                timepoints,
                index,
            ),
            JobModel::AwaitWeather { region_count, timepoints, index } => match e {
                EventModel::FileRead(d) => weather_file_spec(d, region_count, timepoints, index),
                _ => (m, Effect::Nothing, ActionModel::Finished),
            },
            JobModel::WeatherRegions { region_count, timepoints, index, done } => {
                weather_region_spec(region_count, timepoints, index, done, cancelled)
            },
            JobModel::AwaitListing => match e {
                EventModel::DirectoryListed(l) => listing_spec(l, cancelled),
                _ => (m, Effect::Nothing, ActionModel::Finished),
            },
            JobModel::CountryNext { listing, kept, index } => country_next_spec(
                listing,
                kept,
                index,
            ),
            JobModel::AwaitCountry { listing, kept, index } => match e {
                EventModel::FileRead(d) => country_file_spec(d, listing, kept, index, cancelled),
                _ => (m, Effect::Nothing, ActionModel::Finished),
            },
            JobModel::Finished => (JobModel::Finished, Effect::Nothing, ActionModel::Finished),
        },
    }
}

/// Every index of `kept_spec(l)` names a country entry of `l`.
pub proof fn lemma_kept_valid(l: Seq<Option<ListedEntryModel>>)
    requires
        l.len() <= usize::MAX,
    ensures
        kept_spec(l).len() <= l.len(),
        forall|j: int|
            #![trigger kept_spec(l)[j]]
            0 <= j < kept_spec(l).len() ==> (kept_spec(l)[j] as int) < l.len() && is_country_entry(
                l[kept_spec(l)[j] as int],
            ),
    decreases l.len(),
{
    if l.len() > 0 {
        let r = kept_spec(l.drop_last());
        lemma_kept_valid(l.drop_last());
        assert forall|j: int|
            #![trigger kept_spec(l)[j]]
            0 <= j < kept_spec(l).len() implies (kept_spec(l)[j] as int) < l.len()
                && is_country_entry(l[kept_spec(l)[j] as int]) by {
            if j < r.len() {
                assert(kept_spec(l)[j] == r[j]);
                assert((r[j] as int) < l.drop_last().len());
                assert(l[r[j] as int] == l.drop_last()[r[j] as int]);
            } else {
                assert(is_country_entry(l.last()));
                assert(kept_spec(l) == r.push((l.len() - 1) as usize));
                assert(kept_spec(l)[j] == (l.len() - 1) as usize);
            }
        }
    }
}

/// Where an import stands, with the data it holds.
enum Phase {
    Start,
    AwaitRegions,
    Regions { data: Vec<u8>, pos: usize, count: u32, next: u32 },
    AwaitTimepoints { region_count: u32 },
    Timepoints {
        data: Vec<u8>,
        pos: usize,
        count: u32,
        next: u32,
        region_count: u32,
        timepoints: Vec<Timepoint>,
    },
    WeatherStart { region_count: u32, timepoints: Vec<Timepoint> },
    WeatherNext { region_count: u32, timepoints: Vec<Timepoint>, index: usize },
    AwaitWeather { region_count: u32, timepoints: Vec<Timepoint>, index: usize },
    WeatherRegions { region_count: u32, timepoints: Vec<Timepoint>, index: usize, done: u32 },
    AwaitListing,
    CountryNext { listing: Vec<Option<ListedEntry>>, kept: Vec<usize>, index: usize },
    AwaitCountry { listing: Vec<Option<ListedEntry>>, kept: Vec<usize>, index: usize },
    Finished,
}

impl View for Phase {
    type V = JobModel;

    closed spec fn view(&self) -> JobModel {
        match self {
            Phase::Start => JobModel::Start,
            Phase::AwaitRegions => JobModel::AwaitRegions,
            Phase::Regions { data, pos, count, next } => JobModel::Regions {
                data: data@,
                pos: *pos,
                count: *count,
                next: *next,
            },
            Phase::AwaitTimepoints { region_count } => JobModel::AwaitTimepoints {
                region_count: *region_count,
            },
            Phase::Timepoints { data, pos, count, next, region_count, timepoints } => {
                JobModel::Timepoints {
                    data: data@,
                    pos: *pos,
                    count: *count,
                    next: *next,
                    region_count: *region_count,
                    timepoints: timepoints@,
                }
            },
            Phase::WeatherStart { region_count, timepoints } => JobModel::WeatherStart {
                region_count: *region_count,
                timepoints: timepoints@,
            },
            Phase::WeatherNext { region_count, timepoints, index } => JobModel::WeatherNext {
                region_count: *region_count,
                timepoints: timepoints@,
                index: *index,
            },
            Phase::AwaitWeather { region_count, timepoints, index } => JobModel::AwaitWeather {
                region_count: *region_count,
                timepoints: timepoints@,
                index: *index,
            },
            Phase::WeatherRegions { region_count, timepoints, index, done } => {
                JobModel::WeatherRegions {
                    region_count: *region_count,
                    timepoints: timepoints@,
                    index: *index,
                    done: *done,
                }
            },
            Phase::AwaitListing => JobModel::AwaitListing,
            Phase::CountryNext { listing, kept, index } => JobModel::CountryNext {
                listing: listing_view(listing@),
                kept: kept@,
                index: *index,
            },
            Phase::AwaitCountry { listing, kept, index } => JobModel::AwaitCountry {
                listing: listing_view(listing@),
                kept: kept@,
                index: *index,
            },
            Phase::Finished => JobModel::Finished,
        }
    }
}

/// The outcome of a step as the executable side holds it.
spec fn outcome_is(
    r: (Phase, Action),
    before: Status,
    after: Status,
    o: (JobModel, Effect, ActionModel),
) -> bool {
    &&& r.0@ == o.0
    &&& r.1@ == o.2
    &&& effect_applied(before, after, o.1)
    &&& r.0@.wf()
}

fn fail_with(status: &mut Status, msg: String) -> (r: (Phase, Action))
    ensures
        outcome_is(r, *old(status), *final(status), failure(msg@)),
{
    set_error(status, msg);
    (Phase::Finished, Action::Finished)
}

fn begin_stage(status: &mut Status, stage: usize, total: u32)
    requires
        stage < STAGE_COUNT,
    ensures
        effect_applied(*old(status), *final(status), Effect::BeginStage(stage, total)),
{
    status.set_stage(stage);
    status.current_progress = 0;
    status.total_work = total;
    status.discrete_progress = true;
}

fn on_regions_file(data: Vec<u8>, status: &mut Status) -> (r: (Phase, Action))
    ensures
        outcome_is(r, *old(status), *final(status), regions_file_spec(data@, old(status).cancelled)),
{
    let header: u8 = byte_or_zero(data.as_slice(), 0, 0);
    if header != REGIONS_MAGIC {
        return fail_with(status, REGIONS_INVALID.to_owned());
    }
    let (count, pos): (u32, usize) = read_u32_le(data.as_slice(), 1);
    if status.cancelled {
        (Phase::AwaitTimepoints { region_count: count }, Action::ReadFile(TIMEPOINTS_PATH.to_owned()))
    } else {
        begin_stage(status, 1, count);
        (Phase::Regions { data, pos, count, next: 0 }, Action::Proceed)
    }
}

fn on_region_record(data: Vec<u8>, pos: usize, count: u32, next: u32, status: &mut Status) -> (r: (
    Phase,
    Action,
))
    requires
        pos <= data@.len(),
        next <= count,
    ensures
        outcome_is(
            r,
            *old(status),
            *final(status),
            region_record_spec(data@, pos, count, next, old(status).cancelled),
        ),
{
    if next == count {
        return (
            Phase::AwaitTimepoints { region_count: count },
            Action::ReadFile(TIMEPOINTS_PATH.to_owned()),
        );
    }
    if data.len() - pos < 4 {
        return fail_with(status, UNEXPECTED_END.to_owned());
    }
    if status.cancelled {
        return (
            Phase::AwaitTimepoints { region_count: count },
            Action::ReadFile(TIMEPOINTS_PATH.to_owned()),
        );
    }
    status.current_progress = next;
    (Phase::Regions { data, pos: pos + 4, count, next: next + 1 }, Action::Proceed)
}

fn on_timepoints_file(data: Vec<u8>, region_count: u32, status: &mut Status) -> (r: (Phase, Action))
    ensures
        outcome_is(
            r,
            *old(status),
            *final(status),
            timepoints_file_spec(data@, region_count, old(status).cancelled),
        ),
{
    let header: u8 = byte_or_zero(data.as_slice(), 0, 0);
    if header != TIMEPOINTS_MAGIC {
        return fail_with(status, TIMEPOINTS_INVALID.to_owned());
    }
    let (count, pos): (u32, usize) = read_u32_le(data.as_slice(), 1);
    let timepoints: Vec<Timepoint> = Vec::new();
    if status.cancelled {
        (Phase::WeatherStart { region_count, timepoints }, Action::Proceed)
    } else {
        begin_stage(status, 2, count);
        (
            Phase::Timepoints { data, pos, count, next: 0, region_count, timepoints },
            Action::Proceed,
        )
    }
}

fn on_timepoint_record(
    data: Vec<u8>,
    pos: usize,
    count: u32,
    next: u32,
    region_count: u32,
    timepoints: Vec<Timepoint>,
    status: &mut Status,
) -> (r: (Phase, Action))
    requires
        pos <= data@.len(),
        next <= count,
        timepoints@.len() == next,
    ensures
        outcome_is(
            r,
            *old(status),
            *final(status),
            timepoint_record_spec(
                data@,
                pos,
                count,
                next,
                region_count,
                timepoints@,
                old(status).cancelled,
            ),
        ),
{
    if next == count {
        return (Phase::WeatherStart { region_count, timepoints }, Action::Proceed);
    }
    let (encoded, pos2): (u16, usize) = read_u16_le(data.as_slice(), pos);
    let mut timepoints = timepoints;
    timepoints.push(decode_timepoint(encoded));
    if status.cancelled {
        return (Phase::WeatherStart { region_count, timepoints }, Action::Proceed);
    }
    status.current_progress = next;
    (
        Phase::Timepoints { data, pos: pos2, count, next: next + 1, region_count, timepoints },
        Action::Proceed,
    )
}

fn on_weather_start(region_count: u32, timepoints: Vec<Timepoint>, status: &mut Status) -> (r: (
    Phase,
    Action,
))
    requires
        timepoints@.len() <= u32::MAX,
    ensures
        outcome_is(
            r,
            *old(status),
            *final(status),
            weather_start_spec(region_count, timepoints@, old(status).cancelled),
        ),
{
    if status.cancelled {
        return (Phase::AwaitListing, Action::ListDirectory(COUNTRIES_DIR.to_owned()));
    }
    let total: u32 = timepoints.len() as u32;
    begin_stage(status, 3, total);
    (Phase::WeatherNext { region_count, timepoints, index: 0 }, Action::Proceed)
}

/// The path of the weather file of a time point.
pub fn weather_path(t: Timepoint) -> (p: String)
    ensures
        p@ == weather_path_spec(t),
{
    let mut p = WEATHER_DIR.to_owned();
    let suffix = weather_suffix(t);
    p.append(suffix.as_str());
    p.append(".bin");
    p
}

fn on_weather_next(region_count: u32, timepoints: Vec<Timepoint>, index: usize) -> (r: (
    Phase,
    Action,
))
    requires
        timepoints@.len() <= u32::MAX,
        index <= timepoints@.len(),
    ensures
        r.0@ == weather_next_spec(region_count, timepoints@, index).0,
        r.1@ == weather_next_spec(region_count, timepoints@, index).2,
        r.0@.wf(),
{
    if index >= timepoints.len() {
        return (Phase::AwaitListing, Action::ListDirectory(COUNTRIES_DIR.to_owned()));
    }
    let path = weather_path(timepoints[index]);
    (Phase::AwaitWeather { region_count, timepoints, index }, Action::ReadFile(path))
}

fn weather_error(t: Timepoint, tail: &str) -> (m: String)
    ensures
        m@ == weather_error_spec(t, tail@),
{
    let mut m = "Weatherpoint File ".to_owned();
    let suffix = weather_suffix(t);
    m.append(suffix.as_str());
    m.append(tail);
    m
}

fn on_weather_file(
    data: Vec<u8>,
    region_count: u32,
    timepoints: Vec<Timepoint>,
    index: usize,
    status: &mut Status,
) -> (r: (Phase, Action))
    requires
        timepoints@.len() <= u32::MAX,
        index < timepoints@.len(),
    ensures
        outcome_is(
            r,
            *old(status),
            *final(status),
            weather_file_spec(data@, region_count, timepoints@, index),
        ),
{
    let t = timepoints[index];
    let header: u8 = byte_or_zero(data.as_slice(), 0, 0);
    if header != WEATHER_MAGIC {
        return fail_with(status, weather_error(t, INVALID_HEADER));
    }
    let (id, _pos): (u32, usize) = read_u32_le(data.as_slice(), 1);
    if id as usize != index {
        return fail_with(status, weather_error(t, INVALID_ID));
    }
    (Phase::WeatherRegions { region_count, timepoints, index, done: 0 }, Action::Proceed)
}

fn on_weather_region(
    region_count: u32,
    timepoints: Vec<Timepoint>,
    index: usize,
    done: u32,
    status: &mut Status,
) -> (r: (Phase, Action))
    requires
        timepoints@.len() <= u32::MAX,
        index < timepoints@.len(),
        done <= region_count,
    ensures
        outcome_is(
            r,
            *old(status),
            *final(status),
            weather_region_spec(region_count, timepoints@, index, done, old(status).cancelled),
        ),
{
    if status.cancelled {
        return (Phase::AwaitListing, Action::ListDirectory(COUNTRIES_DIR.to_owned()));
    }
    if done < region_count {
        return (
            Phase::WeatherRegions { region_count, timepoints, index, done: done + 1 },
            Action::Proceed,
        );
    }
    status.current_progress = index as u32;
    (Phase::WeatherNext { region_count, timepoints, index: index + 1 }, Action::Proceed)
}

/// The indices of the country files among the listed entries.
pub fn country_files(listing: &Vec<Option<ListedEntry>>) -> (kept: Vec<usize>)
    ensures
        kept@ == kept_spec(listing_view(listing@)),
{
    let mut kept: Vec<usize> = Vec::new();
    let mut i: usize = 0;
    while i < listing.len()
        invariant
            i <= listing@.len(),
            kept@ == kept_spec(listing_view(listing@).take(i as int)),
        decreases listing@.len() - i,
    {
        let ghost l = listing_view(listing@);
        assert(l.take(i + 1).drop_last() =~= l.take(i as int));
        assert(l.take(i + 1).last() == l[i as int]);
        let keep: bool = match &listing[i] {
            Some(e) => e.is_file && has_bin_extension(e.file_name.as_slice()),
            None => false,
        };
        if keep {
            kept.push(i);
        }
        i = i + 1;
    }
    assert(listing_view(listing@).take(listing@.len() as int) =~= listing_view(listing@));
    kept
}

fn on_listing(listing: Vec<Option<ListedEntry>>, status: &mut Status) -> (r: (Phase, Action))
    ensures
        outcome_is(
            r,
            *old(status),
            *final(status),
            listing_spec(listing_view(listing@), old(status).cancelled),
        ),
{
    let kept = country_files(&listing);
    if status.cancelled {
        status.completed = true;
        return (Phase::Finished, Action::Finished);
    }
    let total: u32 = kept.len() as u32;
    begin_stage(status, 4, total);
    (Phase::CountryNext { listing, kept, index: 0 }, Action::Proceed)
}

fn on_country_next(listing: Vec<Option<ListedEntry>>, kept: Vec<usize>, index: usize, status: &mut Status) -> (r: (
    Phase,
    Action,
))
    requires
        kept@ == kept_spec(listing_view(listing@)),
        index <= kept@.len(),
    ensures
        outcome_is(
            r,
            *old(status),
            *final(status),
            country_next_spec(listing_view(listing@), kept@, index),
        ),
{
    if index >= kept.len() {
        status.completed = true;
        return (Phase::Finished, Action::Finished);
    }
    let target: usize = kept[index];
    (Phase::AwaitCountry { listing, kept, index }, Action::ReadListedFile(target))
}

fn country_error(display: &String, tail: &str) -> (m: String)
    ensures
        m@ == country_error_spec(display@, tail@),
{
    let mut m = "Country File ".to_owned();
    m.append(display.as_str());
    m.append(tail);
    m
}

fn on_country_file(
    data: Vec<u8>,
    listing: Vec<Option<ListedEntry>>,
    kept: Vec<usize>,
    index: usize,
    status: &mut Status,
) -> (r: (Phase, Action))
    requires
        kept@ == kept_spec(listing_view(listing@)),
        index < kept@.len(),
    ensures
        outcome_is(
            r,
            *old(status),
            *final(status),
            country_file_spec(data@, listing_view(listing@), kept@, index, old(status).cancelled),
        ),
{
    proof {
        vstd::std_specs::vec::axiom_spec_len(&listing);
        lemma_kept_valid(listing_view(listing@));
        assert(is_country_entry(listing_view(listing@)[kept@[index as int] as int]));
    }
    let target: usize = kept[index];
    let header: u8 = byte_or_zero(data.as_slice(), 0, 0);
    let mut code: Vec<u8> = Vec::new();
    code.push(byte_or_zero(data.as_slice(), 0, 1));
    code.push(byte_or_zero(data.as_slice(), 0, 2));
    code.push(byte_or_zero(data.as_slice(), 0, 3));
    assert(code@ =~= country_code_at(data@));
    let outcome = match &listing[target] {
        Some(entry) => {
            if header != COUNTRY_MAGIC {
                Some(country_error(&entry.display, INVALID_HEADER))
            } else if !country_code_check(entry.file_name.as_slice(), code.as_slice()) {
                Some(country_error(&entry.display, INVALID_ID))
            } else {
                None
            }
        },
        None => None,
    };
    match outcome {
        Some(msg) => fail_with(status, msg),
        None => {
            if status.cancelled {
                status.completed = true;
                (Phase::Finished, Action::Finished)
            } else {
                status.current_progress = index as u32;
                (Phase::CountryNext { listing, kept, index: index + 1 }, Action::Proceed)
            }
        },
    }
}

/// A database import in progress. It reads nothing itself: each step says
/// what it needs next, and takes the answer with the status at hand.
pub struct ImportJob {
    phase: Phase,
}

impl View for ImportJob {
    type V = JobModel;

    closed spec fn view(&self) -> JobModel {
        self.phase@
    }
}

impl ImportJob {
    #[verifier::type_invariant]
    spec fn inv(self) -> bool {
        self.phase@.wf()
    }

    /// An import that has not begun.
    pub fn new() -> (job: Self)
        ensures
            job@ == JobModel::Start,
    {
        ImportJob { phase: Phase::Start }
    }

    /// Whether the import can take `event` where it stands.
    pub fn accepts(&self, event: &Event) -> (ok: bool)
        ensures
            ok == self@.accepts(event@),
    {
        match (&self.phase, event) {
            (Phase::AwaitRegions, Event::FileRead(_)) => true,
            (Phase::AwaitRegions, Event::IoFailed(_)) => true,
            (Phase::AwaitTimepoints { .. }, Event::FileRead(_)) => true,
            (Phase::AwaitTimepoints { .. }, Event::IoFailed(_)) => true,
            (Phase::AwaitWeather { .. }, Event::FileRead(_)) => true,
            (Phase::AwaitWeather { .. }, Event::IoFailed(_)) => true,
            (Phase::AwaitCountry { .. }, Event::FileRead(_)) => true,
            (Phase::AwaitCountry { .. }, Event::IoFailed(_)) => true,
            (Phase::AwaitListing, Event::DirectoryListed(_)) => true,
            (Phase::AwaitListing, Event::IoFailed(_)) => true,
            (Phase::AwaitRegions, _) => false,
            (Phase::AwaitTimepoints { .. }, _) => false,
            (Phase::AwaitWeather { .. }, _) => false,
            (Phase::AwaitCountry { .. }, _) => false,
            (Phase::AwaitListing, _) => false,
            (Phase::Finished, _) => true,
            (_, Event::Proceed) => true,
            _ => false,
        }
    }

    /// Takes one step: consumes `event`, updates `status` as the step
    /// requires, and says what is needed next.
    pub fn advance(&mut self, status: &mut Status, event: Event) -> (action: Action)
        requires
            old(self)@.accepts(event@),
        ensures
            final(self)@ == step_spec(old(self)@, old(status).cancelled, event@).0,
            action@ == step_spec(old(self)@, old(status).cancelled, event@).2,
            effect_applied(
                *old(status),
                *final(status),
                step_spec(old(self)@, old(status).cancelled, event@).1,
            ),
    {
        proof {
            use_type_invariant(&*self);
        }
        let mut phase = Phase::Finished;
        std::mem::swap(&mut phase, &mut self.phase);
        let r = match event {
            Event::IoFailed(msg) => {
                match phase {
                    Phase::Finished => (Phase::Finished, Action::Finished),
                    _ => fail_with(status, msg),
                }
            },
            event => match phase {
                Phase::Start => (Phase::AwaitRegions, Action::ReadFile(REGIONS_PATH.to_owned())),
                Phase::AwaitRegions => match event {
                    Event::FileRead(d) => on_regions_file(d, status),
                    _ => (Phase::Finished, Action::Finished),
                },
                Phase::Regions { data, pos, count, next } => on_region_record(
                    data,
                    pos,
                    count,
                    next,
                    status,
                ),
                Phase::AwaitTimepoints { region_count } => match event {
                    Event::FileRead(d) => on_timepoints_file(d, region_count, status),
                    _ => (Phase::Finished, Action::Finished),
                },
                Phase::Timepoints { data, pos, count, next, region_count, timepoints } => {
                    on_timepoint_record(data, pos, count, next, region_count, timepoints, status)
                },
                Phase::WeatherStart { region_count, timepoints } => on_weather_start(
                    region_count,
                    timepoints,
                    status,
                ),
                Phase::WeatherNext { region_count, timepoints, index } => on_weather_next(
                    region_count,
                    timepoints,
                    index,
                ),
                Phase::AwaitWeather { region_count, timepoints, index } => match event {
                    Event::FileRead(d) => on_weather_file(d, region_count, timepoints, index, status),
                    _ => (Phase::Finished, Action::Finished),
                },
                Phase::WeatherRegions { region_count, timepoints, index, done } => {
                    on_weather_region(region_count, timepoints, index, done, status)
                },
                Phase::AwaitListing => match event {
                    Event::DirectoryListed(l) => on_listing(l, status),
                    _ => (Phase::Finished, Action::Finished),
                },
                Phase::CountryNext { listing, kept, index } => on_country_next(
                    listing,
                    kept,
                    index,
                    status,
                ),
                Phase::AwaitCountry { listing, kept, index } => match event {
                    Event::FileRead(d) => on_country_file(d, listing, kept, index, status),
                    _ => (Phase::Finished, Action::Finished),
                },
                Phase::Finished => (Phase::Finished, Action::Finished),
            },
        };
        self.phase = r.0;
        r.1
    }
}

/// The importer of the weather database as a user interface holds it: the
/// status of the import that it runs.
pub struct DatabaseInitializer {
    pub status: Status,
}

impl DatabaseInitializer {
    pub fn new() -> (d: Self)
        ensures
            is_initial(d.status),
    {
        DatabaseInitializer { status: Status::new() }
    }

    /// Begins an import; the caller runs its steps.
    pub fn init_db(&self) -> (job: ImportJob)
        ensures
            job@ == JobModel::Start,
    {
        ImportJob::new()
    }

    /// The report of the import's status.
    pub fn get_status(&self) -> (dict: Vec<StatusEntry>)
        ensures
            entries_view(dict@) == report_spec(self.status),
    {
        self.status.dictionary()
    }

    /// Asks the import to stop.
    pub fn cancel(&mut self)
        ensures
            final(self).status == (Status { cancelled: true, ..old(self).status }),
    {
        self.status.cancelled = true;
    }
}

} // verus!
