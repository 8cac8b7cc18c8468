use vstd::prelude::*;
use crate::database_initializer::{
    effect_applied, region_record_spec, regions_file_spec, step_spec, timepoint_record_spec,
    timepoints_file_spec, ActionModel, Effect, EventModel, JobModel, REGIONS_MAGIC,
    TIMEPOINTS_MAGIC,
};
use crate::database_initializer::data_files::{byte_at, le_u16_at, read_len, Timepoint};
use crate::database_initializer::data_files::decode_timepoint_spec;
use crate::database_initializer::status::{
    is_initial, report_spec, stage_name_spec, Status, StatusValueModel, STAGE_COUNT,
};

verus! {

/// An upper bound on the steps that a cancelled import still takes.
pub open spec fn cancel_rank(m: JobModel) -> nat {
    match m {
        JobModel::Start => 7,
        JobModel::AwaitRegions => 6,
        JobModel::Regions { .. } => 5,
        JobModel::AwaitTimepoints { .. } => 4,
        JobModel::Timepoints { .. } => 3,
        JobModel::WeatherStart { .. } => 2,
        JobModel::WeatherNext { .. } => 4,
        JobModel::AwaitWeather { .. } => 3,
        JobModel::WeatherRegions { .. } => 2,
        JobModel::AwaitListing => 1,
        JobModel::CountryNext { .. } => 2,
        JobModel::AwaitCountry { .. } => 1,
        JobModel::Finished => 0,
    }
}

/// Once the import is cancelled, no step enters a stage or reports progress.
pub proof fn cancelled_step_reports_no_progress(m: JobModel, e: EventModel)
    requires
        m.accepts(e),
    ensures
        !(step_spec(m, true, e).1 is BeginStage),
        !(step_spec(m, true, e).1 is Progress),
{
}

/// Once the import is cancelled, every step brings it nearer to its end, so
/// that it finishes within seven more steps however large its files are.
pub proof fn cancelled_import_finishes(m: JobModel, e: EventModel)
    requires
        m.accepts(e),
        !(m is Finished),
    ensures
        cancel_rank(step_spec(m, true, e).0) < cancel_rank(m),
{
}

/// How far along its fixed course the import stands.
pub open spec fn course_position(m: JobModel) -> nat {
    match m {
        JobModel::Start => 0,
        JobModel::AwaitRegions => 1,
        JobModel::Regions { .. } => 2,
        JobModel::AwaitTimepoints { .. } => 3,
        JobModel::Timepoints { .. } => 4,
        JobModel::WeatherStart { .. } => 5,
        JobModel::WeatherNext { .. } => 6,
        JobModel::AwaitWeather { .. } => 6,
        JobModel::WeatherRegions { .. } => 6,
        JobModel::AwaitListing => 7,
        JobModel::CountryNext { .. } => 8,
        JobModel::AwaitCountry { .. } => 8,
        JobModel::Finished => 9,
    }
}

/// The import never goes back along its course, and it enters its stages
/// one to four in that order, each once: a step that enters stage `k` moves
/// the import forward into the part of its course that belongs to `k`.
pub proof fn stages_are_entered_in_order(m: JobModel, cancelled: bool, e: EventModel)
    requires
        m.accepts(e),
    ensures
        course_position(step_spec(m, cancelled, e).0) >= course_position(m),
        step_spec(m, cancelled, e).1 matches Effect::BeginStage(k, _) ==> {
            &&& 1 <= k <= 4
            &&& course_position(step_spec(m, cancelled, e).0) == 2 * k
            &&& course_position(m) < 2 * k
        },
{
}

/// The work that the stage where the import stands counts.
pub open spec fn stage_total(m: JobModel) -> Option<u32> {
    match m {
        JobModel::Regions { count, .. } => Some(count),
        JobModel::Timepoints { count, .. } => Some(count),
        JobModel::WeatherNext { timepoints, .. } => Some(timepoints.len() as u32),
        JobModel::AwaitWeather { timepoints, .. } => Some(timepoints.len() as u32),
        JobModel::WeatherRegions { timepoints, .. } => Some(timepoints.len() as u32),
        JobModel::CountryNext { kept, .. } => Some(kept.len() as u32),
        JobModel::AwaitCountry { kept, .. } => Some(kept.len() as u32),
        _ => None,
    }
}

/// Progress stays below the total that the stage announced: a step that
/// enters a stage announces the total that the stage then keeps, and a step
/// that reports progress reports less than that total and keeps it.
pub proof fn progress_stays_below_total(m: JobModel, cancelled: bool, e: EventModel)
    requires
        m.wf(),
        m.accepts(e),
        m matches JobModel::AwaitCountry { kept, .. } ==> kept.len() <= u32::MAX,
    ensures
        step_spec(m, cancelled, e).1 matches Effect::Progress(p) ==> {
            &&& stage_total(m) matches Some(t)
            &&& p < t
            &&& stage_total(step_spec(m, cancelled, e).0) == stage_total(m)
        },
        step_spec(m, cancelled, e).1 matches Effect::BeginStage(_, t) ==> stage_total(
            step_spec(m, cancelled, e).0,
        ) == Some(t),
{
}

/// A finished import stays finished and changes nothing.
pub proof fn finished_import_is_inert(cancelled: bool, e: EventModel)
    ensures
        step_spec(JobModel::Finished, cancelled, e) == (
            JobModel::Finished,
            Effect::Nothing,
            ActionModel::Finished,
        ),
{
}

/// A step that fails ends the import.
pub proof fn failure_ends_import(m: JobModel, cancelled: bool, e: EventModel)
    requires
        step_spec(m, cancelled, e).1 is Fail,
    ensures
        step_spec(m, cancelled, e).0 is Finished,
        step_spec(m, cancelled, e).2 is Finished,
{
}

/// A failed import reports its error, and nothing more, until it is marked
/// complete.
pub proof fn failure_is_reported(before: Status, after: Status, msg: Seq<char>)
    requires
        effect_applied(before, after, Effect::Fail(msg)),
        !before.completed,
    ensures
        report_spec(after) == seq![
            ("completed"@, StatusValueModel::Bool(false)),
            ("error"@, StatusValueModel::Text(msg)),
        ],
{
    assert(report_spec(after) =~= seq![
        ("completed"@, StatusValueModel::Bool(false)),
        ("error"@, StatusValueModel::Text(msg)),
    ]);
}

/// A completed import reports only that it completed.
pub proof fn completion_is_reported(before: Status, after: Status)
    requires
        effect_applied(before, after, Effect::Complete),
    ensures
        report_spec(after) == seq![("completed"@, StatusValueModel::Bool(true))],
{
}

/// A stage that begins is reported by name, with no progress out of its
/// total, while the import has neither failed nor completed.
pub proof fn begun_stage_is_reported(before: Status, after: Status, stage: usize, total: u32)
    requires
        effect_applied(before, after, Effect::BeginStage(stage, total)),
        !before.completed,
        before.error is None,
    ensures
        report_spec(after) == seq![
            ("completed"@, StatusValueModel::Bool(false)),
            ("stage"@, StatusValueModel::Text(stage_name_spec(stage as int))),
            ("discrete"@, StatusValueModel::Bool(true)),
            ("progress"@, StatusValueModel::Number(0)),
            ("total"@, StatusValueModel::Number(total)),
        ],
{
    assert(report_spec(after) =~= seq![
        ("completed"@, StatusValueModel::Bool(false)),
        ("stage"@, StatusValueModel::Text(stage_name_spec(stage as int))),
        ("discrete"@, StatusValueModel::Bool(true)),
        ("progress"@, StatusValueModel::Number(0)),
        ("total"@, StatusValueModel::Number(total)),
    ]);
}

/// Asking the import to stop does not change its report.
pub proof fn cancel_keeps_report(s: Status)
    ensures
        report_spec(Status { cancelled: true, ..s }) == report_spec(s),
{
}

/// Decoding a time point loses nothing: the month is below sixteen, and the
/// code is sixteen times the year plus the month.
pub proof fn timepoint_decoding_is_lossless(encoded: u16)
    ensures
        decode_timepoint_spec(encoded).1 < 16,
        16 * decode_timepoint_spec(encoded).0 + decode_timepoint_spec(encoded).1 == encoded,
{
}

/// Whether the region stage, run from this record on without cancellation,
/// ends in failure.
pub open spec fn regions_run_fails(d: Seq<u8>, pos: usize, count: u32, next: u32) -> bool
    decreases count - next,
{
    if next >= count {
        false
    } else {
        let o = region_record_spec(d, pos, count, next, false);
        match o.0 {
            JobModel::Regions { pos: p2, next: n2, .. } => if next < n2 <= count {
                regions_run_fails(d, p2, count, n2)
            } else {
                false
            },
            _ => o.1 is Fail,
        }
    }
}

proof fn lemma_regions_run(d: Seq<u8>, pos: usize, count: u32, next: u32)
    requires
        pos <= d.len() <= usize::MAX,
        next <= count,
    ensures
        regions_run_fails(d, pos, count, next) <==> d.len() - pos < 4 * (count - next),
    decreases count - next,
{
    if next < count && d.len() - pos >= 4 {
        lemma_regions_run(d, (pos + 4) as usize, count, (next + 1) as u32);
    }
}

/// A region file whose first byte is right is taken, without cancellation,
/// exactly when after its count it holds four bytes for each region it
/// counts; else the region stage fails.
pub proof fn region_file_accepted_iff_complete(d: Seq<u8>)
    requires
        byte_at(d, 0) == REGIONS_MAGIC,
        d.len() <= usize::MAX,
    ensures
        regions_file_spec(d, false).0 matches JobModel::Regions { data, pos, count, next } && {
            &&& data == d
            &&& next == 0
            &&& pos == 1 + read_len(d, 1, 4)
            &&& (regions_run_fails(d, pos, count, 0) <==> d.len() - pos < 4 * count)
        },
{
    let o = regions_file_spec(d, false);
    if let JobModel::Regions { data, pos, count, next } = o.0 {
        lemma_regions_run(d, pos, count, 0);
    }
}

/// The time points that the time point stage holds when, run from this
/// record on without cancellation, it ends.
pub open spec fn timepoints_run(
    d: Seq<u8>,
    pos: usize,
    count: u32,
    next: u32,
    region_count: u32,
    timepoints: Seq<Timepoint>,
) -> Seq<Timepoint>
    decreases count - next,
{
    if next >= count {
        timepoints
    } else {
        let o = timepoint_record_spec(d, pos, count, next, region_count, timepoints, false);
        match o.0 {
            JobModel::Timepoints { pos: p2, next: n2, timepoints: t2, .. } => if next < n2
                <= count {
                timepoints_run(d, p2, count, n2, region_count, t2)
            } else {
                timepoints
            },
            _ => timepoints,
        }
    }
}

/// The time point of record `i` when the records begin at `base`.
pub open spec fn timepoint_record_at(d: Seq<u8>, base: int, i: int) -> Timepoint {
    decode_timepoint_spec(le_u16_at(d, base + 2 * i) as u16)
}

proof fn lemma_timepoints_run(
    d: Seq<u8>,
    base: int,
    pos: usize,
    count: u32,
    next: u32,
    region_count: u32,
    timepoints: Seq<Timepoint>,
)
    requires
        d.len() <= usize::MAX,
        0 <= base,
        next <= count,
        pos == (if base + 2 * next <= d.len() {
            base + 2 * next
        } else {
            d.len() as int
        }),
    ensures
        timepoints_run(d, pos, count, next, region_count, timepoints) == timepoints + Seq::new(
            (count - next) as nat,
            |i: int| timepoint_record_at(d, base, next + i),
        ),
    decreases count - next,
{
    let rest = Seq::new((count - next) as nat, |i: int| timepoint_record_at(d, base, next + i));
    if next < count {
        assert(le_u16_at(d, pos as int) == le_u16_at(d, base + 2 * next));
        let t = timepoint_record_at(d, base, next as int);
        let p2 = (pos + read_len(d, pos as int, 2)) as usize;
        lemma_timepoints_run(d, base, p2, count, (next + 1) as u32, region_count, timepoints.push(t));
        let rest2 = Seq::new(
            (count - (next + 1)) as nat,
            |i: int| timepoint_record_at(d, base, next + 1 + i),
        );
        assert(timepoints.push(t) + rest2 =~= timepoints + rest);
    } else {
        assert(timepoints + rest =~= timepoints);
    }
}

/// A time point file whose first byte is right gives, without cancellation,
/// as many time points as it counts: the one of record `i` decoded from the
/// 16-bit value at byte `5 + 2 i`, whose missing bytes count as zero.
pub proof fn timepoint_file_gives_its_records(d: Seq<u8>, region_count: u32)
    requires
        byte_at(d, 0) == TIMEPOINTS_MAGIC,
        d.len() <= usize::MAX,
    ensures
        timepoints_file_spec(d, region_count, false).0 matches JobModel::Timepoints {
            data,
            pos,
            count,
            next,
            region_count: rc,
            timepoints,
        } && {
            &&& data == d
            &&& timepoints_run(d, pos, count, next, rc, timepoints) == Seq::new(
                count as nat,
                |i: int| timepoint_record_at(d, 5, i),
            )
        },
{
    let o = timepoints_file_spec(d, region_count, false);
    if let JobModel::Timepoints { data, pos, count, next, region_count: rc, timepoints } = o.0 {
        lemma_timepoints_run(d, 5, pos, count, next, rc, timepoints);
        assert(timepoints + Seq::new(count as nat, |i: int| timepoint_record_at(d, 5, 0 + i))
            =~= Seq::new(count as nat, |i: int| timepoint_record_at(d, 5, i)));
    }
}

/// What an observer of the status may count on while the import runs: the
/// status shows stage `k`, a stage no later than the import's course has
/// reached; and an error or completion is shown only once the import is over.
pub open spec fn observable(m: JobModel, s: Status, k: int) -> bool {
    &&& 0 <= k <= 4
    &&& s.current_stage@ == stage_name_spec(k)
    &&& 2 * k <= course_position(m)
    &&& (s.error is Some || s.completed) ==> m is Finished
}

/// The stage that the status shows after a step from stage `k`.
pub open spec fn stage_after(k: int, e: Effect) -> int {
    match e {
        Effect::BeginStage(j, _) => j as int,
        _ => k,
    }
}

/// A fresh status shows the first stage of an import that has not begun.
pub proof fn fresh_status_is_observable(s: Status)
    requires
        is_initial(s),
    ensures
        observable(JobModel::Start, s, 0),
{
}

/// Asking the import to stop keeps what an observer may count on.
pub proof fn cancel_keeps_observable(m: JobModel, s: Status, k: int)
    requires
        observable(m, s, k),
    ensures
        observable(m, Status { cancelled: true, ..s }, k),
{
}

/// Between two observations of the status the stage never goes back and
/// stays among the first five names, a completion stays, an error stays as
/// it was, and a request to stop stays: each step keeps what an observer may
/// count on and changes the status only in these ways.
pub proof fn observations_only_move_forward(
    m: JobModel,
    s: Status,
    k: int,
    e: EventModel,
    after: Status,
)
    requires
        m.accepts(e),
        observable(m, s, k),
        effect_applied(s, after, step_spec(m, s.cancelled, e).1),
    ensures
        observable(step_spec(m, s.cancelled, e).0, after, stage_after(k, step_spec(m, s.cancelled, e).1)),
        k <= stage_after(k, step_spec(m, s.cancelled, e).1) <= 4,
        s.completed ==> after.completed,
        s.error is Some ==> after.error == s.error,
        after.cancelled == s.cancelled,
{
    stages_are_entered_in_order(m, s.cancelled, e);
}

/// The number of the stage named `name`, or -1 for a name that is no
/// stage's.
pub open spec fn stage_number(name: Seq<char>) -> int {
    if name == stage_name_spec(0) {
        0
    } else if name == stage_name_spec(1) {
        1
    } else if name == stage_name_spec(2) {
        2
    } else if name == stage_name_spec(3) {
        3
    } else if name == stage_name_spec(4) {
        4
    } else if name == stage_name_spec(5) {
        5
    } else if name == stage_name_spec(6) {
        6
    } else if name == stage_name_spec(7) {
        7
    } else if name == stage_name_spec(8) {
        8
    } else {
        -1
    }
}

/// Each stage's name is that stage's and no other's.
pub proof fn stage_names_are_distinct(k: int)
    requires
        0 <= k < STAGE_COUNT,
    ensures
        stage_number(stage_name_spec(k)) == k,
{
    reveal_strlit("Starting up");
    reveal_strlit("Importing regions");
    reveal_strlit("Processing regions");
    reveal_strlit("Importing time points");
    reveal_strlit("Processing time points");
    reveal_strlit("Importing weather points");
    reveal_strlit("Processing weather points");
    reveal_strlit("Importing countries");
    reveal_strlit("Processing countries");
    assert(stage_name_spec(0).len() == 11);
    assert(stage_name_spec(1).len() == 17);
    assert(stage_name_spec(2).len() == 18);
    assert(stage_name_spec(3).len() == 21);
    assert(stage_name_spec(4).len() == 22);
    assert(stage_name_spec(5).len() == 24);
    assert(stage_name_spec(6).len() == 25);
    assert(stage_name_spec(7).len() == 19);
    assert(stage_name_spec(8).len() == 20);
}

/// One move of an import run: either the import is asked to stop, which sets
/// the flag in the status and nothing else, or the import takes a step on an
/// event that it accepts, with the status at hand, and the status changes as
/// that step says.
pub open spec fn run_move(m: JobModel, s: Status, e: EventModel, m2: JobModel, s2: Status) -> bool {
    ||| m2 == m && s2 == (Status { cancelled: true, ..s })
    ||| {
        &&& m.accepts(e)
        &&& m2 == step_spec(m, s.cancelled, e).0
        &&& effect_applied(s, s2, step_spec(m, s.cancelled, e).1)
    }
}

/// A run of an import that begins on a fresh status: the import's states
/// `ms`, the statuses `ss` seen after each move, and the events `es` of the
/// moves (an event is ignored where the move is a request to stop).
pub open spec fn is_run(ms: Seq<JobModel>, ss: Seq<Status>, es: Seq<EventModel>) -> bool {
    &&& ms.len() == ss.len()
    &&& ss.len() == es.len() + 1
    &&& ms[0] is Start
    &&& is_initial(ss[0])
    &&& forall|i: int|
        #![trigger es[i]]
        0 <= i < es.len() ==> run_move(ms[i], ss[i], es[i], ms[i + 1], ss[i + 1])
}

/// Every status seen in a run is observable, at the stage that it shows.
proof fn lemma_run_observable(ms: Seq<JobModel>, ss: Seq<Status>, es: Seq<EventModel>, n: int)
    requires
        is_run(ms, ss, es),
        0 <= n < ss.len(),
    ensures
        observable(ms[n], ss[n], stage_number(ss[n].current_stage@)),
    decreases n,
{
    if n == 0 {
        fresh_status_is_observable(ss[0]);
        stage_names_are_distinct(0);
    } else {
        lemma_run_observable(ms, ss, es, n - 1);
        let k = stage_number(ss[n - 1].current_stage@);
        let e = es[n - 1];
        assert(run_move(ms[n - 1], ss[n - 1], e, ms[n], ss[n]));
        if ms[n] == ms[n - 1] && ss[n] == (Status { cancelled: true, ..ss[n - 1] }) {
            cancel_keeps_observable(ms[n - 1], ss[n - 1], k);
        } else {
            observations_only_move_forward(ms[n - 1], ss[n - 1], k, e, ss[n]);
            let k2 = stage_after(k, step_spec(ms[n - 1], ss[n - 1].cancelled, e).1);
            stage_names_are_distinct(k2);
        }
    }
}

/// What one move of a run keeps between the status before it and after it.
proof fn lemma_run_move_forward(ms: Seq<JobModel>, ss: Seq<Status>, es: Seq<EventModel>, n: int)
    requires
        is_run(ms, ss, es),
        0 <= n < es.len(),
    ensures
        stage_number(ss[n].current_stage@) <= stage_number(ss[n + 1].current_stage@),
        ss[n].completed ==> ss[n + 1].completed,
        ss[n].error is Some ==> ss[n + 1].error == ss[n].error,
        ss[n].cancelled ==> ss[n + 1].cancelled,
{
    lemma_run_observable(ms, ss, es, n);
    lemma_run_observable(ms, ss, es, n + 1);
    let k = stage_number(ss[n].current_stage@);
    let e = es[n];
    assert(run_move(ms[n], ss[n], e, ms[n + 1], ss[n + 1]));
    if ms[n + 1] == ms[n] && ss[n + 1] == (Status { cancelled: true, ..ss[n] }) {
    } else {
        observations_only_move_forward(ms[n], ss[n], k, e, ss[n + 1]);
        let k2 = stage_after(k, step_spec(ms[n], ss[n].cancelled, e).1);
        stage_names_are_distinct(k2);
    }
}

/// Over a whole run of an import from a fresh status, whatever the events
/// and whenever it is asked to stop: of two statuses seen in that order, the
/// later one shows a stage no earlier than the first, and both show one of
/// the first five stages; a completion stays shown, an error stays as it was,
/// and a request to stop stays.
pub proof fn stages_only_move_forward_over_a_run(
    ms: Seq<JobModel>,
    ss: Seq<Status>,
    es: Seq<EventModel>,
    i: int,
    j: int,
)
    requires
        is_run(ms, ss, es),
        0 <= i <= j < ss.len(),
    ensures
        0 <= stage_number(ss[i].current_stage@) <= stage_number(ss[j].current_stage@) <= 4,
        ss[i].completed ==> ss[j].completed,
        ss[i].error is Some ==> ss[j].error == ss[i].error,
        ss[i].cancelled ==> ss[j].cancelled,
    decreases j - i,
{
    lemma_run_observable(ms, ss, es, i);
    lemma_run_observable(ms, ss, es, j);
    if i < j {
        stages_only_move_forward_over_a_run(ms, ss, es, i, j - 1);
        lemma_run_move_forward(ms, ss, es, j - 1);
    }
}

/// Each step that the import accepts leaves it well formed: the positions
/// it keeps stay within what it reads, and the counts within their bounds.
pub proof fn steps_keep_the_job_well_formed(m: JobModel, cancelled: bool, e: EventModel)
    requires
        m.wf(),
        m.accepts(e),
    ensures
        step_spec(m, cancelled, e).0.wf(),
{
}

} // verus!
