use vstd::prelude::*;

verus! {

/// How many named stages an import goes through.
pub const STAGE_COUNT: usize = 9;

/// The name of each stage, by number.
pub open spec fn stage_name_spec(stage: int) -> Seq<char> {
    if stage == 0 {
        "Starting up"@
    } else if stage == 1 {
        "Importing regions"@
    } else if stage == 2 {
        "Processing regions"@
    } else if stage == 3 {
        "Importing time points"@
    } else if stage == 4 {
        "Processing time points"@
    } else if stage == 5 {
        "Importing weather points"@
    } else if stage == 6 {
        "Processing weather points"@
    } else if stage == 7 {
        "Importing countries"@
    } else {
        "Processing countries"@
    }
}

/// The name of stage number `stage`.
pub fn stage_name(stage: usize) -> (name: &'static str)
    requires
        stage < STAGE_COUNT,
    ensures
        name@ == stage_name_spec(stage as int),
{
    match stage {
        0 => "Starting up",
        1 => "Importing regions",
        2 => "Processing regions",
        3 => "Importing time points",
        4 => "Processing time points",
        5 => "Importing weather points",
        6 => "Processing weather points",
        7 => "Importing countries",
        _ => "Processing countries",
    }
}

/// The progress report of a database import, shared between the import and
/// whoever watches it.
pub struct Status {
    pub current_stage: &'static str,
    pub current_progress: u32,
    pub total_work: u32,
    pub discrete_progress: bool,
    pub cancelled: bool,
    pub completed: bool,
    pub error: Option<String>,
    pub working_space: u32,
}

/// A value in the report that `Status::dictionary` gives.
pub enum StatusValue {
    Bool(bool),
    Text(String),
    Number(u32),
}

/// The mathematical value of a `StatusValue`.
pub enum StatusValueModel {
    Bool(bool),
    Text(Seq<char>),
    Number(u32),
}

impl View for StatusValue {
    type V = StatusValueModel;

    open spec fn view(&self) -> StatusValueModel {
        match self {
            StatusValue::Bool(b) => StatusValueModel::Bool(*b),
            StatusValue::Text(s) => StatusValueModel::Text(s@),
            StatusValue::Number(n) => StatusValueModel::Number(*n),
        }
    }
}

/// One key and its value in the report.
pub struct StatusEntry {
    pub key: &'static str,
    pub value: StatusValue,
}

impl View for StatusEntry {
    type V = (Seq<char>, StatusValueModel);

    open spec fn view(&self) -> (Seq<char>, StatusValueModel) {
        (self.key@, self.value@)
    }
}

/// The entries of the report, keys in the order of insertion.
pub open spec fn report_spec(s: Status) -> Seq<(Seq<char>, StatusValueModel)> {
    let head = seq![("completed"@, StatusValueModel::Bool(s.completed))];
    if s.completed {
        head
    } else if s.error is Some {
        head.push(("error"@, StatusValueModel::Text(s.error->0@)))
    } else {
        let body = head.push(("stage"@, StatusValueModel::Text(s.current_stage@))).push(
            ("discrete"@, StatusValueModel::Bool(s.discrete_progress)),
        );
        if s.discrete_progress {
            body.push(("progress"@, StatusValueModel::Number(s.current_progress))).push(
                ("total"@, StatusValueModel::Number(s.total_work)),
            )
        } else {
            body
        }
    }
}

/// The view of a report as it was built.
pub open spec fn entries_view(entries: Seq<StatusEntry>) -> Seq<(Seq<char>, StatusValueModel)> {
    entries.map_values(|e: StatusEntry| e@)
}

/// A status as it is before any import started.
pub open spec fn is_initial(s: Status) -> bool {
    &&& s.current_stage@ == stage_name_spec(0)
    &&& s.current_progress == 0
    &&& s.total_work == 0
    &&& !s.discrete_progress
    &&& !s.cancelled
    &&& !s.completed
    &&& s.error is None
    &&& s.working_space == 0
}

impl Status {
    pub fn new() -> (s: Self)
        ensures
            is_initial(s),
    {
        Status {
            current_stage: stage_name(0),
            current_progress: 0,
            total_work: 0,
            discrete_progress: false,
            cancelled: false,
            completed: false,
            error: None,
            working_space: 0,
        }
    }

    /// The report of this status: whether the import completed, and else
    /// either its error or its stage and (when counted) its progress.
    pub fn dictionary(&self) -> (dict: Vec<StatusEntry>)
        ensures
            entries_view(dict@) == report_spec(*self),
    {
        let mut dict: Vec<StatusEntry> = Vec::new();
        dict.push(StatusEntry { key: "completed", value: StatusValue::Bool(self.completed) });
        if self.completed {
            assert(entries_view(dict@) =~= report_spec(*self));
            return dict;
        }
        match &self.error {
            Some(error) => {
                dict.push(StatusEntry { key: "error", value: StatusValue::Text(error.clone()) });
                assert(entries_view(dict@) =~= report_spec(*self));
                return dict;
            },
            None => {},
        }
        dict.push(
            StatusEntry { key: "stage", value: StatusValue::Text(self.current_stage.to_owned()) },
        );
        dict.push(StatusEntry { key: "discrete", value: StatusValue::Bool(self.discrete_progress) });
        if self.discrete_progress {
            dict.push(
                StatusEntry { key: "progress", value: StatusValue::Number(self.current_progress) },
            );
            dict.push(StatusEntry { key: "total", value: StatusValue::Number(self.total_work) });
        }
        assert(entries_view(dict@) =~= report_spec(*self));
        dict
    }

    /// Moves the report to stage number `stage`.
    pub fn set_stage(&mut self, stage: usize)
        requires
            stage < STAGE_COUNT,
        ensures
            final(self).current_stage@ == stage_name_spec(stage as int),
            *final(self) == (Status { current_stage: final(self).current_stage, ..*old(self) }),
    {
        self.current_stage = stage_name(stage);
    }
}

} // verus!
