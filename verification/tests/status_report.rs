use weather_db::database_initializer::set_error;
use weather_db::database_initializer::status::{stage_name, Status, StatusEntry, StatusValue};
use weather_db::database_initializer::DatabaseInitializer;

fn text(s: &str) -> StatusValue {
    StatusValue::Text(s.to_string())
}

fn flatten(entries: Vec<StatusEntry>) -> Vec<(String, String)> {
    entries
        .into_iter()
        .map(|e| {
            let v = match e.value {
                StatusValue::Bool(b) => format!("bool:{}", b),
                StatusValue::Text(t) => format!("text:{}", t),
                StatusValue::Number(n) => format!("number:{}", n),
            };
            (e.key.to_string(), v)
        })
        .collect()
}

fn pairs(items: &[(&str, StatusValue)]) -> Vec<(String, String)> {
    flatten(
        items
            .iter()
            .map(|(k, v)| {
                let key: &'static str = match *k {
                    "completed" => "completed",
                    "error" => "error",
                    "stage" => "stage",
                    "discrete" => "discrete",
                    "progress" => "progress",
                    _ => "total",
                };
                let value = match v {
                    StatusValue::Bool(b) => StatusValue::Bool(*b),
                    StatusValue::Text(t) => StatusValue::Text(t.clone()),
                    StatusValue::Number(n) => StatusValue::Number(*n),
                };
                StatusEntry { key, value }
            })
            .collect(),
    )
}

#[test]
fn new_status_reports_starting_stage() {
    let s = Status::new();
    assert_eq!(s.current_stage, "Starting up");
    assert_eq!(s.current_progress, 0);
    assert_eq!(s.total_work, 0);
    assert!(!s.cancelled && !s.completed && !s.discrete_progress);
    assert!(s.error.is_none());
    assert_eq!(s.working_space, 0);
    assert_eq!(
        flatten(s.dictionary()),
        pairs(&[
            ("completed", StatusValue::Bool(false)),
            ("stage", text("Starting up")),
            ("discrete", StatusValue::Bool(false)),
        ])
    );
}

#[test]
fn stage_names_in_order() {
    let names = [
        "Starting up",
        "Importing regions",
        "Processing regions",
        "Importing time points",
        "Processing time points",
        "Importing weather points",
        "Processing weather points",
        "Importing countries",
        "Processing countries",
    ];
    for (i, n) in names.iter().enumerate() {
        assert_eq!(stage_name(i), *n);
    }
}

#[test]
fn set_stage_changes_only_the_stage() {
    let mut s = Status::new();
    s.current_progress = 7;
    s.total_work = 9;
    s.set_stage(3);
    assert_eq!(s.current_stage, "Importing time points");
    assert_eq!(s.current_progress, 7);
    assert_eq!(s.total_work, 9);
}

#[test]
fn discrete_progress_is_reported() {
    let mut s = Status::new();
    s.set_stage(1);
    s.discrete_progress = true;
    s.current_progress = 4;
    s.total_work = 10;
    assert_eq!(
        flatten(s.dictionary()),
        pairs(&[
            ("completed", StatusValue::Bool(false)),
            ("stage", text("Importing regions")),
            ("discrete", StatusValue::Bool(true)),
            ("progress", StatusValue::Number(4)),
            ("total", StatusValue::Number(10)),
        ])
    );
}

#[test]
fn error_hides_the_stage() {
    let mut s = Status::new();
    s.discrete_progress = true;
    set_error(&mut s, "Regions File Invalid".to_string());
    assert_eq!(
        flatten(s.dictionary()),
        pairs(&[("completed", StatusValue::Bool(false)), ("error", text("Regions File Invalid"))])
    );
}

#[test]
fn completion_hides_everything_else() {
    let mut s = Status::new();
    set_error(&mut s, "x".to_string());
    s.completed = true;
    assert_eq!(flatten(s.dictionary()), pairs(&[("completed", StatusValue::Bool(true))]));
}

#[test]
fn initializer_cancel_keeps_report() {
    let mut d = DatabaseInitializer::new();
    let before = flatten(d.get_status());
    d.cancel();
    assert!(d.status.cancelled);
    assert_eq!(flatten(d.get_status()), before);
}
