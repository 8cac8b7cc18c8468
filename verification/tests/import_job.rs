use std::collections::HashMap;
use weather_db::database_initializer::status::Status;
use weather_db::database_initializer::{Action, Event, ImportJob, ListedEntry};

struct Disk {
    files: HashMap<String, Vec<u8>>,
    listing: Option<Vec<(bool, Vec<u8>, String, Vec<u8>)>>,
}

struct Run {
    status: Status,
    steps: usize,
    requests: Vec<String>,
    progress: Vec<(String, u32, u32)>,
}

fn le32(n: u32) -> Vec<u8> {
    n.to_le_bytes().to_vec()
}

fn run_with(disk: &Disk, status: Status, cancel_after: Option<usize>) -> Run {
    let mut job = ImportJob::new();
    let mut status = status;
    let mut event = Event::Proceed;
    let mut steps = 0;
    let mut requests = Vec::new();
    let mut progress = Vec::new();
    let mut listed: Vec<Vec<u8>> = Vec::new();
    loop {
        if Some(steps) == cancel_after {
            status.cancelled = true;
        }
        assert!(job.accepts(&event));
        let action = job.advance(&mut status, event);
        steps += 1;
        assert!(steps < 100_000);
        if status.discrete_progress {
            assert!(status.current_progress < status.total_work || status.current_progress == 0);
            progress.push((status.current_stage.to_string(), status.current_progress, status.total_work));
        }
        event = match action {
            Action::Proceed => Event::Proceed,
            Action::Finished => break,
            Action::ReadFile(path) => {
                requests.push(path.clone());
                match disk.files.get(&path) {
                    Some(d) => Event::FileRead(d.clone()),
                    None => Event::IoFailed(format!("no file {}", path)),
                }
            }
            Action::ListDirectory(path) => {
                requests.push(path.clone());
                match &disk.listing {
                    Some(l) => {
                        listed = l.iter().map(|e| e.3.clone()).collect();
                        Event::DirectoryListed(
                            l.iter()
                                .map(|(f, n, d, _)| {
                                    Some(ListedEntry {
                                        is_file: *f,
                                        file_name: n.clone(),
                                        display: d.clone(),
                                    })
                                })
                                .collect(),
                        )
                    }
                    None => Event::IoFailed("no directory".to_string()),
                }
            }
            Action::ReadListedFile(i) => {
                requests.push(format!("listed {}", i));
                Event::FileRead(listed[i].clone())
            }
        };
    }
    // a finished job stays finished
    let again = job.advance(&mut status, Event::Proceed);
    assert!(matches!(again, Action::Finished));
    Run { status, steps, requests, progress }
}

fn good_disk() -> Disk {
    let mut files = HashMap::new();
    let mut regions = vec![0xAA];
    regions.extend(le32(2));
    regions.extend([1, 0, 2, 0, 3, 0, 4, 0]);
    files.insert("large_data/regions/regions.bin".to_string(), regions);
    let mut tps = vec![0xBB];
    tps.extend(le32(2));
    tps.extend(((2020u16 << 4) | 1).to_le_bytes());
    tps.extend(((2020u16 << 4) | 12).to_le_bytes());
    files.insert("large_data/timepoints/timepoints.bin".to_string(), tps);
    let mut w0 = vec![0xCC];
    w0.extend(le32(0));
    w0.extend([0; 6]);
    files.insert("large_data/weather_points/2020-01.bin".to_string(), w0);
    let mut w1 = vec![0xCC];
    w1.extend(le32(1));
    w1.extend([0; 6]);
    files.insert("large_data/weather_points/2020-12.bin".to_string(), w1);
    let mut deu = vec![0xDD, b'd', b'e', b'u'];
    deu.extend(le32(7));
    deu.extend(b"Germany");
    let listing = vec![
        (true, b"DEU.bin".to_vec(), "large_data/countries/DEU.bin".to_string(), deu),
        (true, b"notes.txt".to_vec(), "large_data/countries/notes.txt".to_string(), vec![]),
        (false, b"sub.bin".to_vec(), "large_data/countries/sub.bin".to_string(), vec![]),
        (true, b".bin".to_vec(), "large_data/countries/.bin".to_string(), vec![]),
    ];
    Disk { files, listing: Some(listing) }
}

#[test]
fn full_import_completes() {
    let run = run_with(&good_disk(), Status::new(), None);
    assert!(run.status.completed);
    assert!(run.status.error.is_none());
    assert_eq!(
        run.requests,
        vec![
            "large_data/regions/regions.bin",
            "large_data/timepoints/timepoints.bin",
            "large_data/weather_points/2020-01.bin",
            "large_data/weather_points/2020-12.bin",
            "large_data/countries/",
            "listed 0",
        ]
    );
    // the four stages take stage names one to four, in order
    assert_eq!(run.status.current_stage, "Processing time points");
    let stages: Vec<(String, u32, u32)> = run.progress.clone();
    assert!(stages.contains(&("Importing regions".to_string(), 1, 2)));
    assert!(stages.contains(&("Processing regions".to_string(), 1, 2)));
    assert!(stages.contains(&("Importing time points".to_string(), 1, 2)));
    assert!(stages.contains(&("Processing time points".to_string(), 0, 1)));
}

#[test]
fn regions_bad_header_fails() {
    let mut disk = good_disk();
    disk.files.insert("large_data/regions/regions.bin".to_string(), vec![0xAB, 0, 0, 0, 0]);
    let run = run_with(&disk, Status::new(), None);
    assert_eq!(run.status.error.as_deref(), Some("Regions File Invalid"));
    assert!(!run.status.completed);
}

#[test]
fn empty_regions_file_fails() {
    let mut disk = good_disk();
    disk.files.insert("large_data/regions/regions.bin".to_string(), vec![]);
    let run = run_with(&disk, Status::new(), None);
    assert_eq!(run.status.error.as_deref(), Some("Regions File Invalid"));
}

#[test]
fn truncated_regions_fail() {
    let mut disk = good_disk();
    let mut regions = vec![0xAA];
    regions.extend(le32(2));
    regions.extend([1, 0, 2, 0, 3, 0, 4]);
    disk.files.insert("large_data/regions/regions.bin".to_string(), regions);
    let run = run_with(&disk, Status::new(), None);
    assert_eq!(run.status.error.as_deref(), Some("failed to fill whole buffer"));
    assert_eq!(run.status.current_stage, "Importing regions");
    assert_eq!(run.status.current_progress, 0);
}

#[test]
fn missing_file_reports_io_error() {
    let mut disk = good_disk();
    disk.files.remove("large_data/timepoints/timepoints.bin");
    let run = run_with(&disk, Status::new(), None);
    assert_eq!(
        run.status.error.as_deref(),
        Some("no file large_data/timepoints/timepoints.bin")
    );
}

#[test]
fn timepoints_bad_header_fails() {
    let mut disk = good_disk();
    disk.files.insert("large_data/timepoints/timepoints.bin".to_string(), vec![0xAA]);
    let run = run_with(&disk, Status::new(), None);
    assert_eq!(run.status.error.as_deref(), Some("Timepoints File Invalid"));
}

#[test]
fn short_timepoint_reads_zero_padded() {
    // the second record has only its low byte: year 0, month 5
    let mut disk = good_disk();
    let mut tps = vec![0xBB];
    tps.extend(le32(2));
    tps.extend(((2020u16 << 4) | 1).to_le_bytes());
    tps.push(0x05);
    disk.files.insert("large_data/timepoints/timepoints.bin".to_string(), tps);
    let mut w = vec![0xCC];
    w.extend(le32(1));
    disk.files.insert("large_data/weather_points/0-05.bin".to_string(), w);
    let run = run_with(&disk, Status::new(), None);
    assert!(run.status.completed);
    assert!(run.requests.contains(&"large_data/weather_points/0-05.bin".to_string()));
}

#[test]
fn weather_wrong_id_fails() {
    let mut disk = good_disk();
    let mut w = vec![0xCC];
    w.extend(le32(5));
    disk.files.insert("large_data/weather_points/2020-12.bin".to_string(), w);
    let run = run_with(&disk, Status::new(), None);
    assert_eq!(run.status.error.as_deref(), Some("Weatherpoint File 2020-12: invalid ID"));
}

#[test]
fn weather_wrong_header_fails() {
    let mut disk = good_disk();
    disk.files.insert("large_data/weather_points/2020-01.bin".to_string(), vec![0xCD, 0, 0, 0, 0]);
    let run = run_with(&disk, Status::new(), None);
    assert_eq!(run.status.error.as_deref(), Some("Weatherpoint File 2020-01: invalid header"));
}

#[test]
fn country_wrong_code_fails() {
    let mut disk = good_disk();
    let listing = vec![(
        true,
        b"FRA.bin".to_vec(),
        "large_data/countries/FRA.bin".to_string(),
        vec![0xDD, b'd', b'e', b'u'],
    )];
    disk.listing = Some(listing);
    let run = run_with(&disk, Status::new(), None);
    assert_eq!(
        run.status.error.as_deref(),
        Some("Country File large_data/countries/FRA.bin: invalid ID")
    );
}

#[test]
fn country_wrong_header_fails() {
    let mut disk = good_disk();
    let listing = vec![(
        true,
        b"DEU.bin".to_vec(),
        "shown/DEU.bin".to_string(),
        vec![0xDE, b'd', b'e', b'u'],
    )];
    disk.listing = Some(listing);
    let run = run_with(&disk, Status::new(), None);
    assert_eq!(run.status.error.as_deref(), Some("Country File shown/DEU.bin: invalid header"));
}

#[test]
fn missing_country_directory_fails() {
    let mut disk = good_disk();
    disk.listing = None;
    let run = run_with(&disk, Status::new(), None);
    assert_eq!(run.status.error.as_deref(), Some("no directory"));
}

#[test]
fn cancelled_before_start_still_completes() {
    let mut status = Status::new();
    status.cancelled = true;
    let run = run_with(&good_disk(), status, None);
    assert!(run.status.completed);
    assert_eq!(run.status.current_stage, "Starting up");
    assert!(!run.status.discrete_progress);
    assert!(run.steps <= 8);
    assert_eq!(
        run.requests,
        vec![
            "large_data/regions/regions.bin",
            "large_data/timepoints/timepoints.bin",
            "large_data/countries/",
        ]
    );
}

#[test]
fn cancel_mid_import_finishes_quickly() {
    for at in 0..30 {
        let full = run_with(&good_disk(), Status::new(), None).steps;
        let run = run_with(&good_disk(), Status::new(), Some(at));
        assert!(run.status.completed);
        assert!(run.steps <= at + 7 || run.steps == full);
    }
}

#[test]
fn progress_stays_below_total() {
    let mut disk = good_disk();
    let mut regions = vec![0xAA];
    regions.extend(le32(5));
    regions.extend([0u8; 20]);
    disk.files.insert("large_data/regions/regions.bin".to_string(), regions);
    let run = run_with(&disk, Status::new(), None);
    assert!(run.status.completed);
    for (_, p, t) in run.progress {
        assert!(p < t || (p == 0 && t == 0));
    }
}

#[test]
fn stages_come_in_order() {
    let run = run_with(&good_disk(), Status::new(), None);
    let mut seen: Vec<String> = Vec::new();
    for (stage, _, _) in run.progress {
        if seen.last() != Some(&stage) {
            seen.push(stage);
        }
    }
    assert_eq!(
        seen,
        vec![
            "Importing regions",
            "Processing regions",
            "Importing time points",
            "Processing time points",
        ]
    );
}

#[test]
fn observations_move_forward() {
    let names = [
        "Starting up",
        "Importing regions",
        "Processing regions",
        "Importing time points",
        "Processing time points",
    ];
    for cancel in [None, Some(3), Some(12)] {
        let mut job = ImportJob::new();
        let mut status = Status::new();
        let mut event = Event::Proceed;
        let disk = good_disk();
        let mut last = 0;
        let mut listed: Vec<Vec<u8>> = Vec::new();
        for step in 0..1000 {
            if Some(step) == cancel {
                status.cancelled = true;
            }
            let was_cancelled = status.cancelled;
            let action = job.advance(&mut status, event);
            let idx = names.iter().position(|n| *n == status.current_stage).unwrap();
            assert!(idx >= last);
            last = idx;
            assert_eq!(status.cancelled, was_cancelled);
            event = match action {
                Action::Proceed => Event::Proceed,
                Action::Finished => break,
                Action::ReadFile(p) => Event::FileRead(disk.files[&p].clone()),
                Action::ListDirectory(_) => {
                    let l = disk.listing.clone().unwrap();
                    listed = l.iter().map(|e| e.3.clone()).collect();
                    Event::DirectoryListed(
                        l.into_iter()
                            .map(|(f, n, d, _)| Some(ListedEntry { is_file: f, file_name: n, display: d }))
                            .collect(),
                    )
                }
                Action::ReadListedFile(i) => Event::FileRead(listed[i].clone()),
            };
        }
        assert!(status.completed);
    }
}
