use dotthefiles::dotfile::{DotFile, Error, ErrorKind, ErrorStage};
use dotthefiles::path::AbsPath;
use dotthefiles::report::{any_failed, bucket, merge_reports, Attempt, Report};

fn dotfile(id: u32, name: &str) -> DotFile {
    DotFile {
        id,
        name: name.to_string(),
        src: AbsPath::new("/src"),
        dst: AbsPath::new("/dst"),
    }
}

fn err(kind: ErrorKind, stage: ErrorStage, message: &str) -> Error {
    Error { kind, stage, message: message.to_string() }
}

#[test]
fn one_denied_of_three_goes_alone_to_the_child() {
    // Three attempts, one permission-denied: the child gets exactly that
    // one entry, and the merged reports cover all three ids exactly once.
    let attempts = vec![
        Attempt { dotfile: dotfile(1, "a.sh"), error: None },
        Attempt {
            dotfile: dotfile(2, "b.sh"),
            error: Some(err(ErrorKind::PermissionDenied, ErrorStage::HardLink, "denied")),
        },
        Attempt {
            dotfile: dotfile(3, "c.sh"),
            error: Some(err(ErrorKind::NotFound, ErrorStage::HardLink, "source file was not found")),
        },
    ];

    let (settled, denied) = bucket(attempts);

    assert_eq!(denied.len(), 1);
    assert_eq!(denied[0].id, 2);
    assert_eq!(denied[0].name, "b.sh");

    assert_eq!(settled.len(), 2);
    assert_eq!(settled[0].dotfile_id, 1);
    assert!(settled[0].is_ok());
    assert_eq!(settled[1].dotfile_id, 3);
    assert!(!settled[1].is_ok());

    // the child retried its one entry and reports back on it
    let child_reports = vec![Report { dotfile_id: 2, error: None }];
    let merged = merge_reports(settled, child_reports);

    assert_eq!(merged.len(), 3);
    let mut ids: Vec<u32> = merged.iter().map(|r| r.dotfile_id).collect();
    ids.sort_unstable();
    assert_eq!(ids, vec![1, 2, 3]);
}

#[test]
fn no_denied_attempts_leave_nothing_to_escalate() {
    let attempts = vec![
        Attempt { dotfile: dotfile(1, "a.sh"), error: None },
        Attempt { dotfile: dotfile(2, "b.sh"), error: None },
    ];

    let (settled, denied) = bucket(attempts);

    assert!(denied.is_empty());
    assert_eq!(settled.len(), 2);
    assert!(settled.iter().all(|r| r.is_ok()));
}

#[test]
fn merge_keeps_direct_reports_first() {
    let direct = vec![
        Report { dotfile_id: 1, error: None },
        Report { dotfile_id: 3, error: None },
    ];
    let escalated = vec![Report { dotfile_id: 2, error: None }];

    let merged = merge_reports(direct, escalated);

    let ids: Vec<u32> = merged.iter().map(|r| r.dotfile_id).collect();
    assert_eq!(ids, vec![1, 3, 2]);
}

#[test]
fn run_fails_exactly_when_a_report_carries_an_error() {
    let clean = vec![Report { dotfile_id: 1, error: None }];
    assert!(!any_failed(&clean));

    let failing = vec![
        Report { dotfile_id: 1, error: None },
        Report {
            dotfile_id: 2,
            error: Some(err(ErrorKind::Other, ErrorStage::HardLink, "unknown error")),
        },
    ];
    assert!(any_failed(&failing));

    let empty: Vec<Report> = Vec::new();
    assert!(!any_failed(&empty));
}

#[test]
fn report_is_ok_means_no_error() {
    assert!(Report { dotfile_id: 7, error: None }.is_ok());
    assert!(
        !Report {
            dotfile_id: 7,
            error: Some(err(ErrorKind::NotFound, ErrorStage::HardLink, "source file was not found")),
        }
        .is_ok()
    );
}
