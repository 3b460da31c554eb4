use iamdreamingof_generator::error::Error;
use iamdreamingof_generator::models::{Challenge, Challenges, Day, Days, Word, WordType};
use iamdreamingof_generator::run::{
    local_copy, RunAction, RunEvent, RunMachine, RunState, JSON_CONTENT_TYPE,
};

fn challenge(label: &str) -> Challenge {
    Challenge::new(
        vec![Word {
            word: format!("{}_word", label),
            word_type: WordType::Object,
        }],
        format!("images/{}.jpg", label),
        format!("https://cdn/images/{}.jpg", label),
        format!("https://cdn/images/{}.webp", label),
        format!("prompt for {}", label),
    )
}

fn day(date: &str, id: u32) -> Day {
    Day {
        date: date.to_string(),
        id,
        challenges: Challenges {
            easy: challenge("easy"),
            medium: challenge("medium"),
            hard: challenge("hard"),
            dreaming: challenge("dreaming"),
        },
    }
}

fn index(entries: &[(&str, u32)]) -> Days {
    let mut days = Days::new();
    for (date, id) in entries {
        days.add_day(date.to_string(), *id);
    }
    days
}

fn upload(key: &str, body: &str) -> RunAction {
    RunAction::Upload {
        key: key.to_string(),
        body: body.to_string(),
        content_type: "application/json".to_string(),
    }
}

fn violation() -> RunAction {
    RunAction::Fail(Error::Invariant(
        "unexpected event for the run state".to_string(),
    ))
}

/// Begins a run and feeds it the events; answers with the machine and all
/// actions, the first one included.
fn drive(
    target: Option<&str>,
    dry_run: bool,
    events: Vec<RunEvent>,
) -> (RunMachine, Vec<RunAction>) {
    let (mut machine, first) =
        RunMachine::begin(target.map(|d| d.to_string()), "/out".to_string(), dry_run);
    let mut actions = vec![first];
    for event in events {
        let (next, action) = machine.step(event);
        machine = next;
        actions.push(action);
    }
    (machine, actions)
}

#[test]
fn test_content_type() {
    assert_eq!(JSON_CONTENT_TYPE, "application/json");
    assert_eq!(local_copy("/out", "2099-01-01"), "/out/2099-01-01.json");
}

#[test]
fn test_run_for_a_new_past_date() {
    let (machine, actions) = drive(
        Some("2099-01-01"),
        false,
        vec![
            RunEvent::IndexLoaded(index(&[("2098-12-31", 41)])),
            RunEvent::DayGenerated(day("2099-01-01", 42)),
            RunEvent::Encoded("{day}".to_string()),
            RunEvent::Uploaded,
            RunEvent::LocalCopyWritten,
            RunEvent::Encoded("{index}".to_string()),
            RunEvent::Uploaded,
            RunEvent::Today("2031-07-04".to_string()),
        ],
    );
    assert_eq!(
        actions,
        vec![
            RunAction::LoadIndex,
            RunAction::GenerateDay {
                date: "2099-01-01".to_string(),
                id: 42
            },
            RunAction::EncodeDay(day("2099-01-01", 42)),
            upload("days/2099-01-01.json", "{day}"),
            RunAction::WriteLocalCopy {
                path: "/out/2099-01-01.json".to_string(),
                contents: "{day}".to_string()
            },
            RunAction::EncodeIndex(index(&[("2098-12-31", 41), ("2099-01-01", 42)])),
            upload("days.json", "{index}"),
            RunAction::AskToday,
            RunAction::Finish,
        ]
    );
    assert_eq!(machine.current_state(), &RunState::Finished);
}

#[test]
fn test_run_for_today_uploads_the_pointer_with_the_day_json() {
    let (machine, actions) = drive(
        None,
        false,
        vec![
            RunEvent::Today("2031-07-04".to_string()),
            RunEvent::IndexLoaded(Days::new()),
            RunEvent::DayGenerated(day("2031-07-04", 1)),
            RunEvent::Encoded("{day}".to_string()),
            RunEvent::Uploaded,
            RunEvent::LocalCopyWritten,
            RunEvent::Encoded("{index}".to_string()),
            RunEvent::Uploaded,
            RunEvent::Today("2031-07-04".to_string()),
            RunEvent::Uploaded,
        ],
    );
    assert_eq!(actions[0], RunAction::AskToday);
    assert_eq!(actions[1], RunAction::LoadIndex);
    assert_eq!(
        actions[2],
        RunAction::GenerateDay {
            date: "2031-07-04".to_string(),
            id: 1
        }
    );
    assert_eq!(actions[4], upload("days/2031-07-04.json", "{day}"));
    assert_eq!(actions[9], upload("today.json", "{day}"));
    assert_eq!(actions[10], RunAction::Finish);
    assert_eq!(machine.current_state(), &RunState::Finished);
}

#[test]
fn test_run_at_midnight_skips_the_pointer() {
    // The date changed between the start of the run and the check.
    let (_, actions) = drive(
        None,
        true,
        vec![
            RunEvent::Today("2031-07-04".to_string()),
            RunEvent::DayGenerated(day("2031-07-04", 1)),
            RunEvent::Encoded("{day}".to_string()),
            RunEvent::Uploaded,
            RunEvent::LocalCopyWritten,
            RunEvent::Encoded("{index}".to_string()),
            RunEvent::Uploaded,
            RunEvent::Today("2031-07-05".to_string()),
        ],
    );
    assert_eq!(actions.last().unwrap(), &RunAction::Finish);
    assert!(!actions.contains(&upload("today.json", "{day}")));
}

#[test]
fn test_run_for_a_present_date_reuses_the_id_and_skips_the_index() {
    let (machine, actions) = drive(
        Some("2099-01-01"),
        false,
        vec![
            RunEvent::IndexLoaded(index(&[("2099-01-01", 7), ("2099-01-02", 8)])),
            RunEvent::DayGenerated(day("2099-01-01", 7)),
            RunEvent::Encoded("{day}".to_string()),
            RunEvent::Uploaded,
            RunEvent::LocalCopyWritten,
            RunEvent::Today("2031-07-04".to_string()),
        ],
    );
    assert_eq!(
        actions,
        vec![
            RunAction::LoadIndex,
            RunAction::GenerateDay {
                date: "2099-01-01".to_string(),
                id: 7
            },
            RunAction::EncodeDay(day("2099-01-01", 7)),
            upload("days/2099-01-01.json", "{day}"),
            RunAction::WriteLocalCopy {
                path: "/out/2099-01-01.json".to_string(),
                contents: "{day}".to_string()
            },
            RunAction::AskToday,
            RunAction::Finish,
        ]
    );
    assert_eq!(machine.current_state(), &RunState::Finished);
}

#[test]
fn test_dry_run_starts_from_an_empty_index() {
    let (machine, actions) = drive(Some("2099-01-01"), true, vec![]);
    assert_eq!(
        actions,
        vec![RunAction::GenerateDay {
            date: "2099-01-01".to_string(),
            id: 1
        }]
    );
    assert_eq!(
        machine.current_state(),
        &RunState::Generating {
            date: "2099-01-01".to_string(),
            id: 1,
            index: Days::new()
        }
    );
}

#[test]
fn test_unreadable_index_counts_as_empty_in_a_run() {
    let (_, actions) = drive(
        Some("2099-01-01"),
        false,
        vec![RunEvent::Failed(Error::NotFound("days.json".to_string()))],
    );
    assert_eq!(
        actions[1],
        RunAction::GenerateDay {
            date: "2099-01-01".to_string(),
            id: 1
        }
    );
}

#[test]
fn test_failed_local_copy_does_not_fail_the_run() {
    let (_, actions) = drive(
        Some("2099-01-01"),
        true,
        vec![
            RunEvent::DayGenerated(day("2099-01-01", 1)),
            RunEvent::Encoded("{day}".to_string()),
            RunEvent::Uploaded,
            RunEvent::Failed(Error::Io("disk full".to_string())),
        ],
    );
    assert_eq!(
        actions.last().unwrap(),
        &RunAction::EncodeIndex(index(&[("2099-01-01", 1)]))
    );
}

#[test]
fn test_id_overflow_fails_the_run_before_generation() {
    let (machine, actions) = drive(
        Some("2099-01-01"),
        false,
        vec![RunEvent::IndexLoaded(index(&[("2000-01-01", u32::MAX)]))],
    );
    assert_eq!(
        actions,
        vec![RunAction::LoadIndex, RunAction::Fail(Error::Overflow)]
    );
    assert_eq!(machine.current_state(), &RunState::Failed);
}

#[test]
fn test_other_failures_end_the_run_with_their_error() {
    let steps: Vec<RunEvent> = vec![
        RunEvent::DayGenerated(day("2099-01-01", 1)),
        RunEvent::Encoded("{day}".to_string()),
        RunEvent::Uploaded,
        RunEvent::LocalCopyWritten,
        RunEvent::Encoded("{index}".to_string()),
        RunEvent::Uploaded,
    ];
    // Positions at which a failure is tolerated: the local copy.
    for cut in 0..=steps.len() {
        if cut == 3 {
            continue;
        }
        let mut events: Vec<RunEvent> = Vec::new();
        for step in steps.iter().take(cut) {
            events.push(match step {
                RunEvent::DayGenerated(_) => RunEvent::DayGenerated(day("2099-01-01", 1)),
                RunEvent::Encoded(t) => RunEvent::Encoded(t.clone()),
                RunEvent::Uploaded => RunEvent::Uploaded,
                _ => RunEvent::LocalCopyWritten,
            });
        }
        events.push(RunEvent::Failed(Error::S3("down".to_string())));
        let (machine, actions) = drive(Some("2099-01-01"), true, events);
        assert_eq!(
            actions.last().unwrap(),
            &RunAction::Fail(Error::S3("down".to_string())),
            "cut {}",
            cut
        );
        assert_eq!(machine.current_state(), &RunState::Failed);
    }
}

#[test]
fn test_unexpected_run_event_is_an_invariant_error() {
    let (machine, actions) = drive(Some("2099-01-01"), false, vec![RunEvent::Uploaded]);
    assert_eq!(actions.last().unwrap(), &violation());
    assert_eq!(machine.current_state(), &RunState::Failed);

    let (_, actions) = drive(
        Some("2099-01-01"),
        true,
        vec![
            RunEvent::Failed(Error::S3("x".to_string())),
            RunEvent::Uploaded,
        ],
    );
    assert_eq!(actions[2], violation());
}
