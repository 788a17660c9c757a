use create_contact::handler::{begin, Step};
use create_contact::stage::{advance, Stage};

fn run(failures: &[bool]) -> Vec<Stage> {
    let mut stage = Stage::Start;
    let mut path = vec![stage];
    for failed in failures {
        stage = advance(stage, *failed);
        path.push(stage);
    }
    path
}

#[test]
fn successful_invocation_passes_every_stage() {
    assert_eq!(
        run(&[false; 6]),
        vec![
            Stage::Start,
            Stage::Decoding,
            Stage::Validating,
            Stage::Generating,
            Stage::Persisting,
            Stage::Responding,
            Stage::End,
        ]
    );
}

#[test]
fn failure_goes_straight_to_responding() {
    assert_eq!(advance(Stage::Decoding, true), Stage::Responding);
    assert_eq!(advance(Stage::Validating, true), Stage::Responding);
    assert_eq!(advance(Stage::Persisting, true), Stage::Responding);
    assert_eq!(advance(Stage::Persisting, false), Stage::Responding);
    assert_eq!(
        run(&[false, false, true, false]),
        vec![Stage::Start, Stage::Decoding, Stage::Validating, Stage::Responding, Stage::End]
    );
}

#[test]
fn end_is_final() {
    assert_eq!(advance(Stage::Responding, false), Stage::End);
    assert_eq!(advance(Stage::Responding, true), Stage::End);
    assert_eq!(advance(Stage::End, false), Stage::End);
    assert_eq!(advance(Stage::End, true), Stage::End);
}

#[test]
fn every_run_responds_once_and_ends() {
    for bits in 0u32..64 {
        let failures: Vec<bool> = (0..6).map(|i| bits & (1 << i) != 0).collect();
        let path = run(&failures);
        assert_eq!(path[6], Stage::End);
        assert_eq!(path.iter().filter(|s| **s == Stage::Responding).count(), 1);
    }
}

#[test]
fn steps_know_their_stage() {
    let accepted = begin(Some(br#"{"first_name": "john", "last_name": "doe"}"#));
    assert!(matches!(accepted, Step::Persist(_)));
    assert_eq!(accepted.stage(), Stage::Persisting);
    let rejected = begin(None);
    assert!(matches!(rejected, Step::Respond(_)));
    assert_eq!(rejected.stage(), Stage::Responding);
}
