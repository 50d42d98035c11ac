use threshold_ecdsa::errors::{Culprit, ErrorKind, Stage, StageError};
use threshold_ecdsa::pipeline::{Pipeline, Progress};
use threshold_ecdsa::verdict::verdict;

#[test]
fn rounds_are_admitted_in_order() {
    let mut progress = Progress::start(Pipeline::Signing);
    let rounds = [
        Stage::Sign1,
        Stage::Sign2,
        Stage::Sign3,
        Stage::Sign4,
        Stage::Sign5,
        Stage::Sign6,
        Stage::Sign7,
        Stage::Sign8,
        Stage::Sign9,
    ];
    for (k, stage) in rounds.iter().enumerate() {
        assert!(!progress.finished());
        assert!(progress.admits(*stage));
        assert_eq!(stage.number(), (k + 1) as u8);
        assert_eq!(stage.online(), k >= 7);
        if k + 1 < rounds.len() {
            assert_eq!(stage.successor(), Some(rounds[k + 1]));
            assert!(!progress.admits(rounds[k + 1]));
        }
        progress = progress.complete(*stage).unwrap();
    }
    assert!(progress.finished());
    assert_eq!(Stage::Sign9.successor(), None);
}

#[test]
fn a_round_out_of_order_is_refused() {
    let refused = |progress: Progress, stage: Stage| match progress.complete(stage) {
        Ok(_) => panic!("the round was admitted"),
        Err(e) => e,
    };
    let shape =
        |stage| StageError { stage, kind: ErrorKind::ProtocolShape, culprit: Culprit::Unknown };
    assert_eq!(refused(Progress::start(Pipeline::Signing), Stage::Sign2), shape(Stage::Sign2));
    assert_eq!(refused(Progress::start(Pipeline::Signing), Stage::KeyGen1), shape(Stage::KeyGen1));
    assert_eq!(refused(Progress::start(Pipeline::Tweak), Stage::Sign1), shape(Stage::Sign1));
    let first = Progress::start(Pipeline::KeyGeneration).complete(Stage::KeyGen1).unwrap();
    assert_eq!(refused(first, Stage::KeyGen1), shape(Stage::KeyGen1));
    let first = Progress::start(Pipeline::KeyGeneration).complete(Stage::KeyGen1).unwrap();
    assert_eq!(refused(first, Stage::KeyGen3), shape(Stage::KeyGen3));
    let done = Progress::start(Pipeline::Tweak).complete(Stage::Tweak).unwrap();
    assert!(done.finished());
    assert_eq!(refused(done, Stage::Tweak), shape(Stage::Tweak));
    assert_eq!(Stage::KeyGen4.pipeline(), Pipeline::KeyGeneration);
    assert_eq!(Stage::Reconstruct.pipeline(), Pipeline::Reconstruction);
    assert_eq!(Stage::KeyGen4.successor(), None);
}

#[test]
fn the_first_failed_check_is_blamed() {
    let parties = vec![4, 2, 7];
    let peers_of_second = vec![0, 2];
    let blamed = |party| StageError {
        stage: Stage::Sign3,
        kind: ErrorKind::Verification,
        culprit: Culprit::Party(party),
    };
    let decide = |accepted: Vec<bool>| {
        verdict(Stage::Sign3, ErrorKind::Verification, &parties, &peers_of_second, &accepted)
    };
    assert_eq!(decide(vec![true, true]), None);
    assert_eq!(decide(vec![false, true]), Some(blamed(4)));
    assert_eq!(decide(vec![true, false]), Some(blamed(7)));
    assert_eq!(decide(vec![false, false]), Some(blamed(4)));
    let everyone = vec![0, 1, 2];
    let unfit = verdict(
        Stage::KeyGen2,
        ErrorKind::MalformedInput,
        &vec![1, 2, 3],
        &everyone,
        &vec![true, false, false],
    );
    let expected = StageError {
        stage: Stage::KeyGen2,
        kind: ErrorKind::MalformedInput,
        culprit: Culprit::Party(2),
    };
    assert_eq!(unfit, Some(expected));
    assert!(expected.names_culprit());
    assert!(!StageError::rejected(Stage::Sign7).names_culprit());
    assert_eq!(StageError::blamed(Stage::Sign3, 7), blamed(7));
    assert_eq!(StageError::malformed_by(Stage::KeyGen2, 2), expected);
    assert_eq!(StageError::shape(Stage::Tweak).kind, ErrorKind::ProtocolShape);
    assert_eq!(StageError::malformed(Stage::Tweak).kind, ErrorKind::MalformedInput);
    assert_eq!(verdict(Stage::Sign4, ErrorKind::Verification, &vec![], &vec![], &vec![]), None);
}
