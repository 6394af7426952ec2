//! Generation-list parsing and the rollback executor's sequencing.

use deploy_rs::command::CmdOutcome;
use deploy_rs::generations::last_generation_id;
use deploy_rs::rollback::DeactivateError;
use deploy_rs::rollback::RollbackAction;
use deploy_rs::rollback::RollbackEvent;
use deploy_rs::rollback::RollbackState;
use deploy_rs::rollback::rollback_init;
use deploy_rs::rollback::rollback_step;

const OK: CmdOutcome = CmdOutcome::Exited(Some(0));

#[test]
fn last_generation_id_takes_first_token_of_last_line() {
    let listing = "   1   2021-01-01 10:00:00\n   2   2021-06-01 12:30:00   (current)\n";
    assert_eq!(last_generation_id(listing), Some("2".to_string()));
}

#[test]
fn last_generation_id_single_line_without_newline() {
    assert_eq!(last_generation_id("10 now"), Some("10".to_string()));
}

#[test]
fn last_generation_id_handles_carriage_returns() {
    assert_eq!(last_generation_id("1 a\r\n25 b\r\n"), Some("25".to_string()));
}

#[test]
fn last_generation_id_empty_listing() {
    assert_eq!(last_generation_id(""), None);
    assert_eq!(last_generation_id("\n"), None);
}

#[test]
fn last_generation_id_blank_last_line() {
    assert_eq!(last_generation_id("1 a\n   \n"), None);
}

#[test]
fn rollback_starts_with_rollback_command() {
    let (state, action) = rollback_init();
    assert_eq!(state, RollbackState::RollingBack);
    assert!(matches!(action, RollbackAction::RunRollbackCmd));
}

#[test]
fn rollback_full_sequence_on_success() {
    let (s0, _) = rollback_init();
    let (s1, a1) = rollback_step(s0, RollbackEvent::RollbackCmdDone(OK));
    assert_eq!(s1, RollbackState::ListingGenerations);
    assert!(matches!(a1, RollbackAction::RunListGenerations));

    let listing = b"   1   2021-01-01\n   5   2022-02-02   (current)\n".to_vec();
    let (s2, a2) = rollback_step(s1, RollbackEvent::ListGenerationsDone(OK, listing));
    assert_eq!(s2, RollbackState::DeletingGeneration);
    match a2 {
        RollbackAction::RunDeleteGeneration(id) => assert_eq!(id, "5"),
        _ => panic!("expected a delete-generation action"),
    }

    let (s3, a3) = rollback_step(s2, RollbackEvent::DeleteGenerationDone(OK));
    assert_eq!(s3, RollbackState::Reactivating);
    assert!(matches!(a3, RollbackAction::RunReactivate));

    let (s4, a4) = rollback_step(s3, RollbackEvent::ReactivateDone(OK));
    assert_eq!(s4, RollbackState::Done(Ok(())));
    assert!(matches!(a4, RollbackAction::Stop));
}

#[test]
fn rollback_aborts_when_listing_fails() {
    let (s0, _) = rollback_init();
    let (s1, _) = rollback_step(s0, RollbackEvent::RollbackCmdDone(OK));
    let bad = CmdOutcome::Exited(Some(1));
    let (s2, a2) = rollback_step(s1, RollbackEvent::ListGenerationsDone(bad, Vec::new()));
    assert_eq!(s2, RollbackState::Done(Err(DeactivateError::ListGenExit(Some(1)))));
    assert!(matches!(a2, RollbackAction::Stop));
}

#[test]
fn rollback_spawn_failure_is_its_own_error() {
    let (s0, _) = rollback_init();
    let (s1, a1) = rollback_step(s0, RollbackEvent::RollbackCmdDone(CmdOutcome::SpawnFailed));
    assert_eq!(s1, RollbackState::Done(Err(DeactivateError::Rollback)));
    assert!(matches!(a1, RollbackAction::Stop));
}

#[test]
fn rollback_rejects_non_utf8_listing() {
    let (s0, _) = rollback_init();
    let (s1, _) = rollback_step(s0, RollbackEvent::RollbackCmdDone(OK));
    let bytes = vec![0xffu8, 0xfe, 0xfd];
    let (s2, _) = rollback_step(s1, RollbackEvent::ListGenerationsDone(OK, bytes));
    assert_eq!(s2, RollbackState::Done(Err(DeactivateError::DecodeListGenUtf8)));
}

#[test]
fn rollback_fails_on_empty_listing() {
    let (s0, _) = rollback_init();
    let (s1, _) = rollback_step(s0, RollbackEvent::RollbackCmdDone(OK));
    let (s2, _) = rollback_step(s1, RollbackEvent::ListGenerationsDone(OK, Vec::new()));
    assert_eq!(s2, RollbackState::Done(Err(DeactivateError::NoGenerations)));
}

#[test]
fn rollback_signal_killed_reactivation() {
    let (s0, _) = rollback_init();
    let (s1, _) = rollback_step(s0, RollbackEvent::RollbackCmdDone(OK));
    let listing = b"3 x\n".to_vec();
    let (s2, _) = rollback_step(s1, RollbackEvent::ListGenerationsDone(OK, listing));
    let (s3, _) = rollback_step(s2, RollbackEvent::DeleteGenerationDone(OK));
    let (s4, _) = rollback_step(s3, RollbackEvent::ReactivateDone(CmdOutcome::Exited(None)));
    assert_eq!(s4, RollbackState::Done(Err(DeactivateError::ReactivateExit(None))));
}

#[test]
fn rollback_delete_failure_stops_before_reactivation() {
    let (s0, _) = rollback_init();
    let (s1, _) = rollback_step(s0, RollbackEvent::RollbackCmdDone(OK));
    let listing = b"3 x\n".to_vec();
    let (s2, _) = rollback_step(s1, RollbackEvent::ListGenerationsDone(OK, listing));
    let bad = CmdOutcome::Exited(Some(2));
    let (s3, a3) = rollback_step(s2, RollbackEvent::DeleteGenerationDone(bad));
    assert_eq!(s3, RollbackState::Done(Err(DeactivateError::DeleteGenExit(Some(2)))));
    assert!(matches!(a3, RollbackAction::Stop));
}

#[test]
fn rollback_bad_exit_code_is_reported() {
    let (s0, _) = rollback_init();
    let (s1, _) = rollback_step(s0, RollbackEvent::RollbackCmdDone(CmdOutcome::Exited(Some(1))));
    assert_eq!(s1, RollbackState::Done(Err(DeactivateError::RollbackExit(Some(1)))));
}

#[test]
fn rollback_spawn_failures_are_stage_tagged() {
    let (s0, _) = rollback_init();
    let (s1, _) = rollback_step(s0, RollbackEvent::RollbackCmdDone(OK));
    let (listing_spawn, _) = rollback_step(
        s1,
        RollbackEvent::ListGenerationsDone(CmdOutcome::SpawnFailed, Vec::new()),
    );
    assert_eq!(listing_spawn, RollbackState::Done(Err(DeactivateError::ListGen)));

    let (s2, _) = rollback_step(s1, RollbackEvent::ListGenerationsDone(OK, b"3 x\n".to_vec()));
    let (delete_spawn, _) =
        rollback_step(s2, RollbackEvent::DeleteGenerationDone(CmdOutcome::SpawnFailed));
    assert_eq!(delete_spawn, RollbackState::Done(Err(DeactivateError::DeleteGen)));

    let (s3, _) = rollback_step(s2, RollbackEvent::DeleteGenerationDone(OK));
    let (reactivate_spawn, _) =
        rollback_step(s3, RollbackEvent::ReactivateDone(CmdOutcome::SpawnFailed));
    assert_eq!(reactivate_spawn, RollbackState::Done(Err(DeactivateError::Reactivate)));
}
