use rr_launcher::video::{VideoAction, VideoError, VideoEvent, VideoStaging};

#[test]
fn staging_comes_first_and_opening_loops() {
    let state = VideoStaging::start();
    assert_eq!(state, VideoStaging::Unstaged);
    assert_eq!(state.next_action(), VideoAction::Stage);
    assert_eq!(state.outcome(), None);
    let state = state.on_event(VideoEvent::Staged);
    assert_eq!(state, VideoStaging::Staged);
    assert_eq!(state.next_action(), VideoAction::Open { looping: true });
    assert_eq!(state.outcome(), None);
    let state = state.on_event(VideoEvent::Opened);
    assert_eq!(state, VideoStaging::Ready);
    assert_eq!(state.next_action(), VideoAction::Finish);
    assert_eq!(state.outcome(), Some(Ok(())));
}

#[test]
fn failed_staging_is_stage_failed() {
    let state = VideoStaging::start().on_event(VideoEvent::StageFailed);
    assert_eq!(state, VideoStaging::Failed(VideoError::StageFailed));
    assert_eq!(state.next_action(), VideoAction::Abandon(VideoError::StageFailed));
    assert_eq!(state.outcome(), Some(Err(VideoError::StageFailed)));
}

#[test]
fn rejected_artifact_is_open_failed() {
    let state = VideoStaging::start().on_event(VideoEvent::Staged).on_event(VideoEvent::OpenFailed);
    assert_eq!(state, VideoStaging::Failed(VideoError::OpenFailed));
    assert_eq!(state.next_action(), VideoAction::Abandon(VideoError::OpenFailed));
    assert_eq!(state.outcome(), Some(Err(VideoError::OpenFailed)));
}

#[test]
fn reports_out_of_turn_change_nothing() {
    let start = VideoStaging::start();
    assert_eq!(start.on_event(VideoEvent::Opened), start);
    assert_eq!(start.on_event(VideoEvent::OpenFailed), start);
    let staged = start.on_event(VideoEvent::Staged);
    assert_eq!(staged.on_event(VideoEvent::Staged), staged);
    assert_eq!(staged.on_event(VideoEvent::StageFailed), staged);
}

#[test]
fn ended_materialization_stays_ended() {
    let all = [
        VideoEvent::Staged,
        VideoEvent::StageFailed,
        VideoEvent::Opened,
        VideoEvent::OpenFailed,
    ];
    for ended in [
        VideoStaging::Ready,
        VideoStaging::Failed(VideoError::StageFailed),
        VideoStaging::Failed(VideoError::OpenFailed),
    ] {
        for event in all {
            assert_eq!(ended.on_event(event), ended);
        }
    }
}
