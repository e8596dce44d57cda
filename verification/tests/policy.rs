use rr_launcher::decode::DecodeError;
use rr_launcher::policy::{reaction_to, Failure, Reaction};
use rr_launcher::resolve::AssetError;
use rr_launcher::state::{LoadError, SaveError};
use rr_launcher::video::VideoError;

#[test]
fn only_a_missing_asset_ends_the_process() {
    assert_eq!(reaction_to(Failure::Asset(AssetError::Missing)), Reaction::Abort);
    let others = [
        Failure::Asset(AssetError::Decode(DecodeError::Malformed)),
        Failure::Asset(AssetError::Decode(DecodeError::Truncated)),
        Failure::Asset(AssetError::TooLarge),
        Failure::Video(VideoError::StageFailed),
        Failure::Video(VideoError::OpenFailed),
        Failure::Load(LoadError::Missing),
        Failure::Load(LoadError::Corrupt),
        Failure::Save(SaveError::Io),
        Failure::Save(SaveError::Encode),
        Failure::Cleanup,
    ];
    for failure in others {
        assert_ne!(reaction_to(failure), Reaction::Abort, "{failure:?}");
    }
}

#[test]
fn undecodable_assets_and_video_failures_are_reported() {
    assert_eq!(
        reaction_to(Failure::Asset(AssetError::Decode(DecodeError::Malformed))),
        Reaction::Report
    );
    assert_eq!(
        reaction_to(Failure::Asset(AssetError::Decode(DecodeError::Truncated))),
        Reaction::Report
    );
    assert_eq!(reaction_to(Failure::Asset(AssetError::TooLarge)), Reaction::Report);
    assert_eq!(reaction_to(Failure::Video(VideoError::StageFailed)), Reaction::Report);
    assert_eq!(reaction_to(Failure::Video(VideoError::OpenFailed)), Reaction::Report);
}

#[test]
fn failed_load_falls_back_and_failed_save_is_reported() {
    assert_eq!(reaction_to(Failure::Load(LoadError::Missing)), Reaction::UseDefault);
    assert_eq!(reaction_to(Failure::Load(LoadError::Corrupt)), Reaction::UseDefault);
    assert_eq!(reaction_to(Failure::Save(SaveError::Io)), Reaction::Report);
    assert_eq!(reaction_to(Failure::Save(SaveError::Encode)), Reaction::Report);
}

#[test]
fn failed_cleanup_is_logged() {
    assert_eq!(reaction_to(Failure::Cleanup), Reaction::Log);
}
