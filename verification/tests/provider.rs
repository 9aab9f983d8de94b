use music::youtube::provider::{
    adopted, leftovers, migrate, CacheFile, ClientSetup, Loaded, Migration, Restore, Saved, SignIn,
    SignInError, SignInPlan, Stage, Stored, UserProfile, YouTubeProvider,
};

fn profile() -> UserProfile {
    UserProfile { id: "id".to_string(), display_name: "Ada".to_string() }
}

#[test]
fn files_have_their_names() {
    assert_eq!(CacheFile::Credentials.name(), None);
    assert_eq!(CacheFile::Tokens.name(), Some("oauth.json"));
    assert_eq!(CacheFile::Resolved.name(), Some("resolved.json"));
    assert_eq!(CacheFile::Player.name(), Some("player.json"));
    assert_eq!(CacheFile::Cookies.name(), Some("cookies.txt"));
    assert_eq!(CacheFile::AuthUser.name(), Some("authuser.txt"));
    assert_eq!(CacheFile::GuestMarker.name(), Some("guest"));
}

#[test]
fn the_provider_introduces_itself() {
    let provider = YouTubeProvider::default();
    assert_eq!(provider.name(), "YouTube Music");
    assert_eq!(provider.slug(), "youtube");
    assert_eq!(provider.sign_in_options(), [SignIn::Default, SignIn::Anonymous]);
    assert_eq!(provider.stored(), CacheFile::Credentials);
    assert_eq!(provider.tokens(), CacheFile::Tokens);
}

#[test]
fn clients_keep_their_files() {
    let provider = YouTubeProvider::new();
    assert_eq!(
        provider.oauth_client(),
        ClientSetup {
            persist_tokens: Some(CacheFile::Tokens),
            cache_resolutions: Some(CacheFile::Resolved),
            cache_player: Some(CacheFile::Player),
        }
    );
    assert_eq!(
        provider.guest_client(),
        ClientSetup {
            persist_tokens: None,
            cache_resolutions: None,
            cache_player: Some(CacheFile::Player),
        }
    );
}

#[test]
fn sessions_say_who_is_signed_in() {
    let provider = YouTubeProvider::new();
    let session = provider.authenticated_session(profile());
    assert_eq!(session.profile.id, "id");
    assert_eq!(session.profile.display_name, "Ada");
    assert_eq!(session.owner.as_deref(), Some("Ada"));
    assert!(session.authenticated);
    assert!(!session.playcounts);
    let guest = provider.guest_session();
    assert_eq!(guest.profile.id, "youtube-guest");
    assert_eq!(guest.profile.display_name, "YouTube Music");
    assert_eq!(guest.owner, None);
    assert!(!guest.authenticated);
    assert!(!guest.playcounts);
}

#[test]
fn a_saved_session_is_restored() {
    let provider = YouTubeProvider::new();
    let (file, saved) = provider.store_oauth(5);
    assert_eq!(file, CacheFile::Credentials);
    let found = provider.saved(Stored::Read(saved));
    assert_eq!(found.remove, None);
    assert!(matches!(provider.restore(found.saved), Restore::OAuth(5)));
    let (file, saved) = provider.store_guest::<u32>();
    assert_eq!(file, CacheFile::Credentials);
    assert!(matches!(saved, Saved::Guest));
    let found = provider.saved(Stored::Read(saved));
    assert!(matches!(provider.restore(found.saved), Restore::Guest));
}

#[test]
fn useless_credentials_are_removed() {
    let provider = YouTubeProvider::new();
    let garbled = provider.saved::<u32>(Stored::Garbled);
    assert_eq!(garbled.remove, Some(CacheFile::Credentials));
    assert!(matches!(provider.restore(garbled.saved), Restore::Nothing));
    let absent = provider.saved::<u32>(Stored::Absent);
    assert_eq!(absent.remove, None);
    assert!(matches!(provider.restore(absent.saved), Restore::Nothing));
}

#[test]
fn fresh_tokens_are_preferred() {
    let provider = YouTubeProvider::new();
    assert_eq!(provider.fresh_tokens(Loaded::Refreshed(2), 1), 2);
    assert_eq!(provider.fresh_tokens(Loaded::Nothing, 1), 1);
    assert_eq!(provider.fresh_tokens(Loaded::Unreadable, 1), 1);
}

#[test]
fn a_session_is_restored_for_a_known_profile_only() {
    let provider = YouTubeProvider::new();
    let session = provider.restore_oauth(Some(profile())).unwrap();
    assert!(session.authenticated);
    assert_eq!(session.owner.as_deref(), Some("Ada"));
    assert!(provider.restore_oauth(None).is_none());
}

#[test]
fn the_way_to_sign_in_is_chosen() {
    let provider = YouTubeProvider::new();
    assert_eq!(provider.sign_in(SignIn::Default), Ok(SignInPlan::Connect));
    assert_eq!(provider.sign_in(SignIn::Anonymous), Ok(SignInPlan::Guest));
    assert_eq!(provider.sign_in(SignIn::Path), Err(SignInError::FolderPath));
}

fn run(outcomes: [bool; 7]) -> Stage {
    let provider = YouTubeProvider::new();
    let mut stage = Stage::Identify;
    for succeeded in outcomes {
        stage = provider.connect_oauth(stage, succeeded);
    }
    stage
}

#[test]
fn signing_in_goes_through_its_stages() {
    let provider = YouTubeProvider::new();
    let expected = [
        Stage::RequestCode,
        Stage::PollTokens,
        Stage::CheckProfile,
        Stage::CacheTokens,
        Stage::SecureTokens,
        Stage::Store,
        Stage::SignedIn,
        Stage::SignedIn,
    ];
    let mut stage = Stage::Identify;
    for next in expected {
        stage = provider.connect_oauth(stage, true);
        assert_eq!(stage, next);
    }
}

#[test]
fn signing_in_fails_for_the_first_thing_that_went_wrong() {
    assert_eq!(run([true, false, true, true, true, true, true]), Stage::Refused(SignInError::NotStarted));
    assert_eq!(run([true, true, false, false, true, true, true]), Stage::Refused(SignInError::NotAuthorized));
    assert_eq!(run([true, true, true, false, true, true, true]), Stage::Refused(SignInError::NotAccepted));
    assert_eq!(run([true, true, true, true, true, true, false]), Stage::Refused(SignInError::NotStored));
    assert_eq!(run([false, true, true, true, false, false, true]), Stage::SignedIn);
}

#[test]
fn sign_in_errors_say_what_happened() {
    assert_eq!(SignInError::NotStarted.message(), "cannot start youtube authorization");
    assert_eq!(SignInError::NotAuthorized.message(), "youtube authorization failed");
    assert_eq!(
        SignInError::NotAccepted.message(),
        "youtube did not accept the authorized session"
    );
    assert_eq!(SignInError::NotStored.message(), "cannot store youtube oauth credentials");
    assert_eq!(
        SignInError::FolderPath.message(),
        "youtube does not sign in with a folder path"
    );
}

#[test]
fn the_prompt_shows_the_code() {
    let prompt = YouTubeProvider::new().prompt(&"AB-12".to_string(), &"https://example".to_string());
    assert_eq!(prompt.code, "AB-12");
    assert_eq!(prompt.url, "https://example");
}

#[test]
fn signing_out_forgets_the_session() {
    assert_eq!(
        YouTubeProvider::new().sign_out(),
        [CacheFile::Credentials, CacheFile::Tokens]
    );
}

#[test]
fn an_old_guest_marker_is_adopted_before_it_goes() {
    assert_eq!(migrate(false, true), Migration::Adopt);
    assert_eq!(adopted(true), Migration::Clean);
    assert_eq!(adopted(false), Migration::Stop);
    assert_eq!(migrate(true, true), Migration::Clean);
    assert_eq!(migrate(true, false), Migration::Clean);
    assert_eq!(migrate(false, false), Migration::Clean);
    assert_eq!(
        leftovers(),
        [CacheFile::Cookies, CacheFile::AuthUser, CacheFile::GuestMarker]
    );
}
