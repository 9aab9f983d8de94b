//! Signing in to YouTube Music: which files remember a session, and what each outcome on the way
//! to a session leads to.

use vstd::prelude::*;

verus! {

/// The identity of a user without an account.
pub const GUEST_ID: &'static str = "youtube-guest";

/// What the provider is called.
pub const NAME: &'static str = "YouTube Music";

/// The short name, which is also that of the directory that holds the files.
pub const SLUG: &'static str = "youtube";

/// A file of the provider's directory.
#[derive(Clone, Copy, Debug, PartialEq, Eq, Structural)]
pub enum CacheFile {
    /// The credentials, under the file name that all providers share.
    Credentials,
    /// The tokens, kept fresh while they are used.
    Tokens,
    /// Which playable track each track was resolved to.
    Resolved,
    /// What is known of the player.
    Player,
    /// Left over from signing in with cookies.
    Cookies,
    /// Left over from signing in with cookies.
    AuthUser,
    /// Left over from when a guest session was remembered by an empty file.
    GuestMarker,
}

impl CacheFile {
    pub open spec fn name_spec(self) -> Option<Seq<char>> {
        match self {
            CacheFile::Credentials => None,
            CacheFile::Tokens => Some("oauth.json"@),
            CacheFile::Resolved => Some("resolved.json"@),
            CacheFile::Player => Some("player.json"@),
            CacheFile::Cookies => Some("cookies.txt"@),
            CacheFile::AuthUser => Some("authuser.txt"@),
            CacheFile::GuestMarker => Some("guest"@),
        }
    }

    /// The name of the file in the directory; none for the file name that all providers share.
    pub fn name(&self) -> (name: Option<&'static str>)
        ensures
            self.name_spec() == (match name {
                Some(name) => Some(name@),
                None => None,
            }),
            name is None <==> *self == CacheFile::Credentials,
    {
        match self {
            CacheFile::Credentials => None,
            CacheFile::Tokens => Some("oauth.json"),
            CacheFile::Resolved => Some("resolved.json"),
            CacheFile::Player => Some("player.json"),
            CacheFile::Cookies => Some("cookies.txt"),
            CacheFile::AuthUser => Some("authuser.txt"),
            CacheFile::GuestMarker => Some("guest"),
        }
    }
}

/// A session as it is remembered between runs, with tokens of type `T`.
pub enum Saved<T> {
    OAuth { tokens: T },
    Guest,
}

/// What the credentials file holds.
pub enum Stored<T> {
    /// The file cannot be read, most often because there is none.
    Absent,
    /// The file does not hold a session.
    Garbled,
    Read(Saved<T>),
}

/// The session that the credentials file remembers, and the file to remove because it is of no
/// use.
pub struct Recalled<T> {
    pub saved: Option<Saved<T>>,
    pub remove: Option<CacheFile>,
}

/// What the file of fresh tokens holds.
pub enum Loaded<T> {
    Refreshed(T),
    Nothing,
    Unreadable,
}

/// How a user may sign in.
#[derive(Clone, Copy, Debug, PartialEq, Eq, Structural)]
pub enum SignIn {
    Default,
    Anonymous,
    /// By choosing a folder.
    Path,
}

/// What signing in takes.
#[derive(Clone, Copy, Debug, PartialEq, Eq, Structural)]
pub enum SignInPlan {
    /// Go through the stages from `Stage::Identify` on.
    Connect,
    /// Remember the guest, which may fail without harm, and open a guest session.
    Guest,
}

/// Where a restored session comes from.
pub enum Restore<T> {
    OAuth(T),
    Guest,
    Nothing,
}

/// Why signing in failed.
#[derive(Clone, Copy, Debug, PartialEq, Eq, Structural)]
pub enum SignInError {
    NotStarted,
    NotAuthorized,
    NotAccepted,
    NotStored,
    FolderPath,
}

impl SignInError {
    pub open spec fn message_spec(self) -> Seq<char> {
        match self {
            SignInError::NotStarted => "cannot start youtube authorization"@,
            SignInError::NotAuthorized => "youtube authorization failed"@,
            SignInError::NotAccepted => "youtube did not accept the authorized session"@,
            SignInError::NotStored => "cannot store youtube oauth credentials"@,
            SignInError::FolderPath => "youtube does not sign in with a folder path"@,
        }
    }

    pub fn message(&self) -> (text: &'static str)
        ensures
            text@ == self.message_spec(),
    {
        match self {
            SignInError::NotStarted => "cannot start youtube authorization",
            SignInError::NotAuthorized => "youtube authorization failed",
            SignInError::NotAccepted => "youtube did not accept the authorized session",
            SignInError::NotStored => "cannot store youtube oauth credentials",
            SignInError::FolderPath => "youtube does not sign in with a folder path",
        }
    }
}

/// The stages of signing in with an account. Each but the last two names the work to do next.
#[derive(Clone, Copy, Debug, PartialEq, Eq, Structural)]
pub enum Stage {
    /// Fetch the identity of the application.
    Identify,
    /// Request a device code.
    RequestCode,
    /// Show the code, and poll until the user has entered it.
    PollTokens,
    /// Open a client on the tokens and ask it for the profile.
    CheckProfile,
    /// Write the tokens to their own file.
    CacheTokens,
    /// Restrict that file to its owner.
    SecureTokens,
    /// Write the session to the credentials file.
    Store,
    SignedIn,
    Refused(SignInError),
}

impl Stage {
    /// The stage after this one, by whether its work succeeded.
    pub open spec fn next(self, succeeded: bool) -> Stage {
        match self {
            Stage::Identify => Stage::RequestCode,
            Stage::RequestCode => if succeeded {
                Stage::PollTokens
            } else {
                Stage::Refused(SignInError::NotStarted)
            },
            Stage::PollTokens => if succeeded {
                Stage::CheckProfile
            } else {
                Stage::Refused(SignInError::NotAuthorized)
            },
            Stage::CheckProfile => if succeeded {
                Stage::CacheTokens
            } else {
                Stage::Refused(SignInError::NotAccepted)
            },
            Stage::CacheTokens => Stage::SecureTokens,
            Stage::SecureTokens => Stage::Store,
            Stage::Store => if succeeded {
                Stage::SignedIn
            } else {
                Stage::Refused(SignInError::NotStored)
            },
            Stage::SignedIn => Stage::SignedIn,
            Stage::Refused(error) => Stage::Refused(error),
        }
    }
}

/// Who is signed in.
pub struct UserProfile {
    pub id: String,
    pub display_name: String,
}

/// What the user is shown while authorizing.
pub struct SignInPrompt {
    pub code: String,
    pub url: String,
}

/// The files that a client keeps up to date.
#[derive(Clone, Copy, Debug, PartialEq, Eq, Structural)]
pub struct ClientSetup {
    pub persist_tokens: Option<CacheFile>,
    pub cache_resolutions: Option<CacheFile>,
    pub cache_player: Option<CacheFile>,
}

/// What a session is made of, besides its client.
pub struct SessionSetup {
    pub profile: UserProfile,
    /// Who owns the playlists that the client lists as the user's own.
    pub owner: Option<String>,
    pub authenticated: bool,
    pub playcounts: bool,
}

/// What to do about the files of earlier releases.
#[derive(Clone, Copy, Debug, PartialEq, Eq, Structural)]
pub enum Migration {
    /// Write a guest session to the credentials file first.
    Adopt,
    /// Remove the leftovers.
    Clean,
    /// Leave everything as it is.
    Stop,
}

/// The files of a provider.
pub struct Files {
    pub credentials: CacheFile,
    pub tokens: CacheFile,
    pub resolved: CacheFile,
    pub player: CacheFile,
}

pub struct YouTubeProvider {
    credentials: CacheFile,
    tokens: CacheFile,
    resolved: CacheFile,
    player: CacheFile,
}

impl View for YouTubeProvider {
    type V = Files;

    closed spec fn view(&self) -> Files {
        Files {
            credentials: self.credentials,
            tokens: self.tokens,
            resolved: self.resolved,
            player: self.player,
        }
    }
}

pub open spec fn provider_files() -> Files {
    Files {
        credentials: CacheFile::Credentials,
        tokens: CacheFile::Tokens,
        resolved: CacheFile::Resolved,
        player: CacheFile::Player,
    }
}

/// The files that signing out removes.
pub open spec fn signed_out(files: Files) -> Seq<CacheFile> {
    seq![files.credentials, files.tokens]
}

/// The files that earlier releases left, and that a migration removes.
pub open spec fn leftover_files() -> Seq<CacheFile> {
    seq![CacheFile::Cookies, CacheFile::AuthUser, CacheFile::GuestMarker]
}

/// What the credentials file remembers. A file that holds no session is removed.
pub open spec fn recalled<T>(credentials: CacheFile, stored: Stored<T>) -> Recalled<T> {
    match stored {
        Stored::Absent => Recalled { saved: None, remove: None },
        Stored::Garbled => Recalled { saved: None, remove: Some(credentials) },
        Stored::Read(saved) => Recalled { saved: Some(saved), remove: None },
    }
}

pub open spec fn restoring<T>(saved: Option<Saved<T>>) -> Restore<T> {
    match saved {
        Some(Saved::OAuth { tokens }) => Restore::OAuth(tokens),
        Some(Saved::Guest) => Restore::Guest,
        None => Restore::Nothing,
    }
}

impl YouTubeProvider {
    pub fn new() -> (provider: Self)
        ensures
            provider@ == provider_files(),
            provider@.credentials == CacheFile::Credentials,
            provider@.tokens == CacheFile::Tokens,
            provider@.resolved == CacheFile::Resolved,
            provider@.player == CacheFile::Player,
    {
        YouTubeProvider {
            credentials: CacheFile::Credentials,
            tokens: CacheFile::Tokens,
            resolved: CacheFile::Resolved,
            player: CacheFile::Player,
        }
    }

    pub fn name(&self) -> (name: &'static str)
        ensures
            name@ == "YouTube Music"@,
    {
        NAME
    }

    pub fn slug(&self) -> (slug: &'static str)
        ensures
            slug@ == "youtube"@,
    {
        SLUG
    }

    pub fn sign_in_options(&self) -> (options: Vec<SignIn>)
        ensures
            options@ == seq![SignIn::Default, SignIn::Anonymous],
    {
        let mut options: Vec<SignIn> = Vec::new();
        options.push(SignIn::Default);
        options.push(SignIn::Anonymous);
        options
    }

    /// The file whose presence says that a session is remembered, and to which sessions are
    /// saved.
    pub fn stored(&self) -> (file: CacheFile)
        ensures
            file == self@.credentials,
    {
        self.credentials
    }

    /// The file of fresh tokens.
    pub fn tokens(&self) -> (file: CacheFile)
        ensures
            file == self@.tokens,
    {
        self.tokens
    }

    /// The session that is remembered.
    pub fn saved<T>(&self, stored: Stored<T>) -> (found: Recalled<T>)
        ensures
            found == recalled(self@.credentials, stored),
            stored matches Stored::Read(saved) ==> found.saved == Some(saved),
            !(stored is Read) ==> found.saved is None,
            stored is Garbled ==> found.remove == Some(self@.credentials),
            !(stored is Garbled) ==> found.remove is None,
    {
        match stored {
            Stored::Absent => Recalled { saved: None, remove: None },
            Stored::Garbled => Recalled { saved: None, remove: Some(self.credentials) },
            Stored::Read(saved) => Recalled { saved: Some(saved), remove: None },
        }
    }

    /// What the client of a user with an account keeps up to date.
    pub fn oauth_client(&self) -> (setup: ClientSetup)
        ensures
            setup == (ClientSetup {
                persist_tokens: Some(self@.tokens),
                cache_resolutions: Some(self@.resolved),
                cache_player: Some(self@.player),
            }),
    {
        ClientSetup {
            persist_tokens: Some(self.tokens),
            cache_resolutions: Some(self.resolved),
            cache_player: Some(self.player),
        }
    }

    /// What the client of a guest keeps up to date.
    pub fn guest_client(&self) -> (setup: ClientSetup)
        ensures
            setup == (ClientSetup {
                persist_tokens: None,
                cache_resolutions: None,
                cache_player: Some(self@.player),
            }),
    {
        ClientSetup {
            persist_tokens: None,
            cache_resolutions: None,
            cache_player: Some(self.player),
        }
    }

    /// The session of a user with an account, whose client owns what is theirs by name.
    pub fn authenticated_session(&self, profile: UserProfile) -> (session: SessionSetup)
        ensures
            session.profile == profile,
            session.owner is Some,
            session.owner->0@ == profile.display_name@,
            session.authenticated,
            !session.playcounts,
    {
        let owner: Option<String> = Some(profile.display_name.clone());
        SessionSetup { profile, owner, authenticated: true, playcounts: false }
    }

    /// The session of a guest.
    pub fn guest_session(&self) -> (session: SessionSetup)
        ensures
            session.profile.id@ == "youtube-guest"@,
            session.profile.display_name@ == "YouTube Music"@,
            session.owner is None,
            !session.authenticated,
            !session.playcounts,
    {
        SessionSetup {
            profile: UserProfile { id: GUEST_ID.to_owned(), display_name: NAME.to_owned() },
            owner: None,
            authenticated: false,
            playcounts: false,
        }
    }

    /// The prompt that shows a device code.
    pub fn prompt(&self, user_code: &String, verification_url: &String) -> (prompt: SignInPrompt)
        ensures
            prompt.code@ == user_code@,
            prompt.url@ == verification_url@,
    {
        SignInPrompt { code: user_code.clone(), url: verification_url.clone() }
    }

    /// The next stage of signing in with an account. The code, the tokens and the profile are
    /// needed, and so is a stored session; tokens that could not be cached are not missed.
    pub fn connect_oauth(&self, stage: Stage, succeeded: bool) -> (next: Stage)
        ensures
            next == stage.next(succeeded),
            stage == Stage::SignedIn || stage is Refused ==> next == stage,
            stage == Stage::Identify ==> next == Stage::RequestCode,
            stage == Stage::CacheTokens ==> next == Stage::SecureTokens,
            stage == Stage::SecureTokens ==> next == Stage::Store,
            stage == Stage::RequestCode ==> next == (if succeeded {
                Stage::PollTokens
            } else {
                Stage::Refused(SignInError::NotStarted)
            }),
            stage == Stage::PollTokens ==> next == (if succeeded {
                Stage::CheckProfile
            } else {
                Stage::Refused(SignInError::NotAuthorized)
            }),
            stage == Stage::CheckProfile ==> next == (if succeeded {
                Stage::CacheTokens
            } else {
                Stage::Refused(SignInError::NotAccepted)
            }),
            stage == Stage::Store ==> next == (if succeeded {
                Stage::SignedIn
            } else {
                Stage::Refused(SignInError::NotStored)
            }),
    {
        match stage {
            Stage::Identify => Stage::RequestCode,
            Stage::RequestCode => if succeeded {
                Stage::PollTokens
            } else {
                Stage::Refused(SignInError::NotStarted)
            },
            Stage::PollTokens => if succeeded {
                Stage::CheckProfile
            } else {
                Stage::Refused(SignInError::NotAuthorized)
            },
            Stage::CheckProfile => if succeeded {
                Stage::CacheTokens
            } else {
                Stage::Refused(SignInError::NotAccepted)
            },
            Stage::CacheTokens => Stage::SecureTokens,
            Stage::SecureTokens => Stage::Store,
            Stage::Store => if succeeded {
                Stage::SignedIn
            } else {
                Stage::Refused(SignInError::NotStored)
            },
            Stage::SignedIn => Stage::SignedIn,
            Stage::Refused(error) => Stage::Refused(error),
        }
    }

    /// The tokens to restore a session with: the fresh ones, where they can be had.
    pub fn fresh_tokens<T>(&self, loaded: Loaded<T>, tokens: T) -> (fresh: T)
        ensures
            fresh == (match loaded {
                Loaded::Refreshed(refreshed) => refreshed,
                _ => tokens,
            }),
    {
        match loaded {
            Loaded::Refreshed(refreshed) => refreshed,
            _ => tokens,
        }
    }

    /// The session of a user whose tokens were tried: none where the service knows no profile
    /// for them.
    pub fn restore_oauth(&self, profile: Option<UserProfile>) -> (session: Option<SessionSetup>)
        ensures
            session is Some <==> profile is Some,
            session is Some ==> {
                &&& session->0.profile == profile->0
                &&& session->0.owner is Some
                &&& session->0.owner->0@ == profile->0.display_name@
                &&& session->0.authenticated
                &&& !session->0.playcounts
            },
    {
        match profile {
            Some(profile) => Some(self.authenticated_session(profile)),
            None => None,
        }
    }

    /// What to write, and where, to remember a guest.
    pub fn store_guest<T>(&self) -> (write: (CacheFile, Saved<T>))
        ensures
            write.0 == self@.credentials,
            write.1 == Saved::<T>::Guest,
    {
        (self.credentials, Saved::Guest)
    }

    /// What to write, and where, to remember a user with an account.
    pub fn store_oauth<T>(&self, tokens: T) -> (write: (CacheFile, Saved<T>))
        ensures
            write.0 == self@.credentials,
            write.1 == (Saved::OAuth { tokens }),
    {
        (self.credentials, Saved::OAuth { tokens })
    }

    /// Where the session of the last run comes from.
    pub fn restore<T>(&self, saved: Option<Saved<T>>) -> (restore: Restore<T>)
        ensures
            restore == restoring(saved),
            restore is Nothing <==> saved is None,
            restore is Guest <==> saved == Some(Saved::<T>::Guest),
            saved is Some ==> (saved->0 matches Saved::OAuth { tokens } ==> restore
                == Restore::OAuth(tokens)),
    {
        match saved {
            Some(Saved::OAuth { tokens }) => Restore::OAuth(tokens),
            Some(Saved::Guest) => Restore::Guest,
            None => Restore::Nothing,
        }
    }

    /// What signing in takes, by the way that the user chose.
    pub fn sign_in(&self, method: SignIn) -> (plan: Result<SignInPlan, SignInError>)
        ensures
            plan == (match method {
                SignIn::Default => Ok::<SignInPlan, SignInError>(SignInPlan::Connect),
                SignIn::Anonymous => Ok(SignInPlan::Guest),
                SignIn::Path => Err(SignInError::FolderPath),
            }),
    {
        match method {
            SignIn::Default => Ok(SignInPlan::Connect),
            SignIn::Anonymous => Ok(SignInPlan::Guest),
            SignIn::Path => Err(SignInError::FolderPath),
        }
    }

    /// The files to remove on signing out.
    pub fn sign_out(&self) -> (files: Vec<CacheFile>)
        ensures
            files@ == signed_out(self@),
            files@ == seq![self@.credentials, self@.tokens],
    {
        let mut files: Vec<CacheFile> = Vec::new();
        files.push(self.credentials);
        files.push(self.tokens);
        files
    }
}

impl Default for YouTubeProvider {
    fn default() -> (provider: Self)
        ensures
            provider@ == provider_files(),
    {
        Self::new()
    }
}

pub open spec fn migrating(current: bool, guest: bool) -> Migration {
    if !current && guest {
        Migration::Adopt
    } else {
        Migration::Clean
    }
}

pub open spec fn after_adopting(saved: bool) -> Migration {
    if saved {
        Migration::Clean
    } else {
        Migration::Stop
    }
}

/// Decides how to bring the files of an earlier release up to date, by whether there are
/// credentials and whether there is an old guest marker.
pub fn migrate(current: bool, guest: bool) -> (migration: Migration)
    ensures
        migration == migrating(current, guest),
        migration == Migration::Adopt <==> guest && !current,
        migration == Migration::Clean <==> current || !guest,
{
    if !current && guest {
        Migration::Adopt
    } else {
        Migration::Clean
    }
}

/// Decides how to go on after a guest session was written to the credentials file, or was not.
pub fn adopted(saved: bool) -> (migration: Migration)
    ensures
        migration == after_adopting(saved),
        migration == Migration::Clean <==> saved,
        migration == Migration::Stop <==> !saved,
{
    if saved {
        Migration::Clean
    } else {
        Migration::Stop
    }
}

/// The files that earlier releases left.
pub fn leftovers() -> (files: Vec<CacheFile>)
    ensures
        files@ == leftover_files(),
        files@ == seq![CacheFile::Cookies, CacheFile::AuthUser, CacheFile::GuestMarker],
{
    let mut files: Vec<CacheFile> = Vec::new();
    files.push(CacheFile::Cookies);
    files.push(CacheFile::AuthUser);
    files.push(CacheFile::GuestMarker);
    files
}

// What holds over several of these.

/// The files on disk after those are removed.
pub open spec fn without(disk: Set<CacheFile>, files: Seq<CacheFile>) -> Set<CacheFile> {
    disk.difference(files.to_set())
}

/// The files on disk after a migration in which writing the credentials succeeds or not.
pub open spec fn migrated(disk: Set<CacheFile>, saved: bool) -> Set<CacheFile> {
    let first = migrating(
        disk.contains(CacheFile::Credentials),
        disk.contains(CacheFile::GuestMarker),
    );
    if first == Migration::Adopt {
        if after_adopting(saved) == Migration::Clean {
            without(disk.insert(CacheFile::Credentials), leftover_files())
        } else {
            disk
        }
    } else {
        without(disk, leftover_files())
    }
}

/// The leftovers are those of signing in with cookies and the guest marker.
proof fn lemma_leftovers()
    ensures
        forall|file: CacheFile| #[trigger]
            leftover_files().to_set().contains(file) <==> file == CacheFile::Cookies || file
                == CacheFile::AuthUser || file == CacheFile::GuestMarker,
{
    let left = leftover_files();
    assert(left[0] == CacheFile::Cookies && left[1] == CacheFile::AuthUser && left[2]
        == CacheFile::GuestMarker);
    assert forall|file: CacheFile| #[trigger] left.to_set().contains(file) <==> file
        == CacheFile::Cookies || file == CacheFile::AuthUser || file
        == CacheFile::GuestMarker by {
        assert(left.to_set().contains(file) <==> left.contains(file));
        assert(left.contains(left[0]) && left.contains(left[1]) && left.contains(left[2]));
    }
}

/// A migration never forgets a session: where credentials or a guest marker were there before,
/// one of them is there afterwards. It leaves the current files alone, and where the credentials
/// could be written it leaves nothing to migrate.
pub proof fn law_migration_keeps_the_session(disk: Set<CacheFile>, saved: bool)
    ensures
        disk.contains(CacheFile::Credentials) || disk.contains(CacheFile::GuestMarker) <==> migrated(
            disk,
            saved,
        ).contains(CacheFile::Credentials) || migrated(disk, saved).contains(
            CacheFile::GuestMarker,
        ),
        forall|file: CacheFile|
            file == CacheFile::Tokens || file == CacheFile::Resolved || file == CacheFile::Player
                ==> (disk.contains(file) <==> migrated(disk, saved).contains(file)),
        migrated(migrated(disk, true), saved) == migrated(disk, true),
        !migrated(disk, true).contains(CacheFile::Cookies),
        !migrated(disk, true).contains(CacheFile::AuthUser),
        !migrated(disk, true).contains(CacheFile::GuestMarker),
{
    lemma_leftovers();
    assert(migrated(migrated(disk, true), saved) =~= migrated(disk, true));
}

/// A migration adopts a guest exactly where there is a guest marker and no credentials: a session
/// that is remembered is never written over. It stops exactly where an adopted guest could not be
/// written, and leaves everything on disk then; otherwise no leftover stays, and nothing but an
/// adopted guest is new.
pub proof fn law_migration(disk: Set<CacheFile>, saved: bool)
    ensures
        migrating(
            disk.contains(CacheFile::Credentials),
            disk.contains(CacheFile::GuestMarker),
        ) == Migration::Adopt <==> disk.contains(CacheFile::GuestMarker) && !disk.contains(
            CacheFile::Credentials,
        ),
        migrating(
            disk.contains(CacheFile::Credentials),
            disk.contains(CacheFile::GuestMarker),
        ) != Migration::Stop,
        after_adopting(saved) == Migration::Stop <==> !saved,
        after_adopting(saved) == Migration::Clean <==> saved,
        disk.contains(CacheFile::GuestMarker) && !disk.contains(CacheFile::Credentials) && !saved
            ==> migrated(disk, saved) == disk,
        !(disk.contains(CacheFile::GuestMarker) && !disk.contains(CacheFile::Credentials)
            && !saved) ==> forall|file: CacheFile| #[trigger]
            migrated(disk, saved).contains(file) <==> file != CacheFile::Cookies && file
                != CacheFile::AuthUser && file != CacheFile::GuestMarker && (disk.contains(file)
                || (file == CacheFile::Credentials && disk.contains(CacheFile::GuestMarker))),
{
    lemma_leftovers();
}

/// After signing out nothing is remembered and no tokens are left, and the caches stay.
pub proof fn law_sign_out_forgets<T>(files: Files, disk: Set<CacheFile>)
    requires
        files == provider_files(),
    ensures
        !without(disk, signed_out(files)).contains(files.credentials),
        !without(disk, signed_out(files)).contains(files.tokens),
        forall|file: CacheFile|
            file != files.credentials && file != files.tokens ==> (#[trigger] disk.contains(file)
                <==> without(disk, signed_out(files)).contains(file)),
        restoring(recalled(files.credentials, Stored::<T>::Absent).saved) == Restore::<
            T,
        >::Nothing,
{
    let removed = signed_out(files);
    assert(removed[0] == files.credentials && removed[1] == files.tokens);
    assert forall|file: CacheFile| #[trigger] removed.to_set().contains(file) <==> file
        == files.credentials || file == files.tokens by {
        assert(removed.to_set().contains(file) <==> removed.contains(file));
        assert(removed.contains(removed[0]) && removed.contains(removed[1]));
    }
}

/// A session that was saved is restored as what it was, with its tokens; a file that holds no
/// session is removed and restores nothing.
pub proof fn law_saved_session_is_restored<T>(credentials: CacheFile, saved: Saved<T>)
    ensures
        restoring(recalled(credentials, Stored::Read(saved)).saved) == (match saved {
            Saved::OAuth { tokens } => Restore::OAuth(tokens),
            Saved::Guest => Restore::Guest,
        }),
        recalled(credentials, Stored::Read(saved)).remove is None,
        restoring(recalled(credentials, Stored::<T>::Garbled).saved) == Restore::<T>::Nothing,
        recalled(credentials, Stored::<T>::Garbled).remove == Some(credentials),
{
}

/// The stage after the works in front of it had those outcomes.
pub open spec fn reached(stage: Stage, outcomes: Seq<bool>) -> Stage
    decreases outcomes.len(),
{
    if outcomes.len() == 0 {
        stage
    } else {
        reached(stage, outcomes.drop_last()).next(outcomes.last())
    }
}

/// Signing in with an account succeeds exactly when the code is issued, the user authorizes, the
/// service accepts the session, and the session is stored; otherwise it fails for the first of
/// these that went wrong. Nothing else decides, and after the last work it is decided.
pub proof fn law_sign_in_is_decided(outcomes: Seq<bool>)
    requires
        outcomes.len() == 7,
    ensures
        reached(Stage::Identify, outcomes) == (if !outcomes[1] {
            Stage::Refused(SignInError::NotStarted)
        } else if !outcomes[2] {
            Stage::Refused(SignInError::NotAuthorized)
        } else if !outcomes[3] {
            Stage::Refused(SignInError::NotAccepted)
        } else if !outcomes[6] {
            Stage::Refused(SignInError::NotStored)
        } else {
            Stage::SignedIn
        }),
{
    reveal_with_fuel(reached, 8);
    let o6 = outcomes.drop_last();
    let o5 = o6.drop_last();
    let o4 = o5.drop_last();
    let o3 = o4.drop_last();
    let o2 = o3.drop_last();
    let o1 = o2.drop_last();
    assert(o1.drop_last().len() == 0);
    assert(outcomes.last() == outcomes[6] && o6.last() == outcomes[5] && o5.last() == outcomes[4]
        && o4.last() == outcomes[3] && o3.last() == outcomes[2] && o2.last() == outcomes[1]
        && o1.last() == outcomes[0]);
}

/// No session is stored, and no token written, before the service has accepted the tokens; and
/// what is decided stays decided.
pub proof fn law_nothing_is_written_early(stage: Stage, succeeded: bool)
    ensures
        stage.next(succeeded) == Stage::CacheTokens <==> stage == Stage::CheckProfile && succeeded,
        stage.next(succeeded) == Stage::SecureTokens <==> stage == Stage::CacheTokens,
        stage.next(succeeded) == Stage::Store <==> stage == Stage::SecureTokens,
        stage == Stage::SignedIn || stage is Refused ==> stage.next(succeeded) == stage,
{
}

/// Every file has a name of its own.
pub proof fn law_files_are_apart(a: CacheFile, b: CacheFile)
    requires
        a != b,
    ensures
        a.name_spec() != b.name_spec(),
{
    reveal_strlit("oauth.json");
    reveal_strlit("resolved.json");
    reveal_strlit("player.json");
    reveal_strlit("cookies.txt");
    reveal_strlit("authuser.txt");
    reveal_strlit("guest");
    assert("oauth.json"@.len() == 10);
    assert("resolved.json"@.len() == 13);
    assert("player.json"@.len() == 11);
    assert("cookies.txt"@.len() == 11);
    assert("authuser.txt"@.len() == 12);
    assert("guest"@.len() == 5);
    assert("player.json"@[0] == 'p');
    assert("cookies.txt"@[0] == 'c');
}

} // verus!
