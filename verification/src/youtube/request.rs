//! The calls that the pages are made of.

use vstd::prelude::*;

verus! {

/// The home page.
pub const HOME: &'static str = "FEmusic_home";

/// The mix of the signed-in user.
pub const MY_MIX: &'static str = "RDMM";

/// The tracks that the signed-in user played last.
pub const LAST_PLAYED: &'static str = "FEmusic_last_played";

/// The overview of genres.
pub const CATEGORIES: &'static str = "FEmusic_moods_and_genres";

/// One genre.
pub const CATEGORY: &'static str = "FEmusic_moods_and_genres_category";

/// The client that the service is asked as.
#[derive(Clone, Copy, Debug, PartialEq, Eq, Structural)]
pub enum ClientKind {
    Music,
}

/// A call to the service.
pub enum Call {
    /// Run `endpoint` on an object with those members, as whoever is signed in.
    Execute { endpoint: &'static str, client: ClientKind, body: Vec<(String, String)> },
    /// The same, where `signed_out` says that nobody is signed in with an account.
    ExecuteWith {
        endpoint: &'static str,
        client: ClientKind,
        body: Vec<(String, String)>,
        signed_out: bool,
    },
    /// Browse a page of the library of the signed-in user.
    Library { page: &'static str },
}

/// A `Call` as a value.
#[verifier::ext_equal]
pub enum CallModel {
    Execute { endpoint: Seq<char>, client: ClientKind, body: Seq<(Seq<char>, Seq<char>)> },
    ExecuteWith {
        endpoint: Seq<char>,
        client: ClientKind,
        body: Seq<(Seq<char>, Seq<char>)>,
        signed_out: bool,
    },
    Library { page: Seq<char> },
}

pub open spec fn body_text(body: Seq<(String, String)>) -> Seq<(Seq<char>, Seq<char>)> {
    body.map_values(|member: (String, String)| (member.0@, member.1@))
}

impl View for Call {
    type V = CallModel;

    open spec fn view(&self) -> CallModel {
        match *self {
            Call::Execute { endpoint, client, body } => CallModel::Execute {
                endpoint: endpoint@,
                client,
                body: body_text(body@),
            },
            Call::ExecuteWith { endpoint, client, body, signed_out } => CallModel::ExecuteWith {
                endpoint: endpoint@,
                client,
                body: body_text(body@),
                signed_out,
            },
            Call::Library { page } => CallModel::Library { page: page@ },
        }
    }
}

/// A call that browses with those members, as the music client.
pub open spec fn browse_model(body: Seq<(Seq<char>, Seq<char>)>, oauth: bool) -> CallModel {
    CallModel::ExecuteWith {
        endpoint: "browse"@,
        client: ClientKind::Music,
        body,
        signed_out: !oauth,
    }
}

/// The call for the mix of the signed-in user.
pub open spec fn my_mix_model() -> CallModel {
    CallModel::Execute {
        endpoint: "next"@,
        client: ClientKind::Music,
        body: seq![("playlistId"@, MY_MIX@)],
    }
}

/// The call for the home page.
pub open spec fn home_model(oauth: bool) -> CallModel {
    browse_model(seq![("browseId"@, HOME@)], oauth)
}

/// The call for the page after one that named `token`.
pub open spec fn continuation_model(token: Seq<char>, oauth: bool) -> CallModel {
    browse_model(seq![("continuation"@, token)], oauth)
}

fn one(name: &str, value: &str) -> (body: Vec<(String, String)>)
    ensures
        body_text(body@) == seq![(name@, value@)],
        body@.len() == 1,
        body@[0].0@ == name@,
        body@[0].1@ == value@,
{
    let mut body: Vec<(String, String)> = Vec::new();
    body.push((name.to_owned(), value.to_owned()));
    body
}

fn browse(body: Vec<(String, String)>, oauth: bool) -> (call: Call)
    ensures
        call@ == browse_model(body_text(body@), oauth),
        call matches Call::ExecuteWith { endpoint, client, body: sent, signed_out } && endpoint@
            == "browse"@ && client == ClientKind::Music && signed_out == !oauth && sent == body,
{
    Call::ExecuteWith { endpoint: "browse", client: ClientKind::Music, body, signed_out: !oauth }
}

/// Asks for the mix of the signed-in user.
pub fn my_mix_call() -> (call: Call)
    ensures
        call@ == my_mix_model(),
        call matches Call::Execute { endpoint, client, body } && endpoint@ == "next"@ && client
            == ClientKind::Music && body@.len() == 1 && body@[0].0@ == "playlistId"@ && body@[0].1@
            == "RDMM"@,
{
    Call::Execute {
        endpoint: "next",
        client: ClientKind::Music,
        body: one("playlistId", MY_MIX),
    }
}

/// Asks for the tracks played last.
pub fn last_played_call() -> (call: Call)
    ensures
        call@ == (CallModel::Library { page: LAST_PLAYED@ }),
        call matches Call::Library { page } && page@ == "FEmusic_last_played"@,
{
    Call::Library { page: LAST_PLAYED }
}

/// The two calls that make a home page personal, the mix first: made only for a user who is
/// signed in with an account.
pub fn personal_calls(oauth: bool) -> (calls: Vec<Call>)
    ensures
        oauth ==> calls@.len() == 2 && calls@[0]@ == my_mix_model() && calls@[1]@ == (
        CallModel::Library { page: LAST_PLAYED@ }),
        !oauth ==> calls@.len() == 0,
{
    let mut calls: Vec<Call> = Vec::new();
    if oauth {
        calls.push(my_mix_call());
        calls.push(last_played_call());
    }
    calls
}

/// Asks for the home page.
pub fn home_call(oauth: bool) -> (call: Call)
    ensures
        call@ == home_model(oauth),
        call matches Call::ExecuteWith { endpoint, client, body, signed_out } && endpoint@
            == "browse"@ && client == ClientKind::Music && signed_out == !oauth && body@.len() == 1
            && body@[0].0@ == "browseId"@ && body@[0].1@ == "FEmusic_home"@,
{
    browse(one("browseId", HOME), oauth)
}

/// Asks for the page after one that named `token`.
pub fn continuation_call(token: &str, oauth: bool) -> (call: Call)
    ensures
        call@ == continuation_model(token@, oauth),
        call matches Call::ExecuteWith { endpoint, client, body, signed_out } && endpoint@
            == "browse"@ && client == ClientKind::Music && signed_out == !oauth && body@.len() == 1
            && body@[0].0@ == "continuation"@ && body@[0].1@ == token@,
{
    browse(one("continuation", token), oauth)
}

/// Asks for the overview of genres.
pub fn genres_call(oauth: bool) -> (call: Call)
    ensures
        call@ == browse_model(seq![("browseId"@, CATEGORIES@)], oauth),
        call matches Call::ExecuteWith { endpoint, client, body, signed_out } && endpoint@
            == "browse"@ && client == ClientKind::Music && signed_out == !oauth && body@.len() == 1
            && body@[0].0@ == "browseId"@ && body@[0].1@ == "FEmusic_moods_and_genres"@,
{
    browse(one("browseId", CATEGORIES), oauth)
}

/// Asks for one genre, by the parameters on its card.
pub fn genre_call(params: &str, oauth: bool) -> (call: Call)
    ensures
        call@ == browse_model(seq![("browseId"@, CATEGORY@), ("params"@, params@)], oauth),
        call matches Call::ExecuteWith { endpoint, client, body, signed_out } && endpoint@
            == "browse"@ && client == ClientKind::Music && signed_out == !oauth && body@.len() == 2
            && body@[0].0@ == "browseId"@ && body@[0].1@ == "FEmusic_moods_and_genres_category"@
            && body@[1].0@ == "params"@ && body@[1].1@ == params@,
{
    let mut body: Vec<(String, String)> = one("browseId", CATEGORY);
    let ghost before = body_text(body@);
    body.push(("params".to_owned(), params.to_owned()));
    assert(body_text(body@) =~= before.push(("params"@, params@)));
    browse(body, oauth)
}

} // verus!
