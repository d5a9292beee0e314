//! The paths that the server answers, and with what.
use vstd::prelude::*;

verus! {

/// What the server has behind a path.
#[derive(Debug, Clone, Copy, PartialEq, Eq, Structural)]
pub enum Endpoint {
    /// The page that loads the client.
    MainPage,
    /// The websocket that the client opens.
    Socket,
    /// Files of a game version.
    GameData,
    /// The running games.
    StatusLobby,
    /// The game versions on offer.
    StatusVersion,
    /// The directory of static files.
    StaticFiles,
}

/// How an endpoint is mounted.
#[derive(Debug, Clone, Copy, PartialEq, Eq, Structural)]
pub enum Mount {
    /// A handler for GET requests of the path.
    Get,
    /// A directory, whose files are served below the path.
    Directory,
}

impl Endpoint {
    /// The path pattern under which the endpoint is mounted.
    pub open spec fn mounted_at(self) -> Seq<char> {
        match self {
            Endpoint::MainPage => "/"@,
            Endpoint::Socket => "/socket"@,
            Endpoint::GameData => "/gamedata/{*rest}"@,
            Endpoint::StatusLobby => "/status/lobby/"@,
            Endpoint::StatusVersion => "/status/version/"@,
            Endpoint::StaticFiles => "/static"@,
        }
    }

    /// The path pattern under which the endpoint is mounted. `{*rest}` stands
    /// for the rest of the path.
    pub fn path(self) -> (path: &'static str)
        ensures
            path@ == self.mounted_at(),
            self is MainPage ==> path@ == "/"@,
            self is Socket ==> path@ == "/socket"@,
            self is GameData ==> path@ == "/gamedata/{*rest}"@,
            self is StatusLobby ==> path@ == "/status/lobby/"@,
            self is StatusVersion ==> path@ == "/status/version/"@,
            self is StaticFiles ==> path@ == "/static"@,
    {
        match self {
            Endpoint::MainPage => "/",
            Endpoint::Socket => "/socket",
            Endpoint::GameData => "/gamedata/{*rest}",
            Endpoint::StatusLobby => "/status/lobby/",
            Endpoint::StatusVersion => "/status/version/",
            Endpoint::StaticFiles => "/static",
        }
    }

    /// How the endpoint is mounted: the static files as a directory, every other
    /// one for GET requests.
    pub fn mount(self) -> (mount: Mount)
        ensures
            mount == (if self is StaticFiles {
                Mount::Directory
            } else {
                Mount::Get
            }),
    {
        match self {
            Endpoint::StaticFiles => Mount::Directory,
            _ => Mount::Get,
        }
    }
}

/// All endpoints, in the order in which they are mounted.
pub fn endpoints() -> (all: Vec<Endpoint>)
    ensures
        all@ == seq![
            Endpoint::MainPage,
            Endpoint::Socket,
            Endpoint::GameData,
            Endpoint::StatusLobby,
            Endpoint::StatusVersion,
            Endpoint::StaticFiles,
        ],
        all@.no_duplicates(),
        forall|endpoint: Endpoint| #[trigger] all@.contains(endpoint),
{
    let all = vec![
        Endpoint::MainPage,
        Endpoint::Socket,
        Endpoint::GameData,
        Endpoint::StatusLobby,
        Endpoint::StatusVersion,
        Endpoint::StaticFiles,
    ];
    assert forall|endpoint: Endpoint| #[trigger] all@.contains(endpoint) by {
        match endpoint {
            Endpoint::MainPage => assert(all@[0] == endpoint),
            Endpoint::Socket => assert(all@[1] == endpoint),
            Endpoint::GameData => assert(all@[2] == endpoint),
            Endpoint::StatusLobby => assert(all@[3] == endpoint),
            Endpoint::StatusVersion => assert(all@[4] == endpoint),
            Endpoint::StaticFiles => assert(all@[5] == endpoint),
        }
    }
    all
}

/// Each endpoint is mounted under its path, and nothing but the static files as a
/// directory.
pub proof fn endpoints_are_mounted_under_their_paths(
    endpoint: Endpoint,
    path: &'static str,
    mount: Mount,
)
    requires
        call_ensures(Endpoint::path, (endpoint,), path),
        call_ensures(Endpoint::mount, (endpoint,), mount),
    ensures
        path@ == endpoint.mounted_at(),
        endpoint is MainPage <==> path@ == "/"@,
        endpoint is Socket <==> path@ == "/socket"@,
        endpoint is GameData <==> path@ == "/gamedata/{*rest}"@,
        endpoint is StatusLobby <==> path@ == "/status/lobby/"@,
        endpoint is StatusVersion <==> path@ == "/status/version/"@,
        endpoint is StaticFiles <==> path@ == "/static"@,
        mount is Directory <==> path@ == "/static"@,
{
    let expected = seq![
        Endpoint::MainPage,
        Endpoint::Socket,
        Endpoint::GameData,
        Endpoint::StatusLobby,
        Endpoint::StatusVersion,
        Endpoint::StaticFiles,
    ];
    assert forall|i: int| 0 <= i < 6 && expected[i] != endpoint implies (
    #[trigger] expected[i]).mounted_at() != path@ by {
        endpoints_have_their_own_paths(expected[i], endpoint);
    }
    assert(expected[0] is MainPage);
    assert(expected[1] is Socket);
    assert(expected[2] is GameData);
    assert(expected[3] is StatusLobby);
    assert(expected[4] is StatusVersion);
    assert(expected[5] is StaticFiles);
}

/// `endpoints` lists every endpoint exactly once, in the order of mounting: the
/// main page first and the static files last.
pub proof fn every_endpoint_is_listed_once(all: Vec<Endpoint>, endpoint: Endpoint)
    requires
        call_ensures(endpoints, (), all),
    ensures
        all@.contains(endpoint),
        all@.no_duplicates(),
        all@.len() == 6,
        all@[0] is MainPage,
        all@[1] is Socket,
        all@[2] is GameData,
        all@[3] is StatusLobby,
        all@[4] is StatusVersion,
        all@[5] is StaticFiles,
{
}

/// No two endpoints are mounted under one path.
pub proof fn endpoints_have_their_own_paths(a: Endpoint, b: Endpoint)
    requires
        a != b,
    ensures
        a.mounted_at() != b.mounted_at(),
{
    reveal_strlit("/");
    reveal_strlit("/socket");
    reveal_strlit("/gamedata/{*rest}");
    reveal_strlit("/status/lobby/");
    reveal_strlit("/status/version/");
    reveal_strlit("/static");
    if a.mounted_at() == b.mounted_at() {
        assert(a.mounted_at().len() == b.mounted_at().len());
        assert(a.mounted_at()[2] == b.mounted_at()[2]);
        assert("/socket"@[2] == 'o' && "/static"@[2] == 't');
    }
}

} // verus!
