use webtiles_rs::http::{endpoints, Endpoint, Mount};
use webtiles_rs::server::{bind_address, default_base, listen_addr, SERVER_DIR};

#[test]
fn endpoints_are_mounted_at_their_paths() {
    let paths: Vec<&str> = endpoints().into_iter().map(|e| e.path()).collect();
    assert_eq!(
        paths,
        vec![
            "/",
            "/socket",
            "/gamedata/{*rest}",
            "/status/lobby/",
            "/status/version/",
            "/static",
        ]
    );
}

#[test]
fn every_endpoint_has_its_own_path() {
    let all: Vec<Endpoint> = endpoints();
    for a in &all {
        for b in &all {
            assert_eq!(a == b, a.path() == b.path());
        }
    }
}

#[test]
fn only_the_static_files_are_a_directory() {
    for endpoint in endpoints() {
        let expected = if endpoint == Endpoint::StaticFiles {
            Mount::Directory
        } else {
            Mount::Get
        };
        assert_eq!(endpoint.mount(), expected);
    }
}

#[test]
fn an_empty_bind_address_means_all_interfaces() {
    assert_eq!(bind_address(""), "0.0.0.0");
    assert_eq!(bind_address("127.0.0.1"), "127.0.0.1");
}

#[test]
fn listen_addr_joins_address_and_port() {
    assert_eq!(listen_addr("", 8080), "0.0.0.0:8080");
    assert_eq!(listen_addr("::1", 0), "::1:0");
    assert_eq!(listen_addr("localhost", 65535), "localhost:65535");
    assert_eq!(listen_addr("localhost", 10), "localhost:10");
}

#[test]
fn the_server_directory_lies_beside_the_checkout() {
    let exe = std::path::Path::new("/src/webserver-rs/target/release/server");
    let base = default_base(Some(exe.ancestors().collect()));
    assert_eq!(base, Some(std::path::Path::new("/src")));
    assert_eq!(
        base.map(|dir| dir.join(SERVER_DIR)),
        Some(std::path::PathBuf::from("/src/webserver"))
    );
}

#[test]
fn nothing_lies_above_the_topmost_directory() {
    for path in ["/usr/bin/webtiles-rs", "/bin/server", "/server", "/"] {
        let exe = std::path::Path::new(path);
        let base = default_base(Some(exe.ancestors().collect()));
        assert_eq!(
            base.map(|dir| dir.join(SERVER_DIR)),
            Some(std::path::PathBuf::from("/webserver"))
        );
    }
}

#[test]
fn an_unknown_program_path_gives_no_base() {
    assert_eq!(default_base::<String>(None), None);
    assert_eq!(default_base::<String>(Some(Vec::new())), None);
}
