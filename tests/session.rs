use pibox::filebrowser::{entries_of_listing, FilebrowserClient, FilebrowserError, ResourceResponse};
use pibox::protocol::{ClientCapabilities, ClientMessage, FsEvent, LoadHint, OffloadTask, ServerMessage};
use pibox::server::AppState;
use pibox::session::{auth_failure_reply, auth_step, AuthStep, BackendCall, LoginRequest, Step};
use pibox::JwtAuth;
use tokio::sync::broadcast::error::TryRecvError;

fn state(max_transfers: u32) -> AppState {
    AppState::new(
        JwtAuth::new(&[11u8; 32], None, None),
        FilebrowserClient::new("http://127.0.0.1:8080"),
        max_transfers,
        5,
    )
}

fn caps(cores: u32, gpu: bool, ram: u64, ac: bool, thumbs: bool, search: bool) -> ClientCapabilities {
    ClientCapabilities {
        cpu_cores: cores,
        has_gpu: gpu,
        ram_free_mb: ram,
        on_ac_power: ac,
        can_generate_thumbnails: thumbs,
        can_search_locally: search,
        can_compress: false,
    }
}

#[test]
fn login_opens_session_with_verifiable_tokens() {
    let mut s = state(3);
    let step = auth_step(ClientMessage::Login { username: "u".to_string(), password: "p".to_string() });
    assert!(matches!(step, AuthStep::Accept(ref u) if u == "u"));
    let (hub, reply) = s.open_session("c1".to_string(), "u".to_string());
    assert!(hub.is_some());
    match reply {
        ServerMessage::AuthSuccess(t) => {
            assert!(!t.access_token.is_empty() && !t.refresh_token.is_empty());
            assert_eq!(t.expires_in, 900);
            assert_eq!(s.jwt().verify_access_token(&t.access_token).unwrap().sub, "u");
        }
        other => panic!("unexpected {:?}", other),
    }
}

#[test]
fn logins_with_empty_fields_are_not_accepted() {
    assert!(matches!(
        auth_step(ClientMessage::Login { username: String::new(), password: "p".to_string() }),
        AuthStep::Reject
    ));
    assert!(matches!(
        auth_step(ClientMessage::Login { username: "u".to_string(), password: String::new() }),
        AuthStep::Reject
    ));
    assert!(matches!(auth_step(ClientMessage::Ping), AuthStep::Ignore));
    match auth_failure_reply() {
        ServerMessage::AuthError { message } => assert_eq!(message, "Authentication required"),
        other => panic!("unexpected {:?}", other),
    }
}

#[test]
fn http_login_statuses() {
    let s = state(3);
    let bad = LoginRequest { username: "u".to_string(), password: String::new() };
    assert_eq!(s.http_login(&bad).unwrap_err(), 401);
    let good = LoginRequest { username: "u".to_string(), password: "p".to_string() };
    let resp = s.http_login(&good).unwrap();
    assert_eq!(resp.expires_in, 900);
    assert_eq!(s.jwt().verify_access_token(&resp.access_token).unwrap().sub, "u");
}

#[test]
fn listing_reply_carries_entries() {
    let s = state(3);
    let step = {
        let mut s = state(3);
        s.begin_request("c1", ClientMessage::ListDir { path: "/".to_string() })
    };
    assert!(matches!(step, Step::Call(BackendCall::ListDir { ref path }) if path == "/"));
    let listing = ResourceResponse {
        name: String::new(),
        path: "/".to_string(),
        is_dir: true,
        size: 0,
        modified: String::new(),
        mime_type: None,
        items: vec![ResourceResponse {
            name: "a".to_string(),
            path: "/a".to_string(),
            is_dir: false,
            size: 1,
            modified: "1970-01-01T00:00:00Z".to_string(),
            mime_type: None,
            items: vec![],
        }],
    };
    let entries = entries_of_listing(listing);
    match s.finish_list_dir("/".to_string(), Ok(entries)) {
        ServerMessage::DirListing { path, entries } => {
            assert_eq!(path, "/");
            assert_eq!(entries.len(), 1);
            assert_eq!(entries[0].name, "a");
            assert!(!entries[0].is_dir);
            assert_eq!(entries[0].size, 1);
            assert_eq!(entries[0].modified, 0);
        }
        other => panic!("unexpected {:?}", other),
    }
    match s.finish_list_dir("/x".to_string(), Err(FilebrowserError::NotFound("/x".to_string()))) {
        ServerMessage::OpError { op, path, message } => {
            assert_eq!((op.as_str(), path.as_str()), ("list", "/x"));
            assert_eq!(message, "Resource not found: /x");
        }
        other => panic!("unexpected {:?}", other),
    }
}

#[test]
fn mkdir_success_reaches_other_sessions() {
    let mut s = state(3);
    let (_hub_c1, _) = s.open_session("c1".to_string(), "u1".to_string());
    let (hub_c2, _) = s.open_session("c2".to_string(), "u2".to_string());
    let mut hub_c2 = hub_c2.unwrap();
    let step = s.begin_request("c1", ClientMessage::Mkdir { path: "/x".to_string() });
    let path = match step {
        Step::Call(BackendCall::Mkdir { path }) => path,
        other => panic!("unexpected {:?}", other),
    };
    match s.finish_mkdir(path, Ok(())) {
        ServerMessage::OpSuccess { op, path } => assert_eq!((op.as_str(), path.as_str()), ("mkdir", "/x")),
        other => panic!("unexpected {:?}", other),
    }
    match hub_c2.try_recv() {
        Ok(ServerMessage::FsEvent(FsEvent::Created { path, is_dir })) => {
            assert_eq!(path, "/x");
            assert!(is_dir);
        }
        other => panic!("unexpected {:?}", other),
    }
}

#[test]
fn failed_change_is_not_broadcast() {
    let mut s = state(3);
    let mut hub = s.event_tx.subscribe();
    match s.finish_delete("/y".to_string(), Err(FilebrowserError::PermissionDenied("/y".to_string()))) {
        ServerMessage::OpError { op, message, .. } => {
            assert_eq!(op, "delete");
            assert_eq!(message, "Permission denied: /y");
        }
        other => panic!("unexpected {:?}", other),
    }
    assert!(matches!(hub.try_recv(), Err(TryRecvError::Empty)));
    match s.finish_rename("/a".to_string(), "/b".to_string(), Ok(())) {
        ServerMessage::OpSuccess { op, path } => assert_eq!((op.as_str(), path.as_str()), ("rename", "/a")),
        other => panic!("unexpected {:?}", other),
    }
    assert!(matches!(
        hub.try_recv(),
        Ok(ServerMessage::FsEvent(FsEvent::Renamed { ref from, ref to })) if from == "/a" && to == "/b"
    ));
}

#[test]
fn second_download_is_refused_until_first_completes() {
    let mut s = state(1);
    let first = s.begin_request("c1", ClientMessage::Download { path: "/f".to_string() });
    assert!(matches!(first, Step::Call(BackendCall::Download { .. })));
    let second = s.begin_request("c2", ClientMessage::Download { path: "/g".to_string() });
    match second {
        Step::Reply(ServerMessage::OpError { op, path, message }) => {
            assert_eq!(op, "download");
            assert_eq!(path, "/g");
            assert_eq!(message, "Too many concurrent transfers");
        }
        other => panic!("unexpected {:?}", other),
    }
    assert_eq!(s.active_transfers(), 1);
    match s.finish_download("/f".to_string(), Ok(vec![1, 2, 3])) {
        ServerMessage::FileContent { path, content, mime_type } => {
            assert_eq!(path, "/f");
            assert_eq!(content, vec![1, 2, 3]);
            assert!(mime_type.is_none());
        }
        other => panic!("unexpected {:?}", other),
    }
    assert_eq!(s.active_transfers(), 0);
    let again = s.begin_request("c2", ClientMessage::Download { path: "/g".to_string() });
    assert!(matches!(again, Step::Call(BackendCall::Download { .. })));
}

#[test]
fn failed_upload_releases_its_slot() {
    let mut s = state(1);
    let step = s.begin_request("c1", ClientMessage::Upload { path: "/u".to_string(), content: vec![9] });
    assert!(matches!(step, Step::Call(BackendCall::Upload { ref content, .. }) if content == &vec![9u8]));
    assert!(!s.can_start_transfer());
    let reply = s.finish_upload("/u".to_string(), Err(FilebrowserError::ServerError("HTTP 500: /u".to_string())));
    assert!(matches!(reply, ServerMessage::OpError { ref message, .. } if message == "Server error: HTTP 500: /u"));
    assert!(s.can_start_transfer());
}

#[test]
fn transfer_counter_stays_in_bounds() {
    let mut s = state(2);
    assert!(s.start_transfer());
    assert!(s.start_transfer());
    assert!(!s.start_transfer());
    assert_eq!(s.active_transfers(), 2);
    s.end_transfer();
    s.end_transfer();
    s.end_transfer();
    assert_eq!(s.active_transfers(), 0);
    assert!(s.start_transfer());
    assert_eq!(s.max_concurrent_transfers(), 2);
}

#[test]
fn refresh_request_with_access_token_names_wrong_kind() {
    let mut s = state(3);
    let tokens = s.jwt().generate_tokens("u", None).unwrap();
    let step = s.begin_request("c1", ClientMessage::RefreshToken { refresh_token: tokens.access_token });
    match step {
        Step::Reply(ServerMessage::AuthError { message }) => {
            assert_eq!(message, "Invalid token type: expected Refresh, got Access")
        }
        other => panic!("unexpected {:?}", other),
    }
    let step = s.begin_request("c1", ClientMessage::RefreshToken { refresh_token: tokens.refresh_token });
    assert!(matches!(step, Step::Reply(ServerMessage::AuthSuccess(_))));
    assert!(matches!(s.begin_request("c1", ClientMessage::Ping), Step::Reply(ServerMessage::Pong)));
}

#[test]
fn offload_goes_to_a_qualified_session() {
    let mut s = state(3);
    let thumb = OffloadTask::Thumbnail { path: "/p.jpg".to_string(), source: vec![], width: 64, height: 64 };
    let search = OffloadTask::Search { query: "q".to_string(), paths: vec![] };
    s.open_session("weak".to_string(), "a".to_string());
    s.open_session("gpu".to_string(), "b".to_string());
    assert!(s.find_offload_candidate(&thumb).is_none());
    let step = s.begin_request("weak", ClientMessage::Capabilities(caps(8, true, 400, true, true, true)));
    assert!(matches!(step, Step::Silent));
    s.update_client_capabilities("gpu", caps(2, true, 800, true, true, false));
    s.update_client_capabilities("ghost", caps(8, true, 800, true, true, true));
    assert_eq!(s.find_offload_candidate(&thumb).unwrap().id, "gpu");
    assert!(s.find_offload_candidate(&search).is_none());
    s.update_client_capabilities("weak", caps(4, false, 600, true, false, true));
    assert_eq!(s.find_offload_candidate(&search).unwrap().id, "weak");
    s.unregister_client("gpu");
    assert!(s.find_offload_candidate(&thumb).is_none());
    s.update_client_capabilities("weak", caps(4, false, 600, false, false, true));
    assert!(s.find_offload_candidate(&search).is_none());
}

#[test]
fn full_subscriber_does_not_block_others() {
    let mut s = state(3);
    let mut slow = s.event_tx.subscribe();
    let mut fast = s.event_tx.subscribe();
    let mut seen = 0u64;
    for i in 0..150u32 {
        s.record_load(i, 0);
        match fast.try_recv() {
            Ok(ServerMessage::Load(l)) => {
                assert_eq!(l.cpu_hundredths, i);
                seen += 1;
            }
            other => panic!("unexpected {:?}", other),
        }
    }
    assert_eq!(seen, 150);
    assert!(matches!(slow.try_recv(), Err(TryRecvError::Lagged(_))));
    // The hub keeps the last 32 messages: the slow subscriber resumes at
    // message 150 - 32.
    match slow.try_recv() {
        Ok(ServerMessage::Load(l)) => assert_eq!(l.cpu_hundredths, 118),
        other => panic!("unexpected {:?}", other),
    }
    assert_eq!(s.load.cpu_hundredths, 149);
}

#[test]
fn critical_load_report_reaches_subscribers() {
    let mut s = state(3);
    let mut hub = s.event_tx.subscribe();
    s.record_load(9600, 40 * 1024 * 1024);
    match hub.try_recv() {
        Ok(ServerMessage::Load(l)) => {
            assert_eq!(l.cpu_hundredths, 9600);
            assert_eq!(l.ram_free_mb, 40);
            assert!(l.io_busy);
            assert_eq!(
                l.hints,
                vec![
                    LoadHint::ThrottleTransfers,
                    LoadHint::GenerateThumbnailsLocally,
                    LoadHint::SearchLocally,
                    LoadHint::Recovering
                ]
            );
        }
        other => panic!("unexpected {:?}", other),
    }
}
