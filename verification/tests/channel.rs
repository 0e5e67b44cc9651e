use taiga::client::{daemon_subcommand, ClientAction, ClientError, ClientEvent, ClientState, GRACE_MILLIS};
use taiga::config::Config;
use taiga::ipc::{get_socket_path, join, socket_path_in, ChannelKind, FRAME_CAPACITY};

#[test]
fn pipe_platforms_use_the_fixed_identifier() {
    assert_eq!(socket_path_in(ChannelKind::NamespacedPipe, Some("/run/user/1000"), "/home/a/.cache"), r"\\.\pipe\taiga-daemon");
    assert_eq!(get_socket_path(ChannelKind::NamespacedPipe), Some(r"\\.\pipe\taiga-daemon".to_string()));
}

#[test]
fn socket_platforms_prefer_the_runtime_directory() {
    assert_eq!(
        socket_path_in(ChannelKind::FilesystemSocket, Some("/run/user/1000"), "/home/a/.cache"),
        "/run/user/1000/taiga.sock"
    );
    assert_eq!(socket_path_in(ChannelKind::FilesystemSocket, None, "/home/a/.cache"), "/home/a/.cache/taiga.sock");
    assert_eq!(socket_path_in(ChannelKind::FilesystemSocket, Some("/run/user/1000/"), "/c"), "/run/user/1000/taiga.sock");
}

#[test]
fn join_puts_one_separator() {
    assert_eq!(join("/a", "b"), "/a/b");
    assert_eq!(join("/a/", "b"), "/a/b");
    assert_eq!(join("", "b"), "b");
    assert_eq!(join("/", "b"), "/b");
    assert_eq!(join("/d\u{e9}j\u{e0}", "b"), "/d\u{e9}j\u{e0}/b");
}

#[test]
fn socket_path_on_this_machine_is_stable() {
    let first = get_socket_path(ChannelKind::FilesystemSocket);
    let second = get_socket_path(ChannelKind::FilesystemSocket);
    assert_eq!(first, second);
    if let Some(path) = first {
        assert!(path.ends_with("taiga.sock"));
        assert!(path.len() > "taiga.sock".len());
    }
}

#[test]
fn stale_artifacts_are_removed_only_where_they_can_exist() {
    assert!(ChannelKind::FilesystemSocket.must_remove_stale(true));
    assert!(!ChannelKind::FilesystemSocket.must_remove_stale(false));
    assert!(!ChannelKind::NamespacedPipe.must_remove_stale(true));
    assert!(!ChannelKind::NamespacedPipe.must_remove_stale(false));
}

#[test]
fn frame_capacity() {
    assert_eq!(FRAME_CAPACITY, 1024);
}

#[test]
fn config_in_a_directory() {
    let config = Config::in_directory(Some("/home/a/taiginator".to_string()));
    assert_eq!(config.data_directory, "/home/a/taiginator");
    assert_eq!(config.task_filename, "taiginator.md");
    let fallback = Config::in_directory(None);
    assert_eq!(fallback.data_directory, ".");
    assert_eq!(fallback.task_filename, "taiginator.md");
}

#[test]
fn default_config_names_the_task_file() {
    let config = Config::default();
    assert_eq!(config.task_filename, "taiginator.md");
    assert!(config.data_directory == "." || config.data_directory.ends_with("taiginator"));
}

#[test]
fn client_reaches_a_running_daemon() {
    let (state, action) = ClientState::begin();
    assert_eq!((state, action), (ClientState::FirstConnect, ClientAction::Connect));
    let (state, action) = state.step(ClientEvent::Connected);
    assert_eq!((state, action), (ClientState::Sending, ClientAction::Send));
    let (state, action) = state.step(ClientEvent::Sent);
    assert_eq!((state, action), (ClientState::Receiving, ClientAction::Receive { capacity: 1024 }));
    let (state, action) = state.step(ClientEvent::Received { len: 17 });
    assert_eq!((state, action), (ClientState::Decoding, ClientAction::Decode { len: 17 }));
    assert!(!state.is_finished());
    let (state, action) = state.step(ClientEvent::Decoded);
    assert_eq!((state, action), (ClientState::Finished, ClientAction::Deliver));
    assert!(state.is_finished());
}

#[test]
fn client_starts_the_daemon_once_and_retries_once() {
    let (state, _) = ClientState::begin();
    let (state, action) = state.step(ClientEvent::ConnectFailed);
    assert_eq!((state, action), (ClientState::Spawning, ClientAction::SpawnDaemon));
    let (state, action) = state.step(ClientEvent::Spawned);
    assert_eq!((state, action), (ClientState::GracePeriod, ClientAction::Wait { millis: 500 }));
    assert_eq!(GRACE_MILLIS, 500);
    let (state, action) = state.step(ClientEvent::GraceElapsed);
    assert_eq!((state, action), (ClientState::SecondConnect, ClientAction::Connect));
    let (sending, action) = state.step(ClientEvent::Connected);
    assert_eq!((sending, action), (ClientState::Sending, ClientAction::Send));
    let (state, action) = state.step(ClientEvent::ConnectFailed);
    assert_eq!((state, action), (ClientState::Finished, ClientAction::Fail(ClientError::DaemonUnreachable)));
}

#[test]
fn client_failures() {
    assert_eq!(
        ClientState::Spawning.step(ClientEvent::SpawnFailed),
        (ClientState::Finished, ClientAction::Fail(ClientError::SpawnFailed))
    );
    assert_eq!(
        ClientState::Sending.step(ClientEvent::SendFailed),
        (ClientState::Finished, ClientAction::Fail(ClientError::SendFailed))
    );
    assert_eq!(
        ClientState::Receiving.step(ClientEvent::ReceiveFailed),
        (ClientState::Finished, ClientAction::Fail(ClientError::ReceiveFailed))
    );
    assert_eq!(
        ClientState::Receiving.step(ClientEvent::Received { len: 0 }),
        (ClientState::Finished, ClientAction::Fail(ClientError::NoResponse))
    );
    assert_eq!(
        ClientState::Decoding.step(ClientEvent::DecodeFailed),
        (ClientState::Finished, ClientAction::Fail(ClientError::ProtocolDecodeFailed))
    );
    assert_eq!(
        ClientState::Finished.step(ClientEvent::Connected),
        (ClientState::Finished, ClientAction::Fail(ClientError::OutOfSequence))
    );
    assert_eq!(
        ClientState::FirstConnect.step(ClientEvent::Sent),
        (ClientState::Finished, ClientAction::Fail(ClientError::OutOfSequence))
    );
    assert_eq!(
        ClientState::GracePeriod.step(ClientEvent::Connected),
        (ClientState::Finished, ClientAction::Fail(ClientError::OutOfSequence))
    );
}

#[test]
fn client_error_messages() {
    assert_eq!(ClientError::NoResponse.message(), "Daemon closed connection without response");
    assert_eq!(ClientError::DaemonUnreachable.message(), "Daemon unreachable after starting it");
    assert_eq!(ClientError::ProtocolDecodeFailed.message(), "Could not decode the response");
    assert_eq!(ClientError::SpawnFailed.message(), "Could not start the daemon");
    assert_eq!(ClientError::SendFailed.message(), "Could not send the request");
    assert_eq!(ClientError::ReceiveFailed.message(), "Could not read the response");
    assert_eq!(ClientError::OutOfSequence.message(), "Unexpected event during the exchange");
    assert_eq!(daemon_subcommand(), "daemon");
}
