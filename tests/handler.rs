use ssh_ui::handler::{post_result, Auth, HandlerError, HandlerState, PostStatus, ThinHandler};
use ssh_ui::session_manager::SshSessionUpdate;

fn opened() -> ThinHandler<Vec<u8>> {
    let mut h: ThinHandler<Vec<u8>> = ThinHandler::new();
    assert_eq!(h.auth_publickey("alice", vec![1, 2, 3]), Auth::Accept);
    assert_eq!(h.channel_open_session(), Ok(()));
    h
}

#[test]
fn publickey_auth_is_accepted_and_recorded() {
    let mut h: ThinHandler<Vec<u8>> = ThinHandler::new();
    assert_eq!(h.state(), HandlerState::Init);
    assert_eq!(h.auth_publickey("bob", vec![7; 32]), Auth::Accept);
    assert_eq!(h.state(), HandlerState::Authed);
    assert_eq!(h.public_key(), &Some(vec![7; 32]));
}

#[test]
fn anonymous_auth_is_rejected_toward_publickey() {
    let mut h: ThinHandler<Vec<u8>> = ThinHandler::new();
    assert_eq!(h.auth_none("guest"), Auth::Reject { proceed_with_publickey: true });
    assert_eq!(h.state(), HandlerState::Init);
    assert_eq!(h.channel_open_session(), Err(HandlerError::NotAuthenticated));
    assert_eq!(h.state(), HandlerState::Init);
}

#[test]
fn anonymous_auth_when_allowed() {
    let mut h: ThinHandler<Vec<u8>> = ThinHandler::new();
    h.set_allow_anonymous(true);
    assert_eq!(h.auth_none("anonymous"), Auth::Accept);
    assert_eq!(h.state(), HandlerState::Authed);
    assert_eq!(h.public_key(), &None);
}

#[test]
fn channel_opens_once() {
    let mut h = opened();
    assert_eq!(h.state(), HandlerState::Open);
    assert_eq!(h.channel_open_session(), Err(HandlerError::ChannelAlreadyOpen));
}

#[test]
fn events_map_to_updates() {
    let mut h = opened();
    assert_eq!(h.data(b"ls".to_vec()), Ok(Some(SshSessionUpdate::Data(b"ls".to_vec()))));
    assert_eq!(h.data(Vec::new()), Ok(None));
    assert_eq!(h.pty_request(80, 24), Ok(SshSessionUpdate::WindowResize(80, 24)));
    assert_eq!(h.window_change_request(120, 40), Ok(SshSessionUpdate::WindowResize(120, 40)));
    assert_eq!(h.shell_request(), Ok(()));
    assert_eq!(h.channel_close(), Ok(SshSessionUpdate::Close));
    assert_eq!(h.state(), HandlerState::Done);
    assert_eq!(h.data(b"x".to_vec()), Err(HandlerError::NoOpenChannel));
    assert_eq!(h.channel_close(), Err(HandlerError::NoOpenChannel));
}

#[test]
fn events_before_channel_are_refused() {
    let h: ThinHandler<Vec<u8>> = ThinHandler::new();
    assert_eq!(h.data(b"x".to_vec()), Err(HandlerError::NoOpenChannel));
    assert_eq!(h.pty_request(80, 24), Err(HandlerError::NoOpenChannel));
    assert_eq!(h.window_change_request(80, 24), Err(HandlerError::NoOpenChannel));
}

#[test]
fn full_queue_is_an_error() {
    assert_eq!(post_result(PostStatus::Sent), Ok(()));
    assert_eq!(post_result(PostStatus::Full), Err(HandlerError::QueueFull));
    assert_eq!(post_result(PostStatus::Closed), Err(HandlerError::QueueClosed));
}
