//! The per-connection state machine: authentication, the session channel,
//! and the updates each channel event posts to the session.
use vstd::prelude::*;

use crate::session_manager::{SshSessionUpdate, UpdateModel};

verus! {

/// Where a connection stands.
#[derive(Clone, Copy, Debug, PartialEq, Eq, Structural, Hash)]
pub enum HandlerState {
    /// Not authenticated.
    Init,
    /// Authenticated; no channel yet.
    Authed,
    /// The session channel is open.
    Open,
    /// The session channel closed.
    Done,
}

/// The answer to an authentication request.
#[derive(Clone, Copy, Debug, PartialEq, Eq, Structural, Hash)]
pub enum Auth {
    Accept,
    /// Rejected; the client is told whether public-key authentication may
    /// follow.
    Reject { proceed_with_publickey: bool },
}

/// Why a channel event was refused.
#[derive(Clone, Copy, Debug, PartialEq, Eq, Structural, Hash)]
pub enum HandlerError {
    /// A channel was asked for before authentication.
    NotAuthenticated,
    /// The connection already has its session channel.
    ChannelAlreadyOpen,
    /// A channel event came while no channel was open.
    NoOpenChannel,
    /// The session's update queue is full.
    QueueFull,
    /// The session's update queue has no receiver any more.
    QueueClosed,
}

/// How a non-blocking post to the session's update queue went.
#[derive(Clone, Copy, Debug, PartialEq, Eq, Structural, Hash)]
pub enum PostStatus {
    Sent,
    Full,
    Closed,
}

/// The state of one connection; `K` is the type of a client's public key.
pub struct ThinHandler<K> {
    state: HandlerState,
    pubkey: Option<K>,
    allow_anonymous: bool,
}

/// What a [`ThinHandler`] holds.
pub struct HandlerModel<K> {
    pub state: HandlerState,
    /// The key of the last accepted public-key authentication.
    pub pubkey: Option<K>,
    /// Whether authentication without credentials is accepted.
    pub allow_anonymous: bool,
}

impl<K> View for ThinHandler<K> {
    type V = HandlerModel<K>;

    closed spec fn view(&self) -> HandlerModel<K> {
        HandlerModel {
            state: self.state,
            pubkey: self.pubkey,
            allow_anonymous: self.allow_anonymous,
        }
    }
}

/// The state after an accepted authentication.
pub open spec fn authed(s: HandlerState) -> HandlerState {
    if s == HandlerState::Init {
        HandlerState::Authed
    } else {
        s
    }
}

/// What the handler posts for a terminal size from the client; pixel sizes
/// play no part.
pub open spec fn resize_update(cols: u32, rows: u32) -> UpdateModel {
    UpdateModel::WindowResize(cols as usize, rows as usize)
}

/// The outcome of a non-blocking post.
pub open spec fn post_outcome(status: PostStatus) -> Result<(), HandlerError> {
    match status {
        PostStatus::Sent => Ok(()),
        PostStatus::Full => Err(HandlerError::QueueFull),
        PostStatus::Closed => Err(HandlerError::QueueClosed),
    }
}

impl<K> ThinHandler<K> {
    /// A handler for a new connection; anonymous logins are rejected.
    pub fn new() -> (r: ThinHandler<K>)
        ensures
            r@.state == HandlerState::Init,
            r@.pubkey.is_none(),
            !r@.allow_anonymous,
    {
        ThinHandler { state: HandlerState::Init, pubkey: None, allow_anonymous: false }
    }

    /// Sets whether authentication without credentials is accepted.
    pub fn set_allow_anonymous(&mut self, allow: bool)
        ensures
            final(self)@ == (HandlerModel { allow_anonymous: allow, ..old(self)@ }),
    {
        self.allow_anonymous = allow;
    }

    /// The state of the connection.
    pub fn state(&self) -> (r: HandlerState)
        ensures
            r == self@.state,
    {
        self.state
    }

    /// The key the client authenticated with, if any.
    pub fn public_key(&self) -> (r: &Option<K>)
        ensures
            *r == self@.pubkey,
    {
        &self.pubkey
    }

    /// Public-key authentication: accepted for every user, recording the key.
    pub fn auth_publickey(&mut self, user: &str, public_key: K) -> (r: Auth)
        ensures
            r == Auth::Accept,
            final(self)@ == (HandlerModel {
                state: authed(old(self)@.state),
                pubkey: Some(public_key),
                ..old(self)@
            }),
    {
        self.pubkey = Some(public_key);
        if self.state == HandlerState::Init {
            self.state = HandlerState::Authed;
        }
        Auth::Accept
    }

    /// Authentication without credentials: rejected, pointing the client to
    /// public-key authentication, unless anonymous logins are allowed.
    pub fn auth_none(&mut self, user: &str) -> (r: Auth)
        ensures
            old(self)@.allow_anonymous ==> r == Auth::Accept && final(self)@ == (HandlerModel {
                state: authed(old(self)@.state),
                ..old(self)@
            }),
            !old(self)@.allow_anonymous ==> r == (Auth::Reject { proceed_with_publickey: true })
                && final(self)@ == old(self)@,
    {
        if self.allow_anonymous {
            if self.state == HandlerState::Init {
                self.state = HandlerState::Authed;
            }
            Auth::Accept
        } else {
            Auth::Reject { proceed_with_publickey: true }
        }
    }

    /// Opens the session channel. The caller then creates the session's
    /// update queue and announces the session with the recorded key.
    pub fn channel_open_session(&mut self) -> (r: Result<(), HandlerError>)
        ensures
            old(self)@.state == HandlerState::Authed <==> r.is_ok(),
            old(self)@.state == HandlerState::Init ==> r == Err::<(), HandlerError>(
                HandlerError::NotAuthenticated,
            ),
            (old(self)@.state == HandlerState::Open || old(self)@.state == HandlerState::Done)
                ==> r == Err::<(), HandlerError>(HandlerError::ChannelAlreadyOpen),
            final(self)@ == if r.is_ok() {
                HandlerModel { state: HandlerState::Open, ..old(self)@ }
            } else {
                old(self)@
            },
    {
        match self.state {
            HandlerState::Init => Err(HandlerError::NotAuthenticated),
            HandlerState::Authed => {
                self.state = HandlerState::Open;
                Ok(())
            },
            _ => Err(HandlerError::ChannelAlreadyOpen),
        }
    }

    /// Bytes from the client: posted as data; nothing is posted for none.
    pub fn data(&self, data: Vec<u8>) -> (r: Result<Option<SshSessionUpdate>, HandlerError>)
        ensures
            self@.state != HandlerState::Open ==> r == Err::<Option<SshSessionUpdate>, HandlerError>(
                HandlerError::NoOpenChannel,
            ),
            self@.state == HandlerState::Open ==> r.is_ok() && if data@.len() == 0 {
                r.unwrap().is_none()
            } else {
                r.unwrap().is_some() && r.unwrap().unwrap()@ == UpdateModel::Data(data@)
            },
    {
        if self.state != HandlerState::Open {
            Err(HandlerError::NoOpenChannel)
        } else if data.len() == 0 {
            Ok(None)
        } else {
            Ok(Some(SshSessionUpdate::Data(data)))
        }
    }

    /// The client asks for a shell: accepted, with no effect.
    pub fn shell_request(&self) -> (r: Result<(), HandlerError>)
        ensures
            r.is_ok(),
    {
        Ok(())
    }

    /// The client asks for a terminal of `cols` by `rows` cells.
    pub fn pty_request(&self, cols: u32, rows: u32) -> (r: Result<SshSessionUpdate, HandlerError>)
        ensures
            self@.state != HandlerState::Open ==> r == Err::<SshSessionUpdate, HandlerError>(
                HandlerError::NoOpenChannel,
            ),
            self@.state == HandlerState::Open ==> r.is_ok() && r.unwrap()@ == resize_update(
                cols,
                rows,
            ),
    {
        self.window_change_request(cols, rows)
    }

    /// The client's terminal is now `cols` by `rows` cells.
    pub fn window_change_request(&self, cols: u32, rows: u32) -> (r: Result<
        SshSessionUpdate,
        HandlerError,
    >)
        ensures
            self@.state != HandlerState::Open ==> r == Err::<SshSessionUpdate, HandlerError>(
                HandlerError::NoOpenChannel,
            ),
            self@.state == HandlerState::Open ==> r.is_ok() && r.unwrap()@ == resize_update(
                cols,
                rows,
            ),
    {
        if self.state != HandlerState::Open {
            Err(HandlerError::NoOpenChannel)
        } else {
            Ok(SshSessionUpdate::WindowResize(cols as usize, rows as usize))
        }
    }

    /// The client closed the channel.
    pub fn channel_close(&mut self) -> (r: Result<SshSessionUpdate, HandlerError>)
        ensures
            old(self)@.state != HandlerState::Open ==> r == Err::<SshSessionUpdate, HandlerError>(
                HandlerError::NoOpenChannel,
            ) && final(self)@ == old(self)@,
            old(self)@.state == HandlerState::Open ==> r.is_ok() && r.unwrap()@ == UpdateModel::Close
                && final(self)@ == (HandlerModel { state: HandlerState::Done, ..old(self)@ }),
    {
        if self.state != HandlerState::Open {
            Err(HandlerError::NoOpenChannel)
        } else {
            self.state = HandlerState::Done;
            Ok(SshSessionUpdate::Close)
        }
    }
}

/// Turns the status of a non-blocking post into the handler's answer: a
/// full or closed queue is an error, never a panic.
pub fn post_result(status: PostStatus) -> (r: Result<(), HandlerError>)
    ensures
        r == post_outcome(status),
{
    match status {
        PostStatus::Sent => Ok(()),
        PostStatus::Full => Err(HandlerError::QueueFull),
        PostStatus::Closed => Err(HandlerError::QueueClosed),
    }
}

} // verus!
