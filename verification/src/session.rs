//! The state machine of one subscription: it takes the events of a
//! connection one at a time and says what is to be sent.

use crate::filter::{Filter, FilterError, FilterModel};
use crate::geyser::{SubscribeRequest, SubscribeUpdate, SubscribeUpdatePong, UpdateOneof};
use crate::filter::delivered;
use crate::limits::FilterLimits;
use crate::message::Message;
use crate::name::{FilterNames, NamesState};
use vstd::prelude::*;

verus! {

/// Where a session stands.
#[derive(Debug, Clone, Copy, PartialEq, Eq, Structural)]
pub enum SessionState {
    /// No request was accepted yet.
    AwaitingInitial,
    /// A filter is installed and updates are delivered.
    Active,
    /// The session is over.
    Closing,
}

/// What the session asks the transport to do besides sending updates.
#[derive(Debug, Clone, Copy, PartialEq, Eq)]
pub enum SessionSignal {
    /// Nothing.
    Quiet,
    /// The first request was refused: report the error and close.
    ProtocolError(FilterError),
    /// A later request was refused: report the error and go on with the
    /// filter that is installed.
    RequestError(FilterError),
    /// The subscriber cannot keep up: report the overflow and close.
    Overflow,
}

/// What a session holds.
pub ghost struct SessionModel {
    pub state: SessionState,
    pub filter: FilterModel,
    pub names: NamesState,
    pub limits: FilterLimits,
}

/// The id of the pong that answers a ping of the upstream.
pub const UPSTREAM_PONG_ID: i32 = 1;

/// Whether `update` is a pong with the given id and no filter name.
pub open spec fn is_pong(update: SubscribeUpdate, id: i32) -> bool {
    &&& update.filters@.len() == 0
    &&& update.update_oneof == Some(UpdateOneof::Pong(SubscribeUpdatePong { id }))
}

impl SessionModel {
    /// The session after a request, in a state that takes requests: an
    /// accepted request installs its filter and makes the session active; a
    /// refused one closes a session that awaits its first request and leaves
    /// an active one as it is. Either way the names of the request that were
    /// interned stay interned.
    pub open spec fn requested(self, request: SubscribeRequest) -> SessionModel {
        match FilterModel::compiled(request, self.limits, self.names) {
            Ok((filter, names)) => SessionModel {
                state: SessionState::Active,
                filter,
                names,
                ..self
            },
            Err((_, names)) => SessionModel {
                state: if self.state == SessionState::AwaitingInitial {
                    SessionState::Closing
                } else {
                    self.state
                },
                names,
                ..self
            },
        }
    }

    /// What a request is answered with besides a pong.
    pub open spec fn request_signal(self, request: SubscribeRequest) -> SessionSignal {
        match FilterModel::compiled(request, self.limits, self.names) {
            Ok(_) => SessionSignal::Quiet,
            Err((error, _)) => if self.state == SessionState::AwaitingInitial {
                SessionSignal::ProtocolError(error)
            } else {
                SessionSignal::RequestError(error)
            },
        }
    }

    /// The id of the pong that a request is answered with, if any: that of
    /// its ping, where the request is accepted.
    pub open spec fn request_pong(self, request: SubscribeRequest) -> Option<i32> {
        match FilterModel::compiled(request, self.limits, self.names) {
            Ok((filter, _)) => filter.ping,
            Err(_) => None,
        }
    }
}

/// The session of one connection.
pub struct Session {
    state: SessionState,
    filter: Filter,
    names: FilterNames,
    limits: FilterLimits,
}

impl View for Session {
    type V = SessionModel;

    closed spec fn view(&self) -> SessionModel {
        SessionModel {
            state: self.state,
            filter: self.filter@,
            names: self.names@,
            limits: self.limits,
        }
    }
}

impl Session {
    /// A session that awaits its first request, under the server's limits
    /// and with the registry of its connection.
    pub fn new(limits: FilterLimits, names: FilterNames) -> (res: Session)
        ensures
            res@ == (SessionModel {
                state: SessionState::AwaitingInitial,
                filter: FilterModel::empty(),
                names: names@,
                limits,
            }),
    {
        Session { state: SessionState::AwaitingInitial, filter: Filter::default(), names, limits }
    }

    /// Where the session stands.
    pub fn state(&self) -> (state: SessionState)
        ensures
            state == self@.state,
    {
        self.state
    }

    /// The filter that is installed.
    pub fn filter(&self) -> (filter: &Filter)
        ensures
            filter@ == self@.filter,
    {
        &self.filter
    }

    /// Takes a request of the client. A closing session ignores it. Else the
    /// request is compiled; where it is accepted, its filter replaces the
    /// installed one and its ping, if it has one, is answered with a pong.
    pub fn on_request(&mut self, request: &SubscribeRequest) -> (res: (
        Option<SubscribeUpdate>,
        SessionSignal,
    ))
        ensures
            old(self)@.state == SessionState::Closing ==> {
                &&& final(self)@ == old(self)@
                &&& res.0.is_none()
                &&& res.1 == SessionSignal::Quiet
            },
            old(self)@.state != SessionState::Closing ==> {
                &&& final(self)@ == old(self)@.requested(*request)
                &&& res.1 == old(self)@.request_signal(*request)
                &&& match old(self)@.request_pong(*request) {
                    Some(id) => res.0.is_some() && is_pong(res.0.unwrap(), id),
                    None => res.0.is_none(),
                }
            },
    {
        match self.state {
            SessionState::Closing => (None, SessionSignal::Quiet),
            _ => match Filter::new(request, &self.limits, &mut self.names) {
                Ok(filter) => {
                    let pong = filter.get_pong_msg();
                    self.filter = filter;
                    self.state = SessionState::Active;
                    (pong, SessionSignal::Quiet)
                },
                Err(error) => {
                    match self.state {
                        SessionState::AwaitingInitial => {
                            self.state = SessionState::Closing;
                            (None, SessionSignal::ProtocolError(error))
                        },
                        _ => (None, SessionSignal::RequestError(error)),
                    }
                },
            },
        }
    }

    /// Takes a message of the upstream feed. An active session sends it as
    /// the updates of its filter, slot updates gated by the commitment level
    /// of the subscription; any other session sends nothing.
    pub fn on_message(&self, message: &Message) -> (res: Vec<SubscribeUpdate>)
        ensures
            self@.state != SessionState::Active ==> res@.len() == 0,
            self@.state == SessionState::Active ==> {
                &&& res@.len() == delivered(
                    self@.filter.matched(*message, Some(self@.filter.commitment)),
                ).len()
                &&& forall|k: int|
                    0 <= k < res@.len() ==> self@.filter.sends(
                        *message,
                        Some(self@.filter.commitment),
                        delivered(
                            self@.filter.matched(*message, Some(self@.filter.commitment)),
                        )[k],
                        #[trigger] res@[k],
                    )
            },
    {
        match self.state {
            SessionState::Active => {
                let commitment = self.filter.get_commitment_level();
                self.filter.get_update(message, Some(commitment))
            },
            _ => Vec::new(),
        }
    }

    /// Takes a ping of the upstream: an active session answers with a pong
    /// of id 1.
    pub fn on_upstream_ping(&self) -> (res: Option<SubscribeUpdate>)
        ensures
            res.is_some() == (self@.state == SessionState::Active),
            res matches Some(update) ==> is_pong(update, UPSTREAM_PONG_ID),
    {
        self.on_client_ping(UPSTREAM_PONG_ID)
    }

    /// Takes a ping of the client: an active session answers with a pong of
    /// the same id.
    pub fn on_client_ping(&self, id: i32) -> (res: Option<SubscribeUpdate>)
        ensures
            res.is_some() == (self@.state == SessionState::Active),
            res matches Some(update) ==> is_pong(update, id),
    {
        match self.state {
            SessionState::Active => Some(
                SubscribeUpdate {
                    filters: Vec::new(),
                    update_oneof: Some(UpdateOneof::Pong(SubscribeUpdatePong { id })),
                },
            ),
            _ => None,
        }
    }

    /// Takes the news that the subscriber cannot keep up: an active session
    /// signals the overflow and closes.
    pub fn on_backpressure(&mut self) -> (signal: SessionSignal)
        ensures
            signal == if old(self)@.state == SessionState::Active {
                SessionSignal::Overflow
            } else {
                SessionSignal::Quiet
            },
            final(self)@ == (SessionModel {
                state: if old(self)@.state == SessionState::Active {
                    SessionState::Closing
                } else {
                    old(self)@.state
                },
                ..old(self)@
            }),
    {
        match self.state {
            SessionState::Active => {
                self.state = SessionState::Closing;
                SessionSignal::Overflow
            },
            _ => SessionSignal::Quiet,
        }
    }

    /// Takes the end of the connection or of the upstream feed: the session
    /// closes.
    pub fn on_disconnect(&mut self)
        ensures
            final(self)@ == (SessionModel { state: SessionState::Closing, ..old(self)@ }),
    {
        self.state = SessionState::Closing;
    }

    /// Moves the clock of the registry to `now` and lets it forget the names
    /// that were not asked for within its retention window.
    pub fn on_tick(&mut self, now: u64)
        ensures
            final(self)@ == (SessionModel { names: old(self)@.names.cleaned(now), ..old(self)@ }),
    {
        self.names.try_clean(now);
    }
}

} // verus!
