//! The decisions of the data socket's owner: what to do on a command, on
//! what a receive gave, and on how a connection attempt ended. The owner
//! itself polls the socket and performs what is decided here.

use vstd::prelude::*;
use crate::control_netlink::{CommandView, NetlinkCommand};
use crate::frame::{extract_payload, spec_extract_payload};

verus! {

/// Size of the buffer that a datagram is received into: 64 KiB.
pub const BUFFER_SIZE: usize = 0x1_0000;

/// The error number of "no buffer space available".
pub const ENOBUFS: i32 = 105;

/// Socket errors in a row after which no connection is attempted without a
/// command.
pub const MAX_LOCAL_RECONNECT_ATTEMPTS: u32 = 3;

/// Rounds of the loop after which the failure count starts anew on a
/// connected socket.
pub const DEBUG_LOG_INTERVAL: u32 = 3000;

/// Milliseconds that the loop waits for the socket to become readable.
pub const SOCKET_READINESS_TIMEOUT_MS: u64 = 10;

/// What a receive on the socket gave.
#[derive(Debug, PartialEq, Eq)]
pub enum ReceiveEvent {
    /// A datagram of these bytes.
    Datagram(Vec<u8>),
    /// An error, with its error number if the system gave one, and whether
    /// it only says that nothing is there to read.
    Failed { os_error: Option<i32>, would_block: bool },
}

/// What a receive amounts to.
#[derive(Debug, PartialEq, Eq)]
pub enum Received {
    /// A payload, headers stripped.
    Payload(Vec<u8>),
    /// Nothing to read right now.
    NoData,
    /// The kernel's queue ran over; the socket is kept.
    BufferFull,
    /// The socket is of no use any more.
    SocketError,
}

/// What a receive amounts to, as a mathematical value.
pub enum ReceivedView {
    Payload(Seq<u8>),
    NoData,
    BufferFull,
    SocketError,
}

impl View for Received {
    type V = ReceivedView;

    open spec fn view(&self) -> ReceivedView {
        match *self {
            Received::Payload(payload) => ReceivedView::Payload(payload@),
            Received::NoData => ReceivedView::NoData,
            Received::BufferFull => ReceivedView::BufferFull,
            Received::SocketError => ReceivedView::SocketError,
        }
    }
}

/// What `classify` makes of a receive.
///
/// An empty datagram and one whose headers are short or whose declared
/// length is out of bounds count as socket errors. Of the errors, the one
/// with the number of "no buffer space" is a full buffer whatever else it
/// says; then "would block" is no data; any other is a socket error.
pub open spec fn spec_classify(event: ReceiveEvent) -> ReceivedView {
    match event {
        ReceiveEvent::Datagram(bytes) => if bytes@.len() == 0 {
            ReceivedView::SocketError
        } else {
            match spec_extract_payload(bytes@) {
                Ok(payload) => ReceivedView::Payload(payload),
                Err(_) => ReceivedView::SocketError,
            }
        },
        ReceiveEvent::Failed { os_error, would_block } => if os_error == Some(ENOBUFS) {
            ReceivedView::BufferFull
        } else if would_block {
            ReceivedView::NoData
        } else {
            ReceivedView::SocketError
        },
    }
}

/// Says what a receive amounts to.
pub fn classify(event: &ReceiveEvent) -> (received: Received)
    ensures
        received@ == spec_classify(*event),
{
    match event {
        ReceiveEvent::Datagram(bytes) => {
            if bytes.len() == 0 {
                Received::SocketError
            } else {
                match extract_payload(bytes.as_slice()) {
                    Ok(payload) => Received::Payload(payload),
                    Err(_) => Received::SocketError,
                }
            }
        },
        ReceiveEvent::Failed { os_error, would_block } => {
            let full = match os_error {
                Some(code) => *code == ENOBUFS,
                None => false,
            };
            if full {
                Received::BufferFull
            } else if *would_block {
                Received::NoData
            } else {
                Received::SocketError
            }
        },
    }
}

/// What the owner of the socket is to do next.
#[derive(Debug, PartialEq, Eq)]
pub enum Action {
    /// Nothing; go on with the loop.
    Idle,
    /// Hand the payload to every recipient.
    Deliver(Vec<u8>),
    /// Close the socket if one is open, and the resolver too unless it is to
    /// be kept; then try to connect to the family and group of the state,
    /// and report how that ended.
    Connect { keep_resolver: bool },
    /// Close the socket and the resolver, and wait for a command.
    Disconnect,
    /// Leave the loop.
    Stop,
}

/// What an action is, as a mathematical value.
pub enum ActionView {
    Idle,
    Deliver(Seq<u8>),
    Connect { keep_resolver: bool },
    Disconnect,
    Stop,
}

impl View for Action {
    type V = ActionView;

    open spec fn view(&self) -> ActionView {
        match *self {
            Action::Idle => ActionView::Idle,
            Action::Deliver(payload) => ActionView::Deliver(payload@),
            Action::Connect { keep_resolver } => ActionView::Connect { keep_resolver },
            Action::Disconnect => ActionView::Disconnect,
            Action::Stop => ActionView::Stop,
        }
    }
}

/// What the owner of the data socket knows.
pub struct DataNetlink {
    family: String,
    group: String,
    connected: bool,
    consecutive_failures: u32,
    rounds: u32,
}

/// What the owner of the data socket knows, as a mathematical value.
pub struct DataNetlinkView {
    /// The generic-netlink family of the socket.
    pub family: Seq<char>,
    /// The multicast group of the socket.
    pub group: Seq<char>,
    /// Whether a socket is open.
    pub connected: bool,
    /// Socket errors since the last command or payload; stops at
    /// `u32::MAX`.
    pub consecutive_failures: u32,
    /// Rounds of the loop since the failure count last started anew on a
    /// round; below `DEBUG_LOG_INTERVAL`.
    pub rounds: u32,
}

impl View for DataNetlink {
    type V = DataNetlinkView;

    closed spec fn view(&self) -> DataNetlinkView {
        DataNetlinkView {
            family: self.family@,
            group: self.group@,
            connected: self.connected,
            consecutive_failures: self.consecutive_failures,
            rounds: self.rounds,
        }
    }
}

/// State and action after a command.
///
/// `Close` stops the owner. `Reconnect` has the socket rebuilt for the
/// family and group in use, and `SocketConnect` for the family and group
/// that it brings: whatever socket is open counts as closed, and a
/// connection is to be attempted through the resolver at hand. Either
/// starts the failure count anew.
pub open spec fn spec_on_command(state: DataNetlinkView, command: CommandView) -> (
    DataNetlinkView,
    ActionView,
) {
    match command {
        CommandView::Close => (state, ActionView::Stop),
        CommandView::Reconnect => (
            DataNetlinkView {
                family: state.family,
                group: state.group,
                connected: false,
                consecutive_failures: 0,
                rounds: state.rounds,
            },
            ActionView::Connect { keep_resolver: true },
        ),
        CommandView::SocketConnect { family, group } => (
            DataNetlinkView {
                family,
                group,
                connected: false,
                consecutive_failures: 0,
                rounds: state.rounds,
            },
            ActionView::Connect { keep_resolver: true },
        ),
    }
}

/// A failure count raised by one, unless it stands at `u32::MAX`.
pub open spec fn spec_one_more_failure(failures: u32) -> u32 {
    if failures < u32::MAX {
        (failures + 1) as u32
    } else {
        failures
    }
}

/// State and action after a receive on the open socket.
///
/// A payload is delivered, and the failures are forgotten. A full buffer
/// and no data change nothing. A socket error closes the socket and the
/// resolver; up to `MAX_LOCAL_RECONNECT_ATTEMPTS` errors in a row are each
/// answered with a connection attempt, further ones by waiting for a
/// command. Without an open socket nothing is done.
pub open spec fn spec_on_receive(state: DataNetlinkView, received: ReceivedView) -> (
    DataNetlinkView,
    ActionView,
) {
    if !state.connected {
        (state, ActionView::Idle)
    } else {
        match received {
            ReceivedView::Payload(payload) => (
                DataNetlinkView {
                    family: state.family,
                    group: state.group,
                    connected: true,
                    consecutive_failures: 0,
                    rounds: state.rounds,
                },
                ActionView::Deliver(payload),
            ),
            ReceivedView::NoData => (state, ActionView::Idle),
            ReceivedView::BufferFull => (state, ActionView::Idle),
            ReceivedView::SocketError => (
                DataNetlinkView {
                    family: state.family,
                    group: state.group,
                    connected: false,
                    consecutive_failures: spec_one_more_failure(state.consecutive_failures),
                    rounds: state.rounds,
                },
                if spec_one_more_failure(state.consecutive_failures)
                    <= MAX_LOCAL_RECONNECT_ATTEMPTS {
                    ActionView::Connect { keep_resolver: false }
                } else {
                    ActionView::Disconnect
                },
            ),
        }
    }
}

/// The state after a connection attempt ended.
pub open spec fn spec_on_connect_result(state: DataNetlinkView, connected: bool)
    -> DataNetlinkView {
    DataNetlinkView {
        family: state.family,
        group: state.group,
        connected,
        consecutive_failures: state.consecutive_failures,
        rounds: state.rounds,
    }
}

/// The state after one more round of the loop began: on every
/// `DEBUG_LOG_INTERVAL`th round the failures are forgotten if a socket is
/// open.
pub open spec fn spec_on_round(state: DataNetlinkView) -> DataNetlinkView {
    let rounds = if state.rounds + 1 >= DEBUG_LOG_INTERVAL {
        0u32
    } else {
        (state.rounds + 1) as u32
    };
    DataNetlinkView {
        family: state.family,
        group: state.group,
        connected: state.connected,
        consecutive_failures: if rounds == 0 && state.connected {
            0
        } else {
            state.consecutive_failures
        },
        rounds,
    }
}

impl DataNetlink {
    /// The state of an owner that is to connect to `family` and `group` and
    /// has no socket yet.
    pub fn new(family: &str, group: &str) -> (state: Self)
        ensures
            state@ == (DataNetlinkView {
                family: family@,
                group: group@,
                connected: false,
                consecutive_failures: 0,
                rounds: 0,
            }),
    {
        DataNetlink {
            family: family.to_owned(),
            group: group.to_owned(),
            connected: false,
            consecutive_failures: 0,
            rounds: 0,
        }
    }

    /// The family to connect to.
    pub fn family(&self) -> (family: &String)
        ensures
            family@ == self@.family,
    {
        &self.family
    }

    /// The group to connect to.
    pub fn group(&self) -> (group: &String)
        ensures
            group@ == self@.group,
    {
        &self.group
    }

    /// Whether a socket is open.
    pub fn is_connected(&self) -> (connected: bool)
        ensures
            connected == self@.connected,
    {
        self.connected
    }

    /// Socket errors since the last command or payload.
    pub fn consecutive_failures(&self) -> (failures: u32)
        ensures
            failures == self@.consecutive_failures,
    {
        self.consecutive_failures
    }

    /// Takes a command in and says what to do.
    pub fn on_command(&mut self, command: NetlinkCommand) -> (action: Action)
        ensures
            (final(self)@, action@) == spec_on_command(old(self)@, command@),
    {
        match command {
            NetlinkCommand::Close => Action::Stop,
            NetlinkCommand::Reconnect => {
                self.connected = false;
                self.consecutive_failures = 0;
                Action::Connect { keep_resolver: true }
            },
            NetlinkCommand::SocketConnect(connect) => {
                self.family = connect.family;
                self.group = connect.group;
                self.connected = false;
                self.consecutive_failures = 0;
                Action::Connect { keep_resolver: true }
            },
        }
    }

    /// Says what to do when the queue of commands has closed: that ends the
    /// owner as `Close` does.
    pub fn on_queue_closed(&self) -> (action: Action)
        ensures
            action@ == ActionView::Stop,
            action@ == spec_on_command(self@, CommandView::Close).1,
    {
        Action::Stop
    }

    /// Takes in what a receive amounted to and says what to do.
    pub fn on_receive(&mut self, received: Received) -> (action: Action)
        ensures
            (final(self)@, action@) == spec_on_receive(old(self)@, received@),
    {
        if !self.connected {
            return Action::Idle;
        }
        match received {
            Received::Payload(payload) => {
                self.consecutive_failures = 0;
                Action::Deliver(payload)
            },
            Received::NoData => Action::Idle,
            Received::BufferFull => Action::Idle,
            Received::SocketError => {
                self.connected = false;
                if self.consecutive_failures < u32::MAX {
                    self.consecutive_failures = self.consecutive_failures + 1;
                }
                if self.consecutive_failures <= MAX_LOCAL_RECONNECT_ATTEMPTS {
                    Action::Connect { keep_resolver: false }
                } else {
                    Action::Disconnect
                }
            },
        }
    }

    /// Takes in how a connection attempt ended.
    pub fn on_connect_result(&mut self, connected: bool)
        ensures
            final(self)@ == spec_on_connect_result(old(self)@, connected),
    {
        self.connected = connected;
    }

    /// Counts one more round of the loop.
    pub fn on_round(&mut self)
        ensures
            final(self)@ == spec_on_round(old(self)@),
    {
        if self.rounds >= DEBUG_LOG_INTERVAL - 1 {
            self.rounds = 0;
        } else {
            self.rounds = self.rounds + 1;
        }
        if self.rounds == 0 && self.connected {
            self.consecutive_failures = 0;
        }
    }
}

/// A `Reconnect` has the socket rebuilt whatever state it is in: one that
/// has been silent for long, one that gave a payload a moment ago, and one
/// that has given none at all. No error need have occurred. Family and
/// group stay.
pub proof fn lemma_reconnect_rebuilds(state: DataNetlinkView)
    ensures
        spec_on_command(state, CommandView::Reconnect).1 == (ActionView::Connect {
            keep_resolver: true,
        }),
        !spec_on_command(state, CommandView::Reconnect).0.connected,
        spec_on_command(state, CommandView::Reconnect).0.family == state.family,
        spec_on_command(state, CommandView::Reconnect).0.group == state.group,
        spec_on_connect_result(
            spec_on_command(state, CommandView::Reconnect).0,
            true,
        ).connected,
{
}

/// A `SocketConnect` has the socket rebuilt for the family and group that
/// it brings, whatever state the socket is in and however the attempt
/// ends.
pub proof fn lemma_socket_connect_rebuilds(
    state: DataNetlinkView,
    family: Seq<char>,
    group: Seq<char>,
    connected: bool,
)
    ensures
        spec_on_command(state, CommandView::SocketConnect { family, group }).1
            == (ActionView::Connect { keep_resolver: true }),
        !spec_on_command(state, CommandView::SocketConnect { family, group }).0.connected,
        spec_on_connect_result(
            spec_on_command(state, CommandView::SocketConnect { family, group }).0,
            connected,
        ).family == family,
        spec_on_connect_result(
            spec_on_command(state, CommandView::SocketConnect { family, group }).0,
            connected,
        ).group == group,
        spec_on_connect_result(
            spec_on_command(state, CommandView::SocketConnect { family, group }).0,
            connected,
        ).connected == connected,
{
}

/// Socket errors in a row are answered with a connection attempt up to the
/// third and with waiting from the fourth on; a payload or a command in
/// between starts the count anew.
pub proof fn lemma_reconnects_are_limited(state: DataNetlinkView)
    requires
        state.connected,
    ensures
        spec_on_receive(state, ReceivedView::SocketError).1 == if state.consecutive_failures
            < MAX_LOCAL_RECONNECT_ATTEMPTS {
            ActionView::Connect { keep_resolver: false }
        } else {
            ActionView::Disconnect
        },
        forall|payload: Seq<u8>|
            (#[trigger] spec_on_receive(
                state,
                ReceivedView::Payload(payload),
            )).0.consecutive_failures == 0,
        spec_on_command(state, CommandView::Reconnect).0.consecutive_failures == 0,
{
}

} // verus!
