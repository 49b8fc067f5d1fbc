//! The commands that steer the data socket, and the watcher of the
//! generic-netlink controller that issues them: when the telemetry family
//! is registered, the data socket has to be connected anew.

use vstd::prelude::*;

verus! {

/// A new family and group for the data socket.
#[derive(Debug, PartialEq, Eq)]
pub struct SocketConnect {
    pub family: String,
    pub group: String,
}

/// What the data socket's owner can be told.
#[derive(Debug, PartialEq, Eq)]
pub enum NetlinkCommand {
    /// Take a new family and group and connect to them.
    SocketConnect(SocketConnect),
    /// Connect anew to the family and group in use.
    Reconnect,
    /// Stop.
    Close,
}

/// What a command is, as a mathematical value.
pub enum CommandView {
    SocketConnect { family: Seq<char>, group: Seq<char> },
    Reconnect,
    Close,
}

impl View for NetlinkCommand {
    type V = CommandView;

    open spec fn view(&self) -> CommandView {
        match *self {
            NetlinkCommand::SocketConnect(connect) => CommandView::SocketConnect {
                family: connect.family@,
                group: connect.group@,
            },
            NetlinkCommand::Reconnect => CommandView::Reconnect,
            NetlinkCommand::Close => CommandView::Close,
        }
    }
}

/// What the controller tells of a family.
#[derive(Debug, PartialEq, Eq)]
pub enum ControlEvent {
    /// A family of this name was registered.
    NewFamily(String),
    /// The family of this name was unregistered.
    DelFamily(String),
}

/// The watcher's state: which family it watches and whether that family is
/// registered now. It starts with the family unregistered.
pub struct ControlNetlink {
    family: String,
    registered: bool,
}

/// Whether an event leaves the watched family registered.
pub open spec fn spec_registered_after(family: Seq<char>, registered: bool, event: ControlEvent)
    -> bool {
    match event {
        ControlEvent::NewFamily(name) => registered || name@ == family,
        ControlEvent::DelFamily(name) => registered && name@ != family,
    }
}

impl ControlNetlink {
    /// The name of the watched family.
    pub closed spec fn family(&self) -> Seq<char> {
        self.family@
    }

    /// Whether the watched family is registered.
    pub closed spec fn registered(&self) -> bool {
        self.registered
    }

    /// A watcher of `family`, which it takes to be unregistered.
    pub fn new(family: &str) -> (watcher: Self)
        ensures
            watcher.family() == family@,
            !watcher.registered(),
    {
        ControlNetlink { family: family.to_owned(), registered: false }
    }

    /// Whether the watched family is registered.
    pub fn is_registered(&self) -> (registered: bool)
        ensures
            registered == self.registered(),
    {
        self.registered
    }

    /// Takes an event of the controller in.
    ///
    /// The result is the command to send to the data socket's owner: one
    /// `Reconnect` when the watched family goes from unregistered to
    /// registered, and nothing for any other event.
    pub fn on_event(&mut self, event: &ControlEvent) -> (command: Option<NetlinkCommand>)
        ensures
            final(self).family() == old(self).family(),
            final(self).registered() == spec_registered_after(
                old(self).family(),
                old(self).registered(),
                *event,
            ),
            !old(self).registered() && final(self).registered() ==> command == Some(
                NetlinkCommand::Reconnect,
            ),
            old(self).registered() || !final(self).registered() ==> command is None,
    {
        match event {
            ControlEvent::NewFamily(name) => {
                if !self.registered && *name == self.family {
                    self.registered = true;
                    Some(NetlinkCommand::Reconnect)
                } else {
                    None
                }
            },
            ControlEvent::DelFamily(name) => {
                if self.registered && *name == self.family {
                    self.registered = false;
                }
                None
            },
        }
    }
}

} // verus!
