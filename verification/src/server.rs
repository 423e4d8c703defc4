//! The daemon's socket server: listening runs while at least one client is connected.
use vstd::prelude::*;
use crate::protocol::{ClientCommand, ClientCommandView};

verus! {

pub open spec fn command_view(c: Option<ClientCommand>) -> Option<ClientCommandView> {
    match c {
        Some(c) => Some(c@),
        None => None,
    }
}

/// The command a connection sends, given how many clients were connected.
pub open spec fn spec_connect_command(active: int) -> Option<ClientCommandView> {
    if active == 0 {
        Some(ClientCommandView::StartListening)
    } else {
        None
    }
}

/// The command a disconnection sends, given how many clients were connected.
pub open spec fn spec_disconnect_command(active: int) -> Option<ClientCommandView> {
    if active == 1 {
        Some(ClientCommandView::Stop)
    } else {
        None
    }
}

/// Whether listening is on after a command (or none) reached the daemon.
pub open spec fn listening_with(prev: bool, cmd: Option<ClientCommandView>) -> bool {
    match cmd {
        Some(ClientCommandView::StartListening) => true,
        Some(ClientCommandView::Stop) => false,
        _ => prev,
    }
}

/// How many clients are connected.
pub struct ClientCounter {
    pub active: usize,
}

impl ClientCounter {
    pub fn new() -> (res: ClientCounter)
        ensures
            res.active == 0,
    {
        ClientCounter { active: 0 }
    }

    /// A client connected: the first one starts listening. The count wraps
    /// around as an atomic increment does.
    pub fn on_connect(&mut self) -> (res: Option<ClientCommand>)
        ensures
            final(self).active == spec_after_connect(old(self).active),
            command_view(res) == spec_connect_command(old(self).active as int),
    {
        let prev = self.active;
        self.active = if prev == usize::MAX {
            0
        } else {
            prev + 1
        };
        if prev == 0 {
            Some(ClientCommand::StartListening)
        } else {
            None
        }
    }

    /// A client disconnected: the last one stops listening (the speech model
    /// stays loaded). The count wraps around as an atomic decrement does.
    pub fn on_disconnect(&mut self) -> (res: Option<ClientCommand>)
        ensures
            final(self).active == spec_after_disconnect(old(self).active),
            command_view(res) == spec_disconnect_command(old(self).active as int),
    {
        let prev = self.active;
        self.active = if prev == 0 {
            usize::MAX
        } else {
            prev - 1
        };
        if prev == 1 {
            Some(ClientCommand::Stop)
        } else {
            None
        }
    }
}

/// The count after a connection (wrapping).
pub open spec fn spec_after_connect(active: usize) -> usize {
    if active == usize::MAX {
        0
    } else {
        (active + 1) as usize
    }
}

/// The count after a disconnection (wrapping).
pub open spec fn spec_after_disconnect(active: usize) -> usize {
    if active == 0 {
        usize::MAX
    } else {
        (active - 1) as usize
    }
}

/// The counter after a run of connections (`true`) and disconnections
/// (`false`), starting from a new counter.
pub open spec fn counter_after(events: Seq<bool>) -> usize
    decreases events.len(),
{
    if events.len() == 0 {
        0
    } else if events.last() {
        spec_after_connect(counter_after(events.drop_last()))
    } else {
        spec_after_disconnect(counter_after(events.drop_last()))
    }
}

/// Whether listening is on after the run, following the commands that the
/// counter sends on each connection and disconnection.
pub open spec fn listening_after(events: Seq<bool>) -> bool
    decreases events.len(),
{
    if events.len() == 0 {
        false
    } else {
        let before = counter_after(events.drop_last()) as int;
        listening_with(
            listening_after(events.drop_last()),
            if events.last() {
                spec_connect_command(before)
            } else {
                spec_disconnect_command(before)
            },
        )
    }
}

/// The number of clients connected after the run.
pub open spec fn connected_after(events: Seq<bool>) -> int
    decreases events.len(),
{
    if events.len() == 0 {
        0
    } else if events.last() {
        connected_after(events.drop_last()) + 1
    } else {
        connected_after(events.drop_last()) - 1
    }
}

/// Every disconnection is of a connected client, and fewer than
/// `usize::MAX` clients are ever connected at once.
pub open spec fn well_formed_run(events: Seq<bool>) -> bool {
    &&& forall|k: int|
        0 <= k < events.len() && !events[k] ==> connected_after(#[trigger] events.take(k)) > 0
    &&& forall|k: int| 0 <= k <= events.len() ==> connected_after(#[trigger] events.take(k)) < usize::MAX
}

/// The daemon listens exactly while at least one client is connected: a new
/// counter, taken through any run of connections and disconnections, counts
/// the connected clients, sends `StartListening` when the first one connects
/// and `Stop` when the last one leaves, and no other command.
pub proof fn law_listening_while_connected(events: Seq<bool>)
    requires
        well_formed_run(events),
    ensures
        connected_after(events) >= 0,
        counter_after(events) as int == connected_after(events),
        listening_after(events) == (connected_after(events) > 0),
    decreases events.len(),
{
    assert(events.take(events.len() as int) =~= events);
    if events.len() > 0 {
        let init = events.drop_last();
        assert forall|k: int| 0 <= k < init.len() && !init[k] implies connected_after(
            #[trigger] init.take(k),
        ) > 0 by {
            assert(init.take(k) =~= events.take(k));
            assert(init[k] == events[k]);
        }
        assert forall|k: int| 0 <= k <= init.len() implies connected_after(
            #[trigger] init.take(k),
        ) < usize::MAX by {
            assert(init.take(k) =~= events.take(k));
        }
        law_listening_while_connected(init);
        assert(events.take(events.len() - 1) =~= init);
        if !events.last() {
            assert(!events[events.len() - 1]);
        }
    }
}

} // verus!
