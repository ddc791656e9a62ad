//! The desktop client's link to the daemon: the commands waiting to be
//! sent, and whether the link is up.
use vstd::prelude::*;
use crate::commands::Command;

verus! {

/// The lists asked for each time the link comes up, in this order.
pub open spec fn initial_refresh() -> Seq<Command> {
    seq![
        Command::DockerList,
        Command::DockerListImages,
        Command::DockerListNetworks,
        Command::DockerListVolumes,
        Command::VirtEnvList,
    ]
}

/// The commands waiting to be sent, oldest first, and the link's state.
pub struct Bridge {
    pub pending: Vec<Command>,
    pub connected: bool,
    pub last_error: Option<String>,
}

impl Bridge {
    /// No link yet and nothing waiting.
    pub fn new() -> (r: Bridge)
        ensures
            r.pending@.len() == 0,
            !r.connected,
            r.last_error is None,
    {
        Bridge { pending: Vec::new(), connected: false, last_error: None }
    }

    /// A command given while the link is down waits at the end.
    pub fn queue(&mut self, c: Command)
        ensures
            final(self).pending@ == old(self).pending@.push(c),
            final(self).connected == old(self).connected,
            final(self).last_error == old(self).last_error,
    {
        self.pending.push(c);
    }

    /// The link came up: it is marked up with no error, and the lists are
    /// asked for after whatever waited.
    pub fn connected_now(&mut self)
        ensures
            final(self).pending@ == old(self).pending@ + initial_refresh(),
            final(self).connected,
            final(self).last_error is None,
    {
        self.pending.push(Command::DockerList);
        self.pending.push(Command::DockerListImages);
        self.pending.push(Command::DockerListNetworks);
        self.pending.push(Command::DockerListVolumes);
        self.pending.push(Command::VirtEnvList);
        assert(self.pending@ =~= old(self).pending@ + initial_refresh());
        self.connected = true;
        self.last_error = None;
    }

    /// The link could not be made or was lost: it is marked down, with the
    /// error when there is one; nothing waiting is lost.
    pub fn link_down(&mut self, error: Option<String>)
        ensures
            final(self).pending == old(self).pending,
            !final(self).connected,
            final(self).last_error == (match error {
                Some(e) => Some(e),
                None => old(self).last_error,
            }),
    {
        self.connected = false;
        if let Some(e) = error {
            self.last_error = Some(e);
        }
    }

    /// The oldest waiting command, taken off the queue to be sent.
    pub fn take_next(&mut self) -> (r: Option<Command>)
        ensures
            final(self).connected == old(self).connected,
            final(self).last_error == old(self).last_error,
            old(self).pending@.len() == 0 ==> r is None && final(self).pending@ == old(self).pending@,
            old(self).pending@.len() > 0 ==> r == Some(old(self).pending@[0])
                && final(self).pending@ == old(self).pending@.drop_first(),
    {
        if self.pending.len() == 0 {
            None
        } else {
            let c = self.pending.remove(0);
            assert(self.pending@ =~= old(self).pending@.drop_first());
            Some(c)
        }
    }

    /// Sending a waiting command failed: it goes back to the front, ahead
    /// of every later one, and the link is marked down with the error.
    pub fn flush_failed(&mut self, c: Command, error: String)
        ensures
            final(self).pending@ == seq![c] + old(self).pending@,
            !final(self).connected,
            final(self).last_error == Some(error),
    {
        self.pending.insert(0, c);
        assert(self.pending@ =~= seq![c] + old(self).pending@);
        self.connected = false;
        self.last_error = Some(error);
    }

    /// Sending a new command over a live link failed: it waits at the end,
    /// and the link is marked down with the error.
    pub fn send_failed(&mut self, c: Command, error: String)
        ensures
            final(self).pending@ == old(self).pending@.push(c),
            !final(self).connected,
            final(self).last_error == Some(error),
    {
        self.pending.push(c);
        self.connected = false;
        self.last_error = Some(error);
    }

    /// An event from the daemon could not be handled.
    pub fn event_failed(&mut self, error: String)
        ensures
            final(self).pending == old(self).pending,
            final(self).connected == old(self).connected,
            final(self).last_error == Some(error),
    {
        self.last_error = Some(error);
    }
}

/// A command whose sending failed while the queue was flushed is sent
/// again first: taking the oldest command off and putting it back leaves
/// the queue as it was, so the failed command and every later one stay
/// queued, in order.
pub proof fn failed_send_keeps_the_order(pending: Seq<Command>)
    requires
        pending.len() > 0,
    ensures
        seq![pending[0]] + pending.drop_first() == pending,
{
    assert(seq![pending[0]] + pending.drop_first() =~= pending);
}

/// When the link comes up, everything that waited is sent before the
/// lists are asked for.
pub proof fn waiting_commands_go_first(pending: Seq<Command>)
    ensures
        (pending + initial_refresh()).take(pending.len() as int) == pending,
        (pending + initial_refresh()).skip(pending.len() as int) == initial_refresh(),
{
    assert((pending + initial_refresh()).take(pending.len() as int) =~= pending);
    assert((pending + initial_refresh()).skip(pending.len() as int) =~= initial_refresh());
}

} // verus!
