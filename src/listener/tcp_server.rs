//! Decisions of the TCP listener: the connection cap and line framing.
use vstd::prelude::*;
use vstd::string::*;
use vstd::utf8::encode_utf8;
use crate::writer::file_writer::{FileWriterCommand, NEWLINE};

verus! {

/// Whether a newly accepted connection may stay open.
#[derive(Debug, Clone, Copy, PartialEq, Eq, Structural)]
pub enum Admission {
    Accepted,
    Rejected,
}

/// Counts open connections against the configured cap.
#[derive(Debug, Clone, Copy)]
pub struct ConnectionGate {
    active: usize,
    max_connections: usize,
}

impl ConnectionGate {
    #[verifier::type_invariant]
    spec fn within_cap(self) -> bool {
        self.active <= self.max_connections
    }

    pub closed spec fn active_spec(self) -> usize {
        self.active
    }

    pub closed spec fn max_spec(self) -> usize {
        self.max_connections
    }

    /// A gate with no open connection.
    pub fn new(max_connections: usize) -> (r: ConnectionGate)
        ensures
            r.active_spec() == 0,
            r.max_spec() == max_connections,
    {
        ConnectionGate { active: 0, max_connections }
    }

    /// Decides on a connection just accepted: admitted and counted while fewer
    /// than the cap are open, otherwise rejected with nothing counted.
    pub fn try_admit(&mut self) -> (r: Admission)
        ensures
            final(self).max_spec() == old(self).max_spec(),
            old(self).active_spec() < old(self).max_spec() ==> r == Admission::Accepted
                && final(self).active_spec() == old(self).active_spec() + 1,
            old(self).active_spec() >= old(self).max_spec() ==> r == Admission::Rejected
                && final(self).active_spec() == old(self).active_spec(),
            final(self).active_spec() <= final(self).max_spec(),
    {
        proof {
            use_type_invariant(&*self);
        }
        if self.active < self.max_connections {
            self.active = self.active + 1;
            Admission::Accepted
        } else {
            Admission::Rejected
        }
    }

    /// An admitted connection closed.
    pub fn release(&mut self)
        ensures
            final(self).max_spec() == old(self).max_spec(),
            final(self).active_spec() == (if old(self).active_spec() > 0 {
                (old(self).active_spec() - 1) as usize
            } else {
                0
            }),
    {
        proof {
            use_type_invariant(&*self);
        }
        if self.active > 0 {
            self.active = self.active - 1;
        }
    }

    /// The number of open connections.
    pub fn active(&self) -> (r: usize)
        ensures
            r == self.active_spec(),
            r <= self.max_spec(),
    {
        proof {
            use_type_invariant(self);
        }
        self.active
    }
}

/// The command for one line read from a connection (without its `\n`): the
/// line's bytes with the newline put back.
pub fn line_command(line: &str) -> (r: FileWriterCommand)
    ensures
        r matches FileWriterCommand::Write(b) && b@ == encode_utf8(line@).push(NEWLINE),
{
    let mut b = line.as_bytes_vec();
    b.push(NEWLINE);
    FileWriterCommand::Write(b)
}

} // verus!
