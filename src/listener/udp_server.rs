//! Decisions of the UDP listener: one datagram, one command.
use vstd::prelude::*;
use vstd::string::*;
use crate::writer::file_rotation::{append_decimal, decimal_text};
use crate::writer::file_writer::FileWriterCommand;

verus! {

/// Receive buffer size: above typical MTUs and jumbo frames. Longer datagrams
/// are truncated by the receive call.
pub const UDP_BUFFER_SIZE: usize = 15000;

/// Per-listener state: its name, whether commands carry debug context, and how
/// many datagrams it has forwarded in debug mode.
#[derive(Debug, Clone)]
pub struct DatagramIngest {
    pub name: String,
    pub debug: bool,
    pub count: i32,
}

impl DatagramIngest {
    /// A listener named `server-udp-<id>`.
    pub fn new(id: u32, debug: bool) -> (r: DatagramIngest)
        ensures
            r.name@ == "server-udp-"@ + decimal_text(id as nat),
            r.debug == debug,
            r.count == 0,
    {
        let mut name = String::from_str("server-udp-");
        append_decimal(&mut name, id as u64);
        DatagramIngest { name, debug, count: 0 }
    }

    /// The command for a datagram of `size` bytes held at the front of `buf`.
    /// In debug mode the listener's counter advances (wrapping) and the command
    /// carries the name and the new count.
    pub fn on_datagram(&mut self, buf: &Vec<u8>, size: usize) -> (r: FileWriterCommand)
        requires
            size <= buf.len(),
        ensures
            final(self).name == old(self).name,
            final(self).debug == old(self).debug,
            !old(self).debug ==> {
                &&& final(self).count == old(self).count
                &&& r matches FileWriterCommand::Write(b) && b@ == buf@.subrange(0, size as int)
            },
            old(self).debug ==> {
                &&& final(self).count == (if old(self).count < i32::MAX {
                    (old(self).count + 1) as i32
                } else {
                    i32::MIN
                })
                &&& r matches FileWriterCommand::WriteDebug(n, b, c) && n@ == old(self).name@ && b@
                    == buf@.subrange(0, size as int) && c == final(self).count
            },
    {
        let mut bytes: Vec<u8> = Vec::new();
        let mut i: usize = 0;
        while i < size
            invariant
                size <= buf.len(),
                i <= size,
                bytes@ == buf@.subrange(0, i as int),
            decreases size - i,
        {
            bytes.push(buf[i]);
            assert(bytes@ =~= buf@.subrange(0, i + 1));
            i = i + 1;
        }
        if self.debug {
            self.count = if self.count < i32::MAX {
                self.count + 1
            } else {
                i32::MIN
            };
            FileWriterCommand::WriteDebug(self.name.clone(), bytes, self.count)
        } else {
            FileWriterCommand::Write(bytes)
        }
    }
}

} // verus!
