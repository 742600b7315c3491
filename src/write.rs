//! Building a packet field by field.

use vstd::prelude::*;
use crate::consts::PacketAdminClientType;
use crate::error::Error;
use crate::frame::{MAX_BODY, frame};
use crate::wire::{push_str, push_u16, push_u32, str_bytes, u16_bytes, u32_bytes};

verus! {

/// Helps to write the fields of a packet, and then frames it.
pub struct PacketWriter {
    buffer: Vec<u8>,
}

impl PacketWriter {
    /// The type tag of the packet being written.
    pub closed spec fn tag(&self) -> u8 {
        self.buffer@[2]
    }

    /// The body written so far.
    pub closed spec fn body(&self) -> Seq<u8> {
        self.buffer@.subrange(3, self.buffer@.len() as int)
    }

    /// The buffer holds room for the header.
    pub closed spec fn wf(&self) -> bool {
        self.buffer@.len() >= 3
    }

    /// A writer of a packet of type `packet_type`, with an empty body.
    pub fn new(packet_type: PacketAdminClientType) -> (r: PacketWriter)
        ensures
            r.wf(),
            r.tag() == packet_type.code(),
            r.body() == Seq::<u8>::empty(),
    {
        let r = PacketWriter { buffer: vec![0u8, 0u8, packet_type.to_u8()] };
        assert(r.body() =~= Seq::<u8>::empty());
        r
    }

    proof fn lemma_append(&self, before: Seq<u8>, added: Seq<u8>)
        requires
            before.len() >= 3,
            self.buffer@ == before + added,
        ensures
            self.body() == before.subrange(3, before.len() as int) + added,
            self.tag() == before[2],
    {
        assert(self.body() =~= before.subrange(3, before.len() as int) + added);
    }

    /// Appends a string and its `0x00` terminator.
    pub fn write_string(&mut self, string: &str)
        requires
            old(self).wf(),
        ensures
            final(self).wf(),
            final(self).tag() == old(self).tag(),
            final(self).body() == old(self).body() + str_bytes(string@),
    {
        let ghost before = self.buffer@;
        push_str(&mut self.buffer, string);
        proof {
            self.lemma_append(before, str_bytes(string@));
        }
    }

    /// Appends a byte.
    pub fn write_u8(&mut self, v: u8)
        requires
            old(self).wf(),
        ensures
            final(self).wf(),
            final(self).tag() == old(self).tag(),
            final(self).body() == old(self).body() + seq![v],
    {
        let ghost before = self.buffer@;
        self.buffer.push(v);
        proof {
            assert(self.buffer@ =~= before + seq![v]);
            self.lemma_append(before, seq![v]);
        }
    }

    /// Appends a `u16`, little-endian.
    pub fn write_u16(&mut self, v: u16)
        requires
            old(self).wf(),
        ensures
            final(self).wf(),
            final(self).tag() == old(self).tag(),
            final(self).body() == old(self).body() + u16_bytes(v),
    {
        let ghost before = self.buffer@;
        push_u16(&mut self.buffer, v);
        proof {
            self.lemma_append(before, u16_bytes(v));
        }
    }

    /// Appends a `u32`, little-endian.
    pub fn write_u32(&mut self, v: u32)
        requires
            old(self).wf(),
        ensures
            final(self).wf(),
            final(self).tag() == old(self).tag(),
            final(self).body() == old(self).body() + u32_bytes(v),
    {
        let ghost before = self.buffer@;
        push_u32(&mut self.buffer, v);
        proof {
            self.lemma_append(before, u32_bytes(v));
        }
    }

    /// The whole frame: the total length, the type tag and the body; or
    /// [`Error::PacketTooLarge`] where the length does not fit its 16 bits.
    pub fn build(self) -> (r: Result<Vec<u8>, Error>)
        requires
            self.wf(),
        ensures
            self.body().len() <= MAX_BODY ==> (r matches Ok(out) && out@ == frame(
                self.tag(),
                self.body(),
            )),
            self.body().len() > MAX_BODY ==> r == Err::<Vec<u8>, Error>(Error::PacketTooLarge),
    {
        let mut buffer = self.buffer;
        if buffer.len() - 3 > MAX_BODY {
            return Err(Error::PacketTooLarge);
        }
        let length = buffer.len() as u16;
        buffer[0] = length as u8;
        buffer[1] = (length >> 8u16) as u8;
        assert(buffer@ =~= frame(self.tag(), self.body()));
        Ok(buffer)
    }
}

/// The packet by which the admin announces and authenticates itself.
pub struct AdminJoin {
    password: String,
    user: String,
    version: String,
}

/// The body of the join packet: three strings.
pub open spec fn join_body(password: Seq<char>, user: Seq<char>, version: Seq<char>) -> Seq<u8> {
    str_bytes(password) + str_bytes(user) + str_bytes(version)
}

impl AdminJoin {
    /// The packet's body.
    pub closed spec fn body(&self) -> Seq<u8> {
        join_body(self.password@, self.user@, self.version@)
    }

    /// A join packet with a password, a user name and a version string.
    pub fn new(password: String, user: String, version: String) -> (r: AdminJoin)
        ensures
            r.body() == join_body(password@, user@, version@),
    {
        AdminJoin { password, user, version }
    }

    /// The frame of the packet, of type [`PacketAdminClientType::AdminJoin`].
    pub fn into_bytes(self) -> (r: Result<Vec<u8>, Error>)
        ensures
            self.body().len() <= MAX_BODY ==> (r matches Ok(out) && out@ == frame(0, self.body())),
            self.body().len() > MAX_BODY ==> r == Err::<Vec<u8>, Error>(Error::PacketTooLarge),
    {
        let mut writer = PacketWriter::new(PacketAdminClientType::AdminJoin);
        writer.write_string(self.password.as_str());
        writer.write_string(self.user.as_str());
        writer.write_string(self.version.as_str());
        assert(writer.body() =~= self.body());
        writer.build()
    }
}

} // verus!
