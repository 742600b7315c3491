//! Packets that the admin client sends to the server.

use vstd::prelude::*;
use crate::types::{AdminUpdateType, UpdateFrequencies};
use crate::value::{Value, ValueModel, lemma_value_view_index, lemma_value_views, value_views};

verus! {

broadcast use {lemma_value_views, lemma_value_view_index};

/// A packet that the client can send: its type tag and its body as a value.
pub trait WritablePacket {
    /// The type tag of the packet.
    spec fn tag(&self) -> u8;

    /// The body of the packet, as a value.
    spec fn model(&self) -> ValueModel;

    /// The type tag of the packet.
    fn packet_type(&self) -> (r: u8)
        ensures
            r == self.tag(),
    ;

    /// The body of the packet, as a value.
    fn to_value(&self) -> (r: Value)
        ensures
            r@ == self.model(),
    ;
}

/// The admin announces and authenticates itself to the server.
#[derive(Debug, Clone, Copy, PartialEq, Eq)]
pub struct Join<'a> {
    /// Password the server is expecting for this network.
    pub password: &'a str,
    /// Name of the application being used to connect.
    pub name: &'a str,
    /// Version string of the application being used to connect.
    pub version: &'a str,
}

impl<'a> WritablePacket for Join<'a> {
    open spec fn tag(&self) -> u8 {
        0
    }

    open spec fn model(&self) -> ValueModel {
        ValueModel::Record(seq![
            ValueModel::Str(self.password@),
            ValueModel::Str(self.name@),
            ValueModel::Str(self.version@),
        ])
    }

    fn packet_type(&self) -> (r: u8) {
        0
    }

    fn to_value(&self) -> (r: Value) {
        let r = Value::Record(vec![
            Value::Str(self.password.to_owned()),
            Value::Str(self.name.to_owned()),
            Value::Str(self.version.to_owned()),
        ]);
        assert(value_views(r->Record_0@) =~= seq![
            ValueModel::Str(self.password@),
            ValueModel::Str(self.name@),
            ValueModel::Str(self.version@),
        ]);
        r
    }
}

/// Notification to the server that this admin is quitting.
#[derive(Debug, Clone, Copy, PartialEq, Eq)]
pub struct Quit;

impl WritablePacket for Quit {
    open spec fn tag(&self) -> u8 {
        1
    }

    open spec fn model(&self) -> ValueModel {
        ValueModel::Record(Seq::empty())
    }

    fn packet_type(&self) -> (r: u8) {
        1
    }

    fn to_value(&self) -> (r: Value) {
        let r = Value::Record(Vec::new());
        assert(value_views(r->Record_0@) =~= Seq::<ValueModel>::empty());
        r
    }
}

/// Register updates to be sent at certain frequencies (as announced in the PROTOCOL packet).
#[derive(Debug, Clone, Copy, PartialEq, Eq)]
pub struct UpdateFrequency {
    /// Update type.
    pub update_type: AdminUpdateType,
    /// Update frequency; polling is always ignored.
    pub frequency: UpdateFrequencies,
}

impl WritablePacket for UpdateFrequency {
    open spec fn tag(&self) -> u8 {
        2
    }

    open spec fn model(&self) -> ValueModel {
        ValueModel::Record(seq![
            ValueModel::U16(self.update_type.code()),
            ValueModel::U16(self.frequency.spec_bits()),
        ])
    }

    fn packet_type(&self) -> (r: u8) {
        2
    }

    fn to_value(&self) -> (r: Value) {
        let r = Value::Record(vec![
            Value::U16(self.update_type.to_u16()),
            Value::U16(self.frequency.bits()),
        ]);
        assert(value_views(r->Record_0@) =~= seq![
            ValueModel::U16(self.update_type.code()),
            ValueModel::U16(self.frequency.spec_bits()),
        ]);
        r
    }
}

/// Poll the server for certain updates; an invalid poll (e.g. an ID that does
/// not exist) gets silently dropped.
#[derive(Debug, Clone, Copy, PartialEq, Eq)]
pub struct Poll {
    /// The update type the server should answer for.
    pub update_type: AdminUpdateType,
    /// ID relevant to the packet type, e.g. a client or company ID; `u32::MAX` for all.
    pub id: u32,
}

impl WritablePacket for Poll {
    open spec fn tag(&self) -> u8 {
        3
    }

    open spec fn model(&self) -> ValueModel {
        ValueModel::Record(seq![ValueModel::U16(self.update_type.code()), ValueModel::U32(self.id)])
    }

    fn packet_type(&self) -> (r: u8) {
        3
    }

    fn to_value(&self) -> (r: Value) {
        let r = Value::Record(vec![Value::U16(self.update_type.to_u16()), Value::U32(self.id)]);
        assert(value_views(r->Record_0@) =~= seq![
            ValueModel::U16(self.update_type.code()),
            ValueModel::U32(self.id),
        ]);
        r
    }
}

/// Send chat as the server.
#[derive(Debug, Clone, Copy, PartialEq, Eq)]
pub struct Chat<'a> {
    /// Action such as NETWORK_ACTION_CHAT_CLIENT.
    pub action: u8,
    /// Destination type such as DESTTYPE_BROADCAST.
    pub destination_type: u8,
    /// ID of the destination such as company or client id.
    pub destination_id: u32,
    /// Message.
    pub message: &'a str,
}

impl<'a> WritablePacket for Chat<'a> {
    open spec fn tag(&self) -> u8 {
        4
    }

    open spec fn model(&self) -> ValueModel {
        ValueModel::Record(seq![
            ValueModel::U8(self.action),
            ValueModel::U8(self.destination_type),
            ValueModel::U32(self.destination_id),
            ValueModel::Str(self.message@),
        ])
    }

    fn packet_type(&self) -> (r: u8) {
        4
    }

    fn to_value(&self) -> (r: Value) {
        let r = Value::Record(vec![
            Value::U8(self.action),
            Value::U8(self.destination_type),
            Value::U32(self.destination_id),
            Value::Str(self.message.to_owned()),
        ]);
        assert(value_views(r->Record_0@) =~= seq![
            ValueModel::U8(self.action),
            ValueModel::U8(self.destination_type),
            ValueModel::U32(self.destination_id),
            ValueModel::Str(self.message@),
        ]);
        r
    }
}

/// Execute a command on the servers console.
#[derive(Debug, Clone, Copy, PartialEq, Eq)]
pub struct Rcon<'a> {
    /// Command to be executed.
    pub command: &'a str,
}

impl<'a> WritablePacket for Rcon<'a> {
    open spec fn tag(&self) -> u8 {
        5
    }

    open spec fn model(&self) -> ValueModel {
        ValueModel::Record(seq![ValueModel::Str(self.command@)])
    }

    fn packet_type(&self) -> (r: u8) {
        5
    }

    fn to_value(&self) -> (r: Value) {
        let r = Value::Record(vec![Value::Str(self.command.to_owned())]);
        assert(value_views(r->Record_0@) =~= seq![ValueModel::Str(self.command@)]);
        r
    }
}

/// Send a JSON string to the current active GameScript.
#[derive(Debug, Clone, Copy, PartialEq, Eq)]
pub struct Gamescript<'a> {
    /// JSON string for the GameScript.
    pub json: &'a str,
}

impl<'a> WritablePacket for Gamescript<'a> {
    open spec fn tag(&self) -> u8 {
        6
    }

    open spec fn model(&self) -> ValueModel {
        ValueModel::Record(seq![ValueModel::Str(self.json@)])
    }

    fn packet_type(&self) -> (r: u8) {
        6
    }

    fn to_value(&self) -> (r: Value) {
        let r = Value::Record(vec![Value::Str(self.json.to_owned())]);
        assert(value_views(r->Record_0@) =~= seq![ValueModel::Str(self.json@)]);
        r
    }
}

/// Ping the server, requiring the server to reply with a pong packet.
#[derive(Debug, Clone, Copy, PartialEq, Eq)]
pub struct Ping {
    /// Integer value to pass to the server, which is quoted in the reply.
    pub id: u32,
}

impl WritablePacket for Ping {
    open spec fn tag(&self) -> u8 {
        7
    }

    open spec fn model(&self) -> ValueModel {
        ValueModel::Record(seq![ValueModel::U32(self.id)])
    }

    fn packet_type(&self) -> (r: u8) {
        7
    }

    fn to_value(&self) -> (r: Value) {
        let r = Value::Record(vec![Value::U32(self.id)]);
        assert(value_views(r->Record_0@) =~= seq![ValueModel::U32(self.id)]);
        r
    }
}

} // verus!
