//! Reading server packets and writing client packets: the type tag of a
//! frame selects the layout of its body.

use vstd::prelude::*;
use crate::client_packets::WritablePacket;
use crate::de::{de_fields, decode, from_bytes};
use crate::error::Error;
use crate::frame::{self, packet_bytes, read_frame};
use crate::laws::{lemma_decode_fits, lemma_no_opt, lemma_round_trip, lemma_wf_fields};
use crate::server_packets::{
    Chat, CmdLogging, CmdNames, ClientError, ClientInfo, ClientJoin, ClientQuit, ClientUpdate,
    CompanyEconomy, CompanyInfo, CompanyNew, CompanyRemove, CompanyStats, CompanyUpdate, Console,
    Date, Error as ServerError, Gamescript, Packet, Pong, Protocol, Rcon, RconEnd, Welcome,
    tag_shape,
};
use crate::server_packets::{CmdName, UpdatePacketDescription};
use crate::ser::encode;
use crate::value::{
    Shape, ShapeModel, ValueModel, fits, has_opt, never_empty, shape_views, wf_shape,
};

verus! {

/// The outcome `r` of reading a server packet of type `packet_type` with the
/// body `body`: a packet of an unknown type is kept as it came; one of a
/// known type is the decoding of its body, or the error met there.
pub open spec fn read_outcome(r: Result<Packet, Error>, packet_type: u8, body: Seq<u8>) -> bool {
    match tag_shape(packet_type) {
        None => r matches Ok(Packet::UnknownPacket { packet_type: t, buffer: b }) && t
            == packet_type && b@ == body,
        Some(s) => match decode(s, body) {
            Ok(v) => r matches Ok(p) && p.tag() == packet_type && p.model() == v,
            Err(e) => r == Err::<Packet, Error>(e),
        },
    }
}

/// The types that the server is known to send are 100 to 126.
pub proof fn lemma_known_tags(t: u8)
    ensures
        tag_shape(t) is Some <==> 100 <= t <= 126,
{
}

/// Every layout of the server packets known is well formed.
pub proof fn lemma_known_shapes_well_formed(t: u8)
    ensures
        tag_shape(t) matches Some(s) ==> wf_shape(s),
{
    lemma_wf_fields(UpdatePacketDescription::shape_model()->Record_0);
    lemma_no_opt(UpdatePacketDescription::shape_model()->Record_0);
    lemma_wf_fields(CmdName::shape_model()->Record_0);
    lemma_no_opt(CmdName::shape_model()->Record_0);
    match t {
        102 => lemma_wf_fields(ServerError::shape_model()->Record_0),
        103 => {
            let e = UpdatePacketDescription::shape_model();
            assert(wf_shape(e) && !has_opt(e));
            assert(wf_shape(ShapeModel::List(Box::new(e))));
            lemma_wf_fields(Protocol::shape_model()->Record_0);
        },
        104 => lemma_wf_fields(Welcome::shape_model()->Record_0),
        107 => lemma_wf_fields(Date::shape_model()->Record_0),
        108 => lemma_wf_fields(ClientJoin::shape_model()->Record_0),
        109 => lemma_wf_fields(ClientInfo::shape_model()->Record_0),
        110 => lemma_wf_fields(ClientUpdate::shape_model()->Record_0),
        111 => lemma_wf_fields(ClientQuit::shape_model()->Record_0),
        112 => lemma_wf_fields(ClientError::shape_model()->Record_0),
        113 => lemma_wf_fields(CompanyNew::shape_model()->Record_0),
        114 => lemma_wf_fields(CompanyInfo::shape_model()->Record_0),
        115 => lemma_wf_fields(CompanyUpdate::shape_model()->Record_0),
        116 => lemma_wf_fields(CompanyRemove::shape_model()->Record_0),
        117 => lemma_wf_fields(CompanyEconomy::shape_model()->Record_0),
        118 => lemma_wf_fields(CompanyStats::shape_model()->Record_0),
        119 => {
            assert(wf_shape(ShapeModel::U64) && never_empty(ShapeModel::U64));
            assert(wf_shape(ShapeModel::Opt(Box::new(ShapeModel::U64))));
            lemma_wf_fields(Chat::shape_model()->Record_0);
        },
        120 => lemma_wf_fields(Rcon::shape_model()->Record_0),
        121 => lemma_wf_fields(Console::shape_model()->Record_0),
        122 => {
            let e = CmdName::shape_model();
            assert(wf_shape(e) && !has_opt(e));
            assert(wf_shape(ShapeModel::List(Box::new(e))));
            lemma_wf_fields(CmdNames::shape_model()->Record_0);
        },
        123 => lemma_wf_fields(CmdLogging::shape_model()->Record_0),
        124 => lemma_wf_fields(Gamescript::shape_model()->Record_0),
        125 => lemma_wf_fields(RconEnd::shape_model()->Record_0),
        126 => lemma_wf_fields(Pong::shape_model()->Record_0),
        _ => lemma_wf_fields(Seq::empty()),
    }
}

/// Round trip over the catalog: a value of the layout of a known server
/// packet type decodes from its own encoding.
pub proof fn lemma_known_packets_round_trip(t: u8, v: ValueModel)
    requires
        tag_shape(t) matches Some(s) && fits(v, s),
    ensures
        encode(v) matches Some(b) && decode(tag_shape(t)->Some_0, b) == Ok::<ValueModel, Error>(v),
{
    lemma_known_shapes_well_formed(t);
    lemma_round_trip(tag_shape(t)->Some_0, v);
}

/// Reads a body that must be empty.
fn read_empty(body: &[u8]) -> (r: Result<(), Error>)
    ensures
        match decode(ShapeModel::Record(Seq::empty()), body@) {
            Ok(v) => r is Ok && v == ValueModel::Record(Seq::empty()),
            Err(e) => r == Err::<(), Error>(e),
        },
{
    let shape = Shape::Record(Vec::new());
    assert(shape_views(shape->Record_0@) =~= Seq::<ShapeModel>::empty());
    assert(de_fields(Seq::empty(), body@) == Ok::<(Seq<ValueModel>, Seq<u8>), Error>(
        (Seq::empty(), body@),
    ));
    from_bytes(&shape, body)?;
    Ok(())
}

/// The server packet of type `packet_type` whose body is `buffer`. A type
/// that is not known is no error: the packet is kept as it came.
pub fn dispatch(packet_type: u8, buffer: Vec<u8>) -> (r: Result<Packet, Error>)
    ensures
        read_outcome(r, packet_type, buffer@),
        packet_type < 100 || packet_type > 126 ==> (r matches Ok(
            Packet::UnknownPacket { packet_type: t, buffer: b },
        ) && t == packet_type && b@ == buffer@),
{
    let body = buffer.as_slice();
    match packet_type {
        100 => {
            read_empty(body)?;
            Ok(Packet::Full)
        },
        101 => {
            read_empty(body)?;
            Ok(Packet::Banned)
        },
        102 => {
            let v = from_bytes(&ServerError::shape(), body)?;
            proof {
                lemma_decode_fits(ServerError::shape_model(), body@);
            }
            Ok(Packet::Error(ServerError::from_value(&v)))
        },
        103 => {
            let v = from_bytes(&Protocol::shape(), body)?;
            proof {
                lemma_decode_fits(Protocol::shape_model(), body@);
            }
            Ok(Packet::Protocol(Protocol::from_value(&v)))
        },
        104 => {
            let v = from_bytes(&Welcome::shape(), body)?;
            proof {
                lemma_decode_fits(Welcome::shape_model(), body@);
            }
            Ok(Packet::Welcome(Welcome::from_value(&v)))
        },
        105 => {
            read_empty(body)?;
            Ok(Packet::Newgame)
        },
        106 => {
            read_empty(body)?;
            Ok(Packet::Shutdown)
        },
        107 => {
            let v = from_bytes(&Date::shape(), body)?;
            proof {
                lemma_decode_fits(Date::shape_model(), body@);
            }
            Ok(Packet::Date(Date::from_value(&v)))
        },
        108 => {
            let v = from_bytes(&ClientJoin::shape(), body)?;
            proof {
                lemma_decode_fits(ClientJoin::shape_model(), body@);
            }
            Ok(Packet::ClientJoin(ClientJoin::from_value(&v)))
        },
        109 => {
            let v = from_bytes(&ClientInfo::shape(), body)?;
            proof {
                lemma_decode_fits(ClientInfo::shape_model(), body@);
            }
            Ok(Packet::ClientInfo(ClientInfo::from_value(&v)))
        },
        110 => {
            let v = from_bytes(&ClientUpdate::shape(), body)?;
            proof {
                lemma_decode_fits(ClientUpdate::shape_model(), body@);
            }
            Ok(Packet::ClientUpdate(ClientUpdate::from_value(&v)))
        },
        111 => {
            let v = from_bytes(&ClientQuit::shape(), body)?;
            proof {
                lemma_decode_fits(ClientQuit::shape_model(), body@);
            }
            Ok(Packet::ClientQuit(ClientQuit::from_value(&v)))
        },
        112 => {
            let v = from_bytes(&ClientError::shape(), body)?;
            proof {
                lemma_decode_fits(ClientError::shape_model(), body@);
            }
            Ok(Packet::ClientError(ClientError::from_value(&v)))
        },
        113 => {
            let v = from_bytes(&CompanyNew::shape(), body)?;
            proof {
                lemma_decode_fits(CompanyNew::shape_model(), body@);
            }
            Ok(Packet::CompanyNew(CompanyNew::from_value(&v)))
        },
        114 => {
            let v = from_bytes(&CompanyInfo::shape(), body)?;
            proof {
                lemma_decode_fits(CompanyInfo::shape_model(), body@);
            }
            Ok(Packet::CompanyInfo(CompanyInfo::from_value(&v)))
        },
        115 => {
            let v = from_bytes(&CompanyUpdate::shape(), body)?;
            proof {
                lemma_decode_fits(CompanyUpdate::shape_model(), body@);
            }
            Ok(Packet::CompanyUpdate(CompanyUpdate::from_value(&v)))
        },
        116 => {
            let v = from_bytes(&CompanyRemove::shape(), body)?;
            proof {
                lemma_decode_fits(CompanyRemove::shape_model(), body@);
            }
            Ok(Packet::CompanyRemove(CompanyRemove::from_value(&v)))
        },
        117 => {
            let v = from_bytes(&CompanyEconomy::shape(), body)?;
            proof {
                lemma_decode_fits(CompanyEconomy::shape_model(), body@);
            }
            Ok(Packet::CompanyEconomy(CompanyEconomy::from_value(&v)))
        },
        118 => {
            let v = from_bytes(&CompanyStats::shape(), body)?;
            proof {
                lemma_decode_fits(CompanyStats::shape_model(), body@);
            }
            Ok(Packet::CompanyStats(CompanyStats::from_value(&v)))
        },
        119 => {
            let v = from_bytes(&Chat::shape(), body)?;
            proof {
                lemma_decode_fits(Chat::shape_model(), body@);
            }
            Ok(Packet::Chat(Chat::from_value(&v)))
        },
        120 => {
            let v = from_bytes(&Rcon::shape(), body)?;
            proof {
                lemma_decode_fits(Rcon::shape_model(), body@);
            }
            Ok(Packet::Rcon(Rcon::from_value(&v)))
        },
        121 => {
            let v = from_bytes(&Console::shape(), body)?;
            proof {
                lemma_decode_fits(Console::shape_model(), body@);
            }
            Ok(Packet::Console(Console::from_value(&v)))
        },
        122 => {
            let v = from_bytes(&CmdNames::shape(), body)?;
            proof {
                lemma_decode_fits(CmdNames::shape_model(), body@);
            }
            Ok(Packet::CmdNames(CmdNames::from_value(&v)))
        },
        123 => {
            let v = from_bytes(&CmdLogging::shape(), body)?;
            proof {
                lemma_decode_fits(CmdLogging::shape_model(), body@);
            }
            Ok(Packet::CmdLogging(CmdLogging::from_value(&v)))
        },
        124 => {
            let v = from_bytes(&Gamescript::shape(), body)?;
            proof {
                lemma_decode_fits(Gamescript::shape_model(), body@);
            }
            Ok(Packet::Gamescript(Gamescript::from_value(&v)))
        },
        125 => {
            let v = from_bytes(&RconEnd::shape(), body)?;
            proof {
                lemma_decode_fits(RconEnd::shape_model(), body@);
            }
            Ok(Packet::RconEnd(RconEnd::from_value(&v)))
        },
        126 => {
            let v = from_bytes(&Pong::shape(), body)?;
            proof {
                lemma_decode_fits(Pong::shape_model(), body@);
            }
            Ok(Packet::Pong(Pong::from_value(&v)))
        },
        _ => Ok(Packet::UnknownPacket { packet_type, buffer }),
    }
}

/// Reads the frame at the front of `input` and the server packet it
/// carries.
pub fn read_packet(input: &[u8]) -> (r: Result<Packet, Error>)
    ensures
        match read_frame(input@) {
            Ok((t, body)) => read_outcome(r, t, body),
            Err(e) => r == Err::<Packet, Error>(e),
        },
{
    let (packet_type, buffer) = frame::read_packet(input)?;
    dispatch(packet_type, buffer)
}


/// The frame of a client packet: its type tag and its body. A packet that
/// cannot be written (a value after an absent `Option`, or a body too long
/// for a frame) gives an error and no bytes.
pub fn write_packet<P: WritablePacket>(p: &P) -> (r: Result<Vec<u8>, Error>)
    ensures
        match packet_bytes(p.tag(), p.model()) {
            Ok(b) => r matches Ok(out) && out@ == b,
            Err(e) => r == Err::<Vec<u8>, Error>(e),
        },
{
    let v = p.to_value();
    frame::write_packet(p.packet_type(), &v)
}

} // verus!
