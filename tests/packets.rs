use openttd_admin::admin::{dispatch, read_packet, write_packet};
use openttd_admin::client_packets::{Chat, Join, Ping, Poll, Quit, UpdateFrequency};
use openttd_admin::consts::{PacketAdminClientType, PacketAdminServerType};
use openttd_admin::de::from_bytes;
use openttd_admin::readers::{CompanyInfo, ServerError, ServerProtocol, ServerWelcome};
use openttd_admin::server_packets::{self, Packet};
use openttd_admin::types::{AdminUpdateType, UpdateFrequencies, AUTOMATIC, DAILY};
use openttd_admin::write::{AdminJoin, PacketWriter};
use openttd_admin::Error;

#[test]
fn test_company_economy_deser() {
    let buffer = &vec![
        0, 58, 133, 1, 0, 0, 0, 0, 0, 160, 134, 1, 0, 0, 0, 0, 0, 154, 254, 255, 255, 255, 255,
        255, 255, 0, 0, 0, 0, 0, 0, 0, 0, 0, 0, 0, 0, 0, 0, 0, 0, 0, 0, 0, 0, 0, 0, 0, 0, 0, 0,
    ];
    // The third field is an i64, little-endian: 154, 254, then 0xFF bytes.
    let expected = server_packets::CompanyEconomy {
        id: 0,
        money: 99642,
        loan: 100000,
        income: -358,
        delivered_cargo: 0,
        company_value_last: 0,
        performance_last: 0,
        delivered_cargo_last: 0,
        company_value_previous: 0,
        performance_previous: 0,
        delivered_previous: 0,
    };
    let value = from_bytes(&server_packets::CompanyEconomy::shape(), buffer).unwrap();
    assert_eq!(server_packets::CompanyEconomy::from_value(&value), expected);
    match dispatch(117, buffer.clone()).unwrap() {
        Packet::CompanyEconomy(e) => assert_eq!(e, expected),
        other => panic!("unexpected packet {:?}", other),
    }
}

#[test]
fn join_scenario_bytes() {
    let join = Join {
        password: "pw",
        name: "n",
        version: "1.8.0",
    };
    let bytes = write_packet(&join).unwrap();
    assert_eq!(
        bytes,
        vec![14, 0, 0, b'p', b'w', 0, b'n', 0, b'1', b'.', b'8', b'.', b'0', 0]
    );
}

#[test]
fn admin_join_builder_matches_join() {
    let bytes = AdminJoin::new("pw".to_string(), "n".to_string(), "1.8.0".to_string())
        .into_bytes()
        .unwrap();
    assert_eq!(
        bytes,
        vec![14, 0, 0, b'p', b'w', 0, b'n', 0, b'1', b'.', b'8', b'.', b'0', 0]
    );
}

#[test]
fn packet_writer_fields() {
    let mut w = PacketWriter::new(PacketAdminClientType::AdminPoll);
    w.write_u16(0x0201);
    w.write_u32(0x06050403);
    w.write_u8(7);
    w.write_string("x");
    assert_eq!(w.build().unwrap(), vec![12, 0, 3, 1, 2, 3, 4, 5, 6, 7, b'x', 0]);
}

#[test]
fn client_packets_bytes() {
    assert_eq!(write_packet(&Quit).unwrap(), vec![3, 0, 1]);
    assert_eq!(
        write_packet(&Ping { id: 0x01020304 }).unwrap(),
        vec![7, 0, 7, 4, 3, 2, 1]
    );
    assert_eq!(
        write_packet(&Poll {
            update_type: AdminUpdateType::ClientInfo,
            id: u32::MAX
        })
        .unwrap(),
        vec![9, 0, 3, 1, 0, 255, 255, 255, 255]
    );
    assert_eq!(
        write_packet(&UpdateFrequency {
            update_type: AdminUpdateType::Chat,
            frequency: UpdateFrequencies::from_bits(AUTOMATIC).unwrap(),
        })
        .unwrap(),
        vec![7, 0, 2, 5, 0, 0x40, 0]
    );
    assert_eq!(
        write_packet(&Chat {
            action: 3,
            destination_type: 0,
            destination_id: 1,
            message: "hi",
        })
        .unwrap(),
        vec![12, 0, 4, 3, 0, 1, 0, 0, 0, b'h', b'i', 0]
    );
}

#[test]
fn unknown_tag_survives() {
    assert_eq!(
        dispatch(200, vec![1, 2, 3]).unwrap(),
        Packet::UnknownPacket {
            packet_type: 200,
            buffer: vec![1, 2, 3]
        }
    );
}

#[test]
fn empty_packets_by_tag() {
    assert_eq!(read_packet(&[3, 0, 100]).unwrap(), Packet::Full);
    assert_eq!(read_packet(&[3, 0, 101]).unwrap(), Packet::Banned);
    assert_eq!(read_packet(&[3, 0, 105]).unwrap(), Packet::Newgame);
    assert_eq!(read_packet(&[3, 0, 106]).unwrap(), Packet::Shutdown);
    assert_eq!(read_packet(&[4, 0, 106, 1]), Err(Error::TrailingBytes));
}

#[test]
fn chat_with_and_without_money() {
    let mut body = vec![1, 2, 3, 0, 0, 0, b'h', b'i', 0];
    match dispatch(119, body.clone()).unwrap() {
        Packet::Chat(c) => {
            assert_eq!(c.client, 3);
            assert_eq!(c.message, "hi");
            assert_eq!(c.money, None);
        }
        other => panic!("unexpected packet {:?}", other),
    }
    body.extend_from_slice(&[100, 0, 0, 0, 0, 0, 0, 0]);
    match dispatch(119, body).unwrap() {
        Packet::Chat(c) => assert_eq!(c.money, Some(100)),
        other => panic!("unexpected packet {:?}", other),
    }
}

#[test]
fn protocol_packet_with_descriptions() {
    let frame = [12, 0, 103, 2, 1, 0, 0, 0x7F, 0, 1, 9, 0, 0x40, 0, 0];
    let frame = &frame[..];
    // Length 12 covers the header and nine bytes of body: one flag pair is cut.
    assert_eq!(read_packet(frame), Err(Error::UnexpectedEnd));
    let body = vec![2, 1, 0, 0, 0x7F, 0, 1, 9, 0, 0x40, 0, 0];
    match dispatch(103, body).unwrap() {
        Packet::Protocol(p) => {
            assert_eq!(p.version, 2);
            assert_eq!(p.update_packets.len(), 2);
            assert_eq!(p.update_packets[0].packet_type, AdminUpdateType::Date);
            assert_eq!(p.update_packets[0].frequencies_allowed.bits(), 0x7F);
            assert_eq!(p.update_packets[1].packet_type, AdminUpdateType::Gamescript);
            assert!(p.update_packets[1].frequencies_allowed.contains(AUTOMATIC));
            assert!(!p.update_packets[1].frequencies_allowed.contains(DAILY));
        }
        other => panic!("unexpected packet {:?}", other),
    }
}

#[test]
fn out_of_range_fields_are_refused() {
    assert_eq!(
        dispatch(103, vec![2, 1, 10, 0, 0, 0, 0]),
        Err(Error::InvalidValue)
    );
    assert_eq!(
        dispatch(103, vec![2, 1, 0, 0, 0x80, 0, 0]),
        Err(Error::InvalidValue)
    );
    assert_eq!(dispatch(107, vec![255, 255, 255, 255]), Err(Error::InvalidValue));
}

#[test]
fn date_and_client_join_packets() {
    match dispatch(107, vec![0, 0, 0, 0]).unwrap() {
        Packet::Date(d) => assert_eq!(d.date.to_ymd(), (0, 0, 1)),
        other => panic!("unexpected packet {:?}", other),
    }
    match dispatch(108, vec![42, 0, 0, 0]).unwrap() {
        Packet::ClientJoin(c) => assert_eq!(c.id, 42),
        other => panic!("unexpected packet {:?}", other),
    }
}

#[test]
fn cmd_names_packet() {
    let body = vec![1, 5, 0, b'a', 0, 1, 6, 0, b'b', b'c', 0, 0];
    match dispatch(122, body).unwrap() {
        Packet::CmdNames(c) => {
            assert_eq!(c.names.len(), 2);
            assert_eq!(c.names[1].id, 6);
            assert_eq!(c.names[1].name, "bc");
        }
        other => panic!("unexpected packet {:?}", other),
    }
}

#[test]
fn packet_type_codes() {
    assert_eq!(
        PacketAdminServerType::from_u8(116),
        Some(PacketAdminServerType::SeverCompanyRemove)
    );
    assert_eq!(PacketAdminServerType::from_u8(127), None);
    assert_eq!(PacketAdminServerType::ServerPong.to_u8(), 126);
    assert_eq!(PacketAdminClientType::AdminPing.to_u8(), 7);
    assert_eq!(PacketAdminClientType::from_u8(8), None);
}

#[test]
fn update_type_and_frequency_codes() {
    assert_eq!(AdminUpdateType::from_u16(9), Some(AdminUpdateType::Gamescript));
    assert_eq!(AdminUpdateType::from_u16(10), None);
    assert_eq!(AdminUpdateType::CmdNames.to_u16(), 7);
    assert_eq!(UpdateFrequencies::from_bits(0x80), None);
    assert_eq!(UpdateFrequencies::from_bits(DAILY | AUTOMATIC).unwrap().bits(), 0x42);
}

#[test]
fn server_error_from_buffer() {
    assert_eq!(
        ServerError::from_buffer(&[5, 9]).unwrap(),
        ServerError { network_error_code: 5 }
    );
    assert_eq!(ServerError::from_buffer(&[]), Err(Error::UnexpectedEnd));
}

#[test]
fn company_info_from_buffer_keeps_share_owners() {
    let buffer = [1, b'A', 0, b'B', 0, 3, 1, 2, 7, 8];
    let c = CompanyInfo::from_buffer(&buffer).unwrap();
    assert_eq!(c.company_index, 1);
    assert_eq!(c.company_name, "A");
    assert_eq!(c.manager_name, "B");
    assert_eq!(c.colour, 3);
    assert!(c.is_ai);
    assert_eq!(c.quarters_of_bankruptcy, 2);
    assert_eq!(c.shareowners, vec![7, 8]);
}

#[test]
fn server_welcome_from_buffer() {
    let buffer = [
        b's', 0, b'v', 0, 1, b'm', 0, 1, 0, 0, 0, 2, 3, 0, 0, 0, 0, 1, 0, 2,
    ];
    let w = ServerWelcome::from_buffer(&buffer).unwrap();
    assert_eq!(w.server_name, "s");
    assert_eq!(w.version, "v");
    assert!(w.dedicated);
    assert_eq!(w.map_name, "m");
    assert_eq!(w.map_seed, 1);
    assert_eq!(w.map_landscape, 2);
    assert_eq!(w.map_start_date, 3);
    assert_eq!(w.map_width, 256);
    assert_eq!(w.map_height, 512);
}

#[test]
fn server_protocol_from_buffer() {
    let buffer = [6, 1, 1, 0, 0x40, 0, 1, 2, 0, 3, 0, 0];
    let p = ServerProtocol::from_buffer(&buffer).unwrap();
    assert_eq!(p.protocol_version, 6);
    assert_eq!(p.packet_types, vec![(1, 0x40), (2, 3)]);
    assert_eq!(ServerProtocol::from_buffer(&[6, 1, 1]), Err(Error::UnexpectedEnd));
}
