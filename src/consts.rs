//! The type tags of packets, by direction.

use vstd::prelude::*;

verus! {

/// Admin packets sent by the client to the admin server.
#[derive(Debug, Clone, Copy, PartialEq, Eq, Structural)]
pub enum PacketAdminClientType {
    /// The admin announces and authenticates itself to the server.
    AdminJoin,
    /// The admin tells the server that it is quitting.
    AdminQuit,
    /// The admin tells the server the update frequency of a particular piece of information.
    AdminUpdateFrequency,
    /// The admin explicitly polls for a piece of information.
    AdminPoll,
    /// The admin sends a chat message to be distributed.
    AdminChat,
    /// The admin sends a remote console command.
    AdminRcon,
    /// The admin sends a JSON string for the GameScript.
    AdminGamescript,
    /// The admin sends a ping to the server, expecting a ping-reply (PONG) packet.
    AdminPing,
}

impl PacketAdminClientType {
    /// The type tag on the wire.
    pub open spec fn code(&self) -> u8 {
        match self {
            PacketAdminClientType::AdminJoin => 0,
            PacketAdminClientType::AdminQuit => 1,
            PacketAdminClientType::AdminUpdateFrequency => 2,
            PacketAdminClientType::AdminPoll => 3,
            PacketAdminClientType::AdminChat => 4,
            PacketAdminClientType::AdminRcon => 5,
            PacketAdminClientType::AdminGamescript => 6,
            PacketAdminClientType::AdminPing => 7,
        }
    }

    /// The type tag on the wire.
    pub fn to_u8(&self) -> (r: u8)
        ensures
            r == self.code(),
    {
        match self {
            PacketAdminClientType::AdminJoin => 0,
            PacketAdminClientType::AdminQuit => 1,
            PacketAdminClientType::AdminUpdateFrequency => 2,
            PacketAdminClientType::AdminPoll => 3,
            PacketAdminClientType::AdminChat => 4,
            PacketAdminClientType::AdminRcon => 5,
            PacketAdminClientType::AdminGamescript => 6,
            PacketAdminClientType::AdminPing => 7,
        }
    }

    /// The packet type of the tag `code`, if any.
    pub fn from_u8(code: u8) -> (r: Option<PacketAdminClientType>)
        ensures
            r is Some <==> 0 <= code <= 7,
            r matches Some(t) ==> t.code() == code,
    {
        match code {
            0 => Some(PacketAdminClientType::AdminJoin),
            1 => Some(PacketAdminClientType::AdminQuit),
            2 => Some(PacketAdminClientType::AdminUpdateFrequency),
            3 => Some(PacketAdminClientType::AdminPoll),
            4 => Some(PacketAdminClientType::AdminChat),
            5 => Some(PacketAdminClientType::AdminRcon),
            6 => Some(PacketAdminClientType::AdminGamescript),
            7 => Some(PacketAdminClientType::AdminPing),
            _ => None,
        }
    }
}

/// Admin packets sent by the server to the client.
#[derive(Debug, Clone, Copy, PartialEq, Eq, Structural)]
pub enum PacketAdminServerType {
    /// The server tells the admin it cannot accept the admin.
    ServerFull,
    /// The server tells the admin it is banned.
    ServerBanned,
    /// The server tells the admin an error has occurred.
    ServerError,
    /// The server tells the admin its protocol version.
    ServerProtocol,
    /// The server welcomes the admin to a game.
    ServerWelcome,
    /// The server tells the admin its going to start a new game.
    ServerNewgame,
    /// The server tells the admin its shutting down.
    ServerShutdown,
    /// The server tells the admin what the current game date is.
    ServerDate,
    /// The server tells the admin that a client has joined.
    ServerClientJoin,
    /// The server gives the admin information about a client.
    ServerClientInfo,
    /// The server gives the admin an information update on a client.
    ServerClientUpdate,
    /// The server tells the admin that a client quit.
    ServerClientQuit,
    /// The server tells the admin that a client caused an error.
    ServerClientError,
    /// The server tells the admin that a new company has started.
    ServerCompanyNew,
    /// The server gives the admin information about a company.
    ServerCompanyInfo,
    /// The server gives the admin an information update on a company.
    ServerCompanyUpdate,
    /// The server tells the admin that a company was removed.
    SeverCompanyRemove,
    /// The server gives the admin some economy related company information.
    ServerCompanyEconomy,
    /// The server gives the admin some statistics about a company.
    ServerCompanyStats,
    /// The server received a chat message and relays it.
    ServerChat,
    /// The server's reply to a remove console command.
    ServerRcon,
    /// The server gives the admin the data that got printed to its console.
    ServerConsole,
    /// The server sends out the names of the DoCommands to the admins.
    ServerCmdNames,
    /// The server gives the admin copies of incoming command packets.
    ServerCmdLogging,
    /// The server gives the admin information from the GameScript in JSON.
    ServerGamescript,
    /// The server indicates that the remote console command has completed.
    ServerRconEnd,
    /// The server replies to a ping request from the admin.
    ServerPong,
}

impl PacketAdminServerType {
    /// The type tag on the wire.
    pub open spec fn code(&self) -> u8 {
        match self {
            PacketAdminServerType::ServerFull => 100,
            PacketAdminServerType::ServerBanned => 101,
            PacketAdminServerType::ServerError => 102,
            PacketAdminServerType::ServerProtocol => 103,
            PacketAdminServerType::ServerWelcome => 104,
            PacketAdminServerType::ServerNewgame => 105,
            PacketAdminServerType::ServerShutdown => 106,
            PacketAdminServerType::ServerDate => 107,
            PacketAdminServerType::ServerClientJoin => 108,
            PacketAdminServerType::ServerClientInfo => 109,
            PacketAdminServerType::ServerClientUpdate => 110,
            PacketAdminServerType::ServerClientQuit => 111,
            PacketAdminServerType::ServerClientError => 112,
            PacketAdminServerType::ServerCompanyNew => 113,
            PacketAdminServerType::ServerCompanyInfo => 114,
            PacketAdminServerType::ServerCompanyUpdate => 115,
            PacketAdminServerType::SeverCompanyRemove => 116,
            PacketAdminServerType::ServerCompanyEconomy => 117,
            PacketAdminServerType::ServerCompanyStats => 118,
            PacketAdminServerType::ServerChat => 119,
            PacketAdminServerType::ServerRcon => 120,
            PacketAdminServerType::ServerConsole => 121,
            PacketAdminServerType::ServerCmdNames => 122,
            PacketAdminServerType::ServerCmdLogging => 123,
            PacketAdminServerType::ServerGamescript => 124,
            PacketAdminServerType::ServerRconEnd => 125,
            PacketAdminServerType::ServerPong => 126,
        }
    }

    /// The type tag on the wire.
    pub fn to_u8(&self) -> (r: u8)
        ensures
            r == self.code(),
    {
        match self {
            PacketAdminServerType::ServerFull => 100,
            PacketAdminServerType::ServerBanned => 101,
            PacketAdminServerType::ServerError => 102,
            PacketAdminServerType::ServerProtocol => 103,
            PacketAdminServerType::ServerWelcome => 104,
            PacketAdminServerType::ServerNewgame => 105,
            PacketAdminServerType::ServerShutdown => 106,
            PacketAdminServerType::ServerDate => 107,
            PacketAdminServerType::ServerClientJoin => 108,
            PacketAdminServerType::ServerClientInfo => 109,
            PacketAdminServerType::ServerClientUpdate => 110,
            PacketAdminServerType::ServerClientQuit => 111,
            PacketAdminServerType::ServerClientError => 112,
            PacketAdminServerType::ServerCompanyNew => 113,
            PacketAdminServerType::ServerCompanyInfo => 114,
            PacketAdminServerType::ServerCompanyUpdate => 115,
            PacketAdminServerType::SeverCompanyRemove => 116,
            PacketAdminServerType::ServerCompanyEconomy => 117,
            PacketAdminServerType::ServerCompanyStats => 118,
            PacketAdminServerType::ServerChat => 119,
            PacketAdminServerType::ServerRcon => 120,
            PacketAdminServerType::ServerConsole => 121,
            PacketAdminServerType::ServerCmdNames => 122,
            PacketAdminServerType::ServerCmdLogging => 123,
            PacketAdminServerType::ServerGamescript => 124,
            PacketAdminServerType::ServerRconEnd => 125,
            PacketAdminServerType::ServerPong => 126,
        }
    }

    /// The packet type of the tag `code`, if any.
    pub fn from_u8(code: u8) -> (r: Option<PacketAdminServerType>)
        ensures
            r is Some <==> 100 <= code <= 126,
            r matches Some(t) ==> t.code() == code,
    {
        match code {
            100 => Some(PacketAdminServerType::ServerFull),
            101 => Some(PacketAdminServerType::ServerBanned),
            102 => Some(PacketAdminServerType::ServerError),
            103 => Some(PacketAdminServerType::ServerProtocol),
            104 => Some(PacketAdminServerType::ServerWelcome),
            105 => Some(PacketAdminServerType::ServerNewgame),
            106 => Some(PacketAdminServerType::ServerShutdown),
            107 => Some(PacketAdminServerType::ServerDate),
            108 => Some(PacketAdminServerType::ServerClientJoin),
            109 => Some(PacketAdminServerType::ServerClientInfo),
            110 => Some(PacketAdminServerType::ServerClientUpdate),
            111 => Some(PacketAdminServerType::ServerClientQuit),
            112 => Some(PacketAdminServerType::ServerClientError),
            113 => Some(PacketAdminServerType::ServerCompanyNew),
            114 => Some(PacketAdminServerType::ServerCompanyInfo),
            115 => Some(PacketAdminServerType::ServerCompanyUpdate),
            116 => Some(PacketAdminServerType::SeverCompanyRemove),
            117 => Some(PacketAdminServerType::ServerCompanyEconomy),
            118 => Some(PacketAdminServerType::ServerCompanyStats),
            119 => Some(PacketAdminServerType::ServerChat),
            120 => Some(PacketAdminServerType::ServerRcon),
            121 => Some(PacketAdminServerType::ServerConsole),
            122 => Some(PacketAdminServerType::ServerCmdNames),
            123 => Some(PacketAdminServerType::ServerCmdLogging),
            124 => Some(PacketAdminServerType::ServerGamescript),
            125 => Some(PacketAdminServerType::ServerRconEnd),
            126 => Some(PacketAdminServerType::ServerPong),
            _ => None,
        }
    }
}

} // verus!
