//! The functions of the worker, and the number that stands for each in an
//! envelope.

use vstd::prelude::*;

verus! {

/// The functions that the worker offers.
#[derive(Clone, Copy, Debug, PartialEq, Eq, Structural)]
pub enum Functions {
    /// No function.
    FuncReserved,
    /// Whether the account is logged in.
    FuncIsLogin,
    /// The identifier of the account.
    FuncGetSelfWxid,
    /// The names of the types of message.
    FuncGetMsgTypes,
    /// The contacts.
    FuncGetContacts,
    /// The names of the databases.
    FuncGetDbNames,
    /// The tables of a database.
    FuncGetDbTables,
    /// The account that is logged in.
    FuncGetUserInfo,
    /// Send a text.
    FuncSendTxt,
    /// Send a picture.
    FuncSendImg,
    /// Send a file.
    FuncSendFile,
    /// Send an XML message.
    FuncSendXml,
    /// Send an emotion.
    FuncSendEmotion,
    /// Start pushing the messages that the account receives.
    FuncEnableRecvTxt,
    /// Stop pushing them.
    FuncDisableRecvTxt,
    /// Run a query on a database.
    FuncExecDbQuery,
    /// Accept a friend request.
    FuncAcceptFriend,
    /// Accept a transfer.
    FuncRecvTransfer,
    /// Refresh the moments.
    FuncRefreshPyq,
    /// Decrypt a picture.
    FuncDecryptImage,
    /// Add members to a chat room.
    FuncAddRoomMembers,
    /// Remove members from a chat room.
    FuncDelRoomMembers,
}

impl Functions {
    /// The number of the function.
    pub open spec fn number(self) -> i32 {
        match self {
            Functions::FuncReserved => 0x00,
            Functions::FuncIsLogin => 0x01,
            Functions::FuncGetSelfWxid => 0x10,
            Functions::FuncGetMsgTypes => 0x11,
            Functions::FuncGetContacts => 0x12,
            Functions::FuncGetDbNames => 0x13,
            Functions::FuncGetDbTables => 0x14,
            Functions::FuncGetUserInfo => 0x15,
            Functions::FuncSendTxt => 0x20,
            Functions::FuncSendImg => 0x21,
            Functions::FuncSendFile => 0x22,
            Functions::FuncSendXml => 0x23,
            Functions::FuncSendEmotion => 0x24,
            Functions::FuncEnableRecvTxt => 0x30,
            Functions::FuncDisableRecvTxt => 0x40,
            Functions::FuncExecDbQuery => 0x50,
            Functions::FuncAcceptFriend => 0x51,
            Functions::FuncRecvTransfer => 0x52,
            Functions::FuncRefreshPyq => 0x53,
            Functions::FuncDecryptImage => 0x60,
            Functions::FuncAddRoomMembers => 0x70,
            Functions::FuncDelRoomMembers => 0x71,
        }
    }

    /// The number of the function, as an envelope carries it.
    pub fn to_i32(self) -> (n: i32)
        ensures
            n == self.number(),
    {
        match self {
            Functions::FuncReserved => 0x00,
            Functions::FuncIsLogin => 0x01,
            Functions::FuncGetSelfWxid => 0x10,
            Functions::FuncGetMsgTypes => 0x11,
            Functions::FuncGetContacts => 0x12,
            Functions::FuncGetDbNames => 0x13,
            Functions::FuncGetDbTables => 0x14,
            Functions::FuncGetUserInfo => 0x15,
            Functions::FuncSendTxt => 0x20,
            Functions::FuncSendImg => 0x21,
            Functions::FuncSendFile => 0x22,
            Functions::FuncSendXml => 0x23,
            Functions::FuncSendEmotion => 0x24,
            Functions::FuncEnableRecvTxt => 0x30,
            Functions::FuncDisableRecvTxt => 0x40,
            Functions::FuncExecDbQuery => 0x50,
            Functions::FuncAcceptFriend => 0x51,
            Functions::FuncRecvTransfer => 0x52,
            Functions::FuncRefreshPyq => 0x53,
            Functions::FuncDecryptImage => 0x60,
            Functions::FuncAddRoomMembers => 0x70,
            Functions::FuncDelRoomMembers => 0x71,
        }
    }

    /// The function that `n` stands for, if any.
    pub fn from_i32(n: i32) -> (r: Option<Functions>)
        ensures
            match r {
                Some(f) => f.number() == n,
                None => forall|f: Functions| f.number() != n,
            },
    {
        if n == 0x00 {
            Some(Functions::FuncReserved)
        } else if n == 0x01 {
            Some(Functions::FuncIsLogin)
        } else if n == 0x10 {
            Some(Functions::FuncGetSelfWxid)
        } else if n == 0x11 {
            Some(Functions::FuncGetMsgTypes)
        } else if n == 0x12 {
            Some(Functions::FuncGetContacts)
        } else if n == 0x13 {
            Some(Functions::FuncGetDbNames)
        } else if n == 0x14 {
            Some(Functions::FuncGetDbTables)
        } else if n == 0x15 {
            Some(Functions::FuncGetUserInfo)
        } else if n == 0x20 {
            Some(Functions::FuncSendTxt)
        } else if n == 0x21 {
            Some(Functions::FuncSendImg)
        } else if n == 0x22 {
            Some(Functions::FuncSendFile)
        } else if n == 0x23 {
            Some(Functions::FuncSendXml)
        } else if n == 0x24 {
            Some(Functions::FuncSendEmotion)
        } else if n == 0x30 {
            Some(Functions::FuncEnableRecvTxt)
        } else if n == 0x40 {
            Some(Functions::FuncDisableRecvTxt)
        } else if n == 0x50 {
            Some(Functions::FuncExecDbQuery)
        } else if n == 0x51 {
            Some(Functions::FuncAcceptFriend)
        } else if n == 0x52 {
            Some(Functions::FuncRecvTransfer)
        } else if n == 0x53 {
            Some(Functions::FuncRefreshPyq)
        } else if n == 0x60 {
            Some(Functions::FuncDecryptImage)
        } else if n == 0x70 {
            Some(Functions::FuncAddRoomMembers)
        } else if n == 0x71 {
            Some(Functions::FuncDelRoomMembers)
        } else {
            None
        }
    }
}

/// No two functions share a number.
pub proof fn lemma_numbers_differ(f: Functions, g: Functions)
    ensures
        f.number() == g.number() ==> f == g,
{
}

} // verus!
