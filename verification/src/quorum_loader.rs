//! What to make of Dash Core's answers while the quorum list is loaded: which listed
//! quorums to ask about, and which to take into the list.

use crate::encoding::{decode, hex_bytes, HexError};
use crate::quorum_list::{
    with_entry, QuorumList, QuorumListEntry, QuorumListEntryView, QuorumMemberView,
};
use vstd::prelude::*;
use vstd::string::*;

verus! {

/// The number of the quorum type that is listed.
pub const LLMQ_TYPE_ID: u32 = 6;

/// The length of a quorum hash, in bytes.
pub const QUORUM_HASH_SIZE: usize = 32;

/// The length of a quorum's public key, in bytes.
pub const QUORUM_KEY_SIZE: usize = 48;

/// The name of the quorum type that is listed.
pub fn llmq_type_name() -> (name: &'static str)
    ensures
        name@ == "llmq_25_67"@,
{
    "llmq_25_67"
}

/// What Dash Core's extended quorum list says of one quorum.
#[derive(Debug, Clone, PartialEq, Eq)]
pub struct ListedQuorum {
    /// The quorum hash, in hexadecimal.
    pub quorum_hash: String,
    /// The value of `creationHeight`, where it is a number that fits.
    pub creation_height: Option<u64>,
    /// The value of `numValidMembers`, where it is a number that fits.
    pub num_valid_members: Option<u64>,
}

/// What Dash Core's quorum info says of one quorum.
#[derive(Debug, Clone, PartialEq, Eq)]
pub struct QuorumInfo {
    /// The quorum hash, in hexadecimal.
    pub quorum_hash: String,
    /// The quorum's public key, in hexadecimal.
    pub quorum_public_key: String,
}

/// What to ask Dash Core about one quorum.
#[derive(Debug, Clone, PartialEq, Eq)]
pub struct InfoRequest {
    pub llmq_type: u32,
    /// The quorum hash, in hexadecimal.
    pub quorum_hash: String,
    /// Whether the secret key share is asked for too.
    pub include_sk_share: bool,
}

/// The low 32 bits of a number.
pub open spec fn low_u32(n: u64) -> u32 {
    (n as int % 0x1_0000_0000) as u32
}

/// The low 32 bits of a number.
pub fn truncate_u32(n: u64) -> (low: u32)
    ensures
        low == low_u32(n),
{
    let masked: u64 = n & 0xffff_ffff;
    assert(masked == n % 0x1_0000_0000 && masked <= 0xffff_ffff) by (bit_vector)
        requires
            masked == n & 0xffff_ffff,
    ;
    masked as u32
}

/// The number a listing gives, cut to 32 bits, and 0 where it gives none.
pub open spec fn listed_number(value: Option<u64>) -> u32 {
    match value {
        Some(n) => low_u32(n),
        None => 0,
    }
}

/// The request for the info of a listed quorum. Quorums at a height are asked about
/// with their secret key share.
pub fn info_request(quorum_hash: &str, at_height: bool) -> (request: InfoRequest)
    ensures
        request.llmq_type == LLMQ_TYPE_ID,
        request.quorum_hash@ == quorum_hash@,
        request.include_sk_share == at_height,
{
    InfoRequest {
        llmq_type: LLMQ_TYPE_ID,
        quorum_hash: String::from_str(quorum_hash),
        include_sk_share: at_height,
    }
}

/// The current block height out of Dash Core's block count: its low 32 bits.
pub fn get_current_block_height(block_count: Option<u64>) -> (height: Result<u32, String>)
    ensures
        match block_count {
            Some(count) => height == Ok::<u32, String>(low_u32(count)),
            None => height matches Err(message) && message@ == "Invalid block count response"@,
        },
{
    match block_count {
        Some(count) => Ok(truncate_u32(count)),
        None => Err(String::from_str("Invalid block count response")),
    }
}

/// What a text in hexadecimal is taken for where `size` bytes are wanted: its bytes,
/// nothing where it stands for another number of bytes, and an error where it stands
/// for none.
pub open spec fn wanted_bytes(text: Seq<u8>, size: nat) -> Result<Option<Seq<u8>>, HexError> {
    match hex_bytes(text) {
        Ok(bytes) => Ok(
            if bytes.len() == size {
                Some(bytes)
            } else {
                None
            },
        ),
        Err(error) => Err(error),
    }
}

/// The view of wanted bytes.
pub open spec fn wanted_view(outcome: Result<Option<Vec<u8>>, HexError>) -> Result<
    Option<Seq<u8>>,
    HexError,
> {
    match outcome {
        Ok(Some(bytes)) => Ok(Some(bytes@)),
        Ok(None) => Ok(None),
        Err(error) => Err(error),
    }
}

/// Reads a text in hexadecimal where `size` bytes are wanted.
fn decode_sized(text: &str, size: usize) -> (outcome: Result<Option<Vec<u8>>, HexError>)
    ensures
        wanted_view(outcome) == wanted_bytes(text.spec_bytes(), size as nat),
{
    match decode(text) {
        Ok(bytes) => {
            if bytes.len() == size {
                Ok(Some(bytes))
            } else {
                Ok(None)
            }
        },
        Err(error) => Err(error),
    }
}

/// Reads the hash of a listed quorum. A hash of 32 bytes is returned, and Dash Core is
/// to be asked for the quorum's info; a hash of another length is passed over; a hash
/// that is no hexadecimal text ends the loading with an error.
pub fn decode_quorum_hash(quorum_hash: &str) -> (outcome: Result<Option<Vec<u8>>, HexError>)
    ensures
        wanted_view(outcome) == wanted_bytes(quorum_hash.spec_bytes(), QUORUM_HASH_SIZE as nat),
{
    decode_sized(quorum_hash, QUORUM_HASH_SIZE)
}

/// The entry for a listed quorum with the given hash and public key.
pub open spec fn listed_entry(
    quorum_hash: Seq<u8>,
    key: Seq<u8>,
    creation_height: Option<u64>,
    num_valid_members: Option<u64>,
) -> QuorumListEntryView {
    QuorumListEntryView {
        quorum_hash,
        key,
        height: listed_number(creation_height),
        members: Seq::<QuorumMemberView>::empty(),
        threshold_signature: Seq::<char>::empty(),
        mining_members_count: 0,
        valid_members_count: listed_number(num_valid_members),
    }
}

/// Takes a listed quorum into the list, once Dash Core has told its public key. A key
/// of 48 bytes makes an entry, which is added unless the list holds the hash already;
/// a key of another length is passed over; a key that is no hexadecimal text ends the
/// loading with an error. Returns whether the key made an entry.
pub fn admit_quorum(
    quorums: &mut QuorumList,
    quorum_hash: Vec<u8>,
    listed: &ListedQuorum,
    public_key: &str,
) -> (outcome: Result<bool, HexError>)
    ensures
        match wanted_bytes(public_key.spec_bytes(), QUORUM_KEY_SIZE as nat) {
            Ok(Some(key)) => {
                let entry = listed_entry(
                    quorum_hash@,
                    key,
                    listed.creation_height,
                    listed.num_valid_members,
                );
                &&& outcome == Ok::<bool, HexError>(true)
                &&& final(quorums)@ == with_entry(old(quorums)@, entry)
            },
            Ok(None) => outcome == Ok::<bool, HexError>(false) && final(quorums)@ == old(quorums)@,
            Err(error) => outcome == Err::<bool, HexError>(error) && final(quorums)@ == old(
                quorums,
            )@,
        },
{
    match decode_sized(public_key, QUORUM_KEY_SIZE) {
        Ok(Some(key)) => {
            let entry = QuorumListEntry::new_extended(
                quorum_hash,
                key,
                match listed.creation_height {
                    Some(height) => truncate_u32(height),
                    None => 0,
                },
                Vec::new(),
                String::new(),
                0,
                match listed.num_valid_members {
                    Some(count) => truncate_u32(count),
                    None => 0,
                },
            );
            assert(entry@.members =~= Seq::<QuorumMemberView>::empty());
            quorums.add_entry(entry);
            Ok(true)
        },
        Ok(None) => Ok(false),
        Err(error) => Err(error),
    }
}

} // verus!
