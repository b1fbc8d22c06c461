//! What the server answers to each request, given the quorum list and what Dash Core
//! returned.

use crate::encoding::{encode, hex_text, lemma_hex_round_trip, HexError};
use crate::quorum_list::{
    contains_hash, first_position, QuorumList, QuorumListEntry, QuorumListEntryView,
    QuorumMember, QuorumMemberView,
};
use crate::quorum_loader::{decode_quorum_hash, wanted_bytes, QUORUM_HASH_SIZE};
use vstd::prelude::*;
use vstd::string::*;
use vstd::utf8::encode_utf8;

verus! {

/// The envelope of every answer: the data of a success, or the message of a failure.
#[derive(Debug, PartialEq, Eq)]
pub struct ApiResponse<T> {
    pub success: bool,
    pub data: Option<T>,
    pub message: Option<String>,
}

impl<T> ApiResponse<T> {
    /// The answer that carries `data`.
    pub fn success(data: T) -> (response: Self)
        ensures
            response.success,
            response.data == Some(data),
            response.message is None,
    {
        ApiResponse { success: true, data: Some(data), message: None }
    }

    /// The answer that reports a failure.
    pub fn error(message: String) -> (response: Self)
        ensures
            !response.success,
            response.data is None,
            response.message == Some(message),
    {
        ApiResponse { success: false, data: None, message: Some(message) }
    }

    /// Whether the response reports a failure with the given message.
    pub open spec fn fails_with(&self, message: Seq<char>) -> bool {
        &&& !self.success
        &&& self.data is None
        &&& self.message matches Some(m) && m@ == message
    }
}

/// How many quorums the list holds.
#[derive(Debug, Clone, Copy, PartialEq, Eq, Structural)]
pub struct QuorumStats {
    pub total_count: usize,
    pub is_empty: bool,
}

/// A quorum member as it is sent out.
#[allow(non_snake_case)]
#[derive(Debug, PartialEq, Eq)]
pub struct QuorumMemberResponse {
    pub proTxHash: String,
    pub pubKeyOperator: String,
    pub valid: bool,
    pub isPublicKeyShare: bool,
}

impl View for QuorumMemberResponse {
    type V = QuorumMemberView;

    open spec fn view(&self) -> QuorumMemberView {
        QuorumMemberView {
            pro_tx_hash: self.proTxHash@,
            pub_key_operator: self.pubKeyOperator@,
            valid: self.valid,
            is_public_key_share: self.isPublicKeyShare,
        }
    }
}

impl DeepView for QuorumMemberResponse {
    type V = QuorumMemberView;

    open spec fn deep_view(&self) -> QuorumMemberView {
        self@
    }
}

impl From<&QuorumMember> for QuorumMemberResponse {
    /// The member as it is sent out: the same in every field.
    fn from(member: &QuorumMember) -> (response: Self)
        ensures
            response@ == member@,
    {
        QuorumMemberResponse {
            proTxHash: member.proTxHash.clone(),
            pubKeyOperator: member.pubKeyOperator.clone(),
            valid: member.valid,
            isPublicKeyShare: member.isPublicKeyShare,
        }
    }
}

impl vstd::std_specs::convert::FromSpecImpl<&QuorumMember> for QuorumMemberResponse {
    open spec fn obeys_from_spec() -> bool {
        false
    }

    open spec fn from_spec(member: &QuorumMember) -> QuorumMemberResponse {
        arbitrary()
    }
}

/// A quorum as it is sent out: its hash and key in hexadecimal.
#[derive(Debug, PartialEq, Eq)]
pub struct QuorumEntryResponse {
    pub quorum_hash: String,
    pub key: String,
    pub height: u32,
    pub members: Vec<QuorumMemberResponse>,
    pub threshold_signature: String,
    pub mining_members_count: u32,
    pub valid_members_count: u32,
}

pub struct QuorumEntryResponseView {
    pub quorum_hash: Seq<char>,
    pub key: Seq<char>,
    pub height: u32,
    pub members: Seq<QuorumMemberView>,
    pub threshold_signature: Seq<char>,
    pub mining_members_count: u32,
    pub valid_members_count: u32,
}

impl View for QuorumEntryResponse {
    type V = QuorumEntryResponseView;

    open spec fn view(&self) -> QuorumEntryResponseView {
        QuorumEntryResponseView {
            quorum_hash: self.quorum_hash@,
            key: self.key@,
            height: self.height,
            members: self.members.deep_view(),
            threshold_signature: self.threshold_signature@,
            mining_members_count: self.mining_members_count,
            valid_members_count: self.valid_members_count,
        }
    }
}

impl DeepView for QuorumEntryResponse {
    type V = QuorumEntryResponseView;

    open spec fn deep_view(&self) -> QuorumEntryResponseView {
        self@
    }
}

/// A quorum as it is sent out.
pub open spec fn entry_response(entry: QuorumListEntryView) -> QuorumEntryResponseView {
    QuorumEntryResponseView {
        quorum_hash: hex_text(entry.quorum_hash),
        key: hex_text(entry.key),
        height: entry.height,
        members: entry.members,
        threshold_signature: entry.threshold_signature,
        mining_members_count: entry.mining_members_count,
        valid_members_count: entry.valid_members_count,
    }
}

/// The quorums of a list as they are sent out, in the list's order.
pub open spec fn entry_responses(entries: Seq<QuorumListEntryView>) -> Seq<
    QuorumEntryResponseView,
> {
    Seq::new(entries.len(), |i: int| entry_response(entries[i]))
}

impl From<&QuorumListEntry> for QuorumEntryResponse {
    /// The quorum as it is sent out.
    fn from(entry: &QuorumListEntry) -> (response: Self)
        ensures
            response@ == entry_response(entry@),
    {
        let mut members: Vec<QuorumMemberResponse> = Vec::new();
        let mut i: usize = 0;
        while i < entry.members.len()
            invariant
                i <= entry.members.len(),
                members.len() == i,
                forall|j: int| 0 <= j < i ==> members[j]@ == entry.members[j]@,
            decreases entry.members.len() - i,
        {
            members.push(QuorumMemberResponse::from(&entry.members[i]));
            i = i + 1;
        }
        assert(members.deep_view() =~= entry.members.deep_view());
        QuorumEntryResponse {
            quorum_hash: encode(entry.quorum_hash.as_slice()),
            key: encode(entry.key.as_slice()),
            height: entry.height,
            members,
            threshold_signature: entry.threshold_signature.clone(),
            mining_members_count: entry.mining_members_count,
            valid_members_count: entry.valid_members_count,
        }
    }
}

impl vstd::std_specs::convert::FromSpecImpl<&QuorumListEntry> for QuorumEntryResponse {
    open spec fn obeys_from_spec() -> bool {
        false
    }

    open spec fn from_spec(entry: &QuorumListEntry) -> QuorumEntryResponse {
        arbitrary()
    }
}

/// The quorums at a block height.
#[derive(Debug, PartialEq, Eq)]
pub struct QuorumsAtHeightResponse {
    pub height: u32,
    pub quorums: Vec<QuorumEntryResponse>,
}

/// The quorums of a list as they are sent out, in the list's order.
pub fn quorum_responses(quorums: &QuorumList) -> (responses: Vec<QuorumEntryResponse>)
    ensures
        responses.deep_view() == entry_responses(quorums@),
{
    let mut responses: Vec<QuorumEntryResponse> = Vec::new();
    let mut i: usize = 0;
    while i < quorums.list.len()
        invariant
            i <= quorums.list.len(),
            responses.len() == i,
            forall|j: int| 0 <= j < i ==> responses[j]@ == entry_response(quorums.list[j]@),
        decreases quorums.list.len() - i,
    {
        responses.push(QuorumEntryResponse::from(&quorums.list[i]));
        i = i + 1;
    }
    assert(responses.deep_view() =~= entry_responses(quorums@));
    responses
}

/// A failure whose message is `prefix` followed by `error`.
fn failure<T>(prefix: &str, error: &str) -> (response: ApiResponse<T>)
    ensures
        response.fails_with(prefix@ + error@),
{
    let mut message = String::from_str(prefix);
    message.append(error);
    ApiResponse::error(message)
}

/// The answer to a health check.
pub fn health_check() -> (response: ApiResponse<String>)
    ensures
        response.success,
        response.message is None,
        response.data matches Some(text) && text@ == "Quorum List Server is running"@,
{
    ApiResponse::success(String::from_str("Quorum List Server is running"))
}

/// The answer to a request for all quorums, given what loading them afresh from Dash
/// Core came to. Fresh quorums take the place of the list and are sent out; a failure
/// to load them is reported and leaves the list as it was.
pub fn get_all_quorums(quorums: &mut QuorumList, loaded: Result<QuorumList, String>) -> (response:
    ApiResponse<Vec<QuorumEntryResponse>>)
    ensures
        match loaded {
            Ok(fresh) => {
                &&& final(quorums)@ == fresh@
                &&& response.success
                &&& response.message is None
                &&& response.data matches Some(sent) && sent.deep_view() == entry_responses(
                    fresh@,
                )
            },
            Err(error) => {
                &&& final(quorums)@ == old(quorums)@
                &&& response.fails_with("Failed to load quorums: "@ + error@)
            },
        },
{
    match loaded {
        Ok(fresh) => {
            *quorums = fresh;
            ApiResponse::success(quorum_responses(quorums))
        },
        Err(error) => failure("Failed to load quorums: ", error.as_str()),
    }
}

/// The answer to a request for the size of the list.
pub fn get_quorum_stats(quorums: &QuorumList) -> (response: ApiResponse<QuorumStats>)
    ensures
        response.success,
        response.message is None,
        response.data == Some(
            QuorumStats { total_count: quorums@.len() as usize, is_empty: quorums@.len() == 0 },
        ),
{
    ApiResponse::success(
        QuorumStats { total_count: quorums.len(), is_empty: quorums.is_empty() },
    )
}

/// The answer to a request for the quorum with the given hash, in hexadecimal. A text
/// that does not stand for 32 bytes is refused; a hash that the list does not hold is
/// reported as not found.
pub fn get_quorum_by_hash(quorums: &QuorumList, hash: &str) -> (response: ApiResponse<
    QuorumEntryResponse,
>)
    ensures
        match wanted_bytes(hash.spec_bytes(), QUORUM_HASH_SIZE as nat) {
            Ok(Some(quorum_hash)) => if contains_hash(quorums@, quorum_hash) {
                &&& response.success
                &&& response.message is None
                &&& response.data matches Some(sent) && sent@ == entry_response(
                    quorums@[first_position(quorums@, quorum_hash)],
                )
            } else {
                response.fails_with("Quorum not found"@)
            },
            _ => response.fails_with("Invalid hash format. Must be 32 bytes hex encoded."@),
        },
{
    match decode_quorum_hash(hash) {
        Ok(Some(quorum_hash)) => match quorums.get_entry(quorum_hash.as_slice()) {
            Some(entry) => ApiResponse::success(QuorumEntryResponse::from(entry)),
            None => ApiResponse::error(String::from_str("Quorum not found")),
        },
        _ => ApiResponse::error(
            String::from_str("Invalid hash format. Must be 32 bytes hex encoded."),
        ),
    }
}

/// Empties the list, and says so.
pub fn clear_quorums(quorums: &mut QuorumList) -> (response: ApiResponse<String>)
    ensures
        final(quorums)@.len() == 0,
        response.success,
        response.message is None,
        response.data matches Some(text) && text@ == "All quorums cleared successfully"@,
{
    quorums.clear();
    ApiResponse::success(String::from_str("All quorums cleared successfully"))
}

/// The height at which the previous quorums are looked up: `offset` blocks below the
/// current height, and 0 where the chain is not that high.
pub open spec fn height_before(current_height: u32, offset: u32) -> u32 {
    if current_height >= offset {
        (current_height - offset) as u32
    } else {
        0
    }
}

/// The height at which the previous quorums are looked up.
pub fn previous_height(current_height: u32, offset: u32) -> (height: u32)
    ensures
        height == height_before(current_height, offset),
{
    if current_height >= offset {
        current_height - offset
    } else {
        0
    }
}

/// The answer to a request for the previous quorums where the current block height
/// could not be had.
pub fn block_height_failure(error: &str) -> (response: ApiResponse<QuorumsAtHeightResponse>)
    ensures
        response.fails_with("Failed to get block height: "@ + error@),
{
    failure("Failed to get block height: ", error)
}

/// The answer to a request for the previous quorums, given the height they were looked
/// up at and what loading them came to.
pub fn get_previous_quorums(height: u32, loaded: Result<QuorumList, String>) -> (response:
    ApiResponse<QuorumsAtHeightResponse>)
    ensures
        match loaded {
            Ok(found) => {
                &&& response.success
                &&& response.message is None
                &&& response.data matches Some(sent) && sent.height == height
                    && sent.quorums.deep_view() == entry_responses(found@)
            },
            Err(error) => response.fails_with("Failed to load quorums: "@ + error@),
        },
{
    match loaded {
        Ok(found) => ApiResponse::success(
            QuorumsAtHeightResponse { height, quorums: quorum_responses(&found) },
        ),
        Err(error) => failure("Failed to load quorums: ", error.as_str()),
    }
}

/// A quorum whose hash has 32 bytes is found again by the hash it is sent out with.
pub proof fn lemma_sent_hash_finds_quorum(entry: QuorumListEntryView)
    requires
        entry.quorum_hash.len() == QUORUM_HASH_SIZE,
    ensures
        wanted_bytes(encode_utf8(entry_response(entry).quorum_hash), QUORUM_HASH_SIZE as nat)
            == Ok::<Option<Seq<u8>>, HexError>(Some(entry.quorum_hash)),
{
    lemma_hex_round_trip(entry.quorum_hash);
}

} // verus!
