//! The calls of the daemon: what each request says, and what each reply
//! must hold.

use crate::encode::{decimal, number, object, object_text, pairs, quoted, string};
use crate::failure::Failure;
use crate::json::{Json, JsonModel};
use crate::{envelope_result, BlockHeader, BlockHeaderView, Reply, Request};
use vstd::prelude::*;

verus! {

/// What `generateblocks` returns: the height of the chain once the blocks
/// exist.
#[derive(Clone, Copy, Debug, PartialEq, Eq, Structural)]
pub struct GenerateBlocks {
    pub height: u32,
}

/// The request for the header of the block at `height`.
pub fn get_block_header_by_height_request(height: u32) -> (request: Request<String>)
    ensures
        request.method_name() == "get_block_header_by_height"@,
        request.parameters()@ == object_text(seq![("height"@, decimal(height as nat))]),
{
    let mut members: Vec<(String, String)> = Vec::new();
    members.push(("height".to_owned(), number(height as u64)));
    Request::new("get_block_header_by_height", object(&members))
}

/// The request to mine `amount_of_blocks` blocks whose rewards go to
/// `wallet_address`.
pub fn generate_blocks_request(amount_of_blocks: u32, wallet_address: &str) -> (request: Request<
    String,
>)
    ensures
        request.method_name() == "generateblocks"@,
        request.parameters()@ == object_text(
            seq![
                ("amount_of_blocks"@, decimal(amount_of_blocks as nat)),
                ("wallet_address"@, quoted(wallet_address@)),
            ],
        ),
{
    let mut members: Vec<(String, String)> = Vec::new();
    members.push(("amount_of_blocks".to_owned(), number(amount_of_blocks as u64)));
    members.push(("wallet_address".to_owned(), string(wallet_address)));
    assert(pairs(members@) =~= seq![
        ("amount_of_blocks"@, decimal(amount_of_blocks as nat)),
        ("wallet_address"@, quoted(wallet_address@)),
    ]);
    Request::new("generateblocks", object(&members))
}

/// The header in the result of `get_block_header_by_height`: the result
/// holds it as `block_header`, beside a `status` and the flag `untrusted`.
pub open spec fn decoded_header_result(result: JsonModel) -> Option<BlockHeaderView> {
    match result.member("block_header"@) {
        Some(entry) => if result.text_at("status"@) is Some && result.bool_at("untrusted"@) is Some {
            BlockHeader::decoded(entry)
        } else {
            None
        },
        None => None,
    }
}

/// Reads the result of `get_block_header_by_height`.
pub fn header_from_result(result: &Json) -> (r: Option<BlockHeader>)
    ensures
        match r {
            Some(header) => decoded_header_result(result@) == Some(header@),
            None => decoded_header_result(result@) is None,
        },
{
    let entry = match result.get("block_header") {
        Some(entry) => entry,
        None => { return None; },
    };
    if result.text_at("status").is_none() || result.bool_at("untrusted").is_none() {
        return None;
    }
    BlockHeader::from_json(entry)
}

impl GenerateBlocks {
    /// The value that `result` stands for, where it has a `height`.
    pub open spec fn decoded(result: JsonModel) -> Option<GenerateBlocks> {
        match result.u32_at("height"@) {
            Some(height) => Some(GenerateBlocks { height }),
            None => None,
        }
    }

    /// Reads the result of `generateblocks`.
    pub fn from_json(result: &Json) -> (r: Option<GenerateBlocks>)
        ensures
            r == Self::decoded(result@),
    {
        match result.u32_at("height") {
            Some(height) => Some(GenerateBlocks { height }),
            None => None,
        }
    }
}

/// What a reply to `get_block_header_by_height` means.
pub open spec fn header_of_reply(status: u16, document: Option<JsonModel>) -> Result<
    BlockHeaderView,
    Failure,
> {
    match envelope_result(status, document) {
        Ok(result) => match decoded_header_result(result) {
            Some(header) => Ok(header),
            None => Err(Failure::MalformedResponse),
        },
        Err(failure) => Err(failure),
    }
}

/// Reads the reply to `get_block_header_by_height`.
pub fn get_block_header_by_height_result(reply: &Reply) -> (r: Result<BlockHeader, Failure>)
    ensures
        match r {
            Ok(header) => header_of_reply(reply.status, reply.document_model()) == Ok::<
                BlockHeaderView,
                Failure,
            >(header@),
            Err(failure) => header_of_reply(reply.status, reply.document_model()) == Err::<
                BlockHeaderView,
                Failure,
            >(failure),
        },
{
    match reply.result() {
        Ok(result) => match header_from_result(result) {
            Some(header) => Ok(header),
            None => Err(Failure::MalformedResponse),
        },
        Err(failure) => Err(failure),
    }
}

/// What a reply to `generateblocks` means.
pub open spec fn generated_of_reply(status: u16, document: Option<JsonModel>) -> Result<
    GenerateBlocks,
    Failure,
> {
    match envelope_result(status, document) {
        Ok(result) => match GenerateBlocks::decoded(result) {
            Some(value) => Ok(value),
            None => Err(Failure::MalformedResponse),
        },
        Err(failure) => Err(failure),
    }
}

/// Reads the reply to `generateblocks`.
pub fn generate_blocks_result(reply: &Reply) -> (r: Result<GenerateBlocks, Failure>)
    ensures
        r == generated_of_reply(reply.status, reply.document_model()),
{
    match reply.result() {
        Ok(result) => match GenerateBlocks::from_json(result) {
            Some(value) => Ok(value),
            None => Err(Failure::MalformedResponse),
        },
        Err(failure) => Err(failure),
    }
}

} // verus!
