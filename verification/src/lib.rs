//! Deterministic bootstrap of a block-producing daemon and its wallet service
//! for integration tests, with the JSON-RPC envelope both services speak.

pub mod bootstrap;
pub mod encode;
pub mod endpoint;
pub mod exchange;
pub mod failure;
pub mod json;
pub mod miner;
pub mod monerod;
pub mod wallet;

use crate::encode::{
    joined, member_text, object, object_text, plain_text_is_quoted_as_it_is, quoted, string,
};
use crate::failure::Failure;
use crate::json::{parsed_json, Json, JsonModel};
use vstd::prelude::*;

verus! {

/// The protocol version every request carries.
pub open spec fn protocol_version() -> Seq<char> {
    "2.0"@
}

/// The identifier every request carries.
pub open spec fn request_id() -> Seq<char> {
    "1"@
}

/// The body of a request for `method` whose parameters are written as
/// `params`: one object with the members `jsonrpc`, `id`, `method` and
/// `params`, in this order.
pub open spec fn request_text(method: Seq<char>, params: Seq<char>) -> Seq<char> {
    object_text(
        seq![
            ("jsonrpc"@, quoted(protocol_version())),
            ("id"@, quoted(request_id())),
            ("method"@, quoted(method)),
            ("params"@, params),
        ],
    )
}

/// The body of a request, letter for letter: the version `"2.0"` and the
/// identifier `"1"` in every request, then the method and the parameters.
pub proof fn request_text_is_the_wire_format(method: Seq<char>, params: Seq<char>)
    ensures
        request_text(method, params) == "{\"jsonrpc\":\"2.0\",\"id\":\"1\",\"method\":"@ + quoted(
            method,
        ) + ",\"params\":"@ + params + "}"@,
{
    reveal_strlit("jsonrpc");
    reveal_strlit("2.0");
    reveal_strlit("id");
    reveal_strlit("1");
    reveal_strlit("method");
    reveal_strlit("params");
    reveal_strlit("{\"jsonrpc\":\"2.0\",\"id\":\"1\",\"method\":");
    reveal_strlit(",\"params\":");
    reveal_strlit("}");
    plain_text_is_quoted_as_it_is("jsonrpc"@);
    plain_text_is_quoted_as_it_is("2.0"@);
    plain_text_is_quoted_as_it_is("id"@);
    plain_text_is_quoted_as_it_is("1"@);
    plain_text_is_quoted_as_it_is("method"@);
    plain_text_is_quoted_as_it_is("params"@);
    let members = seq![
        ("jsonrpc"@, quoted(protocol_version())),
        ("id"@, quoted(request_id())),
        ("method"@, quoted(method)),
        ("params"@, params),
    ];
    let texts = Seq::new(members.len(), |i: int| member_text(members[i].0, members[i].1));
    assert(texts.drop_last().drop_last().drop_last() =~= seq![texts[0]]);
    assert(texts.drop_last().drop_last() =~= seq![texts[0], texts[1]]);
    assert(texts.drop_last() =~= seq![texts[0], texts[1], texts[2]]);
    assert(joined(seq![texts[0]]) == texts[0]);
    assert(joined(seq![texts[0], texts[1]]) == texts[0] + seq![','] + texts[1]);
    assert(joined(seq![texts[0], texts[1], texts[2]]) == texts[0] + seq![','] + texts[1] + seq![
        ',',
    ] + texts[2]);
}

/// The header of one block, as the daemon reports it.
#[derive(Clone, Debug, PartialEq, Eq)]
pub struct BlockHeader {
    pub block_size: u32,
    pub depth: u32,
    pub difficulty: u32,
    pub hash: String,
    pub height: u32,
    pub major_version: u32,
    pub minor_version: u32,
    pub nonce: u32,
    pub num_txes: u32,
    pub orphan_status: bool,
    pub prev_hash: String,
    pub reward: u64,
    pub timestamp: u32,
}

pub struct BlockHeaderView {
    pub block_size: u32,
    pub depth: u32,
    pub difficulty: u32,
    pub hash: Seq<char>,
    pub height: u32,
    pub major_version: u32,
    pub minor_version: u32,
    pub nonce: u32,
    pub num_txes: u32,
    pub orphan_status: bool,
    pub prev_hash: Seq<char>,
    pub reward: u64,
    pub timestamp: u32,
}

impl View for BlockHeader {
    type V = BlockHeaderView;

    open spec fn view(&self) -> BlockHeaderView {
        BlockHeaderView {
            block_size: self.block_size,
            depth: self.depth,
            difficulty: self.difficulty,
            hash: self.hash@,
            height: self.height,
            major_version: self.major_version,
            minor_version: self.minor_version,
            nonce: self.nonce,
            num_txes: self.num_txes,
            orphan_status: self.orphan_status,
            prev_hash: self.prev_hash@,
            reward: self.reward,
            timestamp: self.timestamp,
        }
    }
}

impl BlockHeader {
    /// The header that `entry` stands for, where it has all thirteen members.
    pub open spec fn decoded(entry: JsonModel) -> Option<BlockHeaderView> {
        if entry.u32_at("block_size"@) is Some && entry.u32_at("depth"@) is Some && entry.u32_at(
            "difficulty"@,
        ) is Some && entry.text_at("hash"@) is Some && entry.u32_at("height"@) is Some
            && entry.u32_at("major_version"@) is Some && entry.u32_at("minor_version"@) is Some
            && entry.u32_at("nonce"@) is Some && entry.u32_at("num_txes"@) is Some
            && entry.bool_at("orphan_status"@) is Some && entry.text_at("prev_hash"@) is Some
            && entry.u64_at("reward"@) is Some && entry.u32_at("timestamp"@) is Some {
            Some(
                BlockHeaderView {
                    block_size: entry.u32_at("block_size"@).unwrap(),
                    depth: entry.u32_at("depth"@).unwrap(),
                    difficulty: entry.u32_at("difficulty"@).unwrap(),
                    hash: entry.text_at("hash"@).unwrap(),
                    height: entry.u32_at("height"@).unwrap(),
                    major_version: entry.u32_at("major_version"@).unwrap(),
                    minor_version: entry.u32_at("minor_version"@).unwrap(),
                    nonce: entry.u32_at("nonce"@).unwrap(),
                    num_txes: entry.u32_at("num_txes"@).unwrap(),
                    orphan_status: entry.bool_at("orphan_status"@).unwrap(),
                    prev_hash: entry.text_at("prev_hash"@).unwrap(),
                    reward: entry.u64_at("reward"@).unwrap(),
                    timestamp: entry.u32_at("timestamp"@).unwrap(),
                },
            )
        } else {
            None
        }
    }

    /// Reads one block header.
    pub fn from_json(entry: &Json) -> (r: Option<BlockHeader>)
        ensures
            match r {
                Some(header) => Self::decoded(entry@) == Some(header@),
                None => Self::decoded(entry@) is None,
            },
    {
        let block_size = match entry.u32_at("block_size") {
            Some(n) => n,
            None => { return None; },
        };
        let depth = match entry.u32_at("depth") {
            Some(n) => n,
            None => { return None; },
        };
        let difficulty = match entry.u32_at("difficulty") {
            Some(n) => n,
            None => { return None; },
        };
        let hash = match entry.text_at("hash") {
            Some(s) => s,
            None => { return None; },
        };
        let height = match entry.u32_at("height") {
            Some(n) => n,
            None => { return None; },
        };
        let major_version = match entry.u32_at("major_version") {
            Some(n) => n,
            None => { return None; },
        };
        let minor_version = match entry.u32_at("minor_version") {
            Some(n) => n,
            None => { return None; },
        };
        let nonce = match entry.u32_at("nonce") {
            Some(n) => n,
            None => { return None; },
        };
        let num_txes = match entry.u32_at("num_txes") {
            Some(n) => n,
            None => { return None; },
        };
        let orphan_status = match entry.bool_at("orphan_status") {
            Some(b) => b,
            None => { return None; },
        };
        let prev_hash = match entry.text_at("prev_hash") {
            Some(s) => s,
            None => { return None; },
        };
        let reward = match entry.u64_at("reward") {
            Some(n) => n,
            None => { return None; },
        };
        let timestamp = match entry.u32_at("timestamp") {
            Some(n) => n,
            None => { return None; },
        };
        Some(
            BlockHeader {
                block_size,
                depth,
                difficulty,
                hash,
                height,
                major_version,
                minor_version,
                nonce,
                num_txes,
                orphan_status,
                prev_hash,
                reward,
                timestamp,
            },
        )
    }
}

/// JSON-RPC request envelope.
#[derive(Debug)]
pub struct Request<T> {
    jsonrpc: String,
    id: String,
    method: String,
    params: T,
}

impl<T> Request<T> {
    #[verifier::type_invariant]
    spec fn well_formed(self) -> bool {
        &&& self.jsonrpc@ == protocol_version()
        &&& self.id@ == request_id()
    }

    /// The method this request names.
    pub closed spec fn method_name(self) -> Seq<char> {
        self.method@
    }

    /// The parameters this request carries.
    pub closed spec fn parameters(self) -> T {
        self.params
    }

    /// Wraps `method` and `params` without looking at either.
    pub fn new(method: &str, params: T) -> (request: Self)
        ensures
            request.method_name() == method@,
            request.parameters() == params,
    {
        Request { jsonrpc: "2.0".to_owned(), id: "1".to_owned(), method: method.to_owned(), params }
    }

    /// The method this request names.
    pub fn method(&self) -> (name: &str)
        ensures
            name@ == self.method_name(),
    {
        self.method.as_str()
    }

    /// The parameters this request carries.
    pub fn params(&self) -> (params: &T)
        ensures
            *params == self.parameters(),
    {
        &self.params
    }
}

impl<T: Clone> Clone for Request<T> {
    fn clone(&self) -> (copy: Self)
        ensures
            copy.method_name() == self.method_name(),
    {
        Request::new(self.method.as_str(), self.params.clone())
    }
}

impl Request<String> {
    /// Writes the request whose parameters are already written as JSON text.
    pub fn encode(&self) -> (text: String)
        ensures
            text@ == request_text(self.method_name(), self.parameters()@),
    {
        proof {
            use_type_invariant(self);
        }
        let mut members: Vec<(String, String)> = Vec::new();
        members.push(("jsonrpc".to_owned(), string(self.jsonrpc.as_str())));
        members.push(("id".to_owned(), string(self.id.as_str())));
        members.push(("method".to_owned(), string(self.method.as_str())));
        members.push(("params".to_owned(), self.params.clone()));
        assert(crate::encode::pairs(members@) =~= seq![
            ("jsonrpc"@, quoted(protocol_version())),
            ("id"@, quoted(request_id())),
            ("method"@, quoted(self.method@)),
            ("params"@, self.params@),
        ]);
        object(&members)
    }
}

/// What came back from a service: the HTTP status, and the body read as
/// JSON where it is JSON.
#[derive(Debug, PartialEq, Eq)]
pub struct Reply {
    pub status: u16,
    pub document: Option<Json>,
}

impl Reply {
    /// The document of this reply as a mathematical value.
    pub open spec fn document_model(self) -> Option<JsonModel> {
        match self.document {
            Some(document) => Some(document@),
            None => None,
        }
    }

    /// The reply that consists of `status` and the text `body`.
    pub fn read(status: u16, body: &str) -> (reply: Reply)
        ensures
            reply.status == status,
            reply.document_model() == parsed_json(body@),
    {
        Reply { status, document: Json::parse(body) }
    }

    /// The `result` of the envelope, or why there is none.
    pub fn result(&self) -> (r: Result<&Json, Failure>)
        ensures
            match r {
                Ok(value) => envelope_result(self.status, self.document_model()) == Ok::<
                    JsonModel,
                    Failure,
                >(value@),
                Err(failure) => envelope_result(self.status, self.document_model()) == Err::<
                    JsonModel,
                    Failure,
                >(failure),
            },
    {
        if self.status < 200 || self.status > 299 {
            return Err(Failure::RpcError);
        }
        match &self.document {
            None => Err(Failure::RpcError),
            Some(document) => {
                if document.get("error").is_some() {
                    return Err(Failure::RpcError);
                }
                if document.text_at("id").is_none() || document.text_at("jsonrpc").is_none() {
                    return Err(Failure::MalformedResponse);
                }
                match document.get("result") {
                    Some(value) => Ok(value),
                    None => Err(Failure::MalformedResponse),
                }
            },
        }
    }
}

/// What a reply means. A status outside 200..=299, a body that is no JSON
/// and an envelope with an `error` member are the service's refusal. Any
/// other envelope must hold `id` and `jsonrpc` as strings and a `result`.
pub open spec fn envelope_result(status: u16, document: Option<JsonModel>) -> Result<
    JsonModel,
    Failure,
> {
    if status < 200 || status > 299 {
        Err(Failure::RpcError)
    } else {
        match document {
            None => Err(Failure::RpcError),
            Some(envelope) => {
                if envelope.member("error"@) is Some {
                    Err(Failure::RpcError)
                } else if envelope.text_at("id"@) is Some && envelope.text_at("jsonrpc"@) is Some
                    && envelope.member("result"@) is Some {
                    Ok(envelope.member("result"@).unwrap())
                } else {
                    Err(Failure::MalformedResponse)
                }
            },
        }
    }
}

/// What a service refuses is an `RpcError` whatever the call: a status
/// outside 200..=299 whatever the body, a body that is no JSON, and an `error`
/// member in the envelope whatever else the envelope holds.
pub proof fn refusal_is_an_rpc_error(status: u16, document: Option<JsonModel>)
    requires
        status < 200 || status > 299 || document is None || document.unwrap().member("error"@)
            is Some,
    ensures
        envelope_result(status, document) == Err::<JsonModel, Failure>(Failure::RpcError),
{
}

} // verus!
