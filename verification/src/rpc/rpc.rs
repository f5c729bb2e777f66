//! RPC types and requests for interacting with a substrate node.

use crate::error::Error;
use crate::metadata::hash_cache::Outcome;
use crate::metadata::metadata_type::parse;
use crate::metadata::metadata_utils::str_eq;
use crate::metadata::runtime_metadata::{RuntimeMetadata, RuntimeMetadataPrefixed};
use crate::metadata::Metadata;
use vstd::prelude::*;

verus! {

/// A number type that can be serialized both as a number or a string that encodes a number in a
/// string.
///
/// We allow two representations of the block number as input. Either we deserialize to the type
/// that is specified in the block type or we attempt to parse given hex value.
///
/// The primary motivation for having this type is to avoid overflows when using big integers in
/// JavaScript (which we consider as an important RPC API consumer).
#[derive(Copy, Clone, Debug, PartialEq, Eq)]
pub enum NumberOrHex {
    /// The number represented directly.
    Number(u64),
    /// A 256-bit number, as its 32 bytes from the most significant to the least.
    Hex([u8; 32]),
}

/// Wrapper for NumberOrHex to allow custom From impls
#[derive(Copy, Clone, Debug, PartialEq, Eq)]
pub struct BlockNumber(pub NumberOrHex);

/// Possible transaction status events.
#[derive(Debug, Clone, PartialEq, Eq)]
pub enum SubstrateTxStatus<Hash, BlockHash> {
    /// Transaction is part of the future queue.
    Future,
    /// Transaction is part of the ready queue.
    Ready,
    /// The transaction has been broadcast to the given peers.
    Broadcast(Vec<String>),
    /// Transaction has been included in block with given hash.
    InBlock(BlockHash),
    /// The block this transaction was included in has been retracted.
    Retracted(BlockHash),
    /// Maximum number of finality watchers has been reached,
    /// old watchers are being removed.
    FinalityTimeout(BlockHash),
    /// Transaction has been finalized by a finality-gadget, e.g GRANDPA
    Finalized(BlockHash),
    /// Transaction has been replaced in the pool, by another transaction
    /// that provides the same tags. (e.g. same (sender, nonce)).
    Usurped(Hash),
    /// Transaction has been dropped from the pool because of the limit.
    Dropped,
    /// Transaction is no longer valid in the current state.
    Invalid,
}

/// This contains the runtime version information necessary to make transactions, as obtained from
/// the RPC call `state_getRuntimeVersion`,
#[derive(Debug, PartialEq, Eq)]
pub struct RuntimeVersion {
    /// Version of the runtime specification. A full-node will not attempt to use its native
    /// runtime in substitute for the on-chain Wasm runtime unless all of `spec_name`,
    /// `spec_version` and `authoring_version` are the same between Wasm and native.
    pub spec_version: u32,
    /// All existing dispatches are fully compatible when this number doesn't change. If this
    /// number changes, then `spec_version` must change, also.
    pub transaction_version: u32,
    /// The other fields present may vary and aren't necessary here; they are preserved,
    /// each with its name and with its value as compact JSON text.
    pub other: Vec<(String, String)>,
}

/// The sixteen hexadecimal digits, in lower case.
pub open spec fn hex_digits() -> Seq<char> {
    seq!['0', '1', '2', '3', '4', '5', '6', '7', '8', '9', 'a', 'b', 'c', 'd', 'e', 'f']
}

/// The bytes written as hexadecimal digits in lower case, two for each byte, the
/// high half first.
pub open spec fn hex_chars(bytes: Seq<u8>) -> Seq<char> {
    Seq::new(
        2 * bytes.len(),
        |i: int|
            if i % 2 == 0 {
                hex_digits()[(bytes[i / 2] / 16) as int]
            } else {
                hex_digits()[(bytes[i / 2] % 16) as int]
            },
    )
}

/// Calls `hex::encode`, which writes each byte as two hexadecimal digits in lower
/// case, the high half first.
#[verifier::external_body]
fn hex_encode(bytes: &[u8]) -> (text: String)
    ensures
        text@ == hex_chars(bytes@),
{
    hex::encode(bytes)
}

/// The bytes in hexadecimal after `0x`, as nodes expect storage keys and hashes.
pub fn to_hex(bytes: &[u8]) -> (text: String)
    ensures
        text@ == "0x"@ + hex_chars(bytes@),
{
    let digits = hex_encode(bytes);
    String::from_str("0x").concat(digits.as_str())
}

/// One positional parameter of a request.
#[derive(Clone, Debug, PartialEq, Eq)]
pub enum Param {
    /// No value: an optional parameter that was left out.
    Null,
    /// A string.
    Str(String),
    /// A number.
    Number(u64),
    /// A 256-bit number, most significant byte first, which goes out in hexadecimal.
    Hex([u8; 32]),
}

/// A request for the transport to perform: a method, its parameters in order, and
/// for a subscription the method that ends it.
#[derive(Clone, Debug, PartialEq, Eq)]
pub struct RpcRequest {
    pub method: String,
    pub params: Vec<Param>,
    pub unsubscribe_method: Option<String>,
}

/// What an [`RpcRequest`] holds.
pub ghost struct RpcRequestView {
    pub method: Seq<char>,
    pub params: Seq<ParamView>,
    pub unsubscribe_method: Option<Seq<char>>,
}

/// What a [`Param`] holds.
pub ghost enum ParamView {
    Null,
    Str(Seq<char>),
    Number(u64),
    Hex(Seq<u8>),
}

impl View for Param {
    type V = ParamView;

    open spec fn view(&self) -> ParamView {
        match self {
            Param::Null => ParamView::Null,
            Param::Str(text) => ParamView::Str(text@),
            Param::Number(n) => ParamView::Number(*n),
            Param::Hex(bytes) => ParamView::Hex(bytes@),
        }
    }
}

impl View for RpcRequest {
    type V = RpcRequestView;

    open spec fn view(&self) -> RpcRequestView {
        RpcRequestView {
            method: self.method@,
            params: Seq::new(self.params@.len(), |i: int| self.params@[i]@),
            unsubscribe_method: match self.unsubscribe_method {
                Some(method) => Some(method@),
                None => None,
            },
        }
    }
}

/// The parameter that stands for an optional hash: its bytes in hexadecimal, or no
/// value.
pub open spec fn hash_param(hash: Option<Seq<u8>>) -> ParamView {
    match hash {
        Some(bytes) => ParamView::Str("0x"@ + hex_chars(bytes)),
        None => ParamView::Null,
    }
}

fn make_hash_param(hash: Option<&[u8]>) -> (param: Param)
    ensures
        param@ == hash_param(
            match hash {
                Some(bytes) => Some(bytes@),
                None => None,
            },
        ),
{
    match hash {
        Some(bytes) => Param::Str(to_hex(bytes)),
        None => Param::Null,
    }
}

impl RpcRequest {
    /// The request for the raw bytes of a storage key, at the block with the given
    /// hash or at the latest block.
    pub fn storage(key: &[u8], hash: Option<&[u8]>) -> (request: RpcRequest)
        ensures
            request@ == (RpcRequestView {
                method: "state_getStorage"@,
                params: seq![
                    ParamView::Str("0x"@ + hex_chars(key@)),
                    hash_param(
                        match hash {
                            Some(bytes) => Some(bytes@),
                            None => None,
                        },
                    ),
                ],
                unsubscribe_method: None,
            }),
    {
        let mut params: Vec<Param> = Vec::new();
        params.push(Param::Str(to_hex(key)));
        params.push(make_hash_param(hash));
        let request = RpcRequest {
            method: String::from_str("state_getStorage"),
            params,
            unsubscribe_method: None,
        };
        assert(request@.params =~= seq![
            ParamView::Str("0x"@ + hex_chars(key@)),
            hash_param(
                match hash {
                    Some(bytes) => Some(bytes@),
                    None => None,
                },
            ),
        ]);
        request
    }

    /// The request for the metadata.
    pub fn metadata() -> (request: RpcRequest)
        ensures
            request@ == (RpcRequestView {
                method: "state_getMetadata"@,
                params: Seq::empty(),
                unsubscribe_method: None,
            }),
    {
        let request = RpcRequest {
            method: String::from_str("state_getMetadata"),
            params: Vec::new(),
            unsubscribe_method: None,
        };
        assert(request@.params =~= Seq::empty());
        request
    }

    /// The request for a block hash: that of the block with the given number, or of
    /// the latest block.
    pub fn block_hash(block_number: Option<BlockNumber>) -> (request: RpcRequest)
        ensures
            request@ == (RpcRequestView {
                method: "chain_getBlockHash"@,
                params: seq![
                    match block_number {
                        Some(BlockNumber(NumberOrHex::Number(n))) => ParamView::Number(n),
                        Some(BlockNumber(NumberOrHex::Hex(bytes))) => ParamView::Hex(bytes@),
                        None => ParamView::Null,
                    },
                ],
                unsubscribe_method: None,
            }),
    {
        let param = match block_number {
            Some(BlockNumber(NumberOrHex::Number(n))) => Param::Number(n),
            Some(BlockNumber(NumberOrHex::Hex(bytes))) => Param::Hex(bytes),
            None => Param::Null,
        };
        let mut params: Vec<Param> = Vec::new();
        params.push(param);
        let request = RpcRequest {
            method: String::from_str("chain_getBlockHash"),
            params,
            unsubscribe_method: None,
        };
        assert(request@.params =~= seq![param@]);
        request
    }

    /// The request for the runtime version, at the block with the given hash or at
    /// the latest block.
    pub fn runtime_version(at: Option<&[u8]>) -> (request: RpcRequest)
        ensures
            request@ == (RpcRequestView {
                method: "state_getRuntimeVersion"@,
                params: seq![
                    hash_param(
                        match at {
                            Some(bytes) => Some(bytes@),
                            None => None,
                        },
                    ),
                ],
                unsubscribe_method: None,
            }),
    {
        let mut params: Vec<Param> = Vec::new();
        params.push(make_hash_param(at));
        let request = RpcRequest {
            method: String::from_str("state_getRuntimeVersion"),
            params,
            unsubscribe_method: None,
        };
        assert(request@.params =~= seq![
            hash_param(
                match at {
                    Some(bytes) => Some(bytes@),
                    None => None,
                },
            ),
        ]);
        request
    }

    /// The subscription to the headers of new blocks, with the method that ends it.
    pub fn subscribe_blocks() -> (request: RpcRequest)
        ensures
            request@ == (RpcRequestView {
                method: "chain_subscribeNewHeads"@,
                params: Seq::empty(),
                unsubscribe_method: Some("chain_unsubscribeNewHeads"@),
            }),
    {
        let request = RpcRequest {
            method: String::from_str("chain_subscribeNewHeads"),
            params: Vec::new(),
            unsubscribe_method: Some(String::from_str("chain_unsubscribeNewHeads")),
        };
        assert(request@.params =~= Seq::empty());
        request
    }
}

/// What the fetch of the metadata comes to, given what the transport and the codec
/// made of the request: their error passes through, and decoded metadata is
/// indexed or refused as invalid.
pub fn metadata_from_response(response: Result<RuntimeMetadataPrefixed, Error>) -> (out: Result<
    Metadata,
    Error,
>)
    ensures
        match response {
            Err(e) => out matches Err(err) && err == e,
            Ok(prefixed) => match parse(prefixed) {
                Ok(events) => out matches Ok(indexed) && prefixed.1 == RuntimeMetadata::V14(
                    indexed.runtime(),
                ) && indexed.events() == events && indexed.cache() == Map::<
                    (Seq<char>, Seq<char>),
                    Outcome,
                >::empty() && indexed.coherent(),
                Err(e) => out matches Err(err) && err == Error::InvalidMetadata(e),
            },
        },
{
    match response {
        Err(e) => Err(e),
        Ok(prefixed) => match Metadata::try_from(prefixed) {
            Ok(indexed) => Ok(indexed),
            Err(e) => Err(Error::InvalidMetadata(e)),
        },
    }
}

/// One member of a JSON object: its name, the number it holds where its value is an
/// unsigned integer below 2^64, and its value as compact JSON text.
#[derive(Clone, Debug, PartialEq, Eq)]
pub struct JsonMember {
    pub name: String,
    pub number: Option<u64>,
    pub text: String,
}

/// What a [`JsonMember`] holds.
pub ghost struct JsonMemberView {
    pub name: Seq<char>,
    pub number: Option<u64>,
    pub text: Seq<char>,
}

impl View for JsonMember {
    type V = JsonMemberView;

    open spec fn view(&self) -> JsonMemberView {
        JsonMemberView { name: self.name@, number: self.number, text: self.text@ }
    }
}

/// What `serde_json` makes of a text that is to hold one JSON object: the members of
/// the object, or the message of the parser's error.
pub uninterp spec fn json_object(text: Seq<char>) -> Result<Seq<JsonMemberView>, Seq<char>>;

/// A string as JSON text, as `serde_json` writes it: in double quotes, with what
/// JSON does not take as it is escaped.
pub uninterp spec fn json_quoted(text: Seq<char>) -> Seq<char>;

/// Parses the text as a JSON object with `serde_json::from_str` and hands out the
/// members as the parsed map yields them, each with its name, with the result of
/// `Value::as_u64`, and with the value as `Value`'s `Display` writes it. A text
/// that is no JSON object gives the parser's message.
#[verifier::external_body]
fn parse_json_object(text: &str) -> (out: Result<Vec<JsonMember>, String>)
    ensures
        match json_object(text@) {
            Ok(members) => out matches Ok(parsed) && parsed@.len() == members.len()
                && forall|i: int|
                0 <= i < members.len() ==> (#[trigger] parsed@[i])@ == members[i],
            Err(message) => out matches Err(m) && m@ == message,
        },
{
    match serde_json::from_str::<serde_json::Map<String, serde_json::Value>>(text) {
        Ok(object) => Ok(
            object.into_iter().map(
                |(name, value)| JsonMember { number: value.as_u64(), text: value.to_string(), name },
            ).collect(),
        ),
        Err(e) => Err(e.to_string()),
    }
}

/// Writes the string as JSON text with the `Display` of `serde_json::Value`.
#[verifier::external_body]
fn quote_json(text: &str) -> (quoted: String)
    ensures
        quoted@ == json_quoted(text@),
{
    serde_json::Value::String(text.to_owned()).to_string()
}

/// The decimal digits of `n`, without leading zeros.
pub open spec fn decimal_chars(n: nat) -> Seq<char>
    decreases n,
{
    if n < 10 {
        seq![hex_digits()[n as int]]
    } else {
        decimal_chars(n / 10) + seq![hex_digits()[(n % 10) as int]]
    }
}

fn digit_text(digit: u32) -> (text: &'static str)
    requires
        digit < 10,
    ensures
        text@ == seq![hex_digits()[digit as int]],
{
    proof {
        reveal_strlit("0");
        reveal_strlit("1");
        reveal_strlit("2");
        reveal_strlit("3");
        reveal_strlit("4");
        reveal_strlit("5");
        reveal_strlit("6");
        reveal_strlit("7");
        reveal_strlit("8");
        reveal_strlit("9");
    }
    let text = match digit {
        0 => "0",
        1 => "1",
        2 => "2",
        3 => "3",
        4 => "4",
        5 => "5",
        6 => "6",
        7 => "7",
        8 => "8",
        _ => "9",
    };
    assert(text@ =~= seq![hex_digits()[digit as int]]);
    text
}

/// The number in decimal.
fn decimal(n: u32) -> (text: String)
    ensures
        text@ == decimal_chars(n as nat),
    decreases n,
{
    if n < 10 {
        String::from_str(digit_text(n))
    } else {
        decimal(n / 10).concat(digit_text(n % 10))
    }
}

/// The position of the first member from `from` on that has the given name.
pub open spec fn find_member(members: Seq<JsonMemberView>, name: Seq<char>, from: nat) -> Option<
    int,
>
    decreases members.len() - from,
{
    if from >= members.len() {
        None
    } else if members[from as int].name == name {
        Some(from as int)
    } else {
        find_member(members, name, from + 1)
    }
}

/// The version that the members give under `name`: the number of the first member
/// of that name, which has to fit 32 bits; or what is wrong.
pub open spec fn version_member(members: Seq<JsonMemberView>, name: Seq<char>) -> Result<
    u32,
    Seq<char>,
> {
    match find_member(members, name, 0) {
        None => Err("missing field `"@ + name + "`"@),
        Some(at) => match members[at].number {
            Some(n) => if n <= u32::MAX {
                Ok(n as u32)
            } else {
                Err("invalid value for field `"@ + name + "`, expected u32"@)
            },
            None => Err("invalid value for field `"@ + name + "`, expected u32"@),
        },
    }
}

/// The first `upto` members without those that give a version, each as its name and
/// text.
pub open spec fn other_members(members: Seq<JsonMemberView>, upto: nat) -> Seq<
    (Seq<char>, Seq<char>),
>
    decreases upto,
{
    if upto == 0 || upto > members.len() {
        Seq::empty()
    } else {
        let member = members[upto - 1];
        if member.name == "specVersion"@ || member.name == "transactionVersion"@ {
            other_members(members, (upto - 1) as nat)
        } else {
            other_members(members, (upto - 1) as nat).push((member.name, member.text))
        }
    }
}

/// What a [`RuntimeVersion`] holds.
pub ghost struct RuntimeVersionView {
    pub spec_version: u32,
    pub transaction_version: u32,
    pub other: Seq<(Seq<char>, Seq<char>)>,
}

impl View for RuntimeVersion {
    type V = RuntimeVersionView;

    open spec fn view(&self) -> RuntimeVersionView {
        RuntimeVersionView {
            spec_version: self.spec_version,
            transaction_version: self.transaction_version,
            other: Seq::new(self.other@.len(), |i: int| (self.other@[i].0@, self.other@[i].1@)),
        }
    }
}

/// The runtime version that the members of a JSON object give, or the message that
/// says what is wrong: `specVersion` is read first, then `transactionVersion`, and
/// all other members are kept in their order.
pub open spec fn runtime_version_of(members: Seq<JsonMemberView>) -> Result<
    RuntimeVersionView,
    Seq<char>,
> {
    match version_member(members, "specVersion"@) {
        Err(message) => Err(message),
        Ok(spec_version) => match version_member(members, "transactionVersion"@) {
            Err(message) => Err(message),
            Ok(transaction_version) => Ok(
                RuntimeVersionView {
                    spec_version,
                    transaction_version,
                    other: other_members(members, members.len()),
                },
            ),
        },
    }
}

/// `text` followed by the members from position `from` on as JSON, each after a
/// comma.
pub open spec fn with_members(text: Seq<char>, other: Seq<(Seq<char>, Seq<char>)>, from: nat) -> Seq<
    char,
>
    decreases other.len() - from,
{
    if from >= other.len() {
        text
    } else {
        with_members(
            text + ","@ + json_quoted(other[from as int].0) + ":"@ + other[from as int].1,
            other,
            from + 1,
        )
    }
}

/// The runtime version as compact JSON text: the two versions first, then the other
/// members in their order.
pub open spec fn runtime_version_json(version: RuntimeVersionView) -> Seq<char> {
    with_members(
        "{\"specVersion\":"@ + decimal_chars(version.spec_version as nat)
            + ",\"transactionVersion\":"@ + decimal_chars(version.transaction_version as nat),
        version.other,
        0,
    ) + "}"@
}

fn read_version(members: &Vec<JsonMember>, name: &str) -> (out: Result<u32, String>)
    ensures
        match version_member(Seq::new(members@.len(), |i: int| members@[i]@), name@) {
            Ok(version) => out == Ok::<u32, String>(version),
            Err(message) => out matches Err(m) && m@ == message,
        },
{
    let ghost views = Seq::new(members@.len(), |i: int| members@[i]@);
    let mut i: usize = 0;
    while i < members.len() && !str_eq(members[i].name.as_str(), name)
        invariant
            i <= members.len(),
            views == Seq::new(members@.len(), |i: int| members@[i]@),
            find_member(views, name@, i as nat) == find_member(views, name@, 0),
        decreases members.len() - i,
    {
        i += 1;
    }
    if i >= members.len() {
        return Err(String::from_str("missing field `").concat(name).concat("`"));
    }
    match members[i].number {
        Some(n) if n <= 0xffff_ffff => Ok(n as u32),
        _ => Err(
            String::from_str("invalid value for field `").concat(name).concat("`, expected u32"),
        ),
    }
}

impl Clone for RuntimeVersion {
    /// A runtime version that holds the same.
    fn clone(&self) -> (copy: RuntimeVersion)
        ensures
            copy@ == self@,
    {
        let mut other: Vec<(String, String)> = Vec::new();
        let mut i: usize = 0;
        while i < self.other.len()
            invariant
                i <= self.other.len(),
                other@ == self.other@.take(i as int),
            decreases self.other.len() - i,
        {
            other.push((self.other[i].0.clone(), self.other[i].1.clone()));
            i += 1;
            assert(other@ =~= self.other@.take(i as int));
        }
        assert(self.other@.take(self.other@.len() as int) =~= self.other@);
        RuntimeVersion {
            spec_version: self.spec_version,
            transaction_version: self.transaction_version,
            other,
        }
    }
}

impl RuntimeVersion {
    /// The runtime version that the members of a JSON object give. The members
    /// `specVersion` and `transactionVersion` have to be there and to hold unsigned
    /// numbers of 32 bits; every other member is kept.
    pub fn from_members(members: &Vec<JsonMember>) -> (out: Result<RuntimeVersion, Error>)
        ensures
            match runtime_version_of(Seq::new(members@.len(), |i: int| members@[i]@)) {
                Ok(version) => out matches Ok(v) && v@ == version,
                Err(message) => out matches Err(Error::Serialization(m)) && m@ == message,
            },
    {
        let ghost views = Seq::new(members@.len(), |i: int| members@[i]@);
        let spec_version = match read_version(members, "specVersion") {
            Ok(version) => version,
            Err(message) => {
                return Err(Error::Serialization(message));
            },
        };
        let transaction_version = match read_version(members, "transactionVersion") {
            Ok(version) => version,
            Err(message) => {
                return Err(Error::Serialization(message));
            },
        };
        let mut other: Vec<(String, String)> = Vec::new();
        let mut i: usize = 0;
        while i < members.len()
            invariant
                i <= members.len(),
                views == Seq::new(members@.len(), |i: int| members@[i]@),
                Seq::new(other@.len(), |j: int| (other@[j].0@, other@[j].1@)) == other_members(
                    views,
                    i as nat,
                ),
            decreases members.len() - i,
        {
            let member = &members[i];
            let ghost before = Seq::new(other@.len(), |j: int| (other@[j].0@, other@[j].1@));
            let is_version = str_eq(member.name.as_str(), "specVersion") || str_eq(
                member.name.as_str(),
                "transactionVersion",
            );
            if !is_version {
                other.push((member.name.clone(), member.text.clone()));
                assert(Seq::new(other@.len(), |j: int| (other@[j].0@, other@[j].1@)) =~= before.push(
                    (member.name@, member.text@),
                ));
            }
            i += 1;
        }
        Ok(RuntimeVersion { spec_version, transaction_version, other })
    }

    /// Read a runtime version from the text of a JSON object, as a node answers
    /// `state_getRuntimeVersion`.
    pub fn from_json(text: &str) -> (out: Result<RuntimeVersion, Error>)
        ensures
            match json_object(text@) {
                Ok(members) => match runtime_version_of(members) {
                    Ok(version) => out matches Ok(v) && v@ == version,
                    Err(message) => out matches Err(Error::Serialization(m)) && m@ == message,
                },
                Err(message) => out matches Err(Error::Serialization(m)) && m@ == message,
            },
    {
        match parse_json_object(text) {
            Ok(members) => {
                assert(Seq::new(members@.len(), |i: int| members@[i]@) =~= json_object(
                    text@,
                )->Ok_0);
                RuntimeVersion::from_members(&members)
            },
            Err(message) => Err(Error::Serialization(message)),
        }
    }

    /// The runtime version as compact JSON text: the two versions, then the other
    /// members as they were kept.
    pub fn to_json(&self) -> (text: String)
        ensures
            text@ == runtime_version_json(self@),
    {
        let mut text = String::from_str("{\"specVersion\":").concat(
            decimal(self.spec_version).as_str(),
        ).concat(",\"transactionVersion\":").concat(decimal(self.transaction_version).as_str());
        let ghost start = text@;
        let mut i: usize = 0;
        while i < self.other.len()
            invariant
                i <= self.other.len(),
                with_members(text@, self@.other, i as nat) == with_members(start, self@.other, 0),
            decreases self.other.len() - i,
        {
            let name = quote_json(self.other[i].0.as_str());
            let ghost before = text@;
            text = text.concat(",").concat(name.as_str()).concat(":").concat(
                self.other[i].1.as_str(),
            );
            assert(text@ == before + ","@ + json_quoted(self@.other[i as int].0) + ":"@
                + self@.other[i as int].1);
            i += 1;
        }
        text.concat("}")
    }
}

} // verus!
