use vstd::prelude::*;

use crate::encoder::{encoded, has_missing_default, last_set, EncodeError, OperationSignature};
use crate::error::{CallError, Error};
use crate::wire::WireValue;

verus! {

/// The server release a client is bound to, fixed for the client's lifetime.
#[derive(Clone, Copy, Debug, PartialEq, Eq, Structural)]
pub enum ProtocolVersion {
    V17,
    V18,
    V19,
    V20,
    V21,
    V22,
    V23,
    V24,
    V25,
    V26,
    V27,
    V28,
}

impl ProtocolVersion {
    /// The major release number.
    pub open spec fn release_spec(self) -> u64 {
        match self {
            ProtocolVersion::V17 => 17,
            ProtocolVersion::V18 => 18,
            ProtocolVersion::V19 => 19,
            ProtocolVersion::V20 => 20,
            ProtocolVersion::V21 => 21,
            ProtocolVersion::V22 => 22,
            ProtocolVersion::V23 => 23,
            ProtocolVersion::V24 => 24,
            ProtocolVersion::V25 => 25,
            ProtocolVersion::V26 => 26,
            ProtocolVersion::V27 => 27,
            ProtocolVersion::V28 => 28,
        }
    }

    pub fn release(&self) -> (r: u64)
        ensures
            r == self.release_spec(),
    {
        match self {
            ProtocolVersion::V17 => 17,
            ProtocolVersion::V18 => 18,
            ProtocolVersion::V19 => 19,
            ProtocolVersion::V20 => 20,
            ProtocolVersion::V21 => 21,
            ProtocolVersion::V22 => 22,
            ProtocolVersion::V23 => 23,
            ProtocolVersion::V24 => 24,
            ProtocolVersion::V25 => 25,
            ProtocolVersion::V26 => 26,
            ProtocolVersion::V27 => 27,
            ProtocolVersion::V28 => 28,
        }
    }

    /// The server version number of the release's first version, in the form the server
    /// reports it (`major * 10000 + minor * 100 + patch`).
    pub fn expected_server_version(&self) -> (r: u64)
        ensures
            r == self.release_spec() * 10000,
    {
        self.release() * 10000
    }
}

/// The logical operations a client offers, independent of the server version.
#[derive(Clone, Copy, Debug, PartialEq, Eq, Structural)]
pub enum Operation {
    GetAddedNodeInfo,
    GetNetTotals,
    GetNetworkInfo,
    GetPeerInfo,
    GetConnectionCount,
    GetRpcInfo,
    AddNode,
    ClearBanned,
    SetBan,
    ListBanned,
    DisconnectNode,
}

impl Operation {
    /// The wire method name.
    pub open spec fn method_spec(self) -> Seq<char> {
        match self {
            Operation::GetAddedNodeInfo => "getaddednodeinfo"@,
            Operation::GetNetTotals => "getnettotals"@,
            Operation::GetNetworkInfo => "getnetworkinfo"@,
            Operation::GetPeerInfo => "getpeerinfo"@,
            Operation::GetConnectionCount => "getconnectioncount"@,
            Operation::GetRpcInfo => "getrpcinfo"@,
            Operation::AddNode => "addnode"@,
            Operation::ClearBanned => "clearbanned"@,
            Operation::SetBan => "setban"@,
            Operation::ListBanned => "listbanned"@,
            Operation::DisconnectNode => "disconnectnode"@,
        }
    }

    pub fn method(&self) -> (r: &'static str)
        ensures
            r@ == self.method_spec(),
    {
        match self {
            Operation::GetAddedNodeInfo => "getaddednodeinfo",
            Operation::GetNetTotals => "getnettotals",
            Operation::GetNetworkInfo => "getnetworkinfo",
            Operation::GetPeerInfo => "getpeerinfo",
            Operation::GetConnectionCount => "getconnectioncount",
            Operation::GetRpcInfo => "getrpcinfo",
            Operation::AddNode => "addnode",
            Operation::ClearBanned => "clearbanned",
            Operation::SetBan => "setban",
            Operation::ListBanned => "listbanned",
            Operation::DisconnectNode => "disconnectnode",
        }
    }
}

/// What `addnode` asks of a node.
#[derive(Clone, Copy, Debug, PartialEq, Eq, Structural)]
pub enum AddNodeCommand {
    Add,
    Remove,
    OneTry,
}

impl AddNodeCommand {
    pub open spec fn wire_name(self) -> Seq<char> {
        match self {
            AddNodeCommand::Add => "add"@,
            AddNodeCommand::Remove => "remove"@,
            AddNodeCommand::OneTry => "onetry"@,
        }
    }

    pub fn as_str(&self) -> (r: &'static str)
        ensures
            r@ == self.wire_name(),
    {
        match self {
            AddNodeCommand::Add => "add",
            AddNodeCommand::Remove => "remove",
            AddNodeCommand::OneTry => "onetry",
        }
    }
}

/// What `setban` does with a subnet.
#[derive(Clone, Copy, Debug, PartialEq, Eq, Structural)]
pub enum SetBanCommand {
    Add,
    Remove,
}

impl SetBanCommand {
    pub open spec fn wire_name(self) -> Seq<char> {
        match self {
            SetBanCommand::Add => "add"@,
            SetBanCommand::Remove => "remove"@,
        }
    }

    pub fn as_str(&self) -> (r: &'static str)
        ensures
            r@ == self.wire_name(),
    {
        match self {
            SetBanCommand::Add => "add",
            SetBanCommand::Remove => "remove",
        }
    }
}

/// A call ready for the transport: method name and positional arguments.
#[derive(Debug)]
pub struct Request {
    pub method: String,
    pub params: Vec<WireValue>,
}

/// The wire value `v` is the string `s`.
pub open spec fn is_str(v: WireValue, s: Seq<char>) -> bool {
    v matches WireValue::Str(x) && x@ == s
}

/// The first release with `getrpcinfo`.
pub const RPC_INFO_RELEASE: u64 = 18;

/// The first release whose `addnode` takes the transport-selection flag.
pub const V2TRANSPORT_RELEASE: u64 = 26;

/// The release has a table entry for the operation.
pub open spec fn supports(v: ProtocolVersion, op: Operation) -> bool {
    !(op is GetRpcInfo && v.release_spec() < RPC_INFO_RELEASE)
}

/// Number of positional parameters of the operation under the release.
pub open spec fn arity(v: ProtocolVersion, op: Operation) -> nat {
    match op {
        Operation::AddNode => if v.release_spec() >= V2TRANSPORT_RELEASE {
            3
        } else {
            2
        },
        Operation::SetBan => 4,
        Operation::DisconnectNode => 2,
        _ => 0,
    }
}

/// The capability table: `sig` is the signature of `op` under release `v`.
pub open spec fn signature_spec(v: ProtocolVersion, op: Operation, sig: OperationSignature) -> bool {
    &&& sig.method@ == op.method_spec()
    &&& sig.arity() == arity(v, op)
    &&& match op {
        Operation::AddNode => {
            &&& sig.required == 2
            &&& v.release_spec() >= V2TRANSPORT_RELEASE ==> sig.defaults@ == seq![
                None::<WireValue>,
            ]
        },
        Operation::SetBan => {
            &&& sig.required == 2
            &&& sig.defaults@ == seq![
                Some(WireValue::Int(0)),
                Some(WireValue::Bool(false)),
            ]
        },
        Operation::DisconnectNode => {
            &&& sig.required == 0
            &&& sig.defaults@.len() == 2
            &&& sig.defaults@[0] matches Some(d) && is_str(d, Seq::empty())
            &&& sig.defaults@[1] is None
        },
        _ => sig.required == 0,
    }
}

/// The wire arguments of `setban`: subnet and command, then the ban time (0, the server's
/// default, when only `absolute` is given) and the absolute flag, as far as they are set.
pub open spec fn set_ban_params(
    p: Seq<WireValue>,
    subnet: Seq<char>,
    command: SetBanCommand,
    bantime: Option<i64>,
    absolute: Option<bool>,
) -> bool {
    &&& p.len() == if absolute is Some {
        4int
    } else if bantime is Some {
        3int
    } else {
        2int
    }
    &&& is_str(p[0], subnet)
    &&& is_str(p[1], command.wire_name())
    &&& p.len() >= 3 ==> p[2] == WireValue::Int(
        match bantime {
            Some(t) => t,
            None => 0,
        },
    )
    &&& p.len() == 4 ==> (absolute matches Some(a) && p[3] == WireValue::Bool(a))
}

/// The wire arguments of `addnode`: node and command, then the transport flag when set.
pub open spec fn add_node_params(
    p: Seq<WireValue>,
    node: Seq<char>,
    command: AddNodeCommand,
    v2transport: Option<bool>,
) -> bool {
    &&& p.len() == if v2transport is Some {
        3int
    } else {
        2int
    }
    &&& is_str(p[0], node)
    &&& is_str(p[1], command.wire_name())
    &&& (v2transport matches Some(b) ==> p[2] == WireValue::Bool(b))
}

/// A client's binding to one protocol version: it hands out that version's signatures and
/// builds the wire requests of the logical operations.
#[derive(Debug)]
pub struct Profile {
    version: ProtocolVersion,
}

impl Profile {
    pub closed spec fn bound_version(&self) -> ProtocolVersion {
        self.version
    }

    pub fn new(version: ProtocolVersion) -> (p: Profile)
        ensures
            p.bound_version() == version,
    {
        Profile { version }
    }

    pub fn version(&self) -> (r: ProtocolVersion)
        ensures
            r == self.bound_version(),
    {
        self.version
    }

    /// The signature of `op` under the bound version, or `UnsupportedOperation` when the
    /// version has no entry for it.
    pub fn signature(&self, op: Operation) -> (r: Result<OperationSignature, Error>)
        ensures
            supports(self.bound_version(), op) ==> (r matches Ok(sig) && signature_spec(
                self.bound_version(),
                op,
                sig,
            )),
            !supports(self.bound_version(), op) ==> (r matches Err(
                Error::UnsupportedOperation { operation, version },
            ) && operation == op && version == self.bound_version()),
    {
        if op == Operation::GetRpcInfo && self.version.release() < RPC_INFO_RELEASE {
            return Err(Error::UnsupportedOperation { operation: op, version: self.version });
        }
        let method = op.method().to_owned();
        match op {
            Operation::AddNode => {
                if self.version.release() >= V2TRANSPORT_RELEASE {
                    let defaults: Vec<Option<WireValue>> = vec![None];
                    assert(defaults@ =~= seq![None::<WireValue>]);
                    Ok(OperationSignature { method, required: 2, defaults })
                } else {
                    Ok(OperationSignature { method, required: 2, defaults: Vec::new() })
                }
            },
            Operation::SetBan => {
                let defaults = vec![Some(WireValue::Int(0)), Some(WireValue::Bool(false))];
                assert(defaults@ =~= seq![Some(WireValue::Int(0)), Some(WireValue::Bool(false))]);
                Ok(OperationSignature { method, required: 2, defaults })
            },
            Operation::DisconnectNode => Ok(
                OperationSignature {
                    method,
                    required: 0,
                    defaults: vec![Some(WireValue::Str(String::new())), None],
                },
            ),
            _ => Ok(OperationSignature { method, required: 0, defaults: Vec::new() }),
        }
    }

    /// The request of an operation that takes no arguments.
    pub fn request(&self, op: Operation) -> (r: Result<Request, Error>)
        ensures
            !supports(self.bound_version(), op) ==> (r matches Err(
                Error::UnsupportedOperation { operation, version },
            ) && operation == op && version == self.bound_version()),
            supports(self.bound_version(), op) && arity(self.bound_version(), op) == 0 ==> (r matches Ok(
                req,
            ) && req.method@ == op.method_spec() && req.params@.len() == 0),
            supports(self.bound_version(), op) && arity(self.bound_version(), op) > 0 ==> (r matches Err(
                Error::Encode { operation, error },
            ) && operation == op && error == (EncodeError::WrongArgumentCount {
                expected: arity(self.bound_version(), op) as usize,
                got: 0,
            })),
    {
        let sig = self.signature(op)?;
        let args: Vec<WireValue> = Vec::new();
        match sig.encode(&args) {
            Ok(params) => {
                assert(params@.len() == 0);
                Ok(Request { method: sig.method, params })
            },
            Err(error) => Err(Error::Encode { operation: op, error }),
        }
    }

    /// The `setban` request. Every version takes subnet, command, ban time and the absolute
    /// flag; an unset ban time before a set flag is sent as the server's default, 0.
    pub fn set_ban(
        &self,
        subnet: &str,
        command: SetBanCommand,
        bantime: Option<i64>,
        absolute: Option<bool>,
    ) -> (r: Result<Request, Error>)
        ensures
            r matches Ok(req) && req.method@ == "setban"@ && set_ban_params(
                req.params@,
                subnet@,
                command,
                bantime,
                absolute,
            ),
    {
        let sig = self.signature(Operation::SetBan)?;
        let t = match bantime {
            Some(t) => WireValue::Int(t),
            None => WireValue::Null,
        };
        let a = match absolute {
            Some(a) => WireValue::Bool(a),
            None => WireValue::Null,
        };
        let args = vec![
            WireValue::Str(subnet.to_owned()),
            WireValue::Str(command.as_str().to_owned()),
            t,
            a,
        ];
        let ghost dv = sig.default_values();
        assert(dv =~= seq![WireValue::Int(0), WireValue::Bool(false)]);
        assert(!has_missing_default(args@, dv));
        proof {
            reveal_with_fuel(last_set, 3);
        }
        match sig.encode(&args) {
            Ok(params) => {
                assert(params@ == encoded(args@, dv));
                Ok(Request { method: sig.method, params })
            },
            Err(error) => Err(Error::Encode { operation: Operation::SetBan, error }),
        }
    }

    /// The `addnode` request. From the release that added it, a set transport flag is sent
    /// as a third argument; earlier releases reject a set flag with `UnsupportedArgument`.
    pub fn add_node(&self, node: &str, command: AddNodeCommand, v2transport: Option<bool>) -> (r:
        Result<Request, Error>)
        ensures
            self.bound_version().release_spec() < V2TRANSPORT_RELEASE && v2transport is Some ==> (
            r matches Err(Error::Encode { operation, error }) && operation == Operation::AddNode
                && error == (EncodeError::UnsupportedArgument { index: 2 })),
            self.bound_version().release_spec() >= V2TRANSPORT_RELEASE || v2transport is None ==> (
            r matches Ok(req) && req.method@ == "addnode"@ && add_node_params(
                req.params@,
                node@,
                command,
                v2transport,
            )),
    {
        let sig = self.signature(Operation::AddNode)?;
        let mut args = vec![
            WireValue::Str(node.to_owned()),
            WireValue::Str(command.as_str().to_owned()),
        ];
        if self.version.release() >= V2TRANSPORT_RELEASE {
            match v2transport {
                Some(b) => args.push(WireValue::Bool(b)),
                None => args.push(WireValue::Null),
            }
        } else if v2transport.is_some() {
            return Err(
                Error::Encode {
                    operation: Operation::AddNode,
                    error: EncodeError::UnsupportedArgument { index: 2 },
                },
            );
        }
        let ghost dv = sig.default_values();
        proof {
            reveal_with_fuel(last_set, 2);
        }
        match sig.encode(&args) {
            Ok(params) => {
                assert(params@ == encoded(args@, dv));
                Ok(Request { method: sig.method, params })
            },
            Err(error) => Err(Error::Encode { operation: Operation::AddNode, error }),
        }
    }

    /// The `disconnectnode` request: exactly one of `address` and `nodeid` must be given. By
    /// address the request is `[address]`; by id it is `["", nodeid]`, the empty address
    /// being the server's placeholder for "none".
    pub fn disconnect_node(&self, address: Option<&str>, nodeid: Option<u64>) -> (r: Result<
        Request,
        Error,
    >)
        ensures
            address is Some && nodeid is Some ==> (r matches Err(
                Error::Encode { operation, error },
            ) && operation == Operation::DisconnectNode && error
                == EncodeError::DisconnectNodeArgsBoth),
            address is None && nodeid is None ==> (r matches Err(
                Error::Encode { operation, error },
            ) && operation == Operation::DisconnectNode && error
                == EncodeError::DisconnectNodeArgsNone),
            nodeid is None ==> (address matches Some(a) ==> (r matches Ok(req) && req.method@
                == "disconnectnode"@ && req.params@.len() == 1 && is_str(req.params@[0], a@))),
            address is None ==> (nodeid matches Some(id) ==> (r matches Ok(req) && req.method@
                == "disconnectnode"@ && req.params@.len() == 2 && is_str(
                req.params@[0],
                Seq::empty(),
            ) && req.params@[1] == WireValue::UInt(id))),
    {
        let args = match (address, nodeid) {
            (Some(a), None) => vec![WireValue::Str(a.to_owned()), WireValue::Null],
            (None, Some(id)) => vec![WireValue::Null, WireValue::UInt(id)],
            (Some(_), Some(_)) => {
                return Err(
                    Error::Encode {
                        operation: Operation::DisconnectNode,
                        error: EncodeError::DisconnectNodeArgsBoth,
                    },
                );
            },
            (None, None) => {
                return Err(
                    Error::Encode {
                        operation: Operation::DisconnectNode,
                        error: EncodeError::DisconnectNodeArgsNone,
                    },
                );
            },
        };
        let sig = self.signature(Operation::DisconnectNode)?;
        let ghost dv = sig.default_values();
        assert(!dv[0].is_null_spec());
        proof {
            reveal_with_fuel(last_set, 3);
        }
        assert(!has_missing_default(args@, dv));
        match sig.encode(&args) {
            Ok(params) => {
                assert(params@ == encoded(args@, dv));
                Ok(Request { method: sig.method, params })
            },
            Err(error) => Err(Error::Encode { operation: Operation::DisconnectNode, error }),
        }
    }

    /// Checks the server version reported by `getnetworkinfo` against the bound version:
    /// the major release (`reported / 10000`) must be the bound one.
    pub fn check_expected_server_version(&self, reported: u64) -> (r: Result<(), Error>)
        ensures
            r is Ok <==> reported / 10000 == self.bound_version().release_spec(),
            r matches Err(e) ==> e == (Error::UnexpectedServerVersion {
                expected: (self.bound_version().release_spec() * 10000) as u64,
                got: reported,
            }),
    {
        if reported / 10000 == self.version.release() {
            Ok(())
        } else {
            Err(
                Error::UnexpectedServerVersion {
                    expected: self.version.expected_server_version(),
                    got: reported,
                },
            )
        }
    }
}

/// The outcome of an operation that returns nothing: the server's `null` is success, any
/// other value is reported rather than ignored.
pub fn unit_result(operation: Operation, result_is_null: bool) -> (r: Result<(), Error>)
    ensures
        r is Ok <==> result_is_null,
        r matches Err(e) ==> (e matches Error::Call(CallError::UnexpectedResult { operation: o })
            && o == operation),
{
    if result_is_null {
        Ok(())
    } else {
        Err(Error::Call(CallError::UnexpectedResult { operation }))
    }
}

} // verus!
