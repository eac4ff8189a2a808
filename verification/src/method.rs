//! The engine methods that the relay recognizes.
use crate::error::{NodeRole, RelayError};
use crate::text::same_text;
use vstd::prelude::*;

verus! {

/// One variant for each engine method.
#[derive(Debug, Clone, Copy, PartialEq, Eq, Structural)]
pub enum RequestMethod {
    engine_ForkchoiceUpdatedV1,
    engine_ForkchoiceUpdatedV2,
    engine_NewPayloadV1,
    engine_NewPayloadV2,
    engine_getPayloadV1,
    engine_getPayloadV2,
    engine_getPayloadBodiesByHashV1,
    engine_getPayloadBodiesByRangeV1,
    engine_exchangeCapabilities,
    engine_exchangeTransitionConfigurationV1,
}

/// Which nodes a call goes to.
#[derive(Debug, Clone, Copy, PartialEq, Eq, Structural)]
pub struct Dispatch {
    pub authenticated: bool,
    pub unauthenticated: bool,
}

impl RequestMethod {
    /// The value of the JSON-RPC `method` field for this method.
    pub open spec fn wire_name(self) -> Seq<char> {
        match self {
            RequestMethod::engine_ForkchoiceUpdatedV1 => "engine_forkchoiceUpdatedV1"@,
            RequestMethod::engine_ForkchoiceUpdatedV2 => "engine_forkchoiceUpdatedV2"@,
            RequestMethod::engine_NewPayloadV1 => "engine_newPayloadV1"@,
            RequestMethod::engine_NewPayloadV2 => "engine_newPayloadV2"@,
            RequestMethod::engine_getPayloadV1 => "engine_getPayloadV1"@,
            RequestMethod::engine_getPayloadV2 => "engine_getPayloadV2"@,
            RequestMethod::engine_getPayloadBodiesByHashV1 => "engine_getPayloadBodiesByHashV1"@,
            RequestMethod::engine_getPayloadBodiesByRangeV1 => "engine_getPayloadBodiesByRangeV1"@,
            RequestMethod::engine_exchangeCapabilities => "engine_exchangeCapabilities"@,
            RequestMethod::engine_exchangeTransitionConfigurationV1 => "engine_exchangeTransitionConfigurationV1"@,
        }
    }

    /// Whether this is one of the forkchoiceUpdated methods.
    pub open spec fn forkchoice(self) -> bool {
        self == RequestMethod::engine_ForkchoiceUpdatedV1 || self
            == RequestMethod::engine_ForkchoiceUpdatedV2
    }

    /// The value of the JSON-RPC `method` field for this method.
    pub fn name(&self) -> (r: &'static str)
        ensures
            r@ == self.wire_name(),
    {
        match self {
            RequestMethod::engine_ForkchoiceUpdatedV1 => "engine_forkchoiceUpdatedV1",
            RequestMethod::engine_ForkchoiceUpdatedV2 => "engine_forkchoiceUpdatedV2",
            RequestMethod::engine_NewPayloadV1 => "engine_newPayloadV1",
            RequestMethod::engine_NewPayloadV2 => "engine_newPayloadV2",
            RequestMethod::engine_getPayloadV1 => "engine_getPayloadV1",
            RequestMethod::engine_getPayloadV2 => "engine_getPayloadV2",
            RequestMethod::engine_getPayloadBodiesByHashV1 => "engine_getPayloadBodiesByHashV1",
            RequestMethod::engine_getPayloadBodiesByRangeV1 => "engine_getPayloadBodiesByRangeV1",
            RequestMethod::engine_exchangeCapabilities => "engine_exchangeCapabilities",
            RequestMethod::engine_exchangeTransitionConfigurationV1 => "engine_exchangeTransitionConfigurationV1",
        }
    }

    /// Decodes the JSON-RPC `method` field: the method whose name is exactly
    /// `name`, or `UnsupportedMethod` where there is none.
    pub fn from_name(name: &str) -> (r: Result<RequestMethod, RelayError>)
        ensures
            match r {
                Ok(m) => m.wire_name() == name@,
                Err(e) => e == RelayError::UnsupportedMethod && forall|m: RequestMethod|
                    m.wire_name() != name@,
            },
    {
        if same_text(name, "engine_forkchoiceUpdatedV1") {
            Ok(RequestMethod::engine_ForkchoiceUpdatedV1)
        } else if same_text(name, "engine_forkchoiceUpdatedV2") {
            Ok(RequestMethod::engine_ForkchoiceUpdatedV2)
        } else if same_text(name, "engine_newPayloadV1") {
            Ok(RequestMethod::engine_NewPayloadV1)
        } else if same_text(name, "engine_newPayloadV2") {
            Ok(RequestMethod::engine_NewPayloadV2)
        } else if same_text(name, "engine_getPayloadV1") {
            Ok(RequestMethod::engine_getPayloadV1)
        } else if same_text(name, "engine_getPayloadV2") {
            Ok(RequestMethod::engine_getPayloadV2)
        } else if same_text(name, "engine_getPayloadBodiesByHashV1") {
            Ok(RequestMethod::engine_getPayloadBodiesByHashV1)
        } else if same_text(name, "engine_getPayloadBodiesByRangeV1") {
            Ok(RequestMethod::engine_getPayloadBodiesByRangeV1)
        } else if same_text(name, "engine_exchangeCapabilities") {
            Ok(RequestMethod::engine_exchangeCapabilities)
        } else if same_text(name, "engine_exchangeTransitionConfigurationV1") {
            Ok(RequestMethod::engine_exchangeTransitionConfigurationV1)
        } else {
            Err(RelayError::UnsupportedMethod)
        }
    }

    /// Whether this is one of the forkchoiceUpdated methods.
    pub fn is_forkchoice_updated(&self) -> (r: bool)
        ensures
            r == self.forkchoice(),
    {
        match self {
            RequestMethod::engine_ForkchoiceUpdatedV1 => true,
            RequestMethod::engine_ForkchoiceUpdatedV2 => true,
            _ => false,
        }
    }

    /// The nodes that a call of this method goes to. Every call goes to the
    /// authenticated node; a forkchoiceUpdated call also goes to the
    /// unauthenticated node, if one is configured.
    pub fn dispatch(&self, unauthenticated_configured: bool) -> (r: Dispatch)
        ensures
            r.authenticated,
            r.unauthenticated == (self.forkchoice() && unauthenticated_configured),
    {
        Dispatch {
            authenticated: true,
            unauthenticated: self.is_forkchoice_updated() && unauthenticated_configured,
        }
    }
}

/// Whether a call to a node in this role carries a bearer token: every call
/// to the authenticated node does, none to the unauthenticated node.
pub fn needs_token(role: NodeRole) -> (r: bool)
    ensures
        r == (role == NodeRole::Authenticated),
{
    match role {
        NodeRole::Authenticated => true,
        NodeRole::Unauthenticated => false,
    }
}

/// No two methods share a name.
pub proof fn wire_names_are_distinct(a: RequestMethod, b: RequestMethod)
    requires
        a.wire_name() == b.wire_name(),
    ensures
        a == b,
{
    reveal_strlit("engine_forkchoiceUpdatedV1");
    reveal_strlit("engine_forkchoiceUpdatedV2");
    reveal_strlit("engine_newPayloadV1");
    reveal_strlit("engine_newPayloadV2");
    reveal_strlit("engine_getPayloadV1");
    reveal_strlit("engine_getPayloadV2");
    reveal_strlit("engine_getPayloadBodiesByHashV1");
    reveal_strlit("engine_getPayloadBodiesByRangeV1");
    reveal_strlit("engine_exchangeCapabilities");
    reveal_strlit("engine_exchangeTransitionConfigurationV1");
    let x = a.wire_name();
    let y = b.wire_name();
    assert(x.len() == y.len());
    assert(x[7] == y[7]);
    assert(x[18] == y[18]);
    if x.len() > 25 {
        assert(x[25] == y[25]);
    }
}

} // verus!
