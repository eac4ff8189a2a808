use engine_relay::error::{NodeRole, RelayError};
use engine_relay::method::{needs_token, Dispatch, RequestMethod};

const ALL: [RequestMethod; 10] = [
    RequestMethod::engine_ForkchoiceUpdatedV1,
    RequestMethod::engine_ForkchoiceUpdatedV2,
    RequestMethod::engine_NewPayloadV1,
    RequestMethod::engine_NewPayloadV2,
    RequestMethod::engine_getPayloadV1,
    RequestMethod::engine_getPayloadV2,
    RequestMethod::engine_getPayloadBodiesByHashV1,
    RequestMethod::engine_getPayloadBodiesByRangeV1,
    RequestMethod::engine_exchangeCapabilities,
    RequestMethod::engine_exchangeTransitionConfigurationV1,
];

#[test]
fn every_method_has_its_wire_name() {
    let names = [
        "engine_forkchoiceUpdatedV1",
        "engine_forkchoiceUpdatedV2",
        "engine_newPayloadV1",
        "engine_newPayloadV2",
        "engine_getPayloadV1",
        "engine_getPayloadV2",
        "engine_getPayloadBodiesByHashV1",
        "engine_getPayloadBodiesByRangeV1",
        "engine_exchangeCapabilities",
        "engine_exchangeTransitionConfigurationV1",
    ];
    for (m, n) in ALL.iter().zip(names.iter()) {
        assert_eq!(m.name(), *n);
        assert_eq!(RequestMethod::from_name(n), Ok(*m));
    }
}

#[test]
fn decoding_a_name_round_trips() {
    for m in ALL {
        assert_eq!(RequestMethod::from_name(m.name()), Ok(m));
    }
}

#[test]
fn unknown_methods_are_unsupported() {
    for n in [
        "",
        "eth_blockNumber",
        "engine_forkchoiceUpdatedV3",
        "engine_forkchoiceUpdatedV",
        "engine_forkchoiceUpdatedV1 ",
        " engine_forkchoiceUpdatedV1",
        "engine_ForkchoiceUpdatedV1",
        "ENGINE_NEWPAYLOADV1",
        "engine_exchangeCapabilitiesV1",
    ] {
        assert_eq!(RequestMethod::from_name(n), Err(RelayError::UnsupportedMethod));
    }
}

#[test]
fn only_forkchoice_updated_is_forkchoice_updated() {
    for m in ALL {
        let expected = m == RequestMethod::engine_ForkchoiceUpdatedV1
            || m == RequestMethod::engine_ForkchoiceUpdatedV2;
        assert_eq!(m.is_forkchoice_updated(), expected);
    }
}

#[test]
fn forkchoice_updated_goes_to_both_nodes() {
    let both = Dispatch { authenticated: true, unauthenticated: true };
    let one = Dispatch { authenticated: true, unauthenticated: false };
    assert_eq!(RequestMethod::engine_ForkchoiceUpdatedV1.dispatch(true), both);
    assert_eq!(RequestMethod::engine_ForkchoiceUpdatedV2.dispatch(true), both);
    assert_eq!(RequestMethod::engine_ForkchoiceUpdatedV2.dispatch(false), one);
}

#[test]
fn other_methods_go_to_the_authenticated_node_only() {
    let one = Dispatch { authenticated: true, unauthenticated: false };
    for m in ALL {
        if !m.is_forkchoice_updated() {
            assert_eq!(m.dispatch(true), one);
            assert_eq!(m.dispatch(false), one);
        }
    }
}

#[test]
fn only_the_authenticated_node_gets_a_token() {
    assert!(needs_token(NodeRole::Authenticated));
    assert!(!needs_token(NodeRole::Unauthenticated));
}
