use ton_client::client::ClientError;
use ton_client::json::Json;
use ton_client::net::websocket_link::{
    protocol_frame, pump, send_failure, GqlOperationEvent, GqlQueryOperation, LinkAction,
    LinkEffect, LinkHandler, PumpEvent, PumpStep, WebsocketLink, GQL_START, GQL_STOP,
};

fn error() -> ClientError {
    ClientError {
        code: 1,
        message: "m".to_owned(),
        data: Json::Null,
        display: "d".to_owned(),
    }
}

/// Starts an operation and gives its id.
fn start(handler: &mut LinkHandler, channel: u64) -> u32 {
    assert!(!handler.is_full());
    let handled = handler.handle(LinkAction::StartOperation(Json::Int(7), channel));
    assert!(handled.goes_on);
    match &handled.effects[0] {
        LinkEffect::Emit(to, GqlOperationEvent::Id(id)) => {
            assert_eq!(*to, channel);
            *id
        }
        other => panic!("{:?}", other),
    }
}

fn stop(handler: &mut LinkHandler, id: u32) -> Vec<LinkEffect> {
    handler.handle(LinkAction::StopOperation(id)).effects
}

#[test]
fn ids_count_up_from_one() {
    let mut handler = LinkHandler::new("addr".to_owned());
    assert_eq!(start(&mut handler, 10), 1);
    assert_eq!(start(&mut handler, 11), 2);
    assert_eq!(start(&mut handler, 12), 3);
}

#[test]
fn an_id_that_became_free_is_not_used_at_once() {
    let mut handler = LinkHandler::new("addr".to_owned());
    assert_eq!(start(&mut handler, 10), 1);
    assert_eq!(start(&mut handler, 11), 2);
    stop(&mut handler, 1);
    assert_eq!(start(&mut handler, 12), 3);
}

#[test]
fn a_stopped_operation_is_reported_and_closed() {
    let mut handler = LinkHandler::new("addr".to_owned());
    let id = start(&mut handler, 10);
    let effects = stop(&mut handler, id);
    assert_eq!(effects.len(), 2);
    assert!(matches!(effects[0], LinkEffect::Emit(10, GqlOperationEvent::Complete)));
    assert!(matches!(effects[1], LinkEffect::Close(10)));
    assert!(stop(&mut handler, id).is_empty());
}

#[test]
fn an_unknown_operation_is_not_stopped() {
    let mut handler = LinkHandler::new("addr".to_owned());
    assert!(stop(&mut handler, 5).is_empty());
}

#[test]
fn without_a_websocket_nothing_is_sent() {
    let mut handler = LinkHandler::new("addr".to_owned());
    let handled = handler.handle(LinkAction::StartOperation(Json::Null, 1));
    assert_eq!(handled.effects.len(), 1);
}

#[test]
fn messages_go_over_the_websocket() {
    let mut handler = LinkHandler::new("wss://server/graphql".to_owned());
    let request = handler.websocket_to_connect().unwrap();
    assert_eq!(request.address, "wss://server/graphql");
    assert_eq!(
        request.headers,
        vec![("Sec-WebSocket-Protocol".to_owned(), "graphql-ws".to_owned())]
    );
    assert!(handler.websocket_connected(Ok(())).is_ok());
    assert!(handler.websocket_to_connect().is_none());

    let payload = Json::parse("{\"query\":\"q\",\"variables\":{}}").unwrap();
    let handled = handler.handle(LinkAction::StartOperation(payload, 4));
    assert_eq!(handled.effects.len(), 2);
    match &handled.effects[1] {
        LinkEffect::Send(text) => assert_eq!(
            text,
            "{\"id\":1,\"payload\":{\"query\":\"q\",\"variables\":{}},\"type\":\"start\"}"
        ),
        other => panic!("{:?}", other),
    }

    let effects = stop(&mut handler, 1);
    assert_eq!(effects.len(), 3);
    match &effects[1] {
        LinkEffect::Send(text) => assert_eq!(text, "{\"id\":1,\"type\":\"stop\"}"),
        other => panic!("{:?}", other),
    }
}

#[test]
fn a_websocket_that_does_not_connect_is_not_there() {
    let mut handler = LinkHandler::new("addr".to_owned());
    assert_eq!(handler.websocket_connected(Err(error())).unwrap_err().code, 1);
    assert!(handler.websocket_to_connect().is_some());
}

#[test]
fn only_drop_ends_the_handler() {
    let mut handler = LinkHandler::new("addr".to_owned());
    for action in vec![
        LinkAction::Suspend,
        LinkAction::Resume,
        LinkAction::Idle,
        LinkAction::StopOperation(3),
        LinkAction::HandleServerMessage(Ok("data".to_owned())),
        LinkAction::HandleServerMessage(Err(error())),
        LinkAction::HandleServerError(error()),
    ] {
        let handled = handler.handle(action);
        assert!(handled.goes_on);
        assert!(handled.effects.is_empty());
    }
    let handled = handler.handle(LinkAction::Drop);
    assert!(!handled.goes_on);
    assert!(handled.effects.is_empty());
}

#[test]
fn a_query_becomes_an_action() {
    let (link, _) = WebsocketLink::new("addr".to_owned());
    let request = GqlQueryOperation {
        query: "query { a }".to_owned(),
        variables: Json::object("x", Json::Int(1)),
    };
    match link.start_operation(request, 9) {
        LinkAction::StartOperation(payload, channel) => {
            assert_eq!(channel, 9);
            assert_eq!(payload.text(), "{\"query\":\"query { a }\",\"variables\":{\"x\":1}}");
        }
        other => panic!("{:?}", other),
    }
    assert!(matches!(link.stop_operation(6), LinkAction::StopOperation(6)));
}

#[test]
fn frames_hold_what_is_given() {
    assert_eq!(protocol_frame(GQL_STOP, None, None).text(), "{\"type\":\"stop\"}");
    assert_eq!(
        protocol_frame(GQL_START, Some(u32::MAX), Some(Json::Null)).text(),
        "{\"id\":4294967295,\"payload\":null,\"type\":\"start\"}"
    );
}

#[test]
fn the_pump_forwards_and_stops() {
    match pump(PumpEvent::Data(Ok("d".to_owned()))) {
        PumpStep::Tell(LinkAction::HandleServerMessage(Ok(data))) => assert_eq!(data, "d"),
        other => panic!("{:?}", other),
    }
    assert!(matches!(
        pump(PumpEvent::Data(Err(error()))),
        PumpStep::Tell(LinkAction::HandleServerMessage(Err(_)))
    ));
    match pump(PumpEvent::Send("s".to_owned())) {
        PumpStep::Hand(data) => assert_eq!(data, "s"),
        other => panic!("{:?}", other),
    }
    assert!(matches!(pump(PumpEvent::Closed), PumpStep::Stop));
    assert!(matches!(pump(PumpEvent::Drop), PumpStep::Stop));
}

#[test]
fn a_failed_send_is_described() {
    assert_eq!(send_failure("channel closed"), "send_websocket_data failed: channel closed");
}
