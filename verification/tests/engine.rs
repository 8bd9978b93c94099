use ton_client::client::{
    create_client, processing_report, ClientError, ProcessingEvent, TonClient,
};
use ton_client::debot::action::{AcType, DAction};
use ton_client::debot::context::{
    find_context, DContext, STATE_CURRENT, STATE_EXIT, STATE_PREV, STATE_ZERO,
};
use ton_client::debot::dengine::{load_ton_address, DEngine, RunOutput};
use ton_client::debot::dialogue::{
    DecodedMessageBody, DecodedOutput, Dialogue, Reply, Request, ResultOfRunTvm, Stop,
};
use ton_client::debot::session::{advance, Next, Operation};
use ton_client::json::Json;

const ABI: &str = "{\"ABI version\":2,\"functions\":[\
    {\"name\":\"enter\",\"inputs\":[{\"name\":\"note\",\"type\":\"bytes\"},\
    {\"name\":\"count\",\"type\":\"uint8\"}],\"outputs\":[]},\
    {\"name\":\"plain\",\"inputs\":[],\"outputs\":[]}]}";

const EMPTY_CELL: &str = "te6ccgEBAQEAAgAAAA==";

fn json(text: &str) -> Json {
    Json::parse(text).unwrap()
}

fn error(code: u32, message: &str, data: &str) -> ClientError {
    ClientError {
        code,
        message: message.to_owned(),
        data: json(data),
        display: format!("display of {}", message),
    }
}

fn engine() -> DEngine {
    let common = Err("no common interface".to_owned());
    DEngine::new("0:debot".to_owned(), Some(Ok(ABI.to_owned())), "server", Ok(()), common)
}

/// An action that is only offered.
fn action(action_type: AcType, name: &str, to: u8) -> DAction {
    DAction {
        desc: String::new(),
        name: name.to_owned(),
        action_type,
        to,
        misc: EMPTY_CELL.to_owned(),
        instant: false,
        sign_by_user: false,
        func: None,
        args: None,
        fargs: None,
    }
}

fn context(id: u8, desc: &str, actions: Vec<DAction>) -> DContext {
    DContext { id, desc: desc.to_owned(), actions }
}

/// A request in short.
fn label(request: &Request) -> String {
    match request {
        Request::Log(text) => format!("log {}", text),
        Request::Switch(state) => format!("switch {}", state),
        Request::ShowAction(a) => format!("show {}", a.name),
        Request::Input(prompt) => format!("input <{}>", prompt),
        Request::GetSigningBox => "box".to_owned(),
        Request::InvokeDebot(addr, a) => format!("invoke {} {}", addr, a.name),
        Request::QueryCollection { collection, filter, result, limit } => {
            format!("query {} {} {} {}", collection, filter.text(), result, limit)
        }
        Request::EncodeMessage(p) => format!(
            "encode {} {} {} {}",
            p.address,
            p.function_name,
            p.input.as_ref().map_or("-".to_owned(), |i| i.text()),
            p.signer.map_or("-".to_owned(), |s| s.to_string())
        ),
        Request::RunTvm { account, message, .. } => format!("run {} {}", account, message),
        Request::DecodeMessageBody { body, is_internal, .. } => {
            format!("body {} {}", body, is_internal)
        }
        Request::ProcessMessage { encode_params: p, send_events } => format!(
            "process {} {} {} {} {} {}",
            p.address,
            p.function_name,
            p.input.as_ref().map_or("-".to_owned(), |i| i.text()),
            p.signer.map_or("-".to_owned(), |s| s.to_string()),
            p.tvc.clone().unwrap_or("-".to_owned()),
            send_events
        ),
        Request::RemoveSigningBox(handle) => format!("unbox {}", handle),
        Request::CallRoutine { name, args, signer } => format!(
            "routine {} {} {}",
            name,
            args,
            signer.map_or("-".to_owned(), |s| s.to_string())
        ),
        Request::FormatString { format: f, params } => format!("format {} {}", f, params.text()),
        Request::DecodeNumber(text) => format!("number {}", text),
        Request::ParseAbi(text) => format!("abi {}", text),
        Request::ParseContexts(doc) => format!("contexts {}", doc.text()),
        Request::ParseAction(doc) => format!("action {}", doc.text()),
        Request::ParseActions(doc) => format!("actions {}", doc.text()),
    }
}

/// Runs an operation over the replies, and gives what was asked and what came of it.
fn drive(engine: &mut DEngine, operation: Operation, replies: Vec<Reply>) -> (Vec<String>, Next) {
    let mut talk = Dialogue::new();
    let mut asked: Vec<String> = Vec::new();
    let mut replies = replies.into_iter();
    loop {
        match advance(engine, &mut talk, &operation) {
            Next::Ask(request) => {
                asked.push(label(&request));
                match replies.next() {
                    Some(reply) => talk.answer(reply),
                    None => return (asked, Next::Ask(request)),
                }
            }
            next => return (asked, next),
        }
    }
}

/// The replies to a run of a function that moves the account and gives an output.
fn called(account: &str, output: Option<&str>) -> Vec<Reply> {
    vec![
        Reply::Message(Ok("msg".to_owned())),
        Reply::TvmRun(Ok(ResultOfRunTvm {
            account: account.to_owned(),
            out_messages: vec!["out".to_owned()],
            decoded: Some(DecodedOutput { output: output.map(json) }),
        })),
    ]
}

fn failed_run(e: ClientError) -> Vec<Reply> {
    vec![Reply::Message(Ok("msg".to_owned())), Reply::TvmRun(Err(e))]
}

/// The replies to loading a debot with some options and contexts.
fn loaded(options: &str, value: u32, contexts: Vec<DContext>) -> Vec<Reply> {
    loaded_with(options, value, vec![], contexts)
}

/// The replies to loading a debot that may give an interface of its own.
fn loaded_with(options: &str, value: u32, abi: Vec<Reply>, contexts: Vec<DContext>) -> Vec<Reply> {
    let mut replies = vec![Reply::Collection(Ok(vec![json("{\"boc\":\"s0\"}")]))];
    replies.extend(called("x", Some("{\"name\":\"426f74\",\"semver\":\"0x010203\"}")));
    replies.push(Reply::Number(Some(0x010203)));
    replies.push(Reply::Done);
    replies.extend(called("x", Some(options)));
    replies.push(Reply::Number(Some(value)));
    replies.extend(abi);
    replies.extend(called("x", Some("{\"contexts\":[1]}")));
    replies.push(Reply::Contexts(Some(contexts)));
    replies
}

fn done(n: usize) -> Vec<Reply> {
    (0..n).map(|_| Reply::Done).collect()
}

/// An engine that was started with some contexts, of which the first is plain.
fn started(contexts: Vec<DContext>) -> DEngine {
    let mut debot = engine();
    let shown = contexts[0].actions.len() + 2;
    let mut replies = loaded("{\"options\":\"0\"}", 0, contexts);
    replies.extend(done(shown));
    let (_, next) = drive(&mut debot, Operation::Start, replies);
    assert!(matches!(next, Next::Done(None)));
    debot
}

/// An engine that works on a target.
fn targeted(contexts: Vec<DContext>) -> DEngine {
    let mut debot = engine();
    let options = format!(
        "{{\"options\":\"6\",\"targetAbi\":\"{}\",\"targetAddr\":\"0:target\"}}",
        hex(ABI)
    );
    let replies = loaded(&options, 6, contexts);
    let (_, next) = drive(&mut debot, Operation::Fetch, replies);
    assert!(matches!(next, Next::Done(None)));
    debot
}

/// The reply to parsing an interface.
fn parsed(json: &str) -> Reply {
    Reply::Abi(Ok(json.to_owned()))
}

/// What the engine gives for its target with some replies, and what it asked last.
fn target(
    debot: &DEngine,
    replies: Vec<Reply>,
) -> (Option<String>, Result<(String, String), Stop>) {
    let mut talk = Dialogue::new();
    for reply in replies {
        talk.answer(reply);
    }
    let result = debot.get_target(&mut talk).map(|(addr, abi)| (addr, abi.json));
    (talk.take_request().map(|request| label(&request)), result)
}

fn failure<T: std::fmt::Debug>(result: Result<T, Stop>) -> String {
    match result {
        Err(Stop::Failed(e)) => e,
        other => panic!("{:?}", other),
    }
}

fn hex(text: &str) -> String {
    text.bytes().map(|b| format!("{:02x}", b)).collect()
}

fn execute(debot: &mut DEngine, act: &DAction, replies: Vec<Reply>) -> (Vec<String>, Next) {
    drive(debot, Operation::ExecuteAction(act.clone()), replies)
}

#[test]
fn a_debot_starts_in_context_zero() {
    let mut debot = engine();
    let actions = vec![action(AcType::Empty, "one", 1), action(AcType::Goto, "two", 2)];
    let mut replies = loaded("{\"options\":\"0x00\"}", 0, vec![context(0, "Hello", actions)]);
    replies.extend(done(4));
    let (asked, next) = drive(&mut debot, Operation::Start, replies);
    assert!(matches!(next, Next::Done(None)));
    assert_eq!(
        asked,
        vec![
            "query accounts {\"id\":{\"eq\":\"0:debot\"}} boc 1",
            "encode 0:debot getVersion - -",
            "run s0 msg",
            "number 0x010203",
            "log Bot, version 1.2.3",
            "encode 0:debot getDebotOptions - -",
            "run s0 msg",
            "number 0x00",
            "encode 0:debot fetch - -",
            "run s0 msg",
            "contexts [1]",
            "switch 0",
            "log Hello",
            "show one",
            "show two",
        ]
    );
}

#[test]
fn a_version_has_three_bytes() {
    let mut debot = engine();
    let mut replies = vec![Reply::Collection(Ok(vec![json("{\"boc\":\"s0\"}")]))];
    replies.extend(called("x", Some("{\"name\":\"\",\"semver\":\"n\"}")));
    replies.push(Reply::Number(Some(0xff_fe_64_0a)));
    let (asked, _) = drive(&mut debot, Operation::Fetch, replies);
    assert_eq!(asked.last().unwrap(), "log , version 254.100.10");
}

#[test]
fn an_account_that_is_not_there_is_reported() {
    let mut debot = engine();
    let (_, next) = drive(&mut debot, Operation::Fetch, vec![Reply::Collection(Ok(vec![]))]);
    match next {
        Next::Failed(e) => {
            assert_eq!(e, "Cannot find debot with this address 0:debot in blockchain")
        }
        other => panic!("{:?}", other),
    }
}

#[test]
fn a_query_that_fails_is_reported() {
    let mut debot = engine();
    let replies = vec![Reply::Collection(Err("offline".to_owned()))];
    match drive(&mut debot, Operation::Start, replies).1 {
        Next::Failed(e) => assert_eq!(e, "failed to query debot account: offline"),
        other => panic!("{:?}", other),
    }
}

#[test]
fn malformed_answers_are_faults() {
    let cases: Vec<Vec<Reply>> = vec![
        vec![Reply::Done],
        vec![Reply::Collection(Ok(vec![json("{\"boc\":1}")]))],
    ];
    for replies in cases {
        assert!(matches!(drive(&mut engine(), Operation::Fetch, replies).1, Next::Fault));
    }
    let mut replies = vec![Reply::Collection(Ok(vec![json("{\"boc\":\"s\"}")]))];
    replies.extend(called("x", Some("{\"name\":\"zz\",\"semver\":\"1\"}")));
    assert!(matches!(drive(&mut engine(), Operation::Fetch, replies).1, Next::Fault));

    let replies = loaded("{\"options\":\"0x100\"}", 256, vec![]);
    assert!(matches!(drive(&mut engine(), Operation::Fetch, replies).1, Next::Fault));

    let replies = loaded("{\"options\":\"2\"}", 2, vec![]);
    assert!(matches!(drive(&mut engine(), Operation::Fetch, replies).1, Next::Fault));

    let replies = loaded("{\"options\":\"4\"}", 4, vec![]);
    assert!(matches!(drive(&mut engine(), Operation::Fetch, replies).1, Next::Fault));

    let replies = loaded("{\"options\":\"1\"}", 1, vec![]);
    assert!(matches!(drive(&mut engine(), Operation::Fetch, replies).1, Next::Fault));
}

#[test]
fn a_run_without_decoded_output_is_a_fault() {
    let replies = vec![
        Reply::Message(Ok("m".to_owned())),
        Reply::TvmRun(Ok(ResultOfRunTvm {
            account: "a".to_owned(),
            out_messages: vec![],
            decoded: None,
        })),
    ];
    assert!(matches!(drive(&mut engine(), Operation::Version, replies).1, Next::Fault));
}

#[test]
fn options_bring_interfaces_and_the_target() {
    let own = "{\"functions\":[]}";
    let mut debot = engine();
    let options = format!(
        "{{\"options\":\"7\",\"debotAbi\":\"{}\",\"targetAbi\":\"{}\",\"targetAddr\":\"0:t\"}}",
        hex(own),
        hex(ABI)
    );
    let replies = loaded_with(&options, 7, vec![parsed(own)], vec![]);
    let (asked, next) = drive(&mut debot, Operation::Fetch, replies);
    assert!(matches!(next, Next::Done(None)));
    assert_eq!(asked[8], format!("abi {}", own));
    let (asked, result) = target(&debot, vec![parsed("{}")]);
    assert_eq!(asked.unwrap(), format!("abi {}", ABI));
    assert_eq!(result.unwrap(), ("0:t".to_owned(), "{}".to_owned()));
    // the debot's own interface has no functions any more
    let act = action(AcType::RunAction, "enter", STATE_CURRENT);
    let (asked, _) = execute(&mut debot, &act, vec![]);
    assert_eq!(asked, vec!["log Action failed: action not found. Return to previous state.\n"]);
}

#[test]
fn an_interface_that_is_no_text_is_refused() {
    let options = "{\"options\":\"1\",\"debotAbi\":\"f\"}";
    match drive(&mut engine(), Operation::Fetch, loaded(options, 1, vec![])).1 {
        Next::Failed(e) => assert_eq!(e, "cannot convert hex string to debot abi"),
        other => panic!("{:?}", other),
    }
    let options = "{\"options\":\"1\",\"debotAbi\":\"7b7d\"}";
    let refused = vec![Reply::Abi(Err("missing field".to_owned()))];
    let (asked, next) =
        drive(&mut engine(), Operation::Fetch, loaded_with(options, 1, refused, vec![]));
    assert_eq!(asked[8], "abi {}");
    match next {
        Next::Failed(e) => assert_eq!(e, "failed to parse abi: missing field"),
        other => panic!("{:?}", other),
    }
}

#[test]
fn a_target_needs_address_and_interface() {
    assert_eq!(failure(target(&engine(), vec![]).1), "target address is undefined");
    let mut debot = engine();
    let options = "{\"options\":\"4\",\"targetAddr\":\"0:t\"}";
    drive(&mut debot, Operation::Fetch, loaded(options, 4, vec![]));
    assert_eq!(failure(target(&debot, vec![]).1), "target abi is undefined");
    let mut debot = engine();
    let options = "{\"options\":\"6\",\"targetAbi\":\"f\",\"targetAddr\":\"0:t\"}";
    drive(&mut debot, Operation::Fetch, loaded(options, 6, vec![]));
    assert_eq!(failure(target(&debot, vec![]).1), "target abi is undefined");
    let debot = targeted(vec![]);
    let (_, result) = target(&debot, vec![Reply::Abi(Err("why".to_owned()))]);
    assert_eq!(failure(result), "failed to parse abi: why");
    assert!(matches!(target(&debot, vec![]).1, Err(Stop::Pending)));
    assert!(matches!(target(&debot, vec![Reply::Done]).1, Err(Stop::Fault)));
}

#[test]
fn options_that_fail_with_a_text_change_nothing() {
    let mut debot = targeted(vec![]);
    let mut act = action(AcType::RunMethod, "setResult", STATE_CURRENT);
    act.func = Some("getBalance".to_owned());
    let options = "{\"options\":\"7\",\"debotAbi\":\"f\",\
        \"targetAbi\":\"7b7d\",\"targetAddr\":\"0:u\"}";
    let mut replies = called("x", Some(options));
    replies.push(Reply::Number(Some(7)));
    replies.extend(done(1));
    execute(&mut debot, &act, replies);
    let (asked, result) = target(&debot, vec![parsed(ABI)]);
    assert_eq!(asked.unwrap(), format!("abi {}", ABI));
    assert_eq!(result.unwrap().0, "0:target");
}

#[test]
fn previous_twice_comes_back() {
    let mut debot = started(vec![
        context(0, "zero", vec![action(AcType::Goto, "a", 1)]),
        context(1, "one", vec![]),
    ]);
    execute(&mut debot, &action(AcType::Goto, "g", 1), done(2));
    let back = action(AcType::Goto, "back", STATE_PREV);
    let (asked, _) = execute(&mut debot, &back, done(3));
    assert_eq!(asked, vec!["switch 0", "log zero", "show a"]);
    let (asked, _) = execute(&mut debot, &back, done(2));
    assert_eq!(asked, vec!["switch 1", "log one"]);
}

#[test]
fn previous_twice_comes_back_from_a_missing_context() {
    let mut debot = started(vec![context(0, "zero", vec![])]);
    execute(&mut debot, &action(AcType::Goto, "g", 9), done(1));
    let back = action(AcType::Goto, "back", STATE_PREV);
    let (asked, _) = execute(&mut debot, &back, done(2));
    assert_eq!(asked, vec!["switch 0", "log zero"]);
    let (asked, next) = execute(&mut debot, &back, done(1));
    assert!(matches!(next, Next::Done(None)));
    assert_eq!(asked, vec!["log Debot context #9 not found. Exit."]);
}

#[test]
fn a_start_whose_loading_fails_shows_no_context() {
    let mut debot = engine();
    let mut replies = loaded("{\"options\":\"0\"}", 0, vec![]);
    replies.truncate(8);
    replies.extend(failed_run(error(1, "m", "null")));
    let (asked, next) = drive(&mut debot, Operation::Start, replies);
    assert!(matches!(next, Next::Failed(_)));
    assert_eq!(asked.len(), 10);
    assert!(asked.iter().all(|a| !a.starts_with("switch") && !a.starts_with("show")));
}

#[test]
fn version_is_the_answer_as_text() {
    let mut debot = engine();
    let (asked, next) =
        drive(&mut debot, Operation::Version, called("x", Some("{\"semver\":\"1\",\"name\":\"\"}")));
    assert_eq!(asked, vec!["encode 0:debot getVersion - -", "run  msg"]);
    match next {
        Next::Done(Some(text)) => assert_eq!(text, "{\"name\":\"\",\"semver\":\"1\"}"),
        other => panic!("{:?}", other),
    }
    match drive(&mut debot, Operation::Version, called("x", None)).1 {
        Next::Done(Some(text)) => assert_eq!(text, "{}"),
        other => panic!("{:?}", other),
    }
    match drive(&mut debot, Operation::Version, failed_run(error(1, "m", "null"))).1 {
        Next::Failed(e) => assert_eq!(e, "display of m"),
        other => panic!("{:?}", other),
    }
    let replies = vec![Reply::Message(Err(error(1, "n", "null")))];
    match drive(&mut debot, Operation::Version, replies).1 {
        Next::Failed(e) => assert_eq!(e, "display of n"),
        other => panic!("{:?}", other),
    }
}

#[test]
fn a_goto_leads_to_its_context_and_back() {
    let mut debot = started(vec![context(0, "zero", vec![]), context(1, "one", vec![])]);
    let (asked, next) = execute(&mut debot, &action(AcType::Goto, "g", 1), done(2));
    assert!(matches!(next, Next::Done(None)));
    assert_eq!(asked, vec!["switch 1", "log one"]);
    let (asked, _) = execute(&mut debot, &action(AcType::Empty, "e", STATE_PREV), done(2));
    assert_eq!(asked, vec!["switch 0", "log zero"]);
}

#[test]
fn staying_asks_nothing() {
    let mut debot = started(vec![context(0, "zero", vec![])]);
    let (asked, next) = execute(&mut debot, &action(AcType::Goto, "g", STATE_CURRENT), vec![]);
    assert!(matches!(next, Next::Done(None)));
    assert!(asked.is_empty());
    let (asked, _) = execute(&mut debot, &action(AcType::Goto, "g", 0), vec![]);
    assert!(asked.is_empty());
}

#[test]
fn leaving_tells_the_user() {
    let mut debot = started(vec![context(0, "zero", vec![])]);
    let (asked, next) = execute(&mut debot, &action(AcType::Goto, "g", STATE_EXIT), done(1));
    assert!(matches!(next, Next::Done(None)));
    assert_eq!(asked, vec!["switch 255"]);
    // the debot is still in its context
    let (asked, _) = execute(&mut debot, &action(AcType::Goto, "g", STATE_ZERO), vec![]);
    assert!(asked.is_empty());
}

#[test]
fn a_context_that_is_not_there_is_reported() {
    let mut debot = started(vec![context(0, "zero", vec![])]);
    let (asked, next) = execute(&mut debot, &action(AcType::Goto, "g", 107), done(1));
    assert!(matches!(next, Next::Done(None)));
    assert_eq!(asked, vec!["log Debot context #107 not found. Exit."]);
}

#[test]
fn an_unknown_action_fails_and_returns() {
    let mut debot = started(vec![context(0, "zero", vec![]), context(1, "one", vec![])]);
    execute(&mut debot, &action(AcType::Goto, "g", 1), done(2));
    let (asked, next) = execute(&mut debot, &action(AcType::Unknown, "u", 9), done(4));
    assert!(matches!(next, Next::Done(None)));
    assert_eq!(
        asked,
        vec![
            "log unsupported action type",
            "log Action failed: unsupported action type. Return to previous state.\n",
            "switch 0",
            "log zero",
        ]
    );
}

#[test]
fn arguments_are_asked_for_one_by_one() {
    let mut debot = started(vec![context(0, "zero", vec![])]);
    let act = action(AcType::RunAction, "enter", STATE_CURRENT);
    let mut replies = vec![Reply::Text("hi".to_owned()), Reply::Text("7".to_owned())];
    replies.extend(called("s1", None));
    let (asked, next) = execute(&mut debot, &act, replies);
    assert!(matches!(next, Next::Done(None)));
    assert_eq!(
        asked,
        vec![
            "input <>",
            "input <>",
            "encode 0:debot enter {\"count\":\"7\",\"note\":\"6869\"} -",
            "run s0 msg",
        ]
    );
    // the run has moved the account
    let (asked, _) = drive(&mut debot, Operation::Version, called("x", None));
    assert_eq!(asked[1], "run s1 msg");
}

#[test]
fn a_cell_takes_the_place_of_arguments() {
    let mut debot = started(vec![context(0, "zero", vec![])]);
    let mut act = action(AcType::RunAction, "anything", STATE_CURRENT);
    act.misc = "cell".to_owned();
    let (asked, _) = execute(&mut debot, &act, called("s1", None));
    assert_eq!(asked[0], "encode 0:debot anything {\"misc\":\"cell\"} -");
}

#[test]
fn actions_that_cannot_be_read_are_reported() {
    let mut debot = started(vec![context(0, "zero", vec![])]);
    let act = action(AcType::RunAction, "plain", STATE_CURRENT);
    let mut replies = called("s1", Some("{\"actions\":5}"));
    replies.push(Reply::Actions(None));
    let (asked, _) = execute(&mut debot, &act, replies);
    assert_eq!(
        asked[2..],
        [
            "actions 5".to_owned(),
            "log Action failed: internal error: failed to parse actions. Return to previous state.\n"
                .to_owned(),
        ]
    );
    let mut debot = started(vec![context(0, "zero", vec![])]);
    let (_, next) = execute(&mut debot, &act, called("s1", Some("[]")));
    assert!(matches!(next, Next::Fault));
}

#[test]
fn instant_actions_run_and_bring_further_ones() {
    let mut instant = action(AcType::RunAction, "plain", STATE_CURRENT);
    instant.instant = true;
    instant.desc = "working".to_owned();
    let shown = action(AcType::Goto, "last", 0);
    let mut debot = started(vec![
        context(0, "zero", vec![]),
        context(1, "one", vec![instant, shown]),
    ]);
    let mut replies = done(3);
    replies.extend(called("s1", Some("{\"actions\":[]}")));
    replies.push(Reply::Actions(Some(vec![
        action(AcType::Goto, "new1", 0),
        action(AcType::Goto, "new2", 0),
    ])));
    replies.extend(done(3));
    let (asked, next) = execute(&mut debot, &action(AcType::Goto, "g", 1), replies);
    assert!(matches!(next, Next::Done(None)));
    assert_eq!(
        asked,
        vec![
            "switch 1",
            "log one",
            "log working",
            "encode 0:debot plain {} -",
            "run s0 msg",
            "actions []",
            "show new1",
            "show new2",
            "show last",
        ]
    );
}

#[test]
fn an_instant_action_leads_on() {
    let mut jump = action(AcType::Empty, "jump", 2);
    jump.instant = true;
    let mut debot = started(vec![
        context(0, "zero", vec![]),
        context(1, "one", vec![jump, action(AcType::Goto, "never", 0)]),
        context(2, "two", vec![]),
    ]);
    let (asked, next) = execute(&mut debot, &action(AcType::Goto, "g", 1), done(4));
    assert!(matches!(next, Next::Done(None)));
    assert_eq!(asked, vec!["switch 1", "log one", "switch 2", "log two"]);
    // the switch began in context zero
    let (asked, _) = execute(&mut debot, &action(AcType::Goto, "g", STATE_PREV), done(2));
    assert_eq!(asked, vec!["switch 0", "log zero"]);
}

#[test]
fn an_instant_action_can_end_the_debot() {
    let mut leave = action(AcType::Empty, "leave", STATE_EXIT);
    leave.instant = true;
    let mut debot = started(vec![context(0, "zero", vec![]), context(1, "one", vec![leave])]);
    let (asked, next) = execute(&mut debot, &action(AcType::Goto, "g", 1), done(3));
    assert!(matches!(next, Next::Done(None)));
    assert_eq!(asked, vec!["switch 1", "log one", "switch 255"]);
}

#[test]
fn an_instant_action_back_looks_for_the_marker_itself() {
    let mut back = action(AcType::Empty, "back", STATE_PREV);
    back.instant = true;
    let mut debot = started(vec![context(0, "zero", vec![]), context(1, "one", vec![back])]);
    let (asked, _) = execute(&mut debot, &action(AcType::Goto, "g", 1), done(3));
    assert_eq!(asked, vec!["switch 1", "log one", "log Debot context #254 not found. Exit."]);
}

#[test]
fn an_engine_call_in_a_context_is_performed() {
    let mut call = action(AcType::CallEngine, "genRandom", STATE_CURRENT);
    call.desc = "args".to_owned();
    call.func = Some("setRandom".to_owned());
    let mut debot = started(vec![context(0, "zero", vec![]), context(1, "one", vec![call])]);
    let mut replies = done(2);
    replies.push(Reply::Routine(Ok("42".to_owned())));
    replies.extend(called("s1", None));
    let (asked, next) = execute(&mut debot, &action(AcType::Goto, "g", 1), replies);
    assert!(matches!(next, Next::Done(None)));
    assert_eq!(
        asked,
        vec![
            "switch 1",
            "log one",
            "routine genRandom args -",
            "encode 0:debot setRandom {\"arg1\":\"42\"} -",
            "run s0 msg",
        ]
    );
}

#[test]
fn an_action_that_fails_in_a_context_fails_the_switch() {
    let mut call = action(AcType::CallEngine, "r", STATE_CURRENT);
    call.func = Some("f".to_owned());
    let mut debot = started(vec![context(0, "zero", vec![]), context(1, "one", vec![call])]);
    let mut replies = done(2);
    replies.push(Reply::Routine(Err("no routine".to_owned())));
    match execute(&mut debot, &action(AcType::Goto, "g", 1), replies).1 {
        Next::Failed(e) => assert_eq!(e, "no routine"),
        other => panic!("{:?}", other),
    }
}

#[test]
fn a_routine_takes_arguments_and_a_box() {
    let mut debot = started(vec![context(0, "zero", vec![])]);
    let mut act = action(AcType::CallEngine, "sign", STATE_CURRENT);
    act.sign_by_user = true;
    act.args = Some("getArgs".to_owned());
    act.func = Some("setSign".to_owned());
    let mut replies = called("s1", Some("{\"b\":1,\"a\":2}"));
    replies.push(Reply::SigningBox(Ok(5)));
    replies.push(Reply::Routine(Ok("sig".to_owned())));
    replies.push(Reply::Done);
    replies.extend(called("s2", None));
    let (asked, next) = execute(&mut debot, &act, replies);
    assert!(matches!(next, Next::Done(None)));
    assert_eq!(
        asked,
        vec![
            "encode 0:debot getArgs - -",
            "run s0 msg",
            "box",
            "routine sign {\"a\":2,\"b\":1} 5",
            "unbox 5",
            "encode 0:debot setSign {\"arg1\":\"sig\"} -",
            "run s1 msg",
        ]
    );
}

#[test]
fn a_routine_without_callback_is_reported() {
    let mut debot = started(vec![context(0, "zero", vec![])]);
    let mut act = action(AcType::CallEngine, "r", STATE_CURRENT);
    act.args = Some("getArgs".to_owned());
    let mut replies = called("s1", None);
    replies.push(Reply::Routine(Ok("x".to_owned())));
    let (asked, _) = execute(&mut debot, &act, replies);
    assert_eq!(asked[2], "routine r  -");
    assert_eq!(
        asked[3],
        "log Action failed: routine callback is not specified. Return to previous state.\n"
    );
}

#[test]
fn a_message_is_prepared_signed_and_sent() {
    let mut debot = targeted(vec![]);
    let mut act = action(AcType::SendMsg, "prepare", STATE_EXIT);
    act.sign_by_user = true;
    act.misc = "cell".to_owned();
    let mut replies = vec![Reply::SigningBox(Ok(3))];
    replies.extend(called(
        "s1",
        Some("{\"dest\":\"0:target\",\"body\":\"b64\",\"state\":\"image\"}"),
    ));
    replies.push(parsed(ABI));
    replies.push(Reply::Body(Ok(DecodedMessageBody {
        name: "transfer".to_owned(),
        value: Some(json("{\"v\":1}")),
    })));
    replies.push(Reply::Processed(Ok(Some(DecodedOutput { output: Some(json("{}")) }))));
    replies.extend(done(3));
    let (asked, next) = execute(&mut debot, &act, replies);
    assert!(matches!(next, Next::Done(None)));
    let parse = format!("abi {}", ABI);
    assert_eq!(
        asked,
        vec![
            "box",
            "encode 0:debot prepare {\"misc\":\"cell\"} -",
            "run s0 msg",
            parse.as_str(),
            "body b64 true",
            "process 0:target transfer {\"v\":1} 3 image true",
            "unbox 3",
            "log Transaction succeeded.",
            "switch 255",
        ]
    );
}

#[test]
fn a_message_to_the_debot_itself_needs_no_target() {
    let mut debot = started(vec![context(0, "zero", vec![])]);
    let act = action(AcType::SendMsg, "prepare", STATE_CURRENT);
    let mut replies = called("s1", Some("{\"dest\":\"0:debot\",\"body\":\"b64\"}"));
    replies.push(Reply::Body(Ok(DecodedMessageBody { name: "f".to_owned(), value: None })));
    replies.push(Reply::Processed(Ok(Some(DecodedOutput { output: None }))));
    replies.extend(done(1));
    let (asked, _) = execute(&mut debot, &act, replies);
    assert_eq!(
        asked[2..],
        [
            "body b64 true".to_owned(),
            "process 0:debot f - - - true".to_owned(),
            "log Transaction succeeded.".to_owned(),
        ]
    );
    // elsewhere it needs one
    let mut debot = started(vec![context(0, "zero", vec![])]);
    let replies = called("s1", Some("{\"dest\":\"0:other\",\"body\":\"b64\"}"));
    let (asked, _) = execute(&mut debot, &act, replies);
    assert_eq!(
        asked[2],
        "log Action failed: target address is undefined. Return to previous state.\n"
    );
}

#[test]
fn a_message_that_fails_keeps_the_box() {
    let mut debot = targeted(vec![]);
    let mut act = action(AcType::SendMsg, "prepare", STATE_CURRENT);
    act.sign_by_user = true;
    let mut replies = vec![Reply::SigningBox(Ok(3))];
    replies.extend(called("s1", Some("{\"dest\":\"0:target\",\"body\":\"b64\"}")));
    replies.push(parsed(ABI));
    replies.push(Reply::Body(Err("bad body".to_owned())));
    let (asked, _) = execute(&mut debot, &act, replies);
    assert_eq!(
        asked[5],
        "log Action failed: failed to decode msg body: bad body. Return to previous state.\n"
    );
    let replies = vec![Reply::SigningBox(Err("refused".to_owned()))];
    let (asked, _) = execute(&mut debot, &act, replies);
    assert_eq!(asked[1], "log Action failed: refused. Return to previous state.\n");
}

#[test]
fn a_message_must_be_prepared() {
    let mut debot = started(vec![context(0, "zero", vec![])]);
    let act = action(AcType::SendMsg, "prepare", STATE_CURRENT);
    let (asked, _) = execute(&mut debot, &act, called("s1", None));
    assert_eq!(
        asked[2],
        "log Action failed: action \"prepare\" is invalid: it must return \"dest\" and \"body\" \
         arguments. Return to previous state.\n"
    );
    let mut debot = started(vec![context(0, "zero", vec![])]);
    let (_, next) = execute(&mut debot, &act, called("s1", Some("{\"dest\":\"0:debot\"}")));
    assert!(matches!(next, Next::Fault));
}

#[test]
fn a_processed_message_without_output_is_a_fault() {
    let mut debot = started(vec![context(0, "zero", vec![])]);
    let act = action(AcType::SendMsg, "prepare", STATE_CURRENT);
    let mut replies = called("s1", Some("{\"dest\":\"0:debot\",\"body\":\"b\"}"));
    replies.push(Reply::Body(Ok(DecodedMessageBody { name: "f".to_owned(), value: None })));
    replies.push(Reply::Processed(Ok(None)));
    assert!(matches!(execute(&mut debot, &act, replies).1, Next::Fault));
}

#[test]
fn a_get_method_runs_on_the_target() {
    let mut debot = targeted(vec![]);
    let mut act = action(AcType::RunMethod, "setResult", STATE_EXIT);
    act.func = Some("getBalance".to_owned());
    act.args = Some("getArgs".to_owned());
    let mut replies = called("s1", Some("{\"q\":1}"));
    replies.extend(called("x", Some("{\"options\":\"0\"}")));
    replies.push(Reply::Number(Some(0)));
    replies.push(parsed(ABI));
    replies.push(Reply::Collection(Ok(vec![json("{\"boc\":\"t0\"}")])));
    replies.extend(called("t1", Some("{\"balance\":\"9\"}")));
    replies.extend(called("s2", None));
    replies.extend(done(1));
    let (asked, next) = execute(&mut debot, &act, replies);
    assert!(matches!(next, Next::Done(None)));
    let parse = format!("abi {}", ABI);
    assert_eq!(
        asked,
        vec![
            "encode 0:debot getArgs - -",
            "run s0 msg",
            "encode 0:debot getDebotOptions - -",
            "run s1 msg",
            "number 0",
            parse.as_str(),
            "query accounts {\"id\":{\"eq\":\"0:target\"}} boc 1",
            "encode 0:target getBalance {\"q\":1} -",
            "run t0 msg",
            "encode 0:debot setResult {\"balance\":\"9\"} -",
            "run s1 msg",
            "switch 255",
        ]
    );
}

#[test]
fn a_get_method_needs_a_function() {
    let mut debot = started(vec![context(0, "zero", vec![])]);
    let act = action(AcType::RunMethod, "setResult", STATE_CURRENT);
    assert!(matches!(execute(&mut debot, &act, vec![]).1, Next::Fault));
}

#[test]
fn another_debot_is_invoked() {
    let mut debot = started(vec![context(0, "zero", vec![])]);
    let act = action(AcType::Invoke, "getInvoke", STATE_CURRENT);
    let mut replies = called("s1", Some("{\"debot\":\"0:other\",\"action\":{\"k\":1}}"));
    replies.push(Reply::Action(Some(action(AcType::Goto, "there", 0))));
    replies.push(Reply::Invoked(Ok(())));
    let (asked, next) = execute(&mut debot, &act, replies);
    assert!(matches!(next, Next::Done(None)));
    assert_eq!(asked[2..], ["action {\"k\":1}".to_owned(), "invoke 0:other there".to_owned()]);

    let mut replies = called("s1", Some("{\"debot\":\"0:other\",\"action\":null}"));
    replies.push(Reply::Action(None));
    assert!(matches!(execute(&mut debot, &act, replies).1, Next::Fault));

    let mut replies = called("s1", Some("{\"debot\":\"0:other\"}"));
    replies.push(Reply::Action(Some(action(AcType::Goto, "there", 0))));
    replies.push(Reply::Invoked(Err("busy".to_owned())));
    let (asked, _) = execute(&mut debot, &act, replies);
    assert_eq!(asked[2], "action null");
    assert_eq!(asked[4], "log Action failed: busy. Return to previous state.\n");
}

#[test]
fn an_invocation_must_be_given() {
    let mut debot = started(vec![context(0, "zero", vec![])]);
    let act = action(AcType::Invoke, "getInvoke", STATE_CURRENT);
    let (asked, _) = execute(&mut debot, &act, called("s1", None));
    assert_eq!(
        asked[2],
        "log Action failed: invalid invoke action \"getInvoke\": it must return \"debot\" and \
         \"action\" arguments. Return to previous state.\n"
    );
}

#[test]
fn a_text_is_printed_as_it_is_or_filled() {
    let mut debot = started(vec![context(0, "zero", vec![])]);
    let mut act = action(AcType::Print, "Hello {}", STATE_CURRENT);
    let (asked, _) = execute(&mut debot, &act, done(1));
    assert_eq!(asked, vec!["log Hello {}"]);

    act.fargs = Some("getName".to_owned());
    act.misc = "cell".to_owned();
    let mut replies = called("s1", Some("{\"name\":\"Bob\"}"));
    replies.push(Reply::Text("Hello Bob".to_owned()));
    replies.extend(done(1));
    let (asked, _) = execute(&mut debot, &act, replies);
    assert_eq!(
        asked,
        vec![
            "encode 0:debot getName {\"misc\":\"cell\"} -",
            "run s0 msg",
            "format Hello {} {\"name\":\"Bob\"}",
            "log Hello Bob",
        ]
    );

    let mut replies = called("s2", None);
    replies.extend(done(1));
    let (asked, _) = execute(&mut debot, &act, replies);
    assert_eq!(asked[2], "log ");
}

#[test]
fn errors_of_the_client_are_put_into_words() {
    let act = action(AcType::RunAction, "plain", STATE_CURRENT);
    let words = |replies: Vec<Reply>| {
        let mut debot = started(vec![context(0, "zero", vec![])]);
        let (asked, _) = execute(&mut debot, &act, replies);
        asked.last().unwrap().clone()
    };
    let failed = |e: &str| format!("log Action failed: {}. Return to previous state.\n", e);

    let e = error(3025, "oh, Wrong data format: x", "{\"exit_code\":101}");
    assert_eq!(words(failed_run(e)), failed("invalid parameter"));

    assert_eq!(words(failed_run(error(7, "plain message", "null"))), failed("plain message"));

    let e = || error(3025, "thrown", "{\"exit_code\":101}");
    let mut replies = failed_run(e());
    replies.extend(called("x", Some("{\"desc\":\"6e6f\"}")));
    assert_eq!(words(replies), failed("no"));

    for answer in ["{\"desc\":\"6e6\"}", "{\"desc\":\"ff\"}", "{\"desc\":1}", "{}"] {
        let mut replies = failed_run(e());
        replies.extend(called("x", Some(answer)));
        assert_eq!(words(replies), failed("thrown"));
    }

    let mut replies = failed_run(e());
    replies.extend(failed_run(error(1, "again", "null")));
    assert_eq!(words(replies), failed("thrown"));

    let e = error(3025, "thrown", "{\"exit_code\":\"101\"}");
    assert_eq!(words(failed_run(e)), failed("thrown"));
}

#[test]
fn the_code_of_a_thrown_error_is_handed_to_the_debot() {
    let mut debot = started(vec![context(0, "zero", vec![])]);
    let act = action(AcType::RunAction, "plain", STATE_CURRENT);
    let replies = failed_run(error(3025, "thrown", "{\"exit_code\":-14}"));
    let (asked, _) = execute(&mut debot, &act, replies);
    assert_eq!(asked[2], "encode 0:debot getErrorDescription {\"error\":-14} -");
}

#[test]
fn an_operation_that_waits_changes_nothing() {
    let mut debot = started(vec![context(0, "zero", vec![]), context(1, "one", vec![])]);
    let (asked, next) = execute(&mut debot, &action(AcType::Goto, "g", 1), done(1));
    assert!(matches!(next, Next::Ask(Request::Log(_))));
    assert_eq!(asked, vec!["switch 1", "log one"]);
    // begun again, it asks the same
    let (asked, _) = execute(&mut debot, &action(AcType::Goto, "g", 1), done(2));
    assert_eq!(asked, vec!["switch 1", "log one"]);
}

#[test]
fn methods_work_on_a_dialogue() {
    let mut debot = engine();
    let mut talk = Dialogue::new();
    assert!(talk.take_request().is_none());
    assert!(matches!(debot.start(&mut talk), Err(Stop::Pending)));
    assert!(matches!(talk.take_request(), Some(Request::QueryCollection { limit: 1, .. })));
    talk.answer(Reply::Collection(Err("e".to_owned())));
    assert!(matches!(debot.fetch(&mut talk), Err(Stop::Failed(_))));
    talk.answer(Reply::Done);
    assert!(matches!(debot.version(&mut talk), Err(Stop::Fault)));
    let act = action(AcType::Goto, "g", STATE_EXIT);
    assert!(matches!(debot.execute_action(&mut Dialogue::new(), &act), Err(Stop::Pending)));
}

#[test]
fn a_second_start_loads_but_does_not_enter_again() {
    let mut debot = started(vec![context(0, "zero", vec![])]);
    let replies = loaded("{\"options\":\"0\"}", 0, vec![context(0, "zero", vec![])]);
    let (asked, next) = drive(&mut debot, Operation::Start, replies);
    assert!(matches!(next, Next::Done(None)));
    assert_eq!(asked.len(), 11);
}

#[test]
fn engines_are_set_up() {
    let given = || Some(Ok("{\"functions\":[]}".to_owned()));
    let common = || Ok(ABI.to_owned());
    let debot = DEngine::new("0:a".to_owned(), None, "server", Ok(()), common());
    assert_eq!(debot.client().server_address, "server");
    let ton = TonClient { server_address: "other".to_owned() };
    let mut debot = DEngine::new_with_client("0:a".to_owned(), given(), ton, common());
    assert_eq!(debot.client().server_address, "other");
    // the interface that is given goes before the common one
    let act = action(AcType::RunAction, "enter", STATE_CURRENT);
    let (asked, _) = execute(&mut debot, &act, vec![]);
    assert_eq!(asked, vec!["log Action failed: action not found. Return to previous state.\n"]);
    let mut debot = DEngine::new("0:a".to_owned(), None, "server", Ok(()), common());
    let (asked, _) = execute(&mut debot, &act, vec![]);
    assert_eq!(asked, vec!["input <>"]);
    // an interface that is no document
    let mut debot =
        DEngine::new("0:a".to_owned(), Some(Ok("{".to_owned())), "server", Ok(()), common());
    assert!(matches!(execute(&mut debot, &act, vec![]).1, Next::Fault));
}

#[test]
fn clients_are_created() {
    assert_eq!(create_client("url", Ok(())).unwrap().server_address, "url");
    assert_eq!(
        create_client("url", Err("e".to_owned())).unwrap_err(),
        "failed to create tonclient: e"
    );
}

#[test]
fn addresses_are_taken_as_they_are() {
    assert_eq!(load_ton_address("0:abc"), Ok("0:abc".to_owned()));
    assert_eq!(load_ton_address(""), Ok(String::new()));
}

#[test]
fn a_run_output_holds_what_it_is_given() {
    let out = RunOutput::new("a".to_owned(), vec!["m".to_owned()], Some(Json::Int(1)));
    assert_eq!(out.account, "a");
    assert_eq!(out.msgs, vec!["m".to_owned()]);
    assert_eq!(out.output.unwrap().text(), "1");
}

#[test]
fn sending_is_reported() {
    let event = ProcessingEvent::WillSend {
        shard_block_id: "block".to_owned(),
        message_id: "id1".to_owned(),
        message: "boc".to_owned(),
    };
    assert_eq!(processing_report(&event), Some("Sending message id1".to_owned()));
    assert_eq!(processing_report(&ProcessingEvent::Other), None);
}

#[test]
fn the_first_context_with_an_id_is_found() {
    let contexts =
        vec![context(1, "a", vec![]), context(2, "b", vec![]), context(2, "c", vec![])];
    assert_eq!(find_context(&contexts, 2).unwrap().desc, "b");
    assert!(find_context(&contexts, 3).is_none());
}
