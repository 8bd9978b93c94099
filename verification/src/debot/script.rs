//! What the engine says and does, as functions of what it hears.
//!
//! Each function here is one part of the engine's side of a [`Talk`]. It goes on from a talk, and
//! gives the talk as it stands afterwards and the outcome; where the part changes the debot, it
//! takes the debot and gives it back as well.

use crate::client::ClientErrorView;
use crate::debot::abi;
use crate::debot::abi::AbiView;
use crate::debot::action::{AcType, DActionView};
use crate::debot::context;
use crate::debot::context::{
    DContextView, STATE_CURRENT, STATE_EXIT, STATE_PREV, STATE_ZERO,
};
use crate::debot::dialogue::{EncodeView, ReplyView, RequestView, StopView, Talk};
use crate::debot::turns;
use crate::json;
use crate::json::JsonView;
use crate::text;
use vstd::prelude::*;

verus! {

/// Base64 of the empty cell, which stands for "no arguments".
pub const EMPTY_CELL: &'static str = "te6ccgEBAQEAAgAAAA==";

/// The option bits by which a debot says what it has of its own.
pub const OPTION_ABI: u8 = 1;

pub const OPTION_TARGET_ABI: u8 = 2;

pub const OPTION_TARGET_ADDR: u8 = 4;

/// The client's code of an error that a contract threw.
pub const CONTRACT_EXECUTION_ERROR: u32 = 3025;

/// A debot: where it is, what its contract holds, and which contract it works on.
pub struct DebotView {
    pub abi: AbiView,
    pub addr: Seq<char>,
    /// The address of the server that the debot's client works with.
    pub server: Seq<char>,
    /// The account of the debot's contract.
    pub state: Seq<char>,
    pub state_machine: Seq<DContextView>,
    pub curr_state: u8,
    pub prev_state: u8,
    pub target_addr: Option<Seq<char>>,
    pub target_abi: Option<Seq<char>>,
}

/// A debot that nothing was done with yet.
pub open spec fn new_debot(addr: Seq<char>, abi: AbiView, server: Seq<char>) -> DebotView {
    DebotView {
        abi,
        addr,
        server,
        state: Seq::empty(),
        state_machine: Seq::empty(),
        curr_state: STATE_EXIT,
        prev_state: STATE_ZERO,
        target_addr: None,
        target_abi: None,
    }
}

/// What a run of a function came to.
pub struct RunOutputView {
    pub account: Seq<char>,
    pub msgs: Seq<Seq<char>>,
    pub output: Option<JsonView>,
}

/// What comes of one part of a talk.
pub type Said<T> = (Talk, Result<T, StopView>);

/// What comes of one part of a talk that may change the debot.
pub type Done<T> = (DebotView, Talk, Result<T, StopView>);

/// The output of a run, an empty object where it has none.
pub open spec fn or_empty(output: Option<JsonView>) -> JsonView {
    match output {
        Some(doc) => doc,
        None => json::object0(),
    }
}

/// The arguments that hold the cell of an action, unless the cell is empty.
pub open spec fn misc_args(misc: Seq<char>) -> Option<JsonView> {
    if misc != EMPTY_CELL@ {
        Some(json::object1("misc"@, JsonView::Str(misc)))
    } else {
        None
    }
}

/// Runs a function of a contract locally, on an account.
pub open spec fn run(
    talk: Talk,
    state: Seq<char>,
    addr: Seq<char>,
    abi: AbiView,
    func: Seq<char>,
    args: Option<JsonView>,
) -> Said<Result<RunOutputView, ClientErrorView>> {
    match talk.ask(
        RequestView::EncodeMessage(
            EncodeView {
                abi,
                address: addr,
                tvc: None,
                function_name: func,
                input: args,
                signer: None,
            },
        ),
    ) {
        (talk, Ok(ReplyView::Message(Ok(message)))) => match talk.ask(
            RequestView::RunTvm { account: state, message, abi },
        ) {
            (talk, Ok(ReplyView::TvmRun(Ok(tvm)))) => match tvm.decoded {
                Some(decoded) => (
                    talk,
                    Ok(
                        Ok(
                            RunOutputView {
                                account: tvm.account,
                                msgs: tvm.out_messages,
                                output: decoded.output,
                            },
                        ),
                    ),
                ),
                None => (talk, Err(StopView::Fault)),
            },
            (talk, Ok(ReplyView::TvmRun(Err(e)))) => (talk, Ok(Err(e))),
            (talk, Ok(_)) => (talk, Err(StopView::Fault)),
            (talk, Err(stop)) => (talk, Err(stop)),
        },
        (talk, Ok(ReplyView::Message(Err(e)))) => (talk, Ok(Err(e))),
        (talk, Ok(_)) => (talk, Err(StopView::Fault)),
        (talk, Err(stop)) => (talk, Err(stop)),
    }
}

/// Runs a get-function of the debot.
pub open spec fn run_debot_get(
    debot: DebotView,
    talk: Talk,
    func: Seq<char>,
    args: Option<JsonView>,
) -> Said<JsonView> {
    match run(talk, debot.state, debot.addr, debot.abi, func, args) {
        (talk, Ok(Ok(out))) => (talk, Ok(or_empty(out.output))),
        (talk, Ok(Err(e))) => (talk, Err(StopView::Failed(e.display))),
        (talk, Err(stop)) => (talk, Err(stop)),
    }
}

/// The description of an error in the debot's answer.
pub open spec fn error_description(answer: JsonView) -> Option<Seq<char>> {
    match answer.at("desc"@).as_str() {
        Some(hex) => text::hex_text(hex),
        None => None,
    }
}

/// The text for an error of the client: "invalid parameter" for arguments in a wrong format, the
/// debot's own description of an error that a contract threw, else the client's message.
#[verifier::opaque]
pub open spec fn handle_sdk_err(debot: DebotView, talk: Talk, err: ClientErrorView) -> Said<
    Seq<char>,
> {
    if text::occurs_in("Wrong data format"@, err.message) {
        (talk, Ok("invalid parameter"@))
    } else if err.code == CONTRACT_EXECUTION_ERROR {
        match err.data.at("exit_code"@).as_i64() {
            Some(code) => match run_debot_get(
                debot,
                talk,
                "getErrorDescription"@,
                Some(json::object1("error"@, JsonView::Int(code))),
            ) {
                (talk, Ok(answer)) => match error_description(answer) {
                    Some(description) => (talk, Ok(description)),
                    None => (talk, Ok(err.message)),
                },
                (talk, Err(StopView::Failed(_))) => (talk, Ok(err.message)),
                (talk, Err(stop)) => (talk, Err(stop)),
            },
            None => (talk, Ok(err.message)),
        }
    } else {
        (talk, Ok(err.message))
    }
}

/// Fails with the text for an error of the client.
pub open spec fn sdk_failure<T>(debot: DebotView, talk: Talk, err: ClientErrorView) -> Said<T> {
    match handle_sdk_err(debot, talk, err) {
        (talk, Ok(message)) => (talk, Err(StopView::Failed(message))),
        (talk, Err(stop)) => (talk, Err(stop)),
    }
}

/// Loads the account at an address.
pub open spec fn load_state(talk: Talk, addr: Seq<char>) -> Said<Seq<char>> {
    match talk.ask(
        RequestView::QueryCollection {
            collection: "accounts"@,
            filter: json::object1("id"@, json::object1("eq"@, JsonView::Str(addr))),
            result: "boc"@,
            limit: 1,
        },
    ) {
        (talk, Ok(ReplyView::Collection(Ok(found)))) => if found.len() == 0 {
            (
                talk,
                Err(
                    StopView::Failed(
                        "Cannot find debot with this address "@ + addr + " in blockchain"@,
                    ),
                ),
            )
        } else {
            match found[0].at("boc"@).as_str() {
                Some(boc) => (talk, Ok(boc)),
                None => (talk, Err(StopView::Fault)),
            }
        },
        (talk, Ok(ReplyView::Collection(Err(e)))) => (
            talk,
            Err(StopView::Failed("failed to query debot account: "@ + e)),
        ),
        (talk, Ok(_)) => (talk, Err(StopView::Fault)),
        (talk, Err(stop)) => (talk, Err(stop)),
    }
}

/// Loads the account of a contract and runs a get-function on it.
pub open spec fn run_get(
    debot: DebotView,
    talk: Talk,
    addr: Seq<char>,
    abi: AbiView,
    name: Seq<char>,
    params: Option<JsonView>,
) -> Said<JsonView> {
    match load_state(talk, addr) {
        (talk, Ok(state)) => match run(talk, state, addr, abi, name, params) {
            (talk, Ok(Ok(out))) => (talk, Ok(or_empty(out.output))),
            (talk, Ok(Err(e))) => sdk_failure(debot, talk, e),
            (talk, Err(stop)) => (talk, Err(stop)),
        },
        (talk, Err(stop)) => (talk, Err(stop)),
    }
}

/// Runs a function of the debot, which moves the debot's account on.
pub open spec fn run_debot(
    debot: DebotView,
    talk: Talk,
    name: Seq<char>,
    args: Option<JsonView>,
) -> Done<Option<JsonView>> {
    match run(talk, debot.state, debot.addr, debot.abi, name, args) {
        (talk, Ok(Ok(out))) => (DebotView { state: out.account, ..debot }, talk, Ok(out.output)),
        (talk, Ok(Err(e))) => match sdk_failure(debot, talk, e) {
            (talk, outcome) => (debot, talk, outcome),
        },
        (talk, Err(stop)) => (debot, talk, Err(stop)),
    }
}

/// An argument as the user typed it: a parameter of type `bytes` is sent as hexadecimal.
pub open spec fn typed_argument(param_type: Seq<char>, value: Seq<char>) -> Seq<char> {
    if param_type == "bytes"@ {
        text::hex_encoded(vstd::utf8::encode_utf8(value))
    } else {
        value
    }
}

/// Asks the user for one argument after the other, beside those that are given already.
pub open spec fn ask_inputs(
    talk: Talk,
    inputs: Seq<JsonView>,
    given: Map<Seq<char>, JsonView>,
) -> Said<JsonView>
    decreases inputs.len(),
{
    if inputs.len() == 0 {
        (talk, Ok(JsonView::Object(given)))
    } else {
        match inputs[0].at("name"@).as_str() {
            Some(name) => match talk.ask(RequestView::Input(""@)) {
                (talk, Ok(ReplyView::Text(value))) => match inputs[0].at("type"@).as_str() {
                    Some(param_type) => ask_inputs(
                        talk,
                        inputs.drop_first(),
                        given.insert(name, JsonView::Str(typed_argument(param_type, value))),
                    ),
                    None => (talk, Err(StopView::Fault)),
                },
                (talk, Ok(_)) => (talk, Err(StopView::Fault)),
                (talk, Err(stop)) => (talk, Err(stop)),
            },
            None => (talk, Err(StopView::Fault)),
        }
    }
}

/// What the user types for each parameter of the function with a name in an interface.
pub open spec fn query_inputs(talk: Talk, abi_json: JsonView, name: Seq<char>) -> Said<JsonView> {
    match abi::inputs_of(abi_json, name) {
        Ok(Some(inputs)) => ask_inputs(talk, inputs, Map::empty()),
        Ok(None) => (talk, Err(StopView::Failed("action not found"@))),
        Err(()) => (talk, Err(StopView::Fault)),
    }
}

/// The arguments of an action: its cell, or else what the user types for each parameter of the
/// debot's function with the action's name.
pub open spec fn query_action_args(debot: DebotView, talk: Talk, act: DActionView) -> Said<
    Option<JsonView>,
> {
    match misc_args(act.misc) {
        Some(args) => (talk, Ok(Some(args))),
        None => match json::json_parse(debot.abi.json) {
            Ok(abi_json) => match query_inputs(talk, abi_json, act.name) {
                (talk, Ok(args)) => (talk, Ok(Some(args))),
                (talk, Err(stop)) => (talk, Err(stop)),
            },
            Err(_) => (talk, Err(StopView::Fault)),
        },
    }
}

/// Runs an action of the debot, which may answer with further actions.
pub open spec fn run_action(debot: DebotView, talk: Talk, act: DActionView) -> Done<
    Option<Seq<DActionView>>,
> {
    match query_action_args(debot, talk, act) {
        (talk, Ok(args)) => match run_debot(debot, talk, act.name, args) {
            (debot, talk, Ok(Some(out))) => if out is Object || out is Null {
                match talk.ask(RequestView::ParseActions(out.at("actions"@))) {
                    (talk, Ok(ReplyView::Actions(Some(actions)))) => (
                        debot,
                        talk,
                        Ok(Some(actions)),
                    ),
                    (talk, Ok(ReplyView::Actions(None))) => (
                        debot,
                        talk,
                        Err(StopView::Failed("internal error: failed to parse actions"@)),
                    ),
                    (talk, Ok(_)) => (debot, talk, Err(StopView::Fault)),
                    (talk, Err(stop)) => (debot, talk, Err(stop)),
                }
            } else {
                (debot, talk, Err(StopView::Fault))
            },
            (debot, talk, Ok(None)) => (debot, talk, Ok(None)),
            (debot, talk, Err(stop)) => (debot, talk, Err(stop)),
        },
        (talk, Err(stop)) => (debot, talk, Err(stop)),
    }
}

/// Loads an interface from its text.
pub open spec fn load_abi(talk: Talk, text: Seq<char>) -> Said<AbiView> {
    match talk.ask(RequestView::ParseAbi(text)) {
        (talk, Ok(ReplyView::Abi(parsed))) => match abi::loaded_abi(parsed) {
            Ok(abi) => (talk, Ok(abi)),
            Err(e) => (talk, Err(StopView::Failed(e))),
        },
        (talk, Ok(_)) => (talk, Err(StopView::Fault)),
        (talk, Err(stop)) => (talk, Err(stop)),
    }
}

/// The contract that the debot works on: its address and its interface.
pub open spec fn get_target(debot: DebotView, talk: Talk) -> Said<(Seq<char>, AbiView)> {
    match (debot.target_addr, debot.target_abi) {
        (Some(addr), Some(text)) => match load_abi(talk, text) {
            (talk, Ok(abi)) => (talk, Ok((addr, abi))),
            (talk, Err(stop)) => (talk, Err(stop)),
        },
        (Some(_), None) => (talk, Err(StopView::Failed("target abi is undefined"@))),
        (None, _) => (talk, Err(StopView::Failed("target address is undefined"@))),
    }
}

/// Sends a call to a contract, with an image to deploy where there is one, and waits for its
/// output.
pub open spec fn call_target(
    debot: DebotView,
    talk: Talk,
    dest: Seq<char>,
    abi: AbiView,
    func: Seq<char>,
    args: Option<JsonView>,
    signer: Option<u32>,
    state: Option<Seq<char>>,
) -> Said<Option<JsonView>> {
    match talk.ask(
        RequestView::ProcessMessage {
            encode_params: EncodeView {
                abi,
                address: dest,
                tvc: state,
                function_name: func,
                input: args,
                signer,
            },
            send_events: true,
        },
    ) {
        (talk, Ok(ReplyView::Processed(Ok(Some(decoded))))) => (talk, Ok(decoded.output)),
        (talk, Ok(ReplyView::Processed(Ok(None)))) => (talk, Err(StopView::Fault)),
        (talk, Ok(ReplyView::Processed(Err(e)))) => sdk_failure(debot, talk, e),
        (talk, Ok(_)) => (talk, Err(StopView::Fault)),
        (talk, Err(stop)) => (talk, Err(stop)),
    }
}

/// The interface by which a message to an address is read: the debot's own for the debot itself,
/// else the target's.
pub open spec fn abi_for(debot: DebotView, talk: Talk, dest: Seq<char>) -> Said<AbiView> {
    if dest == debot.addr {
        (talk, Ok(debot.abi))
    } else {
        match get_target(debot, talk) {
            (talk, Ok((_, abi))) => (talk, Ok(abi)),
            (talk, Err(stop)) => (talk, Err(stop)),
        }
    }
}

/// Decodes the body of a message by an interface, and sends the call that it makes.
pub open spec fn send_body(
    debot: DebotView,
    talk: Talk,
    dest: Seq<char>,
    abi: AbiView,
    body: Seq<char>,
    signer: Option<u32>,
    state: Option<Seq<char>>,
) -> Said<Option<JsonView>> {
    match talk.ask(RequestView::DecodeMessageBody { abi, body, is_internal: true }) {
        (talk, Ok(ReplyView::Body(Ok(decoded)))) => call_target(
            debot,
            talk,
            dest,
            abi,
            decoded.name,
            decoded.value,
            signer,
            state,
        ),
        (talk, Ok(ReplyView::Body(Err(e)))) => (
            talk,
            Err(StopView::Failed("failed to decode msg body: "@ + e)),
        ),
        (talk, Ok(_)) => (talk, Err(StopView::Fault)),
        (talk, Err(stop)) => (talk, Err(stop)),
    }
}

/// Sends the message that a function of the debot has prepared.
pub open spec fn send_prepared(
    debot: DebotView,
    talk: Talk,
    prepared: JsonView,
    signer: Option<u32>,
) -> Said<Option<JsonView>> {
    match (prepared.at("dest"@).as_str(), prepared.at("body"@).as_str()) {
        (Some(dest), Some(body)) => match abi_for(debot, talk, dest) {
            (talk, Ok(abi)) => send_body(
                debot,
                talk,
                dest,
                abi,
                body,
                signer,
                prepared.at("state"@).as_str(),
            ),
            (talk, Err(stop)) => (talk, Err(stop)),
        },
        _ => (talk, Err(StopView::Fault)),
    }
}

/// Lets a function of the debot prepare a message, and sends it.
pub open spec fn run_sendmsg(
    debot: DebotView,
    talk: Talk,
    name: Seq<char>,
    args: Option<JsonView>,
    signer: Option<u32>,
) -> Done<Option<JsonView>> {
    match run_debot(debot, talk, name, args) {
        (debot, talk, Ok(Some(prepared))) => match send_prepared(debot, talk, prepared, signer) {
            (talk, outcome) => (debot, talk, outcome),
        },
        (debot, talk, Ok(None)) => (
            debot,
            talk,
            Err(
                StopView::Failed(
                    "action \""@ + name
                        + "\" is invalid: it must return \"dest\" and \"body\" arguments"@,
                ),
            ),
        ),
        (debot, talk, Err(stop)) => (debot, talk, Err(stop)),
    }
}

/// Takes over the interface of its own that a debot gives.
pub open spec fn apply_abi(
    debot: DebotView,
    talk: Talk,
    options: u8,
    params: JsonView,
) -> Done<()> {
    if options & OPTION_ABI != 0 {
        match params.at("debotAbi"@).as_str() {
            Some(hex) => match text::hex_text(hex) {
                Some(text) => match load_abi(talk, text) {
                    (talk, Ok(abi)) => (DebotView { abi, ..debot }, talk, Ok(())),
                    (talk, Err(stop)) => (debot, talk, Err(stop)),
                },
                None => (
                    debot,
                    talk,
                    Err(StopView::Failed("cannot convert hex string to debot abi"@)),
                ),
            },
            None => (debot, talk, Err(StopView::Fault)),
        }
    } else {
        (debot, talk, Ok(()))
    }
}

/// Takes over the interface of the target that a debot gives; one that is no text is lost.
pub open spec fn apply_target_abi(debot: DebotView, options: u8, params: JsonView) -> (
    DebotView,
    Result<(), StopView>,
) {
    if options & OPTION_TARGET_ABI != 0 {
        match params.at("targetAbi"@).as_str() {
            Some(hex) => (DebotView { target_abi: text::hex_text(hex), ..debot }, Ok(())),
            None => (debot, Err(StopView::Fault)),
        }
    } else {
        (debot, Ok(()))
    }
}

/// Takes over the address of the target that a debot gives.
pub open spec fn apply_target_addr(debot: DebotView, options: u8, params: JsonView) -> (
    DebotView,
    Result<(), StopView>,
) {
    if options & OPTION_TARGET_ADDR != 0 {
        match params.at("targetAddr"@).as_str() {
            Some(addr) => (DebotView { target_addr: Some(addr), ..debot }, Ok(())),
            None => (debot, Err(StopView::Fault)),
        }
    } else {
        (debot, Ok(()))
    }
}

/// Takes over the target that a debot gives: first its interface, then its address.
pub open spec fn apply_target(debot: DebotView, options: u8, params: JsonView) -> (
    DebotView,
    Result<(), StopView>,
) {
    match apply_target_abi(debot, options, params) {
        (debot, Ok(())) => apply_target_addr(debot, options, params),
        (debot, Err(stop)) => (debot, Err(stop)),
    }
}

/// Takes over what a debot gives of its own, as its option bits say: first its interface, then
/// the target.
pub open spec fn apply_options(
    debot: DebotView,
    talk: Talk,
    options: u8,
    params: JsonView,
) -> Done<()> {
    match apply_abi(debot, talk, options, params) {
        (debot, talk, Ok(())) => match apply_target(debot, options, params) {
            (debot, outcome) => (debot, talk, outcome),
        },
        (debot, talk, Err(stop)) => (debot, talk, Err(stop)),
    }
}

/// Asks the debot for its options and takes them over.
pub open spec fn update_options(debot: DebotView, talk: Talk) -> Done<()> {
    match run_debot_get(debot, talk, "getDebotOptions"@, None) {
        (talk, Ok(params)) => match params.at("options"@).as_str() {
            Some(number) => match talk.ask(RequestView::DecodeNumber(number)) {
                (talk, Ok(ReplyView::Number(Some(options)))) => if options <= 255 {
                    apply_options(debot, talk, options as u8, params)
                } else {
                    (debot, talk, Err(StopView::Fault))
                },
                (talk, Ok(_)) => (debot, talk, Err(StopView::Fault)),
                (talk, Err(stop)) => (debot, talk, Err(stop)),
            },
            None => (debot, talk, Err(StopView::Fault)),
        },
        (talk, Err(stop)) => (debot, talk, Err(stop)),
    }
}

/// Runs a get-function of the target.
pub open spec fn query_target(
    debot: DebotView,
    talk: Talk,
    getmethod: Seq<char>,
    args: Option<JsonView>,
) -> Said<JsonView> {
    match get_target(debot, talk) {
        (talk, Ok((addr, abi))) => run_get(debot, talk, addr, abi, getmethod, args),
        (talk, Err(stop)) => (talk, Err(stop)),
    }
}

/// Runs a get-function of the target, and hands the result to a function of the debot.
pub open spec fn run_getmethod(
    debot: DebotView,
    talk: Talk,
    getmethod: Seq<char>,
    args: Option<JsonView>,
    result_handler: Seq<char>,
) -> Done<Option<JsonView>> {
    match update_options(debot, talk) {
        (debot, talk, Ok(())) => match query_target(debot, talk, getmethod, args) {
            (talk, Ok(result)) => run_debot(debot, talk, result_handler, Some(result)),
            (talk, Err(stop)) => (debot, talk, Err(stop)),
        },
        (debot, talk, Err(stop)) => (debot, talk, Err(stop)),
    }
}

/// The greeting of a debot: its name, and the three bytes of its version.
pub open spec fn greeting(name: Seq<char>, version: u32) -> Seq<char> {
    name + ", version "@ + text::decimal_text((version as nat / 65536) % 256) + "."@
        + text::decimal_text((version as nat / 256) % 256) + "."@ + text::decimal_text(
        version as nat % 256,
    )
}

/// Greets the user with what the debot says of itself.
pub open spec fn greet(talk: Talk, about: JsonView) -> Said<()> {
    match (about.at("name"@).as_str(), about.at("semver"@).as_str()) {
        (Some(name), Some(number)) => match text::hex_text(name) {
            Some(name) => match talk.ask(RequestView::DecodeNumber(number)) {
                (talk, Ok(ReplyView::Number(Some(version)))) => talk.tell(
                    RequestView::Log(greeting(name, version)),
                ),
                (talk, Ok(_)) => (talk, Err(StopView::Fault)),
                (talk, Err(stop)) => (talk, Err(stop)),
            },
            None => (talk, Err(StopView::Fault)),
        },
        _ => (talk, Err(StopView::Fault)),
    }
}

/// Asks the debot what it is, and greets the user.
pub open spec fn introduce(debot: DebotView, talk: Talk) -> Said<()> {
    match run_debot_get(debot, talk, "getVersion"@, None) {
        (talk, Ok(about)) => greet(talk, about),
        (talk, Err(stop)) => (talk, Err(stop)),
    }
}

/// Asks the debot for its contexts.
pub open spec fn fetch_contexts(debot: DebotView, talk: Talk) -> Said<Seq<DContextView>> {
    match run_debot_get(debot, talk, "fetch"@, None) {
        (talk, Ok(doc)) => if doc is Object || doc is Null {
            match talk.ask(RequestView::ParseContexts(doc.at("contexts"@))) {
                (talk, Ok(ReplyView::Contexts(Some(contexts)))) => (talk, Ok(contexts)),
                (talk, Ok(_)) => (talk, Err(StopView::Fault)),
                (talk, Err(stop)) => (talk, Err(stop)),
            }
        } else {
            (talk, Err(StopView::Fault))
        },
        (talk, Err(stop)) => (talk, Err(stop)),
    }
}

/// Takes over the debot's options, and asks for its contexts.
pub open spec fn take_over(debot: DebotView, talk: Talk) -> Done<Seq<DContextView>> {
    match update_options(debot, talk) {
        (debot, talk, Ok(())) => match fetch_contexts(debot, talk) {
            (talk, outcome) => (debot, talk, outcome),
        },
        (debot, talk, Err(stop)) => (debot, talk, Err(stop)),
    }
}

/// Loads the debot, greets the user, takes over the debot's options and asks for its contexts.
pub open spec fn fetch_state(debot: DebotView, talk: Talk) -> Done<Seq<DContextView>> {
    match load_state(talk, debot.addr) {
        (talk, Ok(state)) => {
            let debot = DebotView { state, ..debot };
            match introduce(debot, talk) {
                (talk, Ok(())) => take_over(debot, talk),
                (talk, Err(stop)) => (debot, talk, Err(stop)),
            }
        },
        (talk, Err(stop)) => (debot, talk, Err(stop)),
    }
}

/// Gets a signing box from the user, where one is wanted.
pub open spec fn get_signer(talk: Talk, wanted: bool) -> Said<Option<u32>> {
    if wanted {
        match talk.ask(RequestView::GetSigningBox) {
            (talk, Ok(ReplyView::SigningBox(Ok(handle)))) => (talk, Ok(Some(handle))),
            (talk, Ok(ReplyView::SigningBox(Err(e)))) => (talk, Err(StopView::Failed(e))),
            (talk, Ok(_)) => (talk, Err(StopView::Fault)),
            (talk, Err(stop)) => (talk, Err(stop)),
        }
    } else {
        (talk, Ok(None))
    }
}

/// Gives a signing box back, where there is one.
pub open spec fn drop_signer(talk: Talk, signer: Option<u32>) -> Said<()> {
    match signer {
        Some(handle) => talk.tell(RequestView::RemoveSigningBox(handle)),
        None => (talk, Ok(())),
    }
}

/// The arguments that a function of the debot gives, where one is named.
pub open spec fn getter_args(debot: DebotView, talk: Talk, getter: Option<Seq<char>>) -> Done<
    Option<JsonView>,
> {
    match getter {
        Some(getter) => run_debot(debot, talk, getter, None),
        None => (debot, talk, Ok(None)),
    }
}

/// Runs a get-function of the target for an action.
pub open spec fn run_method(debot: DebotView, talk: Talk, act: DActionView) -> Done<()> {
    match getter_args(debot, talk, act.args) {
        (debot, talk, Ok(args)) => match act.func {
            Some(func) => match run_getmethod(debot, talk, func, args, act.name) {
                (debot, talk, Ok(_)) => (debot, talk, Ok(())),
                (debot, talk, Err(stop)) => (debot, talk, Err(stop)),
            },
            None => (debot, talk, Err(StopView::Fault)),
        },
        (debot, talk, Err(stop)) => (debot, talk, Err(stop)),
    }
}

/// Sends a message for an action, and gives the signing box back once the message went through.
pub open spec fn send_msg(debot: DebotView, talk: Talk, act: DActionView) -> Done<()> {
    match get_signer(talk, act.sign_by_user) {
        (talk, Ok(signer)) => match run_sendmsg(
            debot,
            talk,
            act.name,
            misc_args(act.misc),
            signer,
        ) {
            (debot, talk, Ok(_)) => match drop_signer(talk, signer) {
                (talk, Ok(())) => match talk.tell(RequestView::Log("Transaction succeeded."@)) {
                    (talk, outcome) => (debot, talk, outcome),
                },
                (talk, Err(stop)) => (debot, talk, Err(stop)),
            },
            (debot, talk, Err(stop)) => (debot, talk, Err(stop)),
        },
        (talk, Err(stop)) => (debot, talk, Err(stop)),
    }
}

/// Invokes another debot with the address and the action that a function of this one gave.
pub open spec fn invoke_given(talk: Talk, given: JsonView) -> Said<()> {
    match given.at("debot"@).as_str() {
        Some(addr) => match talk.ask(RequestView::ParseAction(given.at("action"@))) {
            (talk, Ok(ReplyView::Action(Some(action)))) => match talk.ask(
                RequestView::InvokeDebot(addr, action),
            ) {
                (talk, Ok(ReplyView::Invoked(Ok(())))) => (talk, Ok(())),
                (talk, Ok(ReplyView::Invoked(Err(e)))) => (talk, Err(StopView::Failed(e))),
                (talk, Ok(_)) => (talk, Err(StopView::Fault)),
                (talk, Err(stop)) => (talk, Err(stop)),
            },
            (talk, Ok(_)) => (talk, Err(StopView::Fault)),
            (talk, Err(stop)) => (talk, Err(stop)),
        },
        None => (talk, Err(StopView::Fault)),
    }
}

/// Invokes another debot for an action.
pub open spec fn invoke(debot: DebotView, talk: Talk, act: DActionView) -> Done<()> {
    match run_debot(debot, talk, act.name, None) {
        (debot, talk, Ok(Some(given))) => match invoke_given(talk, given) {
            (talk, outcome) => (debot, talk, outcome),
        },
        (debot, talk, Ok(None)) => (
            debot,
            talk,
            Err(
                StopView::Failed(
                    "invalid invoke action \""@ + act.name
                        + "\": it must return \"debot\" and \"action\" arguments"@,
                ),
            ),
        ),
        (debot, talk, Err(stop)) => (debot, talk, Err(stop)),
    }
}

/// The text that a print action shows: its name, filled with the parameters that a function of
/// the debot gives where one is named, and nothing where that function gives none.
pub open spec fn label(debot: DebotView, talk: Talk, act: DActionView) -> Done<Seq<char>> {
    match act.fargs {
        Some(getter) => match run_debot(debot, talk, getter, misc_args(act.misc)) {
            (debot, talk, Ok(Some(params))) => match talk.ask(
                RequestView::FormatString { format: act.name, params },
            ) {
                (talk, Ok(ReplyView::Text(label))) => (debot, talk, Ok(label)),
                (talk, Ok(_)) => (debot, talk, Err(StopView::Fault)),
                (talk, Err(stop)) => (debot, talk, Err(stop)),
            },
            (debot, talk, Ok(None)) => (debot, talk, Ok(Seq::empty())),
            (debot, talk, Err(stop)) => (debot, talk, Err(stop)),
        },
        None => (debot, talk, Ok(act.name)),
    }
}

/// Shows the text of a print action.
pub open spec fn print(debot: DebotView, talk: Talk, act: DActionView) -> Done<()> {
    match label(debot, talk, act) {
        (debot, talk, Ok(label)) => match talk.tell(RequestView::Log(label)) {
            (talk, outcome) => (debot, talk, outcome),
        },
        (debot, talk, Err(stop)) => (debot, talk, Err(stop)),
    }
}

/// The arguments of a routine as text: the document that a function of the debot gives where one
/// is named, nothing where that function gives none, else the description of the action.
pub open spec fn routine_args(debot: DebotView, talk: Talk, act: DActionView) -> Done<Seq<char>> {
    match act.args {
        Some(getter) => match run_debot(debot, talk, getter, None) {
            (debot, talk, Ok(Some(doc))) => (debot, talk, Ok(json::json_text(doc))),
            (debot, talk, Ok(None)) => (debot, talk, Ok(Seq::empty())),
            (debot, talk, Err(stop)) => (debot, talk, Err(stop)),
        },
        None => (debot, talk, Ok(act.desc)),
    }
}

/// Calls a routine of the engine by its name.
pub open spec fn call_routine(
    talk: Talk,
    name: Seq<char>,
    args: Seq<char>,
    signer: Option<u32>,
) -> Said<Seq<char>> {
    match talk.ask(RequestView::CallRoutine { name, args, signer }) {
        (talk, Ok(ReplyView::Routine(Ok(res)))) => (talk, Ok(res)),
        (talk, Ok(ReplyView::Routine(Err(e)))) => (talk, Err(StopView::Failed(e))),
        (talk, Ok(_)) => (talk, Err(StopView::Fault)),
        (talk, Err(stop)) => (talk, Err(stop)),
    }
}

/// Calls a routine for a user who signs or not, and gives the signing box back after the call.
pub open spec fn signed_routine(
    talk: Talk,
    name: Seq<char>,
    args: Seq<char>,
    sign_by_user: bool,
) -> Said<Seq<char>> {
    match get_signer(talk, sign_by_user) {
        (talk, Ok(signer)) => match call_routine(talk, name, args, signer) {
            (talk, Ok(res)) => match drop_signer(talk, signer) {
                (talk, Ok(())) => (talk, Ok(res)),
                (talk, Err(stop)) => (talk, Err(stop)),
            },
            (talk, Err(stop)) => (talk, Err(stop)),
        },
        (talk, Err(stop)) => (talk, Err(stop)),
    }
}

/// Calls a routine of the engine for an action, and hands its result to a function of the debot.
pub open spec fn call_engine(debot: DebotView, talk: Talk, act: DActionView) -> Done<()> {
    match routine_args(debot, talk, act) {
        (debot, talk, Ok(args)) => match signed_routine(talk, act.name, args, act.sign_by_user) {
            (talk, Ok(res)) => match act.func {
                Some(setter) => match run_debot(
                    debot,
                    talk,
                    setter,
                    Some(json::object1("arg1"@, JsonView::Str(res))),
                ) {
                    (debot, talk, Ok(_)) => (debot, talk, Ok(())),
                    (debot, talk, Err(stop)) => (debot, talk, Err(stop)),
                },
                None => (
                    debot,
                    talk,
                    Err(StopView::Failed("routine callback is not specified"@)),
                ),
            },
            (talk, Err(stop)) => (debot, talk, Err(stop)),
        },
        (debot, talk, Err(stop)) => (debot, talk, Err(stop)),
    }
}

/// Refuses an action of a type that the engine does not know.
pub open spec fn unsupported(debot: DebotView, talk: Talk) -> Done<()> {
    match talk.tell(RequestView::Log("unsupported action type"@)) {
        (talk, Ok(())) => (debot, talk, Err(StopView::Failed("unsupported action type"@))),
        (talk, Err(stop)) => (debot, talk, Err(stop)),
    }
}

/// An outcome without further actions.
pub open spec fn no_actions(done: Done<()>) -> Done<Option<Seq<DActionView>>> {
    match done {
        (debot, talk, Ok(())) => (debot, talk, Ok(None)),
        (debot, talk, Err(stop)) => (debot, talk, Err(stop)),
    }
}

/// Performs an action, which may answer with further actions.
pub open spec fn handle_action(debot: DebotView, talk: Talk, act: DActionView) -> Done<
    Option<Seq<DActionView>>,
> {
    match act.action_type {
        AcType::Empty => (debot, talk, Ok(None)),
        AcType::RunAction => run_action(debot, talk, act),
        AcType::RunMethod => no_actions(run_method(debot, talk, act)),
        AcType::SendMsg => no_actions(send_msg(debot, talk, act)),
        AcType::Invoke => no_actions(invoke(debot, talk, act)),
        AcType::Print => no_actions(print(debot, talk, act)),
        AcType::Goto => (debot, talk, Ok(None)),
        AcType::CallEngine => no_actions(call_engine(debot, talk, act)),
        AcType::Unknown => no_actions(unsupported(debot, talk)),
    }
}

/// Tells the user about an action that runs by itself, where it has a description.
pub open spec fn announce(talk: Talk, act: DActionView) -> Said<()> {
    if act.desc.len() != 0 {
        talk.tell(RequestView::Log(act.desc))
    } else {
        (talk, Ok(()))
    }
}

/// The context that an action leads to.
pub open spec fn destination(debot: DebotView, to: u8) -> u8 {
    if to == STATE_CURRENT {
        debot.curr_state
    } else if to == STATE_PREV {
        debot.prev_state
    } else {
        to
    }
}

/// Performs an action that runs by itself, once the user is told about it.
pub open spec fn run_instant(debot: DebotView, talk: Talk, act: DActionView) -> Done<
    Option<Seq<DActionView>>,
> {
    match announce(talk, act) {
        (talk, Ok(())) => handle_action(debot, talk, act),
        (talk, Err(stop)) => (debot, talk, Err(stop)),
    }
}

/// The actions that are left, with the further ones behind them.
pub open spec fn queued(rest: Seq<DActionView>, further: Option<Seq<DActionView>>) -> Seq<
    DActionView,
> {
    match further {
        Some(actions) => rest + actions,
        None => rest,
    }
}

/// Goes through a queue of actions. Those that run by themselves are performed, and the further
/// actions that they answer with go to the end of the queue; calls of the engine are performed;
/// the others are offered to the user. An action that runs by itself and leads to another
/// context ends it: the debot is then to enter that context, and the outcome says so.
pub open spec fn work(debot: DebotView, talk: Talk, queue: Seq<DActionView>) -> Done<bool>
    decreases talk.ahead(), queue.len(),
{
    if queue.len() == 0 {
        (debot, talk, Ok(false))
    } else {
        let act = queue[0];
        let rest = queue.drop_first();
        proof {
            turns::run_instant_orderly(debot, talk, Seq::empty(), act);
            turns::handle_action_orderly(debot, talk, Seq::empty(), act);
        }
        if act.instant {
            match run_instant(debot, talk, act) {
                (debot, talk, Ok(further)) => if destination(debot, act.to) != debot.curr_state {
                    (DebotView { curr_state: act.to, ..debot }, talk, Ok(true))
                } else {
                    work(debot, talk, queued(rest, further))
                },
                (debot, talk, Err(stop)) => (debot, talk, Err(stop)),
            }
        } else if act.is_engine_call() {
            match handle_action(debot, talk, act) {
                (debot, talk, Ok(_)) => work(debot, talk, rest),
                (debot, talk, Err(stop)) => (debot, talk, Err(stop)),
            }
        } else {
            match talk.tell(RequestView::ShowAction(act)) {
                (talk, Ok(())) => work(debot, talk, rest),
                (talk, Err(stop)) => (debot, talk, Err(stop)),
            }
        }
    }
}

/// Goes through the actions of a context, each with the further actions that come of it.
pub open spec fn enumerate_actions(
    debot: DebotView,
    talk: Talk,
    actions: Seq<DActionView>,
) -> Done<bool>
    decreases actions.len(),
{
    if actions.len() == 0 {
        (debot, talk, Ok(false))
    } else {
        match work(debot, talk, seq![actions[0]]) {
            (debot, talk, Ok(false)) => enumerate_actions(debot, talk, actions.drop_first()),
            done => done,
        }
    }
}

/// Shows a context to the user, and goes through its actions.
pub open spec fn show_context(debot: DebotView, talk: Talk, ctx: DContextView) -> Done<bool> {
    match talk.tell(RequestView::Switch(ctx.id)) {
        (talk, Ok(())) => match talk.tell(RequestView::Log(ctx.desc)) {
            (talk, Ok(())) => enumerate_actions(debot, talk, ctx.actions),
            (talk, Err(stop)) => (debot, talk, Err(stop)),
        },
        (talk, Err(stop)) => (debot, talk, Err(stop)),
    }
}

/// Enters a context, and from there the next one for as long as an action that runs by itself
/// leads on.
pub open spec fn enter(debot: DebotView, talk: Talk, state: u8) -> Done<()>
    decreases talk.ahead(),
{
    match context::context_with(debot.state_machine, state) {
        Some(ctx) => {
            proof {
                turns::show_context_orderly(debot, talk, Seq::empty(), ctx);
            }
            match show_context(debot, talk, ctx) {
                (debot, talk, Ok(true)) => enter(debot, talk, debot.curr_state),
                (debot, talk, Ok(false)) => (debot, talk, Ok(())),
                (debot, talk, Err(stop)) => (debot, talk, Err(stop)),
            }
        },
        None => {
            let request = if state == STATE_EXIT {
                RequestView::Switch(STATE_EXIT)
            } else {
                RequestView::Log(
                    "Debot context #"@ + text::decimal_text(state as nat) + " not found. Exit."@,
                )
            };
            match talk.tell(request) {
                (talk, outcome) => (debot, talk, outcome),
            }
        },
    }
}

/// The context that a switch goes to.
pub open spec fn switch_target(debot: DebotView, to: u8) -> u8 {
    let to = if to == STATE_CURRENT {
        debot.curr_state
    } else {
        to
    };
    if to == STATE_PREV {
        debot.prev_state
    } else {
        to
    }
}

/// Switches to a context: ends the debot, stays where it is, or enters the context.
pub open spec fn switch_state(debot: DebotView, talk: Talk, to: u8) -> Done<()> {
    let to = switch_target(debot, to);
    if to == STATE_EXIT {
        match talk.tell(RequestView::Switch(STATE_EXIT)) {
            (talk, outcome) => (debot, talk, outcome),
        }
    } else if to != debot.curr_state {
        enter(DebotView { prev_state: debot.curr_state, curr_state: to, ..debot }, talk, to)
    } else {
        (debot, talk, Ok(()))
    }
}

/// Loads the debot and its contexts.
pub open spec fn fetch(debot: DebotView, talk: Talk) -> Done<()> {
    match fetch_state(debot, talk) {
        (debot, talk, Ok(contexts)) => (
            DebotView { state_machine: contexts, ..debot },
            talk,
            Ok(()),
        ),
        (debot, talk, Err(stop)) => (debot, talk, Err(stop)),
    }
}

/// Loads the debot and its contexts, and goes to the context that it starts in.
pub open spec fn start(debot: DebotView, talk: Talk) -> Done<()> {
    match fetch(debot, talk) {
        (debot, talk, Ok(())) => switch_state(debot, talk, STATE_ZERO),
        (debot, talk, Err(stop)) => (debot, talk, Err(stop)),
    }
}

/// Asks the debot what it is, and gives the answer as text.
pub open spec fn version(debot: DebotView, talk: Talk) -> Said<Seq<char>> {
    match run_debot_get(debot, talk, "getVersion"@, None) {
        (talk, Ok(about)) => (talk, Ok(json::json_text(about))),
        (talk, Err(stop)) => (talk, Err(stop)),
    }
}

/// Performs an action and goes on to the context that it leads to. Where it fails, the user is
/// told why, and the debot goes back to the context that it came from.
pub open spec fn execute_action(debot: DebotView, talk: Talk, act: DActionView) -> Done<()> {
    match handle_action(debot, talk, act) {
        (debot, talk, Ok(_)) => switch_state(debot, talk, act.to),
        (debot, talk, Err(StopView::Failed(e))) => match talk.tell(
            RequestView::Log("Action failed: "@ + e + ". Return to previous state.\n"@),
        ) {
            (talk, Ok(())) => switch_state(debot, talk, debot.prev_state),
            (talk, Err(stop)) => (debot, talk, Err(stop)),
        },
        (debot, talk, Err(stop)) => (debot, talk, Err(stop)),
    }
}

/// What a debot can be told to do.
pub enum OperationView {
    Fetch,
    Start,
    Version,
    ExecuteAction(DActionView),
}

/// An outcome without a text.
pub open spec fn no_text(done: Done<()>) -> Done<Option<Seq<char>>> {
    match done {
        (debot, talk, Ok(())) => (debot, talk, Ok(None)),
        (debot, talk, Err(stop)) => (debot, talk, Err(stop)),
    }
}

/// Does what a debot is told to do. The outcome is a text where one was asked for.
pub open spec fn perform(debot: DebotView, talk: Talk, operation: OperationView) -> Done<
    Option<Seq<char>>,
> {
    match operation {
        OperationView::Fetch => no_text(fetch(debot, talk)),
        OperationView::Start => no_text(start(debot, talk)),
        OperationView::Version => match version(debot, talk) {
            (talk, Ok(text)) => (debot, talk, Ok(Some(text))),
            (talk, Err(stop)) => (debot, talk, Err(stop)),
        },
        OperationView::ExecuteAction(act) => no_text(execute_action(debot, talk, act)),
    }
}

/// What is to be done next for an operation.
pub enum NextView {
    Ask(RequestView),
    Done(Option<Seq<char>>),
    Failed(Seq<char>),
    Fault,
}

/// What is to be done next once an operation has come as far as the replies reach.
pub open spec fn next(done: Done<Option<Seq<char>>>) -> NextView {
    match done.2 {
        Ok(text) => NextView::Done(text),
        Err(StopView::Failed(e)) => NextView::Failed(e),
        Err(StopView::Pending) => NextView::Ask(done.1.asked.last()),
        Err(StopView::Fault) => NextView::Fault,
    }
}

} // verus!
