//! What is asked without going to a context.

use crate::client::ClientErrorView;
use crate::debot::abi;
use crate::debot::abi::AbiView;
use crate::debot::action::{AcType, DActionView};
use crate::debot::dialogue::{EncodeView, ReplyView, RequestView, Talk};
use crate::debot::script;
use crate::debot::script::DebotView;
use crate::debot::turns;
use crate::json;
use crate::json::JsonView;
use vstd::prelude::*;

verus! {

/// Whether a request shows a context to the user: that the debot goes there, or an action that it
/// offers there.
pub open spec fn shows_context(request: RequestView) -> bool {
    request is Switch || request is ShowAction
}

/// Whether nothing of a context was shown on the way from one talk to another that goes on from
/// it.
pub open spec fn quiet(from: Talk, to: Talk) -> bool {
    &&& turns::asked_on(from, to)
    &&& forall|i: int|
        from.asked.len() <= i < to.asked.len() ==> !shows_context(#[trigger] to.asked[i])
}

proof fn run_quiet(
    talk: Talk,
    state: Seq<char>,
    addr: Seq<char>,
    abi: AbiView,
    func: Seq<char>,
    args: Option<JsonView>,
)
    ensures
        quiet(talk, script::run(talk, state, addr, abi, func, args).0),
{
}

proof fn run_debot_get_quiet(
    debot: DebotView,
    talk: Talk,
    func: Seq<char>,
    args: Option<JsonView>,
)
    ensures
        quiet(talk, script::run_debot_get(debot, talk, func, args).0),
{
    run_quiet(talk, debot.state, debot.addr, debot.abi, func, args);
}

proof fn sdk_failure_quiet<T>(
    debot: DebotView,
    talk: Talk,
    err: ClientErrorView,
)
    ensures
        quiet(talk, script::sdk_failure::<T>(debot, talk, err).0),
{
    reveal(script::handle_sdk_err);
    match err.data.at("exit_code"@).as_i64() {
        Some(code) => {
            run_debot_get_quiet(
                debot,
                talk,
                "getErrorDescription"@,
                Some(json::object1("error"@, JsonView::Int(code))),
            );
        },
        None => {},
    }
}

proof fn load_state_quiet(
    talk: Talk,
    addr: Seq<char>,
)
    ensures
        quiet(talk, script::load_state(talk, addr).0),
{
}

proof fn run_get_quiet(
    debot: DebotView,
    talk: Talk,
    addr: Seq<char>,
    abi: AbiView,
    name: Seq<char>,
    params: Option<JsonView>,
)
    ensures
        quiet(talk, script::run_get(debot, talk, addr, abi, name, params).0),
{
    load_state_quiet(talk, addr);
    let (on, state) = script::load_state(talk, addr);
    run_quiet(on, state->Ok_0, addr, abi, name, params);
    let (on, outcome) = script::run(on, state->Ok_0, addr, abi, name, params);
    sdk_failure_quiet::<JsonView>(debot, on, outcome->Ok_0->Err_0);
}

proof fn run_debot_quiet(
    debot: DebotView,
    talk: Talk,
    name: Seq<char>,
    args: Option<JsonView>,
)
    ensures
        quiet(talk, script::run_debot(debot, talk, name, args).1),
{
    run_quiet(talk, debot.state, debot.addr, debot.abi, name, args);
    let (on, outcome) = script::run(talk, debot.state, debot.addr, debot.abi, name, args);
    sdk_failure_quiet::<Option<JsonView>>(debot, on, outcome->Ok_0->Err_0);
}

proof fn ask_inputs_quiet(
    talk: Talk,
    inputs: Seq<JsonView>,
    given: Map<Seq<char>, JsonView>,
)
    ensures
        quiet(talk, script::ask_inputs(talk, inputs, given).0),
    decreases inputs.len(),
{
    if inputs.len() > 0 {
        let (on, reply) = talk.ask(RequestView::Input(""@));
        if let Ok(ReplyView::Text(value)) = reply {
            let name = inputs[0].at("name"@).as_str()->0;
            let param_type = inputs[0].at("type"@).as_str()->0;
            ask_inputs_quiet(
                on,
                inputs.drop_first(),
                given.insert(name, JsonView::Str(script::typed_argument(param_type, value))),
            );
        }
    }
}

proof fn run_action_quiet(
    debot: DebotView,
    talk: Talk,
    act: DActionView,
)
    ensures
        quiet(talk, script::run_action(debot, talk, act).1),
{
    if let Ok(abi_json) = json::json_parse(debot.abi.json) {
        if let Ok(Some(inputs)) = abi::inputs_of(abi_json, act.name) {
            ask_inputs_quiet(talk, inputs, Map::empty());
        }
    }
    let (on, args) = script::query_action_args(debot, talk, act);
    assert(quiet(talk, on));
    run_debot_quiet(debot, on, act.name, args->Ok_0);
}

proof fn send_body_quiet(
    debot: DebotView,
    talk: Talk,
    dest: Seq<char>,
    abi: AbiView,
    body: Seq<char>,
    signer: Option<u32>,
    state: Option<Seq<char>>,
)
    ensures
        quiet(talk, script::send_body(debot, talk, dest, abi, body, signer, state).0),
{
    let (on, reply) = talk.ask(
        RequestView::DecodeMessageBody { abi, body, is_internal: true },
    );
    if let Ok(ReplyView::Body(Ok(decoded))) = reply {
        let encode_params = EncodeView {
            abi,
            address: dest,
            tvc: state,
            function_name: decoded.name,
            input: decoded.value,
            signer,
        };
        let (on, reply) = on.ask(
            RequestView::ProcessMessage { encode_params, send_events: true },
        );
        if let Ok(ReplyView::Processed(Err(e))) = reply {
            sdk_failure_quiet::<Option<JsonView>>(debot, on, e);
        }
    }
}

proof fn run_sendmsg_quiet(
    debot: DebotView,
    talk: Talk,
    name: Seq<char>,
    args: Option<JsonView>,
    signer: Option<u32>,
)
    ensures
        quiet(talk, script::run_sendmsg(debot, talk, name, args, signer).1),
{
    run_debot_quiet(debot, talk, name, args);
    let (debot, on, outcome) = script::run_debot(debot, talk, name, args);
    let prepared = outcome->Ok_0->0;
    let dest = prepared.at("dest"@).as_str()->0;
    let body = prepared.at("body"@).as_str()->0;
    let state = prepared.at("state"@).as_str();
    let (on, abi) = script::abi_for(debot, on, dest);
    send_body_quiet(debot, on, dest, abi->Ok_0, body, signer, state);
}

proof fn update_options_quiet(
    debot: DebotView,
    talk: Talk,
)
    ensures
        quiet(talk, script::update_options(debot, talk).1),
{
    run_debot_get_quiet(debot, talk, "getDebotOptions"@, None);
}

proof fn run_method_quiet(
    debot: DebotView,
    talk: Talk,
    act: DActionView,
)
    ensures
        quiet(talk, script::run_method(debot, talk, act).1),
{
    run_debot_quiet(debot, talk, act.args->0, None);
    let (debot, on, args) = script::getter_args(debot, talk, act.args);
    update_options_quiet(debot, on);
    let (debot, on, _) = script::update_options(debot, on);
    let (on, target) = script::get_target(debot, on);
    let (addr, abi) = target->Ok_0;
    run_get_quiet(debot, on, addr, abi, act.func->0, args->Ok_0);
    let (on, result) = script::run_get(debot, on, addr, abi, act.func->0, args->Ok_0);
    run_debot_quiet(debot, on, act.name, Some(result->Ok_0));
}

proof fn send_msg_quiet(
    debot: DebotView,
    talk: Talk,
    act: DActionView,
)
    ensures
        quiet(talk, script::send_msg(debot, talk, act).1),
{
    let (on, signer) = script::get_signer(talk, act.sign_by_user);
    run_sendmsg_quiet(debot, on, act.name, script::misc_args(act.misc), signer->Ok_0);
}

proof fn invoke_quiet(
    debot: DebotView,
    talk: Talk,
    act: DActionView,
)
    ensures
        quiet(talk, script::invoke(debot, talk, act).1),
{
    run_debot_quiet(debot, talk, act.name, None);
}

proof fn print_quiet(
    debot: DebotView,
    talk: Talk,
    act: DActionView,
)
    ensures
        quiet(talk, script::print(debot, talk, act).1),
{
    run_debot_quiet(debot, talk, act.fargs->0, script::misc_args(act.misc));
}

proof fn call_engine_quiet(
    debot: DebotView,
    talk: Talk,
    act: DActionView,
)
    ensures
        quiet(talk, script::call_engine(debot, talk, act).1),
{
    run_debot_quiet(debot, talk, act.args->0, None);
    let (debot, on, args) = script::routine_args(debot, talk, act);
    assert(quiet(talk, on));
    let (on, res) = script::signed_routine(on, act.name, args->Ok_0, act.sign_by_user);
    assert(quiet(talk, on));
    run_debot_quiet(
        debot,
        on,
        act.func->0,
        Some(json::object1("arg1"@, JsonView::Str(res->Ok_0))),
    );
}

/// Performing an action neither tells the user that the debot goes to a context nor offers an
/// action.
pub proof fn action_shows_no_context(
    debot: DebotView,
    talk: Talk,
    act: DActionView,
)
    ensures
        quiet(talk, script::handle_action(debot, talk, act).1),
{
    match act.action_type {
        AcType::RunAction => run_action_quiet(debot, talk, act),
        AcType::RunMethod => run_method_quiet(debot, talk, act),
        AcType::SendMsg => send_msg_quiet(debot, talk, act),
        AcType::Invoke => invoke_quiet(debot, talk, act),
        AcType::Print => print_quiet(debot, talk, act),
        AcType::CallEngine => call_engine_quiet(debot, talk, act),
        _ => {},
    }
}

/// Loading a debot neither tells the user that the debot goes to a context nor offers an action.
pub proof fn loading_shows_no_context(
    debot: DebotView,
    talk: Talk,
)
    ensures
        quiet(talk, script::fetch(debot, talk).1),
{
    load_state_quiet(talk, debot.addr);
    let (on, state) = script::load_state(talk, debot.addr);
    let debot = DebotView { state: state->Ok_0, ..debot };
    run_debot_get_quiet(debot, on, "getVersion"@, None);
    let (on, _) = script::introduce(debot, on);
    assert(state is Ok ==> quiet(talk, on));
    update_options_quiet(debot, on);
    let (debot, on, _) = script::update_options(debot, on);
    run_debot_get_quiet(debot, on, "fetch"@, None);
}

/// A start whose loading does not come to its end asks nothing beyond the loading, so nothing of a
/// context is shown.
pub proof fn failed_start_shows_no_context(debot: DebotView, talk: Talk)
    requires
        script::fetch(debot, talk).2 is Err,
    ensures
        script::start(debot, talk) == script::fetch(debot, talk),
        quiet(talk, script::start(debot, talk).1),
{
    loading_shows_no_context(debot, talk);
}

} // verus!
