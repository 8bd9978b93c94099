//! How a talk goes on: in turns, and the same way however often it is begun.

use crate::client::ClientErrorView;
use crate::debot::abi;
use crate::debot::abi::AbiView;
use crate::debot::action::{AcType, DActionView};
use crate::debot::context;
use crate::debot::context::{DContextView, STATE_EXIT, STATE_ZERO};
use crate::debot::dialogue::{EncodeView, ReplyView, RequestView, StopView, Talk};
use crate::debot::script;
use crate::debot::script::{DebotView, Done, OperationView, Said};
use crate::json;
use crate::json::JsonView;
use vstd::prelude::*;

verus! {

/// Whether an outcome waits for a reply.
pub open spec fn pending<T>(outcome: Result<T, StopView>) -> bool {
    outcome matches Err(stop) && stop is Pending
}

/// Whether `b` has asked what `a` has asked, in its order, and perhaps more.
pub open spec fn asked_on(a: Talk, b: Talk) -> bool {
    &&& a.asked.len() <= b.asked.len()
    &&& forall|i: int| 0 <= i < a.asked.len() ==> #[trigger] b.asked[i] == a.asked[i]
}

/// Whether a part of a talk keeps to the turns: it asks one thing after the other, hears one
/// reply for each, and waits only where the replies are used up and one request is open.
pub open spec fn in_turn<T>(talk: Talk, said: Said<T>) -> bool {
    &&& said.0.replies == talk.replies
    &&& talk.heard <= said.0.heard
    &&& said.0.heard <= talk.replies.len() || said.0.heard == talk.heard
    &&& asked_on(talk, said.0)
    &&& if pending(said.1) {
        &&& said.0.heard >= talk.replies.len()
        &&& said.0.asked.len() - talk.asked.len() == said.0.heard - talk.heard + 1
    } else {
        said.0.asked.len() - talk.asked.len() == said.0.heard - talk.heard
    }
}

/// The talk with further replies behind those that are there.
pub open spec fn with_more(talk: Talk, more: Seq<ReplyView>) -> Talk {
    Talk { replies: talk.replies + more, ..talk }
}

/// Whether `later` is how `said` goes on with further replies: where `said` waits, `later` has
/// asked the same and may go on; else nothing changes.
pub open spec fn goes_on<T>(said: Said<T>, later: Said<T>, more: Seq<ReplyView>) -> bool {
    if pending(said.1) {
        asked_on(said.0, later.0)
    } else {
        later == (with_more(said.0, more), said.1)
    }
}

/// Both of these for a part of a talk, without and with further replies.
pub open spec fn orderly<T>(
    talk: Talk,
    more: Seq<ReplyView>,
    said: Said<T>,
    later: Said<T>,
) -> bool {
    &&& in_turn(talk, said)
    &&& in_turn(with_more(talk, more), later)
    &&& goes_on(said, later, more)
}

/// The same for a part that may change the debot.
pub open spec fn orderly_done<T>(
    talk: Talk,
    more: Seq<ReplyView>,
    done: Done<T>,
    later: Done<T>,
) -> bool {
    &&& orderly(talk, more, (done.1, done.2), (later.1, later.2))
    &&& !pending(done.2) ==> later.0 == done.0
}

proof fn run_orderly(
    talk: Talk,
    more: Seq<ReplyView>,
    state: Seq<char>,
    addr: Seq<char>,
    abi: AbiView,
    func: Seq<char>,
    args: Option<JsonView>,
)
    ensures
        orderly(
            talk,
            more,
            script::run(talk, state, addr, abi, func, args),
            script::run(with_more(talk, more), state, addr, abi, func, args),
        ),
        !pending(script::run(talk, state, addr, abi, func, args).1)
            ==> script::run(talk, state, addr, abi, func, args).0.heard > talk.heard,
{
}

proof fn run_debot_get_orderly(
    debot: DebotView,
    talk: Talk,
    more: Seq<ReplyView>,
    func: Seq<char>,
    args: Option<JsonView>,
)
    ensures
        orderly(
            talk,
            more,
            script::run_debot_get(debot, talk, func, args),
            script::run_debot_get(debot, with_more(talk, more), func, args),
        ),
{
    run_orderly(talk, more, debot.state, debot.addr, debot.abi, func, args);
}

proof fn handle_sdk_err_orderly(
    debot: DebotView,
    talk: Talk,
    more: Seq<ReplyView>,
    err: ClientErrorView,
)
    ensures
        orderly(
            talk,
            more,
            script::handle_sdk_err(debot, talk, err),
            script::handle_sdk_err(debot, with_more(talk, more), err),
        ),
{
    reveal(script::handle_sdk_err);
    match err.data.at("exit_code"@).as_i64() {
        Some(code) => {
            run_debot_get_orderly(
                debot,
                talk,
                more,
                "getErrorDescription"@,
                Some(json::object1("error"@, JsonView::Int(code))),
            );
        },
        None => {},
    }
}

proof fn sdk_failure_orderly<T>(
    debot: DebotView,
    talk: Talk,
    more: Seq<ReplyView>,
    err: ClientErrorView,
)
    ensures
        orderly(
            talk,
            more,
            script::sdk_failure::<T>(debot, talk, err),
            script::sdk_failure::<T>(debot, with_more(talk, more), err),
        ),
{
    handle_sdk_err_orderly(debot, talk, more, err);
}

proof fn load_state_orderly(talk: Talk, more: Seq<ReplyView>, addr: Seq<char>)
    ensures
        orderly(
            talk,
            more,
            script::load_state(talk, addr),
            script::load_state(with_more(talk, more), addr),
        ),
{
}

proof fn run_get_orderly(
    debot: DebotView,
    talk: Talk,
    more: Seq<ReplyView>,
    addr: Seq<char>,
    abi: AbiView,
    name: Seq<char>,
    params: Option<JsonView>,
)
    ensures
        orderly(
            talk,
            more,
            script::run_get(debot, talk, addr, abi, name, params),
            script::run_get(debot, with_more(talk, more), addr, abi, name, params),
        ),
{
    load_state_orderly(talk, more, addr);
    let a = script::load_state(talk, addr);
    let b = script::load_state(with_more(talk, more), addr);
    run_orderly(a.0, more, a.1->Ok_0, addr, abi, name, params);
    run_orderly(b.0, Seq::empty(), b.1->Ok_0, addr, abi, name, params);
    let a2 = script::run(a.0, a.1->Ok_0, addr, abi, name, params);
    let b2 = script::run(b.0, b.1->Ok_0, addr, abi, name, params);
    sdk_failure_orderly::<JsonView>(debot, a2.0, more, a2.1->Ok_0->Err_0);
    sdk_failure_orderly::<JsonView>(debot, b2.0, Seq::empty(), b2.1->Ok_0->Err_0);
}

proof fn run_debot_orderly(
    debot: DebotView,
    talk: Talk,
    more: Seq<ReplyView>,
    name: Seq<char>,
    args: Option<JsonView>,
)
    ensures
        orderly_done(
            talk,
            more,
            script::run_debot(debot, talk, name, args),
            script::run_debot(debot, with_more(talk, more), name, args),
        ),
        !pending(script::run_debot(debot, talk, name, args).2)
            ==> script::run_debot(debot, talk, name, args).1.heard > talk.heard,
{
    run_orderly(talk, more, debot.state, debot.addr, debot.abi, name, args);
    let a = script::run(talk, debot.state, debot.addr, debot.abi, name, args);
    let b = script::run(with_more(talk, more), debot.state, debot.addr, debot.abi, name, args);
    sdk_failure_orderly::<Option<JsonView>>(debot, a.0, more, a.1->Ok_0->Err_0);
    sdk_failure_orderly::<Option<JsonView>>(debot, b.0, Seq::empty(), b.1->Ok_0->Err_0);
}

proof fn ask_inputs_orderly(
    talk: Talk,
    more: Seq<ReplyView>,
    inputs: Seq<JsonView>,
    given: Map<Seq<char>, JsonView>,
)
    ensures
        orderly(
            talk,
            more,
            script::ask_inputs(talk, inputs, given),
            script::ask_inputs(with_more(talk, more), inputs, given),
        ),
    decreases inputs.len(),
{
    if inputs.len() > 0 {
        let a = talk.ask(RequestView::Input(""@));
        let b = with_more(talk, more).ask(RequestView::Input(""@));
        let rest = inputs.drop_first();
        let name = inputs[0].at("name"@).as_str()->0;
        let param_type = inputs[0].at("type"@).as_str()->0;
        if let Ok(ReplyView::Text(value)) = a.1 {
            let given = given.insert(
                name,
                JsonView::Str(script::typed_argument(param_type, value)),
            );
            ask_inputs_orderly(a.0, more, rest, given);
        }
        if let Ok(ReplyView::Text(value)) = b.1 {
            let given = given.insert(
                name,
                JsonView::Str(script::typed_argument(param_type, value)),
            );
            ask_inputs_orderly(b.0, Seq::empty(), rest, given);
        }
        assert(a.1 is Ok ==> b == (with_more(a.0, more), a.1));
    }
}

proof fn query_action_args_orderly(
    debot: DebotView,
    talk: Talk,
    more: Seq<ReplyView>,
    act: DActionView,
)
    ensures
        orderly(
            talk,
            more,
            script::query_action_args(debot, talk, act),
            script::query_action_args(debot, with_more(talk, more), act),
        ),
{
    if let Ok(abi_json) = json::json_parse(debot.abi.json) {
        if let Ok(Some(inputs)) = abi::inputs_of(abi_json, act.name) {
            ask_inputs_orderly(talk, more, inputs, Map::empty());
        }
    }
}

proof fn run_action_orderly(debot: DebotView, talk: Talk, more: Seq<ReplyView>, act: DActionView)
    ensures
        orderly_done(
            talk,
            more,
            script::run_action(debot, talk, act),
            script::run_action(debot, with_more(talk, more), act),
        ),
        script::run_action(debot, talk, act).2 is Ok
            ==> script::run_action(debot, talk, act).1.heard > talk.heard,
{
    query_action_args_orderly(debot, talk, more, act);
    let a = script::query_action_args(debot, talk, act);
    let b = script::query_action_args(debot, with_more(talk, more), act);
    run_debot_orderly(debot, a.0, more, act.name, a.1->Ok_0);
    run_debot_orderly(debot, b.0, Seq::empty(), act.name, b.1->Ok_0);
}

proof fn call_target_orderly(
    debot: DebotView,
    talk: Talk,
    more: Seq<ReplyView>,
    dest: Seq<char>,
    abi: AbiView,
    func: Seq<char>,
    args: Option<JsonView>,
    signer: Option<u32>,
    state: Option<Seq<char>>,
)
    ensures
        orderly(
            talk,
            more,
            script::call_target(debot, talk, dest, abi, func, args, signer, state),
            script::call_target(
                debot,
                with_more(talk, more),
                dest,
                abi,
                func,
                args,
                signer,
                state,
            ),
        ),
{
    let encode_params = EncodeView {
        abi,
        address: dest,
        tvc: state,
        function_name: func,
        input: args,
        signer,
    };
    let request = RequestView::ProcessMessage { encode_params, send_events: true };
    let a = talk.ask(request);
    let b = with_more(talk, more).ask(request);
    if let Ok(ReplyView::Processed(Err(e))) = a.1 {
        sdk_failure_orderly::<Option<JsonView>>(debot, a.0, more, e);
    }
    if let Ok(ReplyView::Processed(Err(e))) = b.1 {
        sdk_failure_orderly::<Option<JsonView>>(debot, b.0, Seq::empty(), e);
    }
}

proof fn get_target_orderly(debot: DebotView, talk: Talk, more: Seq<ReplyView>)
    ensures
        orderly(
            talk,
            more,
            script::get_target(debot, talk),
            script::get_target(debot, with_more(talk, more)),
        ),
{
}

proof fn abi_for_orderly(debot: DebotView, talk: Talk, more: Seq<ReplyView>, dest: Seq<char>)
    ensures
        orderly(
            talk,
            more,
            script::abi_for(debot, talk, dest),
            script::abi_for(debot, with_more(talk, more), dest),
        ),
{
    get_target_orderly(debot, talk, more);
}

proof fn send_body_orderly(
    debot: DebotView,
    talk: Talk,
    more: Seq<ReplyView>,
    dest: Seq<char>,
    abi: AbiView,
    body: Seq<char>,
    signer: Option<u32>,
    state: Option<Seq<char>>,
)
    ensures
        orderly(
            talk,
            more,
            script::send_body(debot, talk, dest, abi, body, signer, state),
            script::send_body(debot, with_more(talk, more), dest, abi, body, signer, state),
        ),
{
    let request = RequestView::DecodeMessageBody { abi, body, is_internal: true };
    let a = talk.ask(request);
    let b = with_more(talk, more).ask(request);
    if let Ok(ReplyView::Body(Ok(d))) = a.1 {
        call_target_orderly(debot, a.0, more, dest, abi, d.name, d.value, signer, state);
    }
    if let Ok(ReplyView::Body(Ok(d))) = b.1 {
        call_target_orderly(
            debot,
            b.0,
            Seq::empty(),
            dest,
            abi,
            d.name,
            d.value,
            signer,
            state,
        );
    }
}

proof fn send_prepared_orderly(
    debot: DebotView,
    talk: Talk,
    more: Seq<ReplyView>,
    prepared: JsonView,
    signer: Option<u32>,
)
    ensures
        orderly(
            talk,
            more,
            script::send_prepared(debot, talk, prepared, signer),
            script::send_prepared(debot, with_more(talk, more), prepared, signer),
        ),
{
    let dest = prepared.at("dest"@).as_str()->0;
    let body = prepared.at("body"@).as_str()->0;
    let state = prepared.at("state"@).as_str();
    abi_for_orderly(debot, talk, more, dest);
    let a = script::abi_for(debot, talk, dest);
    let b = script::abi_for(debot, with_more(talk, more), dest);
    send_body_orderly(debot, a.0, more, dest, a.1->Ok_0, body, signer, state);
    send_body_orderly(debot, b.0, Seq::empty(), dest, b.1->Ok_0, body, signer, state);
}

pub(crate) proof fn run_sendmsg_orderly(
    debot: DebotView,
    talk: Talk,
    more: Seq<ReplyView>,
    name: Seq<char>,
    args: Option<JsonView>,
    signer: Option<u32>,
)
    ensures
        orderly_done(
            talk,
            more,
            script::run_sendmsg(debot, talk, name, args, signer),
            script::run_sendmsg(debot, with_more(talk, more), name, args, signer),
        ),
{
    run_debot_orderly(debot, talk, more, name, args);
    let a = script::run_debot(debot, talk, name, args);
    let b = script::run_debot(debot, with_more(talk, more), name, args);
    send_prepared_orderly(a.0, a.1, more, a.2->Ok_0->0, signer);
    send_prepared_orderly(b.0, b.1, Seq::empty(), b.2->Ok_0->0, signer);
}

proof fn apply_options_orderly(
    debot: DebotView,
    talk: Talk,
    more: Seq<ReplyView>,
    options: u8,
    params: JsonView,
)
    ensures
        orderly_done(
            talk,
            more,
            script::apply_options(debot, talk, options, params),
            script::apply_options(debot, with_more(talk, more), options, params),
        ),
{
}

proof fn update_options_orderly(debot: DebotView, talk: Talk, more: Seq<ReplyView>)
    ensures
        orderly_done(
            talk,
            more,
            script::update_options(debot, talk),
            script::update_options(debot, with_more(talk, more)),
        ),
{
    run_debot_get_orderly(debot, talk, more, "getDebotOptions"@, None);
    let a = script::run_debot_get(debot, talk, "getDebotOptions"@, None);
    let b = script::run_debot_get(debot, with_more(talk, more), "getDebotOptions"@, None);
    let a_number = RequestView::DecodeNumber(a.1->Ok_0.at("options"@).as_str()->0);
    let b_number = RequestView::DecodeNumber(b.1->Ok_0.at("options"@).as_str()->0);
    if let Ok(ReplyView::Number(Some(options))) = a.0.ask(a_number).1 {
        apply_options_orderly(debot, a.0.ask(a_number).0, more, options as u8, a.1->Ok_0);
    }
    if let Ok(ReplyView::Number(Some(options))) = b.0.ask(b_number).1 {
        apply_options_orderly(debot, b.0.ask(b_number).0, Seq::empty(), options as u8, b.1->Ok_0);
    }
}

proof fn query_target_orderly(
    debot: DebotView,
    talk: Talk,
    more: Seq<ReplyView>,
    getmethod: Seq<char>,
    args: Option<JsonView>,
)
    ensures
        orderly(
            talk,
            more,
            script::query_target(debot, talk, getmethod, args),
            script::query_target(debot, with_more(talk, more), getmethod, args),
        ),
{
    get_target_orderly(debot, talk, more);
    let a = script::get_target(debot, talk);
    let b = script::get_target(debot, with_more(talk, more));
    run_get_orderly(debot, a.0, more, a.1->Ok_0.0, a.1->Ok_0.1, getmethod, args);
    run_get_orderly(debot, b.0, Seq::empty(), b.1->Ok_0.0, b.1->Ok_0.1, getmethod, args);
}

#[verifier::rlimit(50)]
#[verifier::spinoff_prover]
proof fn run_getmethod_orderly(
    debot: DebotView,
    talk: Talk,
    more: Seq<ReplyView>,
    getmethod: Seq<char>,
    args: Option<JsonView>,
    result_handler: Seq<char>,
)
    ensures
        orderly_done(
            talk,
            more,
            script::run_getmethod(debot, talk, getmethod, args, result_handler),
            script::run_getmethod(debot, with_more(talk, more), getmethod, args, result_handler),
        ),
{
    update_options_orderly(debot, talk, more);
    let a = script::update_options(debot, talk);
    let b = script::update_options(debot, with_more(talk, more));
    query_target_orderly(a.0, a.1, more, getmethod, args);
    query_target_orderly(b.0, b.1, Seq::empty(), getmethod, args);
    let a2 = script::query_target(a.0, a.1, getmethod, args);
    let b2 = script::query_target(b.0, b.1, getmethod, args);
    run_debot_orderly(a.0, a2.0, more, result_handler, Some(a2.1->Ok_0));
    run_debot_orderly(b.0, b2.0, Seq::empty(), result_handler, Some(b2.1->Ok_0));
}

proof fn greet_orderly(talk: Talk, more: Seq<ReplyView>, about: JsonView)
    ensures
        orderly(
            talk,
            more,
            script::greet(talk, about),
            script::greet(with_more(talk, more), about),
        ),
{
}

proof fn introduce_orderly(debot: DebotView, talk: Talk, more: Seq<ReplyView>)
    ensures
        orderly(
            talk,
            more,
            script::introduce(debot, talk),
            script::introduce(debot, with_more(talk, more)),
        ),
{
    run_debot_get_orderly(debot, talk, more, "getVersion"@, None);
    let a = script::run_debot_get(debot, talk, "getVersion"@, None);
    let b = script::run_debot_get(debot, with_more(talk, more), "getVersion"@, None);
    greet_orderly(a.0, more, a.1->Ok_0);
    greet_orderly(b.0, Seq::empty(), b.1->Ok_0);
}

proof fn fetch_contexts_orderly(debot: DebotView, talk: Talk, more: Seq<ReplyView>)
    ensures
        orderly(
            talk,
            more,
            script::fetch_contexts(debot, talk),
            script::fetch_contexts(debot, with_more(talk, more)),
        ),
{
    run_debot_get_orderly(debot, talk, more, "fetch"@, None);
}

#[verifier::spinoff_prover]
proof fn take_over_orderly(debot: DebotView, talk: Talk, more: Seq<ReplyView>)
    ensures
        orderly_done(
            talk,
            more,
            script::take_over(debot, talk),
            script::take_over(debot, with_more(talk, more)),
        ),
{
    update_options_orderly(debot, talk, more);
    let a = script::update_options(debot, talk);
    let b = script::update_options(debot, with_more(talk, more));
    fetch_contexts_orderly(a.0, a.1, more);
    fetch_contexts_orderly(b.0, b.1, Seq::empty());
}

#[verifier::rlimit(50)]
#[verifier::spinoff_prover]
proof fn fetch_state_orderly(debot: DebotView, talk: Talk, more: Seq<ReplyView>)
    ensures
        orderly_done(
            talk,
            more,
            script::fetch_state(debot, talk),
            script::fetch_state(debot, with_more(talk, more)),
        ),
{
    load_state_orderly(talk, more, debot.addr);
    let a = script::load_state(talk, debot.addr);
    let b = script::load_state(with_more(talk, more), debot.addr);
    let ad = DebotView { state: a.1->Ok_0, ..debot };
    let bd = DebotView { state: b.1->Ok_0, ..debot };
    introduce_orderly(ad, a.0, more);
    introduce_orderly(bd, b.0, Seq::empty());
    let a = script::introduce(ad, a.0);
    let b = script::introduce(bd, b.0);
    take_over_orderly(ad, a.0, more);
    take_over_orderly(bd, b.0, Seq::empty());
}

proof fn get_signer_orderly(talk: Talk, more: Seq<ReplyView>, wanted: bool)
    ensures
        orderly(
            talk,
            more,
            script::get_signer(talk, wanted),
            script::get_signer(with_more(talk, more), wanted),
        ),
{
}

proof fn drop_signer_orderly(talk: Talk, more: Seq<ReplyView>, signer: Option<u32>)
    ensures
        orderly(
            talk,
            more,
            script::drop_signer(talk, signer),
            script::drop_signer(with_more(talk, more), signer),
        ),
{
}

proof fn tell_orderly(talk: Talk, more: Seq<ReplyView>, request: RequestView)
    ensures
        orderly(talk, more, talk.tell(request), with_more(talk, more).tell(request)),
{
}

proof fn getter_args_orderly(
    debot: DebotView,
    talk: Talk,
    more: Seq<ReplyView>,
    getter: Option<Seq<char>>,
)
    ensures
        orderly_done(
            talk,
            more,
            script::getter_args(debot, talk, getter),
            script::getter_args(debot, with_more(talk, more), getter),
        ),
{
    run_debot_orderly(debot, talk, more, getter->0, None);
}

#[verifier::rlimit(50)]
#[verifier::spinoff_prover]
proof fn run_method_orderly(debot: DebotView, talk: Talk, more: Seq<ReplyView>, act: DActionView)
    ensures
        orderly_done(
            talk,
            more,
            script::run_method(debot, talk, act),
            script::run_method(debot, with_more(talk, more), act),
        ),
{
    getter_args_orderly(debot, talk, more, act.args);
    let a = script::getter_args(debot, talk, act.args);
    let b = script::getter_args(debot, with_more(talk, more), act.args);
    run_getmethod_orderly(a.0, a.1, more, act.func->0, a.2->Ok_0, act.name);
    run_getmethod_orderly(b.0, b.1, Seq::empty(), act.func->0, b.2->Ok_0, act.name);
}

#[verifier::rlimit(50)]
#[verifier::spinoff_prover]
proof fn send_msg_orderly(debot: DebotView, talk: Talk, more: Seq<ReplyView>, act: DActionView)
    ensures
        orderly_done(
            talk,
            more,
            script::send_msg(debot, talk, act),
            script::send_msg(debot, with_more(talk, more), act),
        ),
{
    let args = script::misc_args(act.misc);
    get_signer_orderly(talk, more, act.sign_by_user);
    let a0 = script::get_signer(talk, act.sign_by_user);
    let b0 = script::get_signer(with_more(talk, more), act.sign_by_user);
    run_sendmsg_orderly(debot, a0.0, more, act.name, args, a0.1->Ok_0);
    run_sendmsg_orderly(debot, b0.0, Seq::empty(), act.name, args, b0.1->Ok_0);
    let a = script::run_sendmsg(debot, a0.0, act.name, args, a0.1->Ok_0);
    let b = script::run_sendmsg(debot, b0.0, act.name, args, b0.1->Ok_0);
    drop_signer_orderly(a.1, more, a0.1->Ok_0);
    drop_signer_orderly(b.1, Seq::empty(), b0.1->Ok_0);
    let a = script::drop_signer(a.1, a0.1->Ok_0);
    let b = script::drop_signer(b.1, b0.1->Ok_0);
    tell_orderly(a.0, more, RequestView::Log("Transaction succeeded."@));
    tell_orderly(b.0, Seq::empty(), RequestView::Log("Transaction succeeded."@));
}

proof fn invoke_given_orderly(talk: Talk, more: Seq<ReplyView>, given: JsonView)
    ensures
        orderly(
            talk,
            more,
            script::invoke_given(talk, given),
            script::invoke_given(with_more(talk, more), given),
        ),
{
}

proof fn invoke_orderly(debot: DebotView, talk: Talk, more: Seq<ReplyView>, act: DActionView)
    ensures
        orderly_done(
            talk,
            more,
            script::invoke(debot, talk, act),
            script::invoke(debot, with_more(talk, more), act),
        ),
{
    run_debot_orderly(debot, talk, more, act.name, None);
    let a = script::run_debot(debot, talk, act.name, None);
    let b = script::run_debot(debot, with_more(talk, more), act.name, None);
    invoke_given_orderly(a.1, more, a.2->Ok_0->0);
    invoke_given_orderly(b.1, Seq::empty(), b.2->Ok_0->0);
}

proof fn label_orderly(debot: DebotView, talk: Talk, more: Seq<ReplyView>, act: DActionView)
    ensures
        orderly_done(
            talk,
            more,
            script::label(debot, talk, act),
            script::label(debot, with_more(talk, more), act),
        ),
{
    run_debot_orderly(debot, talk, more, act.fargs->0, script::misc_args(act.misc));
}

proof fn print_orderly(debot: DebotView, talk: Talk, more: Seq<ReplyView>, act: DActionView)
    ensures
        orderly_done(
            talk,
            more,
            script::print(debot, talk, act),
            script::print(debot, with_more(talk, more), act),
        ),
{
    label_orderly(debot, talk, more, act);
    let a = script::label(debot, talk, act);
    let b = script::label(debot, with_more(talk, more), act);
    tell_orderly(a.1, more, RequestView::Log(a.2->Ok_0));
    tell_orderly(b.1, Seq::empty(), RequestView::Log(b.2->Ok_0));
}

proof fn routine_args_orderly(debot: DebotView, talk: Talk, more: Seq<ReplyView>, act: DActionView)
    ensures
        orderly_done(
            talk,
            more,
            script::routine_args(debot, talk, act),
            script::routine_args(debot, with_more(talk, more), act),
        ),
{
    run_debot_orderly(debot, talk, more, act.args->0, None);
}

proof fn signed_routine_orderly(
    talk: Talk,
    more: Seq<ReplyView>,
    name: Seq<char>,
    args: Seq<char>,
    sign_by_user: bool,
)
    ensures
        orderly(
            talk,
            more,
            script::signed_routine(talk, name, args, sign_by_user),
            script::signed_routine(with_more(talk, more), name, args, sign_by_user),
        ),
{
    get_signer_orderly(talk, more, sign_by_user);
    let a = script::get_signer(talk, sign_by_user);
    let b = script::get_signer(with_more(talk, more), sign_by_user);
    let ac = a.0.ask(RequestView::CallRoutine { name, args, signer: a.1->Ok_0 });
    let bc = b.0.ask(RequestView::CallRoutine { name, args, signer: b.1->Ok_0 });
    drop_signer_orderly(ac.0, more, a.1->Ok_0);
    drop_signer_orderly(bc.0, Seq::empty(), b.1->Ok_0);
}

#[verifier::rlimit(50)]
#[verifier::spinoff_prover]
proof fn call_engine_orderly(debot: DebotView, talk: Talk, more: Seq<ReplyView>, act: DActionView)
    ensures
        orderly_done(
            talk,
            more,
            script::call_engine(debot, talk, act),
            script::call_engine(debot, with_more(talk, more), act),
        ),
{
    routine_args_orderly(debot, talk, more, act);
    let a = script::routine_args(debot, talk, act);
    let b = script::routine_args(debot, with_more(talk, more), act);
    signed_routine_orderly(a.1, more, act.name, a.2->Ok_0, act.sign_by_user);
    signed_routine_orderly(b.1, Seq::empty(), act.name, b.2->Ok_0, act.sign_by_user);
    let a2 = script::signed_routine(a.1, act.name, a.2->Ok_0, act.sign_by_user);
    let b2 = script::signed_routine(b.1, act.name, b.2->Ok_0, act.sign_by_user);
    let aa = Some(json::object1("arg1"@, JsonView::Str(a2.1->Ok_0)));
    let ba = Some(json::object1("arg1"@, JsonView::Str(b2.1->Ok_0)));
    run_debot_orderly(a.0, a2.0, more, act.func->0, aa);
    run_debot_orderly(b.0, b2.0, Seq::empty(), act.func->0, ba);
}

proof fn unsupported_orderly(debot: DebotView, talk: Talk, more: Seq<ReplyView>)
    ensures
        orderly_done(
            talk,
            more,
            script::unsupported(debot, talk),
            script::unsupported(debot, with_more(talk, more)),
        ),
{
}

proof fn no_actions_orderly(talk: Talk, more: Seq<ReplyView>, done: Done<()>, later: Done<()>)
    requires
        orderly_done(talk, more, done, later),
    ensures
        orderly_done(talk, more, script::no_actions(done), script::no_actions(later)),
{
}

/// Performing an action keeps to the turns, and goes on the same way with further replies. It
/// answers with further actions only after it has heard a reply.
pub proof fn handle_action_orderly(
    debot: DebotView,
    talk: Talk,
    more: Seq<ReplyView>,
    act: DActionView,
)
    ensures
        orderly_done(
            talk,
            more,
            script::handle_action(debot, talk, act),
            script::handle_action(debot, with_more(talk, more), act),
        ),
        script::handle_action(debot, talk, act).2 matches Ok(Some(_))
            ==> script::handle_action(debot, talk, act).1.heard > talk.heard,
{
    let later = with_more(talk, more);
    match act.action_type {
        AcType::Empty => {},
        AcType::RunAction => run_action_orderly(debot, talk, more, act),
        AcType::RunMethod => {
            run_method_orderly(debot, talk, more, act);
            no_actions_orderly(
                talk,
                more,
                script::run_method(debot, talk, act),
                script::run_method(debot, later, act),
            );
        },
        AcType::SendMsg => {
            send_msg_orderly(debot, talk, more, act);
            no_actions_orderly(
                talk,
                more,
                script::send_msg(debot, talk, act),
                script::send_msg(debot, later, act),
            );
        },
        AcType::Invoke => {
            invoke_orderly(debot, talk, more, act);
            no_actions_orderly(
                talk,
                more,
                script::invoke(debot, talk, act),
                script::invoke(debot, later, act),
            );
        },
        AcType::Print => {
            print_orderly(debot, talk, more, act);
            no_actions_orderly(
                talk,
                more,
                script::print(debot, talk, act),
                script::print(debot, later, act),
            );
        },
        AcType::Goto => {},
        AcType::CallEngine => {
            call_engine_orderly(debot, talk, more, act);
            no_actions_orderly(
                talk,
                more,
                script::call_engine(debot, talk, act),
                script::call_engine(debot, later, act),
            );
        },
        AcType::Unknown => {
            unsupported_orderly(debot, talk, more);
            no_actions_orderly(
                talk,
                more,
                script::unsupported(debot, talk),
                script::unsupported(debot, later),
            );
        },
    }
}

/// The same for an action that runs by itself.
pub proof fn run_instant_orderly(
    debot: DebotView,
    talk: Talk,
    more: Seq<ReplyView>,
    act: DActionView,
)
    ensures
        orderly_done(
            talk,
            more,
            script::run_instant(debot, talk, act),
            script::run_instant(debot, with_more(talk, more), act),
        ),
        script::run_instant(debot, talk, act).2 matches Ok(Some(_))
            ==> script::run_instant(debot, talk, act).1.heard > talk.heard,
{
    let a = script::announce(talk, act);
    let b = script::announce(with_more(talk, more), act);
    handle_action_orderly(debot, a.0, more, act);
    handle_action_orderly(debot, b.0, Seq::empty(), act);
}

/// Going through a queue of actions keeps to the turns, and goes on the same way with further
/// replies.
#[verifier::rlimit(50)]
#[verifier::spinoff_prover]
proof fn work_orderly(
    debot: DebotView,
    talk: Talk,
    more: Seq<ReplyView>,
    queue: Seq<DActionView>,
)
    ensures
        orderly_done(
            talk,
            more,
            script::work(debot, talk, queue),
            script::work(debot, with_more(talk, more), queue),
        ),
    decreases talk.ahead() + more.len(), queue.len(),
{
    if queue.len() > 0 {
        let act = queue[0];
        let rest = queue.drop_first();
        let later = with_more(talk, more);
        if act.instant {
            run_instant_orderly(debot, talk, more, act);
            run_instant_orderly(debot, later, Seq::empty(), act);
            let a = script::run_instant(debot, talk, act);
            let b = script::run_instant(debot, later, act);
            if a.2 is Ok {
                work_orderly(a.0, a.1, more, script::queued(rest, a.2->Ok_0));
            } else if b.2 is Ok {
                work_orderly(b.0, b.1, Seq::empty(), script::queued(rest, b.2->Ok_0));
            }
        } else if act.is_engine_call() {
            handle_action_orderly(debot, talk, more, act);
            let a = script::handle_action(debot, talk, act);
            let b = script::handle_action(debot, later, act);
            if a.2 is Ok {
                work_orderly(a.0, a.1, more, rest);
            } else if b.2 is Ok {
                work_orderly(b.0, b.1, Seq::empty(), rest);
            }
        } else {
            let request = RequestView::ShowAction(act);
            tell_orderly(talk, more, request);
            let a = talk.tell(request);
            let b = later.tell(request);
            if a.1 is Ok {
                work_orderly(debot, a.0, more, rest);
            } else if b.1 is Ok {
                work_orderly(debot, b.0, Seq::empty(), rest);
            }
        }
    }
}

pub(crate) proof fn enumerate_actions_orderly(
    debot: DebotView,
    talk: Talk,
    more: Seq<ReplyView>,
    actions: Seq<DActionView>,
)
    ensures
        orderly_done(
            talk,
            more,
            script::enumerate_actions(debot, talk, actions),
            script::enumerate_actions(debot, with_more(talk, more), actions),
        ),
    decreases actions.len(),
{
    if actions.len() > 0 {
        let first = seq![actions[0]];
        let rest = actions.drop_first();
        work_orderly(debot, talk, more, first);
        let a = script::work(debot, talk, first);
        let b = script::work(debot, with_more(talk, more), first);
        if a.2 == Ok::<bool, StopView>(false) {
            enumerate_actions_orderly(a.0, a.1, more, rest);
        } else if b.2 == Ok::<bool, StopView>(false) {
            enumerate_actions_orderly(b.0, b.1, Seq::empty(), rest);
        }
    }
}

/// Showing a context keeps to the turns, and goes on the same way with further replies. It comes
/// to its end only after it has heard a reply.
pub proof fn show_context_orderly(
    debot: DebotView,
    talk: Talk,
    more: Seq<ReplyView>,
    ctx: DContextView,
)
    ensures
        orderly_done(
            talk,
            more,
            script::show_context(debot, talk, ctx),
            script::show_context(debot, with_more(talk, more), ctx),
        ),
        script::show_context(debot, talk, ctx).2 is Ok
            ==> script::show_context(debot, talk, ctx).1.heard > talk.heard,
{
    let switch = RequestView::Switch(ctx.id);
    let log = RequestView::Log(ctx.desc);
    let a = talk.tell(switch).0.tell(log).0;
    let b = with_more(talk, more).tell(switch).0.tell(log).0;
    enumerate_actions_orderly(debot, a, more, ctx.actions);
    enumerate_actions_orderly(debot, b, Seq::empty(), ctx.actions);
}

/// Entering a context keeps to the turns, and goes on the same way with further replies.
pub(crate) proof fn enter_orderly(debot: DebotView, talk: Talk, more: Seq<ReplyView>, state: u8)
    ensures
        orderly_done(
            talk,
            more,
            script::enter(debot, talk, state),
            script::enter(debot, with_more(talk, more), state),
        ),
    decreases talk.ahead() + more.len(),
{
    match context::context_with(debot.state_machine, state) {
        Some(ctx) => {
            let later = with_more(talk, more);
            show_context_orderly(debot, talk, more, ctx);
            show_context_orderly(debot, later, Seq::empty(), ctx);
            let a = script::show_context(debot, talk, ctx);
            let b = script::show_context(debot, later, ctx);
            if a.2 == Ok::<bool, StopView>(true) {
                enter_orderly(a.0, a.1, more, a.0.curr_state);
            } else if b.2 == Ok::<bool, StopView>(true) {
                enter_orderly(b.0, b.1, Seq::empty(), b.0.curr_state);
            }
        },
        None => {},
    }
}

proof fn switch_state_orderly(debot: DebotView, talk: Talk, more: Seq<ReplyView>, to: u8)
    ensures
        orderly_done(
            talk,
            more,
            script::switch_state(debot, talk, to),
            script::switch_state(debot, with_more(talk, more), to),
        ),
{
    let to = script::switch_target(debot, to);
    tell_orderly(talk, more, RequestView::Switch(STATE_EXIT));
    enter_orderly(
        DebotView { prev_state: debot.curr_state, curr_state: to, ..debot },
        talk,
        more,
        to,
    );
}

proof fn fetch_orderly(debot: DebotView, talk: Talk, more: Seq<ReplyView>)
    ensures
        orderly_done(
            talk,
            more,
            script::fetch(debot, talk),
            script::fetch(debot, with_more(talk, more)),
        ),
{
    fetch_state_orderly(debot, talk, more);
}

proof fn start_orderly(debot: DebotView, talk: Talk, more: Seq<ReplyView>)
    ensures
        orderly_done(
            talk,
            more,
            script::start(debot, talk),
            script::start(debot, with_more(talk, more)),
        ),
{
    fetch_orderly(debot, talk, more);
    let a = script::fetch(debot, talk);
    let b = script::fetch(debot, with_more(talk, more));
    switch_state_orderly(a.0, a.1, more, STATE_ZERO);
    switch_state_orderly(b.0, b.1, Seq::empty(), STATE_ZERO);
}

proof fn execute_action_orderly(
    debot: DebotView,
    talk: Talk,
    more: Seq<ReplyView>,
    act: DActionView,
)
    ensures
        orderly_done(
            talk,
            more,
            script::execute_action(debot, talk, act),
            script::execute_action(debot, with_more(talk, more), act),
        ),
{
    handle_action_orderly(debot, talk, more, act);
    let a = script::handle_action(debot, talk, act);
    let b = script::handle_action(debot, with_more(talk, more), act);
    if a.2 is Ok {
        switch_state_orderly(a.0, a.1, more, act.to);
    } else if b.2 is Ok {
        switch_state_orderly(b.0, b.1, Seq::empty(), act.to);
    }
    if let Err(StopView::Failed(e)) = a.2 {
        let log = RequestView::Log("Action failed: "@ + e + ". Return to previous state.\n"@);
        tell_orderly(a.1, more, log);
        let a1 = a.1.tell(log).0;
        let b1 = with_more(a.1, more).tell(log).0;
        switch_state_orderly(a.0, a1, more, a.0.prev_state);
        switch_state_orderly(a.0, b1, Seq::empty(), a.0.prev_state);
    } else if let Err(StopView::Failed(e)) = b.2 {
        let log = RequestView::Log("Action failed: "@ + e + ". Return to previous state.\n"@);
        tell_orderly(b.1, Seq::empty(), log);
        let b1 = b.1.tell(log).0;
        switch_state_orderly(b.0, b1, Seq::empty(), b.0.prev_state);
    }
}

proof fn no_text_orderly(talk: Talk, more: Seq<ReplyView>, done: Done<()>, later: Done<()>)
    requires
        orderly_done(talk, more, done, later),
    ensures
        orderly_done(talk, more, script::no_text(done), script::no_text(later)),
{
}

pub(crate) proof fn perform_orderly(
    debot: DebotView,
    talk: Talk,
    more: Seq<ReplyView>,
    operation: OperationView,
)
    ensures
        orderly_done(
            talk,
            more,
            script::perform(debot, talk, operation),
            script::perform(debot, with_more(talk, more), operation),
        ),
{
    let later = with_more(talk, more);
    match operation {
        OperationView::Fetch => {
            fetch_orderly(debot, talk, more);
            no_text_orderly(talk, more, script::fetch(debot, talk), script::fetch(debot, later));
        },
        OperationView::Start => {
            start_orderly(debot, talk, more);
            no_text_orderly(talk, more, script::start(debot, talk), script::start(debot, later));
        },
        OperationView::Version => run_debot_get_orderly(debot, talk, more, "getVersion"@, None),
        OperationView::ExecuteAction(act) => {
            execute_action_orderly(debot, talk, more, act);
            no_text_orderly(
                talk,
                more,
                script::execute_action(debot, talk, act),
                script::execute_action(debot, later, act),
            );
        },
    }
}

/// An operation takes turns with the world. It asks one thing after the other and hears one reply
/// for each. It waits only once every reply was heard, with one request open; where it has come
/// to an end, no request is open.
pub proof fn turn_taking(
    debot: DebotView,
    replies: Seq<ReplyView>,
    operation: OperationView,
)
    ensures
        ({
            let done = script::perform(debot, Talk::opening(replies), operation);
            &&& done.1.replies == replies
            &&& if pending(done.2) {
                &&& done.1.heard == replies.len()
                &&& done.1.asked.len() == replies.len() + 1
            } else {
                &&& done.1.heard <= replies.len()
                &&& done.1.asked.len() == done.1.heard
            }
        }),
{
    perform_orderly(debot, Talk::opening(replies), Seq::empty(), operation);
}

/// An operation that is begun again with further replies asks again what it has asked before, in
/// the same order, and goes on from there. Where it had come to its end already, the further
/// replies change nothing.
pub proof fn replay(
    debot: DebotView,
    replies: Seq<ReplyView>,
    more: Seq<ReplyView>,
    operation: OperationView,
)
    ensures
        ({
            let done = script::perform(debot, Talk::opening(replies), operation);
            let later = script::perform(debot, Talk::opening(replies + more), operation);
            if pending(done.2) {
                done.1.asked.is_prefix_of(later.1.asked)
            } else {
                later == (done.0, with_more(done.1, more), done.2)
            }
        }),
{
    perform_orderly(debot, Talk::opening(replies), more, operation);
    let done = script::perform(debot, Talk::opening(replies), operation);
    let later = script::perform(debot, Talk::opening(replies + more), operation);
    assert(with_more(Talk::opening(replies), more) == Talk::opening(replies + more));
    if pending(done.2) {
        let asked = done.1.asked;
        assert(asked =~= later.1.asked.subrange(0, asked.len() as int));
    }
}

} // verus!
