//! What is asked, and what comes of it, when an action is performed.

use crate::client::ClientErrorView;
use crate::debot::abi;
use crate::debot::abi::AbiView;
use crate::debot::action::{AcType, DActionView};
use crate::debot::context;
use crate::debot::context::DContextView;
use crate::debot::dialogue::{
    DecodedBodyView, DecodedOutputView, EncodeView, ReplyView, RequestView, StopView, Talk,
};
use crate::debot::exchange;
use crate::debot::exchange::Ran;
use crate::debot::laws;
use crate::debot::loading;
use crate::debot::loading::Options;
use crate::debot::script;
use crate::debot::script::DebotView;
use crate::debot::turns;
use crate::json;
use crate::json::JsonView;
use crate::text;
use vstd::prelude::*;

verus! {

/// The arguments that hold the cell of an action: none for the empty cell.
pub open spec fn cell(misc: Seq<char>) -> Option<JsonView> {
    if misc == "te6ccgEBAQEAAgAAAA=="@ {
        None
    } else {
        Some(
            JsonView::Object(
                Map::<Seq<char>, JsonView>::empty().insert("misc"@, JsonView::Str(misc)),
            ),
        )
    }
}

/// What performing an action comes to where it gives no further actions.
pub open spec fn performed(debot: DebotView, on: Talk) -> (
    DebotView,
    Talk,
    Result<Option<Seq<DActionView>>, StopView>,
) {
    (debot, on, Ok(None))
}

/// What performing an action comes to where it fails with a text.
pub open spec fn refused(debot: DebotView, on: Talk, error: Seq<char>) -> (
    DebotView,
    Talk,
    Result<Option<Seq<DActionView>>, StopView>,
) {
    (debot, on, Err(StopView::Failed(error)))
}

/// An action that only leads on asks nothing and changes nothing.
pub proof fn leading_on_asks_nothing(debot: DebotView, talk: Talk, act: DActionView)
    requires
        act.action_type == AcType::Empty || act.action_type == AcType::Goto,
    ensures
        script::handle_action(debot, talk, act) == performed(debot, talk),
{
}

/// An action of a type that the engine does not know is refused, and the user is told so.
pub proof fn unknown_type_is_refused(debot: DebotView, talk: Talk, act: DActionView)
    requires
        act.action_type == AcType::Unknown,
        exchange::hears(talk, seq![ReplyView::Done]),
    ensures
        script::handle_action(debot, talk, act) == refused(
            debot,
            exchange::after(talk, seq![RequestView::Log("unsupported action type"@)]),
            "unsupported action type"@,
        ),
{
    exchange::lemma_ask(
        talk,
        RequestView::Log("unsupported action type"@),
        ReplyView::Done,
    );
}

/// What a user typed for a parameter, as it is sent: as it is, or as the hexadecimal digits of its
/// UTF-8 bytes for the type `bytes`.
pub open spec fn sent_as(param_type: Seq<char>, value: Seq<char>) -> Seq<char> {
    if param_type == "bytes"@ {
        text::hex_encoded(vstd::utf8::encode_utf8(value))
    } else {
        value
    }
}

/// Whether a document describes a parameter with this name and this type.
pub open spec fn is_param(input: JsonView, name: Seq<char>, param_type: Seq<char>) -> bool {
    input.at("name"@) == JsonView::Str(name) && input.at("type"@) == JsonView::Str(param_type)
}

/// The user is asked once for each parameter, with an empty prompt, and the arguments hold for each
/// name what was typed last for it; what was given before stays for the other names.
pub proof fn arguments_are_typed(
    talk: Talk,
    inputs: Seq<JsonView>,
    names: Seq<Seq<char>>,
    types: Seq<Seq<char>>,
    values: Seq<Seq<char>>,
    given: Map<Seq<char>, JsonView>,
)
    requires
        names.len() == inputs.len(),
        types.len() == inputs.len(),
        values.len() == inputs.len(),
        forall|i: int|
            0 <= i < inputs.len() ==> is_param(#[trigger] inputs[i], names[i], types[i]),
        exchange::hears(talk, values.map_values(|v: Seq<char>| ReplyView::Text(v))),
    ensures
        ({
            let (on, outcome) = script::ask_inputs(talk, inputs, given);
            &&& on == exchange::after(
                talk,
                inputs.map_values(|i: JsonView| RequestView::Input(Seq::empty())),
            )
            &&& outcome matches Ok(JsonView::Object(args))
            &&& forall|i: int|
                0 <= i < inputs.len() && (forall|j: int|
                    i < j < inputs.len() ==> names[j] != names[i]) ==> args.contains_key(#[trigger] names[i]) && args[names[i]] == JsonView::Str(
                    sent_as(types[i], values[i]),
                )
            &&& forall|name: Seq<char>|
                !names.contains(name) ==> (#[trigger] args.contains_key(name)
                    <==> given.contains_key(name)) && (given.contains_key(name) ==> args[name]
                    == given[name])
        }),
    decreases inputs.len(),
{
    reveal_strlit("");
    assert(""@ =~= Seq::<char>::empty());
    let texts = values.map_values(|v: Seq<char>| ReplyView::Text(v));
    let prompts = inputs.map_values(|i: JsonView| RequestView::Input(Seq::empty()));
    if inputs.len() == 0 {
        assert(talk.asked + prompts =~= talk.asked);
    } else {
        let rest = inputs.drop_first();
        let rest_names = names.drop_first();
        let rest_types = types.drop_first();
        let rest_values = values.drop_first();
        let rest_texts = rest_values.map_values(|v: Seq<char>| ReplyView::Text(v));
        let rest_prompts = rest.map_values(|i: JsonView| RequestView::Input(Seq::empty()));
        let request = RequestView::Input(Seq::empty());
        assert(is_param(inputs[0], names[0], types[0]));
        assert(texts =~= seq![ReplyView::Text(values[0])] + rest_texts);
        assert(prompts =~= seq![request] + rest_prompts);
        exchange::lemma_hears_split(
            talk,
            seq![ReplyView::Text(values[0])],
            rest_texts,
            seq![request],
        );
        exchange::lemma_ask(talk, request, ReplyView::Text(values[0]));
        assert forall|i: int| 0 <= i < rest.len() implies is_param(
            #[trigger] rest[i],
            rest_names[i],
            rest_types[i],
        ) by {
            assert(is_param(inputs[i + 1], names[i + 1], types[i + 1]));
        }
        let on = exchange::after(talk, seq![request]);
        let more = given.insert(names[0], JsonView::Str(sent_as(types[0], values[0])));
        arguments_are_typed(on, rest, rest_names, rest_types, rest_values, more);
        exchange::lemma_after_join(talk, seq![request], rest_prompts);
        let args = script::ask_inputs(talk, inputs, given).1->Ok_0->Object_0;
        assert forall|i: int|
            0 <= i < inputs.len() && (forall|j: int|
                i < j < inputs.len() ==> names[j] != names[i]) implies args.contains_key(
            #[trigger] names[i],
        ) && args[names[i]] == JsonView::Str(sent_as(types[i], values[i])) by {
            if i == 0 {
                assert(!rest_names.contains(names[0])) by {
                    if rest_names.contains(names[0]) {
                        let j = choose|j: int|
                            0 <= j < rest_names.len() && rest_names[j] == names[0];
                        assert(names[j + 1] == names[0]);
                    }
                }
            } else {
                assert(rest_names[i - 1] == names[i]);
                assert forall|j: int| i - 1 < j < rest.len() implies #[trigger] rest_names[j]
                    != names[i] by {
                    assert(names[j + 1] != names[i]);
                }
            }
        }
        assert forall|name: Seq<char>| !names.contains(name) implies (
        #[trigger] args.contains_key(name) <==> given.contains_key(name)) && (given.contains_key(
            name,
        ) ==> args[name] == given[name]) by {
            assert(names[0] != name);
            assert(!rest_names.contains(name)) by {
                if rest_names.contains(name) {
                    let j = choose|j: int| 0 <= j < rest_names.len() && rest_names[j] == name;
                    assert(names[j + 1] == name);
                }
            }
        }
    }
}

proof fn lemma_run_action(
    debot: DebotView,
    talk: Talk,
    on: Talk,
    act: DActionView,
    args: Option<JsonView>,
    ran: Ran,
    actions: Option<Seq<DActionView>>,
)
    requires
        act.action_type == AcType::RunAction,
        script::query_action_args(debot, talk, act) == (
            on,
            Ok::<Option<JsonView>, StopView>(args),
        ),
        ran.output matches Some(doc) ==> doc is Object || doc is Null,
        exchange::hears(
            on,
            ran.replies() + match ran.output {
                Some(_) => seq![ReplyView::Actions(actions)],
                None => Seq::empty(),
            },
        ),
    ensures
        ({
            let requests = exchange::running_own(debot, act.name, args, ran) + match ran.output {
                Some(doc) => seq![RequestView::ParseActions(doc.at("actions"@))],
                None => Seq::empty(),
            };
            let (after, told, outcome) = script::handle_action(debot, talk, act);
            &&& after == DebotView { state: ran.account, ..debot }
            &&& told == exchange::after(on, requests)
            &&& outcome == match (ran.output, actions) {
                (None, _) => Ok::<Option<Seq<DActionView>>, StopView>(None),
                (Some(_), Some(list)) => Ok(Some(list)),
                (Some(_), None) => Err(
                    StopView::Failed("internal error: failed to parse actions"@),
                ),
            }
        }),
{
    let q1 = exchange::running_own(debot, act.name, args, ran);
    let r2: Seq<ReplyView> = match ran.output {
        Some(_) => seq![ReplyView::Actions(actions)],
        None => Seq::empty(),
    };
    let q2: Seq<RequestView> = match ran.output {
        Some(doc) => seq![RequestView::ParseActions(doc.at("actions"@))],
        None => Seq::empty(),
    };
    exchange::lemma_hears_split(on, ran.replies(), r2, q1);
    exchange::function_runs(debot, on, act.name, args, ran);
    exchange::lemma_after_join(on, q1, q2);
    if ran.output is Some {
        exchange::lemma_ask(exchange::after(on, q1), q2[0], r2[0]);
    } else {
        assert(q1 + q2 =~= q1);
    }
}

/// An action with a cell runs the debot's function with its name on that cell; the actions of the
/// output are the further ones, and the debot goes on with the account that the run left.
pub proof fn action_with_cell_runs(
    debot: DebotView,
    talk: Talk,
    act: DActionView,
    ran: Ran,
    actions: Option<Seq<DActionView>>,
)
    requires
        act.action_type == AcType::RunAction,
        cell(act.misc) is Some,
        ran.output matches Some(doc) ==> doc is Object || doc is Null,
        exchange::hears(
            talk,
            ran.replies() + match ran.output {
                Some(_) => seq![ReplyView::Actions(actions)],
                None => Seq::empty(),
            },
        ),
    ensures
        script::handle_action(debot, talk, act) == (
            DebotView { state: ran.account, ..debot },
            exchange::after(
                talk,
                exchange::running_own(debot, act.name, cell(act.misc), ran) + match ran.output {
                    Some(doc) => seq![RequestView::ParseActions(doc.at("actions"@))],
                    None => Seq::empty(),
                },
            ),
            match (ran.output, actions) {
                (None, _) => Ok::<Option<Seq<DActionView>>, StopView>(None),
                (Some(_), Some(list)) => Ok(Some(list)),
                (Some(_), None) => Err(
                    StopView::Failed("internal error: failed to parse actions"@),
                ),
            },
        ),
{
    lemma_run_action(debot, talk, talk, act, cell(act.misc), ran, actions);
}

/// An action without a cell runs the debot's function with its name on what the user types for the
/// parameters that the debot's own interface gives this function.
pub proof fn action_with_inputs_runs(
    debot: DebotView,
    talk: Talk,
    act: DActionView,
    abi_json: JsonView,
    inputs: Seq<JsonView>,
    ran: Ran,
    actions: Option<Seq<DActionView>>,
)
    requires
        act.action_type == AcType::RunAction,
        cell(act.misc) is None,
        json::json_parse(debot.abi.json) == Ok::<JsonView, Seq<char>>(abi_json),
        abi::inputs_of(abi_json, act.name) == Ok::<Option<Seq<JsonView>>, ()>(Some(inputs)),
        script::ask_inputs(talk, inputs, Map::empty()).1 is Ok,
        ran.output matches Some(doc) ==> doc is Object || doc is Null,
        exchange::hears(
            script::ask_inputs(talk, inputs, Map::empty()).0,
            ran.replies() + match ran.output {
                Some(_) => seq![ReplyView::Actions(actions)],
                None => Seq::empty(),
            },
        ),
    ensures
        ({
            let (on, args) = script::ask_inputs(talk, inputs, Map::empty());
            script::handle_action(debot, talk, act) == (
                DebotView { state: ran.account, ..debot },
                exchange::after(
                    on,
                    exchange::running_own(debot, act.name, Some(args->Ok_0), ran)
                        + match ran.output {
                        Some(doc) => seq![RequestView::ParseActions(doc.at("actions"@))],
                        None => Seq::empty(),
                    },
                ),
                match (ran.output, actions) {
                    (None, _) => Ok::<Option<Seq<DActionView>>, StopView>(None),
                    (Some(_), Some(list)) => Ok(Some(list)),
                    (Some(_), None) => Err(
                        StopView::Failed("internal error: failed to parse actions"@),
                    ),
                },
            )
        }),
{
    let (on, args) = script::ask_inputs(talk, inputs, Map::empty());
    lemma_run_action(debot, talk, on, act, Some(args->Ok_0), ran, actions);
}

/// An action without a cell whose name is no function of the debot is refused without asking.
pub proof fn action_without_function_is_refused(
    debot: DebotView,
    talk: Talk,
    act: DActionView,
    abi_json: JsonView,
)
    requires
        act.action_type == AcType::RunAction,
        cell(act.misc) is None,
        json::json_parse(debot.abi.json) == Ok::<JsonView, Seq<char>>(abi_json),
        abi::inputs_of(abi_json, act.name) == Ok::<Option<Seq<JsonView>>, ()>(None),
    ensures
        script::handle_action(debot, talk, act) == refused(debot, talk, "action not found"@),
{
}

/// The run that gives the arguments of an action, where a function for them is named.
pub open spec fn getter_replies(getter: Option<Seq<char>>, ran: Ran) -> Seq<ReplyView> {
    match getter {
        Some(_) => ran.replies(),
        None => Seq::empty(),
    }
}

/// The requests of that run.
pub open spec fn getter_requests(
    debot: DebotView,
    getter: Option<Seq<char>>,
    args: Option<JsonView>,
    ran: Ran,
) -> Seq<RequestView> {
    match getter {
        Some(func) => exchange::running_own(debot, func, args, ran),
        None => Seq::empty(),
    }
}

/// The debot after that run.
pub open spec fn after_getter(debot: DebotView, getter: Option<Seq<char>>, ran: Ran) -> DebotView {
    match getter {
        Some(_) => DebotView { state: ran.account, ..debot },
        None => debot,
    }
}

/// A get-method of the target: its arguments come from the debot, it is run on the target's
/// account, at the target's address and by the target's interface, and the result goes to the
/// debot's function with the action's name. The debot goes on with the account that this last run
/// left.
#[verifier::rlimit(40)]
#[verifier::spinoff_prover]
pub proof fn get_method_runs(
    debot: DebotView,
    talk: Talk,
    act: DActionView,
    getter: Ran,
    func: Seq<char>,
    options: Options,
    target: Seq<char>,
    target_text: Seq<char>,
    target_json: Seq<char>,
    found: Seq<JsonView>,
    boc: Seq<char>,
    got: Ran,
    handled: Ran,
)
    requires
        act.action_type == AcType::RunMethod,
        act.func == Some(func),
        options.given(),
        options.taken(debot).target_addr == Some(target),
        options.taken(debot).target_abi == Some(target_text),
        found.len() > 0,
        found[0].at("boc"@) == JsonView::Str(boc),
        exchange::hears(
            talk,
            getter_replies(act.args, getter) + options.replies() + seq![
                ReplyView::Abi(Ok(target_json)),
            ] + (seq![ReplyView::Collection(Ok(found))] + got.replies()) + handled.replies(),
        ),
    ensures
        ({
            let d1 = after_getter(debot, act.args, getter);
            let d2 = options.taken(d1);
            let target_abi = AbiView { json: target_json };
            let args = if act.args is Some {
                getter.output
            } else {
                None
            };
            script::handle_action(debot, talk, act) == performed(
                DebotView { state: handled.account, ..d2 },
                exchange::after(
                    talk,
                    getter_requests(debot, act.args, None, getter) + options.requests(d1) + seq![
                        RequestView::ParseAbi(target_text),
                    ] + (seq![exchange::account_query(target)] + exchange::running(
                        boc,
                        target,
                        target_abi,
                        func,
                        args,
                        got.message,
                    )) + exchange::running_own(d2, act.name, Some(got.document()), handled),
                ),
            )
        }),
{
    let d1 = after_getter(debot, act.args, getter);
    let d2 = options.taken(d1);
    let target_abi = AbiView { json: target_json };
    let args = if act.args is Some {
        getter.output
    } else {
        None
    };
    let r1 = getter_replies(act.args, getter);
    let r2 = options.replies();
    let r3 = seq![ReplyView::Abi(Ok(target_json))];
    let r4 = seq![ReplyView::Collection(Ok(found))] + got.replies();
    let r5 = handled.replies();
    let q1 = getter_requests(debot, act.args, None, getter);
    let q2 = options.requests(d1);
    let q3 = seq![RequestView::ParseAbi(target_text)];
    let q4 = seq![exchange::account_query(target)] + exchange::running(
        boc,
        target,
        target_abi,
        func,
        args,
        got.message,
    );
    let q5 = exchange::running_own(d2, act.name, Some(got.document()), handled);
    exchange::lemma_hears_split(talk, r1 + r2 + r3 + r4, r5, q1 + q2 + q3 + q4);
    exchange::lemma_hears_split(talk, r1 + r2 + r3, r4, q1 + q2 + q3);
    exchange::lemma_hears_split(talk, r1 + r2, r3, q1 + q2);
    exchange::lemma_hears_split(talk, r1, r2, q1);
    exchange::lemma_after_join(talk, q1, q2);
    exchange::lemma_after_join(talk, q1 + q2, q3);
    exchange::lemma_after_join(talk, q1 + q2 + q3, q4);
    exchange::lemma_after_join(talk, q1 + q2 + q3 + q4, q5);
    let t1 = exchange::after(talk, q1);
    let t2 = exchange::after(talk, q1 + q2);
    let t3 = exchange::after(talk, q1 + q2 + q3);
    let t4 = exchange::after(talk, q1 + q2 + q3 + q4);
    let t5 = exchange::after(talk, q1 + q2 + q3 + q4 + q5);
    match act.args {
        Some(g) => exchange::function_runs(debot, talk, g, None, getter),
        None => {
            assert(talk.asked + q1 =~= talk.asked);
        },
    }
    assert(script::getter_args(debot, talk, act.args) == (
        d1,
        t1,
        Ok::<Option<JsonView>, StopView>(args),
    ));
    loading::options_are_taken_over(d1, t1, options);
    exchange::lemma_ask(t2, q3[0], r3[0]);
    assert(script::get_target(d2, t2) == (
        t3,
        Ok::<(Seq<char>, AbiView), StopView>((target, target_abi)),
    ));
    exchange::foreign_function_runs(d2, t3, target, target_abi, func, args, found, boc, got);
    exchange::function_runs(d2, t4, act.name, Some(got.document()), handled);
    assert(script::run_getmethod(d1, t1, func, args, act.name) == (
        DebotView { state: handled.account, ..d2 },
        t5,
        Ok::<Option<JsonView>, StopView>(handled.output),
    ));
}

/// A get-method without a target to run on is refused, with the text for what is missing.
pub proof fn get_method_needs_target(
    debot: DebotView,
    talk: Talk,
    act: DActionView,
    func: Seq<char>,
    options: Options,
)
    requires
        act.action_type == AcType::RunMethod,
        act.func == Some(func),
        act.args is None,
        options.given(),
        options.taken(debot).target_addr is None || options.taken(debot).target_abi is None,
        exchange::hears(talk, options.replies()),
    ensures
        script::handle_action(debot, talk, act) == refused(
            options.taken(debot),
            exchange::after(talk, options.requests(debot)),
            if options.taken(debot).target_addr is None {
                "target address is undefined"@
            } else {
                "target abi is undefined"@
            },
        ),
{
    loading::options_are_taken_over(debot, talk, options);
}

/// The reply that gives a signing box, where the user signs.
pub open spec fn box_reply(signer: Option<u32>) -> Seq<ReplyView> {
    match signer {
        Some(handle) => seq![ReplyView::SigningBox(Ok(handle))],
        None => Seq::empty(),
    }
}

/// The request for a signing box, where the user signs.
pub open spec fn box_request(signer: Option<u32>) -> Seq<RequestView> {
    match signer {
        Some(_) => seq![RequestView::GetSigningBox],
        None => Seq::empty(),
    }
}

/// The reply to giving a signing box back.
pub open spec fn unbox_reply(signer: Option<u32>) -> Seq<ReplyView> {
    match signer {
        Some(_) => seq![ReplyView::Done],
        None => Seq::empty(),
    }
}

/// The request that gives the same signing box back.
pub open spec fn unbox_request(signer: Option<u32>) -> Seq<RequestView> {
    match signer {
        Some(handle) => seq![RequestView::RemoveSigningBox(handle)],
        None => Seq::empty(),
    }
}

proof fn lemma_get_signer(talk: Talk, wanted: bool, signer: Option<u32>)
    requires
        wanted <==> signer is Some,
        exchange::hears(talk, box_reply(signer)),
    ensures
        script::get_signer(talk, wanted) == (
            exchange::after(talk, box_request(signer)),
            Ok::<Option<u32>, StopView>(signer),
        ),
{
    match signer {
        Some(_) => exchange::lemma_ask(talk, box_request(signer)[0], box_reply(signer)[0]),
        None => {
            assert(talk.asked + box_request(signer) =~= talk.asked);
        },
    }
}

proof fn lemma_drop_signer(talk: Talk, signer: Option<u32>)
    requires
        exchange::hears(talk, unbox_reply(signer)),
    ensures
        script::drop_signer(talk, signer) == (
            exchange::after(talk, unbox_request(signer)),
            Ok::<(), StopView>(()),
        ),
{
    match signer {
        Some(_) => exchange::lemma_ask(talk, unbox_request(signer)[0], unbox_reply(signer)[0]),
        None => {
            assert(talk.asked + unbox_request(signer) =~= talk.asked);
        },
    }
}

/// How the interface of a message's destination is found: the debot's own needs no asking, the
/// target's is parsed.
pub open spec fn interface_replies(debot: DebotView, dest: Seq<char>, json: Seq<char>) -> Seq<
    ReplyView,
> {
    if dest == debot.addr {
        Seq::empty()
    } else {
        seq![ReplyView::Abi(Ok(json))]
    }
}

/// The request for it.
pub open spec fn interface_requests(debot: DebotView, dest: Seq<char>) -> Seq<RequestView> {
    if dest == debot.addr {
        Seq::empty()
    } else {
        seq![RequestView::ParseAbi(debot.target_abi->0)]
    }
}

/// The interface of a message's destination: the debot's own for the debot, else the target's.
pub open spec fn interface_of(debot: DebotView, dest: Seq<char>, json: Seq<char>) -> AbiView {
    if dest == debot.addr {
        debot.abi
    } else {
        AbiView { json }
    }
}

/// A message to another contract is read by the target's interface, and one to the debot itself by
/// the debot's own.
pub proof fn message_read_by_its_interface(
    debot: DebotView,
    talk: Talk,
    dest: Seq<char>,
    json: Seq<char>,
)
    requires
        dest != debot.addr ==> debot.target_addr is Some && debot.target_abi is Some,
        exchange::hears(talk, interface_replies(debot, dest, json)),
    ensures
        script::abi_for(debot, talk, dest) == (
            exchange::after(talk, interface_requests(debot, dest)),
            Ok::<AbiView, StopView>(interface_of(debot, dest, json)),
        ),
{
    if dest == debot.addr {
        assert(talk.asked + interface_requests(debot, dest) =~= talk.asked);
    } else {
        exchange::lemma_ask(
            talk,
            interface_requests(debot, dest)[0],
            interface_replies(debot, dest, json)[0],
        );
    }
}

/// A message for an action: the debot's function prepares it, its body is decoded by the interface
/// of its destination, and the call that it makes is sent there by the same interface, signed by
/// the user's box where the user signs, with the image to deploy where one is given. Then the box
/// is given back and the user is told. The debot goes on with the account that preparing left.
#[verifier::rlimit(40)]
#[verifier::spinoff_prover]
pub proof fn message_is_sent(
    debot: DebotView,
    talk: Talk,
    act: DActionView,
    signer: Option<u32>,
    ran: Ran,
    prepared: JsonView,
    dest: Seq<char>,
    body: Seq<char>,
    json: Seq<char>,
    call: DecodedBodyView,
    output: Option<JsonView>,
)
    requires
        act.action_type == AcType::SendMsg,
        act.sign_by_user <==> signer is Some,
        ran.output == Some(prepared),
        prepared.at("dest"@) == JsonView::Str(dest),
        prepared.at("body"@) == JsonView::Str(body),
        dest != debot.addr ==> debot.target_addr is Some && debot.target_abi is Some,
        exchange::hears(
            talk,
            box_reply(signer) + ran.replies() + interface_replies(debot, dest, json) + seq![
                ReplyView::Body(Ok(call)),
            ] + seq![ReplyView::Processed(Ok(Some(DecodedOutputView { output })))] + unbox_reply(
                signer,
            ) + seq![ReplyView::Done],
        ),
    ensures
        ({
            let abi = interface_of(debot, dest, json);
            script::handle_action(debot, talk, act) == performed(
                DebotView { state: ran.account, ..debot },
                exchange::after(
                    talk,
                    box_request(signer) + exchange::running_own(
                        debot,
                        act.name,
                        cell(act.misc),
                        ran,
                    ) + interface_requests(debot, dest) + seq![
                        RequestView::DecodeMessageBody { abi, body, is_internal: true },
                    ] + seq![
                        RequestView::ProcessMessage {
                            encode_params: EncodeView {
                                abi,
                                address: dest,
                                tvc: match prepared.at("state"@) {
                                    JsonView::Str(image) => Some(image),
                                    _ => None,
                                },
                                function_name: call.name,
                                input: call.value,
                                signer,
                            },
                            send_events: true,
                        },
                    ] + unbox_request(signer) + seq![RequestView::Log("Transaction succeeded."@)],
                ),
            )
        }),
{
    let abi = interface_of(debot, dest, json);
    let d = DebotView { state: ran.account, ..debot };
    let image = match prepared.at("state"@) {
        JsonView::Str(image) => Some(image),
        _ => None,
    };
    let encode_params = EncodeView {
        abi,
        address: dest,
        tvc: image,
        function_name: call.name,
        input: call.value,
        signer,
    };
    let r1 = box_reply(signer);
    let r2 = ran.replies();
    let r3 = interface_replies(debot, dest, json);
    let r4 = seq![ReplyView::Body(Ok(call))];
    let r5 = seq![ReplyView::Processed(Ok(Some(DecodedOutputView { output })))];
    let r6 = unbox_reply(signer);
    let r7 = seq![ReplyView::Done];
    let q1 = box_request(signer);
    let q2 = exchange::running_own(debot, act.name, cell(act.misc), ran);
    let q3 = interface_requests(debot, dest);
    let q4 = seq![RequestView::DecodeMessageBody { abi, body, is_internal: true }];
    let q5 = seq![RequestView::ProcessMessage { encode_params, send_events: true }];
    let q6 = unbox_request(signer);
    let q7 = seq![RequestView::Log("Transaction succeeded."@)];
    exchange::lemma_hears_split(
        talk,
        r1 + r2 + r3 + r4 + r5 + r6,
        r7,
        q1 + q2 + q3 + q4 + q5 + q6,
    );
    exchange::lemma_hears_split(talk, r1 + r2 + r3 + r4 + r5, r6, q1 + q2 + q3 + q4 + q5);
    exchange::lemma_hears_split(talk, r1 + r2 + r3 + r4, r5, q1 + q2 + q3 + q4);
    exchange::lemma_hears_split(talk, r1 + r2 + r3, r4, q1 + q2 + q3);
    exchange::lemma_hears_split(talk, r1 + r2, r3, q1 + q2);
    exchange::lemma_hears_split(talk, r1, r2, q1);
    exchange::lemma_after_join(talk, q1, q2);
    exchange::lemma_after_join(talk, q1 + q2, q3);
    exchange::lemma_after_join(talk, q1 + q2 + q3, q4);
    exchange::lemma_after_join(talk, q1 + q2 + q3 + q4, q5);
    exchange::lemma_after_join(talk, q1 + q2 + q3 + q4 + q5, q6);
    exchange::lemma_after_join(talk, q1 + q2 + q3 + q4 + q5 + q6, q7);
    let t1 = exchange::after(talk, q1);
    let t2 = exchange::after(talk, q1 + q2);
    let t3 = exchange::after(talk, q1 + q2 + q3);
    let t4 = exchange::after(talk, q1 + q2 + q3 + q4);
    let t5 = exchange::after(talk, q1 + q2 + q3 + q4 + q5);
    let t6 = exchange::after(talk, q1 + q2 + q3 + q4 + q5 + q6);
    lemma_get_signer(talk, act.sign_by_user, signer);
    exchange::function_runs(debot, t1, act.name, cell(act.misc), ran);
    message_read_by_its_interface(d, t2, dest, json);
    exchange::lemma_ask(t3, q4[0], r4[0]);
    exchange::lemma_ask(t4, q5[0], r5[0]);
    assert(script::send_body(d, t3, dest, abi, body, signer, image) == (
        t5,
        Ok::<Option<JsonView>, StopView>(output),
    ));
    assert(script::run_sendmsg(debot, t1, act.name, cell(act.misc), signer) == (
        d,
        t5,
        Ok::<Option<JsonView>, StopView>(output),
    ));
    lemma_drop_signer(t5, signer);
    exchange::lemma_ask(t6, q7[0], r7[0]);
    assert(script::send_msg(debot, talk, act) == (
        d,
        exchange::after(talk, q1 + q2 + q3 + q4 + q5 + q6 + q7),
        Ok::<(), StopView>(()),
    ));
}

/// A message whose body cannot be decoded is refused with the text for it.
pub proof fn undecoded_message_is_refused(
    debot: DebotView,
    talk: Talk,
    act: DActionView,
    ran: Ran,
    prepared: JsonView,
    dest: Seq<char>,
    body: Seq<char>,
    json: Seq<char>,
    error: Seq<char>,
)
    requires
        act.action_type == AcType::SendMsg,
        !act.sign_by_user,
        ran.output == Some(prepared),
        prepared.at("dest"@) == JsonView::Str(dest),
        prepared.at("body"@) == JsonView::Str(body),
        dest != debot.addr ==> debot.target_addr is Some && debot.target_abi is Some,
        exchange::hears(
            talk,
            ran.replies() + interface_replies(debot, dest, json) + seq![
                ReplyView::Body(Err(error)),
            ],
        ),
    ensures
        ({
            let done = script::handle_action(debot, talk, act);
            &&& done.0 == DebotView { state: ran.account, ..debot }
            &&& done.2 == Err::<Option<Seq<DActionView>>, StopView>(
                StopView::Failed("failed to decode msg body: "@ + error),
            )
        }),
{
    let abi = interface_of(debot, dest, json);
    let d = DebotView { state: ran.account, ..debot };
    let r2 = ran.replies();
    let r3 = interface_replies(debot, dest, json);
    let r4 = seq![ReplyView::Body(Err(error))];
    let q2 = exchange::running_own(debot, act.name, cell(act.misc), ran);
    let q3 = interface_requests(debot, dest);
    exchange::lemma_hears_split(talk, r2 + r3, r4, q2 + q3);
    exchange::lemma_hears_split(talk, r2, r3, q2);
    exchange::lemma_after_join(talk, q2, q3);
    exchange::function_runs(debot, talk, act.name, cell(act.misc), ran);
    message_read_by_its_interface(d, exchange::after(talk, q2), dest, json);
    exchange::lemma_ask(
        exchange::after(talk, q2 + q3),
        RequestView::DecodeMessageBody { abi, body, is_internal: true },
        r4[0],
    );
}

/// A message that the debot does not prepare is refused with the text for it.
pub proof fn unprepared_message_is_refused(
    debot: DebotView,
    talk: Talk,
    act: DActionView,
    ran: Ran,
)
    requires
        act.action_type == AcType::SendMsg,
        !act.sign_by_user,
        ran.output is None,
        exchange::hears(talk, ran.replies()),
    ensures
        script::handle_action(debot, talk, act) == refused(
            DebotView { state: ran.account, ..debot },
            exchange::after(talk, exchange::running_own(debot, act.name, cell(act.misc), ran)),
            "action \""@ + act.name
                + "\" is invalid: it must return \"dest\" and \"body\" arguments"@,
        ),
{
    exchange::function_runs(debot, talk, act.name, cell(act.misc), ran);
}

/// A message to another contract without a target is refused with the text for what is missing.
pub proof fn message_needs_target(
    debot: DebotView,
    talk: Talk,
    act: DActionView,
    ran: Ran,
    prepared: JsonView,
    dest: Seq<char>,
    body: Seq<char>,
)
    requires
        act.action_type == AcType::SendMsg,
        !act.sign_by_user,
        ran.output == Some(prepared),
        prepared.at("dest"@) == JsonView::Str(dest),
        prepared.at("body"@) == JsonView::Str(body),
        dest != debot.addr,
        debot.target_addr is None || debot.target_abi is None,
        exchange::hears(talk, ran.replies()),
    ensures
        script::handle_action(debot, talk, act) == refused(
            DebotView { state: ran.account, ..debot },
            exchange::after(talk, exchange::running_own(debot, act.name, cell(act.misc), ran)),
            if debot.target_addr is None {
                "target address is undefined"@
            } else {
                "target abi is undefined"@
            },
        ),
{
    exchange::function_runs(debot, talk, act.name, cell(act.misc), ran);
}

/// A user who refuses to sign refuses the action, before anything else is asked.
pub proof fn refused_box_refuses_message(
    debot: DebotView,
    talk: Talk,
    act: DActionView,
    error: Seq<char>,
)
    requires
        act.action_type == AcType::SendMsg,
        act.sign_by_user,
        exchange::hears(talk, seq![ReplyView::SigningBox(Err(error))]),
    ensures
        script::handle_action(debot, talk, act) == refused(
            debot,
            exchange::after(talk, seq![RequestView::GetSigningBox]),
            error,
        ),
{
    exchange::lemma_ask(talk, RequestView::GetSigningBox, ReplyView::SigningBox(Err(error)));
}

/// Another debot is invoked at the address and with the action that a function of this one gives,
/// and what came of it is what the action comes to.
pub proof fn debot_is_invoked(
    debot: DebotView,
    talk: Talk,
    act: DActionView,
    ran: Ran,
    given: JsonView,
    addr: Seq<char>,
    action: DActionView,
    outcome: Result<(), Seq<char>>,
)
    requires
        act.action_type == AcType::Invoke,
        ran.output == Some(given),
        given.at("debot"@) == JsonView::Str(addr),
        exchange::hears(
            talk,
            ran.replies() + seq![ReplyView::Action(Some(action))] + seq![
                ReplyView::Invoked(outcome),
            ],
        ),
    ensures
        ({
            let d = DebotView { state: ran.account, ..debot };
            let on = exchange::after(
                talk,
                exchange::running_own(debot, act.name, None, ran) + seq![
                    RequestView::ParseAction(given.at("action"@)),
                ] + seq![RequestView::InvokeDebot(addr, action)],
            );
            script::handle_action(debot, talk, act) == match outcome {
                Ok(()) => performed(d, on),
                Err(e) => refused(d, on, e),
            }
        }),
{
    let r1 = ran.replies();
    let r2 = seq![ReplyView::Action(Some(action))];
    let r3 = seq![ReplyView::Invoked(outcome)];
    let q1 = exchange::running_own(debot, act.name, None, ran);
    let q2 = seq![RequestView::ParseAction(given.at("action"@))];
    let q3 = seq![RequestView::InvokeDebot(addr, action)];
    exchange::lemma_hears_split(talk, r1 + r2, r3, q1 + q2);
    exchange::lemma_hears_split(talk, r1, r2, q1);
    exchange::lemma_after_join(talk, q1, q2);
    exchange::lemma_after_join(talk, q1 + q2, q3);
    exchange::function_runs(debot, talk, act.name, None, ran);
    exchange::lemma_ask(exchange::after(talk, q1), q2[0], r2[0]);
    exchange::lemma_ask(exchange::after(talk, q1 + q2), q3[0], r3[0]);
}

/// An invocation that the debot does not give is refused with the text for it.
pub proof fn invocation_must_be_given(
    debot: DebotView,
    talk: Talk,
    act: DActionView,
    ran: Ran,
)
    requires
        act.action_type == AcType::Invoke,
        ran.output is None,
        exchange::hears(talk, ran.replies()),
    ensures
        script::handle_action(debot, talk, act) == refused(
            DebotView { state: ran.account, ..debot },
            exchange::after(talk, exchange::running_own(debot, act.name, None, ran)),
            "invalid invoke action \""@ + act.name
                + "\": it must return \"debot\" and \"action\" arguments"@,
        ),
{
    exchange::function_runs(debot, talk, act.name, None, ran);
}

/// A text without parameters is shown as it is.
pub proof fn text_is_printed(debot: DebotView, talk: Talk, act: DActionView)
    requires
        act.action_type == AcType::Print,
        act.fargs is None,
        exchange::hears(talk, seq![ReplyView::Done]),
    ensures
        script::handle_action(debot, talk, act) == performed(
            debot,
            exchange::after(talk, seq![RequestView::Log(act.name)]),
        ),
{
    exchange::lemma_ask(talk, RequestView::Log(act.name), ReplyView::Done);
}

/// A text with parameters is filled with what the debot's function gives for them, called on the
/// action's cell, and shown; where it gives nothing, an empty text is shown. The debot goes on with
/// the account that the function left.
pub proof fn filled_text_is_printed(
    debot: DebotView,
    talk: Talk,
    act: DActionView,
    getter: Seq<char>,
    ran: Ran,
    label: Seq<char>,
)
    requires
        act.action_type == AcType::Print,
        act.fargs == Some(getter),
        exchange::hears(
            talk,
            ran.replies() + (match ran.output {
                Some(_) => seq![ReplyView::Text(label)],
                None => Seq::empty(),
            }) + seq![ReplyView::Done],
        ),
    ensures
        script::handle_action(debot, talk, act) == performed(
            DebotView { state: ran.account, ..debot },
            exchange::after(
                talk,
                exchange::running_own(debot, getter, cell(act.misc), ran) + (match ran.output {
                    Some(params) => seq![RequestView::FormatString { format: act.name, params }],
                    None => Seq::empty(),
                }) + seq![
                    RequestView::Log(
                        if ran.output is Some {
                            label
                        } else {
                            Seq::empty()
                        },
                    ),
                ],
            ),
        ),
{
    let r1 = ran.replies();
    let r2: Seq<ReplyView> = match ran.output {
        Some(_) => seq![ReplyView::Text(label)],
        None => Seq::empty(),
    };
    let r3 = seq![ReplyView::Done];
    let q1 = exchange::running_own(debot, getter, cell(act.misc), ran);
    let q2: Seq<RequestView> = match ran.output {
        Some(params) => seq![RequestView::FormatString { format: act.name, params }],
        None => Seq::empty(),
    };
    let q3 = seq![
        RequestView::Log(
            if ran.output is Some {
                label
            } else {
                Seq::empty()
            },
        ),
    ];
    exchange::lemma_hears_split(talk, r1 + r2, r3, q1 + q2);
    exchange::lemma_hears_split(talk, r1, r2, q1);
    exchange::lemma_after_join(talk, q1, q2);
    exchange::lemma_after_join(talk, q1 + q2, q3);
    exchange::function_runs(debot, talk, getter, cell(act.misc), ran);
    if ran.output is Some {
        exchange::lemma_ask(exchange::after(talk, q1), q2[0], r2[0]);
    } else {
        assert(q1 + q2 =~= q1);
    }
    exchange::lemma_ask(exchange::after(talk, q1 + q2), q3[0], r3[0]);
}

/// A routine of the engine is called by the action's name, on the document that the debot's
/// function gives, or on the action's description where none is named, with the user's box where the user
/// signs. Then the box is given back, and the result goes to the function that the action names.
/// The debot goes on with the account that this function left.
#[verifier::rlimit(40)]
#[verifier::spinoff_prover]
pub proof fn routine_is_called(
    debot: DebotView,
    talk: Talk,
    act: DActionView,
    getter: Ran,
    signer: Option<u32>,
    result: Seq<char>,
    setter: Seq<char>,
    ran: Ran,
)
    requires
        act.action_type == AcType::CallEngine,
        act.sign_by_user <==> signer is Some,
        act.func == Some(setter),
        exchange::hears(
            talk,
            getter_replies(act.args, getter) + box_reply(signer) + seq![
                ReplyView::Routine(Ok(result)),
            ] + unbox_reply(signer) + ran.replies(),
        ),
    ensures
        ({
            let d1 = after_getter(debot, act.args, getter);
            let args = match (act.args, getter.output) {
                (Some(_), Some(doc)) => json::json_text(doc),
                (Some(_), None) => Seq::empty(),
                (None, _) => act.desc,
            };
            script::handle_action(debot, talk, act) == performed(
                DebotView { state: ran.account, ..debot },
                exchange::after(
                    talk,
                    getter_requests(debot, act.args, None, getter) + box_request(signer) + seq![
                        RequestView::CallRoutine { name: act.name, args, signer },
                    ] + unbox_request(signer) + exchange::running_own(
                        d1,
                        setter,
                        Some(
                            JsonView::Object(
                                Map::<Seq<char>, JsonView>::empty().insert(
                                    "arg1"@,
                                    JsonView::Str(result),
                                ),
                            ),
                        ),
                        ran,
                    ),
                ),
            )
        }),
{
    let d1 = after_getter(debot, act.args, getter);
    let args = match (act.args, getter.output) {
        (Some(_), Some(doc)) => json::json_text(doc),
        (Some(_), None) => Seq::empty(),
        (None, _) => act.desc,
    };
    let handed = Some(
        JsonView::Object(
            Map::<Seq<char>, JsonView>::empty().insert("arg1"@, JsonView::Str(result)),
        ),
    );
    let r1 = getter_replies(act.args, getter);
    let r2 = box_reply(signer);
    let r3 = seq![ReplyView::Routine(Ok(result))];
    let r4 = unbox_reply(signer);
    let r5 = ran.replies();
    let q1 = getter_requests(debot, act.args, None, getter);
    let q2 = box_request(signer);
    let q3 = seq![RequestView::CallRoutine { name: act.name, args, signer }];
    let q4 = unbox_request(signer);
    let q5 = exchange::running_own(d1, setter, handed, ran);
    exchange::lemma_hears_split(talk, r1 + r2 + r3 + r4, r5, q1 + q2 + q3 + q4);
    exchange::lemma_hears_split(talk, r1 + r2 + r3, r4, q1 + q2 + q3);
    exchange::lemma_hears_split(talk, r1 + r2, r3, q1 + q2);
    exchange::lemma_hears_split(talk, r1, r2, q1);
    exchange::lemma_after_join(talk, q1, q2);
    exchange::lemma_after_join(talk, q1 + q2, q3);
    exchange::lemma_after_join(talk, q1 + q2 + q3, q4);
    exchange::lemma_after_join(talk, q1 + q2 + q3 + q4, q5);
    let t1 = exchange::after(talk, q1);
    let t2 = exchange::after(talk, q1 + q2);
    let t3 = exchange::after(talk, q1 + q2 + q3);
    let t4 = exchange::after(talk, q1 + q2 + q3 + q4);
    match act.args {
        Some(g) => exchange::function_runs(debot, talk, g, None, getter),
        None => {
            assert(talk.asked + q1 =~= talk.asked);
        },
    }
    assert(script::routine_args(debot, talk, act) == (d1, t1, Ok::<Seq<char>, StopView>(args)));
    lemma_get_signer(t1, act.sign_by_user, signer);
    exchange::lemma_ask(t2, q3[0], r3[0]);
    lemma_drop_signer(t3, signer);
    assert(script::signed_routine(t1, act.name, args, act.sign_by_user) == (
        t4,
        Ok::<Seq<char>, StopView>(result),
    ));
    exchange::function_runs(d1, t4, setter, handed, ran);
}

/// A routine that fails fails the action with its text, and the signing box is not given back; one
/// whose result goes nowhere fails it after the box was given back.
#[verifier::rlimit(40)]
#[verifier::spinoff_prover]
pub proof fn routine_is_refused(
    debot: DebotView,
    talk: Talk,
    act: DActionView,
    getter: Ran,
    signer: Option<u32>,
    outcome: Result<Seq<char>, Seq<char>>,
)
    requires
        act.action_type == AcType::CallEngine,
        act.sign_by_user <==> signer is Some,
        outcome is Ok ==> act.func is None,
        exchange::hears(
            talk,
            getter_replies(act.args, getter) + box_reply(signer) + seq![
                ReplyView::Routine(outcome),
            ] + (if outcome is Ok {
                unbox_reply(signer)
            } else {
                Seq::empty()
            }),
        ),
    ensures
        ({
            let args = match (act.args, getter.output) {
                (Some(_), Some(doc)) => json::json_text(doc),
                (Some(_), None) => Seq::empty(),
                (None, _) => act.desc,
            };
            script::handle_action(debot, talk, act) == refused(
                after_getter(debot, act.args, getter),
                exchange::after(
                    talk,
                    getter_requests(debot, act.args, None, getter) + box_request(signer) + seq![
                        RequestView::CallRoutine { name: act.name, args, signer },
                    ] + (if outcome is Ok {
                        unbox_request(signer)
                    } else {
                        Seq::empty()
                    }),
                ),
                match outcome {
                    Ok(_) => "routine callback is not specified"@,
                    Err(e) => e,
                },
            )
        }),
{
    let d1 = after_getter(debot, act.args, getter);
    let args = match (act.args, getter.output) {
        (Some(_), Some(doc)) => json::json_text(doc),
        (Some(_), None) => Seq::empty(),
        (None, _) => act.desc,
    };
    let r1 = getter_replies(act.args, getter);
    let r2 = box_reply(signer);
    let r3 = seq![ReplyView::Routine(outcome)];
    let r4: Seq<ReplyView> = if outcome is Ok {
        unbox_reply(signer)
    } else {
        Seq::empty()
    };
    let q1 = getter_requests(debot, act.args, None, getter);
    let q2 = box_request(signer);
    let q3 = seq![RequestView::CallRoutine { name: act.name, args, signer }];
    let q4: Seq<RequestView> = if outcome is Ok {
        unbox_request(signer)
    } else {
        Seq::empty()
    };
    exchange::lemma_hears_split(talk, r1 + r2 + r3, r4, q1 + q2 + q3);
    exchange::lemma_hears_split(talk, r1 + r2, r3, q1 + q2);
    exchange::lemma_hears_split(talk, r1, r2, q1);
    exchange::lemma_after_join(talk, q1, q2);
    exchange::lemma_after_join(talk, q1 + q2, q3);
    exchange::lemma_after_join(talk, q1 + q2 + q3, q4);
    let t1 = exchange::after(talk, q1);
    let t2 = exchange::after(talk, q1 + q2);
    let t3 = exchange::after(talk, q1 + q2 + q3);
    match act.args {
        Some(g) => exchange::function_runs(debot, talk, g, None, getter),
        None => {
            assert(talk.asked + q1 =~= talk.asked);
        },
    }
    assert(script::routine_args(debot, talk, act) == (d1, t1, Ok::<Seq<char>, StopView>(args)));
    lemma_get_signer(t1, act.sign_by_user, signer);
    exchange::lemma_ask(t2, q3[0], r3[0]);
    if outcome is Ok {
        lemma_drop_signer(t3, signer);
    } else {
        assert(q1 + q2 + q3 + q4 =~= q1 + q2 + q3);
    }
}

/// The function of the debot that an action runs first, with its arguments, where it runs one.
pub open spec fn first_run(act: DActionView) -> Option<(Seq<char>, Option<JsonView>)> {
    match act.action_type {
        AcType::RunAction => if cell(act.misc) is Some {
            Some((act.name, cell(act.misc)))
        } else {
            None
        },
        AcType::RunMethod => match act.args {
            Some(getter) => Some((getter, None)),
            None => None,
        },
        AcType::SendMsg => Some((act.name, cell(act.misc))),
        AcType::Invoke => Some((act.name, None)),
        AcType::Print => match act.fargs {
            Some(getter) => Some((getter, cell(act.misc))),
            None => None,
        },
        AcType::CallEngine => match act.args {
            Some(getter) => Some((getter, None)),
            None => None,
        },
        _ => None,
    }
}

/// An action whose first run fails asks nothing beyond it and the words for the error, fails with
/// these words, and leaves the debot as it was. The signing box that a message was to be signed by
/// is not given back.
#[verifier::rlimit(40)]
#[verifier::spinoff_prover]
pub proof fn failed_first_run_fails_action(
    debot: DebotView,
    talk: Talk,
    act: DActionView,
    signer: Option<u32>,
    message: Option<Seq<char>>,
    e: ClientErrorView,
)
    requires
        first_run(act) is Some,
        signer is Some <==> act.action_type == AcType::SendMsg && act.sign_by_user,
        exchange::hears(talk, box_reply(signer) + exchange::failing_replies(message, e)),
    ensures
        ({
            let (func, args) = first_run(act)->0;
            exchange::fails_by(
                script::handle_action(debot, talk, act),
                debot,
                exchange::after(
                    talk,
                    box_request(signer) + exchange::failing_run(
                        debot.state,
                        debot.addr,
                        debot.abi,
                        func,
                        args,
                        message,
                    ),
                ),
                e,
            )
        }),
{
    let (func, args) = first_run(act)->0;
    let failing = exchange::failing_run(
        debot.state,
        debot.addr,
        debot.abi,
        func,
        args,
        message,
    );
    let q1 = box_request(signer);
    exchange::lemma_hears_split(
        talk,
        box_reply(signer),
        exchange::failing_replies(message, e),
        q1,
    );
    exchange::lemma_after_join(talk, q1, failing);
    if act.action_type == AcType::SendMsg {
        lemma_get_signer(talk, act.sign_by_user, signer);
    } else {
        assert(talk.asked + q1 =~= talk.asked);
        assert(q1 + failing =~= failing);
    }
    exchange::function_fails(debot, exchange::after(talk, q1), func, args, message, e);
}

/// A message that is not processed fails the action with the words for the error; the signing box
/// is not given back, and the user is not told of a success.
#[verifier::rlimit(40)]
#[verifier::spinoff_prover]
pub proof fn unprocessed_message_is_refused(
    debot: DebotView,
    talk: Talk,
    act: DActionView,
    signer: Option<u32>,
    ran: Ran,
    prepared: JsonView,
    dest: Seq<char>,
    body: Seq<char>,
    json: Seq<char>,
    call: DecodedBodyView,
    e: ClientErrorView,
)
    requires
        act.action_type == AcType::SendMsg,
        act.sign_by_user <==> signer is Some,
        ran.output == Some(prepared),
        prepared.at("dest"@) == JsonView::Str(dest),
        prepared.at("body"@) == JsonView::Str(body),
        dest != debot.addr ==> debot.target_addr is Some && debot.target_abi is Some,
        exchange::hears(
            talk,
            box_reply(signer) + ran.replies() + interface_replies(debot, dest, json) + seq![
                ReplyView::Body(Ok(call)),
            ] + seq![ReplyView::Processed(Err(e))],
        ),
    ensures
        ({
            let abi = interface_of(debot, dest, json);
            exchange::fails_by(
                script::handle_action(debot, talk, act),
                DebotView { state: ran.account, ..debot },
                exchange::after(
                    talk,
                    box_request(signer) + exchange::running_own(
                        debot,
                        act.name,
                        cell(act.misc),
                        ran,
                    ) + interface_requests(debot, dest) + seq![
                        RequestView::DecodeMessageBody { abi, body, is_internal: true },
                    ] + seq![
                        RequestView::ProcessMessage {
                            encode_params: EncodeView {
                                abi,
                                address: dest,
                                tvc: match prepared.at("state"@) {
                                    JsonView::Str(image) => Some(image),
                                    _ => None,
                                },
                                function_name: call.name,
                                input: call.value,
                                signer,
                            },
                            send_events: true,
                        },
                    ],
                ),
                e,
            )
        }),
{
    let abi = interface_of(debot, dest, json);
    let d = DebotView { state: ran.account, ..debot };
    let image = prepared.at("state"@).as_str();
    let encode_params = EncodeView {
        abi,
        address: dest,
        tvc: image,
        function_name: call.name,
        input: call.value,
        signer,
    };
    let r1 = box_reply(signer);
    let r2 = ran.replies();
    let r3 = interface_replies(debot, dest, json);
    let r4 = seq![ReplyView::Body(Ok(call))];
    let r5 = seq![ReplyView::Processed(Err(e))];
    let q1 = box_request(signer);
    let q2 = exchange::running_own(debot, act.name, cell(act.misc), ran);
    let q3 = interface_requests(debot, dest);
    let q4 = seq![RequestView::DecodeMessageBody { abi, body, is_internal: true }];
    let q5 = seq![RequestView::ProcessMessage { encode_params, send_events: true }];
    exchange::lemma_hears_split(talk, r1 + r2 + r3 + r4, r5, q1 + q2 + q3 + q4);
    exchange::lemma_hears_split(talk, r1 + r2 + r3, r4, q1 + q2 + q3);
    exchange::lemma_hears_split(talk, r1 + r2, r3, q1 + q2);
    exchange::lemma_hears_split(talk, r1, r2, q1);
    exchange::lemma_after_join(talk, q1, q2);
    exchange::lemma_after_join(talk, q1 + q2, q3);
    exchange::lemma_after_join(talk, q1 + q2 + q3, q4);
    exchange::lemma_after_join(talk, q1 + q2 + q3 + q4, q5);
    let t1 = exchange::after(talk, q1);
    let t2 = exchange::after(talk, q1 + q2);
    let t3 = exchange::after(talk, q1 + q2 + q3);
    let t4 = exchange::after(talk, q1 + q2 + q3 + q4);
    let t5 = exchange::after(talk, q1 + q2 + q3 + q4 + q5);
    lemma_get_signer(talk, act.sign_by_user, signer);
    exchange::function_runs(debot, t1, act.name, cell(act.misc), ran);
    message_read_by_its_interface(d, t2, dest, json);
    exchange::lemma_ask(t3, q4[0], r4[0]);
    exchange::lemma_ask(t4, q5[0], r5[0]);
    let body_sent = script::send_body(d, t3, dest, abi, body, signer, image);
    assert(exchange::fails_by((d, body_sent.0, body_sent.1), d, t5, e));
    let sent = script::run_sendmsg(debot, t1, act.name, cell(act.misc), signer);
    assert(sent == (d, body_sent.0, body_sent.1));
}

/// A user who refuses to sign refuses the routine, before it is called.
pub proof fn refused_box_refuses_routine(
    debot: DebotView,
    talk: Talk,
    act: DActionView,
    error: Seq<char>,
)
    requires
        act.action_type == AcType::CallEngine,
        act.sign_by_user,
        act.args is None,
        exchange::hears(talk, seq![ReplyView::SigningBox(Err(error))]),
    ensures
        script::handle_action(debot, talk, act) == refused(
            debot,
            exchange::after(talk, seq![RequestView::GetSigningBox]),
            error,
        ),
{
    exchange::lemma_ask(talk, RequestView::GetSigningBox, ReplyView::SigningBox(Err(error)));
}

/// A function that is to take the result of a routine and fails fails the action with the words for
/// its error.
pub proof fn untaken_result_is_refused(
    debot: DebotView,
    talk: Talk,
    act: DActionView,
    signer: Option<u32>,
    result: Seq<char>,
    setter: Seq<char>,
    message: Option<Seq<char>>,
    e: ClientErrorView,
)
    requires
        act.action_type == AcType::CallEngine,
        act.sign_by_user <==> signer is Some,
        act.args is None,
        act.func == Some(setter),
        exchange::hears(
            talk,
            box_reply(signer) + seq![ReplyView::Routine(Ok(result))] + unbox_reply(signer)
                + exchange::failing_replies(message, e),
        ),
    ensures
        exchange::fails_by(
            script::handle_action(debot, talk, act),
            debot,
            exchange::after(
                talk,
                box_request(signer) + seq![
                    RequestView::CallRoutine { name: act.name, args: act.desc, signer },
                ] + unbox_request(signer) + exchange::failing_run(
                    debot.state,
                    debot.addr,
                    debot.abi,
                    setter,
                    Some(
                        JsonView::Object(
                            Map::<Seq<char>, JsonView>::empty().insert(
                                "arg1"@,
                                JsonView::Str(result),
                            ),
                        ),
                    ),
                    message,
                ),
            ),
            e,
        ),
{
    let handed = Some(
        JsonView::Object(
            Map::<Seq<char>, JsonView>::empty().insert("arg1"@, JsonView::Str(result)),
        ),
    );
    let r1 = box_reply(signer);
    let r2 = seq![ReplyView::Routine(Ok(result))];
    let r3 = unbox_reply(signer);
    let r4 = exchange::failing_replies(message, e);
    let q1 = box_request(signer);
    let q2 = seq![RequestView::CallRoutine { name: act.name, args: act.desc, signer }];
    let q3 = unbox_request(signer);
    let q4 = exchange::failing_run(
        debot.state,
        debot.addr,
        debot.abi,
        setter,
        handed,
        message,
    );
    exchange::lemma_hears_split(talk, r1 + r2 + r3, r4, q1 + q2 + q3);
    exchange::lemma_hears_split(talk, r1 + r2, r3, q1 + q2);
    exchange::lemma_hears_split(talk, r1, r2, q1);
    exchange::lemma_after_join(talk, q1, q2);
    exchange::lemma_after_join(talk, q1 + q2, q3);
    exchange::lemma_after_join(talk, q1 + q2 + q3, q4);
    lemma_get_signer(talk, act.sign_by_user, signer);
    exchange::lemma_ask(exchange::after(talk, q1), q2[0], r2[0]);
    lemma_drop_signer(exchange::after(talk, q1 + q2), signer);
    let t3 = exchange::after(talk, q1 + q2 + q3);
    assert(script::signed_routine(talk, act.name, act.desc, act.sign_by_user) == (
        t3,
        Ok::<Seq<char>, StopView>(result),
    ));
    exchange::function_fails(debot, t3, setter, handed, message, e);
}

/// A get-method that fails on the target fails the action with the words for its error, and the
/// debot's function for the result is not run.
pub proof fn failed_get_method_is_refused(
    debot: DebotView,
    talk: Talk,
    act: DActionView,
    func: Seq<char>,
    options: Options,
    target: Seq<char>,
    target_text: Seq<char>,
    target_json: Seq<char>,
    found: Seq<JsonView>,
    boc: Seq<char>,
    message: Option<Seq<char>>,
    e: ClientErrorView,
)
    requires
        act.action_type == AcType::RunMethod,
        act.func == Some(func),
        act.args is None,
        options.given(),
        options.taken(debot).target_addr == Some(target),
        options.taken(debot).target_abi == Some(target_text),
        found.len() > 0,
        found[0].at("boc"@) == JsonView::Str(boc),
        exchange::hears(
            talk,
            options.replies() + seq![ReplyView::Abi(Ok(target_json))] + (seq![
                ReplyView::Collection(Ok(found)),
            ] + exchange::failing_replies(message, e)),
        ),
    ensures
        exchange::fails_by(
            script::handle_action(debot, talk, act),
            options.taken(debot),
            exchange::after(
                talk,
                options.requests(debot) + seq![RequestView::ParseAbi(target_text)] + (seq![
                    exchange::account_query(target),
                ] + exchange::failing_run(
                    boc,
                    target,
                    AbiView { json: target_json },
                    func,
                    None,
                    message,
                )),
            ),
            e,
        ),
{
    let d2 = options.taken(debot);
    let target_abi = AbiView { json: target_json };
    let r2 = options.replies();
    let r3 = seq![ReplyView::Abi(Ok(target_json))];
    let r4 = seq![ReplyView::Collection(Ok(found))] + exchange::failing_replies(message, e);
    let q2 = options.requests(debot);
    let q3 = seq![RequestView::ParseAbi(target_text)];
    let q4 = seq![exchange::account_query(target)] + exchange::failing_run(
        boc,
        target,
        target_abi,
        func,
        None,
        message,
    );
    exchange::lemma_hears_split(talk, r2 + r3, r4, q2 + q3);
    exchange::lemma_hears_split(talk, r2, r3, q2);
    exchange::lemma_after_join(talk, q2, q3);
    exchange::lemma_after_join(talk, q2 + q3, q4);
    let t2 = exchange::after(talk, q2);
    let t3 = exchange::after(talk, q2 + q3);
    loading::options_are_taken_over(debot, talk, options);
    exchange::lemma_ask(t2, q3[0], r3[0]);
    assert(script::get_target(d2, t2) == (
        t3,
        Ok::<(Seq<char>, AbiView), StopView>((target, target_abi)),
    ));
    exchange::foreign_function_fails(
        d2,
        t3,
        target,
        target_abi,
        func,
        None,
        found,
        boc,
        message,
        e,
    );
}

/// A debot's function for the result of a get-method that fails fails the action with the words for
/// its error.
#[verifier::rlimit(40)]
#[verifier::spinoff_prover]
pub proof fn unhandled_result_is_refused(
    debot: DebotView,
    talk: Talk,
    act: DActionView,
    func: Seq<char>,
    options: Options,
    target: Seq<char>,
    target_text: Seq<char>,
    target_json: Seq<char>,
    found: Seq<JsonView>,
    boc: Seq<char>,
    got: Ran,
    message: Option<Seq<char>>,
    e: ClientErrorView,
)
    requires
        act.action_type == AcType::RunMethod,
        act.func == Some(func),
        act.args is None,
        options.given(),
        options.taken(debot).target_addr == Some(target),
        options.taken(debot).target_abi == Some(target_text),
        found.len() > 0,
        found[0].at("boc"@) == JsonView::Str(boc),
        exchange::hears(
            talk,
            options.replies() + seq![ReplyView::Abi(Ok(target_json))] + (seq![
                ReplyView::Collection(Ok(found)),
            ] + got.replies()) + exchange::failing_replies(message, e),
        ),
    ensures
        ({
            let d2 = options.taken(debot);
            exchange::fails_by(
                script::handle_action(debot, talk, act),
                d2,
                exchange::after(
                    talk,
                    options.requests(debot) + seq![RequestView::ParseAbi(target_text)] + (seq![
                        exchange::account_query(target),
                    ] + exchange::running(
                        boc,
                        target,
                        AbiView { json: target_json },
                        func,
                        None,
                        got.message,
                    )) + exchange::failing_run(
                        d2.state,
                        d2.addr,
                        d2.abi,
                        act.name,
                        Some(got.document()),
                        message,
                    ),
                ),
                e,
            )
        }),
{
    let d2 = options.taken(debot);
    let target_abi = AbiView { json: target_json };
    let r2 = options.replies();
    let r3 = seq![ReplyView::Abi(Ok(target_json))];
    let r4 = seq![ReplyView::Collection(Ok(found))] + got.replies();
    let r5 = exchange::failing_replies(message, e);
    let q2 = options.requests(debot);
    let q3 = seq![RequestView::ParseAbi(target_text)];
    let q4 = seq![exchange::account_query(target)] + exchange::running(
        boc,
        target,
        target_abi,
        func,
        None,
        got.message,
    );
    let q5 = exchange::failing_run(
        d2.state,
        d2.addr,
        d2.abi,
        act.name,
        Some(got.document()),
        message,
    );
    exchange::lemma_hears_split(talk, r2 + r3 + r4, r5, q2 + q3 + q4);
    exchange::lemma_hears_split(talk, r2 + r3, r4, q2 + q3);
    exchange::lemma_hears_split(talk, r2, r3, q2);
    exchange::lemma_after_join(talk, q2, q3);
    exchange::lemma_after_join(talk, q2 + q3, q4);
    exchange::lemma_after_join(talk, q2 + q3 + q4, q5);
    let t2 = exchange::after(talk, q2);
    let t3 = exchange::after(talk, q2 + q3);
    let t4 = exchange::after(talk, q2 + q3 + q4);
    loading::options_are_taken_over(debot, talk, options);
    exchange::lemma_ask(t2, q3[0], r3[0]);
    assert(script::get_target(d2, t2) == (
        t3,
        Ok::<(Seq<char>, AbiView), StopView>((target, target_abi)),
    ));
    exchange::foreign_function_runs(d2, t3, target, target_abi, func, None, found, boc, got);
    exchange::function_fails(d2, t4, act.name, Some(got.document()), message, e);
}

/// A target whose interface does not parse is refused in the words of the parser.
pub proof fn unparsed_target_is_refused(
    debot: DebotView,
    talk: Talk,
    addr: Seq<char>,
    interface: Seq<char>,
    error: Seq<char>,
)
    requires
        debot.target_addr == Some(addr),
        debot.target_abi == Some(interface),
        exchange::hears(talk, seq![ReplyView::Abi(Err(error))]),
    ensures
        script::get_target(debot, talk) == (
            exchange::after(talk, seq![RequestView::ParseAbi(interface)]),
            Err::<(Seq<char>, AbiView), StopView>(
                StopView::Failed("failed to parse abi: "@ + error),
            ),
        ),
{
    exchange::lemma_ask(talk, RequestView::ParseAbi(interface), ReplyView::Abi(Err(error)));
}

/// A message to a target whose interface does not parse is refused in the words of the parser: it
/// is not read by another interface.
pub proof fn message_needs_target_interface(
    debot: DebotView,
    talk: Talk,
    act: DActionView,
    ran: Ran,
    prepared: JsonView,
    dest: Seq<char>,
    body: Seq<char>,
    error: Seq<char>,
)
    requires
        act.action_type == AcType::SendMsg,
        !act.sign_by_user,
        ran.output == Some(prepared),
        prepared.at("dest"@) == JsonView::Str(dest),
        prepared.at("body"@) == JsonView::Str(body),
        dest != debot.addr,
        debot.target_addr is Some,
        debot.target_abi is Some,
        exchange::hears(talk, ran.replies() + seq![ReplyView::Abi(Err(error))]),
    ensures
        script::handle_action(debot, talk, act) == refused(
            DebotView { state: ran.account, ..debot },
            exchange::after(
                talk,
                exchange::running_own(debot, act.name, cell(act.misc), ran) + seq![
                    RequestView::ParseAbi(debot.target_abi->0),
                ],
            ),
            "failed to parse abi: "@ + error,
        ),
{
    let d = DebotView { state: ran.account, ..debot };
    let q1 = exchange::running_own(debot, act.name, cell(act.misc), ran);
    let q2 = seq![RequestView::ParseAbi(debot.target_abi->0)];
    let r2 = seq![ReplyView::Abi(Err(error))];
    exchange::lemma_hears_split(talk, ran.replies(), r2, q1);
    exchange::lemma_after_join(talk, q1, q2);
    exchange::function_runs(debot, talk, act.name, cell(act.misc), ran);
    unparsed_target_is_refused(
        d,
        exchange::after(talk, q1),
        debot.target_addr->0,
        debot.target_abi->0,
        error,
    );
}

/// A get-method on a target whose interface does not parse is refused in the words of the parser.
pub proof fn get_method_needs_target_interface(
    debot: DebotView,
    talk: Talk,
    act: DActionView,
    func: Seq<char>,
    options: Options,
    error: Seq<char>,
)
    requires
        act.action_type == AcType::RunMethod,
        act.func == Some(func),
        act.args is None,
        options.given(),
        options.taken(debot).target_addr is Some,
        options.taken(debot).target_abi is Some,
        exchange::hears(talk, options.replies() + seq![ReplyView::Abi(Err(error))]),
    ensures
        script::handle_action(debot, talk, act) == refused(
            options.taken(debot),
            exchange::after(
                talk,
                options.requests(debot) + seq![
                    RequestView::ParseAbi(options.taken(debot).target_abi->0),
                ],
            ),
            "failed to parse abi: "@ + error,
        ),
{
    let d = options.taken(debot);
    let q1 = options.requests(debot);
    let q2 = seq![RequestView::ParseAbi(d.target_abi->0)];
    let r2 = seq![ReplyView::Abi(Err(error))];
    exchange::lemma_hears_split(talk, options.replies(), r2, q1);
    exchange::lemma_after_join(talk, q1, q2);
    loading::options_are_taken_over(debot, talk, options);
    unparsed_target_is_refused(
        d,
        exchange::after(talk, q1),
        d.target_addr->0,
        d.target_abi->0,
        error,
    );
}

/// A get-method whose debot cannot be asked for its options fails as the client shows the error.
pub proof fn get_method_needs_options(
    debot: DebotView,
    talk: Talk,
    act: DActionView,
    func: Seq<char>,
    message: Option<Seq<char>>,
    e: ClientErrorView,
)
    requires
        act.action_type == AcType::RunMethod,
        act.func == Some(func),
        act.args is None,
        exchange::hears(talk, exchange::failing_replies(message, e)),
    ensures
        script::handle_action(debot, talk, act) == refused(
            debot,
            exchange::after(
                talk,
                exchange::failing_run(
                    debot.state,
                    debot.addr,
                    debot.abi,
                    "getDebotOptions"@,
                    None,
                    message,
                ),
            ),
            e.display,
        ),
{
    loading::options_and_contexts_fail(debot, talk, message, e);
}

/// An action that fails on what the user typed fails with the words for the error.
pub proof fn action_with_inputs_fails(
    debot: DebotView,
    talk: Talk,
    act: DActionView,
    abi_json: JsonView,
    inputs: Seq<JsonView>,
    message: Option<Seq<char>>,
    e: ClientErrorView,
)
    requires
        act.action_type == AcType::RunAction,
        cell(act.misc) is None,
        json::json_parse(debot.abi.json) == Ok::<JsonView, Seq<char>>(abi_json),
        abi::inputs_of(abi_json, act.name) == Ok::<Option<Seq<JsonView>>, ()>(Some(inputs)),
        script::ask_inputs(talk, inputs, Map::empty()).1 is Ok,
        exchange::hears(
            script::ask_inputs(talk, inputs, Map::empty()).0,
            exchange::failing_replies(message, e),
        ),
    ensures
        ({
            let (on, args) = script::ask_inputs(talk, inputs, Map::empty());
            exchange::fails_by(
                script::handle_action(debot, talk, act),
                debot,
                exchange::after(
                    on,
                    exchange::failing_run(
                        debot.state,
                        debot.addr,
                        debot.abi,
                        act.name,
                        Some(args->Ok_0),
                        message,
                    ),
                ),
                e,
            )
        }),
{
    let (on, args) = script::ask_inputs(talk, inputs, Map::empty());
    exchange::function_fails(debot, on, act.name, Some(args->Ok_0), message, e);
}

/// An interface of the debot that is no document, or that is malformed, breaks the rules for an
/// action without a cell.
pub proof fn malformed_interface_is_a_fault(debot: DebotView, talk: Talk, act: DActionView)
    requires
        act.action_type == AcType::RunAction,
        cell(act.misc) is None,
        json::json_parse(debot.abi.json) matches Ok(abi_json) ==> abi::inputs_of(
            abi_json,
            act.name,
        ) is Err,
    ensures
        script::handle_action(debot, talk, act) == (
            debot,
            talk,
            Err::<Option<Seq<DActionView>>, StopView>(StopView::Fault),
        ),
{
}

/// What a function of the debot has to give for an action and does not breaks the rules.
pub proof fn malformed_output_is_a_fault(debot: DebotView, talk: Talk, act: DActionView, ran: Ran)
    requires
        exchange::hears(talk, ran.replies()),
        ran.output is Some,
        match act.action_type {
            AcType::RunAction => cell(act.misc) is Some && !(ran.document() is Object) && !(
            ran.document() is Null),
            AcType::SendMsg => !act.sign_by_user && (!(ran.document().at("dest"@) is Str)
                || !(ran.document().at("body"@) is Str)),
            AcType::Invoke => !(ran.document().at("debot"@) is Str),
            AcType::RunMethod => act.args is Some && act.func is None,
            _ => false,
        },
    ensures
        ({
            let done = script::handle_action(debot, talk, act);
            &&& done.0 == DebotView { state: ran.account, ..debot }
            &&& done.2 == Err::<Option<Seq<DActionView>>, StopView>(StopView::Fault)
        }),
{
    if act.action_type == AcType::RunMethod {
        exchange::function_runs(debot, talk, act.args->0, None, ran);
    } else if act.action_type == AcType::Invoke {
        exchange::function_runs(debot, talk, act.name, None, ran);
    } else {
        exchange::function_runs(debot, talk, act.name, cell(act.misc), ran);
    }
}

/// An invocation whose action cannot be read breaks the rules.
pub proof fn unread_action_is_a_fault(
    debot: DebotView,
    talk: Talk,
    act: DActionView,
    ran: Ran,
    addr: Seq<char>,
)
    requires
        act.action_type == AcType::Invoke,
        ran.output is Some,
        ran.document().at("debot"@) == JsonView::Str(addr),
        exchange::hears(talk, ran.replies() + seq![ReplyView::Action(None)]),
    ensures
        script::handle_action(debot, talk, act).2 == Err::<Option<Seq<DActionView>>, StopView>(
            StopView::Fault,
        ),
{
    let q1 = exchange::running_own(debot, act.name, None, ran);
    let r2 = seq![ReplyView::Action(None)];
    exchange::lemma_hears_split(talk, ran.replies(), r2, q1);
    exchange::function_runs(debot, talk, act.name, None, ran);
    exchange::lemma_ask(
        exchange::after(talk, q1),
        RequestView::ParseAction(ran.document().at("action"@)),
        r2[0],
    );
}

/// A get-method that names no function to run breaks the rules.
pub proof fn nameless_get_method_is_a_fault(debot: DebotView, talk: Talk, act: DActionView)
    requires
        act.action_type == AcType::RunMethod,
        act.args is None,
        act.func is None,
    ensures
        script::handle_action(debot, talk, act) == (
            debot,
            talk,
            Err::<Option<Seq<DActionView>>, StopView>(StopView::Fault),
        ),
{
}

/// An action of any type that is performed leads on to the context that it names: an ordinary one
/// other than the debot's own is told at once, and the context that the debot was in is then the
/// previous one.
pub proof fn performed_action_leads_on(
    debot: DebotView,
    talk: Talk,
    act: DActionView,
)
    requires
        script::handle_action(debot, talk, act).2 is Ok,
        act.to != 253,
        act.to != 254,
        act.to != 255,
        act.to != debot.curr_state,
    ensures
        ({
            let (left, on, _) = script::handle_action(debot, talk, act);
            let (after, told, _) = script::execute_action(debot, talk, act);
            &&& turns::asked_on(on, told)
            &&& told.asked.len() > on.asked.len()
            &&& told.asked[on.asked.len() as int] == match context::context_with(
                debot.state_machine,
                act.to,
            ) {
                Some(_) => RequestView::Switch(act.to),
                None => RequestView::Log(
                    "Debot context #"@ + text::decimal_text(act.to as nat) + " not found. Exit."@,
                ),
            }
            &&& after.prev_state == debot.curr_state
            &&& context::context_with(debot.state_machine, act.to) is None ==> after
                == DebotView { prev_state: debot.curr_state, curr_state: act.to, ..left }
        }),
{
    laws::action_stays_in_place(debot, talk, act);
    let (left, on, _) = script::handle_action(debot, talk, act);
    laws::ordinary_switch_enters(left, on, act.to);
    laws::ordinary_switch_to_missing(left, on, act.to);
}

/// Where the context that a performed action names has only actions for the user to choose from,
/// the debot ends up in it, and the context is shown as a whole.
pub proof fn performed_action_ends_in_context(
    debot: DebotView,
    talk: Talk,
    act: DActionView,
    ctx: DContextView,
)
    requires
        script::handle_action(debot, talk, act).2 is Ok,
        act.to != 253,
        act.to != 254,
        act.to != 255,
        act.to != debot.curr_state,
        context::context_with(debot.state_machine, act.to) == Some(ctx),
        forall|i: int|
            0 <= i < ctx.actions.len() ==> laws::plain(#[trigger] ctx.actions[i]),
        laws::hears_done(
            script::handle_action(debot, talk, act).1,
            ctx.actions.len() + 2,
        ),
    ensures
        ({
            let (left, on, _) = script::handle_action(debot, talk, act);
            script::execute_action(debot, talk, act) == (
                DebotView { prev_state: debot.curr_state, curr_state: act.to, ..left },
                exchange::after(
                    on,
                    seq![RequestView::Switch(act.to), RequestView::Log(ctx.desc)] + laws::offers(
                        ctx.actions,
                    ),
                ),
                Ok::<(), StopView>(()),
            )
        }),
{
    laws::action_stays_in_place(debot, talk, act);
    let (left, on, _) = script::handle_action(debot, talk, act);
    laws::plain_switch(left, on, act.to, ctx);
}

/// An action of any type that is performed and leads to the end tells the user so; one that leads
/// to the debot's own context asks nothing more. Either way the debot stays where it is.
pub proof fn performed_action_stays_or_ends(
    debot: DebotView,
    talk: Talk,
    act: DActionView,
)
    requires
        script::handle_action(debot, talk, act).2 is Ok,
        act.to == 255 || (debot.curr_state != 255 && debot.curr_state != 254 && (act.to == 253
            || act.to == debot.curr_state)),
    ensures
        ({
            let (left, on, _) = script::handle_action(debot, talk, act);
            let (after, told, _) = script::execute_action(debot, talk, act);
            &&& after == left
            &&& told.asked == if act.to == 255 {
                on.asked.push(RequestView::Switch(255))
            } else {
                on.asked
            }
        }),
{
    laws::action_stays_in_place(debot, talk, act);
}

/// An action of any type that is performed and leads back is followed by the context that the debot
/// came from, as if the action had named it.
pub proof fn performed_action_leads_back(
    debot: DebotView,
    talk: Talk,
    act: DActionView,
)
    requires
        script::handle_action(debot, talk, act).2 is Ok,
        act.to == 254,
        debot.prev_state != 253,
        debot.prev_state != 254,
        debot.prev_state != 255,
        debot.prev_state != debot.curr_state,
    ensures
        ({
            let (left, on, _) = script::handle_action(debot, talk, act);
            let (after, told, _) = script::execute_action(debot, talk, act);
            &&& turns::asked_on(on, told)
            &&& told.asked.len() > on.asked.len()
            &&& told.asked[on.asked.len() as int] == match context::context_with(
                debot.state_machine,
                debot.prev_state,
            ) {
                Some(_) => RequestView::Switch(debot.prev_state),
                None => RequestView::Log(
                    "Debot context #"@ + text::decimal_text(debot.prev_state as nat)
                        + " not found. Exit."@,
                ),
            }
            &&& after.prev_state == debot.curr_state
        }),
{
    laws::action_stays_in_place(debot, talk, act);
    let (left, on, _) = script::handle_action(debot, talk, act);
    laws::ordinary_switch_enters(left, on, debot.prev_state);
}

/// An action of any type that fails with a text is reported with that text, and then the debot goes
/// back: an ordinary previous context is told next, and the context that the debot was in is then
/// the previous one.
pub proof fn failed_action_leads_back(
    debot: DebotView,
    talk: Talk,
    act: DActionView,
    error: Seq<char>,
)
    requires
        script::handle_action(debot, talk, act).2 == Err::<Option<Seq<DActionView>>, StopView>(
            StopView::Failed(error),
        ),
        exchange::hears(script::handle_action(debot, talk, act).1, seq![ReplyView::Done]),
        debot.prev_state != 253,
        debot.prev_state != 254,
        debot.prev_state != 255,
        debot.prev_state != debot.curr_state,
    ensures
        ({
            let (left, on, _) = script::handle_action(debot, talk, act);
            let (after, told, _) = script::execute_action(debot, talk, act);
            let n = on.asked.len() as int;
            &&& turns::asked_on(on, told)
            &&& told.asked.len() > n + 1
            &&& told.asked[n] == RequestView::Log(
                "Action failed: "@ + error + ". Return to previous state.\n"@,
            )
            &&& told.asked[n + 1] == match context::context_with(
                debot.state_machine,
                debot.prev_state,
            ) {
                Some(_) => RequestView::Switch(debot.prev_state),
                None => RequestView::Log(
                    "Debot context #"@ + text::decimal_text(debot.prev_state as nat)
                        + " not found. Exit."@,
                ),
            }
            &&& after.prev_state == debot.curr_state
        }),
{
    laws::action_stays_in_place(debot, talk, act);
    let (left, on, _) = script::handle_action(debot, talk, act);
    let log = RequestView::Log("Action failed: "@ + error + ". Return to previous state.\n"@);
    exchange::lemma_ask(on, log, ReplyView::Done);
    laws::ordinary_switch_enters(left, exchange::after(on, seq![log]), debot.prev_state);
}

} // verus!
