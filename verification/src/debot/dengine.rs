//! The debot engine: it loads a debot, performs its actions and leads the user through its
//! contexts.

use crate::client::{create_client, ClientError, ClientErrorView, TonClient};
use crate::debot::abi;
use crate::debot::abi::{find_inputs, Abi, AbiView};
use crate::debot::action::{AcType, DAction};
use crate::debot::context::{
    find_context, DContext, STATE_CURRENT, STATE_EXIT, STATE_PREV, STATE_ZERO,
};
use crate::debot::dialogue;
use crate::debot::dialogue::{
    Dialogue, ParamsOfEncodeMessage, Reply, Request, Stop, StopView,
};
use crate::debot::script;
use crate::debot::script::{
    DebotView, RunOutputView, CONTRACT_EXECUTION_ERROR, EMPTY_CELL, OPTION_ABI, OPTION_TARGET_ABI,
    OPTION_TARGET_ADDR,
};
use crate::debot::turns;
use crate::json;
use crate::json::Json;
use crate::text;
use std::collections::VecDeque;
use vstd::prelude::*;
use vstd::string::StringExecFns;

verus! {

/// What a run of a function came to.
#[derive(Debug)]
pub struct RunOutput {
    pub account: String,
    pub msgs: Vec<String>,
    pub output: Option<Json>,
}

impl DeepView for RunOutput {
    type V = RunOutputView;

    open spec fn deep_view(&self) -> RunOutputView {
        RunOutputView {
            account: self.account@,
            msgs: self.msgs.deep_view(),
            output: self.output.deep_view(),
        }
    }
}

impl RunOutput {
    pub fn new(account: String, msgs: Vec<String>, output: Option<Json>) -> (r: RunOutput)
        ensures
            r.deep_view() == (RunOutputView {
                account: account@,
                msgs: msgs.deep_view(),
                output: output.deep_view(),
            }),
    {
        RunOutput { account, msgs, output }
    }
}

/// The address of a contract in the form that the client takes.
pub fn load_ton_address(addr: &str) -> (r: Result<String, String>)
    ensures
        r matches Ok(a) && a@ == addr@,
{
    Ok(addr.to_owned())
}

/// Debot engine. Downloads and stores a debot, performs its actions and calls the browser.
#[derive(Debug)]
pub struct DEngine {
    abi: Abi,
    addr: String,
    ton: TonClient,
    state: String,
    state_machine: Vec<DContext>,
    curr_state: u8,
    prev_state: u8,
    target_addr: Option<String>,
    target_abi: Option<String>,
}

impl DeepView for DEngine {
    type V = DebotView;

    closed spec fn deep_view(&self) -> DebotView {
        DebotView {
            abi: self.abi.deep_view(),
            addr: self.addr@,
            server: self.ton.server_address@,
            state: self.state@,
            state_machine: self.state_machine.deep_view(),
            curr_state: self.curr_state,
            prev_state: self.prev_state,
            target_addr: self.target_addr.deep_view(),
            target_abi: self.target_abi.deep_view(),
        }
    }
}

impl Clone for DEngine {
    fn clone(&self) -> (r: Self)
        ensures
            r.deep_view() == self.deep_view(),
    {
        let state_machine: Vec<DContext> = self.state_machine.clone();
        assert(state_machine.deep_view() =~= self.state_machine.deep_view());
        DEngine {
            abi: self.abi.clone(),
            addr: self.addr.clone(),
            ton: self.ton.clone(),
            state: self.state.clone(),
            state_machine,
            curr_state: self.curr_state,
            prev_state: self.prev_state,
            target_addr: self.target_addr.clone(),
            target_abi: self.target_abi.clone(),
        }
    }
}

/// The outcome of a run, by what its values stand for.
pub open spec fn run_view(r: Result<Result<RunOutput, ClientError>, Stop>) -> Result<
    Result<RunOutputView, ClientErrorView>,
    StopView,
> {
    match r {
        Ok(inner) => Ok(dialogue::result_view(inner)),
        Err(stop) => Err(stop.deep_view()),
    }
}

/// The arguments that hold the cell of an action, unless the cell is empty.
fn misc_args(misc: &str) -> (r: Option<Json>)
    ensures
        r.deep_view() == script::misc_args(misc@),
{
    if !text::same(misc, EMPTY_CELL) {
        Some(Json::object("misc", Json::Str(misc.to_owned())))
    } else {
        None
    }
}

/// The output of a run, an empty object where it has none.
fn or_empty(output: Option<Json>) -> (r: Json)
    ensures
        r.deep_view() == script::or_empty(output.deep_view()),
{
    match output {
        Some(doc) => doc,
        None => Json::empty_object(),
    }
}

/// Puts copies of some actions behind the queued ones.
fn push_all(queue: &mut VecDeque<DAction>, actions: &Vec<DAction>)
    ensures
        final(queue).deep_view() == old(queue).deep_view() + actions.deep_view(),
{
    let mut i: usize = 0;
    let ghost before = queue.deep_view();
    assert(queue.deep_view() =~= before + actions.deep_view().take(0));
    while i < actions.len()
        invariant
            i <= actions@.len(),
            before == old(queue).deep_view(),
            queue.deep_view() == before + actions.deep_view().take(i as int),
        decreases actions@.len() - i,
    {
        let ghost so_far = queue.deep_view();
        queue.push_back(actions[i].clone());
        i += 1;
        proof {
            assert(queue.deep_view() =~= so_far.push(actions@[i - 1].deep_view()));
            assert(queue.deep_view() =~= before + actions.deep_view().take(i as int));
        }
    }
    assert(actions.deep_view().take(i as int) =~= actions.deep_view());
}

/// The greeting of a debot: its name, and the three bytes of its version.
fn greeting(name: &str, ver: u32) -> (r: String)
    ensures
        r@ == script::greeting(name@, ver),
{
    proof {
        assert((ver >> 16) as u8 == (ver / 65536) % 256) by (bit_vector);
        assert((ver >> 8) as u8 == (ver / 256) % 256) by (bit_vector);
        assert(ver as u8 == ver % 256) by (bit_vector);
    }
    let mut s: String = text::join(name, ", version ");
    s.append(&text::decimal((ver >> 16) as u8));
    s.append(".");
    s.append(&text::decimal((ver >> 8) as u8));
    s.append(".");
    s.append(&text::decimal(ver as u8));
    s
}

/// Asks the user for one argument after the other.
fn ask_inputs(talk: &mut Dialogue, arguments: &Vec<Json>) -> (r: Result<Json, Stop>)
    ensures
        (final(talk).deep_view(), dialogue::result_view(r)) == script::ask_inputs(
            old(talk).deep_view(),
            json::items_model(arguments@),
            Map::empty(),
        ),
{
    let ghost inputs = json::items_model(arguments@);
    let ghost goal = script::ask_inputs(talk.deep_view(), inputs, Map::empty());
    proof {
        json::lemma_items_model(arguments@);
    }
    let mut args_json = Json::empty_object();
    let mut i: usize = 0;
    assert(inputs.skip(0) =~= inputs);
    while i < arguments.len()
        invariant
            i <= arguments@.len(),
            inputs == json::items_model(arguments@),
            inputs.len() == arguments@.len(),
            forall|k: int|
                0 <= k < arguments@.len() ==> #[trigger] inputs[k] == arguments@[k].model(),
            args_json.deep_view() is Object,
            goal == script::ask_inputs(old(talk).deep_view(), inputs, Map::empty()),
            goal == script::ask_inputs(
                talk.deep_view(),
                inputs.skip(i as int),
                args_json.deep_view()->Object_0,
            ),
        decreases arguments@.len() - i,
    {
        let arg = &arguments[i];
        assert(inputs[i as int] == arg.deep_view());
        assert(inputs.skip(i as int).drop_first() =~= inputs.skip(i + 1));
        let arg_name: String = match arg.get_str("name") {
            Some(name) => name,
            None => {
                return Err(Stop::Fault);
            },
        };
        let mut value: String = match talk.ask(Request::Input("".to_owned()))? {
            Reply::Text(value) => value,
            _ => {
                return Err(Stop::Fault);
            },
        };
        match arg.get_str("type") {
            Some(param_type) => {
                if text::same(&param_type, "bytes") {
                    value = text::hex_encode(value.as_str().as_bytes());
                }
            },
            None => {
                return Err(Stop::Fault);
            },
        }
        args_json = args_json.with(&arg_name, Json::Str(value));
        i += 1;
    }
    Ok(args_json)
}

/// Asks the user for the arguments of the function with a name in an interface.
pub fn query_inputs(talk: &mut Dialogue, abi_json: &Json, name: &str) -> (r: Result<Json, Stop>)
    ensures
        (final(talk).deep_view(), dialogue::result_view(r)) == script::query_inputs(
            old(talk).deep_view(),
            abi_json.deep_view(),
            name@,
        ),
{
    match find_inputs(abi_json, name) {
        Ok(Some(arguments)) => ask_inputs(talk, arguments),
        Ok(None) => Err(Stop::Failed("action not found".to_owned())),
        Err(()) => Err(Stop::Fault),
    }
}

/// Loads an interface from its text.
fn load_abi(talk: &mut Dialogue, abi: &str) -> (r: Result<Abi, Stop>)
    ensures
        (final(talk).deep_view(), dialogue::result_view(r)) == script::load_abi(
            old(talk).deep_view(),
            abi@,
        ),
{
    match talk.ask(Request::ParseAbi(abi.to_owned()))? {
        Reply::Abi(parsed) => match abi::load_abi(parsed) {
            Ok(abi) => Ok(abi),
            Err(e) => Err(Stop::Failed(e)),
        },
        _ => Err(Stop::Fault),
    }
}

/// What came of parsing the interface that a debot is loaded with: the one given, else the common
/// one of all debots.
pub open spec fn chosen_abi(
    abi: Option<Result<String, String>>,
    debot_abi: Result<String, String>,
) -> Result<String, String> {
    match abi {
        Some(parsed) => parsed,
        None => debot_abi,
    }
}

/// The interface that is given goes before the common one, which counts only where none is given.
pub proof fn given_interface_goes_first(
    given: Result<String, String>,
    debot_abi: Result<String, String>,
)
    ensures
        chosen_abi(Some(given), debot_abi) == given,
        chosen_abi(None, debot_abi) == debot_abi,
{
}

impl DEngine {
    /// An engine for the debot at `addr`, with a client for the server at `url`. `abi` is what
    /// came of parsing the debot's interface where one is given, `opened` what came of setting the
    /// client up, and `debot_abi` what came of parsing the common interface of all debots.
    pub fn new(
        addr: String,
        abi: Option<Result<String, String>>,
        url: &str,
        opened: Result<(), String>,
        debot_abi: Result<String, String>,
    ) -> (r: DEngine)
        requires
            opened is Ok,
            chosen_abi(abi, debot_abi) is Ok,
        ensures
            r.deep_view() == script::new_debot(
                addr@,
                AbiView { json: chosen_abi(abi, debot_abi)->Ok_0@ },
                url@,
            ),
    {
        DEngine::new_with_client(addr, abi, create_client(url, opened).unwrap(), debot_abi)
    }

    /// An engine for the debot at `addr`, with a client. `abi` is what came of parsing the debot's
    /// interface where one is given, and `debot_abi` what came of parsing the common interface of
    /// all debots.
    pub fn new_with_client(
        addr: String,
        abi: Option<Result<String, String>>,
        ton: TonClient,
        debot_abi: Result<String, String>,
    ) -> (r: DEngine)
        requires
            chosen_abi(abi, debot_abi) is Ok,
        ensures
            r.deep_view() == script::new_debot(
                addr@,
                AbiView { json: chosen_abi(abi, debot_abi)->Ok_0@ },
                ton.server_address@,
            ),
    {
        let parsed: Result<String, String> = match abi {
            Some(parsed) => parsed,
            None => debot_abi,
        };
        let r = DEngine {
            abi: abi::load_abi(parsed).unwrap(),
            addr,
            ton,
            state: String::new(),
            state_machine: Vec::new(),
            curr_state: STATE_EXIT,
            prev_state: STATE_ZERO,
            target_addr: None,
            target_abi: None,
        };
        assert(r.state_machine.deep_view() =~= Seq::empty());
        r
    }

    /// The client that the engine works with.
    pub fn client(&self) -> (r: &TonClient)
        ensures
            r.server_address@ == self.deep_view().server,
    {
        &self.ton
    }
}

impl DEngine {
    /// Runs a function of a contract locally, on an account.
    fn run(
        &self,
        talk: &mut Dialogue,
        state: String,
        addr: String,
        abi: Abi,
        func: &str,
        args: Option<Json>,
    ) -> (r: Result<Result<RunOutput, ClientError>, Stop>)
        ensures
            (final(talk).deep_view(), run_view(r)) == script::run(
                old(talk).deep_view(),
                state@,
                addr@,
                abi.deep_view(),
                func@,
                args.deep_view(),
            ),
    {
        let params = ParamsOfEncodeMessage {
            abi: abi.clone(),
            address: addr,
            tvc: None,
            function_name: func.to_owned(),
            input: args,
            signer: None,
        };
        let message: String = match talk.ask(Request::EncodeMessage(params))? {
            Reply::Message(Ok(message)) => message,
            Reply::Message(Err(e)) => {
                return Ok(Err(e));
            },
            _ => {
                return Err(Stop::Fault);
            },
        };
        match talk.ask(Request::RunTvm { account: state, message, abi })? {
            Reply::TvmRun(Ok(run)) => match run.decoded {
                Some(decoded) => Ok(
                    Ok(RunOutput::new(run.account, run.out_messages, decoded.output)),
                ),
                None => Err(Stop::Fault),
            },
            Reply::TvmRun(Err(e)) => Ok(Err(e)),
            _ => Err(Stop::Fault),
        }
    }

    /// Runs a get-function of the debot.
    fn run_debot_get(&self, talk: &mut Dialogue, func: &str, args: Option<Json>) -> (r: Result<
        Json,
        Stop,
    >)
        ensures
            (final(talk).deep_view(), dialogue::result_view(r)) == script::run_debot_get(
                self.deep_view(),
                old(talk).deep_view(),
                func@,
                args.deep_view(),
            ),
    {
        match self.run(
            talk,
            self.state.clone(),
            self.addr.clone(),
            self.abi.clone(),
            func,
            args,
        )? {
            Ok(res) => Ok(or_empty(res.output)),
            Err(e) => Err(Stop::Failed(e.display)),
        }
    }

    /// The text for an error of the client.
    fn handle_sdk_err(&self, talk: &mut Dialogue, err: ClientError) -> (r: Result<String, Stop>)
        ensures
            (final(talk).deep_view(), dialogue::result_view(r)) == script::handle_sdk_err(
                self.deep_view(),
                old(talk).deep_view(),
                err.deep_view(),
            ),
    {
        proof {
            reveal(script::handle_sdk_err);
        }
        if text::contains(&err.message, "Wrong data format") {
            // an argument of the debot's function has a wrong format
            Ok("invalid parameter".to_owned())
        } else if err.code == CONTRACT_EXECUTION_ERROR {
            // the debot's function has thrown
            match err.data.get_i64("exit_code") {
                Some(code) => match self.run_debot_get(
                    talk,
                    "getErrorDescription",
                    Some(Json::object("error", Json::Int(code))),
                ) {
                    Ok(answer) => match answer.get_str("desc") {
                        Some(hex) => match text::str_hex_to_utf8(&hex) {
                            Some(description) => Ok(description),
                            None => Ok(err.message),
                        },
                        None => Ok(err.message),
                    },
                    Err(Stop::Failed(_)) => Ok(err.message),
                    Err(stop) => Err(stop),
                },
                None => Ok(err.message),
            }
        } else {
            Ok(err.message)
        }
    }

    /// Loads the account at an address.
    fn load_state(&self, talk: &mut Dialogue, addr: String) -> (r: Result<String, Stop>)
        ensures
            (final(talk).deep_view(), dialogue::result_view(r)) == script::load_state(
                old(talk).deep_view(),
                addr@,
            ),
    {
        let filter = Json::object("id", Json::object("eq", Json::Str(addr.clone())));
        let request = Request::QueryCollection {
            collection: "accounts".to_owned(),
            filter,
            result: "boc".to_owned(),
            limit: 1,
        };
        match talk.ask(request)? {
            Reply::Collection(Ok(found)) => {
                if found.len() == 0 {
                    Err(
                        Stop::Failed(
                            text::join3(
                                "Cannot find debot with this address ",
                                &addr,
                                " in blockchain",
                            ),
                        ),
                    )
                } else {
                    match found[0].get_str("boc") {
                        Some(boc) => Ok(boc),
                        None => Err(Stop::Fault),
                    }
                }
            },
            Reply::Collection(Err(e)) => Err(
                Stop::Failed(text::join("failed to query debot account: ", &e)),
            ),
            _ => Err(Stop::Fault),
        }
    }

    /// Loads the account of a contract and runs a get-function on it.
    fn run_get(
        &self,
        talk: &mut Dialogue,
        addr: String,
        abi: Abi,
        name: &str,
        params: Option<Json>,
    ) -> (r: Result<Json, Stop>)
        ensures
            (final(talk).deep_view(), dialogue::result_view(r)) == script::run_get(
                self.deep_view(),
                old(talk).deep_view(),
                addr@,
                abi.deep_view(),
                name@,
                params.deep_view(),
            ),
    {
        let state: String = self.load_state(talk, addr.clone())?;
        match self.run(talk, state, addr, abi, name, params)? {
            Ok(res) => Ok(or_empty(res.output)),
            Err(e) => Err(Stop::Failed(self.handle_sdk_err(talk, e)?)),
        }
    }

    /// Runs a function of the debot, which moves the debot's account on.
    fn run_debot(&mut self, talk: &mut Dialogue, name: &str, args: Option<Json>) -> (r: Result<
        Option<Json>,
        Stop,
    >)
        ensures
            (final(self).deep_view(), final(talk).deep_view(), dialogue::result_view(r))
                == script::run_debot(
                old(self).deep_view(),
                old(talk).deep_view(),
                name@,
                args.deep_view(),
            ),
    {
        match self.run(
            talk,
            self.state.clone(),
            self.addr.clone(),
            self.abi.clone(),
            name,
            args,
        )? {
            Ok(res) => {
                self.state = res.account;
                Ok(res.output)
            },
            Err(e) => Err(Stop::Failed(self.handle_sdk_err(talk, e)?)),
        }
    }

    /// The arguments of an action: its cell, or else what the user types.
    fn query_action_args(&self, talk: &mut Dialogue, act: &DAction) -> (r: Result<
        Option<Json>,
        Stop,
    >)
        ensures
            (final(talk).deep_view(), dialogue::result_view(r)) == script::query_action_args(
                self.deep_view(),
                old(talk).deep_view(),
                act.deep_view(),
            ),
    {
        match misc_args(&act.misc) {
            Some(args) => Ok(Some(args)),
            None => match Json::parse(&self.abi.json) {
                Ok(abi_json) => Ok(Some(query_inputs(talk, &abi_json, &act.name)?)),
                Err(_) => Err(Stop::Fault),
            },
        }
    }

    /// Runs an action of the debot, which may answer with further actions.
    fn run_action(&mut self, talk: &mut Dialogue, action: &DAction) -> (r: Result<
        Option<Vec<DAction>>,
        Stop,
    >)
        ensures
            (final(self).deep_view(), final(talk).deep_view(), dialogue::result_view(r))
                == script::run_action(
                old(self).deep_view(),
                old(talk).deep_view(),
                action.deep_view(),
            ),
    {
        let args: Option<Json> = self.query_action_args(talk, action)?;
        match self.run_debot(talk, &action.name, args)? {
            Some(out) => {
                if !out.takes_keys() {
                    return Err(Stop::Fault);
                }
                match talk.ask(Request::ParseActions(out.get_or_null("actions")))? {
                    Reply::Actions(Some(actions)) => Ok(Some(actions)),
                    Reply::Actions(None) => Err(
                        Stop::Failed("internal error: failed to parse actions".to_owned()),
                    ),
                    _ => Err(Stop::Fault),
                }
            },
            None => Ok(None),
        }
    }

    /// The contract that the debot works on: its address and its interface.
    pub fn get_target(&self, talk: &mut Dialogue) -> (r: Result<(String, Abi), Stop>)
        ensures
            (final(talk).deep_view(), dialogue::result_view(r)) == script::get_target(
                self.deep_view(),
                old(talk).deep_view(),
            ),
    {
        match (&self.target_addr, &self.target_abi) {
            (Some(addr), Some(abi)) => {
                let abi_obj: Abi = load_abi(talk, abi)?;
                Ok((addr.clone(), abi_obj))
            },
            (Some(_), None) => Err(Stop::Failed("target abi is undefined".to_owned())),
            (None, _) => Err(Stop::Failed("target address is undefined".to_owned())),
        }
    }

    /// Sends a call to a contract, and waits for its output.
    fn call_target(
        &self,
        talk: &mut Dialogue,
        dest: &str,
        abi: Abi,
        func: &str,
        args: Option<Json>,
        signer: Option<u32>,
        state: Option<String>,
    ) -> (r: Result<Option<Json>, Stop>)
        ensures
            (final(talk).deep_view(), dialogue::result_view(r)) == script::call_target(
                self.deep_view(),
                old(talk).deep_view(),
                dest@,
                abi.deep_view(),
                func@,
                args.deep_view(),
                signer,
                state.deep_view(),
            ),
    {
        let addr: String = match load_ton_address(dest) {
            Ok(addr) => addr,
            Err(e) => {
                return Err(Stop::Failed(e));
            },
        };
        let encode_params = ParamsOfEncodeMessage {
            abi,
            address: addr,
            tvc: state,
            function_name: func.to_owned(),
            input: args,
            signer,
        };
        match talk.ask(Request::ProcessMessage { encode_params, send_events: true })? {
            Reply::Processed(Ok(Some(decoded))) => Ok(decoded.output),
            Reply::Processed(Ok(None)) => Err(Stop::Fault),
            Reply::Processed(Err(e)) => Err(Stop::Failed(self.handle_sdk_err(talk, e)?)),
            _ => Err(Stop::Fault),
        }
    }

    /// The interface by which a message to an address is read.
    fn abi_for(&self, talk: &mut Dialogue, dest: &str) -> (r: Result<Abi, Stop>)
        ensures
            (final(talk).deep_view(), dialogue::result_view(r)) == script::abi_for(
                self.deep_view(),
                old(talk).deep_view(),
                dest@,
            ),
    {
        let addr: String = match load_ton_address(dest) {
            Ok(addr) => addr,
            Err(e) => {
                return Err(Stop::Failed(e));
            },
        };
        if text::same(&addr, &self.addr) {
            Ok(self.abi.clone())
        } else {
            let (_, abi): (String, Abi) = self.get_target(talk)?;
            Ok(abi)
        }
    }

    /// Decodes the body of a message by an interface, and sends the call that it makes.
    fn send_body(
        &self,
        talk: &mut Dialogue,
        dest: &str,
        abi: Abi,
        body: String,
        signer: Option<u32>,
        state: Option<String>,
    ) -> (r: Result<Option<Json>, Stop>)
        ensures
            (final(talk).deep_view(), dialogue::result_view(r)) == script::send_body(
                self.deep_view(),
                old(talk).deep_view(),
                dest@,
                abi.deep_view(),
                body@,
                signer,
                state.deep_view(),
            ),
    {
        let request = Request::DecodeMessageBody { abi: abi.clone(), body, is_internal: true };
        match talk.ask(request)? {
            Reply::Body(Ok(decoded)) => self.call_target(
                talk,
                dest,
                abi,
                &decoded.name,
                decoded.value,
                signer,
                state,
            ),
            Reply::Body(Err(e)) => Err(
                Stop::Failed(text::join("failed to decode msg body: ", &e)),
            ),
            _ => Err(Stop::Fault),
        }
    }

    /// Sends the message that a function of the debot has prepared.
    fn send_prepared(
        &self,
        talk: &mut Dialogue,
        prepared: &Json,
        signer: Option<u32>,
    ) -> (r: Result<Option<Json>, Stop>)
        ensures
            (final(talk).deep_view(), dialogue::result_view(r)) == script::send_prepared(
                self.deep_view(),
                old(talk).deep_view(),
                prepared.deep_view(),
                signer,
            ),
    {
        match (prepared.get_str("dest"), prepared.get_str("body")) {
            (Some(dest), Some(body)) => {
                let state: Option<String> = prepared.get_str("state");
                let abi: Abi = self.abi_for(talk, &dest)?;
                self.send_body(talk, &dest, abi, body, signer, state)
            },
            _ => Err(Stop::Fault),
        }
    }

    /// Lets a function of the debot prepare a message, and sends it.
    fn run_sendmsg(
        &mut self,
        talk: &mut Dialogue,
        name: &str,
        args: Option<Json>,
        signer: Option<u32>,
    ) -> (r: Result<Option<Json>, Stop>)
        ensures
            (final(self).deep_view(), final(talk).deep_view(), dialogue::result_view(r))
                == script::run_sendmsg(
                old(self).deep_view(),
                old(talk).deep_view(),
                name@,
                args.deep_view(),
                signer,
            ),
    {
        match self.run_debot(talk, name, args)? {
            Some(prepared) => self.send_prepared(talk, &prepared, signer),
            None => Err(
                Stop::Failed(
                    text::join3(
                        "action \"",
                        name,
                        "\" is invalid: it must return \"dest\" and \"body\" arguments",
                    ),
                ),
            ),
        }
    }

    /// Takes over what the debot gives of its own, as its option bits say.
    fn apply_options(&mut self, talk: &mut Dialogue, options: u8, params: &Json) -> (r: Result<
        (),
        Stop,
    >)
        ensures
            (final(self).deep_view(), final(talk).deep_view(), dialogue::result_view(r))
                == script::apply_options(
                old(self).deep_view(),
                old(talk).deep_view(),
                options,
                params.deep_view(),
            ),
    {
        if options & OPTION_ABI != 0 {
            match params.get_str("debotAbi") {
                Some(hex) => match text::str_hex_to_utf8(&hex) {
                    Some(abi_str) => {
                        self.abi = load_abi(talk, &abi_str)?;
                    },
                    None => {
                        return Err(
                            Stop::Failed("cannot convert hex string to debot abi".to_owned()),
                        );
                    },
                },
                None => {
                    return Err(Stop::Fault);
                },
            }
        }
        if options & OPTION_TARGET_ABI != 0 {
            match params.get_str("targetAbi") {
                Some(hex) => {
                    self.target_abi = text::str_hex_to_utf8(&hex);
                },
                None => {
                    return Err(Stop::Fault);
                },
            }
        }
        if options & OPTION_TARGET_ADDR != 0 {
            match params.get_str("targetAddr") {
                Some(addr) => match load_ton_address(&addr) {
                    Ok(addr) => {
                        self.target_addr = Some(addr);
                    },
                    Err(e) => {
                        return Err(Stop::Failed(e));
                    },
                },
                None => {
                    return Err(Stop::Fault);
                },
            }
        }
        Ok(())
    }

    /// Asks the debot for its options and takes them over.
    fn update_options(&mut self, talk: &mut Dialogue) -> (r: Result<(), Stop>)
        ensures
            (final(self).deep_view(), final(talk).deep_view(), dialogue::result_view(r))
                == script::update_options(
                old(self).deep_view(),
                old(talk).deep_view(),
            ),
    {
        let params: Json = self.run_debot_get(talk, "getDebotOptions", None)?;
        match params.get_str("options") {
            Some(number) => match talk.ask(Request::DecodeNumber(number))? {
                Reply::Number(Some(options)) => {
                    if options <= 255 {
                        self.apply_options(talk, options as u8, &params)
                    } else {
                        Err(Stop::Fault)
                    }
                },
                _ => Err(Stop::Fault),
            },
            None => Err(Stop::Fault),
        }
    }

    /// Runs a get-function of the target, and hands the result to a function of the debot.
    fn run_getmethod(
        &mut self,
        talk: &mut Dialogue,
        getmethod: &str,
        args: Option<Json>,
        result_handler: &str,
    ) -> (r: Result<Option<Json>, Stop>)
        ensures
            (final(self).deep_view(), final(talk).deep_view(), dialogue::result_view(r))
                == script::run_getmethod(
                old(self).deep_view(),
                old(talk).deep_view(),
                getmethod@,
                args.deep_view(),
                result_handler@,
            ),
    {
        self.update_options(talk)?;
        let (addr, abi): (String, Abi) = self.get_target(talk)?;
        let result: Json = self.run_get(talk, addr, abi, getmethod, args)?;
        self.run_debot(talk, result_handler, Some(result))
    }

    /// Asks the debot what it is, and greets the user.
    fn introduce(&self, talk: &mut Dialogue) -> (r: Result<(), Stop>)
        ensures
            (final(talk).deep_view(), dialogue::result_view(r)) == script::introduce(
                self.deep_view(),
                old(talk).deep_view(),
            ),
    {
        let about: Json = self.run_debot_get(talk, "getVersion", None)?;
        match (about.get_str("name"), about.get_str("semver")) {
            (Some(name_hex), Some(ver_str)) => match text::str_hex_to_utf8(&name_hex) {
                Some(name) => match talk.ask(Request::DecodeNumber(ver_str))? {
                    Reply::Number(Some(ver)) => talk.tell(Request::Log(greeting(&name, ver))),
                    _ => Err(Stop::Fault),
                },
                None => Err(Stop::Fault),
            },
            _ => Err(Stop::Fault),
        }
    }

    /// Loads the debot, greets the user, takes over the debot's options and asks for its
    /// contexts.
    fn fetch_state(&mut self, talk: &mut Dialogue) -> (r: Result<Vec<DContext>, Stop>)
        ensures
            (final(self).deep_view(), final(talk).deep_view(), dialogue::result_view(r))
                == script::fetch_state(
                old(self).deep_view(),
                old(talk).deep_view(),
            ),
    {
        self.state = self.load_state(talk, self.addr.clone())?;
        self.introduce(talk)?;
        self.update_options(talk)?;
        let result: Json = self.run_debot_get(talk, "fetch", None)?;
        if !result.takes_keys() {
            return Err(Stop::Fault);
        }
        match talk.ask(Request::ParseContexts(result.get_or_null("contexts")))? {
            Reply::Contexts(Some(contexts)) => Ok(contexts),
            _ => Err(Stop::Fault),
        }
    }

    /// Gets a signing box from the user, where one is wanted.
    fn get_signer(&self, talk: &mut Dialogue, wanted: bool) -> (r: Result<Option<u32>, Stop>)
        ensures
            (final(talk).deep_view(), dialogue::result_view(r)) == script::get_signer(
                old(talk).deep_view(),
                wanted,
            ),
    {
        if wanted {
            match talk.ask(Request::GetSigningBox)? {
                Reply::SigningBox(Ok(handle)) => Ok(Some(handle)),
                Reply::SigningBox(Err(e)) => Err(Stop::Failed(e)),
                _ => Err(Stop::Fault),
            }
        } else {
            Ok(None)
        }
    }

    /// Gives a signing box back, where there is one.
    fn drop_signer(&self, talk: &mut Dialogue, signer: Option<u32>) -> (r: Result<(), Stop>)
        ensures
            (final(talk).deep_view(), dialogue::result_view(r)) == script::drop_signer(
                old(talk).deep_view(),
                signer,
            ),
    {
        match signer {
            Some(handle) => talk.tell(Request::RemoveSigningBox(handle)),
            None => Ok(()),
        }
    }

    /// Runs a get-function of the target for an action.
    fn run_method(&mut self, talk: &mut Dialogue, a: &DAction) -> (r: Result<(), Stop>)
        ensures
            (final(self).deep_view(), final(talk).deep_view(), dialogue::result_view(r))
                == script::run_method(
                old(self).deep_view(),
                old(talk).deep_view(),
                a.deep_view(),
            ),
    {
        let args: Option<Json> = match &a.args {
            Some(getter) => self.run_debot(talk, getter, None)?,
            None => None,
        };
        match &a.func {
            Some(func) => {
                self.run_getmethod(talk, func, args, &a.name)?;
                Ok(())
            },
            None => Err(Stop::Fault),
        }
    }

    /// Sends a message for an action.
    fn send_msg(&mut self, talk: &mut Dialogue, a: &DAction) -> (r: Result<(), Stop>)
        ensures
            (final(self).deep_view(), final(talk).deep_view(), dialogue::result_view(r))
                == script::send_msg(
                old(self).deep_view(),
                old(talk).deep_view(),
                a.deep_view(),
            ),
    {
        let signer: Option<u32> = self.get_signer(talk, a.sign_by_user)?;
        self.run_sendmsg(talk, &a.name, misc_args(&a.misc), signer)?;
        self.drop_signer(talk, signer)?;
        talk.tell(Request::Log("Transaction succeeded.".to_owned()))
    }

    /// Invokes another debot for an action.
    fn invoke(&mut self, talk: &mut Dialogue, a: &DAction) -> (r: Result<(), Stop>)
        ensures
            (final(self).deep_view(), final(talk).deep_view(), dialogue::result_view(r))
                == script::invoke(
                old(self).deep_view(),
                old(talk).deep_view(),
                a.deep_view(),
            ),
    {
        let given: Json = match self.run_debot(talk, &a.name, None)? {
            Some(given) => given,
            None => {
                return Err(
                    Stop::Failed(
                        text::join3(
                            "invalid invoke action \"",
                            &a.name,
                            "\": it must return \"debot\" and \"action\" arguments",
                        ),
                    ),
                );
            },
        };
        let addr: String = match given.get_str("debot") {
            Some(debot) => match load_ton_address(&debot) {
                Ok(addr) => addr,
                Err(e) => {
                    return Err(Stop::Failed(e));
                },
            },
            None => {
                return Err(Stop::Fault);
            },
        };
        match talk.ask(Request::ParseAction(given.get_or_null("action")))? {
            Reply::Action(Some(action)) => match talk.ask(Request::InvokeDebot(addr, action))? {
                Reply::Invoked(Ok(())) => Ok(()),
                Reply::Invoked(Err(e)) => Err(Stop::Failed(e)),
                _ => Err(Stop::Fault),
            },
            _ => Err(Stop::Fault),
        }
    }

    /// Shows the text of a print action.
    fn print(&mut self, talk: &mut Dialogue, a: &DAction) -> (r: Result<(), Stop>)
        ensures
            (final(self).deep_view(), final(talk).deep_view(), dialogue::result_view(r))
                == script::print(
                old(self).deep_view(),
                old(talk).deep_view(),
                a.deep_view(),
            ),
    {
        let label: String = match &a.fargs {
            Some(getter) => match self.run_debot(talk, getter, misc_args(&a.misc))? {
                Some(params) => match talk.ask(
                    Request::FormatString { format: a.name.clone(), params },
                )? {
                    Reply::Text(label) => label,
                    _ => {
                        return Err(Stop::Fault);
                    },
                },
                None => String::new(),
            },
            None => a.name.clone(),
        };
        talk.tell(Request::Log(label))
    }

    /// Calls a routine of the engine by its name.
    fn call_routine(
        &self,
        talk: &mut Dialogue,
        name: &str,
        args: &str,
        signer: Option<u32>,
    ) -> (r: Result<String, Stop>)
        ensures
            (final(talk).deep_view(), dialogue::result_view(r)) == script::call_routine(
                old(talk).deep_view(),
                name@,
                args@,
                signer,
            ),
    {
        match talk.ask(
            Request::CallRoutine { name: name.to_owned(), args: args.to_owned(), signer },
        )? {
            Reply::Routine(Ok(res)) => Ok(res),
            Reply::Routine(Err(e)) => Err(Stop::Failed(e)),
            _ => Err(Stop::Fault),
        }
    }

    /// Calls a routine of the engine for an action, and hands its result to the debot.
    fn call_engine(&mut self, talk: &mut Dialogue, a: &DAction) -> (r: Result<(), Stop>)
        ensures
            (final(self).deep_view(), final(talk).deep_view(), dialogue::result_view(r))
                == script::call_engine(
                old(self).deep_view(),
                old(talk).deep_view(),
                a.deep_view(),
            ),
    {
        let args: String = match &a.args {
            Some(getter) => match self.run_debot(talk, getter, None)? {
                Some(doc) => doc.text(),
                None => String::new(),
            },
            None => a.desc.clone(),
        };
        let signer: Option<u32> = self.get_signer(talk, a.sign_by_user)?;
        let res: String = self.call_routine(talk, &a.name, &args, signer)?;
        self.drop_signer(talk, signer)?;
        match &a.func {
            Some(setter) => {
                self.run_debot(talk, setter, Some(Json::object("arg1", Json::Str(res))))?;
                Ok(())
            },
            None => Err(Stop::Failed("routine callback is not specified".to_owned())),
        }
    }

    /// Performs an action, which may answer with further actions.
    fn handle_action(&mut self, talk: &mut Dialogue, a: &DAction) -> (r: Result<
        Option<Vec<DAction>>,
        Stop,
    >)
        ensures
            (final(self).deep_view(), final(talk).deep_view(), dialogue::result_view(r))
                == script::handle_action(
                old(self).deep_view(),
                old(talk).deep_view(),
                a.deep_view(),
            ),
    {
        match a.action_type {
            AcType::Empty => Ok(None),
            AcType::RunAction => self.run_action(talk, a),
            AcType::RunMethod => {
                self.run_method(talk, a)?;
                Ok(None)
            },
            AcType::SendMsg => {
                self.send_msg(talk, a)?;
                Ok(None)
            },
            AcType::Invoke => {
                self.invoke(talk, a)?;
                Ok(None)
            },
            AcType::Print => {
                self.print(talk, a)?;
                Ok(None)
            },
            AcType::Goto => Ok(None),
            AcType::CallEngine => {
                self.call_engine(talk, a)?;
                Ok(None)
            },
            AcType::Unknown => {
                let message: String = "unsupported action type".to_owned();
                talk.tell(Request::Log(message.clone()))?;
                Err(Stop::Failed(message))
            },
        }
    }

    /// Performs an action that runs by itself, once the user is told about it.
    fn run_instant(&mut self, talk: &mut Dialogue, act: &DAction) -> (r: Result<
        Option<Vec<DAction>>,
        Stop,
    >)
        ensures
            (final(self).deep_view(), final(talk).deep_view(), dialogue::result_view(r))
                == script::run_instant(
                old(self).deep_view(),
                old(talk).deep_view(),
                act.deep_view(),
            ),
    {
        if !act.desc.as_str().is_empty() {
            talk.tell(Request::Log(act.desc.clone()))?;
        }
        self.handle_action(talk, act)
    }

    /// Goes through an action of a context and the further actions that come of it. The outcome
    /// says whether another context is to be entered.
    fn work(&mut self, talk: &mut Dialogue, action: DAction) -> (r: Result<bool, Stop>)
        ensures
            (final(self).deep_view(), final(talk).deep_view(), dialogue::result_view(r))
                == script::work(
                old(self).deep_view(),
                old(talk).deep_view(),
                seq![action.deep_view()],
            ),
    {
        let ghost goal = script::work(self.deep_view(), talk.deep_view(), seq![action.deep_view()]);
        let mut sub_actions: VecDeque<DAction> = VecDeque::new();
        sub_actions.push_back(action);
        assert(sub_actions.deep_view() =~= seq![action.deep_view()]);
        loop
            invariant
                goal == script::work(
                    old(self).deep_view(),
                    old(talk).deep_view(),
                    seq![action.deep_view()],
                ),
                goal == script::work(self.deep_view(), talk.deep_view(), sub_actions.deep_view()),
            decreases talk.deep_view().ahead(), sub_actions@.len(),
        {
            let ghost queue = sub_actions.deep_view();
            let ghost debot = self.deep_view();
            let ghost before = talk.deep_view();
            let act: DAction = match sub_actions.pop_front() {
                Some(act) => act,
                None => {
                    return Ok(false);
                },
            };
            let ghost rest = queue.drop_first();
            assert(act.deep_view() == queue[0]);
            assert(sub_actions.deep_view() =~= rest);
            proof {
                turns::run_instant_orderly(debot, before, Seq::empty(), act.deep_view());
                turns::handle_action_orderly(debot, before, Seq::empty(), act.deep_view());
            }
            if act.is_instant() {
                match self.run_instant(talk, &act)? {
                    Some(further) => {
                        push_all(&mut sub_actions, &further);
                    },
                    None => {},
                }
                // an instant action that leads to another context ends the list
                let to: u8 = if act.to == STATE_CURRENT {
                    self.curr_state
                } else if act.to == STATE_PREV {
                    self.prev_state
                } else {
                    act.to
                };
                if to != self.curr_state {
                    self.curr_state = act.to;
                    return Ok(true);
                }
            } else if act.is_engine_call() {
                self.handle_action(talk, &act)?;
            } else {
                talk.tell(Request::ShowAction(act))?;
            }
        }
    }

    /// Goes through the actions of a context, each with the further actions that come of it. The
    /// outcome says whether another context is to be entered.
    fn enumerate_actions(&mut self, talk: &mut Dialogue, ctx: &DContext) -> (r: Result<bool, Stop>)
        ensures
            (final(self).deep_view(), final(talk).deep_view(), dialogue::result_view(r))
                == script::enumerate_actions(
                old(self).deep_view(),
                old(talk).deep_view(),
                ctx.deep_view().actions,
            ),
    {
        let ghost actions = ctx.deep_view().actions;
        let ghost goal = script::enumerate_actions(self.deep_view(), talk.deep_view(), actions);
        assert(actions.skip(0) =~= actions);
        let mut i: usize = 0;
        while i < ctx.actions.len()
            invariant
                i <= ctx.actions@.len(),
                actions == ctx.actions.deep_view(),
                goal == script::enumerate_actions(
                    old(self).deep_view(),
                    old(talk).deep_view(),
                    ctx.deep_view().actions,
                ),
                goal == script::enumerate_actions(
                    self.deep_view(),
                    talk.deep_view(),
                    actions.skip(i as int),
                ),
            decreases ctx.actions@.len() - i,
        {
            assert(actions[i as int] == ctx.actions@[i as int].deep_view());
            assert(actions.skip(i as int).drop_first() =~= actions.skip(i + 1));
            if self.work(talk, ctx.actions[i].clone())? {
                return Ok(true);
            }
            i += 1;
        }
        Ok(false)
    }

    /// Shows a context to the user, and goes through its actions. The outcome says whether
    /// another context is to be entered.
    fn show_context(&mut self, talk: &mut Dialogue, ctx: &DContext) -> (r: Result<bool, Stop>)
        ensures
            (final(self).deep_view(), final(talk).deep_view(), dialogue::result_view(r))
                == script::show_context(
                old(self).deep_view(),
                old(talk).deep_view(),
                ctx.deep_view(),
            ),
    {
        talk.tell(Request::Switch(ctx.id))?;
        talk.tell(Request::Log(ctx.desc.clone()))?;
        self.enumerate_actions(talk, ctx)
    }

    /// Switches to a context, and from there to the next one for as long as an action that runs
    /// by itself leads on.
    fn switch_state(&mut self, talk: &mut Dialogue, to: u8) -> (r: Result<(), Stop>)
        ensures
            (final(self).deep_view(), final(talk).deep_view(), dialogue::result_view(r))
                == script::switch_state(
                old(self).deep_view(),
                old(talk).deep_view(),
                to,
            ),
    {
        let ghost goal = script::switch_state(self.deep_view(), talk.deep_view(), to);
        let mut state_to: u8 = to;
        if state_to == STATE_CURRENT {
            state_to = self.curr_state;
        }
        if state_to == STATE_PREV {
            state_to = self.prev_state;
        }
        if state_to == STATE_EXIT {
            return talk.tell(Request::Switch(STATE_EXIT));
        }
        if state_to != self.curr_state {
            let mut instant_switch: bool = true;
            self.prev_state = self.curr_state;
            self.curr_state = state_to;
            while instant_switch
                invariant
                    goal == script::switch_state(
                        old(self).deep_view(),
                        old(talk).deep_view(),
                        to,
                    ),
                    goal == (if instant_switch {
                        script::enter(self.deep_view(), talk.deep_view(), state_to)
                    } else {
                        (self.deep_view(), talk.deep_view(), Ok::<(), StopView>(()))
                    }),
                decreases talk.deep_view().ahead(), (if instant_switch { 1int } else { 0int }),
            {
                let ghost debot = self.deep_view();
                let ghost before = talk.deep_view();
                match find_context(&self.state_machine, state_to) {
                    Some(ctx) => {
                        proof {
                            turns::show_context_orderly(
                                debot,
                                before,
                                Seq::empty(),
                                ctx.deep_view(),
                            );
                        }
                        instant_switch = self.show_context(talk, &ctx)?;
                        state_to = self.curr_state;
                    },
                    None => {
                        instant_switch = false;
                        if state_to == STATE_EXIT {
                            talk.tell(Request::Switch(STATE_EXIT))?;
                        } else {
                            let message: String = text::join3(
                                "Debot context #",
                                &text::decimal(state_to),
                                " not found. Exit.",
                            );
                            talk.tell(Request::Log(message))?;
                        }
                    },
                }
            }
        }
        Ok(())
    }

    /// Loads the debot and its contexts.
    pub fn fetch(&mut self, talk: &mut Dialogue) -> (r: Result<(), Stop>)
        ensures
            (final(self).deep_view(), final(talk).deep_view(), dialogue::result_view(r))
                == script::fetch(
                old(self).deep_view(),
                old(talk).deep_view(),
            ),
    {
        self.state_machine = self.fetch_state(talk)?;
        Ok(())
    }

    /// Loads the debot and its contexts, and goes to the context that it starts in.
    pub fn start(&mut self, talk: &mut Dialogue) -> (r: Result<(), Stop>)
        ensures
            (final(self).deep_view(), final(talk).deep_view(), dialogue::result_view(r))
                == script::start(
                old(self).deep_view(),
                old(talk).deep_view(),
            ),
    {
        self.state_machine = self.fetch_state(talk)?;
        self.switch_state(talk, STATE_ZERO)
    }

    /// Asks the debot what it is, and gives the answer as text.
    pub fn version(&self, talk: &mut Dialogue) -> (r: Result<String, Stop>)
        ensures
            (final(talk).deep_view(), dialogue::result_view(r)) == script::version(
                self.deep_view(),
                old(talk).deep_view(),
            ),
    {
        let about: Json = self.run_debot_get(talk, "getVersion", None)?;
        Ok(about.text())
    }

    /// Performs an action and goes on to the context that it leads to, or back to the one that
    /// the debot came from where the action fails.
    pub fn execute_action(&mut self, talk: &mut Dialogue, act: &DAction) -> (r: Result<(), Stop>)
        ensures
            (final(self).deep_view(), final(talk).deep_view(), dialogue::result_view(r))
                == script::execute_action(
                old(self).deep_view(),
                old(talk).deep_view(),
                act.deep_view(),
            ),
    {
        match self.handle_action(talk, act) {
            Ok(_) => self.switch_state(talk, act.to),
            Err(Stop::Failed(e)) => {
                let message: String = text::join3(
                    "Action failed: ",
                    &e,
                    ". Return to previous state.\n",
                );
                talk.tell(Request::Log(message))?;
                self.switch_state(talk, self.prev_state)
            },
            Err(stop) => Err(stop),
        }
    }
}

} // verus!
