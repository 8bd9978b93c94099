//! The talk between the engine and the world around it.
//!
//! The engine does nothing by itself: it asks. A [`Request`] is something that the world has to
//! do, and a [`Reply`] says what came of it. A [`Dialogue`] holds the replies that are there so
//! far. An operation of the engine is run on a dialogue from its start: it hears the replies one
//! by one, and where they end it stops with [`Stop::Pending`] and the last request open. Once
//! that request is answered the operation is run again, over one reply more.

use crate::client::{ClientError, ClientErrorView};
use crate::debot::abi::{Abi, AbiView};
use crate::debot::action::{DAction, DActionView};
use crate::debot::context::{DContext, DContextView};
use crate::json::{Json, JsonView};
use vstd::prelude::*;

verus! {

/// The values of a result, each by what it stands for.
pub open spec fn result_view<T: DeepView, E: DeepView>(r: Result<T, E>) -> Result<T::V, E::V> {
    match r {
        Ok(x) => Ok(x.deep_view()),
        Err(e) => Err(e.deep_view()),
    }
}

/// Why an operation did not come to its end.
#[derive(Debug)]
pub enum Stop {
    /// It failed, with the text of an error.
    Failed(String),
    /// The last request is not answered yet.
    Pending,
    /// What was heard breaks the rules of the talk: a value that every debot must give is
    /// missing or malformed, or a reply is not of the kind that was asked for.
    Fault,
}

/// What a [`Stop`] stands for.
pub enum StopView {
    Failed(Seq<char>),
    Pending,
    Fault,
}

impl DeepView for Stop {
    type V = StopView;

    open spec fn deep_view(&self) -> StopView {
        match self {
            Stop::Failed(e) => StopView::Failed(e@),
            Stop::Pending => StopView::Pending,
            Stop::Fault => StopView::Fault,
        }
    }
}

/// A message to encode: a call of a function of the contract at an address.
#[derive(Debug)]
pub struct ParamsOfEncodeMessage {
    pub abi: Abi,
    pub address: String,
    /// The contract image to deploy with the call.
    pub tvc: Option<String>,
    pub function_name: String,
    pub input: Option<Json>,
    /// The signing box that signs the message, if it is signed.
    pub signer: Option<u32>,
}

/// What a [`ParamsOfEncodeMessage`] stands for.
pub struct EncodeView {
    pub abi: AbiView,
    pub address: Seq<char>,
    pub tvc: Option<Seq<char>>,
    pub function_name: Seq<char>,
    pub input: Option<JsonView>,
    pub signer: Option<u32>,
}

impl DeepView for ParamsOfEncodeMessage {
    type V = EncodeView;

    open spec fn deep_view(&self) -> EncodeView {
        EncodeView {
            abi: self.abi.deep_view(),
            address: self.address@,
            tvc: self.tvc.deep_view(),
            function_name: self.function_name@,
            input: self.input.deep_view(),
            signer: self.signer,
        }
    }
}

/// Something that the engine asks for.
#[derive(Debug)]
pub enum Request {
    /// Show a text to the user. Answered by [`Reply::Done`].
    Log(String),
    /// Tell the user that the debot goes to a context. Answered by [`Reply::Done`].
    Switch(u8),
    /// Offer an action to the user. Answered by [`Reply::Done`].
    ShowAction(DAction),
    /// Ask the user, with a prompt. Answered by [`Reply::Text`].
    Input(String),
    /// Get a signing box from the user. Answered by [`Reply::SigningBox`].
    GetSigningBox,
    /// Run an action of the debot at an address. Answered by [`Reply::Invoked`].
    InvokeDebot(String, DAction),
    /// Query a collection: its name, the filter, the fields wanted and the greatest number of
    /// records. Answered by [`Reply::Collection`].
    QueryCollection { collection: String, filter: Json, result: String, limit: u32 },
    /// Encode a message. Answered by [`Reply::Message`].
    EncodeMessage(ParamsOfEncodeMessage),
    /// Run a message on an account, locally. Answered by [`Reply::TvmRun`].
    RunTvm { account: String, message: String, abi: Abi },
    /// Decode the body of a message. Answered by [`Reply::Body`].
    DecodeMessageBody { abi: Abi, body: String, is_internal: bool },
    /// Encode a message, send it, and wait for what comes of it, with or without reports on the
    /// way. Answered by [`Reply::Processed`].
    ProcessMessage { encode_params: ParamsOfEncodeMessage, send_events: bool },
    /// Forget a signing box. Answered by [`Reply::Done`].
    RemoveSigningBox(u32),
    /// Call a routine of the engine by its name. Answered by [`Reply::Routine`].
    CallRoutine { name: String, args: String, signer: Option<u32> },
    /// Fill a format with parameters. Answered by [`Reply::Text`].
    FormatString { format: String, params: Json },
    /// Read a number as a contract writes it. Answered by [`Reply::Number`].
    DecodeNumber(String),
    /// Parse the text of an interface. Answered by [`Reply::Abi`].
    ParseAbi(String),
    /// Read a list of contexts. Answered by [`Reply::Contexts`].
    ParseContexts(Json),
    /// Read an action. Answered by [`Reply::Action`].
    ParseAction(Json),
    /// Read a list of actions. Answered by [`Reply::Actions`].
    ParseActions(Json),
}

/// What a [`Request`] stands for.
pub enum RequestView {
    Log(Seq<char>),
    Switch(u8),
    ShowAction(DActionView),
    Input(Seq<char>),
    GetSigningBox,
    InvokeDebot(Seq<char>, DActionView),
    QueryCollection { collection: Seq<char>, filter: JsonView, result: Seq<char>, limit: u32 },
    EncodeMessage(EncodeView),
    RunTvm { account: Seq<char>, message: Seq<char>, abi: AbiView },
    DecodeMessageBody { abi: AbiView, body: Seq<char>, is_internal: bool },
    ProcessMessage { encode_params: EncodeView, send_events: bool },
    RemoveSigningBox(u32),
    CallRoutine { name: Seq<char>, args: Seq<char>, signer: Option<u32> },
    FormatString { format: Seq<char>, params: JsonView },
    DecodeNumber(Seq<char>),
    ParseAbi(Seq<char>),
    ParseContexts(JsonView),
    ParseAction(JsonView),
    ParseActions(JsonView),
}

impl DeepView for Request {
    type V = RequestView;

    open spec fn deep_view(&self) -> RequestView {
        match self {
            Request::Log(text) => RequestView::Log(text@),
            Request::Switch(state) => RequestView::Switch(*state),
            Request::ShowAction(action) => RequestView::ShowAction(action.deep_view()),
            Request::Input(prompt) => RequestView::Input(prompt@),
            Request::GetSigningBox => RequestView::GetSigningBox,
            Request::InvokeDebot(addr, action) => RequestView::InvokeDebot(
                addr@,
                action.deep_view(),
            ),
            Request::QueryCollection { collection, filter, result, limit } => {
                RequestView::QueryCollection {
                    collection: collection@,
                    filter: filter.deep_view(),
                    result: result@,
                    limit: *limit,
                }
            },
            Request::EncodeMessage(params) => RequestView::EncodeMessage(params.deep_view()),
            Request::RunTvm { account, message, abi } => RequestView::RunTvm {
                account: account@,
                message: message@,
                abi: abi.deep_view(),
            },
            Request::DecodeMessageBody { abi, body, is_internal } => {
                RequestView::DecodeMessageBody {
                    abi: abi.deep_view(),
                    body: body@,
                    is_internal: *is_internal,
                }
            },
            Request::ProcessMessage { encode_params, send_events } => RequestView::ProcessMessage {
                encode_params: encode_params.deep_view(),
                send_events: *send_events,
            },
            Request::RemoveSigningBox(handle) => RequestView::RemoveSigningBox(*handle),
            Request::CallRoutine { name, args, signer } => RequestView::CallRoutine {
                name: name@,
                args: args@,
                signer: *signer,
            },
            Request::FormatString { format, params } => RequestView::FormatString {
                format: format@,
                params: params.deep_view(),
            },
            Request::DecodeNumber(text) => RequestView::DecodeNumber(text@),
            Request::ParseAbi(text) => RequestView::ParseAbi(text@),
            Request::ParseContexts(doc) => RequestView::ParseContexts(doc.deep_view()),
            Request::ParseAction(doc) => RequestView::ParseAction(doc.deep_view()),
            Request::ParseActions(doc) => RequestView::ParseActions(doc.deep_view()),
        }
    }
}

/// The output that was decoded from the messages of a run.
#[derive(Debug)]
pub struct DecodedOutput {
    pub output: Option<Json>,
}

/// What a [`DecodedOutput`] stands for.
pub struct DecodedOutputView {
    pub output: Option<JsonView>,
}

impl DeepView for DecodedOutput {
    type V = DecodedOutputView;

    open spec fn deep_view(&self) -> DecodedOutputView {
        DecodedOutputView { output: self.output.deep_view() }
    }
}

impl Clone for DecodedOutput {
    fn clone(&self) -> (r: Self)
        ensures
            r.deep_view() == self.deep_view(),
    {
        DecodedOutput { output: self.output.clone() }
    }
}

/// What a local run of a message comes to.
#[derive(Debug)]
pub struct ResultOfRunTvm {
    pub account: String,
    pub out_messages: Vec<String>,
    pub decoded: Option<DecodedOutput>,
}

/// What a [`ResultOfRunTvm`] stands for.
pub struct TvmView {
    pub account: Seq<char>,
    pub out_messages: Seq<Seq<char>>,
    pub decoded: Option<DecodedOutputView>,
}

impl DeepView for ResultOfRunTvm {
    type V = TvmView;

    open spec fn deep_view(&self) -> TvmView {
        TvmView {
            account: self.account@,
            out_messages: self.out_messages.deep_view(),
            decoded: self.decoded.deep_view(),
        }
    }
}

impl Clone for ResultOfRunTvm {
    fn clone(&self) -> (r: Self)
        ensures
            r.deep_view() == self.deep_view(),
    {
        let out_messages: Vec<String> = self.out_messages.clone();
        assert(out_messages.deep_view() =~= self.out_messages.deep_view());
        ResultOfRunTvm {
            account: self.account.clone(),
            out_messages,
            decoded: self.decoded.clone(),
        }
    }
}

/// A decoded message body: the function that it calls, and the arguments.
#[derive(Debug)]
pub struct DecodedMessageBody {
    pub name: String,
    pub value: Option<Json>,
}

/// What a [`DecodedMessageBody`] stands for.
pub struct DecodedBodyView {
    pub name: Seq<char>,
    pub value: Option<JsonView>,
}

impl DeepView for DecodedMessageBody {
    type V = DecodedBodyView;

    open spec fn deep_view(&self) -> DecodedBodyView {
        DecodedBodyView { name: self.name@, value: self.value.deep_view() }
    }
}

impl Clone for DecodedMessageBody {
    fn clone(&self) -> (r: Self)
        ensures
            r.deep_view() == self.deep_view(),
    {
        DecodedMessageBody { name: self.name.clone(), value: self.value.clone() }
    }
}

/// What came of a request.
#[derive(Debug)]
pub enum Reply {
    Done,
    Text(String),
    /// The handle of a signing box, or the text of an error.
    SigningBox(Result<u32, String>),
    Invoked(Result<(), String>),
    /// The records that a query found, or the text of an error.
    Collection(Result<Vec<Json>, String>),
    /// An encoded message.
    Message(Result<String, ClientError>),
    TvmRun(Result<ResultOfRunTvm, ClientError>),
    /// A decoded body, or the text of an error.
    Body(Result<DecodedMessageBody, String>),
    /// What was decoded from the messages that answered a message.
    Processed(Result<Option<DecodedOutput>, ClientError>),
    Routine(Result<String, String>),
    /// A number below two to the power of 32, where the text wrote one.
    Number(Option<u32>),
    /// The interface as its type writes it, or the text of the parser's error.
    Abi(Result<String, String>),
    /// The contexts, where the document listed contexts.
    Contexts(Option<Vec<DContext>>),
    /// The action, where the document wrote one.
    Action(Option<DAction>),
    /// The actions, where the document listed actions.
    Actions(Option<Vec<DAction>>),
}

/// What a [`Reply`] stands for.
pub enum ReplyView {
    Done,
    Text(Seq<char>),
    SigningBox(Result<u32, Seq<char>>),
    Invoked(Result<(), Seq<char>>),
    Collection(Result<Seq<JsonView>, Seq<char>>),
    Message(Result<Seq<char>, ClientErrorView>),
    TvmRun(Result<TvmView, ClientErrorView>),
    Body(Result<DecodedBodyView, Seq<char>>),
    Processed(Result<Option<DecodedOutputView>, ClientErrorView>),
    Routine(Result<Seq<char>, Seq<char>>),
    Number(Option<u32>),
    Abi(Result<Seq<char>, Seq<char>>),
    Contexts(Option<Seq<DContextView>>),
    Action(Option<DActionView>),
    Actions(Option<Seq<DActionView>>),
}

impl DeepView for Reply {
    type V = ReplyView;

    open spec fn deep_view(&self) -> ReplyView {
        match self {
            Reply::Done => ReplyView::Done,
            Reply::Text(s) => ReplyView::Text(s@),
            Reply::SigningBox(r) => ReplyView::SigningBox(result_view(*r)),
            Reply::Invoked(r) => ReplyView::Invoked(result_view(*r)),
            Reply::Collection(r) => ReplyView::Collection(result_view(*r)),
            Reply::Message(r) => ReplyView::Message(result_view(*r)),
            Reply::TvmRun(r) => ReplyView::TvmRun(result_view(*r)),
            Reply::Body(r) => ReplyView::Body(result_view(*r)),
            Reply::Processed(r) => ReplyView::Processed(result_view(*r)),
            Reply::Routine(r) => ReplyView::Routine(result_view(*r)),
            Reply::Number(n) => ReplyView::Number(*n),
            Reply::Abi(r) => ReplyView::Abi(result_view(*r)),
            Reply::Contexts(c) => ReplyView::Contexts(c.deep_view()),
            Reply::Action(a) => ReplyView::Action(a.deep_view()),
            Reply::Actions(a) => ReplyView::Actions(a.deep_view()),
        }
    }
}

impl Clone for Reply {
    fn clone(&self) -> (r: Self)
        ensures
            r.deep_view() == self.deep_view(),
    {
        match self {
            Reply::Done => Reply::Done,
            Reply::Text(s) => Reply::Text(s.clone()),
            Reply::SigningBox(Ok(handle)) => Reply::SigningBox(Ok(*handle)),
            Reply::SigningBox(Err(e)) => Reply::SigningBox(Err(e.clone())),
            Reply::Invoked(Ok(())) => Reply::Invoked(Ok(())),
            Reply::Invoked(Err(e)) => Reply::Invoked(Err(e.clone())),
            Reply::Collection(Ok(docs)) => {
                let copy: Vec<Json> = docs.clone();
                assert(copy.deep_view() =~= docs.deep_view());
                Reply::Collection(Ok(copy))
            },
            Reply::Collection(Err(e)) => Reply::Collection(Err(e.clone())),
            Reply::Message(Ok(message)) => Reply::Message(Ok(message.clone())),
            Reply::Message(Err(e)) => Reply::Message(Err(e.clone())),
            Reply::TvmRun(Ok(run)) => Reply::TvmRun(Ok(run.clone())),
            Reply::TvmRun(Err(e)) => Reply::TvmRun(Err(e.clone())),
            Reply::Body(Ok(body)) => Reply::Body(Ok(body.clone())),
            Reply::Body(Err(e)) => Reply::Body(Err(e.clone())),
            Reply::Processed(Ok(decoded)) => Reply::Processed(Ok(decoded.clone())),
            Reply::Processed(Err(e)) => Reply::Processed(Err(e.clone())),
            Reply::Routine(Ok(s)) => Reply::Routine(Ok(s.clone())),
            Reply::Routine(Err(e)) => Reply::Routine(Err(e.clone())),
            Reply::Number(n) => Reply::Number(*n),
            Reply::Abi(Ok(json)) => Reply::Abi(Ok(json.clone())),
            Reply::Abi(Err(e)) => Reply::Abi(Err(e.clone())),
            Reply::Contexts(Some(contexts)) => {
                let copy: Vec<DContext> = contexts.clone();
                assert(copy.deep_view() =~= contexts.deep_view());
                Reply::Contexts(Some(copy))
            },
            Reply::Contexts(None) => Reply::Contexts(None),
            Reply::Action(action) => Reply::Action(action.clone()),
            Reply::Actions(Some(actions)) => {
                let copy: Vec<DAction> = actions.clone();
                assert(copy.deep_view() =~= actions.deep_view());
                Reply::Actions(Some(copy))
            },
            Reply::Actions(None) => Reply::Actions(None),
        }
    }
}

/// What a [`Dialogue`] stands for: the replies that are there, how many of them were heard, and
/// what was asked.
pub struct Talk {
    pub replies: Seq<ReplyView>,
    pub heard: nat,
    pub asked: Seq<RequestView>,
}

impl Talk {
    /// A talk at its start.
    pub open spec fn opening(replies: Seq<ReplyView>) -> Talk {
        Talk { replies, heard: 0, asked: Seq::empty() }
    }

    /// How many replies are there that were not heard yet.
    pub open spec fn ahead(self) -> nat {
        if self.heard < self.replies.len() {
            (self.replies.len() - self.heard) as nat
        } else {
            0
        }
    }

    /// Asks, and hears the next reply where there is one.
    pub open spec fn ask(self, request: RequestView) -> (Talk, Result<ReplyView, StopView>) {
        if self.heard < self.replies.len() {
            (
                Talk { heard: self.heard + 1, asked: self.asked.push(request), ..self },
                Ok(self.replies[self.heard as int]),
            )
        } else {
            (Talk { asked: self.asked.push(request), ..self }, Err(StopView::Pending))
        }
    }

    /// Asks for something that is answered by [`ReplyView::Done`].
    pub open spec fn tell(self, request: RequestView) -> (Talk, Result<(), StopView>) {
        match self.ask(request) {
            (talk, Ok(ReplyView::Done)) => (talk, Ok(())),
            (talk, Ok(_)) => (talk, Err(StopView::Fault)),
            (talk, Err(stop)) => (talk, Err(stop)),
        }
    }
}

/// A talk with the world: the replies that are there, how many of them were heard, and what was
/// asked.
#[derive(Debug)]
pub struct Dialogue {
    replies: Vec<Reply>,
    heard: usize,
    asked: Vec<Request>,
}

impl DeepView for Dialogue {
    type V = Talk;

    closed spec fn deep_view(&self) -> Talk {
        Talk {
            replies: self.replies.deep_view(),
            heard: self.heard as nat,
            asked: self.asked.deep_view(),
        }
    }
}

impl Dialogue {
    /// A talk without replies.
    pub fn new() -> (r: Dialogue)
        ensures
            r.deep_view() == Talk::opening(Seq::empty()),
    {
        let r = Dialogue { replies: Vec::new(), heard: 0, asked: Vec::new() };
        assert(r.deep_view().replies =~= Seq::empty());
        assert(r.deep_view().asked =~= Seq::empty());
        r
    }

    /// Puts one reply more behind the others, and goes back to the start of the talk.
    pub fn answer(&mut self, reply: Reply)
        ensures
            final(self).deep_view() == Talk::opening(
                old(self).deep_view().replies.push(reply.deep_view()),
            ),
    {
        self.replies.push(reply);
        self.heard = 0;
        self.asked = Vec::new();
        assert(self.deep_view().replies =~= old(self).deep_view().replies.push(reply.deep_view()));
        assert(self.deep_view().asked =~= Seq::empty());
    }

    /// Takes out the request that was asked last.
    pub fn take_request(&mut self) -> (r: Option<Request>)
        ensures
            final(self).deep_view().replies == old(self).deep_view().replies,
            final(self).deep_view().heard == old(self).deep_view().heard,
            match r {
                Some(request) => {
                    &&& old(self).deep_view().asked.len() > 0
                    &&& request.deep_view() == old(self).deep_view().asked.last()
                    &&& final(self).deep_view().asked == old(self).deep_view().asked.drop_last()
                },
                None => {
                    &&& old(self).deep_view().asked.len() == 0
                    &&& final(self).deep_view().asked == old(self).deep_view().asked
                },
            },
    {
        let r = self.asked.pop();
        proof {
            if r is Some {
                assert(self.deep_view().asked =~= old(self).deep_view().asked.drop_last());
            }
        }
        r
    }

    /// Asks, and hears the next reply where there is one.
    pub(crate) fn ask(&mut self, request: Request) -> (r: Result<Reply, Stop>)
        ensures
            (final(self).deep_view(), result_view(r)) == old(self).deep_view().ask(
                request.deep_view(),
            ),
    {
        self.asked.push(request);
        assert(self.deep_view().asked =~= old(self).deep_view().asked.push(request.deep_view()));
        if self.heard < self.replies.len() {
            let reply: Reply = self.replies[self.heard].clone();
            self.heard = self.heard + 1;
            Ok(reply)
        } else {
            Err(Stop::Pending)
        }
    }

    /// Asks for something that is answered by [`Reply::Done`].
    pub(crate) fn tell(&mut self, request: Request) -> (r: Result<(), Stop>)
        ensures
            (final(self).deep_view(), result_view(r)) == old(self).deep_view().tell(
                request.deep_view(),
            ),
    {
        match self.ask(request)? {
            Reply::Done => Ok(()),
            _ => Err(Stop::Fault),
        }
    }
}

/// A talk at its start holds the replies that are there; none was heard, and nothing was asked.
pub proof fn opening_holds_the_replies(replies: Seq<ReplyView>)
    ensures
        Talk::opening(replies).replies == replies,
        Talk::opening(replies).heard == 0,
        Talk::opening(replies).asked.len() == 0,
{
}

/// What is asked is put behind what was asked before. It hears the next reply where there is one,
/// which is then heard, and waits where there is none.
pub proof fn asking_hears_the_next_reply(talk: Talk, request: RequestView)
    ensures
        talk.ask(request).0.asked == talk.asked.push(request),
        talk.ask(request).0.replies == talk.replies,
        talk.heard < talk.replies.len() ==> {
            &&& talk.ask(request).1 == Ok::<ReplyView, StopView>(talk.replies[talk.heard as int])
            &&& talk.ask(request).0.heard == talk.heard + 1
        },
        talk.heard >= talk.replies.len() ==> {
            &&& talk.ask(request).1 == Err::<ReplyView, StopView>(StopView::Pending)
            &&& talk.ask(request).0.heard == talk.heard
        },
{
}

/// What is only told is done with the reply that says so; any other reply breaks the rules.
pub proof fn telling_hears_that_it_is_done(talk: Talk, request: RequestView)
    ensures
        talk.tell(request).0 == talk.ask(request).0,
        talk.tell(request).1 == match talk.ask(request).1 {
            Ok(reply) => if reply is Done {
                Ok::<(), StopView>(())
            } else {
                Err(StopView::Fault)
            },
            Err(stop) => Err(stop),
        },
{
}

} // verus!
