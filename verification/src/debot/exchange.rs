//! What is asked, and what comes of it, reply by reply: the calls that a debot's functions make.

use crate::client::ClientErrorView;
use crate::debot::abi::AbiView;
use crate::debot::dialogue::{
    DecodedOutputView, EncodeView, ReplyView, RequestView, StopView, Talk, TvmView,
};
use crate::debot::script;
use crate::debot::script::DebotView;
use crate::json::JsonView;
use crate::text;
use vstd::prelude::*;

verus! {

/// Whether the next replies of a talk are these, in this order.
pub open spec fn hears(talk: Talk, replies: Seq<ReplyView>) -> bool {
    &&& talk.heard + replies.len() <= talk.replies.len()
    &&& forall|i: int|
        0 <= i < replies.len() ==> talk.replies[talk.heard + i] == #[trigger] replies[i]
}

/// The talk once these requests were made and each of them was answered.
pub open spec fn after(talk: Talk, requests: Seq<RequestView>) -> Talk {
    Talk { heard: talk.heard + requests.len(), asked: talk.asked + requests, ..talk }
}

/// A run of a function that succeeds: the message that calls it, the account that it leaves, the
/// messages that it sends, and its output.
pub struct Ran {
    pub message: Seq<char>,
    pub account: Seq<char>,
    pub msgs: Seq<Seq<char>>,
    pub output: Option<JsonView>,
}

impl Ran {
    /// The replies to a run: the encoded message, and what running it came to.
    pub open spec fn replies(self) -> Seq<ReplyView> {
        seq![
            ReplyView::Message(Ok(self.message)),
            ReplyView::TvmRun(
                Ok(
                    TvmView {
                        account: self.account,
                        out_messages: self.msgs,
                        decoded: Some(DecodedOutputView { output: self.output }),
                    },
                ),
            ),
        ]
    }

    /// The output as a document, an empty object where there is none.
    pub open spec fn document(self) -> JsonView {
        match self.output {
            Some(doc) => doc,
            None => JsonView::Object(Map::empty()),
        }
    }
}

/// The request to encode an unsigned call of a function of the contract at an address.
pub open spec fn encoding(
    addr: Seq<char>,
    abi: AbiView,
    func: Seq<char>,
    args: Option<JsonView>,
) -> RequestView {
    RequestView::EncodeMessage(
        EncodeView {
            abi,
            address: addr,
            tvc: None,
            function_name: func,
            input: args,
            signer: None,
        },
    )
}

/// The requests that run a function of the contract at an address on an account: the call is
/// encoded by the contract's interface, and the message that came of it is run by the same one.
pub open spec fn running(
    account: Seq<char>,
    addr: Seq<char>,
    abi: AbiView,
    func: Seq<char>,
    args: Option<JsonView>,
    message: Seq<char>,
) -> Seq<RequestView> {
    seq![encoding(addr, abi, func, args), RequestView::RunTvm { account, message, abi }]
}

/// The requests that run a function of the debot on the account that it holds, by its own
/// interface.
pub open spec fn running_own(
    debot: DebotView,
    func: Seq<char>,
    args: Option<JsonView>,
    ran: Ran,
) -> Seq<RequestView> {
    running(debot.state, debot.addr, debot.abi, func, args, ran.message)
}

/// The request for the account at an address.
pub open spec fn account_query(addr: Seq<char>) -> RequestView {
    RequestView::QueryCollection {
        collection: "accounts"@,
        filter: JsonView::Object(
            Map::<Seq<char>, JsonView>::empty().insert(
                "id"@,
                JsonView::Object(
                    Map::<Seq<char>, JsonView>::empty().insert("eq"@, JsonView::Str(addr)),
                ),
            ),
        ),
        result: "boc"@,
        limit: 1,
    }
}

pub(crate) proof fn lemma_hears_split(
    talk: Talk,
    first: Seq<ReplyView>,
    rest: Seq<ReplyView>,
    requests: Seq<RequestView>,
)
    requires
        hears(talk, first + rest),
        requests.len() == first.len(),
    ensures
        hears(talk, first),
        hears(after(talk, requests), rest),
{
    let all = first + rest;
    assert forall|i: int| 0 <= i < first.len() implies talk.replies[talk.heard + i]
        == #[trigger] first[i] by {
        assert(all[i] == first[i]);
    }
    assert forall|i: int| 0 <= i < rest.len() implies talk.replies[talk.heard + first.len() + i]
        == #[trigger] rest[i] by {
        assert(all[first.len() + i] == rest[i]);
    }
}

pub(crate) proof fn lemma_after_join(talk: Talk, first: Seq<RequestView>, rest: Seq<RequestView>)
    ensures
        after(after(talk, first), rest) == after(talk, first + rest),
{
    assert(talk.asked + first + rest =~= talk.asked + (first + rest));
}

pub(crate) proof fn lemma_ask(talk: Talk, request: RequestView, reply: ReplyView)
    requires
        hears(talk, seq![reply]),
    ensures
        talk.ask(request) == (after(talk, seq![request]), Ok::<ReplyView, StopView>(reply)),
{
    assert(seq![reply][0] == reply);
    assert(talk.asked.push(request) =~= talk.asked + seq![request]);
}

pub(crate) proof fn lemma_run(
    talk: Talk,
    account: Seq<char>,
    addr: Seq<char>,
    abi: AbiView,
    func: Seq<char>,
    args: Option<JsonView>,
    ran: Ran,
)
    requires
        hears(talk, ran.replies()),
    ensures
        ({
            let said = script::run(talk, account, addr, abi, func, args);
            &&& said.0 == after(talk, running(account, addr, abi, func, args, ran.message))
            &&& said.1 matches Ok(Ok(out))
            &&& out.account == ran.account
            &&& out.msgs == ran.msgs
            &&& out.output == ran.output
        }),
{
    assert(ran.replies()[0] == ReplyView::Message(Ok(ran.message)));
    assert(ran.replies()[1] is TvmRun);
    assert(talk.replies[talk.heard as int] == ran.replies()[0]);
    assert(talk.replies[talk.heard as int + 1] == ran.replies()[1]);
    assert(talk.asked.push(encoding(addr, abi, func, args)).push(
        RequestView::RunTvm { account, message: ran.message, abi },
    ) =~= talk.asked + running(account, addr, abi, func, args, ran.message));
}

/// A get-function of the debot is run on the debot's account, by the debot's own interface, and
/// gives its output.
pub proof fn get_function_runs(
    debot: DebotView,
    talk: Talk,
    func: Seq<char>,
    args: Option<JsonView>,
    ran: Ran,
)
    requires
        hears(talk, ran.replies()),
    ensures
        script::run_debot_get(debot, talk, func, args) == (
            after(talk, running_own(debot, func, args, ran)),
            Ok::<JsonView, StopView>(ran.document()),
        ),
{
    lemma_run(talk, debot.state, debot.addr, debot.abi, func, args, ran);
}

/// A function of the debot is run on the debot's account, by the debot's own interface. It gives
/// its output, and the debot goes on with the account that it left.
pub proof fn function_runs(
    debot: DebotView,
    talk: Talk,
    name: Seq<char>,
    args: Option<JsonView>,
    ran: Ran,
)
    requires
        hears(talk, ran.replies()),
    ensures
        script::run_debot(debot, talk, name, args) == (
            DebotView { state: ran.account, ..debot },
            after(talk, running_own(debot, name, args, ran)),
            Ok::<Option<JsonView>, StopView>(ran.output),
        ),
{
    lemma_run(talk, debot.state, debot.addr, debot.abi, name, args, ran);
}

/// The account at an address is asked for by that address, and is the `boc` of the first record.
pub proof fn account_is_loaded(talk: Talk, addr: Seq<char>, found: Seq<JsonView>, boc: Seq<char>)
    requires
        found.len() > 0,
        found[0].at("boc"@) == JsonView::Str(boc),
        hears(talk, seq![ReplyView::Collection(Ok(found))]),
    ensures
        script::load_state(talk, addr) == (
            after(talk, seq![account_query(addr)]),
            Ok::<Seq<char>, StopView>(boc),
        ),
{
    lemma_ask(talk, account_query(addr), ReplyView::Collection(Ok(found)));
}

/// An account that is not found is reported with its address, and a query that fails with the
/// text of its error.
pub proof fn account_is_missing(talk: Talk, addr: Seq<char>, error: Option<Seq<char>>)
    requires
        hears(
            talk,
            seq![
                ReplyView::Collection(
                    match error {
                        Some(e) => Err(e),
                        None => Ok(Seq::empty()),
                    },
                ),
            ],
        ),
    ensures
        script::load_state(talk, addr) == (
            after(talk, seq![account_query(addr)]),
            Err::<Seq<char>, StopView>(
                StopView::Failed(
                    match error {
                        Some(e) => "failed to query debot account: "@ + e,
                        None => "Cannot find debot with this address "@ + addr
                            + " in blockchain"@,
                    },
                ),
            ),
        ),
{
    let found: Result<Seq<JsonView>, Seq<char>> = match error {
        Some(e) => Err(e),
        None => Ok(Seq::empty()),
    };
    lemma_ask(talk, account_query(addr), ReplyView::Collection(found));
}

/// A get-function of another contract is run on that contract's account, as it was loaded, by that
/// contract's interface.
pub proof fn foreign_function_runs(
    debot: DebotView,
    talk: Talk,
    addr: Seq<char>,
    abi: AbiView,
    name: Seq<char>,
    params: Option<JsonView>,
    found: Seq<JsonView>,
    boc: Seq<char>,
    ran: Ran,
)
    requires
        found.len() > 0,
        found[0].at("boc"@) == JsonView::Str(boc),
        hears(talk, seq![ReplyView::Collection(Ok(found))] + ran.replies()),
    ensures
        script::run_get(debot, talk, addr, abi, name, params) == (
            after(
                talk,
                seq![account_query(addr)] + running(boc, addr, abi, name, params, ran.message),
            ),
            Ok::<JsonView, StopView>(ran.document()),
        ),
{
    let query = seq![account_query(addr)];
    lemma_hears_split(talk, seq![ReplyView::Collection(Ok(found))], ran.replies(), query);
    account_is_loaded(talk, addr, found, boc);
    lemma_run(after(talk, query), boc, addr, abi, name, params, ran);
    lemma_after_join(talk, query, running(boc, addr, abi, name, params, ran.message));
}

/// The replies to a run that fails: at once where no message is given, else when that message is
/// run.
pub open spec fn failing_replies(message: Option<Seq<char>>, e: ClientErrorView) -> Seq<ReplyView> {
    match message {
        Some(m) => seq![ReplyView::Message(Ok(m)), ReplyView::TvmRun(Err(e))],
        None => seq![ReplyView::Message(Err(e))],
    }
}

/// The requests of a run that fails.
pub open spec fn failing_run(
    account: Seq<char>,
    addr: Seq<char>,
    abi: AbiView,
    func: Seq<char>,
    args: Option<JsonView>,
    message: Option<Seq<char>>,
) -> Seq<RequestView> {
    match message {
        Some(m) => running(account, addr, abi, func, args, m),
        None => seq![encoding(addr, abi, func, args)],
    }
}

pub(crate) proof fn lemma_run_fails(
    talk: Talk,
    account: Seq<char>,
    addr: Seq<char>,
    abi: AbiView,
    func: Seq<char>,
    args: Option<JsonView>,
    message: Option<Seq<char>>,
    e: ClientErrorView,
)
    requires
        hears(talk, failing_replies(message, e)),
    ensures
        ({
            let said = script::run(talk, account, addr, abi, func, args);
            &&& said.0 == after(talk, failing_run(account, addr, abi, func, args, message))
            &&& said.1 == Ok::<Result<script::RunOutputView, ClientErrorView>, StopView>(Err(e))
        }),
{
    let replies = failing_replies(message, e);
    assert(talk.replies[talk.heard as int] == replies[0]);
    match message {
        Some(m) => {
            assert(talk.replies[talk.heard as int + 1] == replies[1]);
            assert(talk.asked.push(encoding(addr, abi, func, args)).push(
                RequestView::RunTvm { account, message: m, abi },
            ) =~= talk.asked + running(account, addr, abi, func, args, m));
        },
        None => {
            assert(talk.asked.push(encoding(addr, abi, func, args)) =~= talk.asked + seq![
                encoding(addr, abi, func, args),
            ]);
        },
    }
}

/// A get-function of the debot that fails is reported as the client shows its error.
pub proof fn get_function_fails(
    debot: DebotView,
    talk: Talk,
    func: Seq<char>,
    args: Option<JsonView>,
    message: Option<Seq<char>>,
    e: ClientErrorView,
)
    requires
        hears(talk, failing_replies(message, e)),
    ensures
        script::run_debot_get(debot, talk, func, args) == (
            after(talk, failing_run(debot.state, debot.addr, debot.abi, func, args, message)),
            Err::<JsonView, StopView>(StopView::Failed(e.display)),
        ),
{
    lemma_run_fails(talk, debot.state, debot.addr, debot.abi, func, args, message, e);
}

/// Whether an error of the client says that the contract has thrown, with a code of its own.
pub open spec fn thrown(e: ClientErrorView) -> Option<i64> {
    if e.code == 3025 {
        e.data.at("exit_code"@).as_i64()
    } else {
        None
    }
}

/// An error is put into words without asking: arguments in a wrong format are invalid parameters,
/// and an error that no contract has thrown is told by its message.
pub proof fn plain_errors_in_words(debot: DebotView, talk: Talk, e: ClientErrorView)
    requires
        text::occurs_in("Wrong data format"@, e.message) || thrown(e) is None,
    ensures
        script::handle_sdk_err(debot, talk, e) == (
            talk,
            Ok::<Seq<char>, StopView>(
                if text::occurs_in("Wrong data format"@, e.message) {
                    "invalid parameter"@
                } else {
                    e.message
                },
            ),
        ),
{
    reveal(script::handle_sdk_err);
}

/// An error that a contract has thrown is told in the words that the debot has for its code: the
/// text that the `desc` of its answer writes in hexadecimal, or the message of the error where
/// that is no text.
pub proof fn thrown_errors_in_words(
    debot: DebotView,
    talk: Talk,
    e: ClientErrorView,
    code: i64,
    ran: Ran,
)
    requires
        !text::occurs_in("Wrong data format"@, e.message),
        thrown(e) == Some(code),
        hears(talk, ran.replies()),
    ensures
        script::handle_sdk_err(debot, talk, e) == (
            after(
                talk,
                running_own(
                    debot,
                    "getErrorDescription"@,
                    Some(
                        JsonView::Object(
                            Map::<Seq<char>, JsonView>::empty().insert(
                                "error"@,
                                JsonView::Int(code),
                            ),
                        ),
                    ),
                    ran,
                ),
            ),
            Ok::<Seq<char>, StopView>(
                match ran.document().at("desc"@) {
                    JsonView::Str(hex) => match text::hex_text(hex) {
                        Some(words) => words,
                        None => e.message,
                    },
                    _ => e.message,
                },
            ),
        ),
{
    reveal(script::handle_sdk_err);
    let args = Some(
        JsonView::Object(
            Map::<Seq<char>, JsonView>::empty().insert("error"@, JsonView::Int(code)),
        ),
    );
    get_function_runs(debot, talk, "getErrorDescription"@, args, ran);
}

/// Where the debot cannot tell the words for a thrown error, the message of the error is told.
pub proof fn thrown_errors_without_words(
    debot: DebotView,
    talk: Talk,
    e: ClientErrorView,
    code: i64,
    message: Option<Seq<char>>,
    again: ClientErrorView,
)
    requires
        !text::occurs_in("Wrong data format"@, e.message),
        thrown(e) == Some(code),
        hears(talk, failing_replies(message, again)),
    ensures
        script::handle_sdk_err(debot, talk, e) == (
            after(
                talk,
                failing_run(
                    debot.state,
                    debot.addr,
                    debot.abi,
                    "getErrorDescription"@,
                    Some(
                        JsonView::Object(
                            Map::<Seq<char>, JsonView>::empty().insert(
                                "error"@,
                                JsonView::Int(code),
                            ),
                        ),
                    ),
                    message,
                ),
            ),
            Ok::<Seq<char>, StopView>(e.message),
        ),
{
    reveal(script::handle_sdk_err);
    let args = Some(
        JsonView::Object(
            Map::<Seq<char>, JsonView>::empty().insert("error"@, JsonView::Int(code)),
        ),
    );
    get_function_fails(debot, talk, "getErrorDescription"@, args, message, again);
}

/// Whether something fails by an error of the client: the debot stays as it is, the words for the
/// error are found from where the talk has come to, and they are the text of the failure.
pub open spec fn fails_by<T>(
    done: (DebotView, Talk, Result<T, StopView>),
    debot: DebotView,
    on: Talk,
    e: ClientErrorView,
) -> bool {
    let (told, words) = script::handle_sdk_err(debot, on, e);
    &&& done.0 == debot
    &&& done.1 == told
    &&& done.2 == match words {
        Ok(w) => Err::<T, StopView>(StopView::Failed(w)),
        Err(stop) => Err::<T, StopView>(stop),
    }
}

/// A function of the debot that fails leaves the debot as it was, and fails with the words for the
/// error.
pub proof fn function_fails(
    debot: DebotView,
    talk: Talk,
    name: Seq<char>,
    args: Option<JsonView>,
    message: Option<Seq<char>>,
    e: ClientErrorView,
)
    requires
        hears(talk, failing_replies(message, e)),
    ensures
        fails_by(
            script::run_debot(debot, talk, name, args),
            debot,
            after(talk, failing_run(debot.state, debot.addr, debot.abi, name, args, message)),
            e,
        ),
{
    lemma_run_fails(talk, debot.state, debot.addr, debot.abi, name, args, message, e);
}

/// A get-function of another contract that fails fails with the words that the debot has for the
/// error.
pub proof fn foreign_function_fails(
    debot: DebotView,
    talk: Talk,
    addr: Seq<char>,
    abi: AbiView,
    name: Seq<char>,
    params: Option<JsonView>,
    found: Seq<JsonView>,
    boc: Seq<char>,
    message: Option<Seq<char>>,
    e: ClientErrorView,
)
    requires
        found.len() > 0,
        found[0].at("boc"@) == JsonView::Str(boc),
        hears(talk, seq![ReplyView::Collection(Ok(found))] + failing_replies(message, e)),
    ensures
        ({
            let said = script::run_get(debot, talk, addr, abi, name, params);
            fails_by(
                (debot, said.0, said.1),
                debot,
                after(
                    talk,
                    seq![account_query(addr)] + failing_run(boc, addr, abi, name, params, message),
                ),
                e,
            )
        }),
{
    let query = seq![account_query(addr)];
    let failing = failing_run(boc, addr, abi, name, params, message);
    lemma_hears_split(
        talk,
        seq![ReplyView::Collection(Ok(found))],
        failing_replies(message, e),
        query,
    );
    account_is_loaded(talk, addr, found, boc);
    lemma_run_fails(after(talk, query), boc, addr, abi, name, params, message, e);
    lemma_after_join(talk, query, failing);
}

/// A reply that is no message where one is to be encoded, and one that is no run where one is to be
/// made, break the rules.
pub proof fn other_replies_are_faults(
    debot: DebotView,
    talk: Talk,
    name: Seq<char>,
    args: Option<JsonView>,
    message: Option<Seq<char>>,
    reply: ReplyView,
)
    requires
        match message {
            Some(m) => !(reply is TvmRun) && hears(
                talk,
                seq![ReplyView::Message(Ok(m)), reply],
            ),
            None => !(reply is Message) && hears(talk, seq![reply]),
        },
    ensures
        script::run_debot(debot, talk, name, args) == (
            debot,
            after(talk, failing_run(debot.state, debot.addr, debot.abi, name, args, message)),
            Err::<Option<JsonView>, StopView>(StopView::Fault),
        ),
{
    match message {
        Some(m) => {
            let replies = seq![ReplyView::Message(Ok(m)), reply];
            assert(talk.replies[talk.heard as int] == replies[0]);
            assert(talk.replies[talk.heard as int + 1] == replies[1]);
            assert(talk.asked.push(encoding(debot.addr, debot.abi, name, args)).push(
                RequestView::RunTvm { account: debot.state, message: m, abi: debot.abi },
            ) =~= talk.asked + running(debot.state, debot.addr, debot.abi, name, args, m));
        },
        None => lemma_ask(talk, encoding(debot.addr, debot.abi, name, args), reply),
    }
}

/// A run whose output was not decoded breaks the rules, and leaves the debot as it was.
pub proof fn undecoded_run_is_a_fault(
    debot: DebotView,
    talk: Talk,
    name: Seq<char>,
    args: Option<JsonView>,
    message: Seq<char>,
    tvm: TvmView,
)
    requires
        tvm.decoded is None,
        hears(talk, seq![ReplyView::Message(Ok(message)), ReplyView::TvmRun(Ok(tvm))]),
    ensures
        script::run_debot(debot, talk, name, args).0 == debot,
        script::run_debot(debot, talk, name, args).2 == Err::<Option<JsonView>, StopView>(
            StopView::Fault,
        ),
        script::run_debot_get(debot, talk, name, args).1 == Err::<JsonView, StopView>(
            StopView::Fault,
        ),
{
    let replies = seq![ReplyView::Message(Ok(message)), ReplyView::TvmRun(Ok(tvm))];
    assert(talk.replies[talk.heard as int] == replies[0]);
    assert(talk.replies[talk.heard as int + 1] == replies[1]);
}

/// A record without an account breaks the rules.
pub proof fn record_without_account_is_a_fault(talk: Talk, addr: Seq<char>, found: Seq<JsonView>)
    requires
        found.len() > 0,
        !(found[0].at("boc"@) is Str),
        hears(talk, seq![ReplyView::Collection(Ok(found))]),
    ensures
        script::load_state(talk, addr).1 == Err::<Seq<char>, StopView>(StopView::Fault),
{
    lemma_ask(talk, account_query(addr), ReplyView::Collection(Ok(found)));
}

} // verus!
