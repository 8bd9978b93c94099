//! What is asked, and what comes of it, when a debot is loaded and started.

use crate::client::ClientErrorView;
use crate::debot::abi::AbiView;
use crate::debot::action::DActionView;
use crate::debot::context;
use crate::debot::context::DContextView;
use crate::debot::dialogue::{ReplyView, RequestView, StopView, Talk};
use crate::debot::exchange;
use crate::debot::exchange::Ran;
use crate::debot::laws;
use crate::debot::script;
use crate::debot::script::{DebotView, NextView, OperationView};
use crate::debot::turns;
use crate::json;
use crate::json::JsonView;
use crate::text;
use vstd::prelude::*;

verus! {

/// The answer of a debot to the question for its options: the number that holds the bits, as the
/// debot writes it and as it is read; what it gives for each bit; and what its own interface is
/// parsed to.
pub struct Options {
    pub ran: Ran,
    pub number: Seq<char>,
    pub bits: u8,
    pub debot_abi: Seq<char>,
    pub parsed: Seq<char>,
    pub target_abi: Seq<char>,
    pub target_addr: Seq<char>,
}

impl Options {
    /// Whether the debot's answer holds these options.
    pub open spec fn given(self) -> bool {
        let params = self.ran.document();
        &&& params.at("options"@) == JsonView::Str(self.number)
        &&& self.bits & 1 != 0 ==> params.at("debotAbi"@) == JsonView::Str(self.debot_abi)
        &&& self.bits & 1 != 0 ==> text::hex_text(self.debot_abi) is Some
        &&& self.bits & 2 != 0 ==> params.at("targetAbi"@) == JsonView::Str(self.target_abi)
        &&& self.bits & 4 != 0 ==> params.at("targetAddr"@) == JsonView::Str(self.target_addr)
    }

    /// The replies by which the options are taken over.
    pub open spec fn replies(self) -> Seq<ReplyView> {
        self.ran.replies() + seq![ReplyView::Number(Some(self.bits as u32))] + (if self.bits & 1
            != 0 {
            seq![ReplyView::Abi(Ok(self.parsed))]
        } else {
            Seq::empty()
        })
    }

    /// The requests by which the options are taken over.
    pub open spec fn requests(self, debot: DebotView) -> Seq<RequestView> {
        exchange::running_own(debot, "getDebotOptions"@, None, self.ran) + seq![
            RequestView::DecodeNumber(self.number),
        ] + (if self.bits & 1 != 0 {
            seq![RequestView::ParseAbi(text::hex_text(self.debot_abi)->0)]
        } else {
            Seq::empty()
        })
    }

    /// The debot with the options taken over.
    pub open spec fn taken(self, debot: DebotView) -> DebotView {
        DebotView {
            abi: if self.bits & 1 != 0 {
                AbiView { json: self.parsed }
            } else {
                debot.abi
            },
            target_abi: if self.bits & 2 != 0 {
                text::hex_text(self.target_abi)
            } else {
                debot.target_abi
            },
            target_addr: if self.bits & 4 != 0 {
                Some(self.target_addr)
            } else {
                debot.target_addr
            },
            ..debot
        }
    }
}

/// The options of a debot are asked for by its own interface, and each bit brings what it stands
/// for: bit 1 the debot's interface, bit 2 the target's, bit 4 the target's address.
pub proof fn options_are_taken_over(debot: DebotView, talk: Talk, options: Options)
    requires
        options.given(),
        exchange::hears(talk, options.replies()),
    ensures
        script::update_options(debot, talk) == (
            options.taken(debot),
            exchange::after(talk, options.requests(debot)),
            Ok::<(), StopView>(()),
        ),
{
    let ran = options.ran;
    let number = seq![ReplyView::Number(Some(options.bits as u32))];
    let tail: Seq<ReplyView> = if options.bits & 1 != 0 {
        seq![ReplyView::Abi(Ok(options.parsed))]
    } else {
        Seq::empty()
    };
    let q1 = exchange::running_own(debot, "getDebotOptions"@, None, ran);
    let q2 = seq![RequestView::DecodeNumber(options.number)];
    let q3: Seq<RequestView> = if options.bits & 1 != 0 {
        seq![RequestView::ParseAbi(text::hex_text(options.debot_abi)->0)]
    } else {
        Seq::empty()
    };
    exchange::lemma_hears_split(talk, ran.replies() + number, tail, q1 + q2);
    exchange::lemma_hears_split(talk, ran.replies(), number, q1);
    exchange::get_function_runs(debot, talk, "getDebotOptions"@, None, ran);
    let t1 = exchange::after(talk, q1);
    exchange::lemma_ask(t1, q2[0], number[0]);
    exchange::lemma_after_join(talk, q1, q2);
    let t2 = exchange::after(talk, q1 + q2);
    if options.bits & 1 != 0 {
        exchange::lemma_ask(t2, q3[0], tail[0]);
    } else {
        assert(t2.asked + q3 =~= t2.asked);
    }
    exchange::lemma_after_join(talk, q1 + q2, q3);
    assert(options.bits as u32 as u8 == options.bits);
}

/// An interface of its own that is no text, or that does not parse, fails the options with the
/// text for it, and the debot stays as it was.
pub proof fn bad_interface_is_refused(
    debot: DebotView,
    talk: Talk,
    ran: Ran,
    number: Seq<char>,
    bits: u8,
    hex: Seq<char>,
    error: Seq<char>,
)
    requires
        bits & 1 != 0,
        ran.document().at("options"@) == JsonView::Str(number),
        ran.document().at("debotAbi"@) == JsonView::Str(hex),
        exchange::hears(
            talk,
            ran.replies() + seq![ReplyView::Number(Some(bits as u32))] + (if text::hex_text(hex)
                is Some {
                seq![ReplyView::Abi(Err(error))]
            } else {
                Seq::empty()
            }),
        ),
    ensures
        ({
            let done = script::update_options(debot, talk);
            &&& done.0 == debot
            &&& done.2 == Err::<(), StopView>(
                StopView::Failed(
                    if text::hex_text(hex) is Some {
                        "failed to parse abi: "@ + error
                    } else {
                        "cannot convert hex string to debot abi"@
                    },
                ),
            )
        }),
{
    let n = seq![ReplyView::Number(Some(bits as u32))];
    let tail: Seq<ReplyView> = if text::hex_text(hex) is Some {
        seq![ReplyView::Abi(Err(error))]
    } else {
        Seq::empty()
    };
    let q1 = exchange::running_own(debot, "getDebotOptions"@, None, ran);
    let q2 = seq![RequestView::DecodeNumber(number)];
    exchange::lemma_hears_split(talk, ran.replies() + n, tail, q1 + q2);
    exchange::lemma_hears_split(talk, ran.replies(), n, q1);
    exchange::get_function_runs(debot, talk, "getDebotOptions"@, None, ran);
    exchange::lemma_ask(exchange::after(talk, q1), q2[0], n[0]);
    exchange::lemma_after_join(talk, q1, q2);
    if text::hex_text(hex) is Some {
        exchange::lemma_ask(
            exchange::after(talk, q1 + q2),
            RequestView::ParseAbi(text::hex_text(hex)->0),
            tail[0],
        );
    }
    assert(bits as u32 as u8 == bits);
}

/// The version of a debot is asked for by its own interface, and is the text of its answer.
pub proof fn version_is_asked(debot: DebotView, talk: Talk, ran: Ran)
    requires
        exchange::hears(talk, ran.replies()),
    ensures
        script::version(debot, talk) == (
            exchange::after(talk, exchange::running_own(debot, "getVersion"@, None, ran)),
            Ok::<Seq<char>, StopView>(json::json_text(ran.document())),
        ),
{
    exchange::get_function_runs(debot, talk, "getVersion"@, None, ran);
}

/// A version that cannot be asked for is reported as the client shows its error.
pub proof fn version_fails(
    debot: DebotView,
    talk: Talk,
    message: Option<Seq<char>>,
    e: ClientErrorView,
)
    requires
        exchange::hears(talk, exchange::failing_replies(message, e)),
    ensures
        script::version(debot, talk).1 == Err::<Seq<char>, StopView>(StopView::Failed(e.display)),
{
    exchange::get_function_fails(debot, talk, "getVersion"@, None, message, e);
}

/// All that is heard while a debot is loaded: its account; its name, in hexadecimal, and its
/// version, as it is written and as it is read; its options; and its contexts.
pub struct Loading {
    pub found: Seq<JsonView>,
    pub boc: Seq<char>,
    pub about: Ran,
    pub name: Seq<char>,
    pub semver: Seq<char>,
    pub version: u32,
    pub options: Options,
    pub fetched: Ran,
    pub contexts: Seq<DContextView>,
}

impl Loading {
    pub open spec fn given(self) -> bool {
        &&& self.found.len() > 0
        &&& self.found[0].at("boc"@) == JsonView::Str(self.boc)
        &&& self.about.document().at("name"@) == JsonView::Str(self.name)
        &&& text::hex_text(self.name) is Some
        &&& self.about.document().at("semver"@) == JsonView::Str(self.semver)
        &&& self.options.given()
        &&& self.fetched.document() is Object || self.fetched.document() is Null
    }

    pub open spec fn replies(self) -> Seq<ReplyView> {
        seq![ReplyView::Collection(Ok(self.found))] + self.about.replies() + seq![
            ReplyView::Number(Some(self.version)),
        ] + seq![ReplyView::Done] + self.options.replies() + self.fetched.replies() + seq![
            ReplyView::Contexts(Some(self.contexts)),
        ]
    }

    /// The greeting: the name, and the second, third and fourth byte of the version.
    pub open spec fn greeting(self) -> Seq<char> {
        let v = self.version as nat;
        text::hex_text(self.name)->0 + ", version "@ + text::decimal_text((v / 0x1_0000) % 0x100)
            + "."@ + text::decimal_text((v / 0x100) % 0x100) + "."@ + text::decimal_text(v % 0x100)
    }

    /// The debot with its account loaded.
    pub open spec fn with_account(self, debot: DebotView) -> DebotView {
        DebotView { state: self.boc, ..debot }
    }

    /// The requests: each is made by the interface that the debot has at that moment, on the
    /// account that was loaded.
    pub open spec fn requests(self, debot: DebotView) -> Seq<RequestView> {
        let loaded = self.with_account(debot);
        seq![exchange::account_query(debot.addr)] + exchange::running_own(
            loaded,
            "getVersion"@,
            None,
            self.about,
        ) + seq![RequestView::DecodeNumber(self.semver)] + seq![RequestView::Log(self.greeting())]
            + self.options.requests(loaded) + exchange::running_own(
            self.options.taken(loaded),
            "fetch"@,
            None,
            self.fetched,
        ) + seq![RequestView::ParseContexts(self.fetched.document().at("contexts"@))]
    }

    /// The replies up to the greeting.
    pub open spec fn opening_replies(self) -> Seq<ReplyView> {
        seq![ReplyView::Collection(Ok(self.found))] + self.about.replies() + seq![
            ReplyView::Number(Some(self.version)),
        ] + seq![ReplyView::Done]
    }

    /// The requests up to the greeting.
    pub open spec fn opening_requests(self, debot: DebotView) -> Seq<RequestView> {
        seq![exchange::account_query(debot.addr)] + exchange::running_own(
            self.with_account(debot),
            "getVersion"@,
            None,
            self.about,
        ) + seq![RequestView::DecodeNumber(self.semver)] + seq![RequestView::Log(self.greeting())]
    }

    /// The debot as it is loaded.
    pub open spec fn result(self, debot: DebotView) -> DebotView {
        DebotView {
            state_machine: self.contexts,
            ..self.options.taken(self.with_account(debot))
        }
    }
}

proof fn lemma_introduced(debot: DebotView, talk: Talk, l: Loading)
    requires
        l.given(),
        exchange::hears(talk, l.opening_replies()),
    ensures
        ({
            let loaded = l.with_account(debot);
            let (t1, state) = script::load_state(talk, debot.addr);
            &&& state == Ok::<Seq<char>, StopView>(l.boc)
            &&& script::introduce(loaded, t1) == (
                exchange::after(talk, l.opening_requests(debot)),
                Ok::<(), StopView>(()),
            )
        }),
{
    let loaded = l.with_account(debot);
    let r1 = seq![ReplyView::Collection(Ok(l.found))];
    let r2 = l.about.replies();
    let r3 = seq![ReplyView::Number(Some(l.version))];
    let r4 = seq![ReplyView::Done];
    let q1 = seq![exchange::account_query(debot.addr)];
    let q2 = exchange::running_own(loaded, "getVersion"@, None, l.about);
    let q3 = seq![RequestView::DecodeNumber(l.semver)];
    let q4 = seq![RequestView::Log(l.greeting())];
    exchange::lemma_hears_split(talk, r1 + r2 + r3, r4, q1 + q2 + q3);
    exchange::lemma_hears_split(talk, r1 + r2, r3, q1 + q2);
    exchange::lemma_hears_split(talk, r1, r2, q1);
    exchange::lemma_after_join(talk, q1, q2);
    exchange::lemma_after_join(talk, q1 + q2, q3);
    exchange::lemma_after_join(talk, q1 + q2 + q3, q4);
    let t1 = exchange::after(talk, q1);
    let t2 = exchange::after(talk, q1 + q2);
    let t3 = exchange::after(talk, q1 + q2 + q3);
    exchange::account_is_loaded(talk, debot.addr, l.found, l.boc);
    exchange::get_function_runs(loaded, t1, "getVersion"@, None, l.about);
    exchange::lemma_ask(t2, q3[0], r3[0]);
    exchange::lemma_ask(t3, q4[0], r4[0]);
}

/// Loading a debot takes its account, greets the user, takes over its options, and stores its
/// contexts. Every function of the debot is run by the interface that the debot has then.
pub proof fn debot_is_loaded(debot: DebotView, talk: Talk, l: Loading)
    requires
        l.given(),
        exchange::hears(talk, l.replies()),
    ensures
        script::fetch(debot, talk) == (
            l.result(debot),
            exchange::after(talk, l.requests(debot)),
            Ok::<(), StopView>(()),
        ),
{
    let loaded = l.with_account(debot);
    let taken = l.options.taken(loaded);
    let r1 = l.opening_replies();
    let r2 = l.options.replies();
    let r3 = l.fetched.replies();
    let r4 = seq![ReplyView::Contexts(Some(l.contexts))];
    let q1 = l.opening_requests(debot);
    let q2 = l.options.requests(loaded);
    let q3 = exchange::running_own(taken, "fetch"@, None, l.fetched);
    let q4 = seq![RequestView::ParseContexts(l.fetched.document().at("contexts"@))];
    exchange::lemma_hears_split(talk, r1 + r2 + r3, r4, q1 + q2 + q3);
    exchange::lemma_hears_split(talk, r1 + r2, r3, q1 + q2);
    exchange::lemma_hears_split(talk, r1, r2, q1);
    exchange::lemma_after_join(talk, q1, q2);
    exchange::lemma_after_join(talk, q1 + q2, q3);
    exchange::lemma_after_join(talk, q1 + q2 + q3, q4);
    lemma_introduced(debot, talk, l);
    options_are_taken_over(loaded, exchange::after(talk, q1), l.options);
    exchange::get_function_runs(
        taken,
        exchange::after(talk, q1 + q2),
        "fetch"@,
        None,
        l.fetched,
    );
    exchange::lemma_ask(exchange::after(talk, q1 + q2 + q3), q4[0], r4[0]);
}

/// A debot that is started is loaded, and then the user is told that it goes to context zero, or
/// that it has none; the context that it was in is then the previous one.
pub proof fn start_goes_to_zero(debot: DebotView, talk: Talk, l: Loading)
    requires
        debot.curr_state != 0,
        l.given(),
        exchange::hears(talk, l.replies()),
    ensures
        ({
            let (after, on, outcome) = script::start(debot, talk);
            let loaded = exchange::after(talk, l.requests(debot));
            &&& turns::asked_on(loaded, on)
            &&& on.asked.len() > loaded.asked.len()
            &&& on.asked[loaded.asked.len() as int] == match context::context_with(l.contexts, 0) {
                Some(_) => RequestView::Switch(0),
                None => RequestView::Log("Debot context #0 not found. Exit."@),
            }
            &&& after.prev_state == debot.curr_state
            &&& after.state_machine == l.contexts
            &&& after.addr == debot.addr
        }),
{
    debot_is_loaded(debot, talk, l);
    laws::ordinary_switch_enters(l.result(debot), exchange::after(talk, l.requests(debot)), 0);
    reveal_strlit("Debot context #0 not found. Exit.");
    reveal_strlit("Debot context #");
    reveal_strlit(" not found. Exit.");
    assert("Debot context #"@ + text::decimal_text(0) + " not found. Exit."@
        =~= "Debot context #0 not found. Exit."@);
}

/// A debot that is started shows context zero as a whole where its actions are all for the user to
/// choose from, and is there afterwards.
pub proof fn start_shows_plain_zero(
    debot: DebotView,
    talk: Talk,
    l: Loading,
    ctx: DContextView,
)
    requires
        debot.curr_state != 0,
        l.given(),
        exchange::hears(talk, l.replies()),
        context::context_with(l.contexts, 0) == Some(ctx),
        forall|i: int| 0 <= i < ctx.actions.len() ==> laws::plain(#[trigger] ctx.actions[i]),
        laws::hears_done(exchange::after(talk, l.requests(debot)), ctx.actions.len() + 2),
    ensures
        script::start(debot, talk) == (
            DebotView { prev_state: debot.curr_state, curr_state: 0, ..l.result(debot) },
            exchange::after(
                exchange::after(talk, l.requests(debot)),
                seq![RequestView::Switch(0), RequestView::Log(ctx.desc)] + laws::offers(
                    ctx.actions,
                ),
            ),
            Ok::<(), StopView>(()),
        ),
{
    debot_is_loaded(debot, talk, l);
    laws::plain_switch(l.result(debot), exchange::after(talk, l.requests(debot)), 0, ctx);
}

/// A debot that is in context zero already is only loaded again.
pub proof fn start_in_zero_only_loads(debot: DebotView, talk: Talk, l: Loading)
    requires
        debot.curr_state == 0,
        l.given(),
        exchange::hears(talk, l.replies()),
    ensures
        script::start(debot, talk) == (
            l.result(debot),
            exchange::after(talk, l.requests(debot)),
            Ok::<(), StopView>(()),
        ),
{
    debot_is_loaded(debot, talk, l);
}

/// Where a loaded debot cannot say what it is, loading fails as the client shows the error, and the
/// debot keeps the account that was loaded and nothing else.
pub proof fn loading_fails_at_introduction(
    debot: DebotView,
    talk: Talk,
    found: Seq<JsonView>,
    boc: Seq<char>,
    message: Option<Seq<char>>,
    e: ClientErrorView,
)
    requires
        found.len() > 0,
        found[0].at("boc"@) == JsonView::Str(boc),
        exchange::hears(
            talk,
            seq![ReplyView::Collection(Ok(found))] + exchange::failing_replies(message, e),
        ),
    ensures
        script::fetch(debot, talk) == (
            DebotView { state: boc, ..debot },
            exchange::after(
                talk,
                seq![exchange::account_query(debot.addr)] + exchange::failing_run(
                    boc,
                    debot.addr,
                    debot.abi,
                    "getVersion"@,
                    None,
                    message,
                ),
            ),
            Err::<(), StopView>(StopView::Failed(e.display)),
        ),
{
    let loaded = DebotView { state: boc, ..debot };
    let q1 = seq![exchange::account_query(debot.addr)];
    let q2 = exchange::failing_run(boc, debot.addr, debot.abi, "getVersion"@, None, message);
    exchange::lemma_hears_split(
        talk,
        seq![ReplyView::Collection(Ok(found))],
        exchange::failing_replies(message, e),
        q1,
    );
    exchange::lemma_after_join(talk, q1, q2);
    exchange::account_is_loaded(talk, debot.addr, found, boc);
    exchange::get_function_fails(
        loaded,
        exchange::after(talk, q1),
        "getVersion"@,
        None,
        message,
        e,
    );
}

/// Where a debot's options cannot be asked for, loading fails as the client shows the error, after
/// the greeting.
pub proof fn loading_fails_at_options(
    debot: DebotView,
    talk: Talk,
    l: Loading,
    message: Option<Seq<char>>,
    e: ClientErrorView,
)
    requires
        l.given(),
        exchange::hears(talk, l.opening_replies() + exchange::failing_replies(message, e)),
    ensures
        script::fetch(debot, talk) == (
            l.with_account(debot),
            exchange::after(
                talk,
                l.opening_requests(debot) + exchange::failing_run(
                    l.boc,
                    debot.addr,
                    debot.abi,
                    "getDebotOptions"@,
                    None,
                    message,
                ),
            ),
            Err::<(), StopView>(StopView::Failed(e.display)),
        ),
{
    let loaded = l.with_account(debot);
    let q1 = l.opening_requests(debot);
    let q2 = exchange::failing_run(
        l.boc,
        debot.addr,
        debot.abi,
        "getDebotOptions"@,
        None,
        message,
    );
    exchange::lemma_hears_split(
        talk,
        l.opening_replies(),
        exchange::failing_replies(message, e),
        q1,
    );
    exchange::lemma_after_join(talk, q1, q2);
    lemma_introduced(debot, talk, l);
    options_and_contexts_fail(loaded, exchange::after(talk, q1), message, e);
}

/// Where a debot's contexts cannot be asked for, loading fails as the client shows the error, and
/// the debot keeps its account and the options that were taken over.
pub proof fn loading_fails_at_contexts(
    debot: DebotView,
    talk: Talk,
    l: Loading,
    message: Option<Seq<char>>,
    e: ClientErrorView,
)
    requires
        l.given(),
        exchange::hears(
            talk,
            l.opening_replies() + l.options.replies() + exchange::failing_replies(message, e),
        ),
    ensures
        ({
            let loaded = l.with_account(debot);
            let taken = l.options.taken(loaded);
            script::fetch(debot, talk) == (
                taken,
                exchange::after(
                    talk,
                    l.opening_requests(debot) + l.options.requests(loaded)
                        + exchange::failing_run(
                        taken.state,
                        taken.addr,
                        taken.abi,
                        "fetch"@,
                        None,
                        message,
                    ),
                ),
                Err::<(), StopView>(StopView::Failed(e.display)),
            )
        }),
{
    let loaded = l.with_account(debot);
    let taken = l.options.taken(loaded);
    let q1 = l.opening_requests(debot);
    let q2 = l.options.requests(loaded);
    let q3 = exchange::failing_run(
        taken.state,
        taken.addr,
        taken.abi,
        "fetch"@,
        None,
        message,
    );
    let r3 = exchange::failing_replies(message, e);
    exchange::lemma_hears_split(
        talk,
        l.opening_replies() + l.options.replies(),
        r3,
        q1 + q2,
    );
    exchange::lemma_hears_split(talk, l.opening_replies(), l.options.replies(), q1);
    exchange::lemma_after_join(talk, q1, q2);
    exchange::lemma_after_join(talk, q1 + q2, q3);
    lemma_introduced(debot, talk, l);
    options_are_taken_over(loaded, exchange::after(talk, q1), l.options);
    options_and_contexts_fail(taken, exchange::after(talk, q1 + q2), message, e);
}

/// Where the options or the contexts of a debot cannot be asked for, that part fails as the client
/// shows the error, and the debot stays as it was.
pub proof fn options_and_contexts_fail(
    debot: DebotView,
    talk: Talk,
    message: Option<Seq<char>>,
    e: ClientErrorView,
)
    requires
        exchange::hears(talk, exchange::failing_replies(message, e)),
    ensures
        script::update_options(debot, talk) == (
            debot,
            exchange::after(
                talk,
                exchange::failing_run(
                    debot.state,
                    debot.addr,
                    debot.abi,
                    "getDebotOptions"@,
                    None,
                    message,
                ),
            ),
            Err::<(), StopView>(StopView::Failed(e.display)),
        ),
        script::fetch_contexts(debot, talk) == (
            exchange::after(
                talk,
                exchange::failing_run(
                    debot.state,
                    debot.addr,
                    debot.abi,
                    "fetch"@,
                    None,
                    message,
                ),
            ),
            Err::<Seq<DContextView>, StopView>(StopView::Failed(e.display)),
        ),
{
    exchange::get_function_fails(debot, talk, "getDebotOptions"@, None, message, e);
    exchange::get_function_fails(debot, talk, "fetch"@, None, message, e);
}

/// Loading that fails with its account loaded keeps the contexts that the debot had, and an error
/// after the options were taken over keeps these.
pub proof fn failed_loading_keeps_contexts(debot: DebotView, talk: Talk)
    requires
        script::fetch(debot, talk).2 is Err,
    ensures
        script::fetch(debot, talk).0.state_machine == debot.state_machine,
        script::fetch(debot, talk).0.curr_state == debot.curr_state,
        script::fetch(debot, talk).0.prev_state == debot.prev_state,
{
}

/// A debot whose account cannot be loaded is not started, and stays as it was.
pub proof fn missing_debot_is_not_started(debot: DebotView, talk: Talk, error: Option<Seq<char>>)
    requires
        exchange::hears(
            talk,
            seq![
                ReplyView::Collection(
                    match error {
                        Some(e) => Err(e),
                        None => Ok(Seq::empty()),
                    },
                ),
            ],
        ),
    ensures
        script::start(debot, talk) == (
            debot,
            exchange::after(talk, seq![exchange::account_query(debot.addr)]),
            Err::<(), StopView>(
                StopView::Failed(
                    match error {
                        Some(e) => "failed to query debot account: "@ + e,
                        None => "Cannot find debot with this address "@ + debot.addr
                            + " in blockchain"@,
                    },
                ),
            ),
        ),
        script::fetch(debot, talk) == script::start(debot, talk),
{
    exchange::account_is_missing(talk, debot.addr, error);
}

/// A debot that nothing was done with is at its end, with context zero before it. It has no
/// account, no contexts and nothing to work on.
pub proof fn new_debot_is_at_its_end(addr: Seq<char>, abi: AbiView, server: Seq<char>)
    ensures
        ({
            let debot = script::new_debot(addr, abi, server);
            &&& debot.addr == addr
            &&& debot.abi == abi
            &&& debot.server == server
            &&& debot.state.len() == 0
            &&& debot.state_machine.len() == 0
            &&& debot.curr_state == 255
            &&& debot.prev_state == 0
            &&& debot.target_addr is None
            &&& debot.target_abi is None
        }),
{
}

/// Options that are no number of one byte break the rules, and so does what a bit stands for where
/// it is missing.
pub proof fn malformed_options_are_a_fault(
    debot: DebotView,
    talk: Talk,
    ran: Ran,
    number: Seq<char>,
    read: Option<u32>,
)
    requires
        ran.document().at("options"@) == JsonView::Str(number),
        exchange::hears(talk, ran.replies() + seq![ReplyView::Number(read)]),
        read matches Some(bits) ==> {
            ||| bits > 255
            ||| (bits as u8) & 1 != 0 && !(ran.document().at("debotAbi"@) is Str)
            ||| (bits as u8) & 1 == 0 && (bits as u8) & 2 != 0 && !(ran.document().at(
                "targetAbi"@,
            ) is Str)
            ||| (bits as u8) & 1 == 0 && (bits as u8) & 4 != 0 && !(ran.document().at(
                "targetAddr"@,
            ) is Str)
        },
    ensures
        script::update_options(debot, talk).2 == Err::<(), StopView>(StopView::Fault),
        script::update_options(debot, talk).0.target_addr == debot.target_addr,
        script::update_options(debot, talk).0.abi == debot.abi,
{
    let n = seq![ReplyView::Number(read)];
    let q1 = exchange::running_own(debot, "getDebotOptions"@, None, ran);
    exchange::lemma_hears_split(talk, ran.replies(), n, q1);
    exchange::get_function_runs(debot, talk, "getDebotOptions"@, None, ran);
    exchange::lemma_ask(exchange::after(talk, q1), RequestView::DecodeNumber(number), n[0]);
}

/// A debot that does not say what it is, and one whose options are no text, break the rules.
pub proof fn malformed_answers_are_a_fault(debot: DebotView, talk: Talk, ran: Ran)
    requires
        exchange::hears(talk, ran.replies()),
    ensures
        !(ran.document().at("options"@) is Str) ==> script::update_options(debot, talk).2 == Err::<
            (),
            StopView,
        >(StopView::Fault),
        !(ran.document().at("name"@) is Str) || !(ran.document().at("semver"@) is Str)
            || text::hex_text(ran.document().at("name"@)->Str_0) is None ==> script::introduce(
            debot,
            talk,
        ).1 == Err::<(), StopView>(StopView::Fault),
        !(ran.document() is Object) && !(ran.document() is Null) ==> script::fetch_contexts(
            debot,
            talk,
        ).1 == Err::<Seq<DContextView>, StopView>(StopView::Fault),
{
    exchange::get_function_runs(debot, talk, "getDebotOptions"@, None, ran);
    exchange::get_function_runs(debot, talk, "getVersion"@, None, ran);
    exchange::get_function_runs(debot, talk, "fetch"@, None, ran);
}

/// What a debot is told to do is what is done: each operation leaves the debot, the talk and the
/// outcome of its own, and only the version gives a text.
pub proof fn operations_do_what_they_say(debot: DebotView, talk: Talk, act: DActionView)
    ensures
        ({
            let done = script::perform(debot, talk, OperationView::Version);
            let said = script::version(debot, talk);
            &&& done.0 == debot
            &&& done.1 == said.0
            &&& said.1 matches Ok(text) ==> done.2 == Ok::<Option<Seq<char>>, StopView>(Some(text))
            &&& said.1 matches Err(stop) ==> done.2 == Err::<Option<Seq<char>>, StopView>(stop)
        }),
        same_done(
            script::perform(debot, talk, OperationView::Fetch),
            script::fetch(debot, talk),
        ),
        same_done(
            script::perform(debot, talk, OperationView::Start),
            script::start(debot, talk),
        ),
        same_done(
            script::perform(debot, talk, OperationView::ExecuteAction(act)),
            script::execute_action(debot, talk, act),
        ),
{
}

/// Whether an operation without a text left the debot, the talk and the outcome of another part.
pub open spec fn same_done(
    done: (DebotView, Talk, Result<Option<Seq<char>>, StopView>),
    part: (DebotView, Talk, Result<(), StopView>),
) -> bool {
    &&& done.0 == part.0
    &&& done.1 == part.1
    &&& part.2 is Ok ==> done.2 == Ok::<Option<Seq<char>>, StopView>(None)
    &&& part.2 matches Err(stop) ==> done.2 == Err::<Option<Seq<char>>, StopView>(stop)
}

/// What is to be done next for an operation that waits is its last request; one that does not wait
/// is done, has failed with its text, or breaks the rules, as its outcome says.
pub proof fn next_is_the_open_request(
    debot: DebotView,
    replies: Seq<ReplyView>,
    operation: OperationView,
)
    ensures
        ({
            let done = script::perform(debot, Talk::opening(replies), operation);
            match done.2 {
                Ok(text) => script::next(done) == NextView::Done(text),
                Err(StopView::Failed(e)) => script::next(done) == NextView::Failed(e),
                Err(StopView::Fault) => script::next(done) is Fault,
                Err(StopView::Pending) => {
                    &&& done.1.asked.len() == replies.len() + 1
                    &&& script::next(done) == NextView::Ask(done.1.asked[replies.len() as int])
                },
            }
        }),
{
    turns::turn_taking(debot, replies, operation);
}

} // verus!
