//! GraphQL operations over one websocket.
//!
//! A [`WebsocketLink`] turns what a caller wants into a [`LinkAction`]. A [`LinkHandler`] takes the
//! actions one by one, keeps the operations that run, and says which [`LinkEffect`]s the world has
//! to bring about.

use crate::client::{ClientError, ClientErrorView};
use crate::json;
use crate::json::{Json, JsonView};
use crate::text;
use std::collections::HashMap;
use vstd::prelude::*;

verus! {

pub const GQL_CONNECTION_INIT: &'static str = "connection_init";

pub const GQL_CONNECTION_ACK: &'static str = "connection_ack";

pub const GQL_CONNECTION_ERROR: &'static str = "connection_error";

pub const GQL_CONNECTION_KEEP_ALIVE: &'static str = "ka";

pub const GQL_CONNECTION_TERMINATE: &'static str = "connection_terminate";

pub const GQL_START: &'static str = "start";

pub const GQL_DATA: &'static str = "data";

pub const GQL_ERROR: &'static str = "error";

pub const GQL_COMPLETE: &'static str = "complete";

pub const GQL_STOP: &'static str = "stop";

/// A GraphQL query with its variables.
#[derive(Debug)]
pub struct GqlQueryOperation {
    pub query: String,
    pub variables: Json,
}

/// What is reported of an operation.
#[derive(Debug)]
pub enum GqlOperationEvent {
    Id(u32),
    Data(Json),
    Error(ClientError),
    Complete,
}

/// What a [`GqlOperationEvent`] stands for.
pub enum GqlEventView {
    Id(u32),
    Data(JsonView),
    Error(ClientErrorView),
    Complete,
}

impl DeepView for GqlOperationEvent {
    type V = GqlEventView;

    open spec fn deep_view(&self) -> GqlEventView {
        match self {
            GqlOperationEvent::Id(id) => GqlEventView::Id(*id),
            GqlOperationEvent::Data(doc) => GqlEventView::Data(doc.deep_view()),
            GqlOperationEvent::Error(e) => GqlEventView::Error(e.deep_view()),
            GqlOperationEvent::Complete => GqlEventView::Complete,
        }
    }
}

/// Something that the handler of a link is told.
#[derive(Debug)]
pub enum LinkAction {
    Suspend,
    Resume,
    Drop,
    /// Nothing was told.
    Idle,
    /// Start an operation with a payload; its events go to a channel.
    StartOperation(Json, u64),
    StopOperation(u32),
    HandleServerMessage(Result<String, ClientError>),
    HandleServerError(ClientError),
}

/// What a [`LinkAction`] stands for.
pub enum LinkActionView {
    Suspend,
    Resume,
    Drop,
    Idle,
    StartOperation(JsonView, u64),
    StopOperation(u32),
    HandleServerMessage(Result<Seq<char>, ClientErrorView>),
    HandleServerError(ClientErrorView),
}

impl DeepView for LinkAction {
    type V = LinkActionView;

    open spec fn deep_view(&self) -> LinkActionView {
        match self {
            LinkAction::Suspend => LinkActionView::Suspend,
            LinkAction::Resume => LinkActionView::Resume,
            LinkAction::Drop => LinkActionView::Drop,
            LinkAction::Idle => LinkActionView::Idle,
            LinkAction::StartOperation(payload, channel) => LinkActionView::StartOperation(
                payload.deep_view(),
                *channel,
            ),
            LinkAction::StopOperation(id) => LinkActionView::StopOperation(*id),
            LinkAction::HandleServerMessage(Ok(data)) => LinkActionView::HandleServerMessage(
                Ok(data@),
            ),
            LinkAction::HandleServerMessage(Err(e)) => LinkActionView::HandleServerMessage(
                Err(e.deep_view()),
            ),
            LinkAction::HandleServerError(e) => LinkActionView::HandleServerError(e.deep_view()),
        }
    }
}

/// Something that the world has to bring about for a link.
#[derive(Debug)]
pub enum LinkEffect {
    /// Report an event on a channel. Whether it arrives does not matter.
    Emit(u64, GqlOperationEvent),
    /// Send a text over the websocket. Whether it arrives does not matter.
    Send(String),
    /// Close a channel.
    Close(u64),
}

/// What a [`LinkEffect`] stands for.
pub enum LinkEffectView {
    Emit(u64, GqlEventView),
    Send(Seq<char>),
    Close(u64),
}

impl DeepView for LinkEffect {
    type V = LinkEffectView;

    open spec fn deep_view(&self) -> LinkEffectView {
        match self {
            LinkEffect::Emit(channel, event) => LinkEffectView::Emit(*channel, event.deep_view()),
            LinkEffect::Send(data) => LinkEffectView::Send(data@),
            LinkEffect::Close(channel) => LinkEffectView::Close(*channel),
        }
    }
}

/// An operation that runs: its payload, and the channel for its events.
#[derive(Debug)]
pub struct Operation {
    pub payload: Json,
    pub channel: u64,
}

/// What an [`Operation`] stands for.
pub struct OperationView {
    pub payload: JsonView,
    pub channel: u64,
}

impl DeepView for Operation {
    type V = OperationView;

    open spec fn deep_view(&self) -> OperationView {
        OperationView { payload: self.payload.deep_view(), channel: self.channel }
    }
}

/// What a [`LinkHandler`] stands for.
pub struct LinkView {
    /// The address of the server.
    pub address: Seq<char>,
    pub last_operation_id: u32,
    pub operations: Map<u32, OperationView>,
    /// Whether a websocket is there.
    pub connected: bool,
}

/// The id that lies `k` behind another one, counting on from zero behind the greatest.
pub open spec fn id_after(last: u32, k: nat) -> u32 {
    ((last + k) % 0x1_0000_0000) as u32
}

/// Whether an id can be given to an operation: it is not zero, and no operation has it.
pub open spec fn free(taken: Set<u32>, id: u32) -> bool {
    id != 0 && !taken.contains(id)
}

/// Whether an id lies `k` behind the last one, and is the first behind it that is free.
pub open spec fn first_free(last: u32, taken: Set<u32>, id: u32, k: nat) -> bool {
    &&& k > 0
    &&& id == id_after(last, k)
    &&& free(taken, id)
    &&& forall|j: nat| 0 < j < k ==> !free(taken, #[trigger] id_after(last, j))
}

/// Whether an id is the first free one behind the last one.
pub open spec fn comes_next(last: u32, taken: Set<u32>, id: u32) -> bool {
    exists|k: nat| #[trigger] first_free(last, taken, id, k)
}

/// The first free id behind the last one.
pub open spec fn next_id(last: u32, taken: Set<u32>) -> u32 {
    choose|id: u32| comes_next(last, taken, id)
}

/// A message of the GraphQL protocol, with the id of the operation and the payload where it has
/// them.
pub open spec fn frame(ty: Seq<char>, id: Option<u32>, payload: Option<JsonView>) -> JsonView {
    let entries = Map::<Seq<char>, JsonView>::empty().insert("type"@, JsonView::Str(ty));
    let entries = match id {
        Some(id) => entries.insert("id"@, JsonView::Int(id as i64)),
        None => entries,
    };
    let entries = match payload {
        Some(payload) => entries.insert("payload"@, payload),
        None => entries,
    };
    JsonView::Object(entries)
}

/// The payload by which a query is started.
pub open spec fn query_payload(query: Seq<char>, variables: JsonView) -> JsonView {
    JsonView::Object(
        Map::<Seq<char>, JsonView>::empty().insert("query"@, JsonView::Str(query)).insert(
            "variables"@,
            variables,
        ),
    )
}

/// What a message of the protocol has to do with the world: it is sent where a websocket is there.
pub open spec fn sent(
    link: LinkView,
    ty: Seq<char>,
    id: Option<u32>,
    payload: Option<JsonView>,
) -> Seq<LinkEffectView> {
    if link.connected {
        seq![LinkEffectView::Send(json::json_text(frame(ty, id, payload)))]
    } else {
        Seq::empty()
    }
}

/// Starts an operation: it gets the next id, which is reported first, and then the message that
/// starts it is sent.
pub open spec fn started(link: LinkView, payload: JsonView, channel: u64) -> (
    LinkView,
    Seq<LinkEffectView>,
) {
    let id = next_id(link.last_operation_id, link.operations.dom());
    (
        LinkView {
            last_operation_id: id,
            operations: link.operations.insert(id, OperationView { payload, channel }),
            ..link
        },
        seq![LinkEffectView::Emit(channel, GqlEventView::Id(id))] + sent(
            link,
            GQL_START@,
            Some(id),
            Some(payload),
        ),
    )
}

/// Stops an operation: its end is reported, the message that stops it is sent, and its channel is
/// closed. Nothing happens where no operation has the id.
pub open spec fn stopped(link: LinkView, id: u32) -> (LinkView, Seq<LinkEffectView>) {
    if link.operations.contains_key(id) {
        let channel = link.operations[id].channel;
        (
            LinkView { operations: link.operations.remove(id), ..link },
            seq![LinkEffectView::Emit(channel, GqlEventView::Complete)] + sent(
                link,
                GQL_STOP@,
                Some(id),
                None,
            ) + seq![LinkEffectView::Close(channel)],
        )
    } else {
        (link, Seq::empty())
    }
}

/// What a handler does with an action.
pub open spec fn handled(link: LinkView, action: LinkActionView) -> (
    LinkView,
    Seq<LinkEffectView>,
) {
    match action {
        LinkActionView::StartOperation(payload, channel) => started(link, payload, channel),
        LinkActionView::StopOperation(id) => stopped(link, id),
        _ => (link, Seq::empty()),
    }
}

impl LinkView {
    /// No operation has the id zero.
    pub open spec fn well_formed(self) -> bool {
        &&& self.operations.dom().finite()
        &&& !self.operations.contains_key(0)
    }

    /// Whether as many operations run as there are ids but zero.
    pub open spec fn full(self) -> bool {
        self.operations.len() >= u32::MAX
    }
}

/// The ids that lie up to `k` behind another one.
spec fn ids_up_to(last: u32, k: nat) -> Set<u32>
    decreases k,
{
    if k == 0 {
        Set::empty()
    } else {
        ids_up_to(last, (k - 1) as nat).insert(id_after(last, k))
    }
}

proof fn lemma_ids_up_to(last: u32, k: nat)
    requires
        k <= 0x1_0000_0000,
    ensures
        ids_up_to(last, k).finite(),
        ids_up_to(last, k).len() == k,
        forall|id: u32| #[trigger]
            ids_up_to(last, k).contains(id) ==> exists|j: nat|
                0 < j <= k && id == #[trigger] id_after(last, j),
        forall|j: nat| 0 < j <= k ==> ids_up_to(last, k).contains(#[trigger] id_after(last, j)),
    decreases k,
{
    if k > 0 {
        let m = (k - 1) as nat;
        lemma_ids_up_to(last, m);
        let id = id_after(last, k);
        if ids_up_to(last, m).contains(id) {
            let j = choose|j: nat| 0 < j <= m && id == #[trigger] id_after(last, j);
            assert((last + k) % 0x1_0000_0000 == (last + j) % 0x1_0000_0000);
            assert(0 < k - j < 0x1_0000_0000);
            assert(false);
        }
        assert forall|id: u32| #[trigger] ids_up_to(last, k).contains(id) implies exists|j: nat|
            0 < j <= k && id == #[trigger] id_after(last, j) by {
            if ids_up_to(last, m).contains(id) {
                let j = choose|j: nat| 0 < j <= m && id == #[trigger] id_after(last, j);
                assert(0 < j <= k && id == id_after(last, j));
            } else {
                assert(id == id_after(last, k));
            }
        }
    }
}

/// The search for a free id comes to an end: as long as it has found none, it has not gone further
/// than there are ids taken.
proof fn lemma_search_ends(last: u32, taken: Set<u32>, k: nat)
    requires
        taken.finite(),
        taken.len() < u32::MAX,
        forall|j: nat| 0 < j <= k ==> !free(taken, #[trigger] id_after(last, j)),
    ensures
        k <= taken.len() + 1,
{
    let n = taken.len();
    if k > n + 1 {
        let m = (n + 2) as nat;
        lemma_ids_up_to(last, m);
        let bound = taken.insert(0);
        assert forall|id: u32| ids_up_to(last, m).contains(id) implies bound.contains(id) by {
            let j = choose|j: nat| 0 < j <= m && id == #[trigger] id_after(last, j);
            assert(!free(taken, id_after(last, j)));
        }
        vstd::set_lib::lemma_len_subset(ids_up_to(last, m), bound);
    }
}

proof fn lemma_first_free_unique(last: u32, taken: Set<u32>, a: u32, j: nat, b: u32, k: nat)
    requires
        first_free(last, taken, a, j),
        first_free(last, taken, b, k),
    ensures
        a == b,
{
    if j < k {
        assert(!free(taken, id_after(last, j)));
    } else if k < j {
        assert(!free(taken, id_after(last, k)));
    }
}

/// Finds the first free id behind the last one.
fn find_id(last: u32, operations: &HashMap<u32, Operation>) -> (r: u32)
    requires
        operations@.dom().finite(),
        operations@.len() < u32::MAX,
    ensures
        r == next_id(last, operations@.dom()),
        comes_next(last, operations@.dom(), r),
{
    broadcast use vstd::std_specs::hash::group_hash_axioms;

    let ghost taken = operations@.dom();
    let ghost mut k: nat = 1;
    let mut id: u32 = last.wrapping_add(1);
    while id == 0 || operations.contains_key(&id)
        invariant
            taken == operations@.dom(),
            taken.finite(),
            taken.len() < u32::MAX,
            k > 0,
            id == id_after(last, k),
            forall|j: nat| 0 < j < k ==> !free(taken, #[trigger] id_after(last, j)),
        decreases taken.len() + 2 - k,
    {
        proof {
            assert forall|j: nat| 0 < j <= k implies !free(taken, #[trigger] id_after(last, j)) by {
                if j == k {
                    assert(!free(taken, id));
                }
            }
            lemma_search_ends(last, taken, k);
            k = k + 1;
        }
        id = id.wrapping_add(1);
    }
    proof {
        assert(first_free(last, taken, id, k));
        let r = next_id(last, taken);
        assert(comes_next(last, taken, id));
        let other = choose|k: nat| #[trigger] first_free(last, taken, r, k);
        lemma_first_free_unique(last, taken, id, k, r, other);
    }
    id
}

/// A message of the GraphQL protocol.
pub fn protocol_frame(ty: &str, id: Option<u32>, payload: Option<Json>) -> (r: Json)
    ensures
        r.deep_view() == frame(ty@, id, payload.deep_view()),
{
    let mut data: Json = Json::object("type", Json::Str(ty.to_owned()));
    if let Some(id) = id {
        data = data.with("id", Json::Int(id as i64));
    }
    if let Some(payload) = payload {
        data = data.with("payload", payload);
    }
    data
}

/// The handle by which operations are started and stopped.
#[derive(Clone, Copy, Debug)]
pub struct WebsocketLink {}

impl WebsocketLink {
    /// A link to the server at an address, with the handler of its actions.
    pub fn new(server_address: String) -> (r: (WebsocketLink, LinkHandler))
        ensures
            r.1.deep_view() == (LinkView {
                address: server_address@,
                last_operation_id: 0,
                operations: Map::empty(),
                connected: false,
            }),
    {
        (WebsocketLink {  }, LinkHandler::new(server_address))
    }

    /// The action that starts a query, whose events go to a channel.
    pub fn start_operation(&self, request: GqlQueryOperation, channel: u64) -> (r: LinkAction)
        ensures
            r.deep_view() == LinkActionView::StartOperation(
                query_payload(request.query@, request.variables.deep_view()),
                channel,
            ),
    {
        let payload = Json::object("query", Json::Str(request.query)).with(
            "variables",
            request.variables,
        );
        LinkAction::StartOperation(payload, channel)
    }

    /// The action that stops an operation.
    pub fn stop_operation(&self, id: u32) -> (r: LinkAction)
        ensures
            r.deep_view() == LinkActionView::StopOperation(id),
    {
        LinkAction::StopOperation(id)
    }
}

/// The handler of a link: it keeps the operations that run.
#[derive(Debug)]
pub struct LinkHandler {
    address: String,
    last_operation_id: u32,
    operations: HashMap<u32, Operation>,
    connected: bool,
}

impl DeepView for LinkHandler {
    type V = LinkView;

    closed spec fn deep_view(&self) -> LinkView {
        LinkView {
            address: self.address@,
            last_operation_id: self.last_operation_id,
            operations: self.operations@.map_values(|op: Operation| op.deep_view()),
            connected: self.connected,
        }
    }
}

/// A request to connect a websocket: the address, and the headers.
#[derive(Debug)]
pub struct ConnectRequest {
    pub address: String,
    pub headers: Vec<(String, String)>,
}

/// What a handler has to say to an action.
#[derive(Debug)]
pub struct Handled {
    /// What the world has to bring about, in this order.
    pub effects: Vec<LinkEffect>,
    /// Whether the handler takes further actions.
    pub goes_on: bool,
}

impl LinkHandler {
    pub fn new(server_address: String) -> (r: LinkHandler)
        ensures
            r.deep_view() == (LinkView {
                address: server_address@,
                last_operation_id: 0,
                operations: Map::empty(),
                connected: false,
            }),
            r.deep_view().well_formed(),
    {
        let r = LinkHandler {
            address: server_address,
            last_operation_id: 0,
            operations: HashMap::new(),
            connected: false,
        };
        assert(r.deep_view().operations =~= Map::empty());
        r
    }

    /// Whether as many operations run as there are ids but zero, so that none can be started.
    pub fn is_full(&self) -> (r: bool)
        ensures
            r == self.deep_view().full(),
    {
        broadcast use vstd::std_specs::hash::group_hash_axioms;

        assert(self.deep_view().operations.dom() =~= self.operations@.dom());
        self.operations.len() >= u32::MAX as usize
    }

    /// Takes one action: starts or stops an operation, or ends the handler. The other actions
    /// change nothing.
    pub fn handle(&mut self, action: LinkAction) -> (r: Handled)
        requires
            action is StartOperation ==> !old(self).deep_view().full(),
        ensures
            (final(self).deep_view(), r.effects.deep_view()) == handled(
                old(self).deep_view(),
                action.deep_view(),
            ),
            r.goes_on == !(action is Drop),
            old(self).deep_view().well_formed() ==> final(self).deep_view().well_formed(),
    {
        proof {
            if self.deep_view().well_formed() {
                handling_keeps_well_formed(self.deep_view(), action.deep_view());
            }
        }
        match action {
            LinkAction::StartOperation(payload, channel) => Handled {
                effects: self.start_operation(payload, channel),
                goes_on: true,
            },
            LinkAction::StopOperation(id) => Handled {
                effects: self.stop_operation(id),
                goes_on: true,
            },
            LinkAction::Drop => Handled { effects: no_effects(), goes_on: false },
            _ => Handled { effects: no_effects(), goes_on: true },
        }
    }

    fn start_operation(&mut self, payload: Json, channel: u64) -> (r: Vec<LinkEffect>)
        requires
            !old(self).deep_view().full(),
        ensures
            (final(self).deep_view(), r.deep_view()) == started(
                old(self).deep_view(),
                payload.deep_view(),
                channel,
            ),
    {
        broadcast use vstd::std_specs::hash::group_hash_axioms;

        let ghost before = self.deep_view();
        assert(before.operations.dom() =~= self.operations@.dom());
        let id: u32 = find_id(self.last_operation_id, &self.operations);
        let operation = Operation { payload: payload.clone(), channel };
        let mut effects: Vec<LinkEffect> = Vec::new();
        effects.push(LinkEffect::Emit(channel, GqlOperationEvent::Id(id)));
        self.operations.insert(id, operation);
        self.last_operation_id = id;
        assert(self.deep_view().operations =~= before.operations.insert(
            id,
            OperationView { payload: payload.deep_view(), channel },
        ));
        self.send_websocket_data(&mut effects, GQL_START, Some(id), Some(payload));
        assert(effects.deep_view() =~= started(before, payload.deep_view(), channel).1);
        effects
    }

    fn stop_operation(&mut self, id: u32) -> (r: Vec<LinkEffect>)
        ensures
            (final(self).deep_view(), r.deep_view()) == stopped(old(self).deep_view(), id),
    {
        broadcast use vstd::std_specs::hash::group_hash_axioms;

        let ghost before = self.deep_view();
        assert(before.operations.dom() =~= self.operations@.dom());
        let mut effects: Vec<LinkEffect> = Vec::new();
        match self.operations.remove(&id) {
            Some(op) => {
                assert(self.deep_view().operations =~= before.operations.remove(id));
                effects.push(LinkEffect::Emit(op.channel, GqlOperationEvent::Complete));
                assert(effects.deep_view() =~= seq![
                    LinkEffectView::Emit(op.channel, GqlEventView::Complete),
                ]);
                self.send_websocket_data(&mut effects, GQL_STOP, Some(id), None);
                let ghost so_far = effects.deep_view();
                effects.push(LinkEffect::Close(op.channel));
                assert(effects.deep_view() =~= so_far + seq![LinkEffectView::Close(op.channel)]);
            },
            None => {
                assert(self.deep_view().operations =~= before.operations);
            },
        }
        assert(effects.deep_view() =~= stopped(before, id).1);
        effects
    }

    /// Has a message of the protocol sent, where a websocket is there.
    fn send_websocket_data(
        &self,
        effects: &mut Vec<LinkEffect>,
        ty: &str,
        id: Option<u32>,
        payload: Option<Json>,
    )
        ensures
            final(effects).deep_view() == old(effects).deep_view() + sent(
                self.deep_view(),
                ty@,
                id,
                payload.deep_view(),
            ),
    {
        let ghost before = effects.deep_view();
        if self.connected {
            effects.push(LinkEffect::Send(protocol_frame(ty, id, payload).text()));
        }
        assert(effects.deep_view() =~= before + sent(
            self.deep_view(),
            ty@,
            id,
            payload.deep_view(),
        ));
    }

    /// The websocket that has to be connected first; none where one is there.
    pub fn websocket_to_connect(&self) -> (r: Option<ConnectRequest>)
        ensures
            match r {
                Some(request) => {
                    &&& !self.deep_view().connected
                    &&& request.address@ == self.deep_view().address
                    &&& request.headers.deep_view() == seq![
                        ("Sec-WebSocket-Protocol"@, "graphql-ws"@),
                    ]
                },
                None => self.deep_view().connected,
            },
    {
        if self.connected {
            return None;
        }
        let mut headers: Vec<(String, String)> = Vec::new();
        headers.push(("Sec-WebSocket-Protocol".to_owned(), "graphql-ws".to_owned()));
        assert(headers.deep_view() =~= seq![("Sec-WebSocket-Protocol"@, "graphql-ws"@)]);
        Some(ConnectRequest { address: self.address.clone(), headers })
    }

    /// Takes what came of connecting a websocket: it is there from now on, unless there was an
    /// error, which is given back.
    pub fn websocket_connected(&mut self, outcome: Result<(), ClientError>) -> (r: Result<
        (),
        ClientError,
    >)
        ensures
            r == outcome,
            final(self).deep_view() == (LinkView {
                connected: old(self).deep_view().connected || outcome is Ok,
                ..old(self).deep_view()
            }),
    {
        outcome?;
        self.connected = true;
        Ok(())
    }
}

fn no_effects() -> (r: Vec<LinkEffect>)
    ensures
        r.deep_view() == Seq::<LinkEffectView>::empty(),
{
    let r: Vec<LinkEffect> = Vec::new();
    assert(r.deep_view() =~= Seq::empty());
    r
}

/// What the pump between a handler and its websocket hears.
#[derive(Debug)]
pub enum PumpEvent {
    /// Data from the server, or an error.
    Data(Result<String, ClientError>),
    /// The handler is gone.
    Closed,
    /// The handler wants the websocket dropped.
    Drop,
    /// The handler wants a text sent.
    Send(String),
}

/// What the pump does with what it hears.
#[derive(Debug)]
pub enum PumpStep {
    /// It tells the handler.
    Tell(LinkAction),
    /// It hands a text to the websocket.
    Hand(String),
    /// It stops.
    Stop,
}

/// What the pump between a handler and its websocket does with what it hears: data goes to the
/// handler, texts go to the websocket, and it stops where the handler is gone or says so.
pub fn pump(event: PumpEvent) -> (r: PumpStep)
    ensures
        match event {
            PumpEvent::Data(data) => r == PumpStep::Tell(LinkAction::HandleServerMessage(data)),
            PumpEvent::Send(data) => r == PumpStep::Hand(data),
            PumpEvent::Closed => r is Stop,
            PumpEvent::Drop => r is Stop,
        },
{
    match event {
        PumpEvent::Data(data) => PumpStep::Tell(LinkAction::HandleServerMessage(data)),
        PumpEvent::Send(data) => PumpStep::Hand(data),
        PumpEvent::Closed => PumpStep::Stop,
        PumpEvent::Drop => PumpStep::Stop,
    }
}

/// The text of the error where a message of the protocol could not be sent.
pub fn send_failure(err: &str) -> (r: String)
    ensures
        r@ == "send_websocket_data failed: "@ + err@,
{
    text::join("send_websocket_data failed: ", err)
}

/// As long as an id is left, there is a next one.
pub proof fn next_id_exists(last: u32, taken: Set<u32>)
    requires
        taken.finite(),
        taken.len() < u32::MAX,
    ensures
        comes_next(last, taken, next_id(last, taken)),
{
    let n = (taken.len() + 2) as nat;
    if forall|j: nat| 0 < j <= n ==> !free(taken, #[trigger] id_after(last, j)) {
        lemma_search_ends(last, taken, n);
    }
    let k = choose|k: nat| 0 < k <= n && free(taken, #[trigger] id_after(last, k));
    lemma_first_before(last, taken, k);
}

proof fn lemma_first_before(last: u32, taken: Set<u32>, k: nat)
    requires
        k > 0,
        free(taken, id_after(last, k)),
    ensures
        exists|id: u32| comes_next(last, taken, id),
    decreases k,
{
    if exists|j: nat| 0 < j < k && free(taken, #[trigger] id_after(last, j)) {
        let j = choose|j: nat| 0 < j < k && free(taken, #[trigger] id_after(last, j));
        lemma_first_before(last, taken, j);
    } else {
        assert(first_free(last, taken, id_after(last, k), k));
        assert(comes_next(last, taken, id_after(last, k)));
    }
}

/// A link is full exactly where every id but zero is taken.
pub proof fn full_where_all_taken(link: LinkView)
    requires
        link.well_formed(),
    ensures
        link.full() <==> forall|id: u32| id != 0 ==> #[trigger] link.operations.contains_key(id),
{
    let taken = link.operations.dom();
    let all = ids_up_to(0, u32::MAX as nat);
    lemma_ids_up_to(0, u32::MAX as nat);
    assert forall|id: u32| all.contains(id) <==> id != 0 by {
        if id != 0 {
            assert(id_after(0, id as nat) == id);
        }
    }
    vstd::set_lib::lemma_len_subset(taken, all);
    if link.full() {
        vstd::set_lib::lemma_subset_equality(taken, all);
        assert forall|id: u32| id != 0 implies #[trigger] link.operations.contains_key(id) by {
            assert(all.contains(id));
        }
    } else if forall|id: u32| id != 0 ==> #[trigger] link.operations.contains_key(id) {
        assert forall|id: u32| all.contains(id) implies taken.contains(id) by {
            assert(link.operations.contains_key(id));
        }
        vstd::set_lib::lemma_len_subset(all, taken);
    }
}

/// An operation that is started gets an id that is not zero and that no running operation has.
pub proof fn started_id_is_fresh(link: LinkView, payload: JsonView, channel: u64)
    requires
        link.operations.dom().finite(),
        !link.full(),
    ensures
        ({
            let id = started(link, payload, channel).0.last_operation_id;
            &&& id != 0
            &&& !link.operations.contains_key(id)
            &&& started(link, payload, channel).0.operations.contains_key(id)
            &&& started(link, payload, channel).1[0] == LinkEffectView::Emit(
                channel,
                GqlEventView::Id(id),
            )
        }),
{
    next_id_exists(link.last_operation_id, link.operations.dom());
}

/// Whatever a handler is told, no operation has the id zero.
pub proof fn handling_keeps_well_formed(link: LinkView, action: LinkActionView)
    requires
        link.well_formed(),
        action is StartOperation ==> !link.full(),
    ensures
        handled(link, action).0.well_formed(),
{
    if action is StartOperation {
        next_id_exists(link.last_operation_id, link.operations.dom());
    }
}

/// An operation that is started and stopped again leaves the others as they were, and its end is
/// the first thing that is reported of the stop.
pub proof fn stop_undoes_start(link: LinkView, payload: JsonView, channel: u64)
    requires
        link.operations.dom().finite(),
        !link.full(),
    ensures
        ({
            let on = started(link, payload, channel).0;
            let (after, effects) = stopped(on, on.last_operation_id);
            &&& after.operations == link.operations
            &&& effects[0] == LinkEffectView::Emit(channel, GqlEventView::Complete)
            &&& effects.last() == LinkEffectView::Close(channel)
        }),
{
    started_id_is_fresh(link, payload, channel);
    let on = started(link, payload, channel).0;
    assert(on.operations.remove(on.last_operation_id) =~= link.operations);
}

/// An operation that is stopped a second time is not there any more: nothing happens.
pub proof fn second_stop_does_nothing(link: LinkView, id: u32)
    ensures
        stopped(stopped(link, id).0, id) == (stopped(link, id).0, Seq::<LinkEffectView>::empty()),
{
}

/// Without a websocket nothing is sent.
pub proof fn unconnected_sends_nothing(link: LinkView, action: LinkActionView)
    requires
        !link.connected,
    ensures
        forall|i: int|
            0 <= i < handled(link, action).1.len() ==> !(#[trigger] handled(link, action).1[i]
                is Send),
{
}

/// Right behind an id comes the id that is greater by one, where it is free.
pub proof fn ids_count_up(last: u32, taken: Set<u32>)
    requires
        last < u32::MAX,
        !taken.contains((last + 1) as u32),
    ensures
        next_id(last, taken) == last + 1,
{
    let id = (last + 1) as u32;
    assert(first_free(last, taken, id, 1));
    assert(comes_next(last, taken, id));
    let r = next_id(last, taken);
    let k = choose|k: nat| #[trigger] first_free(last, taken, r, k);
    lemma_first_free_unique(last, taken, id, 1, r, k);
}

/// Behind the greatest id comes one, where it is free: zero is left out.
pub proof fn ids_go_round(taken: Set<u32>)
    requires
        !taken.contains(1),
    ensures
        next_id(u32::MAX, taken) == 1,
{
    assert(id_after(u32::MAX, 1) == 0);
    assert(first_free(u32::MAX, taken, 1, 2));
    assert(comes_next(u32::MAX, taken, 1));
    let r = next_id(u32::MAX, taken);
    let k = choose|k: nat| #[trigger] first_free(u32::MAX, taken, r, k);
    lemma_first_free_unique(u32::MAX, taken, 1, 2, r, k);
}

/// A message of the protocol holds its type, the id of its operation and its payload where it has
/// them, and nothing else.
pub proof fn frames_hold_what_is_given(
    ty: Seq<char>,
    id: Option<u32>,
    payload: Option<JsonView>,
    key: Seq<char>,
)
    ensures
        frame(ty, id, payload) is Object,
        frame(ty, id, payload).at("type"@) == JsonView::Str(ty),
        id matches Some(i) ==> frame(ty, id, payload).at("id"@) == JsonView::Int(i as i64),
        payload matches Some(doc) ==> frame(ty, id, payload).at("payload"@) == doc,
        frame(ty, id, payload)->Object_0.contains_key(key) <==> (key == "type"@ || (key == "id"@
            && id is Some) || (key == "payload"@ && payload is Some)),
{
    reveal_strlit("type");
    reveal_strlit("id");
    reveal_strlit("payload");
    assert("type"@.len() == 4 && "id"@.len() == 2 && "payload"@.len() == 7);
}

/// The payload of a query holds the query and its variables, and nothing else.
pub proof fn payload_holds_the_query(query: Seq<char>, variables: JsonView, key: Seq<char>)
    ensures
        query_payload(query, variables) is Object,
        query_payload(query, variables).at("query"@) == JsonView::Str(query),
        query_payload(query, variables).at("variables"@) == variables,
        query_payload(query, variables)->Object_0.contains_key(key) <==> (key == "query"@ || key
            == "variables"@),
{
    reveal_strlit("query");
    reveal_strlit("variables");
    assert("query"@.len() == 5 && "variables"@.len() == 9);
}

/// The message that starts the operation with an id.
pub open spec fn start_message(id: u32, payload: JsonView) -> JsonView {
    JsonView::Object(
        Map::<Seq<char>, JsonView>::empty().insert("type"@, JsonView::Str("start"@)).insert(
            "id"@,
            JsonView::Int(id as i64),
        ).insert("payload"@, payload),
    )
}

/// The message that stops the operation with an id.
pub open spec fn stop_message(id: u32) -> JsonView {
    JsonView::Object(
        Map::<Seq<char>, JsonView>::empty().insert("type"@, JsonView::Str("stop"@)).insert(
            "id"@,
            JsonView::Int(id as i64),
        ),
    )
}

/// An operation that is started is kept under its id, with its payload and its channel, beside
/// those that run. Its id is reported on its channel, and then, where a websocket is there, the message
/// that starts this very operation is sent, and nothing else.
pub proof fn start_is_reported_and_sent(link: LinkView, payload: JsonView, channel: u64)
    requires
        link.operations.dom().finite(),
        !link.full(),
    ensures
        ({
            let (after, effects) = handled(
                link,
                LinkActionView::StartOperation(payload, channel),
            );
            let id = after.last_operation_id;
            &&& id != 0
            &&& !link.operations.contains_key(id)
            &&& comes_next(link.last_operation_id, link.operations.dom(), id)
            &&& after.address == link.address
            &&& after.connected == link.connected
            &&& after.operations == link.operations.insert(id, OperationView { payload, channel })
            &&& effects == if link.connected {
                seq![
                    LinkEffectView::Emit(channel, GqlEventView::Id(id)),
                    LinkEffectView::Send(json::json_text(start_message(id, payload))),
                ]
            } else {
                seq![LinkEffectView::Emit(channel, GqlEventView::Id(id))]
            }
        }),
{
    next_id_exists(link.last_operation_id, link.operations.dom());
    let (after, effects) = started(link, payload, channel);
    let id = after.last_operation_id;
    if link.connected {
        assert(effects =~= seq![
            LinkEffectView::Emit(channel, GqlEventView::Id(id)),
            LinkEffectView::Send(json::json_text(start_message(id, payload))),
        ]);
    } else {
        assert(effects =~= seq![LinkEffectView::Emit(channel, GqlEventView::Id(id))]);
    }
}

/// An operation that is stopped is not kept any more; the others, and the last id, stay. Its end is
/// reported on its channel; then, where a websocket is there, the message that stops this very
/// operation is sent, whatever was started before or after it; and then its channel is closed.
pub proof fn stop_is_reported_and_sent(link: LinkView, id: u32)
    requires
        link.operations.contains_key(id),
    ensures
        ({
            let (after, effects) = handled(link, LinkActionView::StopOperation(id));
            let channel = link.operations[id].channel;
            &&& after == LinkView { operations: link.operations.remove(id), ..link }
            &&& effects == if link.connected {
                seq![
                    LinkEffectView::Emit(channel, GqlEventView::Complete),
                    LinkEffectView::Send(json::json_text(stop_message(id))),
                    LinkEffectView::Close(channel),
                ]
            } else {
                seq![
                    LinkEffectView::Emit(channel, GqlEventView::Complete),
                    LinkEffectView::Close(channel),
                ]
            }
        }),
{
    let (after, effects) = stopped(link, id);
    let channel = link.operations[id].channel;
    if link.connected {
        assert(effects =~= seq![
            LinkEffectView::Emit(channel, GqlEventView::Complete),
            LinkEffectView::Send(json::json_text(stop_message(id))),
            LinkEffectView::Close(channel),
        ]);
    } else {
        assert(effects =~= seq![
            LinkEffectView::Emit(channel, GqlEventView::Complete),
            LinkEffectView::Close(channel),
        ]);
    }
}

/// No other action changes the handler or has an effect, and neither has stopping what does not
/// run.
pub proof fn other_actions_do_nothing(link: LinkView, action: LinkActionView)
    requires
        !(action is StartOperation),
        action matches LinkActionView::StopOperation(id) ==> !link.operations.contains_key(id),
    ensures
        handled(link, action) == (link, Seq::<LinkEffectView>::empty()),
{
}

} // verus!
