//! What the host hands an entry point and what it takes back, as plain
//! values: addresses, the call's environment, the outcome of a submessage,
//! and the response with its messages and attributes.
use vstd::prelude::*;

verus! {

/// An address of an account or a contract, as text.
#[derive(Debug, PartialEq, Eq)]
pub struct Addr(String);

impl View for Addr {
    type V = Seq<char>;

    closed spec fn view(&self) -> Seq<char> {
        self.0@
    }
}

impl DeepView for Addr {
    type V = Seq<char>;

    open spec fn deep_view(&self) -> Seq<char> {
        self@
    }
}

impl Clone for Addr {
    fn clone(&self) -> (copy: Addr)
        ensures
            copy == *self,
    {
        Addr(self.0.clone())
    }
}

impl Addr {
    /// The address with the text `input`, taken as it is.
    pub fn unchecked(input: &str) -> (addr: Addr)
        ensures
            addr@ == input@,
    {
        Addr(input.to_owned())
    }

    /// The text of the address.
    pub fn as_str(&self) -> (text: &str)
        ensures
            text@ == self@,
    {
        self.0.as_str()
    }

    /// The text of the address, taken out of it.
    pub fn into_string(self) -> (text: String)
        ensures
            text@ == self@,
    {
        self.0
    }

    /// Whether the two addresses have the same text.
    pub fn same_as(&self, other: &Addr) -> (same: bool)
        ensures
            same == (self@ == other@),
    {
        self.0 == other.0
    }
}

/// The contract that is being called.
#[derive(Debug)]
pub struct ContractInfo {
    pub address: Addr,
}

/// Where a call runs.
#[derive(Debug)]
pub struct Env {
    pub contract: ContractInfo,
}

/// Who makes a call.
#[derive(Debug)]
pub struct MessageInfo {
    pub sender: Addr,
}

/// A key and a value that a response or an event records.
#[derive(Debug, PartialEq, Eq)]
pub struct Attribute {
    pub key: String,
    pub value: String,
}

/// What a [`Attribute`] holds, as mathematical values.
pub struct AttributeView {
    pub key: Seq<char>,
    pub value: Seq<char>,
}

impl View for Attribute {
    type V = AttributeView;

    open spec fn view(&self) -> AttributeView {
        AttributeView { key: self.key@, value: self.value@ }
    }
}

impl DeepView for Attribute {
    type V = AttributeView;

    open spec fn deep_view(&self) -> AttributeView {
        self@
    }
}

impl Attribute {
    /// The attribute with the given key and value.
    pub fn new(key: &str, value: &str) -> (attribute: Attribute)
        ensures
            attribute@ == (AttributeView { key: key@, value: value@ }),
    {
        Attribute { key: key.to_owned(), value: value.to_owned() }
    }
}

/// Something that happened while a submessage ran.
#[derive(Debug, PartialEq, Eq)]
pub struct Event {
    pub ty: String,
    pub attributes: Vec<Attribute>,
}

/// What a [`Event`] holds, as mathematical values.
pub struct EventView {
    pub ty: Seq<char>,
    pub attributes: Seq<AttributeView>,
}

impl View for Event {
    type V = EventView;

    open spec fn view(&self) -> EventView {
        EventView { ty: self.ty@, attributes: self.attributes.deep_view() }
    }
}

impl DeepView for Event {
    type V = EventView;

    open spec fn deep_view(&self) -> EventView {
        self@
    }
}

/// Whether `place` is where the first attribute with the key `key` stands.
pub open spec fn is_first_with_key(
    attributes: Seq<AttributeView>,
    key: Seq<char>,
    place: int,
) -> bool {
    &&& 0 <= place < attributes.len()
    &&& attributes[place].key == key
    &&& forall|earlier: int| 0 <= earlier < place ==> (#[trigger] attributes[earlier]).key != key
}

/// The value of the first attribute with the key `key`, if there is one.
pub open spec fn first_value(attributes: Seq<AttributeView>, key: Seq<char>) -> Option<Seq<char>> {
    if exists|place: int| is_first_with_key(attributes, key, place) {
        Some(attributes[choose|place: int| is_first_with_key(attributes, key, place)].value)
    } else {
        None
    }
}

/// Whether `place` is where the first event of the type `ty` stands.
pub open spec fn is_first_of_type(events: Seq<EventView>, ty: Seq<char>, place: int) -> bool {
    &&& 0 <= place < events.len()
    &&& events[place].ty == ty
    &&& forall|earlier: int| 0 <= earlier < place ==> (#[trigger] events[earlier]).ty != ty
}

/// The first event of the type `ty`, if there is one.
pub open spec fn first_event(events: Seq<EventView>, ty: Seq<char>) -> Option<EventView> {
    if exists|place: int| is_first_of_type(events, ty, place) {
        Some(events[choose|place: int| is_first_of_type(events, ty, place)])
    } else {
        None
    }
}

/// Where the first attribute with the key `key` stands at `place`, its
/// value is the first value of that key.
pub proof fn first_value_is_at(attributes: Seq<AttributeView>, key: Seq<char>, place: int)
    requires
        is_first_with_key(attributes, key, place),
    ensures
        first_value(attributes, key) == Some(attributes[place].value),
{
    let chosen = choose|at: int| is_first_with_key(attributes, key, at);
    assert(attributes[chosen].key == key && attributes[place].key == key);
    assert(chosen == place);
}

/// Where no attribute has the key `key`, there is no first value of it.
pub proof fn no_value_without_key(attributes: Seq<AttributeView>, key: Seq<char>)
    requires
        forall|at: int| 0 <= at < attributes.len() ==> (#[trigger] attributes[at]).key != key,
    ensures
        first_value(attributes, key) is None,
{
}

/// Where the first event of the type `ty` stands at `place`, it is the
/// first event of that type.
pub proof fn first_event_is_at(events: Seq<EventView>, ty: Seq<char>, place: int)
    requires
        is_first_of_type(events, ty, place),
    ensures
        first_event(events, ty) == Some(events[place]),
{
    let chosen = choose|at: int| is_first_of_type(events, ty, at);
    assert(events[chosen].ty == ty && events[place].ty == ty);
    assert(chosen == place);
}

/// Where no event is of the type `ty`, there is no first event of it.
pub proof fn no_event_without_type(events: Seq<EventView>, ty: Seq<char>)
    requires
        forall|at: int| 0 <= at < events.len() ==> (#[trigger] events[at]).ty != ty,
    ensures
        first_event(events, ty) is None,
{
}

/// Looks for the first attribute with the key `key` and returns its value.
pub fn find_value(attributes: &Vec<Attribute>, key: &str) -> (value: Option<String>)
    ensures
        value.deep_view() == first_value(attributes.deep_view(), key@),
{
    let wanted = key.to_owned();
    let ghost views = attributes.deep_view();
    let mut place: usize = 0;
    while place < attributes.len()
        invariant
            place <= attributes.len(),
            views == attributes.deep_view(),
            wanted@ == key@,
            forall|earlier: int| 0 <= earlier < place ==> (#[trigger] views[earlier]).key != key@,
        decreases attributes.len() - place,
    {
        if attributes[place].key == wanted {
            proof {
                first_value_is_at(views, key@, place as int);
            }
            return Some(attributes[place].value.clone());
        }
        place += 1;
    }
    proof {
        no_value_without_key(views, key@);
    }
    None
}

/// Looks for the first event of the type `ty`.
pub fn find_event<'a>(events: &'a Vec<Event>, ty: &str) -> (event: Option<&'a Event>)
    ensures
        event.deep_view() == first_event(events.deep_view(), ty@),
{
    let wanted = ty.to_owned();
    let ghost views = events.deep_view();
    let mut place: usize = 0;
    while place < events.len()
        invariant
            place <= events.len(),
            views == events.deep_view(),
            wanted@ == ty@,
            forall|earlier: int| 0 <= earlier < place ==> (#[trigger] views[earlier]).ty != ty@,
        decreases events.len() - place,
    {
        if events[place].ty == wanted {
            proof {
                first_event_is_at(views, ty@, place as int);
            }
            return Some(&events[place]);
        }
        place += 1;
    }
    proof {
        no_event_without_type(views, ty@);
    }
    None
}

/// What a submessage that succeeded left behind.
#[derive(Debug, PartialEq, Eq)]
pub struct SubMsgResponse {
    pub events: Vec<Event>,
}

/// How a submessage ended: with its events, or with the text of its error.
#[derive(Debug, PartialEq, Eq)]
pub enum SubMsgResult {
    Success(SubMsgResponse),
    Failure(String),
}

/// The outcome of a submessage, delivered to the contract that sent it.
#[derive(Debug, PartialEq, Eq)]
pub struct Reply {
    /// The id that the submessage was sent with.
    pub id: u64,
    pub result: SubMsgResult,
}

impl Reply {
    /// The events of the outcome; none where the submessage failed.
    pub open spec fn events(&self) -> Option<Seq<EventView>> {
        match self.result {
            SubMsgResult::Success(response) => Some(response.events.deep_view()),
            SubMsgResult::Failure(_) => None,
        }
    }
}

/// An amount of a native token.
#[derive(Debug, PartialEq, Eq)]
pub struct Coin {
    pub denom: String,
    pub amount: u128,
}

/// What a [`Coin`] holds, as mathematical values.
pub struct CoinView {
    pub denom: Seq<char>,
    pub amount: u128,
}

impl View for Coin {
    type V = CoinView;

    open spec fn view(&self) -> CoinView {
        CoinView { denom: self.denom@, amount: self.amount }
    }
}

impl DeepView for Coin {
    type V = CoinView;

    open spec fn deep_view(&self) -> CoinView {
        self@
    }
}

/// A message to the host's contract module.
#[derive(Debug, PartialEq, Eq)]
pub enum WasmMsg {
    /// Calls the contract at `contract_addr` with the JSON text `msg`.
    Execute { contract_addr: String, msg: Vec<u8>, funds: Vec<Coin> },
    /// Creates a contract from the code `code_id` with the JSON text `msg`.
    Instantiate {
        admin: Option<String>,
        code_id: u64,
        msg: Vec<u8>,
        funds: Vec<Coin>,
        label: String,
    },
}

/// What a [`WasmMsg`] holds, as mathematical values.
pub enum WasmMsgView {
    Execute { contract_addr: Seq<char>, msg: Seq<u8>, funds: Seq<CoinView> },
    Instantiate {
        admin: Option<Seq<char>>,
        code_id: u64,
        msg: Seq<u8>,
        funds: Seq<CoinView>,
        label: Seq<char>,
    },
}

impl View for WasmMsg {
    type V = WasmMsgView;

    open spec fn view(&self) -> WasmMsgView {
        match self {
            WasmMsg::Execute { contract_addr, msg, funds } => WasmMsgView::Execute {
                contract_addr: contract_addr@,
                msg: msg@,
                funds: funds.deep_view(),
            },
            WasmMsg::Instantiate { admin, code_id, msg, funds, label } => WasmMsgView::Instantiate {
                admin: admin.deep_view(),
                code_id: *code_id,
                msg: msg@,
                funds: funds.deep_view(),
                label: label@,
            },
        }
    }
}

impl DeepView for WasmMsg {
    type V = WasmMsgView;

    open spec fn deep_view(&self) -> WasmMsgView {
        self@
    }
}

/// When the host reports back on a submessage.
#[derive(Debug, Clone, Copy, PartialEq, Eq)]
pub enum ReplyOn {
    Always,
    Error,
    Success,
    Never,
}

/// A message that the host runs for the contract, with the id under which
/// its outcome comes back.
#[derive(Debug, PartialEq, Eq)]
pub struct SubMsg {
    pub id: u64,
    pub msg: WasmMsg,
    pub reply_on: ReplyOn,
}

/// What a [`SubMsg`] holds, as mathematical values.
pub struct SubMsgView {
    pub id: u64,
    pub msg: WasmMsgView,
    pub reply_on: ReplyOn,
}

impl View for SubMsg {
    type V = SubMsgView;

    open spec fn view(&self) -> SubMsgView {
        SubMsgView { id: self.id, msg: self.msg@, reply_on: self.reply_on }
    }
}

impl DeepView for SubMsg {
    type V = SubMsgView;

    open spec fn deep_view(&self) -> SubMsgView {
        self@
    }
}

impl SubMsg {
    /// A message whose outcome the contract does not ask for.
    pub fn new(msg: WasmMsg) -> (sub: SubMsg)
        ensures
            sub@ == (SubMsgView { id: 0, msg: msg@, reply_on: ReplyOn::Never }),
    {
        SubMsg { id: 0, msg, reply_on: ReplyOn::Never }
    }

    /// A message whose outcome comes back under `id` if it succeeds.
    pub fn reply_on_success(msg: WasmMsg, id: u64) -> (sub: SubMsg)
        ensures
            sub@ == (SubMsgView { id, msg: msg@, reply_on: ReplyOn::Success }),
    {
        SubMsg { id, msg, reply_on: ReplyOn::Success }
    }
}

/// What an entry point returns on success: the messages that the host is to
/// run, in order, and the attributes that it is to record, in order.
#[derive(Debug, PartialEq, Eq)]
pub struct Response<M> {
    pub messages: Vec<M>,
    pub attributes: Vec<Attribute>,
}

/// What a [`Response`] holds, as mathematical values.
pub struct ResponseView<V> {
    pub messages: Seq<V>,
    pub attributes: Seq<AttributeView>,
}

impl<M: DeepView> View for Response<M> {
    type V = ResponseView<M::V>;

    open spec fn view(&self) -> ResponseView<M::V> {
        ResponseView {
            messages: self.messages.deep_view(),
            attributes: self.attributes.deep_view(),
        }
    }
}

impl<M: DeepView> Response<M> {
    /// The response that asks for nothing and records nothing.
    pub fn new() -> (response: Response<M>)
        ensures
            response@ == (ResponseView::<M::V> { messages: seq![], attributes: seq![] }),
    {
        let response = Response { messages: Vec::new(), attributes: Vec::new() };
        assert(response@.messages =~= seq![]);
        assert(response@.attributes =~= seq![]);
        response
    }

    /// The response with `msg` behind its messages.
    pub fn add_message(self, msg: M) -> (response: Response<M>)
        ensures
            response@ == (ResponseView {
                messages: self@.messages.push(msg.deep_view()),
                attributes: self@.attributes,
            }),
    {
        let mut response = self;
        response.messages.push(msg);
        assert(response@.messages =~= self@.messages.push(msg.deep_view()));
        response
    }

    /// The response with the attribute `key`, `value` behind its attributes.
    pub fn add_attribute(self, key: &str, value: &str) -> (response: Response<M>)
        ensures
            response@ == (ResponseView {
                messages: self@.messages,
                attributes: self@.attributes.push(AttributeView { key: key@, value: value@ }),
            }),
    {
        let mut response = self;
        response.attributes.push(Attribute::new(key, value));
        assert(response@.attributes =~= self@.attributes.push(
            AttributeView { key: key@, value: value@ },
        ));
        response
    }
}

} // verus!
