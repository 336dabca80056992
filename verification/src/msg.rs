use vstd::prelude::*;

use crate::state::{Coin, CoinView, coins_view};

verus! {

/// What the host tells the program about the invocation it runs in.
#[derive(Debug)]
pub struct Env {
    /// The time of the current block, in nanoseconds since the epoch.
    pub block_time_nanos: u64,
    /// The program's own address.
    pub contract_address: String,
}

/// Who sent the message that is being handled.
#[derive(Debug)]
pub struct MessageInfo {
    pub sender: String,
}

/// The message that sets the program up.
#[derive(Debug)]
pub struct InstantiateMsg {
    pub count: i32,
}

/// The commands that a caller can give.
#[derive(Debug)]
pub enum ExecuteMsg {
    TransferFunds { channel: String, amount: Coin, recipient: String },
}

/// The questions that a caller can ask.
#[derive(Debug)]
pub enum QueryMsg {
    GetCount { addr: String },
    GetTotalFunds { addr: String },
}

/// The answer to `GetCount`.
#[derive(Debug)]
pub struct GetCountResponse {
    pub count: i32,
}

/// The answer to `GetTotalFunds`.
#[derive(Debug)]
pub struct GetTotalFundsResponse {
    pub total_funds: Vec<Coin>,
}

/// The answer to a query, by the question that was asked.
#[derive(Debug)]
pub enum QueryResponse {
    Count(GetCountResponse),
    TotalFunds(GetTotalFundsResponse),
}

/// How a transfer that this chain sent has ended.
#[derive(Debug, Clone, Copy, PartialEq, Eq, Structural)]
pub enum IbcSourceCallbackMsg {
    /// The other chain answered, with a success or with a failure.
    Acknowledgement,
    /// No answer came before the deadline.
    Timeout,
}

/// What the receiving chain reports of a packet that it has handled.
#[derive(Debug)]
pub struct IbcDestinationCallbackMsg {
    /// The port that the packet was addressed to.
    pub port_id: String,
    /// The acknowledgement that was written for the packet.
    pub ack_data: Vec<u8>,
}

/// The two events that move a counter.
#[derive(Debug, Clone, Copy, PartialEq, Eq, Structural)]
pub enum TransitionKind {
    AckSuccess,
    Timeout,
}

/// A key with its value, as a response reports it.
#[derive(Debug)]
pub struct Attribute {
    pub key: String,
    pub value: String,
}

/// The attributes of a list as pairs of character sequences, in the list's order.
pub open spec fn attributes_view(attributes: Seq<Attribute>) -> Seq<(Seq<char>, Seq<char>)> {
    Seq::new(attributes.len(), |i: int| (attributes[i].key@, attributes[i].value@))
}

/// A request to send coins over a channel to an address on another chain.
#[derive(Debug)]
pub struct TransferMsg {
    pub channel_id: String,
    pub to_address: String,
    pub amount: Coin,
    /// The deadline on the receiving chain, in nanoseconds since the epoch.
    pub timeout_nanos: Option<u64>,
    pub memo: Option<String>,
}

/// What a [`TransferMsg`] stands for.
pub struct TransferMsgView {
    pub channel_id: Seq<char>,
    pub to_address: Seq<char>,
    pub amount: CoinView,
    pub timeout_nanos: Option<u64>,
    pub memo: Option<Seq<char>>,
}

impl View for TransferMsg {
    type V = TransferMsgView;

    open spec fn view(&self) -> TransferMsgView {
        TransferMsgView {
            channel_id: self.channel_id@,
            to_address: self.to_address@,
            amount: self.amount@,
            timeout_nanos: self.timeout_nanos,
            memo: match self.memo {
                Some(text) => Some(text@),
                None => None,
            },
        }
    }
}

/// The messages of a list, each by its view, in the list's order.
pub open spec fn messages_view(messages: Seq<TransferMsg>) -> Seq<TransferMsgView> {
    Seq::new(messages.len(), |i: int| messages[i]@)
}

/// What an instantiation or a command answers: messages to send on, and attributes.
#[derive(Debug)]
pub struct Response {
    pub messages: Vec<TransferMsg>,
    pub attributes: Vec<Attribute>,
}

/// What a [`Response`] stands for.
pub struct ResponseView {
    pub messages: Seq<TransferMsgView>,
    pub attributes: Seq<(Seq<char>, Seq<char>)>,
}

impl View for Response {
    type V = ResponseView;

    open spec fn view(&self) -> ResponseView {
        ResponseView {
            messages: messages_view(self.messages@),
            attributes: attributes_view(self.attributes@),
        }
    }
}

/// What a callback answers: attributes only.
#[derive(Debug)]
pub struct IbcBasicResponse {
    pub attributes: Vec<Attribute>,
}

impl View for IbcBasicResponse {
    type V = Seq<(Seq<char>, Seq<char>)>;

    open spec fn view(&self) -> Seq<(Seq<char>, Seq<char>)> {
        attributes_view(self.attributes@)
    }
}

/// The view of the answer to a query.
pub enum QueryResponseView {
    Count(int),
    TotalFunds(Seq<CoinView>),
}

impl View for QueryResponse {
    type V = QueryResponseView;

    open spec fn view(&self) -> QueryResponseView {
        match self {
            QueryResponse::Count(r) => QueryResponseView::Count(r.count as int),
            QueryResponse::TotalFunds(r) => QueryResponseView::TotalFunds(
                coins_view(r.total_funds@),
            ),
        }
    }
}

impl Response {
    /// A response without messages and attributes.
    pub fn new() -> (r: Response)
        ensures
            r@ == (ResponseView { messages: Seq::empty(), attributes: Seq::empty() }),
    {
        let r = Response { messages: Vec::new(), attributes: Vec::new() };
        assert(r@.messages =~= Seq::empty());
        assert(r@.attributes =~= Seq::empty());
        r
    }

    /// This response with one more message at the end.
    pub fn add_message(self, message: TransferMsg) -> (r: Response)
        ensures
            r@ == (ResponseView { messages: self@.messages.push(message@), ..self@ }),
    {
        let mut r = self;
        r.messages.push(message);
        assert(r@.messages =~= self@.messages.push(message@));
        assert(r@.attributes =~= self@.attributes);
        r
    }

    /// This response with one more attribute at the end.
    pub fn add_attribute(self, key: &str, value: String) -> (r: Response)
        ensures
            r@ == (ResponseView { attributes: self@.attributes.push((key@, value@)), ..self@ }),
    {
        let mut r = self;
        r.attributes.push(Attribute { key: String::from_str(key), value });
        assert(r@.attributes =~= self@.attributes.push((key@, value@)));
        assert(r@.messages =~= self@.messages);
        r
    }
}

impl IbcBasicResponse {
    /// A response without attributes.
    pub fn new() -> (r: IbcBasicResponse)
        ensures
            r@ == Seq::<(Seq<char>, Seq<char>)>::empty(),
    {
        let r = IbcBasicResponse { attributes: Vec::new() };
        assert(r@ =~= Seq::empty());
        r
    }

    /// This response with one more attribute at the end.
    pub fn add_attribute(self, key: &str, value: String) -> (r: IbcBasicResponse)
        ensures
            r@ == self@.push((key@, value@)),
    {
        let mut r = self;
        r.attributes.push(Attribute { key: String::from_str(key), value });
        assert(r@ =~= self@.push((key@, value@)));
        r
    }
}

} // verus!
