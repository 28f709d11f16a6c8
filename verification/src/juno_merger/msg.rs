//! The messages that the merger takes, and the message that it sends to the
//! note contract.
use crate::host::{Coin, CoinView};
use vstd::prelude::*;

verus! {

#[derive(Debug, PartialEq, Eq)]
pub struct InstantiateMsg {
    pub note_contract: String,
    pub token_a: String,
    pub token_b: String,
    pub xion_mint_contract: String,
}

/// What a token contract tells the contract that its tokens were sent to.
#[derive(Debug, PartialEq, Eq)]
pub struct Cw20ReceiveMsg {
    /// The account that sent the tokens.
    pub sender: String,
    pub amount: u128,
    /// The message that the sender attached.
    pub msg: Vec<u8>,
}

#[derive(Debug, PartialEq, Eq)]
pub enum ExecuteMsg {
    Receive(Cw20ReceiveMsg),
}

/// What the sender of tokens may attach to a transfer.
#[derive(Debug, PartialEq, Eq)]
pub enum ReceiveMsg {
    /// Lock the tokens and mint as many to `xion_meta_account` on the other
    /// chain.
    Lock { xion_meta_account: String },
}

#[derive(Debug, PartialEq, Eq)]
pub enum QueryMsg {
    GetConfig {  },
}

/// A call of a contract on the other chain. `msg` is the base64 text of the
/// call's JSON text.
#[derive(Debug, PartialEq, Eq)]
pub struct RemoteExecute {
    pub contract_addr: String,
    pub msg: String,
    pub funds: Vec<Coin>,
}

/// What a [`RemoteExecute`] holds, as mathematical values.
pub struct RemoteExecuteView {
    pub contract_addr: Seq<char>,
    pub msg: Seq<char>,
    pub funds: Seq<CoinView>,
}

impl View for RemoteExecute {
    type V = RemoteExecuteView;

    open spec fn view(&self) -> RemoteExecuteView {
        RemoteExecuteView {
            contract_addr: self.contract_addr@,
            msg: self.msg@,
            funds: self.funds.deep_view(),
        }
    }
}

impl DeepView for RemoteExecute {
    type V = RemoteExecuteView;

    open spec fn deep_view(&self) -> RemoteExecuteView {
        self@
    }
}

/// Whom the note contract calls when the relayed messages have run, and
/// with what. `msg` is base64 text.
#[derive(Debug, PartialEq, Eq)]
pub struct CallbackRequest {
    pub receiver: String,
    pub msg: String,
}

/// What a [`CallbackRequest`] holds, as mathematical values.
pub struct CallbackRequestView {
    pub receiver: Seq<char>,
    pub msg: Seq<char>,
}

impl View for CallbackRequest {
    type V = CallbackRequestView;

    open spec fn view(&self) -> CallbackRequestView {
        CallbackRequestView { receiver: self.receiver@, msg: self.msg@ }
    }
}

impl DeepView for CallbackRequest {
    type V = CallbackRequestView;

    open spec fn deep_view(&self) -> CallbackRequestView {
        self@
    }
}

/// What the merger asks of the note contract.
#[derive(Debug, PartialEq, Eq)]
pub enum PolytoneExecuteMsg {
    /// Run `msgs` on the other chain, report to `callback`, and give up
    /// after `timeout_seconds`.
    Execute { msgs: Vec<RemoteExecute>, callback: Option<CallbackRequest>, timeout_seconds: u64 },
}

/// What a [`PolytoneExecuteMsg`] holds, as mathematical values.
pub enum PolytoneExecuteMsgView {
    Execute {
        msgs: Seq<RemoteExecuteView>,
        callback: Option<CallbackRequestView>,
        timeout_seconds: u64,
    },
}

impl View for PolytoneExecuteMsg {
    type V = PolytoneExecuteMsgView;

    open spec fn view(&self) -> PolytoneExecuteMsgView {
        match self {
            PolytoneExecuteMsg::Execute {
                msgs,
                callback,
                timeout_seconds,
            } => PolytoneExecuteMsgView::Execute {
                msgs: msgs.deep_view(),
                callback: callback.deep_view(),
                timeout_seconds: *timeout_seconds,
            },
        }
    }
}

/// A call of the note contract at `contract_addr`.
#[derive(Debug, PartialEq, Eq)]
pub struct NoteMsg {
    pub contract_addr: String,
    pub msg: PolytoneExecuteMsg,
    pub funds: Vec<Coin>,
}

/// What a [`NoteMsg`] holds, as mathematical values.
pub struct NoteMsgView {
    pub contract_addr: Seq<char>,
    pub msg: PolytoneExecuteMsgView,
    pub funds: Seq<CoinView>,
}

impl View for NoteMsg {
    type V = NoteMsgView;

    open spec fn view(&self) -> NoteMsgView {
        NoteMsgView {
            contract_addr: self.contract_addr@,
            msg: self.msg@,
            funds: self.funds.deep_view(),
        }
    }
}

impl DeepView for NoteMsg {
    type V = NoteMsgView;

    open spec fn deep_view(&self) -> NoteMsgView {
        self@
    }
}

} // verus!
