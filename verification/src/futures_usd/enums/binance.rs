//! The closed vocabularies of the feed: order, contract and account states,
//! and the parameters of the streams.

use crate::decode::Decode;
use crate::json::JsonValue;
use crate::text::same_text;
use vstd::prelude::*;

verus! {

/// The state of a strategy or a grid.
#[derive(Debug, Clone, Copy, PartialEq, Eq, Structural)]
pub enum StrategyStatus {
    New,
    Working,
    Cancelled,
    Expired,
}

impl StrategyStatus {
    /// The text of each variant, as `to_str` returns it.
    pub open spec fn text(self) -> Seq<char> {
        match self {
            StrategyStatus::New => "NEW"@,
            StrategyStatus::Working => "WORKING"@,
            StrategyStatus::Cancelled => "CANCELLED"@,
            StrategyStatus::Expired => "EXPIRED"@,
        }
    }

    /// The name under which the feed sends each variant.
    pub open spec fn wire_name(self) -> Seq<char> {
        self.text()
    }

    /// The variant that the feed sends as `name`.
    pub open spec fn named(name: Seq<char>) -> Option<StrategyStatus> {
        if name == "NEW"@ {
            Some(StrategyStatus::New)
        } else if name == "WORKING"@ {
            Some(StrategyStatus::Working)
        } else if name == "CANCELLED"@ {
            Some(StrategyStatus::Cancelled)
        } else if name == "EXPIRED"@ {
            Some(StrategyStatus::Expired)
        } else {
            None
        }
    }

    /// The text of the variant.
    pub fn to_str(&self) -> (text: &str)
        ensures
            text@ == self.text(),
    {
        match self {
            StrategyStatus::New => "NEW",
            StrategyStatus::Working => "WORKING",
            StrategyStatus::Cancelled => "CANCELLED",
            StrategyStatus::Expired => "EXPIRED",
        }
    }

    /// Reads a variant from the name under which the feed sends it.
    pub fn from_wire_name(name: &str) -> (variant: Option<StrategyStatus>)
        ensures
            variant == StrategyStatus::named(name@),
    {
        if same_text(name, "NEW") {
            Some(StrategyStatus::New)
        } else if same_text(name, "WORKING") {
            Some(StrategyStatus::Working)
        } else if same_text(name, "CANCELLED") {
            Some(StrategyStatus::Cancelled)
        } else if same_text(name, "EXPIRED") {
            Some(StrategyStatus::Expired)
        } else {
            None
        }
    }

    /// Each variant is read back from the name under which the feed sends
    /// it: no two variants share a name.
    pub proof fn wire_name_reads_back(variant: StrategyStatus)
        ensures
            StrategyStatus::named(variant.wire_name()) == Some(variant),
    {
        reveal_strlit("NEW");
        reveal_strlit("WORKING");
        reveal_strlit("CANCELLED");
        reveal_strlit("EXPIRED");
        assert({
            &&& "NEW"@.len() == 3
            &&& "WORKING"@.len() == 7
            &&& "CANCELLED"@.len() == 9
            &&& "EXPIRED"@.len() == 7
        });
        assert("WORKING"@[0] == 'W' && "EXPIRED"@[0] == 'E');
    }
}

impl Decode for StrategyStatus {
    /// A JSON string that holds the wire name of a variant.
    open spec fn accepts(document: JsonValue) -> bool {
        document matches JsonValue::String(s) && StrategyStatus::named(s@) is Some
    }

    open spec fn reflects(self, document: JsonValue) -> bool {
        document matches JsonValue::String(s) && StrategyStatus::named(s@) == Some(self)
    }

    fn decode(document: &JsonValue) -> (value: Option<Self>) {
        match document {
            JsonValue::String(s) => StrategyStatus::from_wire_name(s.as_str()),
            _ => None,
        }
    }
}

/// Why the balances or positions of an account changed.
#[derive(Debug, Clone, Copy, PartialEq, Eq, Structural)]
pub enum AccountUpdateReason {
    Deposit,
    Withdraw,
    Order,
    FundingFee,
    WithdrawReject,
    Adjustment,
    InsuranceClear,
    AdminDeposit,
    AdminWithdraw,
    MarginTransfer,
    MarginTypeChange,
    AssetTransfer,
    OptionsPremiumFee,
    OptionsSettleProfit,
    AutoExchange,
    CoinSwapDeposit,
    CoinSwapWithdraw,
}

impl AccountUpdateReason {
    /// The text of each variant, as `to_str` returns it.
    pub open spec fn text(self) -> Seq<char> {
        match self {
            AccountUpdateReason::Deposit => "DEPOSIT"@,
            AccountUpdateReason::Withdraw => "WITHDRAW"@,
            AccountUpdateReason::Order => "ORDER"@,
            AccountUpdateReason::FundingFee => "FUNDING_FEE"@,
            AccountUpdateReason::WithdrawReject => "WITHDRAW_REJECT"@,
            AccountUpdateReason::Adjustment => "ADJUSTMENT"@,
            AccountUpdateReason::InsuranceClear => "INSURANCE_CLEAR"@,
            AccountUpdateReason::AdminDeposit => "ADMIN_DEPOSIT"@,
            AccountUpdateReason::AdminWithdraw => "ADMIN_WITHDRAW"@,
            AccountUpdateReason::MarginTransfer => "MARGIN_TRANSFER"@,
            AccountUpdateReason::MarginTypeChange => "MARGIN_TYPE_CHANGE"@,
            AccountUpdateReason::AssetTransfer => "ASSET_TRANSFER"@,
            AccountUpdateReason::OptionsPremiumFee => "OPTIONS_PREMIUM_FEE"@,
            AccountUpdateReason::OptionsSettleProfit => "OPTIONS_SETTLE_PROFIT"@,
            AccountUpdateReason::AutoExchange => "AUTO_EXCHANGE"@,
            AccountUpdateReason::CoinSwapDeposit => "COIN_SWAP_DEPOSIT"@,
            AccountUpdateReason::CoinSwapWithdraw => "COIN_SWAP_WITHDRAW"@,
        }
    }

    /// The name under which the feed sends each variant.
    pub open spec fn wire_name(self) -> Seq<char> {
        self.text()
    }

    /// The variant that the feed sends as `name`.
    pub open spec fn named(name: Seq<char>) -> Option<AccountUpdateReason> {
        if name == "DEPOSIT"@ {
            Some(AccountUpdateReason::Deposit)
        } else if name == "WITHDRAW"@ {
            Some(AccountUpdateReason::Withdraw)
        } else if name == "ORDER"@ {
            Some(AccountUpdateReason::Order)
        } else if name == "FUNDING_FEE"@ {
            Some(AccountUpdateReason::FundingFee)
        } else if name == "WITHDRAW_REJECT"@ {
            Some(AccountUpdateReason::WithdrawReject)
        } else if name == "ADJUSTMENT"@ {
            Some(AccountUpdateReason::Adjustment)
        } else if name == "INSURANCE_CLEAR"@ {
            Some(AccountUpdateReason::InsuranceClear)
        } else if name == "ADMIN_DEPOSIT"@ {
            Some(AccountUpdateReason::AdminDeposit)
        } else if name == "ADMIN_WITHDRAW"@ {
            Some(AccountUpdateReason::AdminWithdraw)
        } else if name == "MARGIN_TRANSFER"@ {
            Some(AccountUpdateReason::MarginTransfer)
        } else if name == "MARGIN_TYPE_CHANGE"@ {
            Some(AccountUpdateReason::MarginTypeChange)
        } else if name == "ASSET_TRANSFER"@ {
            Some(AccountUpdateReason::AssetTransfer)
        } else if name == "OPTIONS_PREMIUM_FEE"@ {
            Some(AccountUpdateReason::OptionsPremiumFee)
        } else if name == "OPTIONS_SETTLE_PROFIT"@ {
            Some(AccountUpdateReason::OptionsSettleProfit)
        } else if name == "AUTO_EXCHANGE"@ {
            Some(AccountUpdateReason::AutoExchange)
        } else if name == "COIN_SWAP_DEPOSIT"@ {
            Some(AccountUpdateReason::CoinSwapDeposit)
        } else if name == "COIN_SWAP_WITHDRAW"@ {
            Some(AccountUpdateReason::CoinSwapWithdraw)
        } else {
            None
        }
    }

    /// The text of the variant.
    pub fn to_str(&self) -> (text: &str)
        ensures
            text@ == self.text(),
    {
        match self {
            AccountUpdateReason::Deposit => "DEPOSIT",
            AccountUpdateReason::Withdraw => "WITHDRAW",
            AccountUpdateReason::Order => "ORDER",
            AccountUpdateReason::FundingFee => "FUNDING_FEE",
            AccountUpdateReason::WithdrawReject => "WITHDRAW_REJECT",
            AccountUpdateReason::Adjustment => "ADJUSTMENT",
            AccountUpdateReason::InsuranceClear => "INSURANCE_CLEAR",
            AccountUpdateReason::AdminDeposit => "ADMIN_DEPOSIT",
            AccountUpdateReason::AdminWithdraw => "ADMIN_WITHDRAW",
            AccountUpdateReason::MarginTransfer => "MARGIN_TRANSFER",
            AccountUpdateReason::MarginTypeChange => "MARGIN_TYPE_CHANGE",
            AccountUpdateReason::AssetTransfer => "ASSET_TRANSFER",
            AccountUpdateReason::OptionsPremiumFee => "OPTIONS_PREMIUM_FEE",
            AccountUpdateReason::OptionsSettleProfit => "OPTIONS_SETTLE_PROFIT",
            AccountUpdateReason::AutoExchange => "AUTO_EXCHANGE",
            AccountUpdateReason::CoinSwapDeposit => "COIN_SWAP_DEPOSIT",
            AccountUpdateReason::CoinSwapWithdraw => "COIN_SWAP_WITHDRAW",
        }
    }

    /// Reads a variant from the name under which the feed sends it.
    pub fn from_wire_name(name: &str) -> (variant: Option<AccountUpdateReason>)
        ensures
            variant == AccountUpdateReason::named(name@),
    {
        if same_text(name, "DEPOSIT") {
            Some(AccountUpdateReason::Deposit)
        } else if same_text(name, "WITHDRAW") {
            Some(AccountUpdateReason::Withdraw)
        } else if same_text(name, "ORDER") {
            Some(AccountUpdateReason::Order)
        } else if same_text(name, "FUNDING_FEE") {
            Some(AccountUpdateReason::FundingFee)
        } else if same_text(name, "WITHDRAW_REJECT") {
            Some(AccountUpdateReason::WithdrawReject)
        } else if same_text(name, "ADJUSTMENT") {
            Some(AccountUpdateReason::Adjustment)
        } else if same_text(name, "INSURANCE_CLEAR") {
            Some(AccountUpdateReason::InsuranceClear)
        } else if same_text(name, "ADMIN_DEPOSIT") {
            Some(AccountUpdateReason::AdminDeposit)
        } else if same_text(name, "ADMIN_WITHDRAW") {
            Some(AccountUpdateReason::AdminWithdraw)
        } else if same_text(name, "MARGIN_TRANSFER") {
            Some(AccountUpdateReason::MarginTransfer)
        } else if same_text(name, "MARGIN_TYPE_CHANGE") {
            Some(AccountUpdateReason::MarginTypeChange)
        } else if same_text(name, "ASSET_TRANSFER") {
            Some(AccountUpdateReason::AssetTransfer)
        } else if same_text(name, "OPTIONS_PREMIUM_FEE") {
            Some(AccountUpdateReason::OptionsPremiumFee)
        } else if same_text(name, "OPTIONS_SETTLE_PROFIT") {
            Some(AccountUpdateReason::OptionsSettleProfit)
        } else if same_text(name, "AUTO_EXCHANGE") {
            Some(AccountUpdateReason::AutoExchange)
        } else if same_text(name, "COIN_SWAP_DEPOSIT") {
            Some(AccountUpdateReason::CoinSwapDeposit)
        } else if same_text(name, "COIN_SWAP_WITHDRAW") {
            Some(AccountUpdateReason::CoinSwapWithdraw)
        } else {
            None
        }
    }

    /// Each variant is read back from the name under which the feed sends
    /// it: no two variants share a name.
    pub proof fn wire_name_reads_back(variant: AccountUpdateReason)
        ensures
            AccountUpdateReason::named(variant.wire_name()) == Some(variant),
    {
        reveal_strlit("DEPOSIT");
        reveal_strlit("WITHDRAW");
        reveal_strlit("ORDER");
        reveal_strlit("FUNDING_FEE");
        reveal_strlit("WITHDRAW_REJECT");
        reveal_strlit("ADJUSTMENT");
        reveal_strlit("INSURANCE_CLEAR");
        reveal_strlit("ADMIN_DEPOSIT");
        reveal_strlit("ADMIN_WITHDRAW");
        reveal_strlit("MARGIN_TRANSFER");
        reveal_strlit("MARGIN_TYPE_CHANGE");
        reveal_strlit("ASSET_TRANSFER");
        reveal_strlit("OPTIONS_PREMIUM_FEE");
        reveal_strlit("OPTIONS_SETTLE_PROFIT");
        reveal_strlit("AUTO_EXCHANGE");
        reveal_strlit("COIN_SWAP_DEPOSIT");
        reveal_strlit("COIN_SWAP_WITHDRAW");
        assert({
            &&& "DEPOSIT"@.len() == 7
            &&& "WITHDRAW"@.len() == 8
            &&& "ORDER"@.len() == 5
            &&& "FUNDING_FEE"@.len() == 11
            &&& "WITHDRAW_REJECT"@.len() == 15
            &&& "ADJUSTMENT"@.len() == 10
            &&& "INSURANCE_CLEAR"@.len() == 15
            &&& "ADMIN_DEPOSIT"@.len() == 13
            &&& "ADMIN_WITHDRAW"@.len() == 14
            &&& "MARGIN_TRANSFER"@.len() == 15
            &&& "MARGIN_TYPE_CHANGE"@.len() == 18
            &&& "ASSET_TRANSFER"@.len() == 14
            &&& "OPTIONS_PREMIUM_FEE"@.len() == 19
            &&& "OPTIONS_SETTLE_PROFIT"@.len() == 21
            &&& "AUTO_EXCHANGE"@.len() == 13
            &&& "COIN_SWAP_DEPOSIT"@.len() == 17
            &&& "COIN_SWAP_WITHDRAW"@.len() == 18
        });
        assert({
            &&& "WITHDRAW_REJECT"@[0] == 'W'
            &&& "INSURANCE_CLEAR"@[0] == 'I'
            &&& "ADMIN_DEPOSIT"@[1] == 'D'
            &&& "ADMIN_WITHDRAW"@[1] == 'D'
            &&& "MARGIN_TRANSFER"@[0] == 'M'
            &&& "MARGIN_TYPE_CHANGE"@[0] == 'M'
            &&& "ASSET_TRANSFER"@[1] == 'S'
            &&& "AUTO_EXCHANGE"@[1] == 'U'
            &&& "COIN_SWAP_WITHDRAW"@[0] == 'C'
        });
    }
}

impl Decode for AccountUpdateReason {
    /// A JSON string that holds the wire name of a variant.
    open spec fn accepts(document: JsonValue) -> bool {
        document matches JsonValue::String(s) && AccountUpdateReason::named(s@) is Some
    }

    open spec fn reflects(self, document: JsonValue) -> bool {
        document matches JsonValue::String(s) && AccountUpdateReason::named(s@) == Some(self)
    }

    fn decode(document: &JsonValue) -> (value: Option<Self>) {
        match document {
            JsonValue::String(s) => AccountUpdateReason::from_wire_name(s.as_str()),
            _ => None,
        }
    }
}

/// How the margin of a position is held.
#[derive(Debug, Clone, Copy, PartialEq, Eq, Structural)]
pub enum MarginType {
    Isolated,
    Crossed,
}

impl MarginType {
    /// The text of each variant, as `to_str` returns it.
    pub open spec fn text(self) -> Seq<char> {
        match self {
            MarginType::Isolated => "isolated"@,
            MarginType::Crossed => "crossed"@,
        }
    }

    /// The name under which the feed sends each variant.
    pub open spec fn wire_name(self) -> Seq<char> {
        self.text()
    }

    /// The variant that the feed sends as `name`.
    pub open spec fn named(name: Seq<char>) -> Option<MarginType> {
        if name == "isolated"@ {
            Some(MarginType::Isolated)
        } else if name == "crossed"@ {
            Some(MarginType::Crossed)
        } else {
            None
        }
    }

    /// The text of the variant.
    pub fn to_str(&self) -> (text: &str)
        ensures
            text@ == self.text(),
    {
        match self {
            MarginType::Isolated => "isolated",
            MarginType::Crossed => "crossed",
        }
    }

    /// Reads a variant from the name under which the feed sends it.
    pub fn from_wire_name(name: &str) -> (variant: Option<MarginType>)
        ensures
            variant == MarginType::named(name@),
    {
        if same_text(name, "isolated") {
            Some(MarginType::Isolated)
        } else if same_text(name, "crossed") {
            Some(MarginType::Crossed)
        } else {
            None
        }
    }

    /// Each variant is read back from the name under which the feed sends
    /// it: no two variants share a name.
    pub proof fn wire_name_reads_back(variant: MarginType)
        ensures
            MarginType::named(variant.wire_name()) == Some(variant),
    {
        reveal_strlit("isolated");
        reveal_strlit("crossed");
        assert("isolated"@.len() == 8 && "crossed"@.len() == 7);
    }
}

impl Decode for MarginType {
    /// A JSON string that holds the wire name of a variant.
    open spec fn accepts(document: JsonValue) -> bool {
        document matches JsonValue::String(s) && MarginType::named(s@) is Some
    }

    open spec fn reflects(self, document: JsonValue) -> bool {
        document matches JsonValue::String(s) && MarginType::named(s@) == Some(self)
    }

    fn decode(document: &JsonValue) -> (value: Option<Self>) {
        match document {
            JsonValue::String(s) => MarginType::from_wire_name(s.as_str()),
            _ => None,
        }
    }
}

/// The price-match mode of an order.
#[derive(Debug, Clone, Copy, PartialEq, Eq, Structural)]
pub enum PriceMatch {
    NoMatch,
    Opponent,
    Opponent5,
    Opponent10,
    Opponent20,
    Queue,
    Queue5,
    Queue10,
    Queue20,
}

impl PriceMatch {
    /// The text of each variant, as `to_str` returns it.
    pub open spec fn text(self) -> Seq<char> {
        match self {
            PriceMatch::NoMatch => "NONE"@,
            PriceMatch::Opponent => "OPPONENT"@,
            PriceMatch::Opponent5 => "OPPONENT_5"@,
            PriceMatch::Opponent10 => "OPPONENT_10"@,
            PriceMatch::Opponent20 => "OPPONENT_20"@,
            PriceMatch::Queue => "QUEUE"@,
            PriceMatch::Queue5 => "QUEUE_5"@,
            PriceMatch::Queue10 => "QUEUE_10"@,
            PriceMatch::Queue20 => "QUEUE_20"@,
        }
    }

    /// The name under which the feed sends each variant.
    pub open spec fn wire_name(self) -> Seq<char> {
        self.text()
    }

    /// The variant that the feed sends as `name`.
    pub open spec fn named(name: Seq<char>) -> Option<PriceMatch> {
        if name == "NONE"@ {
            Some(PriceMatch::NoMatch)
        } else if name == "OPPONENT"@ {
            Some(PriceMatch::Opponent)
        } else if name == "OPPONENT_5"@ {
            Some(PriceMatch::Opponent5)
        } else if name == "OPPONENT_10"@ {
            Some(PriceMatch::Opponent10)
        } else if name == "OPPONENT_20"@ {
            Some(PriceMatch::Opponent20)
        } else if name == "QUEUE"@ {
            Some(PriceMatch::Queue)
        } else if name == "QUEUE_5"@ {
            Some(PriceMatch::Queue5)
        } else if name == "QUEUE_10"@ {
            Some(PriceMatch::Queue10)
        } else if name == "QUEUE_20"@ {
            Some(PriceMatch::Queue20)
        } else {
            None
        }
    }

    /// The text of the variant.
    pub fn to_str(&self) -> (text: &str)
        ensures
            text@ == self.text(),
    {
        match self {
            PriceMatch::NoMatch => "NONE",
            PriceMatch::Opponent => "OPPONENT",
            PriceMatch::Opponent5 => "OPPONENT_5",
            PriceMatch::Opponent10 => "OPPONENT_10",
            PriceMatch::Opponent20 => "OPPONENT_20",
            PriceMatch::Queue => "QUEUE",
            PriceMatch::Queue5 => "QUEUE_5",
            PriceMatch::Queue10 => "QUEUE_10",
            PriceMatch::Queue20 => "QUEUE_20",
        }
    }

    /// Reads a variant from the name under which the feed sends it.
    pub fn from_wire_name(name: &str) -> (variant: Option<PriceMatch>)
        ensures
            variant == PriceMatch::named(name@),
    {
        if same_text(name, "NONE") {
            Some(PriceMatch::NoMatch)
        } else if same_text(name, "OPPONENT") {
            Some(PriceMatch::Opponent)
        } else if same_text(name, "OPPONENT_5") {
            Some(PriceMatch::Opponent5)
        } else if same_text(name, "OPPONENT_10") {
            Some(PriceMatch::Opponent10)
        } else if same_text(name, "OPPONENT_20") {
            Some(PriceMatch::Opponent20)
        } else if same_text(name, "QUEUE") {
            Some(PriceMatch::Queue)
        } else if same_text(name, "QUEUE_5") {
            Some(PriceMatch::Queue5)
        } else if same_text(name, "QUEUE_10") {
            Some(PriceMatch::Queue10)
        } else if same_text(name, "QUEUE_20") {
            Some(PriceMatch::Queue20)
        } else {
            None
        }
    }

    /// Each variant is read back from the name under which the feed sends
    /// it: no two variants share a name.
    pub proof fn wire_name_reads_back(variant: PriceMatch)
        ensures
            PriceMatch::named(variant.wire_name()) == Some(variant),
    {
        reveal_strlit("NONE");
        reveal_strlit("OPPONENT");
        reveal_strlit("OPPONENT_5");
        reveal_strlit("OPPONENT_10");
        reveal_strlit("OPPONENT_20");
        reveal_strlit("QUEUE");
        reveal_strlit("QUEUE_5");
        reveal_strlit("QUEUE_10");
        reveal_strlit("QUEUE_20");
        assert({
            &&& "NONE"@.len() == 4
            &&& "OPPONENT"@.len() == 8
            &&& "OPPONENT_5"@.len() == 10
            &&& "OPPONENT_10"@.len() == 11
            &&& "OPPONENT_20"@.len() == 11
            &&& "QUEUE"@.len() == 5
            &&& "QUEUE_5"@.len() == 7
            &&& "QUEUE_10"@.len() == 8
            &&& "QUEUE_20"@.len() == 8
        });
        assert({
            &&& "OPPONENT"@[0] == 'O'
            &&& "OPPONENT_10"@[9] == '1'
            &&& "OPPONENT_20"@[9] == '2'
            &&& "QUEUE_10"@[0] == 'Q'
            &&& "QUEUE_10"@[6] == '1'
            &&& "QUEUE_20"@[0] == 'Q'
            &&& "QUEUE_20"@[6] == '2'
        });
    }
}

impl Decode for PriceMatch {
    /// A JSON string that holds the wire name of a variant.
    open spec fn accepts(document: JsonValue) -> bool {
        document matches JsonValue::String(s) && PriceMatch::named(s@) is Some
    }

    open spec fn reflects(self, document: JsonValue) -> bool {
        document matches JsonValue::String(s) && PriceMatch::named(s@) == Some(self)
    }

    fn decode(document: &JsonValue) -> (value: Option<Self>) {
        match document {
            JsonValue::String(s) => PriceMatch::from_wire_name(s.as_str()),
            _ => None,
        }
    }
}

/// The self-trade prevention mode of an order.
#[derive(Debug, Clone, Copy, PartialEq, Eq, Structural)]
pub enum StpMode {
    NoStp,
    ExpireTaker,
    ExpireBoth,
    ExpireMaker,
}

impl StpMode {
    /// The text of each variant, as `to_str` returns it.
    pub open spec fn text(self) -> Seq<char> {
        match self {
            StpMode::NoStp => "NONE"@,
            StpMode::ExpireTaker => "EXPIRE_TAKER"@,
            StpMode::ExpireBoth => "EXPIRE_BOTH"@,
            StpMode::ExpireMaker => "EXPIRE_MAKER"@,
        }
    }

    /// The name under which the feed sends each variant.
    pub open spec fn wire_name(self) -> Seq<char> {
        self.text()
    }

    /// The variant that the feed sends as `name`.
    pub open spec fn named(name: Seq<char>) -> Option<StpMode> {
        if name == "NONE"@ {
            Some(StpMode::NoStp)
        } else if name == "EXPIRE_TAKER"@ {
            Some(StpMode::ExpireTaker)
        } else if name == "EXPIRE_BOTH"@ {
            Some(StpMode::ExpireBoth)
        } else if name == "EXPIRE_MAKER"@ {
            Some(StpMode::ExpireMaker)
        } else {
            None
        }
    }

    /// The text of the variant.
    pub fn to_str(&self) -> (text: &str)
        ensures
            text@ == self.text(),
    {
        match self {
            StpMode::NoStp => "NONE",
            StpMode::ExpireTaker => "EXPIRE_TAKER",
            StpMode::ExpireBoth => "EXPIRE_BOTH",
            StpMode::ExpireMaker => "EXPIRE_MAKER",
        }
    }

    /// Reads a variant from the name under which the feed sends it.
    pub fn from_wire_name(name: &str) -> (variant: Option<StpMode>)
        ensures
            variant == StpMode::named(name@),
    {
        if same_text(name, "NONE") {
            Some(StpMode::NoStp)
        } else if same_text(name, "EXPIRE_TAKER") {
            Some(StpMode::ExpireTaker)
        } else if same_text(name, "EXPIRE_BOTH") {
            Some(StpMode::ExpireBoth)
        } else if same_text(name, "EXPIRE_MAKER") {
            Some(StpMode::ExpireMaker)
        } else {
            None
        }
    }

    /// Each variant is read back from the name under which the feed sends
    /// it: no two variants share a name.
    pub proof fn wire_name_reads_back(variant: StpMode)
        ensures
            StpMode::named(variant.wire_name()) == Some(variant),
    {
        reveal_strlit("NONE");
        reveal_strlit("EXPIRE_TAKER");
        reveal_strlit("EXPIRE_BOTH");
        reveal_strlit("EXPIRE_MAKER");
        assert({
            &&& "NONE"@.len() == 4
            &&& "EXPIRE_TAKER"@.len() == 12
            &&& "EXPIRE_BOTH"@.len() == 11
            &&& "EXPIRE_MAKER"@.len() == 12
        });
        assert("EXPIRE_TAKER"@[7] == 'T' && "EXPIRE_MAKER"@[7] == 'M');
    }
}

impl Decode for StpMode {
    /// A JSON string that holds the wire name of a variant.
    open spec fn accepts(document: JsonValue) -> bool {
        document matches JsonValue::String(s) && StpMode::named(s@) is Some
    }

    open spec fn reflects(self, document: JsonValue) -> bool {
        document matches JsonValue::String(s) && StpMode::named(s@) == Some(self)
    }

    fn decode(document: &JsonValue) -> (value: Option<Self>) {
        match document {
            JsonValue::String(s) => StpMode::from_wire_name(s.as_str()),
            _ => None,
        }
    }
}

/// The kind of a futures contract.
#[derive(Debug, Clone, Copy, PartialEq, Eq, Structural)]
pub enum ContractType {
    Perpetual,
    CurrentMonth,
    NextMonth,
    CurrentQuarter,
    NextQuarter,
    PerpetualDelivering,
}

impl ContractType {
    /// The text of each variant, as `to_str` returns it.
    pub open spec fn text(self) -> Seq<char> {
        match self {
            ContractType::Perpetual => "PERPETUAL"@,
            ContractType::CurrentMonth => "CURRENT_MONTH"@,
            ContractType::NextMonth => "NEXT_MONTH"@,
            ContractType::CurrentQuarter => "CURRENT_QUARTER"@,
            ContractType::NextQuarter => "NEXT_QUARTER"@,
            ContractType::PerpetualDelivering => "PERPETUAL_DELIVERING"@,
        }
    }

    /// The name under which the feed sends each variant.
    pub open spec fn wire_name(self) -> Seq<char> {
        self.text()
    }

    /// The variant that the feed sends as `name`.
    pub open spec fn named(name: Seq<char>) -> Option<ContractType> {
        if name == "PERPETUAL"@ {
            Some(ContractType::Perpetual)
        } else if name == "CURRENT_MONTH"@ {
            Some(ContractType::CurrentMonth)
        } else if name == "NEXT_MONTH"@ {
            Some(ContractType::NextMonth)
        } else if name == "CURRENT_QUARTER"@ {
            Some(ContractType::CurrentQuarter)
        } else if name == "NEXT_QUARTER"@ {
            Some(ContractType::NextQuarter)
        } else if name == "PERPETUAL_DELIVERING"@ {
            Some(ContractType::PerpetualDelivering)
        } else {
            None
        }
    }

    /// The text of the variant.
    pub fn to_str(&self) -> (text: &str)
        ensures
            text@ == self.text(),
    {
        match self {
            ContractType::Perpetual => "PERPETUAL",
            ContractType::CurrentMonth => "CURRENT_MONTH",
            ContractType::NextMonth => "NEXT_MONTH",
            ContractType::CurrentQuarter => "CURRENT_QUARTER",
            ContractType::NextQuarter => "NEXT_QUARTER",
            ContractType::PerpetualDelivering => "PERPETUAL_DELIVERING",
        }
    }

    /// Reads a variant from the name under which the feed sends it.
    pub fn from_wire_name(name: &str) -> (variant: Option<ContractType>)
        ensures
            variant == ContractType::named(name@),
    {
        if same_text(name, "PERPETUAL") {
            Some(ContractType::Perpetual)
        } else if same_text(name, "CURRENT_MONTH") {
            Some(ContractType::CurrentMonth)
        } else if same_text(name, "NEXT_MONTH") {
            Some(ContractType::NextMonth)
        } else if same_text(name, "CURRENT_QUARTER") {
            Some(ContractType::CurrentQuarter)
        } else if same_text(name, "NEXT_QUARTER") {
            Some(ContractType::NextQuarter)
        } else if same_text(name, "PERPETUAL_DELIVERING") {
            Some(ContractType::PerpetualDelivering)
        } else {
            None
        }
    }

    /// Each variant is read back from the name under which the feed sends
    /// it: no two variants share a name.
    pub proof fn wire_name_reads_back(variant: ContractType)
        ensures
            ContractType::named(variant.wire_name()) == Some(variant),
    {
        reveal_strlit("PERPETUAL");
        reveal_strlit("CURRENT_MONTH");
        reveal_strlit("NEXT_MONTH");
        reveal_strlit("CURRENT_QUARTER");
        reveal_strlit("NEXT_QUARTER");
        reveal_strlit("PERPETUAL_DELIVERING");
        assert({
            &&& "PERPETUAL"@.len() == 9
            &&& "CURRENT_MONTH"@.len() == 13
            &&& "NEXT_MONTH"@.len() == 10
            &&& "CURRENT_QUARTER"@.len() == 15
            &&& "NEXT_QUARTER"@.len() == 12
            &&& "PERPETUAL_DELIVERING"@.len() == 20
        });
    }
}

impl Decode for ContractType {
    /// A JSON string that holds the wire name of a variant.
    open spec fn accepts(document: JsonValue) -> bool {
        document matches JsonValue::String(s) && ContractType::named(s@) is Some
    }

    open spec fn reflects(self, document: JsonValue) -> bool {
        document matches JsonValue::String(s) && ContractType::named(s@) == Some(self)
    }

    fn decode(document: &JsonValue) -> (value: Option<Self>) {
        match document {
            JsonValue::String(s) => ContractType::from_wire_name(s.as_str()),
            _ => None,
        }
    }
}

/// The trading state of a contract.
#[derive(Debug, Clone, Copy, PartialEq, Eq, Structural)]
pub enum ContractStatus {
    PendingTrading,
    Trading,
    PreDelivering,
    Delivering,
    Delivered,
    PreSettle,
    Settling,
    Close,
}

impl ContractStatus {
    /// The text of each variant, as `to_str` returns it.
    pub open spec fn text(self) -> Seq<char> {
        match self {
            ContractStatus::PendingTrading => "PENDING_TRADING"@,
            ContractStatus::Trading => "TRADING"@,
            ContractStatus::PreDelivering => "PRE_DELIVERING"@,
            ContractStatus::Delivering => "DELIVERING"@,
            ContractStatus::Delivered => "DELIVERED"@,
            ContractStatus::PreSettle => "PRE_SETTLE"@,
            ContractStatus::Settling => "SETTLING"@,
            ContractStatus::Close => "CLOSE"@,
        }
    }

    /// The name under which the feed sends each variant.
    pub open spec fn wire_name(self) -> Seq<char> {
        self.text()
    }

    /// The variant that the feed sends as `name`.
    pub open spec fn named(name: Seq<char>) -> Option<ContractStatus> {
        if name == "PENDING_TRADING"@ {
            Some(ContractStatus::PendingTrading)
        } else if name == "TRADING"@ {
            Some(ContractStatus::Trading)
        } else if name == "PRE_DELIVERING"@ {
            Some(ContractStatus::PreDelivering)
        } else if name == "DELIVERING"@ {
            Some(ContractStatus::Delivering)
        } else if name == "DELIVERED"@ {
            Some(ContractStatus::Delivered)
        } else if name == "PRE_SETTLE"@ {
            Some(ContractStatus::PreSettle)
        } else if name == "SETTLING"@ {
            Some(ContractStatus::Settling)
        } else if name == "CLOSE"@ {
            Some(ContractStatus::Close)
        } else {
            None
        }
    }

    /// The text of the variant.
    pub fn to_str(&self) -> (text: &str)
        ensures
            text@ == self.text(),
    {
        match self {
            ContractStatus::PendingTrading => "PENDING_TRADING",
            ContractStatus::Trading => "TRADING",
            ContractStatus::PreDelivering => "PRE_DELIVERING",
            ContractStatus::Delivering => "DELIVERING",
            ContractStatus::Delivered => "DELIVERED",
            ContractStatus::PreSettle => "PRE_SETTLE",
            ContractStatus::Settling => "SETTLING",
            ContractStatus::Close => "CLOSE",
        }
    }

    /// Reads a variant from the name under which the feed sends it.
    pub fn from_wire_name(name: &str) -> (variant: Option<ContractStatus>)
        ensures
            variant == ContractStatus::named(name@),
    {
        if same_text(name, "PENDING_TRADING") {
            Some(ContractStatus::PendingTrading)
        } else if same_text(name, "TRADING") {
            Some(ContractStatus::Trading)
        } else if same_text(name, "PRE_DELIVERING") {
            Some(ContractStatus::PreDelivering)
        } else if same_text(name, "DELIVERING") {
            Some(ContractStatus::Delivering)
        } else if same_text(name, "DELIVERED") {
            Some(ContractStatus::Delivered)
        } else if same_text(name, "PRE_SETTLE") {
            Some(ContractStatus::PreSettle)
        } else if same_text(name, "SETTLING") {
            Some(ContractStatus::Settling)
        } else if same_text(name, "CLOSE") {
            Some(ContractStatus::Close)
        } else {
            None
        }
    }

    /// Each variant is read back from the name under which the feed sends
    /// it: no two variants share a name.
    pub proof fn wire_name_reads_back(variant: ContractStatus)
        ensures
            ContractStatus::named(variant.wire_name()) == Some(variant),
    {
        reveal_strlit("PENDING_TRADING");
        reveal_strlit("TRADING");
        reveal_strlit("PRE_DELIVERING");
        reveal_strlit("DELIVERING");
        reveal_strlit("DELIVERED");
        reveal_strlit("PRE_SETTLE");
        reveal_strlit("SETTLING");
        reveal_strlit("CLOSE");
        assert({
            &&& "PENDING_TRADING"@.len() == 15
            &&& "TRADING"@.len() == 7
            &&& "PRE_DELIVERING"@.len() == 14
            &&& "DELIVERING"@.len() == 10
            &&& "DELIVERED"@.len() == 9
            &&& "PRE_SETTLE"@.len() == 10
            &&& "SETTLING"@.len() == 8
            &&& "CLOSE"@.len() == 5
        });
        assert("DELIVERING"@[0] == 'D' && "PRE_SETTLE"@[0] == 'P');
    }
}

impl Decode for ContractStatus {
    /// A JSON string that holds the wire name of a variant.
    open spec fn accepts(document: JsonValue) -> bool {
        document matches JsonValue::String(s) && ContractStatus::named(s@) is Some
    }

    open spec fn reflects(self, document: JsonValue) -> bool {
        document matches JsonValue::String(s) && ContractStatus::named(s@) == Some(self)
    }

    fn decode(document: &JsonValue) -> (value: Option<Self>) {
        match document {
            JsonValue::String(s) => ContractStatus::from_wire_name(s.as_str()),
            _ => None,
        }
    }
}

/// The state of an order.
#[derive(Debug, Clone, Copy, PartialEq, Eq, Structural)]
pub enum OrderStatus {
    New,
    PartiallyFilled,
    Filled,
    Canceled,
    Rejected,
    Expired,
}

impl OrderStatus {
    /// The text of each variant, as `to_str` returns it.
    pub open spec fn text(self) -> Seq<char> {
        match self {
            OrderStatus::New => "NEW"@,
            OrderStatus::PartiallyFilled => "PARTIALLY_FILLED"@,
            OrderStatus::Filled => "FILLED"@,
            OrderStatus::Canceled => "CANCELED"@,
            OrderStatus::Rejected => "REJECTED"@,
            OrderStatus::Expired => "EXPIRED"@,
        }
    }

    /// The name under which the feed sends each variant.
    pub open spec fn wire_name(self) -> Seq<char> {
        self.text()
    }

    /// The variant that the feed sends as `name`.
    pub open spec fn named(name: Seq<char>) -> Option<OrderStatus> {
        if name == "NEW"@ {
            Some(OrderStatus::New)
        } else if name == "PARTIALLY_FILLED"@ {
            Some(OrderStatus::PartiallyFilled)
        } else if name == "FILLED"@ {
            Some(OrderStatus::Filled)
        } else if name == "CANCELED"@ {
            Some(OrderStatus::Canceled)
        } else if name == "REJECTED"@ {
            Some(OrderStatus::Rejected)
        } else if name == "EXPIRED"@ {
            Some(OrderStatus::Expired)
        } else {
            None
        }
    }

    /// The text of the variant.
    pub fn to_str(&self) -> (text: &str)
        ensures
            text@ == self.text(),
    {
        match self {
            OrderStatus::New => "NEW",
            OrderStatus::PartiallyFilled => "PARTIALLY_FILLED",
            OrderStatus::Filled => "FILLED",
            OrderStatus::Canceled => "CANCELED",
            OrderStatus::Rejected => "REJECTED",
            OrderStatus::Expired => "EXPIRED",
        }
    }

    /// Reads a variant from the name under which the feed sends it.
    pub fn from_wire_name(name: &str) -> (variant: Option<OrderStatus>)
        ensures
            variant == OrderStatus::named(name@),
    {
        if same_text(name, "NEW") {
            Some(OrderStatus::New)
        } else if same_text(name, "PARTIALLY_FILLED") {
            Some(OrderStatus::PartiallyFilled)
        } else if same_text(name, "FILLED") {
            Some(OrderStatus::Filled)
        } else if same_text(name, "CANCELED") {
            Some(OrderStatus::Canceled)
        } else if same_text(name, "REJECTED") {
            Some(OrderStatus::Rejected)
        } else if same_text(name, "EXPIRED") {
            Some(OrderStatus::Expired)
        } else {
            None
        }
    }

    /// Each variant is read back from the name under which the feed sends
    /// it: no two variants share a name.
    pub proof fn wire_name_reads_back(variant: OrderStatus)
        ensures
            OrderStatus::named(variant.wire_name()) == Some(variant),
    {
        reveal_strlit("NEW");
        reveal_strlit("PARTIALLY_FILLED");
        reveal_strlit("FILLED");
        reveal_strlit("CANCELED");
        reveal_strlit("REJECTED");
        reveal_strlit("EXPIRED");
        assert({
            &&& "NEW"@.len() == 3
            &&& "PARTIALLY_FILLED"@.len() == 16
            &&& "FILLED"@.len() == 6
            &&& "CANCELED"@.len() == 8
            &&& "REJECTED"@.len() == 8
            &&& "EXPIRED"@.len() == 7
        });
        assert("CANCELED"@[0] == 'C' && "REJECTED"@[0] == 'R');
    }
}

impl Decode for OrderStatus {
    /// A JSON string that holds the wire name of a variant.
    open spec fn accepts(document: JsonValue) -> bool {
        document matches JsonValue::String(s) && OrderStatus::named(s@) is Some
    }

    open spec fn reflects(self, document: JsonValue) -> bool {
        document matches JsonValue::String(s) && OrderStatus::named(s@) == Some(self)
    }

    fn decode(document: &JsonValue) -> (value: Option<Self>) {
        match document {
            JsonValue::String(s) => OrderStatus::from_wire_name(s.as_str()),
            _ => None,
        }
    }
}

/// The price that triggers a stop order.
#[derive(Debug, Clone, Copy, PartialEq, Eq, Structural)]
pub enum WorkingType {
    MarkPrice,
    ContractPrice,
}

impl WorkingType {
    /// The text of each variant, as `to_str` returns it.
    pub open spec fn text(self) -> Seq<char> {
        match self {
            WorkingType::MarkPrice => "MARK_PRICE"@,
            WorkingType::ContractPrice => "CONTRACT_PRICE"@,
        }
    }

    /// The name under which the feed sends each variant.
    pub open spec fn wire_name(self) -> Seq<char> {
        self.text()
    }

    /// The variant that the feed sends as `name`.
    pub open spec fn named(name: Seq<char>) -> Option<WorkingType> {
        if name == "MARK_PRICE"@ {
            Some(WorkingType::MarkPrice)
        } else if name == "CONTRACT_PRICE"@ {
            Some(WorkingType::ContractPrice)
        } else {
            None
        }
    }

    /// The text of the variant.
    pub fn to_str(&self) -> (text: &str)
        ensures
            text@ == self.text(),
    {
        match self {
            WorkingType::MarkPrice => "MARK_PRICE",
            WorkingType::ContractPrice => "CONTRACT_PRICE",
        }
    }

    /// Reads a variant from the name under which the feed sends it.
    pub fn from_wire_name(name: &str) -> (variant: Option<WorkingType>)
        ensures
            variant == WorkingType::named(name@),
    {
        if same_text(name, "MARK_PRICE") {
            Some(WorkingType::MarkPrice)
        } else if same_text(name, "CONTRACT_PRICE") {
            Some(WorkingType::ContractPrice)
        } else {
            None
        }
    }

    /// Each variant is read back from the name under which the feed sends
    /// it: no two variants share a name.
    pub proof fn wire_name_reads_back(variant: WorkingType)
        ensures
            WorkingType::named(variant.wire_name()) == Some(variant),
    {
        reveal_strlit("MARK_PRICE");
        reveal_strlit("CONTRACT_PRICE");
        assert("MARK_PRICE"@.len() == 10 && "CONTRACT_PRICE"@.len() == 14);
    }
}

impl Decode for WorkingType {
    /// A JSON string that holds the wire name of a variant.
    open spec fn accepts(document: JsonValue) -> bool {
        document matches JsonValue::String(s) && WorkingType::named(s@) is Some
    }

    open spec fn reflects(self, document: JsonValue) -> bool {
        document matches JsonValue::String(s) && WorkingType::named(s@) == Some(self)
    }

    fn decode(document: &JsonValue) -> (value: Option<Self>) {
        match document {
            JsonValue::String(s) => WorkingType::from_wire_name(s.as_str()),
            _ => None,
        }
    }
}

/// How long an order stays in the book.
#[derive(Debug, Clone, Copy, PartialEq, Eq, Structural)]
pub enum TimeInForce {
    GTC,
    IOC,
    FOK,
    GTX,
    GTD,
}

impl TimeInForce {
    /// The text of each variant, as `to_str` returns it.
    pub open spec fn text(self) -> Seq<char> {
        match self {
            TimeInForce::GTC => "GTC"@,
            TimeInForce::IOC => "IOC"@,
            TimeInForce::FOK => "FOK"@,
            TimeInForce::GTX => "GTX"@,
            TimeInForce::GTD => "GTD"@,
        }
    }

    /// The name under which the feed sends each variant.
    pub open spec fn wire_name(self) -> Seq<char> {
        self.text()
    }

    /// The variant that the feed sends as `name`.
    pub open spec fn named(name: Seq<char>) -> Option<TimeInForce> {
        if name == "GTC"@ {
            Some(TimeInForce::GTC)
        } else if name == "IOC"@ {
            Some(TimeInForce::IOC)
        } else if name == "FOK"@ {
            Some(TimeInForce::FOK)
        } else if name == "GTX"@ {
            Some(TimeInForce::GTX)
        } else if name == "GTD"@ {
            Some(TimeInForce::GTD)
        } else {
            None
        }
    }

    /// The text of the variant.
    pub fn to_str(&self) -> (text: &str)
        ensures
            text@ == self.text(),
    {
        match self {
            TimeInForce::GTC => "GTC",
            TimeInForce::IOC => "IOC",
            TimeInForce::FOK => "FOK",
            TimeInForce::GTX => "GTX",
            TimeInForce::GTD => "GTD",
        }
    }

    /// Reads a variant from the name under which the feed sends it.
    pub fn from_wire_name(name: &str) -> (variant: Option<TimeInForce>)
        ensures
            variant == TimeInForce::named(name@),
    {
        if same_text(name, "GTC") {
            Some(TimeInForce::GTC)
        } else if same_text(name, "IOC") {
            Some(TimeInForce::IOC)
        } else if same_text(name, "FOK") {
            Some(TimeInForce::FOK)
        } else if same_text(name, "GTX") {
            Some(TimeInForce::GTX)
        } else if same_text(name, "GTD") {
            Some(TimeInForce::GTD)
        } else {
            None
        }
    }

    /// Each variant is read back from the name under which the feed sends
    /// it: no two variants share a name.
    pub proof fn wire_name_reads_back(variant: TimeInForce)
        ensures
            TimeInForce::named(variant.wire_name()) == Some(variant),
    {
        reveal_strlit("GTC");
        reveal_strlit("IOC");
        reveal_strlit("FOK");
        reveal_strlit("GTX");
        reveal_strlit("GTD");
        assert({
            &&& "GTC"@.len() == 3
            &&& "IOC"@.len() == 3
            &&& "FOK"@.len() == 3
            &&& "GTX"@.len() == 3
            &&& "GTD"@.len() == 3
        });
        assert({
            &&& "GTC"@[0] == 'G'
            &&& "GTC"@[2] == 'C'
            &&& "IOC"@[0] == 'I'
            &&& "FOK"@[0] == 'F'
            &&& "GTX"@[0] == 'G'
            &&& "GTX"@[2] == 'X'
            &&& "GTD"@[0] == 'G'
            &&& "GTD"@[2] == 'D'
        });
    }
}

impl Decode for TimeInForce {
    /// A JSON string that holds the wire name of a variant.
    open spec fn accepts(document: JsonValue) -> bool {
        document matches JsonValue::String(s) && TimeInForce::named(s@) is Some
    }

    open spec fn reflects(self, document: JsonValue) -> bool {
        document matches JsonValue::String(s) && TimeInForce::named(s@) == Some(self)
    }

    fn decode(document: &JsonValue) -> (value: Option<Self>) {
        match document {
            JsonValue::String(s) => TimeInForce::from_wire_name(s.as_str()),
            _ => None,
        }
    }
}

/// What happened to an order in one update.
#[derive(Debug, Clone, Copy, PartialEq, Eq, Structural)]
pub enum ExecutionType {
    New,
    Canceled,
    Calculated,
    Expired,
    Trade,
    Amendment,
}

impl ExecutionType {
    /// The text of each variant, as `to_str` returns it.
    pub open spec fn text(self) -> Seq<char> {
        match self {
            ExecutionType::New => "NEW"@,
            ExecutionType::Canceled => "CANCELED"@,
            ExecutionType::Calculated => "CALCULATED"@,
            ExecutionType::Expired => "EXPIRED"@,
            ExecutionType::Trade => "TRADE"@,
            ExecutionType::Amendment => "AMENDMENT"@,
        }
    }

    /// The name under which the feed sends each variant.
    pub open spec fn wire_name(self) -> Seq<char> {
        self.text()
    }

    /// The variant that the feed sends as `name`.
    pub open spec fn named(name: Seq<char>) -> Option<ExecutionType> {
        if name == "NEW"@ {
            Some(ExecutionType::New)
        } else if name == "CANCELED"@ {
            Some(ExecutionType::Canceled)
        } else if name == "CALCULATED"@ {
            Some(ExecutionType::Calculated)
        } else if name == "EXPIRED"@ {
            Some(ExecutionType::Expired)
        } else if name == "TRADE"@ {
            Some(ExecutionType::Trade)
        } else if name == "AMENDMENT"@ {
            Some(ExecutionType::Amendment)
        } else {
            None
        }
    }

    /// The text of the variant.
    pub fn to_str(&self) -> (text: &str)
        ensures
            text@ == self.text(),
    {
        match self {
            ExecutionType::New => "NEW",
            ExecutionType::Canceled => "CANCELED",
            ExecutionType::Calculated => "CALCULATED",
            ExecutionType::Expired => "EXPIRED",
            ExecutionType::Trade => "TRADE",
            ExecutionType::Amendment => "AMENDMENT",
        }
    }

    /// Reads a variant from the name under which the feed sends it.
    pub fn from_wire_name(name: &str) -> (variant: Option<ExecutionType>)
        ensures
            variant == ExecutionType::named(name@),
    {
        if same_text(name, "NEW") {
            Some(ExecutionType::New)
        } else if same_text(name, "CANCELED") {
            Some(ExecutionType::Canceled)
        } else if same_text(name, "CALCULATED") {
            Some(ExecutionType::Calculated)
        } else if same_text(name, "EXPIRED") {
            Some(ExecutionType::Expired)
        } else if same_text(name, "TRADE") {
            Some(ExecutionType::Trade)
        } else if same_text(name, "AMENDMENT") {
            Some(ExecutionType::Amendment)
        } else {
            None
        }
    }

    /// Each variant is read back from the name under which the feed sends
    /// it: no two variants share a name.
    pub proof fn wire_name_reads_back(variant: ExecutionType)
        ensures
            ExecutionType::named(variant.wire_name()) == Some(variant),
    {
        reveal_strlit("NEW");
        reveal_strlit("CANCELED");
        reveal_strlit("CALCULATED");
        reveal_strlit("EXPIRED");
        reveal_strlit("TRADE");
        reveal_strlit("AMENDMENT");
        assert({
            &&& "NEW"@.len() == 3
            &&& "CANCELED"@.len() == 8
            &&& "CALCULATED"@.len() == 10
            &&& "EXPIRED"@.len() == 7
            &&& "TRADE"@.len() == 5
            &&& "AMENDMENT"@.len() == 9
        });
    }
}

impl Decode for ExecutionType {
    /// A JSON string that holds the wire name of a variant.
    open spec fn accepts(document: JsonValue) -> bool {
        document matches JsonValue::String(s) && ExecutionType::named(s@) is Some
    }

    open spec fn reflects(self, document: JsonValue) -> bool {
        document matches JsonValue::String(s) && ExecutionType::named(s@) == Some(self)
    }

    fn decode(document: &JsonValue) -> (value: Option<Self>) {
        match document {
            JsonValue::String(s) => ExecutionType::from_wire_name(s.as_str()),
            _ => None,
        }
    }
}

/// The kind of an order.
#[derive(Debug, Clone, Copy, PartialEq, Eq, Structural)]
pub enum OrderType {
    Limit,
    Market,
    Stop,
    StopMarket,
    TakeProfit,
    TakeProfitMarket,
    TrailingStopMarket,
}

impl OrderType {
    /// The text of each variant, as `to_str` returns it.
    pub open spec fn text(self) -> Seq<char> {
        match self {
            OrderType::Limit => "LIMIT"@,
            OrderType::Market => "MARKET"@,
            OrderType::Stop => "STOP"@,
            OrderType::StopMarket => "STOP_MARKET"@,
            OrderType::TakeProfit => "TAKE_PROFIT"@,
            OrderType::TakeProfitMarket => "TAKE_PROFIT_MARKET"@,
            OrderType::TrailingStopMarket => "TRAILING_STOP_MARKET"@,
        }
    }

    /// The name under which the feed sends each variant.
    pub open spec fn wire_name(self) -> Seq<char> {
        self.text()
    }

    /// The variant that the feed sends as `name`.
    pub open spec fn named(name: Seq<char>) -> Option<OrderType> {
        if name == "LIMIT"@ {
            Some(OrderType::Limit)
        } else if name == "MARKET"@ {
            Some(OrderType::Market)
        } else if name == "STOP"@ {
            Some(OrderType::Stop)
        } else if name == "STOP_MARKET"@ {
            Some(OrderType::StopMarket)
        } else if name == "TAKE_PROFIT"@ {
            Some(OrderType::TakeProfit)
        } else if name == "TAKE_PROFIT_MARKET"@ {
            Some(OrderType::TakeProfitMarket)
        } else if name == "TRAILING_STOP_MARKET"@ {
            Some(OrderType::TrailingStopMarket)
        } else {
            None
        }
    }

    /// The text of the variant.
    pub fn to_str(&self) -> (text: &str)
        ensures
            text@ == self.text(),
    {
        match self {
            OrderType::Limit => "LIMIT",
            OrderType::Market => "MARKET",
            OrderType::Stop => "STOP",
            OrderType::StopMarket => "STOP_MARKET",
            OrderType::TakeProfit => "TAKE_PROFIT",
            OrderType::TakeProfitMarket => "TAKE_PROFIT_MARKET",
            OrderType::TrailingStopMarket => "TRAILING_STOP_MARKET",
        }
    }

    /// Reads a variant from the name under which the feed sends it.
    pub fn from_wire_name(name: &str) -> (variant: Option<OrderType>)
        ensures
            variant == OrderType::named(name@),
    {
        if same_text(name, "LIMIT") {
            Some(OrderType::Limit)
        } else if same_text(name, "MARKET") {
            Some(OrderType::Market)
        } else if same_text(name, "STOP") {
            Some(OrderType::Stop)
        } else if same_text(name, "STOP_MARKET") {
            Some(OrderType::StopMarket)
        } else if same_text(name, "TAKE_PROFIT") {
            Some(OrderType::TakeProfit)
        } else if same_text(name, "TAKE_PROFIT_MARKET") {
            Some(OrderType::TakeProfitMarket)
        } else if same_text(name, "TRAILING_STOP_MARKET") {
            Some(OrderType::TrailingStopMarket)
        } else {
            None
        }
    }

    /// Each variant is read back from the name under which the feed sends
    /// it: no two variants share a name.
    pub proof fn wire_name_reads_back(variant: OrderType)
        ensures
            OrderType::named(variant.wire_name()) == Some(variant),
    {
        reveal_strlit("LIMIT");
        reveal_strlit("MARKET");
        reveal_strlit("STOP");
        reveal_strlit("STOP_MARKET");
        reveal_strlit("TAKE_PROFIT");
        reveal_strlit("TAKE_PROFIT_MARKET");
        reveal_strlit("TRAILING_STOP_MARKET");
        assert({
            &&& "LIMIT"@.len() == 5
            &&& "MARKET"@.len() == 6
            &&& "STOP"@.len() == 4
            &&& "STOP_MARKET"@.len() == 11
            &&& "TAKE_PROFIT"@.len() == 11
            &&& "TAKE_PROFIT_MARKET"@.len() == 18
            &&& "TRAILING_STOP_MARKET"@.len() == 20
        });
        assert("STOP_MARKET"@[0] == 'S' && "TAKE_PROFIT"@[0] == 'T');
    }
}

impl Decode for OrderType {
    /// A JSON string that holds the wire name of a variant.
    open spec fn accepts(document: JsonValue) -> bool {
        document matches JsonValue::String(s) && OrderType::named(s@) is Some
    }

    open spec fn reflects(self, document: JsonValue) -> bool {
        document matches JsonValue::String(s) && OrderType::named(s@) == Some(self)
    }

    fn decode(document: &JsonValue) -> (value: Option<Self>) {
        match document {
            JsonValue::String(s) => OrderType::from_wire_name(s.as_str()),
            _ => None,
        }
    }
}

/// The side of an order.
#[derive(Debug, Clone, Copy, PartialEq, Eq, Structural)]
pub enum Side {
    Buy,
    Sell,
}

impl Side {
    /// The text of each variant, as `to_str` returns it.
    pub open spec fn text(self) -> Seq<char> {
        match self {
            Side::Buy => "BUY"@,
            Side::Sell => "SELL"@,
        }
    }

    /// The name under which the feed sends each variant.
    pub open spec fn wire_name(self) -> Seq<char> {
        self.text()
    }

    /// The variant that the feed sends as `name`.
    pub open spec fn named(name: Seq<char>) -> Option<Side> {
        if name == "BUY"@ {
            Some(Side::Buy)
        } else if name == "SELL"@ {
            Some(Side::Sell)
        } else {
            None
        }
    }

    /// The text of the variant.
    pub fn to_str(&self) -> (text: &str)
        ensures
            text@ == self.text(),
    {
        match self {
            Side::Buy => "BUY",
            Side::Sell => "SELL",
        }
    }

    /// Reads a variant from the name under which the feed sends it.
    pub fn from_wire_name(name: &str) -> (variant: Option<Side>)
        ensures
            variant == Side::named(name@),
    {
        if same_text(name, "BUY") {
            Some(Side::Buy)
        } else if same_text(name, "SELL") {
            Some(Side::Sell)
        } else {
            None
        }
    }

    /// Each variant is read back from the name under which the feed sends
    /// it: no two variants share a name.
    pub proof fn wire_name_reads_back(variant: Side)
        ensures
            Side::named(variant.wire_name()) == Some(variant),
    {
        reveal_strlit("BUY");
        reveal_strlit("SELL");
        assert("BUY"@.len() == 3 && "SELL"@.len() == 4);
    }
}

impl Decode for Side {
    /// A JSON string that holds the wire name of a variant.
    open spec fn accepts(document: JsonValue) -> bool {
        document matches JsonValue::String(s) && Side::named(s@) is Some
    }

    open spec fn reflects(self, document: JsonValue) -> bool {
        document matches JsonValue::String(s) && Side::named(s@) == Some(self)
    }

    fn decode(document: &JsonValue) -> (value: Option<Self>) {
        match document {
            JsonValue::String(s) => Side::from_wire_name(s.as_str()),
            _ => None,
        }
    }
}

/// The side of a position.
#[derive(Debug, Clone, Copy, PartialEq, Eq, Structural)]
pub enum PositionSide {
    Long,
    Short,
    Both,
}

impl PositionSide {
    /// The text of each variant, as `to_str` returns it.
    pub open spec fn text(self) -> Seq<char> {
        match self {
            PositionSide::Long => "LONG"@,
            PositionSide::Short => "SHORT"@,
            PositionSide::Both => "BOTH"@,
        }
    }

    /// The name under which the feed sends each variant.
    pub open spec fn wire_name(self) -> Seq<char> {
        self.text()
    }

    /// The variant that the feed sends as `name`.
    pub open spec fn named(name: Seq<char>) -> Option<PositionSide> {
        if name == "LONG"@ {
            Some(PositionSide::Long)
        } else if name == "SHORT"@ {
            Some(PositionSide::Short)
        } else if name == "BOTH"@ {
            Some(PositionSide::Both)
        } else {
            None
        }
    }

    /// The text of the variant.
    pub fn to_str(&self) -> (text: &str)
        ensures
            text@ == self.text(),
    {
        match self {
            PositionSide::Long => "LONG",
            PositionSide::Short => "SHORT",
            PositionSide::Both => "BOTH",
        }
    }

    /// Reads a variant from the name under which the feed sends it.
    pub fn from_wire_name(name: &str) -> (variant: Option<PositionSide>)
        ensures
            variant == PositionSide::named(name@),
    {
        if same_text(name, "LONG") {
            Some(PositionSide::Long)
        } else if same_text(name, "SHORT") {
            Some(PositionSide::Short)
        } else if same_text(name, "BOTH") {
            Some(PositionSide::Both)
        } else {
            None
        }
    }

    /// Each variant is read back from the name under which the feed sends
    /// it: no two variants share a name.
    pub proof fn wire_name_reads_back(variant: PositionSide)
        ensures
            PositionSide::named(variant.wire_name()) == Some(variant),
    {
        reveal_strlit("LONG");
        reveal_strlit("SHORT");
        reveal_strlit("BOTH");
        assert("LONG"@.len() == 4 && "SHORT"@.len() == 5 && "BOTH"@.len() == 4);
        assert("LONG"@[0] == 'L' && "BOTH"@[0] == 'B');
    }
}

impl Decode for PositionSide {
    /// A JSON string that holds the wire name of a variant.
    open spec fn accepts(document: JsonValue) -> bool {
        document matches JsonValue::String(s) && PositionSide::named(s@) is Some
    }

    open spec fn reflects(self, document: JsonValue) -> bool {
        document matches JsonValue::String(s) && PositionSide::named(s@) == Some(self)
    }

    fn decode(document: &JsonValue) -> (value: Option<Self>) {
        match document {
            JsonValue::String(s) => PositionSide::from_wire_name(s.as_str()),
            _ => None,
        }
    }
}

/// How often a mark price stream sends. The feed sends every three
/// seconds unless it is asked otherwise.
#[derive(Debug, Clone, Copy, PartialEq, Eq, Structural)]
pub enum MarkPriceUpdateSpeed {
    Seconds1,
    Seconds3,
}

impl MarkPriceUpdateSpeed {
    /// The text of each variant, as `to_str` returns it.
    pub open spec fn text(self) -> Seq<char> {
        match self {
            MarkPriceUpdateSpeed::Seconds1 => "1s"@,
            MarkPriceUpdateSpeed::Seconds3 => "3s"@,
        }
    }

    /// The text of the variant.
    pub fn to_str(&self) -> (text: &str)
        ensures
            text@ == self.text(),
    {
        match self {
            MarkPriceUpdateSpeed::Seconds1 => "1s",
            MarkPriceUpdateSpeed::Seconds3 => "3s",
        }
    }
}

/// The span of one candle.
#[derive(Debug, Clone, Copy, PartialEq, Eq, Structural)]
pub enum KlineInterval {
    Minutes1,
    Minutes3,
    Minutes5,
    Minutes15,
    Minutes30,
    Hours1,
    Hours2,
    Hours4,
    Hours6,
    Hours8,
    Hours12,
    Days1,
    Days3,
    Weeks1,
    Months1,
}

impl KlineInterval {
    /// The text of each variant, as `to_str` returns it.
    pub open spec fn text(self) -> Seq<char> {
        match self {
            KlineInterval::Minutes1 => "1m"@,
            KlineInterval::Minutes3 => "3m"@,
            KlineInterval::Minutes5 => "5m"@,
            KlineInterval::Minutes15 => "15m"@,
            KlineInterval::Minutes30 => "30m"@,
            KlineInterval::Hours1 => "1h"@,
            KlineInterval::Hours2 => "2h"@,
            KlineInterval::Hours4 => "4h"@,
            KlineInterval::Hours6 => "6h"@,
            KlineInterval::Hours8 => "8h"@,
            KlineInterval::Hours12 => "12h"@,
            KlineInterval::Days1 => "1d"@,
            KlineInterval::Days3 => "3d"@,
            KlineInterval::Weeks1 => "1w"@,
            KlineInterval::Months1 => "1M"@,
        }
    }

    /// The name under which the feed sends each variant.
    pub open spec fn wire_name(self) -> Seq<char> {
        self.text()
    }

    /// The variant that the feed sends as `name`.
    pub open spec fn named(name: Seq<char>) -> Option<KlineInterval> {
        if name == "1m"@ {
            Some(KlineInterval::Minutes1)
        } else if name == "3m"@ {
            Some(KlineInterval::Minutes3)
        } else if name == "5m"@ {
            Some(KlineInterval::Minutes5)
        } else if name == "15m"@ {
            Some(KlineInterval::Minutes15)
        } else if name == "30m"@ {
            Some(KlineInterval::Minutes30)
        } else if name == "1h"@ {
            Some(KlineInterval::Hours1)
        } else if name == "2h"@ {
            Some(KlineInterval::Hours2)
        } else if name == "4h"@ {
            Some(KlineInterval::Hours4)
        } else if name == "6h"@ {
            Some(KlineInterval::Hours6)
        } else if name == "8h"@ {
            Some(KlineInterval::Hours8)
        } else if name == "12h"@ {
            Some(KlineInterval::Hours12)
        } else if name == "1d"@ {
            Some(KlineInterval::Days1)
        } else if name == "3d"@ {
            Some(KlineInterval::Days3)
        } else if name == "1w"@ {
            Some(KlineInterval::Weeks1)
        } else if name == "1M"@ {
            Some(KlineInterval::Months1)
        } else {
            None
        }
    }

    /// The text of the variant.
    pub fn to_str(&self) -> (text: &str)
        ensures
            text@ == self.text(),
    {
        match self {
            KlineInterval::Minutes1 => "1m",
            KlineInterval::Minutes3 => "3m",
            KlineInterval::Minutes5 => "5m",
            KlineInterval::Minutes15 => "15m",
            KlineInterval::Minutes30 => "30m",
            KlineInterval::Hours1 => "1h",
            KlineInterval::Hours2 => "2h",
            KlineInterval::Hours4 => "4h",
            KlineInterval::Hours6 => "6h",
            KlineInterval::Hours8 => "8h",
            KlineInterval::Hours12 => "12h",
            KlineInterval::Days1 => "1d",
            KlineInterval::Days3 => "3d",
            KlineInterval::Weeks1 => "1w",
            KlineInterval::Months1 => "1M",
        }
    }

    /// Reads a variant from the name under which the feed sends it.
    pub fn from_wire_name(name: &str) -> (variant: Option<KlineInterval>)
        ensures
            variant == KlineInterval::named(name@),
    {
        if same_text(name, "1m") {
            Some(KlineInterval::Minutes1)
        } else if same_text(name, "3m") {
            Some(KlineInterval::Minutes3)
        } else if same_text(name, "5m") {
            Some(KlineInterval::Minutes5)
        } else if same_text(name, "15m") {
            Some(KlineInterval::Minutes15)
        } else if same_text(name, "30m") {
            Some(KlineInterval::Minutes30)
        } else if same_text(name, "1h") {
            Some(KlineInterval::Hours1)
        } else if same_text(name, "2h") {
            Some(KlineInterval::Hours2)
        } else if same_text(name, "4h") {
            Some(KlineInterval::Hours4)
        } else if same_text(name, "6h") {
            Some(KlineInterval::Hours6)
        } else if same_text(name, "8h") {
            Some(KlineInterval::Hours8)
        } else if same_text(name, "12h") {
            Some(KlineInterval::Hours12)
        } else if same_text(name, "1d") {
            Some(KlineInterval::Days1)
        } else if same_text(name, "3d") {
            Some(KlineInterval::Days3)
        } else if same_text(name, "1w") {
            Some(KlineInterval::Weeks1)
        } else if same_text(name, "1M") {
            Some(KlineInterval::Months1)
        } else {
            None
        }
    }

    /// Each variant is read back from the name under which the feed sends
    /// it: no two variants share a name.
    pub proof fn wire_name_reads_back(variant: KlineInterval)
        ensures
            KlineInterval::named(variant.wire_name()) == Some(variant),
    {
        reveal_strlit("1m");
        reveal_strlit("3m");
        reveal_strlit("5m");
        reveal_strlit("15m");
        reveal_strlit("30m");
        reveal_strlit("1h");
        reveal_strlit("2h");
        reveal_strlit("4h");
        reveal_strlit("6h");
        reveal_strlit("8h");
        reveal_strlit("12h");
        reveal_strlit("1d");
        reveal_strlit("3d");
        reveal_strlit("1w");
        reveal_strlit("1M");
        assert({
            &&& "1m"@.len() == 2
            &&& "3m"@.len() == 2
            &&& "5m"@.len() == 2
            &&& "15m"@.len() == 3
            &&& "30m"@.len() == 3
            &&& "1h"@.len() == 2
            &&& "2h"@.len() == 2
            &&& "4h"@.len() == 2
            &&& "6h"@.len() == 2
            &&& "8h"@.len() == 2
            &&& "12h"@.len() == 3
            &&& "1d"@.len() == 2
            &&& "3d"@.len() == 2
            &&& "1w"@.len() == 2
            &&& "1M"@.len() == 2
        });
        assert({
            &&& "1m"@[0] == '1'
            &&& "1m"@[1] == 'm'
            &&& "3m"@[0] == '3'
            &&& "3m"@[1] == 'm'
            &&& "5m"@[0] == '5'
            &&& "15m"@[0] == '1'
            &&& "15m"@[1] == '5'
            &&& "30m"@[0] == '3'
            &&& "1h"@[0] == '1'
            &&& "1h"@[1] == 'h'
            &&& "2h"@[0] == '2'
            &&& "4h"@[0] == '4'
            &&& "6h"@[0] == '6'
            &&& "8h"@[0] == '8'
            &&& "12h"@[0] == '1'
            &&& "12h"@[1] == '2'
            &&& "1d"@[0] == '1'
            &&& "1d"@[1] == 'd'
            &&& "3d"@[0] == '3'
            &&& "3d"@[1] == 'd'
            &&& "1w"@[0] == '1'
            &&& "1w"@[1] == 'w'
            &&& "1M"@[0] == '1'
            &&& "1M"@[1] == 'M'
        });
    }
}

impl Decode for KlineInterval {
    /// A JSON string that holds the wire name of a variant.
    open spec fn accepts(document: JsonValue) -> bool {
        document matches JsonValue::String(s) && KlineInterval::named(s@) is Some
    }

    open spec fn reflects(self, document: JsonValue) -> bool {
        document matches JsonValue::String(s) && KlineInterval::named(s@) == Some(self)
    }

    fn decode(document: &JsonValue) -> (value: Option<Self>) {
        match document {
            JsonValue::String(s) => KlineInterval::from_wire_name(s.as_str()),
            _ => None,
        }
    }
}

/// The contract kind of a continuous candle stream.
#[derive(Debug, Clone, Copy, PartialEq, Eq, Structural)]
pub enum KlineContractType {
    Perpetual,
    CurrentQuarter,
    NextQuarter,
}

impl KlineContractType {
    /// The text of each variant, as `to_str` returns it.
    pub open spec fn text(self) -> Seq<char> {
        match self {
            KlineContractType::Perpetual => "perpetual"@,
            KlineContractType::CurrentQuarter => "current_quarter"@,
            KlineContractType::NextQuarter => "next_quarter"@,
        }
    }

    /// The name under which the feed sends each variant.
    pub open spec fn wire_name(self) -> Seq<char> {
        match self {
            KlineContractType::Perpetual => "PERPETUAL"@,
            KlineContractType::CurrentQuarter => "CURRENT_QUARTER"@,
            KlineContractType::NextQuarter => "NEXT_QUARTER"@,
        }
    }

    /// The variant that the feed sends as `name`.
    pub open spec fn named(name: Seq<char>) -> Option<KlineContractType> {
        if name == "PERPETUAL"@ {
            Some(KlineContractType::Perpetual)
        } else if name == "CURRENT_QUARTER"@ {
            Some(KlineContractType::CurrentQuarter)
        } else if name == "NEXT_QUARTER"@ {
            Some(KlineContractType::NextQuarter)
        } else {
            None
        }
    }

    /// The text of the variant.
    pub fn to_str(&self) -> (text: &str)
        ensures
            text@ == self.text(),
    {
        match self {
            KlineContractType::Perpetual => "perpetual",
            KlineContractType::CurrentQuarter => "current_quarter",
            KlineContractType::NextQuarter => "next_quarter",
        }
    }

    /// Reads a variant from the name under which the feed sends it.
    pub fn from_wire_name(name: &str) -> (variant: Option<KlineContractType>)
        ensures
            variant == KlineContractType::named(name@),
    {
        if same_text(name, "PERPETUAL") {
            Some(KlineContractType::Perpetual)
        } else if same_text(name, "CURRENT_QUARTER") {
            Some(KlineContractType::CurrentQuarter)
        } else if same_text(name, "NEXT_QUARTER") {
            Some(KlineContractType::NextQuarter)
        } else {
            None
        }
    }

    /// Each variant is read back from the name under which the feed sends
    /// it: no two variants share a name.
    pub proof fn wire_name_reads_back(variant: KlineContractType)
        ensures
            KlineContractType::named(variant.wire_name()) == Some(variant),
    {
        reveal_strlit("PERPETUAL");
        reveal_strlit("CURRENT_QUARTER");
        reveal_strlit("NEXT_QUARTER");
        assert({
            &&& "PERPETUAL"@.len() == 9
            &&& "CURRENT_QUARTER"@.len() == 15
            &&& "NEXT_QUARTER"@.len() == 12
        });
    }
}

impl Decode for KlineContractType {
    /// A JSON string that holds the wire name of a variant.
    open spec fn accepts(document: JsonValue) -> bool {
        document matches JsonValue::String(s) && KlineContractType::named(s@) is Some
    }

    open spec fn reflects(self, document: JsonValue) -> bool {
        document matches JsonValue::String(s) && KlineContractType::named(s@) == Some(self)
    }

    fn decode(document: &JsonValue) -> (value: Option<Self>) {
        match document {
            JsonValue::String(s) => KlineContractType::from_wire_name(s.as_str()),
            _ => None,
        }
    }
}

/// How many levels a partial book depth stream sends.
#[derive(Debug, Clone, Copy, PartialEq, Eq, Structural)]
pub enum PartialBookDepthLevel {
    Five,
    Ten,
    Twenty,
}

impl PartialBookDepthLevel {
    /// The text of each variant, as `to_str` returns it.
    pub open spec fn text(self) -> Seq<char> {
        match self {
            PartialBookDepthLevel::Five => "5"@,
            PartialBookDepthLevel::Ten => "10"@,
            PartialBookDepthLevel::Twenty => "20"@,
        }
    }

    /// The text of the variant.
    pub fn to_str(&self) -> (text: &str)
        ensures
            text@ == self.text(),
    {
        match self {
            PartialBookDepthLevel::Five => "5",
            PartialBookDepthLevel::Ten => "10",
            PartialBookDepthLevel::Twenty => "20",
        }
    }
}

/// How often a book depth stream sends. The feed sends every 250
/// milliseconds unless it is asked otherwise.
#[derive(Debug, Clone, Copy, PartialEq, Eq, Structural)]
pub enum BookDepthUpdateSpeed {
    Millis100,
    Millis250,
    Millis500,
}

impl BookDepthUpdateSpeed {
    /// The text of each variant, as `to_str` returns it.
    pub open spec fn text(self) -> Seq<char> {
        match self {
            BookDepthUpdateSpeed::Millis100 => "100ms"@,
            BookDepthUpdateSpeed::Millis250 => "250ms"@,
            BookDepthUpdateSpeed::Millis500 => "500ms"@,
        }
    }

    /// The text of the variant.
    pub fn to_str(&self) -> (text: &str)
        ensures
            text@ == self.text(),
    {
        match self {
            BookDepthUpdateSpeed::Millis100 => "100ms",
            BookDepthUpdateSpeed::Millis250 => "250ms",
            BookDepthUpdateSpeed::Millis500 => "500ms",
        }
    }
}

} // verus!
