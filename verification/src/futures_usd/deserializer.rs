//! From a payload of the feed to the event it stands for.
//!
//! A payload is read as JSON and then tried against three shapes, in this
//! order: an object that carries an event tag, an acknowledgement, and an
//! array of tagged objects. The first shape that fits decides what becomes
//! of the payload; a payload that fits none of them is an error. No payload
//! is dropped.

use crate::decode::all_accepted;
use crate::decode::all_reflected;
use crate::decode::decode_all;
use crate::decode::Decode;
use crate::error::DecodeError;
use crate::error::DecodeFailure;
use crate::futures_usd::enums::events::Event;
use crate::futures_usd::enums::events::EventType;
use crate::futures_usd::response::AccountConfigUpdate;
use crate::futures_usd::response::AccountUpdate;
use crate::futures_usd::response::AggTrade;
use crate::futures_usd::response::AssetIndexUpdate;
use crate::futures_usd::response::AssetIndexUpdates;
use crate::futures_usd::response::BookDepth;
use crate::futures_usd::response::BookTicker;
use crate::futures_usd::response::BookTickers;
use crate::futures_usd::response::CompositeIndex;
use crate::futures_usd::response::ConditionalOrderTriggerReject;
use crate::futures_usd::response::ContinuousKline;
use crate::futures_usd::response::ContractInfo;
use crate::futures_usd::response::EventTypeWrapper;
use crate::futures_usd::response::ForceOrder;
use crate::futures_usd::response::GridUpdate;
use crate::futures_usd::response::Kline;
use crate::futures_usd::response::MarginCall;
use crate::futures_usd::response::MarkPriceUpdate;
use crate::futures_usd::response::MarkPriceUpdates;
use crate::futures_usd::response::MiniTicker;
use crate::futures_usd::response::MiniTickers;
use crate::futures_usd::response::OrderTradeUpdate;
use crate::futures_usd::response::StrategyUpdate;
use crate::futures_usd::response::SubscribeResponse;
use crate::futures_usd::response::Ticker;
use crate::futures_usd::response::Tickers;
use crate::json::json_document;
use crate::json::parse_json;
use crate::json::JsonValue;
use vstd::prelude::*;

verus! {

/// The event tag of a document: the text of its member `e`. Only an object
/// whose `e` is a JSON string has one.
pub open spec fn tag_of(document: JsonValue) -> Option<Seq<char>> {
    match document.member("e"@) {
        Some(JsonValue::String(tag)) => Some(tag@),
        _ => None,
    }
}

/// Whether a document with the tag `kind` is what the feed documents for
/// that event.
pub open spec fn fits(kind: EventType, document: JsonValue) -> bool {
    match kind {
        EventType::BookTickerEventType => BookTicker::accepts(document),
        EventType::AggTradeEventType => AggTrade::accepts(document),
        EventType::MarkPriceUpdateEventType => MarkPriceUpdate::accepts(document),
        EventType::KlineEventType => Kline::accepts(document),
        EventType::ContinuousKlineEventType => ContinuousKline::accepts(document),
        EventType::MiniTickerEventType => MiniTicker::accepts(document),
        EventType::TickerEventType => Ticker::accepts(document),
        EventType::ForceOrderEventType => ForceOrder::accepts(document),
        EventType::BookDepthEventType => BookDepth::accepts(document),
        EventType::CompositeIndexEventType => CompositeIndex::accepts(document),
        EventType::ContractInfoEventType => ContractInfo::accepts(document),
        EventType::AssetIndexUpdateEventType => AssetIndexUpdate::accepts(document),
        EventType::OrderTradeUpdateEventType => OrderTradeUpdate::accepts(document),
        EventType::AccountUpdateEventType => AccountUpdate::accepts(document),
        EventType::MarginCallEventType => MarginCall::accepts(document),
        EventType::AccountConfigUpdateEventType => AccountConfigUpdate::accepts(document),
        EventType::StrategyUpdateEventType => StrategyUpdate::accepts(document),
        EventType::GridUpdateEventType => GridUpdate::accepts(document),
        EventType::ConditionalOrderTriggerRejectEventType => ConditionalOrderTriggerReject::accepts(
            document,
        ),
    }
}

/// Whether `event` is the event of the tag `kind`, with the record that
/// `document` stands for. The tag alone decides the variant.
pub open spec fn carries(event: Event, kind: EventType, document: JsonValue) -> bool {
    match kind {
        EventType::BookTickerEventType => event matches Event::BookTickerEvent(record)
            && record.reflects(document),
        EventType::AggTradeEventType => event matches Event::AggTradeEvent(record)
            && record.reflects(document),
        EventType::MarkPriceUpdateEventType => event matches Event::MarkPriceUpdateEvent(record)
            && record.reflects(document),
        EventType::KlineEventType => event matches Event::KlineEvent(record) && record.reflects(
            document,
        ),
        EventType::ContinuousKlineEventType => event matches Event::ContinuousKlineEvent(record)
            && record.reflects(document),
        EventType::MiniTickerEventType => event matches Event::MiniTickerEvent(record)
            && record.reflects(document),
        EventType::TickerEventType => event matches Event::TickerEvent(record) && record.reflects(
            document,
        ),
        EventType::ForceOrderEventType => event matches Event::ForceOrderEvent(record)
            && record.reflects(document),
        EventType::BookDepthEventType => event matches Event::BookDepthEvent(record)
            && record.reflects(document),
        EventType::CompositeIndexEventType => event matches Event::CompositeIndexEvent(record)
            && record.reflects(document),
        EventType::ContractInfoEventType => event matches Event::ContractInfoEvent(record)
            && record.reflects(document),
        EventType::AssetIndexUpdateEventType => event matches Event::AssetIndexUpdateEvent(record)
            && record.reflects(document),
        EventType::OrderTradeUpdateEventType => event matches Event::OrderTradeUpdateEvent(record)
            && record.reflects(document),
        EventType::AccountUpdateEventType => event matches Event::AccountUpdateEvent(record)
            && record.reflects(document),
        EventType::MarginCallEventType => event matches Event::MarginCallEvent(record)
            && record.reflects(document),
        EventType::AccountConfigUpdateEventType => event matches Event::AccountConfigUpdateEvent(
            record,
        ) && record.reflects(document),
        EventType::StrategyUpdateEventType => event matches Event::StrategyUpdateEvent(record)
            && record.reflects(document),
        EventType::GridUpdateEventType => event matches Event::GridUpdateEvent(record)
            && record.reflects(document),
        EventType::ConditionalOrderTriggerRejectEventType => event matches Event::ConditionalOrderTriggerRejectEvent(
            record,
        ) && record.reflects(document),
    }
}

/// Reads the record that the tag `kind` names from `document`.
pub fn decode_event(kind: EventType, document: &JsonValue) -> (event: Option<Event>)
    ensures
        event is Some <==> fits(kind, *document),
        event is Some ==> carries(event->0, kind, *document),
{
    Some(
        match kind {
            EventType::BookTickerEventType => Event::BookTickerEvent(BookTicker::decode(document)?),
            EventType::AggTradeEventType => Event::AggTradeEvent(AggTrade::decode(document)?),
            EventType::MarkPriceUpdateEventType => Event::MarkPriceUpdateEvent(
                MarkPriceUpdate::decode(document)?,
            ),
            EventType::KlineEventType => Event::KlineEvent(Kline::decode(document)?),
            EventType::ContinuousKlineEventType => Event::ContinuousKlineEvent(
                ContinuousKline::decode(document)?,
            ),
            EventType::MiniTickerEventType => Event::MiniTickerEvent(MiniTicker::decode(document)?),
            EventType::TickerEventType => Event::TickerEvent(Ticker::decode(document)?),
            EventType::ForceOrderEventType => Event::ForceOrderEvent(ForceOrder::decode(document)?),
            EventType::BookDepthEventType => Event::BookDepthEvent(BookDepth::decode(document)?),
            EventType::CompositeIndexEventType => Event::CompositeIndexEvent(
                CompositeIndex::decode(document)?,
            ),
            EventType::ContractInfoEventType => Event::ContractInfoEvent(
                ContractInfo::decode(document)?,
            ),
            EventType::AssetIndexUpdateEventType => Event::AssetIndexUpdateEvent(
                AssetIndexUpdate::decode(document)?,
            ),
            EventType::OrderTradeUpdateEventType => Event::OrderTradeUpdateEvent(
                OrderTradeUpdate::decode(document)?,
            ),
            EventType::AccountUpdateEventType => Event::AccountUpdateEvent(
                AccountUpdate::decode(document)?,
            ),
            EventType::MarginCallEventType => Event::MarginCallEvent(MarginCall::decode(document)?),
            EventType::AccountConfigUpdateEventType => Event::AccountConfigUpdateEvent(
                AccountConfigUpdate::decode(document)?,
            ),
            EventType::StrategyUpdateEventType => Event::StrategyUpdateEvent(
                StrategyUpdate::decode(document)?,
            ),
            EventType::GridUpdateEventType => Event::GridUpdateEvent(GridUpdate::decode(document)?),
            EventType::ConditionalOrderTriggerRejectEventType => Event::ConditionalOrderTriggerRejectEvent(
                ConditionalOrderTriggerReject::decode(document)?,
            ),
        },
    )
}

/// The events that the feed also sends many at a time, as an array.
pub open spec fn comes_in_batches(kind: EventType) -> bool {
    ||| kind == EventType::MarkPriceUpdateEventType
    ||| kind == EventType::MiniTickerEventType
    ||| kind == EventType::TickerEventType
    ||| kind == EventType::BookTickerEventType
    ||| kind == EventType::AssetIndexUpdateEventType
}

/// Whether every one of `items` is what the feed documents for the event
/// `kind`.
pub open spec fn all_fit(kind: EventType, items: Seq<JsonValue>) -> bool {
    match kind {
        EventType::MarkPriceUpdateEventType => all_accepted::<MarkPriceUpdate>(items),
        EventType::MiniTickerEventType => all_accepted::<MiniTicker>(items),
        EventType::TickerEventType => all_accepted::<Ticker>(items),
        EventType::BookTickerEventType => all_accepted::<BookTicker>(items),
        EventType::AssetIndexUpdateEventType => all_accepted::<AssetIndexUpdate>(items),
        _ => false,
    }
}

/// Whether `event` is the batch event of the tag `kind` and holds one record
/// for each of `items`, in their order.
pub open spec fn carries_all(event: Event, kind: EventType, items: Seq<JsonValue>) -> bool {
    match kind {
        EventType::MarkPriceUpdateEventType => event matches Event::MarkPriceUpdatesEvent(batch)
            && all_reflected(batch.data@, items),
        EventType::MiniTickerEventType => event matches Event::MiniTickersEvent(batch)
            && all_reflected(batch.data@, items),
        EventType::TickerEventType => event matches Event::TickersEvent(batch) && all_reflected(
            batch.data@,
            items,
        ),
        EventType::BookTickerEventType => event matches Event::BookTickersEvent(batch)
            && all_reflected(batch.data@, items),
        EventType::AssetIndexUpdateEventType => event matches Event::AssetIndexUpdatesEvent(batch)
            && all_reflected(batch.data@, items),
        _ => false,
    }
}

/// Reads every one of `items` as the record that the tag `kind` names, and
/// wraps them in the batch event of that tag. An event that does not come
/// in batches has no batch event.
pub fn decode_batch(kind: EventType, items: &Vec<JsonValue>) -> (event: Option<Event>)
    ensures
        event is Some <==> all_fit(kind, items@),
        event is Some ==> carries_all(event->0, kind, items@),
{
    match kind {
        EventType::MarkPriceUpdateEventType => Some(
            Event::MarkPriceUpdatesEvent(MarkPriceUpdates::new(decode_all(items)?)),
        ),
        EventType::MiniTickerEventType => Some(
            Event::MiniTickersEvent(MiniTickers::new(decode_all(items)?)),
        ),
        EventType::TickerEventType => Some(Event::TickersEvent(Tickers::new(decode_all(items)?))),
        EventType::BookTickerEventType => Some(
            Event::BookTickersEvent(BookTickers::new(decode_all(items)?)),
        ),
        EventType::AssetIndexUpdateEventType => Some(
            Event::AssetIndexUpdatesEvent(AssetIndexUpdates::new(decode_all(items)?)),
        ),
        _ => None,
    }
}

/// What the shape of a document decides.
#[derive(Debug, Clone, Copy, PartialEq, Eq, Structural)]
pub enum Route {
    /// An object with the tag of this event: it is read as that event.
    Tagged(EventType),
    /// An object with a tag that names no event: an error.
    UnknownTag,
    /// An acknowledgement.
    Acknowledgement,
    /// An array whose first item carries the tag of this event, one that
    /// comes in batches: every item is read as that event.
    Batch(EventType),
    /// None of these, or no JSON at all: an error.
    Unroutable,
}

/// The event that the tag of a document names, where it has a tag and the
/// tag names one.
pub open spec fn kind_of(document: JsonValue) -> Option<EventType> {
    match tag_of(document) {
        Some(tag) => EventType::named(tag),
        None => None,
    }
}

/// The route of a document by the third shape alone.
pub open spec fn batch_route_of(document: JsonValue) -> Route {
    match document {
        JsonValue::Array(items) => if items@.len() > 0 {
            match kind_of(items@[0]) {
                Some(kind) => if comes_in_batches(kind) {
                    Route::Batch(kind)
                } else {
                    Route::Unroutable
                },
                None => Route::Unroutable,
            }
        } else {
            Route::Unroutable
        },
        _ => Route::Unroutable,
    }
}

/// The first of the three shapes that `document` has decides its route.
pub open spec fn route_of(document: Option<JsonValue>) -> Route {
    match document {
        None => Route::Unroutable,
        Some(document) => if tag_of(document) is Some {
            match kind_of(document) {
                Some(kind) => Route::Tagged(kind),
                None => Route::UnknownTag,
            }
        } else if SubscribeResponse::accepts(document) {
            Route::Acknowledgement
        } else {
            batch_route_of(document)
        },
    }
}

/// The items of a document that is an array.
pub open spec fn items_of(document: JsonValue) -> Seq<JsonValue> {
    match document {
        JsonValue::Array(items) => items@,
        _ => Seq::empty(),
    }
}

/// Whether `outcome` is what becomes of a payload that reads as an object
/// with the tag `tag`.
pub open spec fn is_tagged_outcome(
    outcome: Result<Event, DecodeError>,
    tag: Seq<char>,
    document: JsonValue,
    payload: Seq<char>,
) -> bool {
    match EventType::named(tag) {
        Some(kind) => if fits(kind, document) {
            outcome matches Ok(event) && carries(event, kind, document)
        } else {
            outcome matches Err(error) && error.reports(DecodeFailure::SchemaMismatch(kind), payload)
        },
        None => outcome matches Err(error) && error.reports(
            DecodeFailure::UnknownEventType,
            payload,
        ),
    }
}

/// Whether `outcome` is what becomes of a payload that reads as an array of
/// `items`, the first of which carries the tag of `kind`.
pub open spec fn is_batch_outcome(
    outcome: Result<Event, DecodeError>,
    kind: EventType,
    items: Seq<JsonValue>,
    payload: Seq<char>,
) -> bool {
    if all_fit(kind, items) {
        outcome matches Ok(event) && carries_all(event, kind, items)
    } else {
        outcome matches Err(error) && error.reports(DecodeFailure::SchemaMismatch(kind), payload)
    }
}

/// Whether `outcome` is what becomes of a payload that reads as `document`:
/// the event that its route and its content decide, or an error that holds
/// the payload.
pub open spec fn is_outcome(
    outcome: Result<Event, DecodeError>,
    document: Option<JsonValue>,
    payload: Seq<char>,
) -> bool {
    match route_of(document) {
        Route::Tagged(_) | Route::UnknownTag => is_tagged_outcome(
            outcome,
            tag_of(document->0)->0,
            document->0,
            payload,
        ),
        Route::Acknowledgement => outcome matches Ok(event) && event is SubscribeResponseEvent,
        Route::Batch(kind) => is_batch_outcome(outcome, kind, items_of(document->0), payload),
        Route::Unroutable => outcome matches Err(error) && error.reports(
            DecodeFailure::NoDeserializer,
            payload,
        ),
    }
}

/// Reads the event tag of a document.
fn read_tag(document: &JsonValue) -> (tag: Option<&str>)
    ensures
        tag is Some <==> tag_of(*document) is Some,
        tag is Some ==> Some(tag->0@) == tag_of(*document),
{
    match document.get("e") {
        Some(JsonValue::String(tag)) => Some(tag.as_str()),
        _ => None,
    }
}

/// The first shape: an object that carries an event tag. The tag names the
/// event, and the document is read as that event. A tag that names no event
/// is an error, and so is a document that is not what the feed documents
/// for its tag. A document without a tag is left to the other shapes.
pub fn try_deserialize_event_type_wrapper(document: &JsonValue, json_response: &str) -> (tried:
    Option<Result<Event, DecodeError>>)
    ensures
        tried is Some <==> tag_of(*document) is Some,
        tried is Some ==> is_tagged_outcome(
            tried->0,
            tag_of(*document)->0,
            *document,
            json_response@,
        ),
{
    let tag = read_tag(document)?;
    Some(
        match EventType::from_wire_name(tag) {
            Some(kind) => match decode_event(kind, document) {
                Some(event) => Ok(event),
                None => Err(DecodeError::new(DecodeFailure::SchemaMismatch(kind), json_response)),
            },
            None => Err(DecodeError::new(DecodeFailure::UnknownEventType, json_response)),
        },
    )
}

/// The second shape: an acknowledgement, with or without an id. It never
/// fails: a document of another shape is left to the third.
pub fn try_deserialize_subscribe_response(document: &JsonValue) -> (tried: Option<
    Result<Event, DecodeError>,
>)
    ensures
        tried is Some <==> SubscribeResponse::accepts(*document),
        tried is Some ==> (tried->0 matches Ok(event) && event is SubscribeResponseEvent),
{
    let _ = SubscribeResponse::decode(document)?;
    Some(Ok(Event::SubscribeResponseEvent))
}

/// The third shape: an array whose first item carries the tag of an event
/// that comes in batches. Every item is read as that event, and the records
/// are kept in the order of the items. One item that is not what the feed
/// documents for the tag is an error. An empty array, or a first item with
/// another tag or none, is left over.
pub fn try_deserialize_anonymous_array(document: &JsonValue, json_response: &str) -> (tried: Option<
    Result<Event, DecodeError>,
>)
    ensures
        tried is Some <==> batch_route_of(*document) is Batch,
        tried is Some ==> is_batch_outcome(
            tried->0,
            batch_route_of(*document)->Batch_0,
            items_of(*document),
            json_response@,
        ),
{
    match document {
        JsonValue::Array(items) => {
            if items.len() == 0 {
                return None;
            }
            let tag = read_tag(&items[0])?;
            let kind = EventType::from_wire_name(tag)?;
            if !is_batch_kind(kind) {
                return None;
            }
            Some(
                match decode_batch(kind, items) {
                    Some(event) => Ok(event),
                    None => Err(
                        DecodeError::new(DecodeFailure::SchemaMismatch(kind), json_response),
                    ),
                },
            )
        },
        _ => None,
    }
}

/// Whether the feed also sends the event `kind` many at a time.
pub fn is_batch_kind(kind: EventType) -> (batches: bool)
    ensures
        batches == comes_in_batches(kind),
{
    match kind {
        EventType::MarkPriceUpdateEventType
        | EventType::MiniTickerEventType
        | EventType::TickerEventType
        | EventType::BookTickerEventType
        | EventType::AssetIndexUpdateEventType => true,
        _ => false,
    }
}

/// Decides what becomes of a payload, given the document that it reads as
/// (`None` where it is no JSON). The three shapes are tried in their order
/// and the first that fits decides; a payload that fits none is an error.
/// Every error holds the payload.
pub fn dispatch(document: Option<&JsonValue>, json_response: &str) -> (outcome: Result<
    Event,
    DecodeError,
>)
    ensures
        is_outcome(
            outcome,
            match document {
                Some(document) => Some(*document),
                None => None,
            },
            json_response@,
        ),
{
    if let Some(document) = document {
        if let Some(outcome) = try_deserialize_event_type_wrapper(document, json_response) {
            return outcome;
        }
        if let Some(outcome) = try_deserialize_subscribe_response(document) {
            return outcome;
        }
        if let Some(outcome) = try_deserialize_anonymous_array(document, json_response) {
            return outcome;
        }
    }
    Err(DecodeError::new(DecodeFailure::NoDeserializer, json_response))
}

/// Reads a payload of the feed into the event it stands for.
pub fn deserialize(json_response: String) -> (outcome: Result<Event, DecodeError>)
    ensures
        is_outcome(outcome, json_document(json_response@), json_response@),
{
    let document = parse_json(json_response.as_str());
    dispatch(document.as_ref(), json_response.as_str())
}

/// The order of the shapes: a document that carries an event tag is decided
/// by its tag, whatever else it is.
pub proof fn tagged_object_goes_first(document: JsonValue)
    requires
        tag_of(document) is Some,
    ensures
        route_of(Some(document)) is Tagged || route_of(Some(document)) is UnknownTag,
        route_of(Some(document)) matches Route::Tagged(kind) ==> Some(kind) == kind_of(document),
{
}

/// A document carries the tag of an event exactly if it reads as an
/// [`EventTypeWrapper`], and the wrapper then holds that event.
pub proof fn wrapper_holds_the_kind(document: JsonValue, wrapper: EventTypeWrapper)
    ensures
        EventTypeWrapper::accepts(document) <==> kind_of(document) is Some,
        wrapper.reflects(document) ==> kind_of(document) == Some(wrapper.event_type),
{
}

/// A batch holds as many records as the array has items.
pub proof fn batch_keeps_every_item(event: Event, kind: EventType, items: Seq<JsonValue>)
    requires
        carries_all(event, kind, items),
    ensures
        comes_in_batches(kind),
        event matches Event::MarkPriceUpdatesEvent(batch) ==> batch.data@.len() == items.len(),
        event matches Event::MiniTickersEvent(batch) ==> batch.data@.len() == items.len(),
        event matches Event::TickersEvent(batch) ==> batch.data@.len() == items.len(),
        event matches Event::BookTickersEvent(batch) ==> batch.data@.len() == items.len(),
        event matches Event::AssetIndexUpdatesEvent(batch) ==> batch.data@.len() == items.len(),
{
}

/// No payload is dropped: every outcome is an event or an error that holds
/// the payload.
pub proof fn failure_holds_the_payload(
    outcome: Result<Event, DecodeError>,
    document: Option<JsonValue>,
    payload: Seq<char>,
)
    requires
        is_outcome(outcome, document, payload),
    ensures
        outcome matches Err(error) ==> error.payload@ == payload,
        outcome is Err <==> match route_of(document) {
            Route::Tagged(kind) => !fits(kind, document->0),
            Route::UnknownTag => true,
            Route::Acknowledgement => false,
            Route::Batch(kind) => !all_fit(kind, items_of(document->0)),
            Route::Unroutable => true,
        },
{
}

} // verus!
