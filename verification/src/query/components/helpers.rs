//! Small values that the components of a query share.

use vstd::prelude::*;
use crate::json::{
    array_value, map_model, new_object, no_members, object_value, parse, same_text, value_model,
    value_models, JsonValue, Object,
};
use crate::literal::{encode_literal, lemma_literal_round_trip, outline, Literal};
use crate::wire::{
    get, lemma_bounded_empty, lemma_bounded_with, lemma_bounded_with_opt, lemma_get_empty,
    lemma_get_put, lemma_get_put_opt, lemma_get_some, literal_at, member_of, put_literal,
    put_opt_value, put_text, read_literal, read_text, text, text_at, Building, Field,
};

verus! {

broadcast use {
    lemma_bounded_empty,
    lemma_bounded_with,
    lemma_bounded_with_opt,
    lemma_get_empty,
    lemma_get_some,
    lemma_get_put,
    lemma_get_put_opt,
    lemma_literal_round_trip,
};

/// A span of time, written as the engine reads it.
pub type Interval = String;

/// An expression in the engine's expression language.
pub type Expression = String;

/// How a scan lays out the rows it returns.
#[derive(Debug, Clone, Copy, PartialEq, Eq, Structural)]
pub enum ResultFormat {
    List,
    CompactedList,
}

impl Literal for ResultFormat {
    open spec fn literal(self) -> Seq<char> {
        match self {
            ResultFormat::List => "list"@,
            ResultFormat::CompactedList => "compactedList"@,
        }
    }

    proof fn lemma_literal_injective(a: Self, b: Self) {
        reveal_strlit("list");
        reveal_strlit("compactedList");
        assert(outline(a.literal()) == outline(b.literal()) ==> a == b);
    }

    fn wire_name(&self) -> (r: &'static str) {
        match self {
            ResultFormat::List => "list",
            ResultFormat::CompactedList => "compactedList",
        }
    }

    fn parse(text: &str) -> (r: Option<Self>) {
        if same_text(text, "list") {
            Some(ResultFormat::List)
        } else if same_text(text, "compactedList") {
            Some(ResultFormat::CompactedList)
        } else {
            None
        }
    }
}

/// The time order in which a scan returns its rows.
#[derive(Debug, Clone, Copy, PartialEq, Eq, Structural)]
pub enum Order {
    Ascending,
    Descending,
    Nothing,
}

impl Literal for Order {
    open spec fn literal(self) -> Seq<char> {
        match self {
            Order::Ascending => "ascending"@,
            Order::Descending => "descending"@,
            Order::Nothing => "none"@,
        }
    }

    proof fn lemma_literal_injective(a: Self, b: Self) {
        reveal_strlit("ascending");
        reveal_strlit("descending");
        reveal_strlit("none");
        assert(outline(a.literal()) == outline(b.literal()) ==> a == b);
    }

    fn wire_name(&self) -> (r: &'static str) {
        match self {
            Order::Ascending => "ascending",
            Order::Descending => "descending",
            Order::Nothing => "none",
        }
    }

    fn parse(text: &str) -> (r: Option<Self>) {
        if same_text(text, "ascending") {
            Some(Order::Ascending)
        } else if same_text(text, "descending") {
            Some(Order::Descending)
        } else if same_text(text, "none") {
            Some(Order::Nothing)
        } else {
            None
        }
    }
}

/// How two strings are compared.
#[derive(Debug, Clone, Copy, PartialEq, Eq, Structural)]
pub enum Sort {
    Lexicographic,
    Alphanumeric,
    Strlen,
    Numeric,
}

impl Literal for Sort {
    open spec fn literal(self) -> Seq<char> {
        match self {
            Sort::Lexicographic => "lexicographic"@,
            Sort::Alphanumeric => "alphanumeric"@,
            Sort::Strlen => "strlen"@,
            Sort::Numeric => "numeric"@,
        }
    }

    proof fn lemma_literal_injective(a: Self, b: Self) {
        reveal_strlit("lexicographic");
        reveal_strlit("alphanumeric");
        reveal_strlit("strlen");
        reveal_strlit("numeric");
        assert(outline(a.literal()) == outline(b.literal()) ==> a == b);
    }

    fn wire_name(&self) -> (r: &'static str) {
        match self {
            Sort::Lexicographic => "lexicographic",
            Sort::Alphanumeric => "alphanumeric",
            Sort::Strlen => "strlen",
            Sort::Numeric => "numeric",
        }
    }

    fn parse(text: &str) -> (r: Option<Self>) {
        if same_text(text, "lexicographic") {
            Some(Sort::Lexicographic)
        } else if same_text(text, "alphanumeric") {
            Some(Sort::Alphanumeric)
        } else if same_text(text, "strlen") {
            Some(Sort::Strlen)
        } else if same_text(text, "numeric") {
            Some(Sort::Numeric)
        } else {
            None
        }
    }
}

/// The type a column is read as.
#[derive(Debug, Clone, Copy, PartialEq, Eq, Structural)]
pub enum OutputType {
    Long,
    Float,
    Double,
    String,
    Array,
    Complex,
}

impl Literal for OutputType {
    open spec fn literal(self) -> Seq<char> {
        match self {
            OutputType::Long => "LONG"@,
            OutputType::Float => "FLOAT"@,
            OutputType::Double => "DOUBLE"@,
            OutputType::String => "STRING"@,
            OutputType::Array => "ARRAY"@,
            OutputType::Complex => "COMPLEX"@,
        }
    }

    proof fn lemma_literal_injective(a: Self, b: Self) {
        reveal_strlit("LONG");
        reveal_strlit("FLOAT");
        reveal_strlit("DOUBLE");
        reveal_strlit("STRING");
        reveal_strlit("ARRAY");
        reveal_strlit("COMPLEX");
        assert(outline(a.literal()) == outline(b.literal()) ==> a == b);
    }

    fn wire_name(&self) -> (r: &'static str) {
        match self {
            OutputType::Long => "LONG",
            OutputType::Float => "FLOAT",
            OutputType::Double => "DOUBLE",
            OutputType::String => "STRING",
            OutputType::Array => "ARRAY",
            OutputType::Complex => "COMPLEX",
        }
    }

    fn parse(text: &str) -> (r: Option<Self>) {
        if same_text(text, "LONG") {
            Some(OutputType::Long)
        } else if same_text(text, "FLOAT") {
            Some(OutputType::Float)
        } else if same_text(text, "DOUBLE") {
            Some(OutputType::Double)
        } else if same_text(text, "STRING") {
            Some(OutputType::String)
        } else if same_text(text, "ARRAY") {
            Some(OutputType::Array)
        } else if same_text(text, "COMPLEX") {
            Some(OutputType::Complex)
        } else {
            None
        }
    }
}

/// The direction in which a result column is sorted.
#[derive(Debug, Clone, Copy, PartialEq, Eq, Structural)]
pub enum Direction {
    Ascending,
    Descending,
}

impl Literal for Direction {
    open spec fn literal(self) -> Seq<char> {
        match self {
            Direction::Ascending => "ascending"@,
            Direction::Descending => "descending"@,
        }
    }

    proof fn lemma_literal_injective(a: Self, b: Self) {
        reveal_strlit("ascending");
        reveal_strlit("descending");
        assert(outline(a.literal()) == outline(b.literal()) ==> a == b);
    }

    fn wire_name(&self) -> (r: &'static str) {
        match self {
            Direction::Ascending => "ascending",
            Direction::Descending => "descending",
        }
    }

    fn parse(text: &str) -> (r: Option<Self>) {
        if same_text(text, "ascending") {
            Some(Direction::Ascending)
        } else if same_text(text, "descending") {
            Some(Direction::Descending)
        } else {
            None
        }
    }
}

/// Which end of a data source's time range is asked for.
#[derive(Debug, Clone, Copy, PartialEq, Eq, Structural)]
pub enum Bound {
    MaxTime,
    MinTime,
}

impl Literal for Bound {
    open spec fn literal(self) -> Seq<char> {
        match self {
            Bound::MaxTime => "maxTime"@,
            Bound::MinTime => "minTime"@,
        }
    }

    proof fn lemma_literal_injective(a: Self, b: Self) {
        reveal_strlit("maxTime");
        reveal_strlit("minTime");
        assert(outline(a.literal()) == outline(b.literal()) ==> a == b);
    }

    fn wire_name(&self) -> (r: &'static str) {
        match self {
            Bound::MaxTime => "maxTime",
            Bound::MinTime => "minTime",
        }
    }

    fn parse(text: &str) -> (r: Option<Self>) {
        if same_text(text, "maxTime") {
            Some(Bound::MaxTime)
        } else if same_text(text, "minTime") {
            Some(Bound::MinTime)
        } else {
            None
        }
    }
}

/// A property of a segment's columns that a metadata query reports.
#[derive(Debug, Clone, Copy, PartialEq, Eq, Structural)]
pub enum AnalysisType {
    Cardinality,
    Minmax,
    Size,
    Interval,
    TimestampSpec,
    QueryGranularity,
    Aggregators,
    Rollup,
}

impl Literal for AnalysisType {
    open spec fn literal(self) -> Seq<char> {
        match self {
            AnalysisType::Cardinality => "cardinality"@,
            AnalysisType::Minmax => "minmax"@,
            AnalysisType::Size => "size"@,
            AnalysisType::Interval => "interval"@,
            AnalysisType::TimestampSpec => "timestampSpec"@,
            AnalysisType::QueryGranularity => "queryGranularity"@,
            AnalysisType::Aggregators => "aggregators"@,
            AnalysisType::Rollup => "rollup"@,
        }
    }

    proof fn lemma_literal_injective(a: Self, b: Self) {
        reveal_strlit("cardinality");
        reveal_strlit("minmax");
        reveal_strlit("size");
        reveal_strlit("interval");
        reveal_strlit("timestampSpec");
        reveal_strlit("queryGranularity");
        reveal_strlit("aggregators");
        reveal_strlit("rollup");
        assert(outline(a.literal()) == outline(b.literal()) ==> a == b);
    }

    fn wire_name(&self) -> (r: &'static str) {
        match self {
            AnalysisType::Cardinality => "cardinality",
            AnalysisType::Minmax => "minmax",
            AnalysisType::Size => "size",
            AnalysisType::Interval => "interval",
            AnalysisType::TimestampSpec => "timestampSpec",
            AnalysisType::QueryGranularity => "queryGranularity",
            AnalysisType::Aggregators => "aggregators",
            AnalysisType::Rollup => "rollup",
        }
    }

    fn parse(text: &str) -> (r: Option<Self>) {
        if same_text(text, "cardinality") {
            Some(AnalysisType::Cardinality)
        } else if same_text(text, "minmax") {
            Some(AnalysisType::Minmax)
        } else if same_text(text, "size") {
            Some(AnalysisType::Size)
        } else if same_text(text, "interval") {
            Some(AnalysisType::Interval)
        } else if same_text(text, "timestampSpec") {
            Some(AnalysisType::TimestampSpec)
        } else if same_text(text, "queryGranularity") {
            Some(AnalysisType::QueryGranularity)
        } else if same_text(text, "aggregators") {
            Some(AnalysisType::Aggregators)
        } else if same_text(text, "rollup") {
            Some(AnalysisType::Rollup)
        } else {
            None
        }
    }
}

/// One column by which grouped results are sorted.
#[derive(Debug, PartialEq, Eq)]
pub struct OrderByColumnSpec {
    pub dimension: String,
    pub direction: Direction,
    pub dimension_order: Sort,
}

/// What a sort column holds, as mathematics sees it.
pub struct OrderByColumnSpecView {
    pub dimension: Seq<char>,
    pub direction: Direction,
    pub dimension_order: Sort,
}

impl OrderByColumnSpec {
    /// What this sort column holds.
    pub open spec fn model(&self) -> OrderByColumnSpecView {
        OrderByColumnSpecView {
            dimension: self.dimension@,
            direction: self.direction,
            dimension_order: self.dimension_order,
        }
    }

    /// What a list of sort columns holds.
    pub open spec fn models(list: &Vec<OrderByColumnSpec>) -> Seq<OrderByColumnSpecView> {
        Seq::new(
            list@.len(),
            |i: int|
                if 0 <= i < list@.len() {
                    list@[i].model()
                } else {
                    arbitrary()
                },
        )
    }

    /// What a list of sort columns that may be absent holds.
    pub open spec fn opt_models(
        list: &Option<Vec<OrderByColumnSpec>>,
    ) -> Option<Seq<OrderByColumnSpecView>> {
        match list {
            Some(present) => Some(OrderByColumnSpec::models(present)),
            None => None,
        }
    }
}

impl View for OrderByColumnSpec {
    type V = OrderByColumnSpecView;

    open spec fn view(&self) -> OrderByColumnSpecView {
        self.model()
    }
}

impl DeepView for OrderByColumnSpec {
    type V = OrderByColumnSpecView;

    open spec fn deep_view(&self) -> OrderByColumnSpecView {
        self.model()
    }
}

impl OrderByColumnSpecView {
    /// The document that stands for this sort column on the wire.
    #[verifier::opaque]
    pub open spec fn encode(self) -> JsonValue {
        JsonValue::Object(
            no_members()
                .with(Field::Dimension, text(self.dimension))
                .with(Field::Direction, encode_literal(self.direction))
                .with(Field::DimensionOrder, encode_literal(self.dimension_order)),
        )
    }

    /// The document of a list of sort columns: a JSON array with one element
    /// for each, in order.
    pub open spec fn encode_all(list: Seq<OrderByColumnSpecView>) -> JsonValue {
        JsonValue::Array(
            Seq::new(
                list.len(),
                |i: int|
                    if 0 <= i < list.len() {
                        list[i].encode()
                    } else {
                        arbitrary()
                    },
            ),
        )
    }

    /// The document of a list of sort columns that may be absent.
    pub open spec fn encode_opt_all(list: Option<Seq<OrderByColumnSpecView>>) -> Option<JsonValue> {
        match list {
            Some(present) => Some(OrderByColumnSpecView::encode_all(present)),
            None => None,
        }
    }

    /// The sort column that a document stands for, if it stands for one.
    /// Members that a sort column does not have are passed over.
    #[verifier::opaque]
    pub open spec fn decode(doc: JsonValue) -> Option<OrderByColumnSpecView> {
        match (
            text_at(doc, Field::Dimension),
            literal_at::<Direction>(doc, Field::Direction),
            literal_at::<Sort>(doc, Field::DimensionOrder),
        ) {
            (Some(dimension), Some(direction), Some(dimension_order)) => {
                Some(OrderByColumnSpecView { dimension, direction, dimension_order })
            },
            _ => None,
        }
    }

    /// The list of sort columns that a document stands for, if it is a JSON
    /// array whose every element stands for one.
    pub open spec fn decode_all(doc: JsonValue) -> Option<Seq<OrderByColumnSpecView>> {
        match doc {
            JsonValue::Array(items) => if forall|i: int|
                0 <= i < items.len() ==> OrderByColumnSpecView::decode(#[trigger] items[i]) is Some {
                Some(
                    Seq::new(
                        items.len(),
                        |i: int|
                            if 0 <= i < items.len() {
                                OrderByColumnSpecView::decode(items[i]).unwrap()
                            } else {
                                arbitrary()
                            },
                    ),
                )
            } else {
                None
            },
            _ => None,
        }
    }

    /// The list of sort columns that a document must hold under `field`.
    pub open spec fn all_at(doc: JsonValue, field: Field) -> Option<Seq<OrderByColumnSpecView>> {
        match get(doc, field) {
            Some(found) => OrderByColumnSpecView::decode_all(found),
            None => None,
        }
    }

    /// The list of sort columns that a document may hold under `field`: the
    /// outer `None` says that the member is there and stands for none.
    pub open spec fn opt_all_at(
        doc: JsonValue,
        field: Field,
    ) -> Option<Option<Seq<OrderByColumnSpecView>>> {
        match get(doc, field) {
            Some(found) => match OrderByColumnSpecView::decode_all(found) {
                Some(present) => Some(Some(present)),
                None => None,
            },
            None => Some(None),
        }
    }

    /// Decoding the document of a sort column gives the sort column back.
    pub proof fn lemma_round_trip(self)
        ensures
            OrderByColumnSpecView::decode(self.encode()) == Some(self),
            !(self.encode() is Null),
    {
        reveal(OrderByColumnSpecView::encode);
        reveal(OrderByColumnSpecView::decode);
    }

    /// Decoding the document of a list of sort columns gives the list back.
    pub proof fn lemma_round_trip_all(list: Seq<OrderByColumnSpecView>)
        ensures
            OrderByColumnSpecView::decode_all(OrderByColumnSpecView::encode_all(list))
                == Some(list),
    {
        let items = OrderByColumnSpecView::encode_all(list)->Array_0;
        assert forall|i: int| 0 <= i < items.len() implies
            OrderByColumnSpecView::decode(#[trigger] items[i]) == Some(list[i]) by {
            list[i].lemma_round_trip();
        }
        assert(OrderByColumnSpecView::decode_all(OrderByColumnSpecView::encode_all(list)).unwrap() =~= list);
    }
}

impl OrderByColumnSpec {
    /// Writes this sort column as the document that stands for it on the wire.
    pub fn encode(&self) -> (v: serde_json::Value)
        ensures
            value_model(v) == self@.encode(),
    {
        proof {
            reveal(OrderByColumnSpecView::encode);
        }
        let mut members = new_object();
        put_text(&mut members, Field::Dimension, self.dimension.as_str());
        put_literal(&mut members, Field::Direction, &self.direction);
        put_literal(&mut members, Field::DimensionOrder, &self.dimension_order);
        object_value(members)
    }

    /// Writes a list of sort columns as a JSON array.
    pub fn encode_all(list: &Vec<OrderByColumnSpec>) -> (v: serde_json::Value)
        ensures
            value_model(v) == OrderByColumnSpecView::encode_all(OrderByColumnSpec::models(list)),
    {
        let mut items: Vec<serde_json::Value> = Vec::new();
        let mut i: usize = 0;
        while i < list.len()
            invariant
                i <= list.len(),
                items@.len() == i,
                forall|k: int|
                    0 <= k < i ==> value_model(#[trigger] items@[k]) == list@[k].model().encode(),
            decreases list.len() - i,
        {
            items.push(list[i].encode());
            i = i + 1;
        }
        proof {
            assert(value_models(items@) =~= OrderByColumnSpecView::encode_all(OrderByColumnSpec::models(list))->Array_0);
        }
        array_value(items)
    }

    /// Stores a list of sort columns under `field`, unless it is absent.
    pub fn put_opt_all(members: &mut Object, field: Field, list: &Option<Vec<OrderByColumnSpec>>)
        ensures
            map_model(*final(members))
                == map_model(*old(members)).with_opt(
                    field,
                    OrderByColumnSpecView::encode_opt_all(OrderByColumnSpec::opt_models(list)),
                ),
    {
        match list {
            Some(present) => {
                put_opt_value(members, field, Some(OrderByColumnSpec::encode_all(present)))
            },
            None => put_opt_value(members, field, None),
        }
    }

    /// Reads the sort column that a document stands for. Gives `None` where the
    /// document stands for none.
    pub fn decode(v: &serde_json::Value) -> (r: Option<OrderByColumnSpec>)
        ensures
            r.deep_view() == OrderByColumnSpecView::decode(value_model(*v)),
    {
        proof {
            reveal(OrderByColumnSpecView::decode);
        }
        Some(OrderByColumnSpec {
            dimension: read_text(v, Field::Dimension)?,
            direction: read_literal::<Direction>(v, Field::Direction)?,
            dimension_order: read_literal::<Sort>(v, Field::DimensionOrder)?,
        })
    }

    /// Reads the list of sort columns that a JSON array stands for.
    pub fn decode_all(v: &serde_json::Value) -> (r: Option<Vec<OrderByColumnSpec>>)
        ensures
            r matches Some(list) ==> OrderByColumnSpecView::decode_all(value_model(*v)) == Some(
                OrderByColumnSpec::models(&list),
            ),
            r is None ==> OrderByColumnSpecView::decode_all(value_model(*v)) is None,
    {
        let items = v.as_array()?;
        let mut list: Vec<OrderByColumnSpec> = Vec::new();
        let mut i: usize = 0;
        while i < items.len()
            invariant
                i <= items.len(),
                list@.len() == i,
                value_model(*v) == JsonValue::Array(value_models(items@)),
                forall|k: int|
                    0 <= k < i ==> OrderByColumnSpecView::decode(value_model(#[trigger] items@[k])) == Some(
                        list@[k].model(),
                    ),
            decreases items.len() - i,
        {
            match OrderByColumnSpec::decode(&items[i]) {
                Some(item) => {
                    list.push(item);
                },
                None => {
                    assert(OrderByColumnSpecView::decode(value_models(items@)[i as int]) is None);
                    return None;
                },
            }
            i = i + 1;
        }
        proof {
            assert(OrderByColumnSpecView::decode_all(value_model(*v)).unwrap() =~= OrderByColumnSpec::models(&list));
        }
        Some(list)
    }

    /// Reads a list of sort columns that must stand under `field`.
    pub fn read_all(v: &serde_json::Value, field: Field) -> (r: Option<Vec<OrderByColumnSpec>>)
        ensures
            r matches Some(list) ==> OrderByColumnSpecView::all_at(value_model(*v), field) == Some(
                OrderByColumnSpec::models(&list),
            ),
            r is None ==> OrderByColumnSpecView::all_at(value_model(*v), field) is None,
    {
        let found = member_of(v, field)?;
        OrderByColumnSpec::decode_all(found)
    }

    /// Reads a list of sort columns that may stand under `field`. The outer
    /// `None` says that the member is there and stands for none.
    pub fn read_opt_all(
        v: &serde_json::Value,
        field: Field,
    ) -> (r: Option<Option<Vec<OrderByColumnSpec>>>)
        ensures
            r matches Some(list) ==> OrderByColumnSpecView::opt_all_at(value_model(*v), field) == Some(
                OrderByColumnSpec::opt_models(&list),
            ),
            r is None ==> OrderByColumnSpecView::opt_all_at(value_model(*v), field) is None,
    {
        match member_of(v, field) {
            Some(found) => Some(Some(OrderByColumnSpec::decode_all(found)?)),
            None => Some(None),
        }
    }

    /// A copy of this sort column.
    pub fn duplicate(&self) -> (r: OrderByColumnSpec)
        ensures
            r@ == self@,
    {
        OrderByColumnSpec {
            dimension: self.dimension.clone(),
            direction: self.direction,
            dimension_order: self.dimension_order,
        }
    }

    /// A copy of a list of sort columns.
    pub fn duplicate_all(list: &Vec<OrderByColumnSpec>) -> (r: Vec<OrderByColumnSpec>)
        ensures
            OrderByColumnSpec::models(&r) == OrderByColumnSpec::models(list),
    {
        let mut copy: Vec<OrderByColumnSpec> = Vec::new();
        let mut i: usize = 0;
        while i < list.len()
            invariant
                i <= list.len(),
                copy@.len() == i,
                forall|k: int|
                    0 <= k < i ==> (#[trigger] copy@[k]).model() == list@[k].model(),
            decreases list.len() - i,
        {
            copy.push(list[i].duplicate());
            i = i + 1;
        }
        proof {
            assert(OrderByColumnSpec::models(&copy) =~= OrderByColumnSpec::models(list));
        }
        copy
    }

    /// A copy of a list of sort columns that may be absent.
    pub fn duplicate_opt_all(
        list: &Option<Vec<OrderByColumnSpec>>,
    ) -> (r: Option<Vec<OrderByColumnSpec>>)
        ensures
            OrderByColumnSpec::opt_models(&r) == OrderByColumnSpec::opt_models(list),
    {
        match list {
            Some(present) => Some(OrderByColumnSpec::duplicate_all(present)),
            None => None,
        }
    }
}

impl Clone for OrderByColumnSpec {
    fn clone(&self) -> (r: Self)
        ensures
            r@ == self@,
    {
        self.duplicate()
    }
}

} // verus!
