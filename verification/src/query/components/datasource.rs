//! The sources that a query reads its rows from.

use vstd::prelude::*;
use crate::json::{
    new_object, no_members, object_value, parse, same_text, text_value, value_model, JsonValue,
    Object,
};
use crate::literal::{encode_literal, lemma_literal_round_trip, outline, Literal};
use crate::query::components::helpers::Expression;
use crate::query::components::virtualcolumn::{VirtualColumn, VirtualColumnView};
use crate::query::model::{NativeQuery, NativeQueryView};
use crate::wire::{
    copy_opt_text, copy_rows, copy_texts, get, lemma_bounded_empty, lemma_bounded_with,
    lemma_bounded_with_opt, lemma_get_empty, lemma_get_put, lemma_get_put_opt, lemma_get_some,
    lemma_rows_round_trip, lemma_texts_round_trip, literal_at, member_of, opt_text, opt_text_at,
    put_literal, put_opt_text, put_rows, put_text, put_texts, put_value, read_literal,
    read_opt_text, read_rows, read_text, read_texts, rows_at, text, text_at, text_table, texts,
    texts_at, Building, Field,
};

verus! {

broadcast use {
    lemma_bounded_empty,
    lemma_bounded_with,
    lemma_bounded_with_opt,
    lemma_get_empty,
    lemma_get_some,
    lemma_get_put,
    lemma_get_put_opt,
    lemma_literal_round_trip,
    lemma_rows_round_trip,
    lemma_texts_round_trip,
};

/// Discriminator of a data source.
#[derive(Debug, Clone, Copy, PartialEq, Eq, Structural)]
pub enum DataSourceType {
    Table,
    Union,
    Inline,
    Query,
    Join,
    Unnest,
}

impl Literal for DataSourceType {
    open spec fn literal(self) -> Seq<char> {
        match self {
            DataSourceType::Table => "table"@,
            DataSourceType::Union => "union"@,
            DataSourceType::Inline => "inline"@,
            DataSourceType::Query => "query"@,
            DataSourceType::Join => "join"@,
            DataSourceType::Unnest => "unnest"@,
        }
    }

    proof fn lemma_literal_injective(a: Self, b: Self) {
        reveal_strlit("table");
        reveal_strlit("union");
        reveal_strlit("inline");
        reveal_strlit("query");
        reveal_strlit("join");
        reveal_strlit("unnest");
        assert(outline(a.literal()) == outline(b.literal()) ==> a == b);
    }

    fn wire_name(&self) -> (r: &'static str) {
        match self {
            DataSourceType::Table => "table",
            DataSourceType::Union => "union",
            DataSourceType::Inline => "inline",
            DataSourceType::Query => "query",
            DataSourceType::Join => "join",
            DataSourceType::Unnest => "unnest",
        }
    }

    fn parse(text: &str) -> (r: Option<Self>) {
        if same_text(text, "table") {
            Some(DataSourceType::Table)
        } else if same_text(text, "union") {
            Some(DataSourceType::Union)
        } else if same_text(text, "inline") {
            Some(DataSourceType::Inline)
        } else if same_text(text, "query") {
            Some(DataSourceType::Query)
        } else if same_text(text, "join") {
            Some(DataSourceType::Join)
        } else if same_text(text, "unnest") {
            Some(DataSourceType::Unnest)
        } else {
            None
        }
    }
}

/// Where a query reads its rows from.
#[derive(Debug, PartialEq, Eq)]
pub enum DataSource {
    /// A table, by its bare name. The name must not be empty.
    String(String),
    /// A table.
    Table {
        type_: DataSourceType,
        name: String,
    },
    /// The rows of several tables.
    Union {
        type_: DataSourceType,
        data_sources: Vec<String>,
    },
    /// Rows written out in the query itself.
    Inline {
        type_: DataSourceType,
        column_names: Vec<String>,
        rows: Vec<Vec<String>>,
    },
    /// The results of another query.
    Query {
        type_: DataSourceType,
        query: Box<NativeQuery>,
    },
    /// Two data sources joined on a condition.
    Join {
        type_: DataSourceType,
        left: Box<DataSource>,
        right: Box<DataSource>,
        right_prefix: String,
        condition: Expression,
        join_type: String,
    },
    /// A data source with one array column spread over rows.
    Unnest {
        type_: DataSourceType,
        base: Box<DataSource>,
        virtual_column: VirtualColumn,
        unnest_filter: Option<String>,
    },
}

/// What a data source holds, as mathematics sees it.
pub enum DataSourceView {
    String(Seq<char>),
    Table {
        type_: DataSourceType,
        name: Seq<char>,
    },
    Union {
        type_: DataSourceType,
        data_sources: Seq<Seq<char>>,
    },
    Inline {
        type_: DataSourceType,
        column_names: Seq<Seq<char>>,
        rows: Seq<Seq<Seq<char>>>,
    },
    Query {
        type_: DataSourceType,
        query: Box<NativeQueryView>,
    },
    Join {
        type_: DataSourceType,
        left: Box<DataSourceView>,
        right: Box<DataSourceView>,
        right_prefix: Seq<char>,
        condition: Seq<char>,
        join_type: Seq<char>,
    },
    Unnest {
        type_: DataSourceType,
        base: Box<DataSourceView>,
        virtual_column: VirtualColumnView,
        unnest_filter: Option<Seq<char>>,
    },
}

impl DataSource {
    /// What this data source holds.
    pub open spec fn model(&self) -> DataSourceView
        decreases self,
    {
        match self {
            DataSource::String(name) => DataSourceView::String(name@),
            DataSource::Table { type_, name } => DataSourceView::Table {
                type_: *type_,
                name: name@,
            },
            DataSource::Union { type_, data_sources } => DataSourceView::Union {
                type_: *type_,
                data_sources: data_sources.deep_view(),
            },
            DataSource::Inline { type_, column_names, rows } => DataSourceView::Inline {
                type_: *type_,
                column_names: column_names.deep_view(),
                rows: rows.deep_view(),
            },
            DataSource::Query { type_, query } => DataSourceView::Query {
                type_: *type_,
                query: Box::new(query.model()),
            },
            DataSource::Join {
                type_,
                left,
                right,
                right_prefix,
                condition,
                join_type,
            } => DataSourceView::Join {
                type_: *type_,
                left: Box::new(left.model()),
                right: Box::new(right.model()),
                right_prefix: right_prefix@,
                condition: condition@,
                join_type: join_type@,
            },
            DataSource::Unnest {
                type_,
                base,
                virtual_column,
                unnest_filter,
            } => DataSourceView::Unnest {
                type_: *type_,
                base: Box::new(base.model()),
                virtual_column: virtual_column.model(),
                unnest_filter: unnest_filter.deep_view(),
            },
        }
    }
}

impl View for DataSource {
    type V = DataSourceView;

    open spec fn view(&self) -> DataSourceView {
        self.model()
    }
}

impl DeepView for DataSource {
    type V = DataSourceView;

    open spec fn deep_view(&self) -> DataSourceView {
        self.model()
    }
}

impl DataSourceView {
    /// The discriminator that a data source of this shape is meant to carry.
    pub open spec fn expected_type(self) -> Option<DataSourceType> {
        match self {
            DataSourceView::String(_) => None,
            DataSourceView::Table { .. } => Some(DataSourceType::Table),
            DataSourceView::Union { .. } => Some(DataSourceType::Union),
            DataSourceView::Inline { .. } => Some(DataSourceType::Inline),
            DataSourceView::Query { .. } => Some(DataSourceType::Query),
            DataSourceView::Join { .. } => Some(DataSourceType::Join),
            DataSourceView::Unnest { .. } => Some(DataSourceType::Unnest),
        }
    }

    /// The discriminator that this data source carries.
    pub open spec fn carried_type(self) -> Option<DataSourceType> {
        match self {
            DataSourceView::String(_) => None,
            DataSourceView::Table { type_, .. } => Some(type_),
            DataSourceView::Union { type_, .. } => Some(type_),
            DataSourceView::Inline { type_, .. } => Some(type_),
            DataSourceView::Query { type_, .. } => Some(type_),
            DataSourceView::Join { type_, .. } => Some(type_),
            DataSourceView::Unnest { type_, .. } => Some(type_),
        }
    }

    /// Whether the discriminator carried is the one the shape is meant to
    /// carry. A bare name carries none, and is held to be non-empty instead.
    pub open spec fn type_consistent(self) -> bool {
        match self {
            DataSourceView::String(name) => name.len() > 0,
            _ => self.carried_type() == self.expected_type(),
        }
    }

    /// Whether every component that this data source owns is valid.
    pub open spec fn subcomponents_valid(self) -> bool
        decreases self, 0nat,
    {
        match self {
            DataSourceView::Query { query, .. } => query.valid(),
            DataSourceView::Join { left, right, .. } => {
                &&& left.valid()
                &&& right.valid()
            },
            DataSourceView::Unnest { base, virtual_column, .. } => {
                &&& base.valid()
                &&& virtual_column.valid()
            },
            _ => true,
        }
    }

    /// Whether this data source is valid: its discriminator fits its shape, and
    /// every component it owns is valid.
    pub open spec fn valid(self) -> bool
        decreases self, 1nat,
    {
        self.type_consistent() && self.subcomponents_valid()
    }

    /// Whether every discriminator in this value fits the shape that carries
    /// it. A valid value is well tagged; a well-tagged one may still hold an
    /// empty bare name.
    pub open spec fn well_tagged(self) -> bool
        decreases self, 1nat,
    {
        self.carried_type() == self.expected_type() && self.parts_well_tagged()
    }

    /// Whether every component that this data source owns is well tagged.
    pub open spec fn parts_well_tagged(self) -> bool
        decreases self, 0nat,
    {
        match self {
            DataSourceView::Query { query, .. } => query.well_tagged(),
            DataSourceView::Join { left, right, .. } => {
                &&& left.well_tagged()
                &&& right.well_tagged()
            },
            DataSourceView::Unnest { base, virtual_column, .. } => {
                &&& base.well_tagged()
                &&& virtual_column.valid()
            },
            _ => true,
        }
    }

    /// The document that stands for this data source on the wire.
    #[verifier::opaque]
    pub open spec fn encode(self) -> JsonValue
        decreases self, 0nat,
    {
        match self {
            DataSourceView::String(name) => JsonValue::String(name),
            DataSourceView::Table { type_, name } => JsonValue::Object(
                no_members()
                    .with(Field::Type, encode_literal(type_))
                    .with(Field::Name, text(name)),
            ),
            DataSourceView::Union { type_, data_sources } => JsonValue::Object(
                no_members()
                    .with(Field::Type, encode_literal(type_))
                    .with(Field::DataSources, texts(data_sources)),
            ),
            DataSourceView::Inline { type_, column_names, rows } => JsonValue::Object(
                no_members()
                    .with(Field::Type, encode_literal(type_))
                    .with(Field::ColumnNames, texts(column_names))
                    .with(Field::Rows, text_table(rows)),
            ),
            DataSourceView::Query { type_, query } => JsonValue::Object(
                no_members()
                    .with(Field::Type, encode_literal(type_))
                    .with(Field::Query, query.encode()),
            ),
            DataSourceView::Join {
                type_,
                left,
                right,
                right_prefix,
                condition,
                join_type,
            } => JsonValue::Object(
                no_members()
                    .with(Field::Type, encode_literal(type_))
                    .with(Field::Left, left.encode())
                    .with(Field::Right, right.encode())
                    .with(Field::RightPrefix, text(right_prefix))
                    .with(Field::Condition, text(condition))
                    .with(Field::JoinType, text(join_type)),
            ),
            DataSourceView::Unnest {
                type_,
                base,
                virtual_column,
                unnest_filter,
            } => JsonValue::Object(
                no_members()
                    .with(Field::Type, encode_literal(type_))
                    .with(Field::Base, base.encode())
                    .with(Field::VirtualColumn, virtual_column.encode())
                    .with_opt(Field::UnnestFilter, opt_text(unnest_filter)),
            ),
        }
    }

    /// The data source that a document stands for, if it stands for one.
    /// Members that a data source does not have are passed over.
    #[verifier::opaque]
    pub open spec fn decode(doc: JsonValue) -> Option<DataSourceView>
        decreases doc, 1nat,
    {
        match doc {
            JsonValue::String(name) => Some(DataSourceView::String(name)),
            _ => match literal_at::<DataSourceType>(doc, Field::Type) {
                Some(DataSourceType::Table) => match text_at(doc, Field::Name) {
                    Some(name) => {
                        Some(DataSourceView::Table { type_: DataSourceType::Table, name })
                    },
                    None => None,
                },
                Some(DataSourceType::Union) => match texts_at(doc, Field::DataSources) {
                    Some(data_sources) => {
                        Some(DataSourceView::Union { type_: DataSourceType::Union, data_sources })
                    },
                    None => None,
                },
                Some(DataSourceType::Inline) => match (
                    texts_at(doc, Field::ColumnNames),
                    rows_at(doc, Field::Rows),
                ) {
                    (Some(column_names), Some(rows)) => {
                        Some(
                            DataSourceView::Inline {
                                type_: DataSourceType::Inline,
                                column_names,
                                rows,
                            },
                        )
                    },
                    _ => None,
                },
                Some(DataSourceType::Query) => match NativeQueryView::at(doc, Field::Query) {
                    Some(query) => {
                        Some(
                            DataSourceView::Query {
                                type_: DataSourceType::Query,
                                query: Box::new(query),
                            },
                        )
                    },
                    None => None,
                },
                Some(DataSourceType::Join) => match (
                    DataSourceView::at(doc, Field::Left),
                    DataSourceView::at(doc, Field::Right),
                    text_at(doc, Field::RightPrefix),
                    text_at(doc, Field::Condition),
                    text_at(doc, Field::JoinType),
                ) {
                    (
                        Some(left),
                        Some(right),
                        Some(right_prefix),
                        Some(condition),
                        Some(join_type),
                    ) => {
                        Some(DataSourceView::Join {
                            type_: DataSourceType::Join,
                            left: Box::new(left),
                            right: Box::new(right),
                            right_prefix,
                            condition,
                            join_type,
                        })
                    },
                    _ => None,
                },
                Some(DataSourceType::Unnest) => match (
                    DataSourceView::at(doc, Field::Base),
                    VirtualColumnView::at(doc, Field::VirtualColumn),
                    opt_text_at(doc, Field::UnnestFilter),
                ) {
                    (Some(base), Some(virtual_column), Some(unnest_filter)) => {
                        Some(DataSourceView::Unnest {
                            type_: DataSourceType::Unnest,
                            base: Box::new(base),
                            virtual_column,
                            unnest_filter,
                        })
                    },
                    _ => None,
                },
                None => None,
            },
        }
    }

    /// The data source that a document must hold under `field`.
    pub open spec fn at(doc: JsonValue, field: Field) -> Option<DataSourceView>
        decreases doc, 0nat,
    {
        match get(doc, field) {
            Some(found) => DataSourceView::decode(found),
            None => None,
        }
    }

    /// A data source whose discriminator is not the one that its shape is meant
    /// to carry fails the type check, and so is not valid, whatever else it
    /// holds.
    pub proof fn lemma_mistagged(self)
        requires
            self.carried_type() != self.expected_type(),
        ensures
            !self.type_consistent(),
            !self.valid(),
    {
    }

    /// A valid value is well tagged.
    pub proof fn lemma_valid_well_tagged(self)
        requires
            self.valid(),
        ensures
            self.well_tagged(),
        decreases self, 0nat,
    {
        match self {
            DataSourceView::Query { query, .. } => {
                query.lemma_valid_well_tagged();
            },
            DataSourceView::Join { left, right, .. } => {
                left.lemma_valid_well_tagged();
                right.lemma_valid_well_tagged();
            },
            DataSourceView::Unnest { base, .. } => {
                base.lemma_valid_well_tagged();
            },
            _ => {},
        }
    }

    /// Whatever document it is read from, a decoded data source is well tagged:
    /// decoding lets no mistagged value through.
    pub proof fn lemma_decoded_valid(doc: JsonValue)
        ensures
            DataSourceView::decode(doc) matches Some(x) ==> x.well_tagged(),
        decreases doc, 1nat,
    {
        reveal(DataSourceView::decode);
        if get(doc, Field::Query) is Some {
            NativeQueryView::lemma_decoded_valid(get(doc, Field::Query).unwrap());
        }
        if get(doc, Field::Left) is Some {
            DataSourceView::lemma_decoded_valid(get(doc, Field::Left).unwrap());
        }
        if get(doc, Field::Right) is Some {
            DataSourceView::lemma_decoded_valid(get(doc, Field::Right).unwrap());
        }
        if get(doc, Field::Base) is Some {
            DataSourceView::lemma_decoded_valid(get(doc, Field::Base).unwrap());
        }
        if get(doc, Field::VirtualColumn) is Some {
            VirtualColumnView::lemma_decoded_valid(get(doc, Field::VirtualColumn).unwrap());
        }
    }

    /// Decoding the document of a well tagged data source gives the data source
    /// back.
    pub proof fn lemma_round_trip(self)
        requires
            self.well_tagged(),
        ensures
            DataSourceView::decode(self.encode()) == Some(self),
            !(self.encode() is Null),
        decreases self, 0nat,
    {
        reveal(DataSourceView::encode);
        reveal(DataSourceView::decode);
        match self {
            DataSourceView::Query { query, .. } => {
                query.lemma_round_trip();
            },
            DataSourceView::Join { left, right, .. } => {
                left.lemma_round_trip();
                right.lemma_round_trip();
            },
            DataSourceView::Unnest { base, virtual_column, .. } => {
                base.lemma_round_trip();
                virtual_column.lemma_round_trip();
            },
            _ => {},
        }
    }
}

impl DataSource {
    /// Whether the discriminator fits the shape.
    pub fn validate_type(&self) -> (r: bool)
        ensures
            r == self@.type_consistent(),
    {
        match self {
            DataSource::String(name) => !name.as_str().is_empty(),
            DataSource::Table { type_, .. } => *type_ == DataSourceType::Table,
            DataSource::Union { type_, .. } => *type_ == DataSourceType::Union,
            DataSource::Inline { type_, .. } => *type_ == DataSourceType::Inline,
            DataSource::Query { type_, .. } => *type_ == DataSourceType::Query,
            DataSource::Join { type_, .. } => *type_ == DataSourceType::Join,
            DataSource::Unnest { type_, .. } => *type_ == DataSourceType::Unnest,
        }
    }

    /// Whether every component that this data source owns is valid.
    pub fn validate_subcomponents(&self) -> (r: bool)
        ensures
            r == self@.subcomponents_valid(),
        decreases self, 0nat,
    {
        match self {
            DataSource::Query { query, .. } => query.validate(),
            DataSource::Join { left, right, .. } => {
                left.validate()
                    && right.validate()
            },
            DataSource::Unnest { base, virtual_column, .. } => {
                base.validate()
                    && virtual_column.validate()
            },
            _ => true,
        }
    }

    /// Whether this data source is valid.
    pub fn validate(&self) -> (r: bool)
        ensures
            r == self@.valid(),
        decreases self, 1nat,
    {
        self.validate_type() && self.validate_subcomponents()
    }

    /// Writes this data source as the document that stands for it on the wire.
    pub fn encode(&self) -> (v: serde_json::Value)
        ensures
            value_model(v) == self@.encode(),
        decreases self, 0nat,
    {
        proof {
            reveal(DataSourceView::encode);
        }
        if let DataSource::String(name) = self {
            return text_value(name.as_str());
        }
        let mut members = new_object();
        match self {
            DataSource::String(_) => {},
            DataSource::Table { type_, name } => {
                put_literal(&mut members, Field::Type, type_);
                put_text(&mut members, Field::Name, name.as_str());
            },
            DataSource::Union { type_, data_sources } => {
                put_literal(&mut members, Field::Type, type_);
                put_texts(&mut members, Field::DataSources, data_sources);
            },
            DataSource::Inline { type_, column_names, rows } => {
                put_literal(&mut members, Field::Type, type_);
                put_texts(&mut members, Field::ColumnNames, column_names);
                put_rows(&mut members, Field::Rows, rows);
            },
            DataSource::Query { type_, query } => {
                put_literal(&mut members, Field::Type, type_);
                put_value(&mut members, Field::Query, query.encode());
            },
            DataSource::Join { type_, left, right, right_prefix, condition, join_type } => {
                put_literal(&mut members, Field::Type, type_);
                put_value(&mut members, Field::Left, left.encode());
                put_value(&mut members, Field::Right, right.encode());
                put_text(&mut members, Field::RightPrefix, right_prefix.as_str());
                put_text(&mut members, Field::Condition, condition.as_str());
                put_text(&mut members, Field::JoinType, join_type.as_str());
            },
            DataSource::Unnest { type_, base, virtual_column, unnest_filter } => {
                put_literal(&mut members, Field::Type, type_);
                put_value(&mut members, Field::Base, base.encode());
                put_value(&mut members, Field::VirtualColumn, virtual_column.encode());
                put_opt_text(&mut members, Field::UnnestFilter, unnest_filter);
            },
        }
        object_value(members)
    }

    /// Reads the data source that a document stands for. Gives `None` where the
    /// document stands for none.
    pub fn decode(v: &serde_json::Value) -> (r: Option<DataSource>)
        ensures
            r.deep_view() == DataSourceView::decode(value_model(*v)),
        decreases value_model(*v), 1nat,
    {
        proof {
            reveal(DataSourceView::decode);
        }
        if let Some(name) = v.as_str() {
            return Some(DataSource::String(name.to_owned()));
        }
        match read_literal::<DataSourceType>(v, Field::Type)? {
            DataSourceType::Table => Some(DataSource::Table {
                type_: DataSourceType::Table,
                name: read_text(v, Field::Name)?,
            }),
            DataSourceType::Union => Some(DataSource::Union {
                type_: DataSourceType::Union,
                data_sources: read_texts(v, Field::DataSources)?,
            }),
            DataSourceType::Inline => Some(DataSource::Inline {
                type_: DataSourceType::Inline,
                column_names: read_texts(v, Field::ColumnNames)?,
                rows: read_rows(v, Field::Rows)?,
            }),
            DataSourceType::Query => Some(DataSource::Query {
                type_: DataSourceType::Query,
                query: Box::new(NativeQuery::read(v, Field::Query)?),
            }),
            DataSourceType::Join => Some(DataSource::Join {
                type_: DataSourceType::Join,
                left: Box::new(DataSource::read(v, Field::Left)?),
                right: Box::new(DataSource::read(v, Field::Right)?),
                right_prefix: read_text(v, Field::RightPrefix)?,
                condition: read_text(v, Field::Condition)?,
                join_type: read_text(v, Field::JoinType)?,
            }),
            DataSourceType::Unnest => Some(DataSource::Unnest {
                type_: DataSourceType::Unnest,
                base: Box::new(DataSource::read(v, Field::Base)?),
                virtual_column: VirtualColumn::read(v, Field::VirtualColumn)?,
                unnest_filter: read_opt_text(v, Field::UnnestFilter)?,
            }),
        }
    }

    /// Reads a data source that must stand under `field`.
    pub fn read(v: &serde_json::Value, field: Field) -> (r: Option<DataSource>)
        ensures
            r.deep_view() == DataSourceView::at(value_model(*v), field),
        decreases value_model(*v), 0nat,
    {
        proof {
            reveal(DataSourceView::decode);
        }
        let found = member_of(v, field)?;
        DataSource::decode(found)
    }

    /// A copy of this data source.
    pub fn duplicate(&self) -> (r: DataSource)
        ensures
            r@ == self@,
        decreases self, 0nat,
    {
        match self {
            DataSource::String(name) => DataSource::String(name.clone()),
            DataSource::Table { type_, name } => DataSource::Table {
                type_: *type_,
                name: name.clone(),
            },
            DataSource::Union { type_, data_sources } => DataSource::Union {
                type_: *type_,
                data_sources: copy_texts(data_sources),
            },
            DataSource::Inline { type_, column_names, rows } => DataSource::Inline {
                type_: *type_,
                column_names: copy_texts(column_names),
                rows: copy_rows(rows),
            },
            DataSource::Query { type_, query } => DataSource::Query {
                type_: *type_,
                query: Box::new(query.duplicate()),
            },
            DataSource::Join {
                type_,
                left,
                right,
                right_prefix,
                condition,
                join_type,
            } => DataSource::Join {
                type_: *type_,
                left: Box::new(left.duplicate()),
                right: Box::new(right.duplicate()),
                right_prefix: right_prefix.clone(),
                condition: condition.clone(),
                join_type: join_type.clone(),
            },
            DataSource::Unnest {
                type_,
                base,
                virtual_column,
                unnest_filter,
            } => DataSource::Unnest {
                type_: *type_,
                base: Box::new(base.duplicate()),
                virtual_column: virtual_column.duplicate(),
                unnest_filter: copy_opt_text(unnest_filter),
            },
        }
    }
}

impl Clone for DataSource {
    fn clone(&self) -> (r: Self)
        ensures
            r@ == self@,
    {
        self.duplicate()
    }
}

} // verus!
