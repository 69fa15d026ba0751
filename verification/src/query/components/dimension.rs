//! Dimensions as queries read them.

use vstd::prelude::*;
use crate::json::{
    array_value, new_object, no_members, object_value, parse, same_text, value_model, value_models,
    JsonValue, Object,
};
use crate::literal::{encode_literal, lemma_literal_round_trip, outline, Literal};
use crate::query::components::extraction::{ExtractionFunction, ExtractionFunctionView};
use crate::query::components::helpers::OutputType;
use crate::wire::{
    copy_opt_text, copy_texts, get, lemma_bounded_empty, lemma_bounded_with,
    lemma_bounded_with_opt, lemma_get_empty, lemma_get_put, lemma_get_put_opt, lemma_get_some,
    lemma_texts_round_trip, literal_at, member_of, opt_flag, opt_flag_at, opt_literal,
    opt_literal_at, opt_text, opt_text_at, put_literal, put_opt_flag, put_opt_literal,
    put_opt_text, put_text, put_texts, put_value, read_literal, read_opt_flag, read_opt_literal,
    read_opt_text, read_text, read_texts, text, text_at, texts, texts_at, Building, Field,
};

verus! {

broadcast use {
    lemma_bounded_empty,
    lemma_bounded_with,
    lemma_bounded_with_opt,
    lemma_get_empty,
    lemma_get_some,
    lemma_get_put,
    lemma_get_put_opt,
    lemma_literal_round_trip,
    lemma_texts_round_trip,
};

/// Discriminator of a dimension.
#[derive(Debug, Clone, Copy, PartialEq, Eq, Structural)]
pub enum DimensionSpecType {
    Default,
    Extraction,
    ListFiltered,
    RegexFiltered,
    PrefixFiltered,
}

impl Literal for DimensionSpecType {
    open spec fn literal(self) -> Seq<char> {
        match self {
            DimensionSpecType::Default => "default"@,
            DimensionSpecType::Extraction => "extraction"@,
            DimensionSpecType::ListFiltered => "listFiltered"@,
            DimensionSpecType::RegexFiltered => "regexFiltered"@,
            DimensionSpecType::PrefixFiltered => "prefixFiltered"@,
        }
    }

    proof fn lemma_literal_injective(a: Self, b: Self) {
        reveal_strlit("default");
        reveal_strlit("extraction");
        reveal_strlit("listFiltered");
        reveal_strlit("regexFiltered");
        reveal_strlit("prefixFiltered");
        assert(outline(a.literal()) == outline(b.literal()) ==> a == b);
    }

    fn wire_name(&self) -> (r: &'static str) {
        match self {
            DimensionSpecType::Default => "default",
            DimensionSpecType::Extraction => "extraction",
            DimensionSpecType::ListFiltered => "listFiltered",
            DimensionSpecType::RegexFiltered => "regexFiltered",
            DimensionSpecType::PrefixFiltered => "prefixFiltered",
        }
    }

    fn parse(text: &str) -> (r: Option<Self>) {
        if same_text(text, "default") {
            Some(DimensionSpecType::Default)
        } else if same_text(text, "extraction") {
            Some(DimensionSpecType::Extraction)
        } else if same_text(text, "listFiltered") {
            Some(DimensionSpecType::ListFiltered)
        } else if same_text(text, "regexFiltered") {
            Some(DimensionSpecType::RegexFiltered)
        } else if same_text(text, "prefixFiltered") {
            Some(DimensionSpecType::PrefixFiltered)
        } else {
            None
        }
    }
}

/// A dimension as a query reads it.
#[derive(Debug, PartialEq, Eq)]
pub enum DimensionSpec {
    /// The dimension as stored.
    Default {
        type_: DimensionSpecType,
        dimension: String,
        output_name: Option<String>,
        output_type: Option<OutputType>,
    },
    /// The dimension after an extraction function.
    Extraction {
        type_: DimensionSpecType,
        dimension: String,
        output_name: Option<String>,
        output_type: Option<OutputType>,
        extraction_fn: ExtractionFunction,
    },
    /// Another dimension, restricted to or freed of the values listed.
    ListFiltered {
        type_: DimensionSpecType,
        delegate: Box<DimensionSpec>,
        values: Vec<String>,
        is_whitelist: Option<bool>,
    },
    /// Another dimension, restricted to the values that match `pattern`.
    RegexFiltered {
        type_: DimensionSpecType,
        delegate: Box<DimensionSpec>,
        pattern: String,
    },
    /// Another dimension, restricted to the values that start with `prefix`.
    PrefixFiltered {
        type_: DimensionSpecType,
        delegate: Box<DimensionSpec>,
        prefix: String,
    },
}

/// What a dimension holds, as mathematics sees it.
pub enum DimensionSpecView {
    Default {
        type_: DimensionSpecType,
        dimension: Seq<char>,
        output_name: Option<Seq<char>>,
        output_type: Option<OutputType>,
    },
    Extraction {
        type_: DimensionSpecType,
        dimension: Seq<char>,
        output_name: Option<Seq<char>>,
        output_type: Option<OutputType>,
        extraction_fn: ExtractionFunctionView,
    },
    ListFiltered {
        type_: DimensionSpecType,
        delegate: Box<DimensionSpecView>,
        values: Seq<Seq<char>>,
        is_whitelist: Option<bool>,
    },
    RegexFiltered {
        type_: DimensionSpecType,
        delegate: Box<DimensionSpecView>,
        pattern: Seq<char>,
    },
    PrefixFiltered {
        type_: DimensionSpecType,
        delegate: Box<DimensionSpecView>,
        prefix: Seq<char>,
    },
}

impl DimensionSpec {
    /// What this dimension holds.
    pub open spec fn model(&self) -> DimensionSpecView
        decreases self,
    {
        match self {
            DimensionSpec::Default {
                type_,
                dimension,
                output_name,
                output_type,
            } => DimensionSpecView::Default {
                type_: *type_,
                dimension: dimension@,
                output_name: output_name.deep_view(),
                output_type: *output_type,
            },
            DimensionSpec::Extraction {
                type_,
                dimension,
                output_name,
                output_type,
                extraction_fn,
            } => DimensionSpecView::Extraction {
                type_: *type_,
                dimension: dimension@,
                output_name: output_name.deep_view(),
                output_type: *output_type,
                extraction_fn: extraction_fn.model(),
            },
            DimensionSpec::ListFiltered {
                type_,
                delegate,
                values,
                is_whitelist,
            } => DimensionSpecView::ListFiltered {
                type_: *type_,
                delegate: Box::new(delegate.model()),
                values: values.deep_view(),
                is_whitelist: *is_whitelist,
            },
            DimensionSpec::RegexFiltered {
                type_,
                delegate,
                pattern,
            } => DimensionSpecView::RegexFiltered {
                type_: *type_,
                delegate: Box::new(delegate.model()),
                pattern: pattern@,
            },
            DimensionSpec::PrefixFiltered {
                type_,
                delegate,
                prefix,
            } => DimensionSpecView::PrefixFiltered {
                type_: *type_,
                delegate: Box::new(delegate.model()),
                prefix: prefix@,
            },
        }
    }

    /// What a list of dimensions holds.
    pub open spec fn models(list: &Vec<DimensionSpec>) -> Seq<DimensionSpecView>
        decreases list,
    {
        Seq::new(
            list@.len(),
            |i: int|
                if 0 <= i < list@.len() {
                    list@[i].model()
                } else {
                    arbitrary()
                },
        )
    }
}

impl View for DimensionSpec {
    type V = DimensionSpecView;

    open spec fn view(&self) -> DimensionSpecView {
        self.model()
    }
}

impl DeepView for DimensionSpec {
    type V = DimensionSpecView;

    open spec fn deep_view(&self) -> DimensionSpecView {
        self.model()
    }
}

impl DimensionSpecView {
    /// The discriminator that a dimension of this shape is meant to carry.
    pub open spec fn expected_type(self) -> DimensionSpecType {
        match self {
            DimensionSpecView::Default { .. } => DimensionSpecType::Default,
            DimensionSpecView::Extraction { .. } => DimensionSpecType::Extraction,
            DimensionSpecView::ListFiltered { .. } => DimensionSpecType::ListFiltered,
            DimensionSpecView::RegexFiltered { .. } => DimensionSpecType::RegexFiltered,
            DimensionSpecView::PrefixFiltered { .. } => DimensionSpecType::PrefixFiltered,
        }
    }

    /// The discriminator that this dimension carries.
    pub open spec fn carried_type(self) -> DimensionSpecType {
        match self {
            DimensionSpecView::Default { type_, .. } => type_,
            DimensionSpecView::Extraction { type_, .. } => type_,
            DimensionSpecView::ListFiltered { type_, .. } => type_,
            DimensionSpecView::RegexFiltered { type_, .. } => type_,
            DimensionSpecView::PrefixFiltered { type_, .. } => type_,
        }
    }

    /// Whether the discriminator carried is the one the shape is meant to
    /// carry.
    pub open spec fn type_consistent(self) -> bool {
        self.carried_type() == self.expected_type()
    }

    /// Whether every component that this dimension owns is valid.
    pub open spec fn subcomponents_valid(self) -> bool
        decreases self, 0nat,
    {
        match self {
            DimensionSpecView::Extraction { extraction_fn, .. } => extraction_fn.valid(),
            DimensionSpecView::ListFiltered { delegate, .. } => delegate.valid(),
            DimensionSpecView::RegexFiltered { delegate, .. } => delegate.valid(),
            DimensionSpecView::PrefixFiltered { delegate, .. } => delegate.valid(),
            _ => true,
        }
    }

    /// Whether this dimension is valid: its discriminator fits its shape, and
    /// every component it owns is valid.
    pub open spec fn valid(self) -> bool
        decreases self, 1nat,
    {
        self.type_consistent() && self.subcomponents_valid()
    }

    /// Whether every one of a list of dimensions is valid. An empty list is.
    pub open spec fn all_valid(list: Seq<DimensionSpecView>) -> bool
        decreases list, 0nat,
    {
        forall|i: int| 0 <= i < list.len() ==> (#[trigger] list[i]).valid()
    }

    /// The document that stands for this dimension on the wire.
    #[verifier::opaque]
    pub open spec fn encode(self) -> JsonValue
        decreases self, 0nat,
    {
        match self {
            DimensionSpecView::Default {
                type_,
                dimension,
                output_name,
                output_type,
            } => JsonValue::Object(
                no_members()
                    .with(Field::Type, encode_literal(type_))
                    .with(Field::Dimension, text(dimension))
                    .with_opt(Field::OutputName, opt_text(output_name))
                    .with_opt(Field::OutputType, opt_literal(output_type)),
            ),
            DimensionSpecView::Extraction {
                type_,
                dimension,
                output_name,
                output_type,
                extraction_fn,
            } => JsonValue::Object(
                no_members()
                    .with(Field::Type, encode_literal(type_))
                    .with(Field::Dimension, text(dimension))
                    .with_opt(Field::OutputName, opt_text(output_name))
                    .with_opt(Field::OutputType, opt_literal(output_type))
                    .with(Field::ExtractionFn, extraction_fn.encode()),
            ),
            DimensionSpecView::ListFiltered {
                type_,
                delegate,
                values,
                is_whitelist,
            } => JsonValue::Object(
                no_members()
                    .with(Field::Type, encode_literal(type_))
                    .with(Field::Delegate, delegate.encode())
                    .with(Field::Values, texts(values))
                    .with_opt(Field::IsWhitelist, opt_flag(is_whitelist)),
            ),
            DimensionSpecView::RegexFiltered { type_, delegate, pattern } => JsonValue::Object(
                no_members()
                    .with(Field::Type, encode_literal(type_))
                    .with(Field::Delegate, delegate.encode())
                    .with(Field::Pattern, text(pattern)),
            ),
            DimensionSpecView::PrefixFiltered { type_, delegate, prefix } => JsonValue::Object(
                no_members()
                    .with(Field::Type, encode_literal(type_))
                    .with(Field::Delegate, delegate.encode())
                    .with(Field::Prefix, text(prefix)),
            ),
        }
    }

    /// The document of a list of dimensions: a JSON array with one element for
    /// each, in order.
    pub open spec fn encode_all(list: Seq<DimensionSpecView>) -> JsonValue
        decreases list, 0nat,
    {
        JsonValue::Array(
            Seq::new(
                list.len(),
                |i: int|
                    if 0 <= i < list.len() {
                        list[i].encode()
                    } else {
                        arbitrary()
                    },
            ),
        )
    }

    /// The dimension that a document stands for, if it stands for one. Members
    /// that a dimension does not have are passed over.
    #[verifier::opaque]
    pub open spec fn decode(doc: JsonValue) -> Option<DimensionSpecView>
        decreases doc, 1nat,
    {
        match literal_at::<DimensionSpecType>(doc, Field::Type) {
            Some(DimensionSpecType::Default) => match (
                text_at(doc, Field::Dimension),
                opt_text_at(doc, Field::OutputName),
                opt_literal_at::<OutputType>(doc, Field::OutputType),
            ) {
                (Some(dimension), Some(output_name), Some(output_type)) => {
                    Some(DimensionSpecView::Default {
                        type_: DimensionSpecType::Default,
                        dimension,
                        output_name,
                        output_type,
                    })
                },
                _ => None,
            },
            Some(DimensionSpecType::Extraction) => match (
                text_at(doc, Field::Dimension),
                opt_text_at(doc, Field::OutputName),
                opt_literal_at::<OutputType>(doc, Field::OutputType),
                ExtractionFunctionView::at(doc, Field::ExtractionFn),
            ) {
                (Some(dimension), Some(output_name), Some(output_type), Some(extraction_fn)) => {
                    Some(DimensionSpecView::Extraction {
                        type_: DimensionSpecType::Extraction,
                        dimension,
                        output_name,
                        output_type,
                        extraction_fn,
                    })
                },
                _ => None,
            },
            Some(DimensionSpecType::ListFiltered) => match (
                DimensionSpecView::at(doc, Field::Delegate),
                texts_at(doc, Field::Values),
                opt_flag_at(doc, Field::IsWhitelist),
            ) {
                (Some(delegate), Some(values), Some(is_whitelist)) => {
                    Some(DimensionSpecView::ListFiltered {
                        type_: DimensionSpecType::ListFiltered,
                        delegate: Box::new(delegate),
                        values,
                        is_whitelist,
                    })
                },
                _ => None,
            },
            Some(DimensionSpecType::RegexFiltered) => match (
                DimensionSpecView::at(doc, Field::Delegate),
                text_at(doc, Field::Pattern),
            ) {
                (Some(delegate), Some(pattern)) => {
                    Some(DimensionSpecView::RegexFiltered {
                        type_: DimensionSpecType::RegexFiltered,
                        delegate: Box::new(delegate),
                        pattern,
                    })
                },
                _ => None,
            },
            Some(DimensionSpecType::PrefixFiltered) => match (
                DimensionSpecView::at(doc, Field::Delegate),
                text_at(doc, Field::Prefix),
            ) {
                (Some(delegate), Some(prefix)) => {
                    Some(DimensionSpecView::PrefixFiltered {
                        type_: DimensionSpecType::PrefixFiltered,
                        delegate: Box::new(delegate),
                        prefix,
                    })
                },
                _ => None,
            },
            None => None,
        }
    }

    /// The dimension that a document must hold under `field`.
    pub open spec fn at(doc: JsonValue, field: Field) -> Option<DimensionSpecView>
        decreases doc, 0nat,
    {
        match get(doc, field) {
            Some(found) => DimensionSpecView::decode(found),
            None => None,
        }
    }

    /// The list of dimensions that a document stands for, if it is a JSON array
    /// whose every element stands for one.
    pub open spec fn decode_all(doc: JsonValue) -> Option<Seq<DimensionSpecView>>
        decreases doc, 1nat,
    {
        match doc {
            JsonValue::Array(items) => if forall|i: int|
                0 <= i < items.len() ==> DimensionSpecView::decode(#[trigger] items[i]) is Some {
                Some(
                    Seq::new(
                        items.len(),
                        |i: int|
                            if 0 <= i < items.len() {
                                DimensionSpecView::decode(items[i]).unwrap()
                            } else {
                                arbitrary()
                            },
                    ),
                )
            } else {
                None
            },
            _ => None,
        }
    }

    /// The list of dimensions that a document must hold under `field`.
    pub open spec fn all_at(doc: JsonValue, field: Field) -> Option<Seq<DimensionSpecView>>
        decreases doc, 0nat,
    {
        match get(doc, field) {
            Some(found) => DimensionSpecView::decode_all(found),
            None => None,
        }
    }

    /// A dimension whose discriminator is not the one that its shape is meant
    /// to carry fails the type check, and so is not valid, whatever else it
    /// holds.
    pub proof fn lemma_mistagged(self)
        requires
            self.carried_type() != self.expected_type(),
        ensures
            !self.type_consistent(),
            !self.valid(),
    {
    }

    /// Whatever document it is read from, a decoded dimension is valid:
    /// decoding lets no mistagged value through.
    pub proof fn lemma_decoded_valid(doc: JsonValue)
        ensures
            DimensionSpecView::decode(doc) matches Some(x) ==> x.valid(),
        decreases doc, 1nat,
    {
        reveal(DimensionSpecView::decode);
        if get(doc, Field::ExtractionFn) is Some {
            ExtractionFunctionView::lemma_decoded_valid(get(doc, Field::ExtractionFn).unwrap());
        }
        if get(doc, Field::Delegate) is Some {
            DimensionSpecView::lemma_decoded_valid(get(doc, Field::Delegate).unwrap());
        }
    }

    /// Whatever document it is read from, every one of a decoded list of
    /// dimensions is valid.
    pub proof fn lemma_decoded_all_valid(doc: JsonValue)
        ensures
            DimensionSpecView::decode_all(doc) matches Some(list) ==> DimensionSpecView::all_valid(
                list,
            ),
        decreases doc, 1nat,
    {
        reveal(DimensionSpecView::decode);
        if let JsonValue::Array(items) = doc {
            assert forall|i: int| 0 <= i < items.len() implies (
                DimensionSpecView::decode(#[trigger] items[i]) matches Some(x) ==> x.valid()
            ) by {
                DimensionSpecView::lemma_decoded_valid(items[i]);
            }
        }
    }

    /// Decoding the document of a valid dimension gives the dimension back.
    pub proof fn lemma_round_trip(self)
        requires
            self.valid(),
        ensures
            DimensionSpecView::decode(self.encode()) == Some(self),
            !(self.encode() is Null),
        decreases self, 0nat,
    {
        reveal(DimensionSpecView::encode);
        reveal(DimensionSpecView::decode);
        match self {
            DimensionSpecView::Extraction { extraction_fn, .. } => {
                extraction_fn.lemma_round_trip();
            },
            DimensionSpecView::ListFiltered { delegate, .. } => {
                delegate.lemma_round_trip();
            },
            DimensionSpecView::RegexFiltered { delegate, .. } => {
                delegate.lemma_round_trip();
            },
            DimensionSpecView::PrefixFiltered { delegate, .. } => {
                delegate.lemma_round_trip();
            },
            _ => {},
        }
    }

    /// Decoding the document of a list of valid dimensions gives the list back.
    pub proof fn lemma_round_trip_all(list: Seq<DimensionSpecView>)
        requires
            DimensionSpecView::all_valid(list),
        ensures
            DimensionSpecView::decode_all(DimensionSpecView::encode_all(list)) == Some(list),
        decreases list, 0nat,
    {
        reveal(DimensionSpecView::encode);
        reveal(DimensionSpecView::decode);
        let items = DimensionSpecView::encode_all(list)->Array_0;
        assert forall|i: int| 0 <= i < items.len() implies
            DimensionSpecView::decode(#[trigger] items[i]) == Some(list[i]) by {
            list[i].lemma_round_trip();
        }
        assert(DimensionSpecView::decode_all(DimensionSpecView::encode_all(list)).unwrap() =~= list);
    }
}

impl DimensionSpec {
    /// Whether the discriminator fits the shape.
    pub fn validate_type(&self) -> (r: bool)
        ensures
            r == self@.type_consistent(),
    {
        match self {
            DimensionSpec::Default { type_, .. } => *type_ == DimensionSpecType::Default,
            DimensionSpec::Extraction { type_, .. } => *type_ == DimensionSpecType::Extraction,
            DimensionSpec::ListFiltered { type_, .. } => *type_ == DimensionSpecType::ListFiltered,
            DimensionSpec::RegexFiltered { type_, .. } => {
                *type_ == DimensionSpecType::RegexFiltered
            },
            DimensionSpec::PrefixFiltered { type_, .. } => {
                *type_ == DimensionSpecType::PrefixFiltered
            },
        }
    }

    /// Whether every component that this dimension owns is valid.
    pub fn validate_subcomponents(&self) -> (r: bool)
        ensures
            r == self@.subcomponents_valid(),
        decreases self, 0nat,
    {
        match self {
            DimensionSpec::Extraction { extraction_fn, .. } => extraction_fn.validate(),
            DimensionSpec::ListFiltered { delegate, .. } => delegate.validate(),
            DimensionSpec::RegexFiltered { delegate, .. } => delegate.validate(),
            DimensionSpec::PrefixFiltered { delegate, .. } => delegate.validate(),
            _ => true,
        }
    }

    /// Whether this dimension is valid.
    pub fn validate(&self) -> (r: bool)
        ensures
            r == self@.valid(),
        decreases self, 1nat,
    {
        self.validate_type() && self.validate_subcomponents()
    }

    /// Whether every one of a list of dimensions is valid. Stops at the first
    /// that is not.
    pub fn validate_all(list: &Vec<DimensionSpec>) -> (r: bool)
        ensures
            r == DimensionSpecView::all_valid(DimensionSpec::models(list)),
        decreases list, 0nat,
    {
        let mut i: usize = 0;
        while i < list.len()
            invariant
                i <= list.len(),
                forall|k: int| 0 <= k < i ==> (#[trigger] list@[k]).model().valid(),
            decreases list.len() - i,
        {
            if !list[i].validate() {
                assert(!DimensionSpec::models(list)[i as int].valid());
                return false;
            }
            i = i + 1;
        }
        true
    }

    /// Writes this dimension as the document that stands for it on the wire.
    pub fn encode(&self) -> (v: serde_json::Value)
        ensures
            value_model(v) == self@.encode(),
        decreases self, 0nat,
    {
        proof {
            reveal(DimensionSpecView::encode);
        }
        let mut members = new_object();
        match self {
            DimensionSpec::Default { type_, dimension, output_name, output_type } => {
                put_literal(&mut members, Field::Type, type_);
                put_text(&mut members, Field::Dimension, dimension.as_str());
                put_opt_text(&mut members, Field::OutputName, output_name);
                put_opt_literal(&mut members, Field::OutputType, output_type);
            },
            DimensionSpec::Extraction {
                type_,
                dimension,
                output_name,
                output_type,
                extraction_fn,
            } => {
                put_literal(&mut members, Field::Type, type_);
                put_text(&mut members, Field::Dimension, dimension.as_str());
                put_opt_text(&mut members, Field::OutputName, output_name);
                put_opt_literal(&mut members, Field::OutputType, output_type);
                put_value(&mut members, Field::ExtractionFn, extraction_fn.encode());
            },
            DimensionSpec::ListFiltered { type_, delegate, values, is_whitelist } => {
                put_literal(&mut members, Field::Type, type_);
                put_value(&mut members, Field::Delegate, delegate.encode());
                put_texts(&mut members, Field::Values, values);
                put_opt_flag(&mut members, Field::IsWhitelist, *is_whitelist);
            },
            DimensionSpec::RegexFiltered { type_, delegate, pattern } => {
                put_literal(&mut members, Field::Type, type_);
                put_value(&mut members, Field::Delegate, delegate.encode());
                put_text(&mut members, Field::Pattern, pattern.as_str());
            },
            DimensionSpec::PrefixFiltered { type_, delegate, prefix } => {
                put_literal(&mut members, Field::Type, type_);
                put_value(&mut members, Field::Delegate, delegate.encode());
                put_text(&mut members, Field::Prefix, prefix.as_str());
            },
        }
        object_value(members)
    }

    /// Writes a list of dimensions as a JSON array.
    pub fn encode_all(list: &Vec<DimensionSpec>) -> (v: serde_json::Value)
        ensures
            value_model(v) == DimensionSpecView::encode_all(DimensionSpec::models(list)),
        decreases list, 0nat,
    {
        proof {
            reveal(DimensionSpecView::encode);
        }
        let mut items: Vec<serde_json::Value> = Vec::new();
        let mut i: usize = 0;
        while i < list.len()
            invariant
                i <= list.len(),
                items@.len() == i,
                forall|k: int|
                    0 <= k < i ==> value_model(#[trigger] items@[k]) == list@[k].model().encode(),
            decreases list.len() - i,
        {
            items.push(list[i].encode());
            i = i + 1;
        }
        proof {
            assert(value_models(items@) =~= DimensionSpecView::encode_all(DimensionSpec::models(list))->Array_0);
        }
        array_value(items)
    }

    /// Reads the dimension that a document stands for. Gives `None` where the
    /// document stands for none.
    pub fn decode(v: &serde_json::Value) -> (r: Option<DimensionSpec>)
        ensures
            r.deep_view() == DimensionSpecView::decode(value_model(*v)),
        decreases value_model(*v), 1nat,
    {
        proof {
            reveal(DimensionSpecView::decode);
        }
        match read_literal::<DimensionSpecType>(v, Field::Type)? {
            DimensionSpecType::Default => Some(DimensionSpec::Default {
                type_: DimensionSpecType::Default,
                dimension: read_text(v, Field::Dimension)?,
                output_name: read_opt_text(v, Field::OutputName)?,
                output_type: read_opt_literal::<OutputType>(v, Field::OutputType)?,
            }),
            DimensionSpecType::Extraction => Some(DimensionSpec::Extraction {
                type_: DimensionSpecType::Extraction,
                dimension: read_text(v, Field::Dimension)?,
                output_name: read_opt_text(v, Field::OutputName)?,
                output_type: read_opt_literal::<OutputType>(v, Field::OutputType)?,
                extraction_fn: ExtractionFunction::read(v, Field::ExtractionFn)?,
            }),
            DimensionSpecType::ListFiltered => Some(DimensionSpec::ListFiltered {
                type_: DimensionSpecType::ListFiltered,
                delegate: Box::new(DimensionSpec::read(v, Field::Delegate)?),
                values: read_texts(v, Field::Values)?,
                is_whitelist: read_opt_flag(v, Field::IsWhitelist)?,
            }),
            DimensionSpecType::RegexFiltered => Some(DimensionSpec::RegexFiltered {
                type_: DimensionSpecType::RegexFiltered,
                delegate: Box::new(DimensionSpec::read(v, Field::Delegate)?),
                pattern: read_text(v, Field::Pattern)?,
            }),
            DimensionSpecType::PrefixFiltered => Some(DimensionSpec::PrefixFiltered {
                type_: DimensionSpecType::PrefixFiltered,
                delegate: Box::new(DimensionSpec::read(v, Field::Delegate)?),
                prefix: read_text(v, Field::Prefix)?,
            }),
        }
    }

    /// Reads a dimension that must stand under `field`.
    pub fn read(v: &serde_json::Value, field: Field) -> (r: Option<DimensionSpec>)
        ensures
            r.deep_view() == DimensionSpecView::at(value_model(*v), field),
        decreases value_model(*v), 0nat,
    {
        proof {
            reveal(DimensionSpecView::decode);
        }
        let found = member_of(v, field)?;
        DimensionSpec::decode(found)
    }

    /// Reads the list of dimensions that a JSON array stands for.
    pub fn decode_all(v: &serde_json::Value) -> (r: Option<Vec<DimensionSpec>>)
        ensures
            r matches Some(list) ==> DimensionSpecView::decode_all(value_model(*v)) == Some(
                DimensionSpec::models(&list),
            ),
            r is None ==> DimensionSpecView::decode_all(value_model(*v)) is None,
        decreases value_model(*v), 1nat,
    {
        proof {
            reveal(DimensionSpecView::decode);
        }
        let items = v.as_array()?;
        let mut list: Vec<DimensionSpec> = Vec::new();
        let mut i: usize = 0;
        while i < items.len()
            invariant
                i <= items.len(),
                list@.len() == i,
                value_model(*v) == JsonValue::Array(value_models(items@)),
                forall|k: int|
                    0 <= k < i ==> DimensionSpecView::decode(value_model(#[trigger] items@[k])) == Some(
                        list@[k].model(),
                    ),
            decreases items.len() - i,
        {
            match DimensionSpec::decode(&items[i]) {
                Some(item) => {
                    list.push(item);
                },
                None => {
                    reveal(DimensionSpecView::decode);
                    assert(DimensionSpecView::decode(value_models(items@)[i as int]) is None);
                    return None;
                },
            }
            i = i + 1;
        }
        proof {
            assert(DimensionSpecView::decode_all(value_model(*v)).unwrap() =~= DimensionSpec::models(&list));
        }
        Some(list)
    }

    /// Reads a list of dimensions that must stand under `field`.
    pub fn read_all(v: &serde_json::Value, field: Field) -> (r: Option<Vec<DimensionSpec>>)
        ensures
            r matches Some(list) ==> DimensionSpecView::all_at(value_model(*v), field) == Some(
                DimensionSpec::models(&list),
            ),
            r is None ==> DimensionSpecView::all_at(value_model(*v), field) is None,
        decreases value_model(*v), 0nat,
    {
        proof {
            reveal(DimensionSpecView::decode);
        }
        let found = member_of(v, field)?;
        DimensionSpec::decode_all(found)
    }

    /// A copy of this dimension.
    pub fn duplicate(&self) -> (r: DimensionSpec)
        ensures
            r@ == self@,
        decreases self, 0nat,
    {
        match self {
            DimensionSpec::Default {
                type_,
                dimension,
                output_name,
                output_type,
            } => DimensionSpec::Default {
                type_: *type_,
                dimension: dimension.clone(),
                output_name: copy_opt_text(output_name),
                output_type: *output_type,
            },
            DimensionSpec::Extraction {
                type_,
                dimension,
                output_name,
                output_type,
                extraction_fn,
            } => DimensionSpec::Extraction {
                type_: *type_,
                dimension: dimension.clone(),
                output_name: copy_opt_text(output_name),
                output_type: *output_type,
                extraction_fn: extraction_fn.duplicate(),
            },
            DimensionSpec::ListFiltered {
                type_,
                delegate,
                values,
                is_whitelist,
            } => DimensionSpec::ListFiltered {
                type_: *type_,
                delegate: Box::new(delegate.duplicate()),
                values: copy_texts(values),
                is_whitelist: *is_whitelist,
            },
            DimensionSpec::RegexFiltered {
                type_,
                delegate,
                pattern,
            } => DimensionSpec::RegexFiltered {
                type_: *type_,
                delegate: Box::new(delegate.duplicate()),
                pattern: pattern.clone(),
            },
            DimensionSpec::PrefixFiltered {
                type_,
                delegate,
                prefix,
            } => DimensionSpec::PrefixFiltered {
                type_: *type_,
                delegate: Box::new(delegate.duplicate()),
                prefix: prefix.clone(),
            },
        }
    }

    /// A copy of a list of dimensions.
    pub fn duplicate_all(list: &Vec<DimensionSpec>) -> (r: Vec<DimensionSpec>)
        ensures
            DimensionSpec::models(&r) == DimensionSpec::models(list),
        decreases list, 0nat,
    {
        let mut copy: Vec<DimensionSpec> = Vec::new();
        let mut i: usize = 0;
        while i < list.len()
            invariant
                i <= list.len(),
                copy@.len() == i,
                forall|k: int|
                    0 <= k < i ==> (#[trigger] copy@[k]).model() == list@[k].model(),
            decreases list.len() - i,
        {
            copy.push(list[i].duplicate());
            i = i + 1;
        }
        proof {
            assert(DimensionSpec::models(&copy) =~= DimensionSpec::models(list));
        }
        copy
    }
}

impl Clone for DimensionSpec {
    fn clone(&self) -> (r: Self)
        ensures
            r@ == self@,
    {
        self.duplicate()
    }
}

} // verus!
