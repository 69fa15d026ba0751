//! Predicates on the text of a dimension's value.

use vstd::prelude::*;
use crate::json::{
    new_object, no_members, object_value, parse, same_text, value_model, JsonValue, Object,
};
use crate::literal::{encode_literal, lemma_literal_round_trip, outline, Literal};
use crate::wire::{
    copy_texts, flag, flag_at, get, lemma_bounded_empty, lemma_bounded_with,
    lemma_bounded_with_opt, lemma_get_empty, lemma_get_put, lemma_get_put_opt, lemma_get_some,
    lemma_texts_round_trip, literal_at, member_of, put_flag, put_literal, put_text, put_texts,
    read_flag, read_literal, read_text, read_texts, text, text_at, texts, texts_at, Building,
    Field,
};

verus! {

broadcast use {
    lemma_bounded_empty,
    lemma_bounded_with,
    lemma_bounded_with_opt,
    lemma_get_empty,
    lemma_get_some,
    lemma_get_put,
    lemma_get_put_opt,
    lemma_literal_round_trip,
    lemma_texts_round_trip,
};

/// Discriminator of a search predicate.
#[derive(Debug, Clone, Copy, PartialEq, Eq, Structural)]
pub enum SearchQueryType {
    InsensitiveContains,
    Fragment,
    Contains,
    Regex,
}

impl Literal for SearchQueryType {
    open spec fn literal(self) -> Seq<char> {
        match self {
            SearchQueryType::InsensitiveContains => "insensitiveContains"@,
            SearchQueryType::Fragment => "fragment"@,
            SearchQueryType::Contains => "contains"@,
            SearchQueryType::Regex => "regex"@,
        }
    }

    proof fn lemma_literal_injective(a: Self, b: Self) {
        reveal_strlit("insensitiveContains");
        reveal_strlit("fragment");
        reveal_strlit("contains");
        reveal_strlit("regex");
        assert(outline(a.literal()) == outline(b.literal()) ==> a == b);
    }

    fn wire_name(&self) -> (r: &'static str) {
        match self {
            SearchQueryType::InsensitiveContains => "insensitiveContains",
            SearchQueryType::Fragment => "fragment",
            SearchQueryType::Contains => "contains",
            SearchQueryType::Regex => "regex",
        }
    }

    fn parse(text: &str) -> (r: Option<Self>) {
        if same_text(text, "insensitiveContains") {
            Some(SearchQueryType::InsensitiveContains)
        } else if same_text(text, "fragment") {
            Some(SearchQueryType::Fragment)
        } else if same_text(text, "contains") {
            Some(SearchQueryType::Contains)
        } else if same_text(text, "regex") {
            Some(SearchQueryType::Regex)
        } else {
            None
        }
    }
}

/// A predicate on the text of a dimension's value.
#[derive(Debug, PartialEq, Eq)]
pub enum SearchQuery {
    /// Holds where the value contains `value`, whatever the case of its
    /// letters.
    InsensitiveContains {
        type_: SearchQueryType,
        value: String,
    },
    /// Holds where the value contains every one of `values`.
    Fragment {
        type_: SearchQueryType,
        case_sensitive: bool,
        values: Vec<String>,
    },
    /// Holds where the value contains `value`.
    Contains {
        type_: SearchQueryType,
        case_sensitive: bool,
        value: String,
    },
    /// Holds where a part of the value matches `pattern`.
    Regex {
        type_: SearchQueryType,
        pattern: String,
    },
}

/// What a search predicate holds, as mathematics sees it.
pub enum SearchQueryView {
    InsensitiveContains {
        type_: SearchQueryType,
        value: Seq<char>,
    },
    Fragment {
        type_: SearchQueryType,
        case_sensitive: bool,
        values: Seq<Seq<char>>,
    },
    Contains {
        type_: SearchQueryType,
        case_sensitive: bool,
        value: Seq<char>,
    },
    Regex {
        type_: SearchQueryType,
        pattern: Seq<char>,
    },
}

impl SearchQuery {
    /// What this search predicate holds.
    pub open spec fn model(&self) -> SearchQueryView {
        match self {
            SearchQuery::InsensitiveContains {
                type_,
                value,
            } => SearchQueryView::InsensitiveContains {
                type_: *type_,
                value: value@,
            },
            SearchQuery::Fragment { type_, case_sensitive, values } => SearchQueryView::Fragment {
                type_: *type_,
                case_sensitive: *case_sensitive,
                values: values.deep_view(),
            },
            SearchQuery::Contains { type_, case_sensitive, value } => SearchQueryView::Contains {
                type_: *type_,
                case_sensitive: *case_sensitive,
                value: value@,
            },
            SearchQuery::Regex { type_, pattern } => SearchQueryView::Regex {
                type_: *type_,
                pattern: pattern@,
            },
        }
    }
}

impl View for SearchQuery {
    type V = SearchQueryView;

    open spec fn view(&self) -> SearchQueryView {
        self.model()
    }
}

impl DeepView for SearchQuery {
    type V = SearchQueryView;

    open spec fn deep_view(&self) -> SearchQueryView {
        self.model()
    }
}

impl SearchQueryView {
    /// The discriminator that a search predicate of this shape is meant to
    /// carry.
    pub open spec fn expected_type(self) -> SearchQueryType {
        match self {
            SearchQueryView::InsensitiveContains { .. } => SearchQueryType::InsensitiveContains,
            SearchQueryView::Fragment { .. } => SearchQueryType::Fragment,
            SearchQueryView::Contains { .. } => SearchQueryType::Contains,
            SearchQueryView::Regex { .. } => SearchQueryType::Regex,
        }
    }

    /// The discriminator that this search predicate carries.
    pub open spec fn carried_type(self) -> SearchQueryType {
        match self {
            SearchQueryView::InsensitiveContains { type_, .. } => type_,
            SearchQueryView::Fragment { type_, .. } => type_,
            SearchQueryView::Contains { type_, .. } => type_,
            SearchQueryView::Regex { type_, .. } => type_,
        }
    }

    /// Whether the discriminator carried is the one the shape is meant to
    /// carry.
    pub open spec fn type_consistent(self) -> bool {
        self.carried_type() == self.expected_type()
    }

    /// Whether every component that this search predicate owns is valid.
    pub open spec fn subcomponents_valid(self) -> bool {
        match self {
            _ => true,
        }
    }

    /// Whether this search predicate is valid: its discriminator fits its
    /// shape, and every component it owns is valid.
    pub open spec fn valid(self) -> bool {
        self.type_consistent() && self.subcomponents_valid()
    }

    /// The document that stands for this search predicate on the wire.
    #[verifier::opaque]
    pub open spec fn encode(self) -> JsonValue {
        match self {
            SearchQueryView::InsensitiveContains { type_, value } => JsonValue::Object(
                no_members()
                    .with(Field::Type, encode_literal(type_))
                    .with(Field::Value, text(value)),
            ),
            SearchQueryView::Fragment { type_, case_sensitive, values } => JsonValue::Object(
                no_members()
                    .with(Field::Type, encode_literal(type_))
                    .with(Field::CaseSensitive, flag(case_sensitive))
                    .with(Field::Values, texts(values)),
            ),
            SearchQueryView::Contains { type_, case_sensitive, value } => JsonValue::Object(
                no_members()
                    .with(Field::Type, encode_literal(type_))
                    .with(Field::CaseSensitive, flag(case_sensitive))
                    .with(Field::Value, text(value)),
            ),
            SearchQueryView::Regex { type_, pattern } => JsonValue::Object(
                no_members()
                    .with(Field::Type, encode_literal(type_))
                    .with(Field::Pattern, text(pattern)),
            ),
        }
    }

    /// The search predicate that a document stands for, if it stands for one.
    /// Members that a search predicate does not have are passed over.
    #[verifier::opaque]
    pub open spec fn decode(doc: JsonValue) -> Option<SearchQueryView> {
        match literal_at::<SearchQueryType>(doc, Field::Type) {
            Some(SearchQueryType::InsensitiveContains) => match text_at(doc, Field::Value) {
                Some(value) => Some(SearchQueryView::InsensitiveContains {
                    type_: SearchQueryType::InsensitiveContains,
                    value,
                }),
                None => None,
            },
            Some(SearchQueryType::Fragment) => match (
                flag_at(doc, Field::CaseSensitive),
                texts_at(doc, Field::Values),
            ) {
                (Some(case_sensitive), Some(values)) => {
                    Some(SearchQueryView::Fragment {
                        type_: SearchQueryType::Fragment,
                        case_sensitive,
                        values,
                    })
                },
                _ => None,
            },
            Some(SearchQueryType::Contains) => match (
                flag_at(doc, Field::CaseSensitive),
                text_at(doc, Field::Value),
            ) {
                (Some(case_sensitive), Some(value)) => {
                    Some(SearchQueryView::Contains {
                        type_: SearchQueryType::Contains,
                        case_sensitive,
                        value,
                    })
                },
                _ => None,
            },
            Some(SearchQueryType::Regex) => match text_at(doc, Field::Pattern) {
                Some(pattern) => {
                    Some(SearchQueryView::Regex { type_: SearchQueryType::Regex, pattern })
                },
                None => None,
            },
            None => None,
        }
    }

    /// The search predicate that a document must hold under `field`.
    pub open spec fn at(doc: JsonValue, field: Field) -> Option<SearchQueryView> {
        match get(doc, field) {
            Some(found) => SearchQueryView::decode(found),
            None => None,
        }
    }

    /// A search predicate whose discriminator is not the one that its shape is
    /// meant to carry fails the type check, and so is not valid, whatever else
    /// it holds.
    pub proof fn lemma_mistagged(self)
        requires
            self.carried_type() != self.expected_type(),
        ensures
            !self.type_consistent(),
            !self.valid(),
    {
    }

    /// Whatever document it is read from, a decoded search predicate is valid:
    /// decoding lets no mistagged value through.
    pub proof fn lemma_decoded_valid(doc: JsonValue)
        ensures
            SearchQueryView::decode(doc) matches Some(x) ==> x.valid(),
    {
        reveal(SearchQueryView::decode);
    }

    /// Decoding the document of a valid search predicate gives the search
    /// predicate back.
    pub proof fn lemma_round_trip(self)
        requires
            self.valid(),
        ensures
            SearchQueryView::decode(self.encode()) == Some(self),
            !(self.encode() is Null),
    {
        reveal(SearchQueryView::encode);
        reveal(SearchQueryView::decode);
    }
}

impl SearchQuery {
    /// Whether the discriminator fits the shape.
    pub fn validate_type(&self) -> (r: bool)
        ensures
            r == self@.type_consistent(),
    {
        match self {
            SearchQuery::InsensitiveContains {
                type_,
                ..
            } => *type_ == SearchQueryType::InsensitiveContains,
            SearchQuery::Fragment { type_, .. } => *type_ == SearchQueryType::Fragment,
            SearchQuery::Contains { type_, .. } => *type_ == SearchQueryType::Contains,
            SearchQuery::Regex { type_, .. } => *type_ == SearchQueryType::Regex,
        }
    }

    /// Whether every component that this search predicate owns is valid.
    pub fn validate_subcomponents(&self) -> (r: bool)
        ensures
            r == self@.subcomponents_valid(),
    {
        match self {
            _ => true,
        }
    }

    /// Whether this search predicate is valid.
    pub fn validate(&self) -> (r: bool)
        ensures
            r == self@.valid(),
    {
        self.validate_type() && self.validate_subcomponents()
    }

    /// Writes this search predicate as the document that stands for it on the
    /// wire.
    pub fn encode(&self) -> (v: serde_json::Value)
        ensures
            value_model(v) == self@.encode(),
    {
        proof {
            reveal(SearchQueryView::encode);
        }
        let mut members = new_object();
        match self {
            SearchQuery::InsensitiveContains { type_, value } => {
                put_literal(&mut members, Field::Type, type_);
                put_text(&mut members, Field::Value, value.as_str());
            },
            SearchQuery::Fragment { type_, case_sensitive, values } => {
                put_literal(&mut members, Field::Type, type_);
                put_flag(&mut members, Field::CaseSensitive, *case_sensitive);
                put_texts(&mut members, Field::Values, values);
            },
            SearchQuery::Contains { type_, case_sensitive, value } => {
                put_literal(&mut members, Field::Type, type_);
                put_flag(&mut members, Field::CaseSensitive, *case_sensitive);
                put_text(&mut members, Field::Value, value.as_str());
            },
            SearchQuery::Regex { type_, pattern } => {
                put_literal(&mut members, Field::Type, type_);
                put_text(&mut members, Field::Pattern, pattern.as_str());
            },
        }
        object_value(members)
    }

    /// Reads the search predicate that a document stands for. Gives `None`
    /// where the document stands for none.
    pub fn decode(v: &serde_json::Value) -> (r: Option<SearchQuery>)
        ensures
            r.deep_view() == SearchQueryView::decode(value_model(*v)),
    {
        proof {
            reveal(SearchQueryView::decode);
        }
        match read_literal::<SearchQueryType>(v, Field::Type)? {
            SearchQueryType::InsensitiveContains => Some(SearchQuery::InsensitiveContains {
                type_: SearchQueryType::InsensitiveContains,
                value: read_text(v, Field::Value)?,
            }),
            SearchQueryType::Fragment => Some(SearchQuery::Fragment {
                type_: SearchQueryType::Fragment,
                case_sensitive: read_flag(v, Field::CaseSensitive)?,
                values: read_texts(v, Field::Values)?,
            }),
            SearchQueryType::Contains => Some(SearchQuery::Contains {
                type_: SearchQueryType::Contains,
                case_sensitive: read_flag(v, Field::CaseSensitive)?,
                value: read_text(v, Field::Value)?,
            }),
            SearchQueryType::Regex => Some(SearchQuery::Regex {
                type_: SearchQueryType::Regex,
                pattern: read_text(v, Field::Pattern)?,
            }),
        }
    }

    /// Reads a search predicate that must stand under `field`.
    pub fn read(v: &serde_json::Value, field: Field) -> (r: Option<SearchQuery>)
        ensures
            r.deep_view() == SearchQueryView::at(value_model(*v), field),
    {
        let found = member_of(v, field)?;
        SearchQuery::decode(found)
    }

    /// A copy of this search predicate.
    pub fn duplicate(&self) -> (r: SearchQuery)
        ensures
            r@ == self@,
    {
        match self {
            SearchQuery::InsensitiveContains { type_, value } => SearchQuery::InsensitiveContains {
                type_: *type_,
                value: value.clone(),
            },
            SearchQuery::Fragment { type_, case_sensitive, values } => SearchQuery::Fragment {
                type_: *type_,
                case_sensitive: *case_sensitive,
                values: copy_texts(values),
            },
            SearchQuery::Contains { type_, case_sensitive, value } => SearchQuery::Contains {
                type_: *type_,
                case_sensitive: *case_sensitive,
                value: value.clone(),
            },
            SearchQuery::Regex { type_, pattern } => SearchQuery::Regex {
                type_: *type_,
                pattern: pattern.clone(),
            },
        }
    }
}

impl Clone for SearchQuery {
    fn clone(&self) -> (r: Self)
        ensures
            r@ == self@,
    {
        self.duplicate()
    }
}

} // verus!
