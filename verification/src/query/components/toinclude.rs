//! Selections of columns for segment metadata queries.

use vstd::prelude::*;
use crate::json::{
    array_value, map_model, new_object, no_members, object_value, parse, same_text, value_model,
    value_models, JsonValue, Object,
};
use crate::literal::{encode_literal, lemma_literal_round_trip, outline, Literal};
use crate::wire::{
    copy_texts, get, lemma_bounded_empty, lemma_bounded_with, lemma_bounded_with_opt,
    lemma_get_empty, lemma_get_put, lemma_get_put_opt, lemma_get_some, lemma_texts_round_trip,
    literal_at, member_of, put_literal, put_opt_value, put_texts, read_literal, read_texts, texts,
    texts_at, Building, Field,
};

verus! {

broadcast use {
    lemma_bounded_empty,
    lemma_bounded_with,
    lemma_bounded_with_opt,
    lemma_get_empty,
    lemma_get_some,
    lemma_get_put,
    lemma_get_put_opt,
    lemma_literal_round_trip,
    lemma_texts_round_trip,
};

/// Discriminator of a column selection.
#[derive(Debug, Clone, Copy, PartialEq, Eq, Structural)]
pub enum ToIncludeType {
    All,
    Nothing,
    List,
}

impl Literal for ToIncludeType {
    open spec fn literal(self) -> Seq<char> {
        match self {
            ToIncludeType::All => "all"@,
            ToIncludeType::Nothing => "none"@,
            ToIncludeType::List => "list"@,
        }
    }

    proof fn lemma_literal_injective(a: Self, b: Self) {
        reveal_strlit("all");
        reveal_strlit("none");
        reveal_strlit("list");
        assert(outline(a.literal()) == outline(b.literal()) ==> a == b);
    }

    fn wire_name(&self) -> (r: &'static str) {
        match self {
            ToIncludeType::All => "all",
            ToIncludeType::Nothing => "none",
            ToIncludeType::List => "list",
        }
    }

    fn parse(text: &str) -> (r: Option<Self>) {
        if same_text(text, "all") {
            Some(ToIncludeType::All)
        } else if same_text(text, "none") {
            Some(ToIncludeType::Nothing)
        } else if same_text(text, "list") {
            Some(ToIncludeType::List)
        } else {
            None
        }
    }
}

/// The columns that a segment metadata query reports on.
#[derive(Debug, PartialEq, Eq)]
pub enum ToInclude {
    /// Every column.
    All {
        type_: ToIncludeType,
    },
    /// No column.
    Nothing {
        type_: ToIncludeType,
    },
    /// The columns named.
    List {
        type_: ToIncludeType,
        columns: Vec<String>,
    },
}

/// What a column selection holds, as mathematics sees it.
pub enum ToIncludeView {
    All {
        type_: ToIncludeType,
    },
    Nothing {
        type_: ToIncludeType,
    },
    List {
        type_: ToIncludeType,
        columns: Seq<Seq<char>>,
    },
}

impl ToInclude {
    /// What this column selection holds.
    pub open spec fn model(&self) -> ToIncludeView {
        match self {
            ToInclude::All { type_ } => ToIncludeView::All {
                type_: *type_,
            },
            ToInclude::Nothing { type_ } => ToIncludeView::Nothing {
                type_: *type_,
            },
            ToInclude::List { type_, columns } => ToIncludeView::List {
                type_: *type_,
                columns: columns.deep_view(),
            },
        }
    }

    /// What a list of column selections holds.
    pub open spec fn models(list: &Vec<ToInclude>) -> Seq<ToIncludeView> {
        Seq::new(
            list@.len(),
            |i: int|
                if 0 <= i < list@.len() {
                    list@[i].model()
                } else {
                    arbitrary()
                },
        )
    }

    /// What a list of column selections that may be absent holds.
    pub open spec fn opt_models(list: &Option<Vec<ToInclude>>) -> Option<Seq<ToIncludeView>> {
        match list {
            Some(present) => Some(ToInclude::models(present)),
            None => None,
        }
    }
}

impl View for ToInclude {
    type V = ToIncludeView;

    open spec fn view(&self) -> ToIncludeView {
        self.model()
    }
}

impl DeepView for ToInclude {
    type V = ToIncludeView;

    open spec fn deep_view(&self) -> ToIncludeView {
        self.model()
    }
}

impl ToIncludeView {
    /// The discriminator that a column selection of this shape is meant to
    /// carry.
    pub open spec fn expected_type(self) -> ToIncludeType {
        match self {
            ToIncludeView::All { .. } => ToIncludeType::All,
            ToIncludeView::Nothing { .. } => ToIncludeType::Nothing,
            ToIncludeView::List { .. } => ToIncludeType::List,
        }
    }

    /// The discriminator that this column selection carries.
    pub open spec fn carried_type(self) -> ToIncludeType {
        match self {
            ToIncludeView::All { type_, .. } => type_,
            ToIncludeView::Nothing { type_, .. } => type_,
            ToIncludeView::List { type_, .. } => type_,
        }
    }

    /// Whether the discriminator carried is the one the shape is meant to
    /// carry.
    pub open spec fn type_consistent(self) -> bool {
        self.carried_type() == self.expected_type()
    }

    /// Whether every component that this column selection owns is valid.
    pub open spec fn subcomponents_valid(self) -> bool {
        match self {
            _ => true,
        }
    }

    /// Whether this column selection is valid: its discriminator fits its
    /// shape, and every component it owns is valid.
    pub open spec fn valid(self) -> bool {
        self.type_consistent() && self.subcomponents_valid()
    }

    /// Whether every one of a list of column selections is valid. An empty list
    /// is.
    pub open spec fn all_valid(list: Seq<ToIncludeView>) -> bool {
        forall|i: int| 0 <= i < list.len() ==> (#[trigger] list[i]).valid()
    }

    /// Whether every one of a list of column selections that may be absent is
    /// valid. An absent list is.
    pub open spec fn opt_all_valid(list: Option<Seq<ToIncludeView>>) -> bool {
        match list {
            Some(present) => ToIncludeView::all_valid(present),
            None => true,
        }
    }

    /// The document that stands for this column selection on the wire.
    #[verifier::opaque]
    pub open spec fn encode(self) -> JsonValue {
        match self {
            ToIncludeView::All { type_ } => JsonValue::Object(
                no_members()
                    .with(Field::Type, encode_literal(type_)),
            ),
            ToIncludeView::Nothing { type_ } => JsonValue::Object(
                no_members()
                    .with(Field::Type, encode_literal(type_)),
            ),
            ToIncludeView::List { type_, columns } => JsonValue::Object(
                no_members()
                    .with(Field::Type, encode_literal(type_))
                    .with(Field::Columns, texts(columns)),
            ),
        }
    }

    /// The document of a list of column selections: a JSON array with one
    /// element for each, in order.
    pub open spec fn encode_all(list: Seq<ToIncludeView>) -> JsonValue {
        JsonValue::Array(
            Seq::new(
                list.len(),
                |i: int|
                    if 0 <= i < list.len() {
                        list[i].encode()
                    } else {
                        arbitrary()
                    },
            ),
        )
    }

    /// The document of a list of column selections that may be absent.
    pub open spec fn encode_opt_all(list: Option<Seq<ToIncludeView>>) -> Option<JsonValue> {
        match list {
            Some(present) => Some(ToIncludeView::encode_all(present)),
            None => None,
        }
    }

    /// The column selection that a document stands for, if it stands for one.
    /// Members that a column selection does not have are passed over.
    #[verifier::opaque]
    pub open spec fn decode(doc: JsonValue) -> Option<ToIncludeView> {
        match literal_at::<ToIncludeType>(doc, Field::Type) {
            Some(ToIncludeType::All) => Some(ToIncludeView::All { type_: ToIncludeType::All }),
            Some(ToIncludeType::Nothing) => {
                Some(ToIncludeView::Nothing { type_: ToIncludeType::Nothing })
            },
            Some(ToIncludeType::List) => match texts_at(doc, Field::Columns) {
                Some(columns) => Some(ToIncludeView::List { type_: ToIncludeType::List, columns }),
                None => None,
            },
            None => None,
        }
    }

    /// The list of column selections that a document stands for, if it is a
    /// JSON array whose every element stands for one.
    pub open spec fn decode_all(doc: JsonValue) -> Option<Seq<ToIncludeView>> {
        match doc {
            JsonValue::Array(items) => if forall|i: int|
                0 <= i < items.len() ==> ToIncludeView::decode(#[trigger] items[i]) is Some {
                Some(
                    Seq::new(
                        items.len(),
                        |i: int|
                            if 0 <= i < items.len() {
                                ToIncludeView::decode(items[i]).unwrap()
                            } else {
                                arbitrary()
                            },
                    ),
                )
            } else {
                None
            },
            _ => None,
        }
    }

    /// The list of column selections that a document must hold under `field`.
    pub open spec fn all_at(doc: JsonValue, field: Field) -> Option<Seq<ToIncludeView>> {
        match get(doc, field) {
            Some(found) => ToIncludeView::decode_all(found),
            None => None,
        }
    }

    /// The list of column selections that a document may hold under `field`:
    /// the outer `None` says that the member is there and stands for none.
    pub open spec fn opt_all_at(
        doc: JsonValue,
        field: Field,
    ) -> Option<Option<Seq<ToIncludeView>>> {
        match get(doc, field) {
            Some(found) => match ToIncludeView::decode_all(found) {
                Some(present) => Some(Some(present)),
                None => None,
            },
            None => Some(None),
        }
    }

    /// A column selection whose discriminator is not the one that its shape is
    /// meant to carry fails the type check, and so is not valid, whatever else
    /// it holds.
    pub proof fn lemma_mistagged(self)
        requires
            self.carried_type() != self.expected_type(),
        ensures
            !self.type_consistent(),
            !self.valid(),
    {
    }

    /// Whatever document it is read from, a decoded column selection is valid:
    /// decoding lets no mistagged value through.
    pub proof fn lemma_decoded_valid(doc: JsonValue)
        ensures
            ToIncludeView::decode(doc) matches Some(x) ==> x.valid(),
    {
        reveal(ToIncludeView::decode);
    }

    /// Whatever document it is read from, every one of a decoded list of column
    /// selections is valid.
    pub proof fn lemma_decoded_all_valid(doc: JsonValue)
        ensures
            ToIncludeView::decode_all(doc) matches Some(list) ==> ToIncludeView::all_valid(list),
    {
        if let JsonValue::Array(items) = doc {
            assert forall|i: int| 0 <= i < items.len() implies (
                ToIncludeView::decode(#[trigger] items[i]) matches Some(x) ==> x.valid()
            ) by {
                ToIncludeView::lemma_decoded_valid(items[i]);
            }
        }
    }

    /// Decoding the document of a valid column selection gives the column
    /// selection back.
    pub proof fn lemma_round_trip(self)
        requires
            self.valid(),
        ensures
            ToIncludeView::decode(self.encode()) == Some(self),
            !(self.encode() is Null),
    {
        reveal(ToIncludeView::encode);
        reveal(ToIncludeView::decode);
    }

    /// Decoding the document of a list of valid column selections gives the
    /// list back.
    pub proof fn lemma_round_trip_all(list: Seq<ToIncludeView>)
        requires
            ToIncludeView::all_valid(list),
        ensures
            ToIncludeView::decode_all(ToIncludeView::encode_all(list)) == Some(list),
    {
        let items = ToIncludeView::encode_all(list)->Array_0;
        assert forall|i: int| 0 <= i < items.len() implies
            ToIncludeView::decode(#[trigger] items[i]) == Some(list[i]) by {
            list[i].lemma_round_trip();
        }
        assert(ToIncludeView::decode_all(ToIncludeView::encode_all(list)).unwrap() =~= list);
    }
}

impl ToInclude {
    /// Whether the discriminator fits the shape.
    pub fn validate_type(&self) -> (r: bool)
        ensures
            r == self@.type_consistent(),
    {
        match self {
            ToInclude::All { type_, .. } => *type_ == ToIncludeType::All,
            ToInclude::Nothing { type_, .. } => *type_ == ToIncludeType::Nothing,
            ToInclude::List { type_, .. } => *type_ == ToIncludeType::List,
        }
    }

    /// Whether every component that this column selection owns is valid.
    pub fn validate_subcomponents(&self) -> (r: bool)
        ensures
            r == self@.subcomponents_valid(),
    {
        match self {
            _ => true,
        }
    }

    /// Whether this column selection is valid.
    pub fn validate(&self) -> (r: bool)
        ensures
            r == self@.valid(),
    {
        self.validate_type() && self.validate_subcomponents()
    }

    /// Whether every one of a list of column selections is valid. Stops at the
    /// first that is not.
    pub fn validate_all(list: &Vec<ToInclude>) -> (r: bool)
        ensures
            r == ToIncludeView::all_valid(ToInclude::models(list)),
    {
        let mut i: usize = 0;
        while i < list.len()
            invariant
                i <= list.len(),
                forall|k: int| 0 <= k < i ==> (#[trigger] list@[k]).model().valid(),
            decreases list.len() - i,
        {
            if !list[i].validate() {
                assert(!ToInclude::models(list)[i as int].valid());
                return false;
            }
            i = i + 1;
        }
        true
    }

    /// Whether every one of a list of column selections that may be absent is
    /// valid.
    pub fn validate_opt_all(list: &Option<Vec<ToInclude>>) -> (r: bool)
        ensures
            r == ToIncludeView::opt_all_valid(ToInclude::opt_models(list)),
    {
        match list {
            Some(present) => ToInclude::validate_all(present),
            None => true,
        }
    }

    /// Writes this column selection as the document that stands for it on the
    /// wire.
    pub fn encode(&self) -> (v: serde_json::Value)
        ensures
            value_model(v) == self@.encode(),
    {
        proof {
            reveal(ToIncludeView::encode);
        }
        let mut members = new_object();
        match self {
            ToInclude::All { type_ } => {
                put_literal(&mut members, Field::Type, type_);
            },
            ToInclude::Nothing { type_ } => {
                put_literal(&mut members, Field::Type, type_);
            },
            ToInclude::List { type_, columns } => {
                put_literal(&mut members, Field::Type, type_);
                put_texts(&mut members, Field::Columns, columns);
            },
        }
        object_value(members)
    }

    /// Writes a list of column selections as a JSON array.
    pub fn encode_all(list: &Vec<ToInclude>) -> (v: serde_json::Value)
        ensures
            value_model(v) == ToIncludeView::encode_all(ToInclude::models(list)),
    {
        let mut items: Vec<serde_json::Value> = Vec::new();
        let mut i: usize = 0;
        while i < list.len()
            invariant
                i <= list.len(),
                items@.len() == i,
                forall|k: int|
                    0 <= k < i ==> value_model(#[trigger] items@[k]) == list@[k].model().encode(),
            decreases list.len() - i,
        {
            items.push(list[i].encode());
            i = i + 1;
        }
        proof {
            assert(value_models(items@) =~= ToIncludeView::encode_all(ToInclude::models(list))->Array_0);
        }
        array_value(items)
    }

    /// Stores a list of column selections under `field`, unless it is absent.
    pub fn put_opt_all(members: &mut Object, field: Field, list: &Option<Vec<ToInclude>>)
        ensures
            map_model(*final(members))
                == map_model(*old(members)).with_opt(
                    field,
                    ToIncludeView::encode_opt_all(ToInclude::opt_models(list)),
                ),
    {
        match list {
            Some(present) => put_opt_value(members, field, Some(ToInclude::encode_all(present))),
            None => put_opt_value(members, field, None),
        }
    }

    /// Reads the column selection that a document stands for. Gives `None`
    /// where the document stands for none.
    pub fn decode(v: &serde_json::Value) -> (r: Option<ToInclude>)
        ensures
            r.deep_view() == ToIncludeView::decode(value_model(*v)),
    {
        proof {
            reveal(ToIncludeView::decode);
        }
        match read_literal::<ToIncludeType>(v, Field::Type)? {
            ToIncludeType::All => Some(ToInclude::All { type_: ToIncludeType::All }),
            ToIncludeType::Nothing => Some(ToInclude::Nothing { type_: ToIncludeType::Nothing }),
            ToIncludeType::List => Some(ToInclude::List {
                type_: ToIncludeType::List,
                columns: read_texts(v, Field::Columns)?,
            }),
        }
    }

    /// Reads the list of column selections that a JSON array stands for.
    pub fn decode_all(v: &serde_json::Value) -> (r: Option<Vec<ToInclude>>)
        ensures
            r matches Some(list) ==> ToIncludeView::decode_all(value_model(*v)) == Some(
                ToInclude::models(&list),
            ),
            r is None ==> ToIncludeView::decode_all(value_model(*v)) is None,
    {
        let items = v.as_array()?;
        let mut list: Vec<ToInclude> = Vec::new();
        let mut i: usize = 0;
        while i < items.len()
            invariant
                i <= items.len(),
                list@.len() == i,
                value_model(*v) == JsonValue::Array(value_models(items@)),
                forall|k: int|
                    0 <= k < i ==> ToIncludeView::decode(value_model(#[trigger] items@[k])) == Some(
                        list@[k].model(),
                    ),
            decreases items.len() - i,
        {
            match ToInclude::decode(&items[i]) {
                Some(item) => {
                    list.push(item);
                },
                None => {
                    assert(ToIncludeView::decode(value_models(items@)[i as int]) is None);
                    return None;
                },
            }
            i = i + 1;
        }
        proof {
            assert(ToIncludeView::decode_all(value_model(*v)).unwrap() =~= ToInclude::models(&list));
        }
        Some(list)
    }

    /// Reads a list of column selections that must stand under `field`.
    pub fn read_all(v: &serde_json::Value, field: Field) -> (r: Option<Vec<ToInclude>>)
        ensures
            r matches Some(list) ==> ToIncludeView::all_at(value_model(*v), field) == Some(
                ToInclude::models(&list),
            ),
            r is None ==> ToIncludeView::all_at(value_model(*v), field) is None,
    {
        let found = member_of(v, field)?;
        ToInclude::decode_all(found)
    }

    /// Reads a list of column selections that may stand under `field`. The
    /// outer `None` says that the member is there and stands for none.
    pub fn read_opt_all(v: &serde_json::Value, field: Field) -> (r: Option<Option<Vec<ToInclude>>>)
        ensures
            r matches Some(list) ==> ToIncludeView::opt_all_at(value_model(*v), field) == Some(
                ToInclude::opt_models(&list),
            ),
            r is None ==> ToIncludeView::opt_all_at(value_model(*v), field) is None,
    {
        match member_of(v, field) {
            Some(found) => Some(Some(ToInclude::decode_all(found)?)),
            None => Some(None),
        }
    }

    /// A copy of this column selection.
    pub fn duplicate(&self) -> (r: ToInclude)
        ensures
            r@ == self@,
    {
        match self {
            ToInclude::All { type_ } => ToInclude::All { type_: *type_ },
            ToInclude::Nothing { type_ } => ToInclude::Nothing { type_: *type_ },
            ToInclude::List { type_, columns } => ToInclude::List {
                type_: *type_,
                columns: copy_texts(columns),
            },
        }
    }

    /// A copy of a list of column selections.
    pub fn duplicate_all(list: &Vec<ToInclude>) -> (r: Vec<ToInclude>)
        ensures
            ToInclude::models(&r) == ToInclude::models(list),
    {
        let mut copy: Vec<ToInclude> = Vec::new();
        let mut i: usize = 0;
        while i < list.len()
            invariant
                i <= list.len(),
                copy@.len() == i,
                forall|k: int|
                    0 <= k < i ==> (#[trigger] copy@[k]).model() == list@[k].model(),
            decreases list.len() - i,
        {
            copy.push(list[i].duplicate());
            i = i + 1;
        }
        proof {
            assert(ToInclude::models(&copy) =~= ToInclude::models(list));
        }
        copy
    }

    /// A copy of a list of column selections that may be absent.
    pub fn duplicate_opt_all(list: &Option<Vec<ToInclude>>) -> (r: Option<Vec<ToInclude>>)
        ensures
            ToInclude::opt_models(&r) == ToInclude::opt_models(list),
    {
        match list {
            Some(present) => Some(ToInclude::duplicate_all(present)),
            None => None,
        }
    }
}

impl Clone for ToInclude {
    fn clone(&self) -> (r: Self)
        ensures
            r@ == self@,
    {
        self.duplicate()
    }
}

} // verus!
