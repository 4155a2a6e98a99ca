//! JSON values as the daemon's logic reads them.

use vstd::prelude::*;

use crate::codec::is_float_text;
use crate::text::comes_before;
use crate::text::lemma_before_is_strict;
use crate::text::lemma_before_is_total;
use crate::text::lemma_before_is_transitive;
use crate::text::same_text;
use crate::text::text_before;

verus! {

/// The mathematical reading of a JSON number. A number that is not an integer in the range
/// of 64 bits is known by its shortest decimal text.
pub enum NumberView {
    Integer(int),
    Float(Seq<char>),
}

/// The mathematical reading of a JSON value. The fields of an object have no order.
#[verifier::ext_equal]
pub enum JsonView {
    Null,
    Bool(bool),
    Number(NumberView),
    Text(Seq<char>),
    List(Seq<JsonView>),
    Object(Map<Seq<char>, JsonView>),
}

/// A JSON number.
#[derive(Debug)]
pub enum Number {
    Unsigned(u64),
    Signed(i64),
    /// A number that is no 64-bit integer.
    Float(FloatText),
}

/// The text of a JSON number that is no 64-bit integer, as it is written out.
#[derive(Debug)]
pub struct FloatText {
    text: String,
}

impl FloatText {
    #[verifier::type_invariant]
    spec fn is_written_form(self) -> bool {
        is_float_text(self.text@)
    }
}

impl View for FloatText {
    type V = Seq<char>;

    closed spec fn view(&self) -> Seq<char> {
        self.text@
    }
}

impl FloatText {
    /// Wraps a text that is known to be the written form of a number.
    pub(crate) fn new(text: String) -> (res: FloatText)
        requires
            is_float_text(text@),
        ensures
            res@ == text@,
    {
        FloatText { text }
    }

    /// The text of the number.
    pub fn as_str(&self) -> (res: &str)
        ensures
            res@ == self@,
            is_float_text(self@),
    {
        proof {
            use_type_invariant(self);
        }
        self.text.as_str()
    }
}

impl Clone for FloatText {
    fn clone(&self) -> (res: Self)
        ensures
            res@ == self@,
    {
        proof {
            use_type_invariant(self);
        }
        FloatText { text: self.text.clone() }
    }
}

/// A JSON value.
#[derive(Debug)]
pub enum Json {
    Null,
    Bool(bool),
    Number(Number),
    Text(String),
    List(Vec<Json>),
    Object(JsonObject),
}

/// The fields of a JSON object, in the order of their names. No two of them have the same name.
#[derive(Debug)]
pub struct JsonObject {
    entries: Vec<(String, Json)>,
}

impl View for Number {
    type V = NumberView;

    open spec fn view(&self) -> NumberView {
        match *self {
            Number::Unsigned(n) => NumberView::Integer(n as int),
            Number::Signed(n) => NumberView::Integer(n as int),
            Number::Float(text) => NumberView::Float(text@),
        }
    }
}

impl Json {
    /// What the value means.
    pub open spec fn tree(self) -> JsonView
        decreases self, 0nat,
    {
        match self {
            Json::Null => JsonView::Null,
            Json::Bool(b) => JsonView::Bool(b),
            Json::Number(n) => JsonView::Number(n@),
            Json::Text(s) => JsonView::Text(s@),
            Json::List(items) => JsonView::List(
                Seq::new(
                    items@.len(),
                    |i: int|
                        if 0 <= i < items@.len() {
                            items@[i].tree()
                        } else {
                            JsonView::Null
                        },
                ),
            ),
            Json::Object(object) => JsonView::Object(object.fields()),
        }
    }
}

impl JsonObject {
    /// The names and values of the fields, in order.
    pub closed spec fn pairs(self) -> Seq<(Seq<char>, JsonView)>
        decreases self, 0nat,
    {
        Seq::new(
            self.entries@.len(),
            |i: int|
                if 0 <= i < self.entries@.len() {
                    (self.entries@[i].0@, self.entries@[i].1.tree())
                } else {
                    (seq![], JsonView::Null)
                },
        )
    }

    /// The fields as a map from names to values.
    pub open spec fn fields(self) -> Map<Seq<char>, JsonView>
        decreases self, 1nat,
    {
        fields_of(self.pairs())
    }

    #[verifier::type_invariant]
    spec fn names_are_in_order(self) -> bool {
        forall|i: int, j: int|
            0 <= i < j < self.entries@.len() ==> text_before(
                #[trigger] self.entries@[i].0@,
                #[trigger] self.entries@[j].0@,
            )
    }
}

impl View for Json {
    type V = JsonView;

    open spec fn view(&self) -> JsonView {
        self.tree()
    }
}

impl View for JsonObject {
    type V = Map<Seq<char>, JsonView>;

    open spec fn view(&self) -> Map<Seq<char>, JsonView> {
        self.fields()
    }
}

/// The map that a list of named values makes; of two values with one name the later stays.
pub open spec fn fields_of(pairs: Seq<(Seq<char>, JsonView)>) -> Map<Seq<char>, JsonView>
    decreases pairs.len(),
{
    if pairs.len() == 0 {
        Map::empty()
    } else {
        fields_of(pairs.drop_last()).insert(pairs.last().0, pairs.last().1)
    }
}

/// The meanings of a list of values.
pub open spec fn item_trees(items: Seq<Json>) -> Seq<JsonView> {
    Seq::new(items.len(), |i: int| items[i]@)
}

/// The names and values that a list of entries holds.
pub open spec fn entry_pairs(entries: Seq<(String, Json)>) -> Seq<(Seq<char>, JsonView)> {
    Seq::new(entries.len(), |i: int| (entries[i].0@, entries[i].1@))
}

/// Whether no two of the named values have the same name.
pub open spec fn distinct_names(pairs: Seq<(Seq<char>, JsonView)>) -> bool {
    forall|i: int, j: int|
        0 <= i < j < pairs.len() ==> #[trigger] pairs[i].0 != #[trigger] pairs[j].0
}

/// Whether the named values stand in the order of their names, each name once.
pub open spec fn ordered(pairs: Seq<(Seq<char>, JsonView)>) -> bool {
    forall|i: int, j: int|
        0 <= i < j < pairs.len() ==> text_before(#[trigger] pairs[i].0, #[trigger] pairs[j].0)
}

/// The fields of an object, in the order of their names.
pub open spec fn by_name(fields: Map<Seq<char>, JsonView>) -> Seq<(Seq<char>, JsonView)> {
    choose|pairs: Seq<(Seq<char>, JsonView)>| #[trigger]
        fields_of(pairs) == fields && ordered(pairs)
}

/// The field `key` of a JSON value, if the value is an object that has it.
pub open spec fn field(tree: JsonView, key: Seq<char>) -> Option<JsonView> {
    match tree {
        JsonView::Object(fields) => if fields.contains_key(key) {
            Some(fields[key])
        } else {
            None
        },
        _ => None,
    }
}

/// The characters of a JSON string.
pub open spec fn text_of(tree: JsonView) -> Option<Seq<char>> {
    match tree {
        JsonView::Text(s) => Some(s),
        _ => None,
    }
}

/// The value of a JSON boolean.
pub open spec fn bool_of(tree: JsonView) -> Option<bool> {
    match tree {
        JsonView::Bool(b) => Some(b),
        _ => None,
    }
}

/// The value of a JSON number that is an integer from 0 to `u64::MAX`.
pub open spec fn unsigned_of(tree: JsonView) -> Option<u64> {
    match tree {
        JsonView::Number(NumberView::Integer(n)) => if 0 <= n <= u64::MAX {
            Some(n as u64)
        } else {
            None
        },
        _ => None,
    }
}

/// The string in the field `key`.
pub open spec fn text_field(tree: JsonView, key: Seq<char>) -> Option<Seq<char>> {
    match field(tree, key) {
        Some(value) => text_of(value),
        None => None,
    }
}

/// The boolean in the field `key`.
pub open spec fn bool_field(tree: JsonView, key: Seq<char>) -> Option<bool> {
    match field(tree, key) {
        Some(value) => bool_of(value),
        None => None,
    }
}

/// The integer from 0 to `u64::MAX` in the field `key`.
pub open spec fn unsigned_field(tree: JsonView, key: Seq<char>) -> Option<u64> {
    match field(tree, key) {
        Some(value) => unsigned_of(value),
        None => None,
    }
}

/// A list of named values has a field for each of its names and for no other; where the
/// names are distinct, each field holds the value that is listed with it.
pub proof fn lemma_fields_of(pairs: Seq<(Seq<char>, JsonView)>)
    ensures
        forall|k: Seq<char>|
            #[trigger] fields_of(pairs).contains_key(k) <==> exists|i: int|
                0 <= i < pairs.len() && #[trigger] pairs[i].0 == k,
        distinct_names(pairs) ==> forall|i: int|
            0 <= i < pairs.len() ==> fields_of(pairs)[#[trigger] pairs[i].0] == pairs[i].1,
    decreases pairs.len(),
{
    if pairs.len() > 0 {
        let front = pairs.drop_last();
        lemma_fields_of(front);
        assert forall|k: Seq<char>| #[trigger]
            fields_of(pairs).contains_key(k) <==> exists|i: int|
                0 <= i < pairs.len() && #[trigger] pairs[i].0 == k by {
            if fields_of(pairs).contains_key(k) {
                if k == pairs.last().0 {
                    assert(pairs[pairs.len() - 1].0 == k);
                } else {
                    assert(fields_of(front).contains_key(k));
                    let i = choose|i: int| 0 <= i < front.len() && #[trigger] front[i].0 == k;
                    assert(pairs[i].0 == k);
                }
            }
            if exists|i: int| 0 <= i < pairs.len() && #[trigger] pairs[i].0 == k {
                let i = choose|i: int| 0 <= i < pairs.len() && #[trigger] pairs[i].0 == k;
                if i < pairs.len() - 1 {
                    assert(front[i].0 == k);
                    assert(fields_of(front).contains_key(k));
                }
            }
        }
        if distinct_names(pairs) {
            assert forall|i: int| 0 <= i < pairs.len() implies fields_of(pairs)[#[trigger]
            pairs[i].0] == pairs[i].1 by {
                if i < pairs.len() - 1 {
                    assert(front[i] == pairs[i]);
                    assert(pairs[i].0 != pairs[pairs.len() - 1].0);
                    assert(distinct_names(front)) by {
                        assert forall|a: int, b: int| 0 <= a < b < front.len() implies
                            #[trigger] front[a].0 != #[trigger] front[b].0 by {
                            assert(pairs[a].0 != pairs[b].0);
                        }
                    }
                }
            }
        }
    }
}

/// Listing one more named value adds or replaces its field.
pub proof fn lemma_fields_push(pairs: Seq<(Seq<char>, JsonView)>, key: Seq<char>, value: JsonView)
    ensures
        fields_of(pairs.push((key, value))) == fields_of(pairs).insert(key, value),
{
    assert(pairs.push((key, value)).drop_last() =~= pairs);
}

proof fn lemma_fields_update(
    pairs: Seq<(Seq<char>, JsonView)>,
    at: int,
    key: Seq<char>,
    value: JsonView,
)
    requires
        distinct_names(pairs),
        0 <= at < pairs.len(),
        pairs[at].0 == key,
    ensures
        distinct_names(pairs.update(at, (key, value))),
        fields_of(pairs.update(at, (key, value))) == fields_of(pairs).insert(key, value),
{
    let changed = pairs.update(at, (key, value));
    assert forall|i: int, j: int| 0 <= i < j < changed.len() implies #[trigger] changed[i].0
        != #[trigger] changed[j].0 by {
        assert(pairs[i].0 != pairs[j].0);
    }
    lemma_fields_of(pairs);
    lemma_fields_of(changed);
    let left = fields_of(changed);
    let right = fields_of(pairs).insert(key, value);
    assert forall|k: Seq<char>| left.contains_key(k) <==> right.contains_key(k) by {
        if left.contains_key(k) {
            let i = choose|i: int| 0 <= i < changed.len() && #[trigger] changed[i].0 == k;
            assert(pairs[i].0 == k);
        }
        if right.contains_key(k) {
            if k == key {
                assert(changed[at].0 == k);
            } else {
                let i = choose|i: int| 0 <= i < pairs.len() && #[trigger] pairs[i].0 == k;
                assert(changed[i].0 == k);
            }
        }
    }
    assert forall|k: Seq<char>| left.contains_key(k) implies left[k] == right[k] by {
        let i = choose|i: int| 0 <= i < changed.len() && #[trigger] changed[i].0 == k;
        assert(left[changed[i].0] == changed[i].1);
        assert(fields_of(pairs)[pairs[i].0] == pairs[i].1);
        if i != at {
            assert(k != key) by {
                if i < at {
                    assert(pairs[i].0 != pairs[at].0);
                } else {
                    assert(pairs[at].0 != pairs[i].0);
                }
            }
        }
    }
    assert(left =~= right);
}

/// Named values in the order of their names have distinct names.
pub proof fn lemma_ordered_is_distinct(pairs: Seq<(Seq<char>, JsonView)>)
    requires
        ordered(pairs),
    ensures
        distinct_names(pairs),
{
    assert forall|i: int, j: int| 0 <= i < j < pairs.len() implies #[trigger] pairs[i].0
        != #[trigger] pairs[j].0 by {
        lemma_before_is_strict(pairs[i].0, pairs[j].0);
    }
}

proof fn lemma_last_is_greatest(pairs: Seq<(Seq<char>, JsonView)>, key: Seq<char>)
    requires
        ordered(pairs),
        pairs.len() > 0,
        fields_of(pairs).contains_key(key),
    ensures
        key == pairs.last().0 || text_before(key, pairs.last().0),
        fields_of(pairs)[pairs.last().0] == pairs.last().1,
        fields_of(pairs.drop_last()) == fields_of(pairs).remove(pairs.last().0),
        ordered(pairs.drop_last()),
{
    let front = pairs.drop_last();
    let last = pairs.len() - 1;
    lemma_fields_of(pairs);
    lemma_fields_of(front);
    let i = choose|i: int| 0 <= i < pairs.len() && #[trigger] pairs[i].0 == key;
    if i < last {
        assert(text_before(pairs[i].0, pairs[last].0));
    }
    assert(!fields_of(front).contains_key(pairs[last].0)) by {
        if fields_of(front).contains_key(pairs[last].0) {
            let j = choose|j: int| 0 <= j < front.len() && #[trigger] front[j].0 == pairs[last].0;
            assert(text_before(pairs[j].0, pairs[last].0));
            lemma_before_is_strict(pairs[j].0, pairs[last].0);
        }
    }
    assert(fields_of(front) =~= fields_of(pairs).remove(pairs[last].0));
    assert forall|a: int, b: int| 0 <= a < b < front.len() implies text_before(
        #[trigger] front[a].0,
        #[trigger] front[b].0,
    ) by {
        assert(text_before(pairs[a].0, pairs[b].0));
    }
}

/// What an object holds determines the order of its fields.
pub proof fn lemma_order_is_determined(
    a: Seq<(Seq<char>, JsonView)>,
    b: Seq<(Seq<char>, JsonView)>,
)
    requires
        ordered(a),
        ordered(b),
        fields_of(a) == fields_of(b),
    ensures
        a == b,
    decreases a.len(),
{
    lemma_fields_of(a);
    lemma_fields_of(b);
    if a.len() == 0 {
        if b.len() > 0 {
            assert(fields_of(b).contains_key(b[0].0));
            assert(fields_of(a).contains_key(b[0].0));
        }
        assert(a =~= b);
    } else {
        assert(fields_of(a).contains_key(a[a.len() - 1].0));
        assert(fields_of(b).contains_key(a[a.len() - 1].0));
        if b.len() == 0 {
            assert(false);
        }
        assert(fields_of(b).contains_key(b[b.len() - 1].0));
        lemma_last_is_greatest(a, b.last().0);
        lemma_last_is_greatest(b, a.last().0);
        lemma_before_is_strict(a.last().0, b.last().0);
        lemma_order_is_determined(a.drop_last(), b.drop_last());
        assert(a =~= a.drop_last().push(a.last()));
        assert(b =~= b.drop_last().push(b.last()));
    }
}

/// Named values in the order of their names are the fields of their object by name.
pub proof fn lemma_by_name(pairs: Seq<(Seq<char>, JsonView)>)
    requires
        ordered(pairs),
    ensures
        by_name(fields_of(pairs)) == pairs,
{
    let chosen = by_name(fields_of(pairs));
    assert(fields_of(chosen) == fields_of(pairs) && ordered(chosen));
    lemma_order_is_determined(chosen, pairs);
}

proof fn lemma_fields_insert_at(
    pairs: Seq<(Seq<char>, JsonView)>,
    at: int,
    key: Seq<char>,
    value: JsonView,
)
    requires
        distinct_names(pairs),
        0 <= at <= pairs.len(),
        forall|i: int| 0 <= i < pairs.len() ==> #[trigger] pairs[i].0 != key,
    ensures
        fields_of(pairs.insert(at, (key, value))) == fields_of(pairs).insert(key, value),
{
    let longer = pairs.insert(at, (key, value));
    assert forall|i: int| 0 <= i < longer.len() implies #[trigger] longer[i] == (if i < at {
        pairs[i]
    } else if i == at {
        (key, value)
    } else {
        pairs[i - 1]
    }) by {}
    assert forall|i: int, j: int| 0 <= i < j < longer.len() implies #[trigger] longer[i].0
        != #[trigger] longer[j].0 by {
        if i != at && j != at {
            let a = if i < at {
                i
            } else {
                i - 1
            };
            let b = if j < at {
                j
            } else {
                j - 1
            };
            assert(pairs[a].0 != pairs[b].0);
        }
    }
    lemma_fields_of(pairs);
    lemma_fields_of(longer);
    let left = fields_of(longer);
    let right = fields_of(pairs).insert(key, value);
    assert forall|k: Seq<char>| left.contains_key(k) <==> right.contains_key(k) by {
        if left.contains_key(k) {
            let i = choose|i: int| 0 <= i < longer.len() && #[trigger] longer[i].0 == k;
            if i < at {
                assert(pairs[i].0 == k);
            } else if i > at {
                assert(pairs[i - 1].0 == k);
            }
        }
        if right.contains_key(k) {
            if k == key {
                assert(longer[at].0 == k);
            } else {
                let i = choose|i: int| 0 <= i < pairs.len() && #[trigger] pairs[i].0 == k;
                if i < at {
                    assert(longer[i].0 == k);
                } else {
                    assert(longer[i + 1].0 == k);
                }
            }
        }
    }
    assert forall|k: Seq<char>| left.contains_key(k) implies left[k] == right[k] by {
        let i = choose|i: int| 0 <= i < longer.len() && #[trigger] longer[i].0 == k;
        assert(left[longer[i].0] == longer[i].1);
        if i < at {
            assert(fields_of(pairs)[pairs[i].0] == pairs[i].1);
        } else if i > at {
            assert(fields_of(pairs)[pairs[i - 1].0] == pairs[i - 1].1);
        }
    }
    assert(left =~= right);
}

impl Number {
    /// The number as a `u64`, if it is an integer in that range.
    pub fn as_u64(&self) -> (res: Option<u64>)
        ensures
            res == unsigned_of(JsonView::Number(self@)),
    {
        match self {
            Number::Unsigned(n) => Some(*n),
            Number::Signed(n) => if *n >= 0 {
                Some(*n as u64)
            } else {
                None
            },
            Number::Float(_) => None,
        }
    }
}

impl Clone for Number {
    fn clone(&self) -> (res: Self)
        ensures
            res@ == self@,
    {
        match self {
            Number::Unsigned(n) => Number::Unsigned(*n),
            Number::Signed(n) => Number::Signed(*n),
            Number::Float(text) => Number::Float(text.clone()),
        }
    }
}

impl Clone for Json {
    fn clone(&self) -> (res: Self)
        ensures
            res@ == self@,
        decreases self, 0nat,
    {
        match self {
            Json::Null => Json::Null,
            Json::Bool(b) => Json::Bool(*b),
            Json::Number(n) => Json::Number(n.clone()),
            Json::Text(s) => Json::Text(s.clone()),
            Json::List(items) => {
                let mut copy: Vec<Json> = Vec::new();
                let mut i: usize = 0;
                while i < items.len()
                    invariant
                        self matches Json::List(list) && list == items,
                        i <= items.len(),
                        copy@.len() == i,
                        forall|j: int| 0 <= j < i ==> #[trigger] copy@[j].tree() == items@[j].tree(),
                    decreases items.len() - i,
                {
                    copy.push(items[i].clone());
                    i = i + 1;
                }
                let ghost copied = copy@;
                let res = Json::List(copy);
                proof {
                    let left = res.tree()->List_0;
                    let right = self.tree()->List_0;
                    assert forall|j: int| 0 <= j < left.len() implies left[j] == right[j] by {
                        assert(left[j] == copied[j].tree());
                        assert(right[j] == items@[j].tree());
                    }
                    assert(left =~= right);
                }
                res
            },
            Json::Object(object) => Json::Object(object.clone()),
        }
    }
}

impl Clone for JsonObject {
    fn clone(&self) -> (res: Self)
        ensures
            res.pairs() == self.pairs(),
            res@ == self@,
        decreases self, 0nat,
    {
        proof {
            use_type_invariant(self);
        }
        let mut copy: Vec<(String, Json)> = Vec::new();
        let mut i: usize = 0;
        while i < self.entries.len()
            invariant
                i <= self.entries.len(),
                copy@.len() == i,
                forall|j: int|
                    0 <= j < i ==> #[trigger] copy@[j].0@ == self.entries@[j].0@ && copy@[j].1.tree()
                        == self.entries@[j].1.tree(),
            decreases self.entries.len() - i,
        {
            let name = self.entries[i].0.clone();
            let value = self.entries[i].1.clone();
            copy.push((name, value));
            i = i + 1;
        }
        let res = JsonObject { entries: copy };
        assert(res.pairs() =~= self.pairs());
        res
    }
}

impl JsonObject {
    /// An object without fields.
    pub fn new() -> (res: Self)
        ensures
            res.pairs() == Seq::<(Seq<char>, JsonView)>::empty(),
            res@ == Map::<Seq<char>, JsonView>::empty(),
    {
        let res = JsonObject { entries: Vec::new() };
        assert(res.pairs() =~= Seq::empty());
        res
    }

    /// An object with the given fields.
    pub(crate) fn from_entries(entries: Vec<(String, Json)>) -> (res: Self)
        requires
            ordered(entry_pairs(entries@)),
        ensures
            res.pairs() == entry_pairs(entries@),
            res@ == fields_of(entry_pairs(entries@)),
    {
        proof {
            assert forall|i: int, j: int| 0 <= i < j < entries@.len() implies text_before(
                #[trigger] entries@[i].0@,
                #[trigger] entries@[j].0@,
            ) by {
                assert(text_before(entry_pairs(entries@)[i].0, entry_pairs(entries@)[j].0));
            }
        }
        let res = JsonObject { entries };
        assert(res.pairs() =~= entry_pairs(entries@));
        res
    }

    /// The number of fields. Their positions follow the order of their names.
    pub fn len(&self) -> (res: usize)
        ensures
            res == self.pairs().len(),
            ordered(self.pairs()),
            self.pairs() == by_name(self@),
    {
        proof {
            use_type_invariant(self);
            self.lemma_pairs_ordered();
            lemma_by_name(self.pairs());
        }
        self.entries.len()
    }

    /// Whether the object has no fields.
    pub fn is_empty(&self) -> (res: bool)
        ensures
            res == (self.pairs().len() == 0),
            res == (self@ == Map::<Seq<char>, JsonView>::empty()),
    {
        proof {
            lemma_fields_of(self.pairs());
            if self.pairs().len() > 0 {
                let k = self.pairs()[0].0;
                assert(self@.contains_key(k));
            } else {
                assert(self@ =~= Map::empty());
            }
        }
        self.entries.len() == 0
    }

    /// The name of the field at position `i`.
    pub fn name_at(&self, i: usize) -> (res: &String)
        requires
            i < self.pairs().len(),
        ensures
            res@ == self.pairs()[i as int].0,
    {
        &self.entries[i].0
    }

    /// The value of the field at position `i`.
    pub fn value_at(&self, i: usize) -> (res: &Json)
        requires
            i < self.pairs().len(),
        ensures
            res@ == self.pairs()[i as int].1,
            decreases_to!(*self => *res),
    {
        &self.entries[i].1
    }

    fn position(&self, key: &str) -> (res: Option<usize>)
        ensures
            match res {
                Some(i) => i < self.entries@.len() && self.entries@[i as int].0@ == key@,
                None => forall|i: int| 0 <= i < self.entries@.len() ==> #[trigger] self.entries@[i].0@ != key@,
            },
    {
        let mut i: usize = 0;
        while i < self.entries.len()
            invariant
                i <= self.entries.len(),
                forall|j: int| 0 <= j < i ==> #[trigger] self.entries@[j].0@ != key@,
            decreases self.entries.len() - i,
        {
            if same_text(self.entries[i].0.as_str(), key) {
                return Some(i);
            }
            i = i + 1;
        }
        None
    }

    /// The position of the first field whose name does not come before `key`.
    fn place_of(&self, key: &str) -> (res: usize)
        ensures
            res <= self.entries@.len(),
            forall|i: int| 0 <= i < res ==> text_before(#[trigger] self.entries@[i].0@, key@),
            res < self.entries@.len() ==> !text_before(self.entries@[res as int].0@, key@),
    {
        let mut i: usize = 0;
        while i < self.entries.len() && comes_before(self.entries[i].0.as_str(), key)
            invariant
                i <= self.entries@.len(),
                forall|j: int| 0 <= j < i ==> text_before(#[trigger] self.entries@[j].0@, key@),
            decreases self.entries@.len() - i,
        {
            i = i + 1;
        }
        i
    }

    proof fn lemma_pairs_ordered(self)
        requires
            self.names_are_in_order(),
        ensures
            ordered(self.pairs()),
            distinct_names(self.pairs()),
    {
        assert forall|i: int, j: int| 0 <= i < j < self.pairs().len() implies text_before(
            #[trigger] self.pairs()[i].0,
            #[trigger] self.pairs()[j].0,
        ) by {
            assert(text_before(self.entries@[i].0@, self.entries@[j].0@));
        }
        lemma_ordered_is_distinct(self.pairs());
    }

    /// The value of the field `key`, if there is one.
    pub fn get(&self, key: &str) -> (res: Option<&Json>)
        ensures
            match res {
                Some(value) => self@.contains_key(key@) && self@[key@] == value@,
                None => !self@.contains_key(key@),
            },
    {
        proof {
            use_type_invariant(self);
            self.lemma_pairs_ordered();
            lemma_fields_of(self.pairs());
        }
        match self.position(key) {
            Some(i) => {
                assert(self.pairs()[i as int].0 == key@);
                Some(&self.entries[i].1)
            },
            None => {
                assert forall|i: int| 0 <= i < self.pairs().len() implies
                    #[trigger] self.pairs()[i].0 != key@ by {
                    assert(self.entries@[i].0@ != key@);
                }
                None
            },
        }
    }

    /// Whether there is a field `key`.
    pub fn contains_key(&self, key: &str) -> (res: bool)
        ensures
            res == self@.contains_key(key@),
    {
        self.get(key).is_some()
    }

    /// Adds a field in its place, or replaces the value of the field with that name.
    pub fn insert(&mut self, key: String, value: Json)
        ensures
            final(self)@ == old(self)@.insert(key@, value@),
            ordered(final(self).pairs()),
            final(self).pairs() == by_name(final(self)@),
    {
        let ghost before = *self;
        proof {
            use_type_invariant(&*self);
            self.lemma_pairs_ordered();
        }
        let at: usize = self.place_of(key.as_str());
        let found: bool = at < self.entries.len() && same_text(
            self.entries[at].0.as_str(),
            key.as_str(),
        );
        let mut entries: Vec<(String, Json)> = Vec::new();
        std::mem::swap(&mut entries, &mut self.entries);
        if found {
            proof {
                assert(before.pairs()[at as int].0 == key@);
                lemma_fields_update(before.pairs(), at as int, key@, value@);
                assert forall|i: int, j: int| 0 <= i < j < before.entries@.len() implies
                    text_before(
                    #[trigger] before.entries@.update(at as int, (key, value))[i].0@,
                    #[trigger] before.entries@.update(at as int, (key, value))[j].0@,
                ) by {
                    assert(text_before(before.entries@[i].0@, before.entries@[j].0@));
                }
            }
            entries.set(at, (key, value));
            self.entries = entries;
            assert(self.pairs() =~= before.pairs().update(at as int, (key@, value@)));
        } else {
            proof {
                let longer = before.entries@.insert(at as int, (key, value));
                assert forall|j: int| at <= j < before.entries@.len() implies text_before(
                    key@,
                    #[trigger] before.entries@[j].0@,
                ) by {
                    let first = before.entries@[at as int].0@;
                    lemma_before_is_total(key@, first);
                    if at < j {
                        assert(text_before(first, before.entries@[j].0@));
                        lemma_before_is_transitive(key@, first, before.entries@[j].0@);
                    }
                }
                assert forall|i: int, j: int| 0 <= i < j < longer.len() implies text_before(
                    #[trigger] longer[i].0@,
                    #[trigger] longer[j].0@,
                ) by {
                    let a = if i < at {
                        i
                    } else {
                        i - 1
                    };
                    let b = if j < at {
                        j
                    } else {
                        j - 1
                    };
                    if i != at && j != at {
                        assert(text_before(before.entries@[a].0@, before.entries@[b].0@));
                    } else if i == at {
                        assert(text_before(key@, before.entries@[b].0@));
                    } else {
                        assert(text_before(before.entries@[a].0@, key@));
                    }
                }
                assert forall|i: int| 0 <= i < before.pairs().len() implies
                    #[trigger] before.pairs()[i].0 != key@ by {
                    let name = before.entries@[i].0@;
                    lemma_before_is_strict(name, key@);
                    lemma_before_is_strict(key@, name);
                    if i < at {
                        assert(text_before(before.entries@[i].0@, key@));
                    } else {
                        assert(text_before(key@, before.entries@[i].0@));
                    }
                }
                lemma_fields_insert_at(before.pairs(), at as int, key@, value@);
            }
            entries.insert(at, (key, value));
            self.entries = entries;
            assert(self.pairs() =~= before.pairs().insert(at as int, (key@, value@)));
        }
        proof {
            use_type_invariant(&*self);
            self.lemma_pairs_ordered();
            lemma_by_name(self.pairs());
        }
    }
}

impl Json {
    /// A list means the list of what its items mean.
    pub proof fn lemma_list_tree(items: Vec<Json>)
        ensures
            Json::List(items)@ == JsonView::List(item_trees(items@)),
    {
        let left = Json::List(items).tree()->List_0;
        let right = item_trees(items@);
        assert forall|i: int| 0 <= i < left.len() implies left[i] == right[i] by {
            assert(left[i] == items@[i].tree());
        }
        assert(left =~= right);
    }

    /// A JSON list of the given values.
    pub fn list(items: Vec<Json>) -> (res: Json)
        ensures
            res@ == JsonView::List(item_trees(items@)),
            res matches Json::List(list) && list@ == items@,
    {
        proof {
            Json::lemma_list_tree(items);
        }
        Json::List(items)
    }

    /// The items of a list.
    pub fn as_list(&self) -> (res: Option<&Vec<Json>>)
        ensures
            match res {
                Some(items) => *self == Json::List(*items) && self@ == JsonView::List(
                    item_trees(items@),
                ),
                None => !(self@ is List),
            },
    {
        match self {
            Json::List(items) => {
                proof {
                    Json::lemma_list_tree(*items);
                }
                Some(items)
            },
            _ => None,
        }
    }

    /// The field `key`, if the value is an object that has it.
    pub fn get(&self, key: &str) -> (res: Option<&Json>)
        ensures
            match res {
                Some(value) => field(self@, key@) == Some(value@),
                None => field(self@, key@) is None,
            },
    {
        match self {
            Json::Object(object) => object.get(key),
            _ => None,
        }
    }

    /// The characters of a string.
    pub fn as_str(&self) -> (res: Option<&str>)
        ensures
            match res {
                Some(text) => text_of(self@) == Some(text@),
                None => text_of(self@) is None,
            },
    {
        match self {
            Json::Text(s) => Some(s.as_str()),
            _ => None,
        }
    }

    /// The value of a boolean.
    pub fn as_bool(&self) -> (res: Option<bool>)
        ensures
            res == bool_of(self@),
    {
        match self {
            Json::Bool(b) => Some(*b),
            _ => None,
        }
    }

    /// The value of an integer from 0 to `u64::MAX`.
    pub fn as_u64(&self) -> (res: Option<u64>)
        ensures
            res == unsigned_of(self@),
    {
        match self {
            Json::Number(n) => n.as_u64(),
            _ => None,
        }
    }

    /// Whether the value is `null`.
    pub fn is_null(&self) -> (res: bool)
        ensures
            res == (self@ is Null),
    {
        match self {
            Json::Null => true,
            _ => false,
        }
    }

    /// The string in the field `key`.
    pub fn str_field(&self, key: &str) -> (res: Option<&str>)
        ensures
            match res {
                Some(text) => text_field(self@, key@) == Some(text@),
                None => text_field(self@, key@) is None,
            },
    {
        match self.get(key) {
            Some(value) => value.as_str(),
            None => None,
        }
    }

    /// The boolean in the field `key`.
    pub fn bool_field(&self, key: &str) -> (res: Option<bool>)
        ensures
            res == bool_field(self@, key@),
    {
        match self.get(key) {
            Some(value) => value.as_bool(),
            None => None,
        }
    }

    /// The integer from 0 to `u64::MAX` in the field `key`.
    pub fn u64_field(&self, key: &str) -> (res: Option<u64>)
        ensures
            res == unsigned_field(self@, key@),
    {
        match self.get(key) {
            Some(value) => value.as_u64(),
            None => None,
        }
    }

    /// A JSON string with the given characters.
    pub fn text(text: &str) -> (res: Json)
        ensures
            res@ == JsonView::Text(text@),
    {
        Json::Text(text.to_owned())
    }
}

/// A field is what an object holds under that name, and of the type that is asked for; nothing
/// but an object has fields.
pub proof fn lemma_fields_are_read(
    tree: JsonView,
    key: Seq<char>,
    value: JsonView,
    text: Seq<char>,
    b: bool,
    n: u64,
)
    ensures
        field(tree, key) == Some(value) <==> (tree matches JsonView::Object(fields)
            && fields.contains_key(key) && fields[key] == value),
        text_field(tree, key) == Some(text) <==> (tree matches JsonView::Object(fields)
            && fields.contains_key(key) && fields[key] == JsonView::Text(text)),
        bool_field(tree, key) == Some(b) <==> (tree matches JsonView::Object(fields)
            && fields.contains_key(key) && fields[key] == JsonView::Bool(b)),
        unsigned_field(tree, key) == Some(n) <==> (tree matches JsonView::Object(fields)
            && fields.contains_key(key) && fields[key] == JsonView::Number(
            NumberView::Integer(n as int),
        )),
{
}

/// Of several values that are listed with one name, the object holds the last.
pub proof fn lemma_last_value_stays(pairs: Seq<(Seq<char>, JsonView)>, at: int)
    requires
        0 <= at < pairs.len(),
        forall|j: int| at < j < pairs.len() ==> #[trigger] pairs[j].0 != pairs[at].0,
    ensures
        fields_of(pairs).contains_key(pairs[at].0),
        fields_of(pairs)[pairs[at].0] == pairs[at].1,
    decreases pairs.len(),
{
    if at < pairs.len() - 1 {
        let front = pairs.drop_last();
        assert forall|j: int| at < j < front.len() implies #[trigger] front[j].0 != front[at].0 by {
            assert(pairs[j].0 != pairs[at].0);
        }
        lemma_last_value_stays(front, at);
        assert(pairs[pairs.len() - 1].0 != pairs[at].0);
    }
}

} // verus!
