//! JSON values as the relay's rules read them.
use vstd::prelude::*;

verus! {

/// A JSON number.
///
/// Integers are kept apart from floating-point numbers, as a parser tells them apart by how they
/// are written. A floating-point number is carried as the bits of its IEEE 754 double.
#[derive(Clone, Copy, Debug)]
pub enum JsonNumber {
    /// An integer that is not negative.
    PosInt(u64),
    /// A negative integer.
    NegInt(i64),
    /// The bits of a finite double.
    Float(u64),
}

/// A JSON value.
#[derive(Debug)]
pub enum Json {
    Null,
    Bool(bool),
    Number(JsonNumber),
    Text(String),
    Array(Vec<Json>),
    Object(JsonObject),
}

/// A JSON object: no key occurs twice.
#[derive(Debug)]
pub struct JsonObject {
    entries: Vec<(String, Json)>,
}

/// The mathematical value of a [`Json`].
pub enum JsonView {
    Null,
    Bool(bool),
    Number(JsonNumber),
    Text(Seq<char>),
    Array(Seq<JsonView>),
    Object(Map<Seq<char>, JsonView>),
}

impl Json {
    /// The value that `self` stands for.
    pub open spec fn model(self) -> JsonView
        decreases self,
    {
        match self {
            Json::Null => JsonView::Null,
            Json::Bool(b) => JsonView::Bool(b),
            Json::Number(n) => JsonView::Number(n),
            Json::Text(s) => JsonView::Text(s@),
            Json::Array(items) => JsonView::Array(array_model(items@)),
            Json::Object(object) => JsonView::Object(object.model()),
        }
    }
}

impl View for Json {
    type V = JsonView;

    open spec fn view(&self) -> JsonView {
        self.model()
    }
}

/// The values that the items of an array stand for, in order.
pub open spec fn array_model(items: Seq<Json>) -> Seq<JsonView>
    decreases items,
{
    if items.len() == 0 {
        Seq::empty()
    } else {
        array_model(items.drop_last()).push(items.last().model())
    }
}

impl JsonObject {
    /// The fields of the object.
    pub closed spec fn model(self) -> Map<Seq<char>, JsonView>
        decreases self,
    {
        entries_model(self.entries@)
    }

    /// No two entries have the same key.
    #[verifier::type_invariant]
    spec fn keys_unique(self) -> bool {
        distinct_keys(self.entries@)
    }
}

impl View for JsonObject {
    type V = Map<Seq<char>, JsonView>;

    open spec fn view(&self) -> Map<Seq<char>, JsonView> {
        self.model()
    }
}

spec fn distinct_keys(entries: Seq<(String, Json)>) -> bool {
    forall|i: int, j: int|
        0 <= i < j < entries.len() ==> (#[trigger] entries[i]).0@ != (#[trigger] entries[j]).0@
}

spec fn entries_model(entries: Seq<(String, Json)>) -> Map<Seq<char>, JsonView>
    decreases entries,
{
    if entries.len() == 0 {
        Map::empty()
    } else {
        entries_model(entries.drop_last()).insert(entries.last().0@, entries.last().1.model())
    }
}

/// Whether the bits are those of the double zero, of either sign.
pub open spec fn float_is_zero(bits: u64) -> bool {
    bits == 0 || bits == 0x8000_0000_0000_0000
}

/// Whether two numbers are equal: they are of the same kind and have the same value. The two
/// zeros among the doubles are equal.
pub open spec fn same_number(a: JsonNumber, b: JsonNumber) -> bool {
    match (a, b) {
        (JsonNumber::PosInt(x), JsonNumber::PosInt(y)) => x == y,
        (JsonNumber::NegInt(x), JsonNumber::NegInt(y)) => x == y,
        (JsonNumber::Float(x), JsonNumber::Float(y)) => x == y || (float_is_zero(x)
            && float_is_zero(y)),
        _ => false,
    }
}

/// Whether two values are equal: numbers as [`same_number`] says, arrays item by item, objects
/// field by field whatever the order of the fields.
pub open spec fn same_json(a: JsonView, b: JsonView) -> bool
    decreases a,
{
    match (a, b) {
        (JsonView::Number(x), JsonView::Number(y)) => same_number(x, y),
        (JsonView::Array(x), JsonView::Array(y)) => {
            &&& x.len() == y.len()
            &&& forall|i: int| 0 <= i < x.len() ==> same_json(#[trigger] x[i], y[i])
        },
        (JsonView::Object(x), JsonView::Object(y)) => {
            &&& x.dom() =~= y.dom()
            &&& forall|k: Seq<char>| x.contains_key(k) ==> same_json(#[trigger] x[k], y[k])
        },
        _ => a == b,
    }
}

proof fn lemma_array_model(items: Seq<Json>)
    ensures
        array_model(items).len() == items.len(),
        forall|i: int| 0 <= i < items.len() ==> #[trigger] array_model(items)[i] == items[i].model(),
    decreases items.len(),
{
    if items.len() > 0 {
        lemma_array_model(items.drop_last());
    }
}

proof fn lemma_entries_model(entries: Seq<(String, Json)>)
    requires
        distinct_keys(entries),
    ensures
        forall|i: int|
            0 <= i < entries.len() ==> entries_model(entries).contains_key(
                (#[trigger] entries[i]).0@,
            ) && entries_model(entries)[entries[i].0@] == entries[i].1.model(),
        forall|k: Seq<char>| #[trigger]
            entries_model(entries).contains_key(k) ==> exists|i: int|
                0 <= i < entries.len() && (#[trigger] entries[i]).0@ == k,
    decreases entries.len(),
{
    if entries.len() > 0 {
        let rest = entries.drop_last();
        lemma_entries_model(rest);
        assert forall|i: int| 0 <= i < entries.len() implies entries_model(entries).contains_key(
            (#[trigger] entries[i]).0@,
        ) && entries_model(entries)[entries[i].0@] == entries[i].1.model() by {
            if i < rest.len() {
                assert(rest[i] == entries[i]);
            }
        }
        assert forall|k: Seq<char>| #[trigger]
            entries_model(entries).contains_key(k) implies exists|i: int|
            0 <= i < entries.len() && (#[trigger] entries[i]).0@ == k by {
            if k == entries.last().0@ {
                assert(entries[entries.len() - 1].0@ == k);
            } else {
                let i = choose|i: int| 0 <= i < rest.len() && (#[trigger] rest[i]).0@ == k;
                assert(entries[i].0@ == k);
            }
        }
    }
}

impl JsonNumber {
    /// Whether the numbers are equal.
    pub fn same(&self, other: &JsonNumber) -> (r: bool)
        ensures
            r == same_number(*self, *other),
    {
        match (self, other) {
            (JsonNumber::PosInt(x), JsonNumber::PosInt(y)) => *x == *y,
            (JsonNumber::NegInt(x), JsonNumber::NegInt(y)) => *x == *y,
            (JsonNumber::Float(x), JsonNumber::Float(y)) => {
                let zeros: bool = (*x == 0 || *x == 0x8000_0000_0000_0000) && (*y == 0 || *y
                    == 0x8000_0000_0000_0000);
                *x == *y || zeros
            },
            _ => false,
        }
    }
}

impl Json {
    /// Whether the values are equal.
    pub fn same(&self, other: &Json) -> (r: bool)
        ensures
            r == same_json(self@, other@),
        decreases self,
    {
        match (self, other) {
            (Json::Null, Json::Null) => true,
            (Json::Bool(x), Json::Bool(y)) => *x == *y,
            (Json::Number(x), Json::Number(y)) => x.same(y),
            (Json::Text(x), Json::Text(y)) => *x == *y,
            (Json::Array(x), Json::Array(y)) => {
                proof {
                    lemma_array_model(x@);
                    lemma_array_model(y@);
                }
                if x.len() != y.len() {
                    return false;
                }
                for i in 0..x.len()
                    invariant
                        x@.len() == y@.len(),
                        decreases_to!(self => x@),
                        array_model(x@).len() == x@.len(),
                        array_model(y@).len() == y@.len(),
                        forall|k: int|
                            0 <= k < x@.len() ==> #[trigger] array_model(x@)[k] == x@[k].model(),
                        forall|k: int|
                            0 <= k < y@.len() ==> #[trigger] array_model(y@)[k] == y@[k].model(),
                        self@ == JsonView::Array(array_model(x@)),
                        other@ == JsonView::Array(array_model(y@)),
                        forall|k: int|
                            0 <= k < i ==> same_json(#[trigger] array_model(x@)[k], array_model(y@)[k]),
                {
                    assert(array_model(x@)[i as int] == x@[i as int].model());
                    assert(array_model(y@)[i as int] == y@[i as int].model());
                    if !x[i].same(&y[i]) {
                        return false;
                    }
                }
                true
            },
            (Json::Object(x), Json::Object(y)) => x.same(y),
            _ => false,
        }
    }
}

impl JsonObject {
    /// The object without fields.
    pub fn new() -> (r: JsonObject)
        ensures
            r@ == Map::<Seq<char>, JsonView>::empty(),
    {
        JsonObject { entries: Vec::new() }
    }

    /// Where the field `key` stands among the entries.
    fn position(&self, key: &str) -> (r: Option<usize>)
        ensures
            match r {
                Some(i) => i < self.entries@.len() && self.entries@[i as int].0@ == key@,
                None => forall|k: int|
                    0 <= k < self.entries@.len() ==> (#[trigger] self.entries@[k]).0@ != key@,
            },
    {
        let wanted: String = key.to_owned();
        for i in 0..self.entries.len()
            invariant
                wanted@ == key@,
                forall|k: int| 0 <= k < i ==> (#[trigger] self.entries@[k]).0@ != key@,
        {
            if self.entries[i].0 == wanted {
                return Some(i);
            }
        }
        None
    }

    /// The value of the field `key`.
    pub fn get(&self, key: &str) -> (r: Option<&Json>)
        ensures
            match r {
                Some(value) => self@.contains_key(key@) && value@ == self@[key@],
                None => !self@.contains_key(key@),
            },
    {
        proof {
            use_type_invariant(self);
            lemma_entries_model(self.entries@);
        }
        match self.position(key) {
            Some(i) => Some(&self.entries[i].1),
            None => None,
        }
    }

    /// Takes the field `key` out of the object and hands out its value.
    pub fn remove(&mut self, key: &str) -> (r: Option<Json>)
        ensures
            final(self)@ == old(self)@.remove(key@),
            match r {
                Some(value) => old(self)@.contains_key(key@) && value@ == old(self)@[key@],
                None => !old(self)@.contains_key(key@),
            },
    {
        proof {
            use_type_invariant(&*self);
            lemma_entries_model(self.entries@);
        }
        match self.position(key) {
            Some(i) => {
                let ghost before = self.entries@;
                let mut entries: Vec<(String, Json)> = Vec::new();
                std::mem::swap(&mut entries, &mut self.entries);
                let (_, value) = entries.remove(i);
                proof {
                    lemma_entries_remove(before, i as int);
                }
                self.entries = entries;
                Some(value)
            },
            None => {
                proof {
                    assert(self@.remove(key@) =~= self@);
                }
                None
            },
        }
    }

    /// Sets the field `key` to `value`, in place of the value it had.
    pub fn insert(&mut self, key: String, value: Json)
        ensures
            final(self)@ == old(self)@.insert(key@, value@),
    {
        self.remove(key.as_str());
        proof {
            use_type_invariant(&*self);
            lemma_entries_model(self.entries@);
        }
        let ghost rest = self.entries@;
        let ghost fields = self@;
        let mut entries: Vec<(String, Json)> = Vec::new();
        std::mem::swap(&mut entries, &mut self.entries);
        entries.push((key, value));
        proof {
            assert forall|i: int| 0 <= i < rest.len() implies (#[trigger] rest[i]).0@ != key@ by {
                assert(fields.contains_key(rest[i].0@));
            }
            assert(entries@.drop_last() =~= rest);
            assert(old(self)@.remove(key@).insert(key@, value@) =~= old(self)@.insert(key@, value@));
        }
        self.entries = entries;
    }

    /// Hands out the fields as a list, in which each field stands once.
    pub fn into_entries(self) -> (r: Vec<(String, Json)>)
        ensures
            forall|i: int, j: int|
                0 <= i < j < r@.len() ==> (#[trigger] r@[i]).0@ != (#[trigger] r@[j]).0@,
            forall|i: int|
                0 <= i < r@.len() ==> self@.contains_key((#[trigger] r@[i]).0@)
                    && self@[r@[i].0@] == r@[i].1@,
            forall|k: Seq<char>| #[trigger]
                self@.contains_key(k) ==> exists|i: int|
                    0 <= i < r@.len() && (#[trigger] r@[i]).0@ == k,
    {
        proof {
            use_type_invariant(&self);
            lemma_entries_model(self.entries@);
        }
        self.entries
    }

    /// Whether the objects are equal.
    pub fn same(&self, other: &JsonObject) -> (r: bool)
        ensures
            r == same_json(JsonView::Object(self@), JsonView::Object(other@)),
        decreases self,
    {
        proof {
            use_type_invariant(self);
            use_type_invariant(other);
            lemma_entries_model(self.entries@);
            lemma_entries_model(other.entries@);
        }
        for i in 0..self.entries.len()
            invariant
                distinct_keys(self.entries@),
                forall|k: int|
                    0 <= k < self.entries@.len() ==> self@.contains_key(
                        (#[trigger] self.entries@[k]).0@,
                    ) && self@[self.entries@[k].0@] == self.entries@[k].1.model(),
                forall|k: int|
                    0 <= k < i ==> other@.contains_key((#[trigger] self.entries@[k]).0@)
                        && same_json(self@[self.entries@[k].0@], other@[self.entries@[k].0@]),
        {
            assert(self@.contains_key(self.entries@[i as int].0@));
            match other.get(self.entries[i].0.as_str()) {
                Some(value) => {
                    if !self.entries[i].1.same(value) {
                        return false;
                    }
                },
                None => {
                    return false;
                },
            }
        }
        for i in 0..other.entries.len()
            invariant
                forall|k: int|
                    0 <= k < other.entries@.len() ==> other@.contains_key(
                        (#[trigger] other.entries@[k]).0@,
                    ),
                forall|k: int|
                    0 <= k < i ==> self@.contains_key((#[trigger] other.entries@[k]).0@),
        {
            assert(other@.contains_key(other.entries@[i as int].0@));
            if self.get(other.entries[i].0.as_str()).is_none() {
                return false;
            }
        }
        proof {
            assert(self@.dom() =~= other@.dom());
        }
        true
    }
}

/// Taking an entry out of a list without repeated keys takes its key out of the fields.
proof fn lemma_entries_remove(entries: Seq<(String, Json)>, i: int)
    requires
        distinct_keys(entries),
        0 <= i < entries.len(),
    ensures
        distinct_keys(entries.remove(i)),
        entries_model(entries.remove(i)) == entries_model(entries).remove(entries[i].0@),
{
    let rest = entries.remove(i);
    assert(distinct_keys(rest)) by {
        assert forall|a: int, b: int| 0 <= a < b < rest.len() implies (#[trigger] rest[a]).0@ != (
        #[trigger] rest[b]).0@ by {
            let a0 = if a < i { a } else { a + 1 };
            let b0 = if b < i { b } else { b + 1 };
            assert(rest[a] == entries[a0] && rest[b] == entries[b0]);
        }
    }
    lemma_entries_model(entries);
    lemma_entries_model(rest);
    let left = entries_model(rest);
    let right = entries_model(entries).remove(entries[i].0@);
    assert forall|k: Seq<char>| #![auto] left.contains_key(k) implies right.contains_key(k)
        && left[k] == right[k] by {
        let a = choose|a: int| 0 <= a < rest.len() && (#[trigger] rest[a]).0@ == k;
        let a0 = if a < i { a } else { a + 1 };
        assert(rest[a] == entries[a0]);
    }
    assert forall|k: Seq<char>| #![auto] right.contains_key(k) implies left.contains_key(k) by {
        let a0 = choose|a: int| 0 <= a < entries.len() && (#[trigger] entries[a]).0@ == k;
        let a = if a0 < i { a0 } else { a0 - 1 };
        assert(rest[a] == entries[a0]);
    }
    assert(left =~= right);
}

impl Clone for JsonObject {
    fn clone(&self) -> (r: JsonObject)
        ensures
            r@ == self@,
        decreases self,
    {
        proof {
            use_type_invariant(self);
        }
        let mut entries: Vec<(String, Json)> = Vec::new();
        for i in 0..self.entries.len()
            invariant
                entries@.len() == i,
                forall|k: int|
                    0 <= k < i ==> (#[trigger] entries@[k]).0@ == self.entries@[k].0@
                        && entries@[k].1@ == self.entries@[k].1@,
        {
            let key: String = self.entries[i].0.clone();
            let value: Json = self.entries[i].1.clone();
            entries.push((key, value));
        }
        proof {
            lemma_entries_model_pointwise(entries@, self.entries@);
        }
        JsonObject { entries }
    }
}

/// Entries that agree in their keys and in what their values stand for have the same fields.
proof fn lemma_entries_model_pointwise(a: Seq<(String, Json)>, b: Seq<(String, Json)>)
    requires
        a.len() == b.len(),
        forall|k: int|
            0 <= k < a.len() ==> (#[trigger] a[k]).0@ == b[k].0@ && a[k].1@ == b[k].1@,
    ensures
        entries_model(a) == entries_model(b),
    decreases a.len(),
{
    if a.len() > 0 {
        lemma_entries_model_pointwise(a.drop_last(), b.drop_last());
        assert(a.last() == a[a.len() - 1]);
    }
}

impl Clone for Json {
    fn clone(&self) -> (r: Json)
        ensures
            r@ == self@,
        decreases self,
    {
        match self {
            Json::Null => Json::Null,
            Json::Bool(b) => Json::Bool(*b),
            Json::Number(n) => Json::Number(*n),
            Json::Text(s) => Json::Text(s.clone()),
            Json::Array(items) => {
                let mut copies: Vec<Json> = Vec::new();
                for i in 0..items.len()
                    invariant
                        decreases_to!(self => items@),
                        copies@.len() == i,
                        forall|k: int| 0 <= k < i ==> (#[trigger] copies@[k])@ == items@[k]@,
                {
                    let copy: Json = items[i].clone();
                    copies.push(copy);
                }
                proof {
                    lemma_array_model(items@);
                    lemma_array_model(copies@);
                    assert(array_model(copies@) =~= array_model(items@));
                }
                Json::Array(copies)
            },
            Json::Object(object) => Json::Object(object.clone()),
        }
    }
}

/// A value's mathematical value has the same type and holds the same content: the same boolean,
/// number or characters, the values of the same items in the same order, the same fields.
pub proof fn law_json_view_is_faithful(value: Json)
    ensures
        value is Null <==> value@ is Null,
        value is Bool <==> value@ is Bool,
        value is Number <==> value@ is Number,
        value is Text <==> value@ is Text,
        value is Array <==> value@ is Array,
        value is Object <==> value@ is Object,
        value is Bool ==> value@->Bool_0 == value->Bool_0,
        value is Number ==> value@->Number_0 == value->Number_0,
        value is Text ==> value@->Text_0 == value->Text_0@,
        value is Array ==> value@->Array_0.len() == value->Array_0@.len(),
        value is Array ==> forall|i: int|
            0 <= i < value->Array_0@.len() ==> #[trigger] value@->Array_0[i]
                == value->Array_0@[i]@,
        value is Object ==> value@->Object_0 == value->Object_0@,
{
    if let Json::Array(items) = value {
        lemma_array_model(items@);
    }
}

/// Equality tells apart whatever is not a floating-point number: null, a boolean, a text and an
/// integer are equal to themselves alone.
pub proof fn law_same_json_tells_scalars_apart(
    b: JsonView,
    flag: bool,
    text: Seq<char>,
    natural: u64,
    negative: i64,
)
    ensures
        same_json(JsonView::Null, b) <==> b == JsonView::Null,
        same_json(JsonView::Bool(flag), b) <==> b == JsonView::Bool(flag),
        same_json(JsonView::Text(text), b) <==> b == JsonView::Text(text),
        same_json(JsonView::Number(JsonNumber::PosInt(natural)), b) <==> b == JsonView::Number(
            JsonNumber::PosInt(natural),
        ),
        same_json(JsonView::Number(JsonNumber::NegInt(negative)), b) <==> b == JsonView::Number(
            JsonNumber::NegInt(negative),
        ),
{
}

/// A floating-point number is equal to the one with the same bits, and to the other zero if it is
/// a zero; to nothing else.
pub proof fn law_same_json_of_floats(bits: u64, b: JsonView)
    ensures
        same_json(JsonView::Number(JsonNumber::Float(bits)), b) <==> b == JsonView::Number(
            JsonNumber::Float(bits),
        ) || (bits == 0 && b == JsonView::Number(JsonNumber::Float(0x8000_0000_0000_0000))) || (bits
            == 0x8000_0000_0000_0000 && b == JsonView::Number(JsonNumber::Float(0))),
{
}

/// An array is equal to an array of the same length with equal items at equal places, and to
/// nothing else.
pub proof fn law_same_json_of_arrays(items: Seq<JsonView>, b: JsonView)
    ensures
        same_json(JsonView::Array(items), b) <==> b is Array && items.len() == b->Array_0.len() && (
        forall|i: int| 0 <= i < items.len() ==> same_json(#[trigger] items[i], b->Array_0[i])),
{
}

/// An object is equal to an object with the same keys and equal values under equal keys, and to
/// nothing else.
pub proof fn law_same_json_of_objects(fields: Map<Seq<char>, JsonView>, b: JsonView)
    ensures
        same_json(JsonView::Object(fields), b) <==> b is Object && (forall|k: Seq<char>|
            fields.contains_key(k) <==> #[trigger] b->Object_0.contains_key(k)) && (forall|
            k: Seq<char>,
        |
            fields.contains_key(k) ==> same_json(#[trigger] fields[k], b->Object_0[k])),
{
    if let JsonView::Object(other) = b {
        if forall|k: Seq<char>| fields.contains_key(k) <==> #[trigger] other.contains_key(k) {
            assert forall|k: Seq<char>| fields.dom().contains(k) <==> other.dom().contains(k) by {
                assert(fields.contains_key(k) <==> other.contains_key(k));
            }
            assert(fields.dom() =~= other.dom());
        }
    }
}

/// No floating-point number occurs in the value.
pub open spec fn float_free(a: JsonView) -> bool
    decreases a,
{
    match a {
        JsonView::Number(JsonNumber::Float(_)) => false,
        JsonView::Array(x) => forall|i: int| 0 <= i < x.len() ==> float_free(#[trigger] x[i]),
        JsonView::Object(x) => forall|k: Seq<char>|
            x.contains_key(k) ==> float_free(#[trigger] x[k]),
        _ => true,
    }
}

/// A value without floating-point numbers is equal to itself alone.
pub proof fn law_same_json_is_identity_without_floats(a: JsonView, b: JsonView)
    requires
        float_free(a),
    ensures
        same_json(a, b) <==> a == b,
    decreases a,
{
    law_same_json_reflexive(a);
    if same_json(a, b) {
        match (a, b) {
            (JsonView::Array(x), JsonView::Array(y)) => {
                assert forall|i: int| 0 <= i < x.len() implies x[i] == y[i] by {
                    law_same_json_is_identity_without_floats(x[i], y[i]);
                }
                assert(x =~= y);
            },
            (JsonView::Object(x), JsonView::Object(y)) => {
                assert forall|k: Seq<char>| x.contains_key(k) implies x[k] == y[k] by {
                    law_same_json_is_identity_without_floats(x[k], y[k]);
                }
                assert(x =~= y);
            },
            _ => {},
        }
    }
}

/// Two objects with a text under the same key are equal only if the texts are.
pub proof fn law_same_objects_agree_in_texts(
    a: Map<Seq<char>, JsonView>,
    b: Map<Seq<char>, JsonView>,
    key: Seq<char>,
)
    requires
        a.contains_key(key),
        a[key] is Text,
        same_json(JsonView::Object(a), JsonView::Object(b)),
    ensures
        b.contains_key(key),
        b[key] == a[key],
{
    assert(b.dom().contains(key));
    assert(same_json(a[key], b[key]));
}

/// Every value is equal to itself.
pub proof fn law_same_json_reflexive(a: JsonView)
    ensures
        same_json(a, a),
    decreases a,
{
    match a {
        JsonView::Array(x) => {
            assert forall|i: int| 0 <= i < x.len() implies same_json(#[trigger] x[i], x[i]) by {
                law_same_json_reflexive(x[i]);
            }
        },
        JsonView::Object(x) => {
            assert forall|k: Seq<char>| x.contains_key(k) implies same_json(
                #[trigger] x[k],
                x[k],
            ) by {
                law_same_json_reflexive(x[k]);
            }
        },
        _ => {},
    }
}

/// Equality does not depend on the order of the two values.
pub proof fn law_same_json_symmetric(a: JsonView, b: JsonView)
    requires
        same_json(a, b),
    ensures
        same_json(b, a),
    decreases a,
{
    match (a, b) {
        (JsonView::Array(x), JsonView::Array(y)) => {
            assert forall|i: int| 0 <= i < y.len() implies same_json(#[trigger] y[i], x[i]) by {
                law_same_json_symmetric(x[i], y[i]);
            }
        },
        (JsonView::Object(x), JsonView::Object(y)) => {
            assert forall|k: Seq<char>| y.contains_key(k) implies same_json(
                #[trigger] y[k],
                x[k],
            ) by {
                assert(x.dom().contains(k));
                law_same_json_symmetric(x[k], y[k]);
            }
        },
        _ => {},
    }
}

/// Two values that are equal to a third one are equal.
pub proof fn law_same_json_transitive(a: JsonView, b: JsonView, c: JsonView)
    requires
        same_json(a, b),
        same_json(b, c),
    ensures
        same_json(a, c),
    decreases a,
{
    match (a, b, c) {
        (JsonView::Array(x), JsonView::Array(y), JsonView::Array(z)) => {
            assert forall|i: int| 0 <= i < x.len() implies same_json(#[trigger] x[i], z[i]) by {
                assert(same_json(y[i], z[i]));
                law_same_json_transitive(x[i], y[i], z[i]);
            }
        },
        (JsonView::Object(x), JsonView::Object(y), JsonView::Object(z)) => {
            assert forall|k: Seq<char>| x.contains_key(k) implies same_json(
                #[trigger] x[k],
                z[k],
            ) by {
                assert(y.dom().contains(k));
                assert(same_json(y[k], z[k]));
                law_same_json_transitive(x[k], y[k], z[k]);
            }
        },
        _ => {},
    }
}

} // verus!
