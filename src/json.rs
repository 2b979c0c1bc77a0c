//! A JSON value owned by the library, with its mathematical model.
use vstd::prelude::*;

verus! {

/// A JSON value. Numbers keep the text they were written with, so that a
/// value passes through the control plane without losing precision.
#[derive(Debug, PartialEq)]
pub enum Json {
    Null,
    Bool(bool),
    Num(String),
    Str(String),
    Array(Vec<Json>),
    Object(Vec<(String, Json)>),
}

/// The model of a [`Json`] value: strings become character sequences.
pub enum JsonModel {
    Null,
    Bool(bool),
    Num(Seq<char>),
    Str(Seq<char>),
    Array(Seq<JsonModel>),
    Object(Seq<(Seq<char>, JsonModel)>),
}

pub open spec fn model_of(j: Json) -> JsonModel
    decreases j,
{
    match j {
        Json::Null => JsonModel::Null,
        Json::Bool(b) => JsonModel::Bool(b),
        Json::Num(t) => JsonModel::Num(t@),
        Json::Str(s) => JsonModel::Str(s@),
        Json::Array(items) => JsonModel::Array(items_model(items@)),
        Json::Object(fields) => JsonModel::Object(fields_model(fields@)),
    }
}

pub open spec fn items_model(items: Seq<Json>) -> Seq<JsonModel>
    decreases items,
{
    if items.len() == 0 {
        Seq::empty()
    } else {
        items_model(items.drop_last()).push(model_of(items.last()))
    }
}

pub open spec fn fields_model(fields: Seq<(String, Json)>) -> Seq<(Seq<char>, JsonModel)>
    decreases fields,
{
    if fields.len() == 0 {
        Seq::empty()
    } else {
        fields_model(fields.drop_last()).push((fields.last().0@, model_of(fields.last().1)))
    }
}

impl View for Json {
    type V = JsonModel;

    open spec fn view(&self) -> JsonModel {
        model_of(*self)
    }
}

/// The value of the first field named `key`, if any.
pub open spec fn lookup(fields: Seq<(Seq<char>, JsonModel)>, key: Seq<char>) -> Option<JsonModel>
    decreases fields.len(),
{
    if fields.len() == 0 {
        None
    } else if fields[0].0 == key {
        Some(fields[0].1)
    } else {
        lookup(fields.drop_first(), key)
    }
}

impl JsonModel {
    /// The member `key` of an object; `None` for a missing key or a non-object.
    pub open spec fn member(self, key: Seq<char>) -> Option<JsonModel> {
        match self {
            JsonModel::Object(fields) => lookup(fields, key),
            _ => None,
        }
    }

    pub open spec fn has_member(self, key: Seq<char>) -> bool {
        self.member(key) is Some
    }
}

pub open spec fn digit_char(d: nat) -> char {
    if d == 0 {
        '0'
    } else if d == 1 {
        '1'
    } else if d == 2 {
        '2'
    } else if d == 3 {
        '3'
    } else if d == 4 {
        '4'
    } else if d == 5 {
        '5'
    } else if d == 6 {
        '6'
    } else if d == 7 {
        '7'
    } else if d == 8 {
        '8'
    } else {
        '9'
    }
}

/// Decimal digits of `n`, most significant first, without leading zeros.
pub open spec fn decimal(n: nat) -> Seq<char>
    decreases n,
{
    if n < 10 {
        seq![digit_char(n)]
    } else {
        decimal(n / 10).push(digit_char(n % 10))
    }
}

/// Decimal text of a signed integer.
pub open spec fn signed_decimal(i: int) -> Seq<char> {
    if i < 0 {
        seq!['-'] + decimal((-i) as nat)
    } else {
        decimal(i as nat)
    }
}

pub open spec fn is_digit(c: char) -> bool {
    '0' <= c && c <= '9'
}

pub open spec fn digit_value(c: char) -> nat {
    ((c as u32) - ('0' as u32)) as nat
}

/// A non-empty run of decimal digits.
pub open spec fn is_digits(s: Seq<char>) -> bool {
    s.len() > 0 && forall|i: int| 0 <= i < s.len() ==> is_digit(#[trigger] s[i])
}

/// The number that a run of decimal digits denotes.
pub open spec fn digits_value(s: Seq<char>) -> nat
    decreases s.len(),
{
    if s.len() == 0 {
        0
    } else {
        digits_value(s.drop_last()) * 10 + digit_value(s.last())
    }
}

/// The integer that a JSON number text denotes, when it is an integer:
/// an optional minus sign followed by decimal digits.
pub open spec fn integer_text(s: Seq<char>) -> Option<int> {
    if is_digits(s) {
        Some(digits_value(s) as int)
    } else if s.len() > 0 && s[0] == '-' && is_digits(s.drop_first()) {
        Some(-(digits_value(s.drop_first()) as int))
    } else {
        None
    }
}

pub proof fn lemma_items_model(items: Seq<Json>)
    ensures
        items_model(items).len() == items.len(),
        forall|i: int| 0 <= i < items.len() ==> #[trigger] items_model(items)[i] == model_of(items[i]),
    decreases items.len(),
{
    if items.len() > 0 {
        lemma_items_model(items.drop_last());
        assert forall|i: int| 0 <= i < items.len() implies #[trigger] items_model(items)[i] == model_of(items[i]) by {
            if i < items.len() - 1 {
                assert(items.drop_last()[i] == items[i]);
            }
        }
    }
}

pub proof fn lemma_fields_model(fields: Seq<(String, Json)>)
    ensures
        fields_model(fields).len() == fields.len(),
        forall|i: int| 0 <= i < fields.len() ==> #[trigger] fields_model(fields)[i] == (fields[i].0@, model_of(fields[i].1)),
    decreases fields.len(),
{
    if fields.len() > 0 {
        lemma_fields_model(fields.drop_last());
        assert forall|i: int| 0 <= i < fields.len() implies #[trigger] fields_model(fields)[i] == (fields[i].0@, model_of(fields[i].1)) by {
            if i < fields.len() - 1 {
                assert(fields.drop_last()[i] == fields[i]);
            }
        }
    }
}

proof fn lemma_fields_push(fields: Seq<(String, Json)>, f: (String, Json))
    ensures
        fields_model(fields.push(f)) == fields_model(fields).push((f.0@, model_of(f.1))),
{
    assert(fields.push(f).drop_last() =~= fields);
}

proof fn lemma_items_push(items: Seq<Json>, j: Json)
    ensures
        items_model(items.push(j)) == items_model(items).push(model_of(j)),
{
    assert(items.push(j).drop_last() =~= items);
}

/// Whether two strings hold the same characters.
pub fn same_text(a: &str, b: &str) -> (r: bool)
    ensures
        r == (a@ == b@),
{
    let n = a.unicode_len();
    if n != b.unicode_len() {
        return false;
    }
    let mut i: usize = 0;
    while i < n
        invariant
            n == a@.len(),
            n == b@.len(),
            i <= n,
            forall|k: int| 0 <= k < i ==> a@[k] == b@[k],
        decreases n - i,
    {
        if a.get_char(i) != b.get_char(i) {
            return false;
        }
        i = i + 1;
    }
    assert(a@ =~= b@);
    true
}

/// Appends the field `key: value` to an object's field list.
pub fn push_field(fields: &mut Vec<(String, Json)>, key: &str, value: Json)
    ensures
        fields_model(final(fields)@) == fields_model(old(fields)@).push((key@, value@)),
        final(fields)@.len() == old(fields)@.len() + 1,
{
    let k = String::from_str(key);
    proof {
        lemma_fields_push(fields@, (k, value));
    }
    fields.push((k, value));
}

/// Appends an item to an array's item list.
pub fn push_item(items: &mut Vec<Json>, value: Json)
    ensures
        items_model(final(items)@) == items_model(old(items)@).push(value@),
{
    proof {
        lemma_items_push(items@, value);
    }
    items.push(value);
}

fn digit_str(d: u64) -> (r: &'static str)
    requires
        d < 10,
    ensures
        r@ == seq![digit_char(d as nat)],
{
    if d == 0 {
        proof { reveal_strlit("0"); }
        "0"
    } else if d == 1 {
        proof { reveal_strlit("1"); }
        "1"
    } else if d == 2 {
        proof { reveal_strlit("2"); }
        "2"
    } else if d == 3 {
        proof { reveal_strlit("3"); }
        "3"
    } else if d == 4 {
        proof { reveal_strlit("4"); }
        "4"
    } else if d == 5 {
        proof { reveal_strlit("5"); }
        "5"
    } else if d == 6 {
        proof { reveal_strlit("6"); }
        "6"
    } else if d == 7 {
        proof { reveal_strlit("7"); }
        "7"
    } else if d == 8 {
        proof { reveal_strlit("8"); }
        "8"
    } else {
        proof { reveal_strlit("9"); }
        "9"
    }
}

/// Decimal text of `n`.
pub fn decimal_text(n: u64) -> (r: String)
    ensures
        r@ == decimal(n as nat),
    decreases n,
{
    if n < 10 {
        String::from_str(digit_str(n))
    } else {
        let mut s = decimal_text(n / 10);
        s.append(digit_str(n % 10));
        s
    }
}

/// Reads a run of decimal digits; `None` when the text is not one or the
/// number does not fit in a `u64`.
pub fn parse_digits(s: &str) -> (r: Option<u64>)
    ensures
        r matches Some(v) ==> is_digits(s@) && v == digits_value(s@),
        r is None ==> !is_digits(s@) || digits_value(s@) > u64::MAX,
{
    let n = s.unicode_len();
    if n == 0 {
        return None;
    }
    let mut acc: u64 = 0;
    let mut i: usize = 0;
    while i < n
        invariant
            n == s@.len(),
            i <= n,
            forall|k: int| 0 <= k < i ==> is_digit(#[trigger] s@[k]),
            acc == digits_value(s@.subrange(0, i as int)),
        decreases n - i,
    {
        let c = s.get_char(i);
        assert(s@.subrange(0, i + 1).drop_last() =~= s@.subrange(0, i as int));
        if c < '0' || c > '9' {
            return None;
        }
        let d = (c as u32 - '0' as u32) as u64;
        if acc > (u64::MAX - d) / 10 {
            proof {
                lemma_digits_value_prefix_grows(s@, i as int + 1, n as int);
            }
            return None;
        }
        acc = acc * 10 + d;
        i = i + 1;
    }
    assert(s@.subrange(0, n as int) =~= s@);
    Some(acc)
}

proof fn lemma_digits_value_prefix_grows(s: Seq<char>, i: int, n: int)
    requires
        0 < i <= n,
        n == s.len(),
        forall|k: int| 0 <= k < i ==> is_digit(#[trigger] s[k]),
    ensures
        is_digits(s) ==> digits_value(s.subrange(0, i)) <= digits_value(s),
    decreases n - i,
{
    if i < n && is_digits(s) {
        lemma_digits_value_prefix_grows(s, i + 1, n);
        assert(s.subrange(0, i + 1).drop_last() =~= s.subrange(0, i));
    }
    if i == n {
        assert(s.subrange(0, i) =~= s);
    }
}

impl Json {
    /// A JSON string holding `s`.
    pub fn text(s: &str) -> (r: Json)
        ensures
            r@ == JsonModel::Str(s@),
    {
        Json::Str(String::from_str(s))
    }

    /// A JSON number holding `n`.
    pub fn unsigned(n: u64) -> (r: Json)
        ensures
            r@ == JsonModel::Num(decimal(n as nat)),
    {
        Json::Num(decimal_text(n))
    }

    /// A JSON number holding `i`.
    pub fn signed(i: i64) -> (r: Json)
        ensures
            r@ == JsonModel::Num(signed_decimal(i as int)),
    {
        if i < 0 {
            let magnitude: u64 = if i == i64::MIN {
                9223372036854775808u64
            } else {
                (-i) as u64
            };
            let mut s = String::from_str("-");
            proof { reveal_strlit("-"); }
            assert(magnitude as int == -(i as int));
            let digits = decimal_text(magnitude);
            assert(s@ == seq!['-']);
            s.append(digits.as_str());
            assert(s@ == seq!['-'] + decimal(magnitude as nat));
            Json::Num(s)
        } else {
            Json::Num(decimal_text(i as u64))
        }
    }

    /// An object with no members.
    pub fn empty_object() -> (r: Json)
        ensures
            r@ == JsonModel::Object(Seq::empty()),
    {
        Json::Object(Vec::new())
    }

    /// The member `key` of an object.
    pub fn get(&self, key: &str) -> (r: Option<&Json>)
        ensures
            r matches Some(v) ==> self@.member(key@) == Some(v@),
            r is None ==> self@.member(key@) is None,
    {
        match self {
            Json::Object(fields) => {
                proof {
                    lemma_fields_model(fields@);
                }
                let ghost m = fields_model(fields@);
                assert(m.subrange(0, m.len() as int) =~= m);
                let mut i: usize = 0;
                while i < fields.len()
                    invariant
                        *self == Json::Object(*fields),
                        m == fields_model(fields@),
                        m.len() == fields@.len(),
                        forall|k: int| 0 <= k < fields@.len() ==> #[trigger] m[k] == (fields@[k].0@, model_of(fields@[k].1)),
                        i <= fields@.len(),
                        lookup(m, key@) == lookup(m.subrange(i as int, m.len() as int), key@),
                    decreases fields@.len() - i,
                {
                    let ghost rest = m.subrange(i as int, m.len() as int);
                    assert(rest[0] == m[i as int]);
                    assert(rest.drop_first() =~= m.subrange(i + 1, m.len() as int));
                    if same_text(fields[i].0.as_str(), key) {
                        return Some(&fields[i].1);
                    }
                    i = i + 1;
                }
                None
            },
            _ => None,
        }
    }

    /// The text of a JSON string.
    pub fn as_text(&self) -> (r: Option<&String>)
        ensures
            r matches Some(s) ==> self@ == JsonModel::Str(s@),
            r is None ==> !(self@ is Str),
    {
        match self {
            Json::Str(s) => Some(s),
            _ => None,
        }
    }

    /// A copy of this value, member by member.
    pub fn duplicate(&self) -> (r: Json)
        ensures
            r@ == self@,
        decreases self,
    {
        match self {
            Json::Null => Json::Null,
            Json::Bool(b) => Json::Bool(*b),
            Json::Num(t) => Json::Num(t.clone()),
            Json::Str(s) => Json::Str(s.clone()),
            Json::Array(items) => {
                assert forall|k: int| 0 <= k < items@.len() implies decreases_to!(*self => #[trigger] items@[k]) by {
                    assert(decreases_to!(*self => items@));
                    assert(decreases_to!(items@ => items@[k]));
                }
                let mut out: Vec<Json> = Vec::new();
                let mut i: usize = 0;
                while i < items.len()
                    invariant
                        *self == Json::Array(*items),
                        forall|k: int| 0 <= k < items@.len() ==> decreases_to!(*self => #[trigger] items@[k]),
                        i <= items@.len(),
                        items_model(out@) == items_model(items@.subrange(0, i as int)),
                    decreases items@.len() - i,
                {
                    let c = items[i].duplicate();
                    push_item(&mut out, c);
                    assert(items@.subrange(0, i + 1).drop_last() =~= items@.subrange(0, i as int));
                    i = i + 1;
                }
                assert(items@.subrange(0, items@.len() as int) =~= items@);
                Json::Array(out)
            },
            Json::Object(fields) => {
                assert forall|k: int| 0 <= k < fields@.len() implies decreases_to!(*self => #[trigger] fields@[k].1) by {
                    assert(decreases_to!(*self => fields@));
                    assert(decreases_to!(fields@ => fields@[k]));
                    assert(decreases_to!(fields@[k] => fields@[k].1));
                }
                let mut out: Vec<(String, Json)> = Vec::new();
                let mut i: usize = 0;
                while i < fields.len()
                    invariant
                        *self == Json::Object(*fields),
                        forall|k: int| 0 <= k < fields@.len() ==> decreases_to!(*self => #[trigger] fields@[k].1),
                        i <= fields@.len(),
                        fields_model(out@) == fields_model(fields@.subrange(0, i as int)),
                    decreases fields@.len() - i,
                {
                    let c = fields[i].1.duplicate();
                    let k = fields[i].0.clone();
                    proof {
                        lemma_fields_push(out@, (k, c));
                    }
                    out.push((k, c));
                    assert(fields@.subrange(0, i + 1).drop_last() =~= fields@.subrange(0, i as int));
                    i = i + 1;
                }
                assert(fields@.subrange(0, fields@.len() as int) =~= fields@);
                Json::Object(out)
            },
        }
    }
}

} // verus!
