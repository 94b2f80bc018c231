//! The values that flow through a pipeline.
//!
//! A [`Value`] is a closed tagged union of scalars and composites. Contracts
//! speak of a value through its view, a [`ValueView`], in which a string is a
//! sequence of characters and a list a sequence of views.
use vstd::prelude::*;
use crate::text::chars_of;

verus! {

/// An instant: the seconds since the Unix epoch and the nanoseconds into that
/// second.
#[derive(Clone, Copy, Debug, PartialEq, Eq, Structural)]
pub struct DateTime {
    pub seconds: i64,
    pub nanos: u32,
}

/// How one value stands to another of its family.
#[derive(Clone, Copy, Debug, PartialEq, Eq, Structural)]
pub enum Order {
    Less,
    Equal,
    Greater,
}

/// A scalar or composite value.
///
/// The dictionary keeps its entries in the order in which they were written.
#[derive(Debug, PartialEq)]
pub enum Value {
    Null,
    Bool(bool),
    I8(i8),
    I16(i16),
    I32(i32),
    I64(i64),
    I128(i128),
    U8(u8),
    U16(u16),
    U32(u32),
    U64(u64),
    U128(u128),
    String(String),
    DateTime(DateTime),
    ObjectId(String),
    Vec(Vec<Value>),
    Dictionary(Vec<(String, Value)>),
}

/// The mathematical content of a [`Value`].
pub enum ValueView {
    Null,
    Bool(bool),
    I8(i8),
    I16(i16),
    I32(i32),
    I64(i64),
    I128(i128),
    U8(u8),
    U16(u16),
    U32(u32),
    U64(u64),
    U128(u128),
    String(Seq<char>),
    DateTime(DateTime),
    ObjectId(Seq<char>),
    Vec(Seq<ValueView>),
    Dictionary(Seq<(Seq<char>, ValueView)>),
}

/// The order of two integers.
pub open spec fn number_order(a: int, b: int) -> Order {
    if a < b {
        Order::Less
    } else if a == b {
        Order::Equal
    } else {
        Order::Greater
    }
}

/// The lexicographic order of two strings, character by character, a character
/// counting as its code point.
pub open spec fn text_order(a: Seq<char>, b: Seq<char>) -> Order
    decreases a.len(),
{
    if a.len() == 0 {
        if b.len() == 0 {
            Order::Equal
        } else {
            Order::Less
        }
    } else if b.len() == 0 {
        Order::Greater
    } else if a[0] < b[0] {
        Order::Less
    } else if a[0] > b[0] {
        Order::Greater
    } else {
        text_order(a.skip(1), b.skip(1))
    }
}

impl ValueView {
    /// The integer that a numeric value holds, whatever its width.
    pub open spec fn number(self) -> Option<int> {
        match self {
            ValueView::I8(n) => Some(n as int),
            ValueView::I16(n) => Some(n as int),
            ValueView::I32(n) => Some(n as int),
            ValueView::I64(n) => Some(n as int),
            ValueView::I128(n) => Some(n as int),
            ValueView::U8(n) => Some(n as int),
            ValueView::U16(n) => Some(n as int),
            ValueView::U32(n) => Some(n as int),
            ValueView::U64(n) => Some(n as int),
            ValueView::U128(n) => Some(n as int),
            _ => None,
        }
    }

    /// Whether the integer `n` can be held in the variant of `self`.
    pub open spec fn holds(self, n: int) -> bool {
        match self {
            ValueView::I8(_) => i8::MIN <= n <= i8::MAX,
            ValueView::I16(_) => i16::MIN <= n <= i16::MAX,
            ValueView::I32(_) => i32::MIN <= n <= i32::MAX,
            ValueView::I64(_) => i64::MIN <= n <= i64::MAX,
            ValueView::I128(_) => i128::MIN <= n <= i128::MAX,
            ValueView::U8(_) => 0 <= n <= u8::MAX,
            ValueView::U16(_) => 0 <= n <= u16::MAX,
            ValueView::U32(_) => 0 <= n <= u32::MAX,
            ValueView::U64(_) => 0 <= n <= u64::MAX,
            ValueView::U128(_) => 0 <= n <= u128::MAX,
            _ => false,
        }
    }

    /// The value of the same variant as `self` that holds the integer `n`; `self`
    /// where it is no number.
    pub open spec fn with_number(self, n: int) -> ValueView {
        match self {
            ValueView::I8(_) => ValueView::I8(n as i8),
            ValueView::I16(_) => ValueView::I16(n as i16),
            ValueView::I32(_) => ValueView::I32(n as i32),
            ValueView::I64(_) => ValueView::I64(n as i64),
            ValueView::I128(_) => ValueView::I128(n as i128),
            ValueView::U8(_) => ValueView::U8(n as u8),
            ValueView::U16(_) => ValueView::U16(n as u16),
            ValueView::U32(_) => ValueView::U32(n as u32),
            ValueView::U64(_) => ValueView::U64(n as u64),
            ValueView::U128(_) => ValueView::U128(n as u128),
            _ => self,
        }
    }

    /// The characters of a string value.
    pub open spec fn text(self) -> Option<Seq<char>> {
        match self {
            ValueView::String(s) => Some(s),
            _ => None,
        }
    }

    /// How `self` stands to `other`: numbers by the integers they hold, whatever
    /// their widths, strings lexicographically. Values of different families,
    /// and of the other families, are not ordered.
    pub open spec fn order(self, other: ValueView) -> Option<Order> {
        match (self.number(), other.number()) {
            (Some(a), Some(b)) => Some(number_order(a, b)),
            _ => match (self, other) {
                (ValueView::String(a), ValueView::String(b)) => Some(text_order(a, b)),
                _ => None,
            },
        }
    }

    /// The number of items in a string (its characters) or in a list.
    pub open spec fn length(self) -> Option<nat> {
        match self {
            ValueView::String(s) => Some(s.len()),
            ValueView::Vec(v) => Some(v.len()),
            _ => None,
        }
    }
}

/// The mathematical content of `value`.
pub open spec fn content(value: Value) -> ValueView
    decreases value,
{
    match value {
        Value::Null => ValueView::Null,
            Value::Bool(b) => ValueView::Bool(b),
            Value::I8(n) => ValueView::I8(n),
            Value::I16(n) => ValueView::I16(n),
            Value::I32(n) => ValueView::I32(n),
            Value::I64(n) => ValueView::I64(n),
            Value::I128(n) => ValueView::I128(n),
            Value::U8(n) => ValueView::U8(n),
            Value::U16(n) => ValueView::U16(n),
            Value::U32(n) => ValueView::U32(n),
            Value::U64(n) => ValueView::U64(n),
            Value::U128(n) => ValueView::U128(n),
            Value::String(s) => ValueView::String(s@),
            Value::DateTime(d) => ValueView::DateTime(d),
            Value::ObjectId(s) => ValueView::ObjectId(s@),
            Value::Vec(v) => ValueView::Vec(
                Seq::new(
                    v@.len(),
                    |i: int|
                        if 0 <= i < v@.len() {
                            content(v@[i])
                        } else {
                            ValueView::Null
                        },
                ),
            ),
            Value::Dictionary(m) => ValueView::Dictionary(
                Seq::new(
                    m@.len(),
                    |i: int|
                        if 0 <= i < m@.len() {
                            (m@[i].0@, content(m@[i].1))
                        } else {
                            (Seq::empty(), ValueView::Null)
                        },
                ),
            ),
    }
}

impl View for Value {
    type V = ValueView;

    open spec fn view(&self) -> ValueView {
        content(*self)
    }
}

/// The views of the values of a list, in order.
pub open spec fn views(items: Seq<Value>) -> Seq<ValueView> {
    Seq::new(items.len(), |i: int| items[i]@)
}

impl Clone for Value {
    fn clone(&self) -> (r: Self)
        ensures
            r@ == self@,
        decreases self,
    {
        match self {
            Value::Null => Value::Null,
            Value::Bool(b) => Value::Bool(*b),
            Value::I8(n) => Value::I8(*n),
            Value::I16(n) => Value::I16(*n),
            Value::I32(n) => Value::I32(*n),
            Value::I64(n) => Value::I64(*n),
            Value::I128(n) => Value::I128(*n),
            Value::U8(n) => Value::U8(*n),
            Value::U16(n) => Value::U16(*n),
            Value::U32(n) => Value::U32(*n),
            Value::U64(n) => Value::U64(*n),
            Value::U128(n) => Value::U128(*n),
            Value::String(s) => Value::String(s.clone()),
            Value::DateTime(d) => Value::DateTime(*d),
            Value::ObjectId(s) => Value::ObjectId(s.clone()),
            Value::Vec(v) => {
                let mut out: Vec<Value> = Vec::new();
                let mut i: usize = 0;
                while i < v.len()
                    invariant
                        i <= v.len(),
                        *self is Vec,
                        self->Vec_0 == *v,
                        out.len() == i,
                        forall|j: int| 0 <= j < i ==> out[j]@ == v[j]@,
                    decreases v.len() - i,
                {
                    proof {
                        vstd::std_specs::vec::axiom_vec_index_decreases(*v, i as int);
                    }
                    out.push(v[i].clone());
                    i += 1;
                }
                let r = Value::Vec(out);
                assert(r@->Vec_0 =~= self@->Vec_0);
                r
            },
            Value::Dictionary(m) => {
                let mut out: Vec<(String, Value)> = Vec::new();
                let mut i: usize = 0;
                while i < m.len()
                    invariant
                        i <= m.len(),
                        *self is Dictionary,
                        self->Dictionary_0 == *m,
                        out.len() == i,
                        forall|j: int|
                            0 <= j < i ==> out[j].0@ == m[j].0@ && out[j].1@ == m[j].1@,
                    decreases m.len() - i,
                {
                    proof {
                        vstd::std_specs::vec::axiom_vec_index_decreases(*m, i as int);
                    }
                    out.push((m[i].0.clone(), m[i].1.clone()));
                    i += 1;
                }
                let r = Value::Dictionary(out);
                assert(r@->Dictionary_0 =~= self@->Dictionary_0);
                r
            },
        }
    }
}

/// An integer of any of the widths of [`Value`]: one within the signed range of
/// 128 bits, or one that is held without a sign.
#[derive(Clone, Copy, Debug, PartialEq, Eq, Structural)]
pub enum Whole {
    Within(i128),
    Above(u128),
}

impl Whole {
    /// The integer that is held.
    pub open spec fn amount(self) -> int {
        match self {
            Whole::Within(n) => n as int,
            Whole::Above(n) => n as int,
        }
    }

    /// How the integer stands to `other`.
    pub fn compare(&self, other: &Whole) -> (r: Order)
        ensures
            r == number_order(self.amount(), other.amount()),
    {
        match (*self, *other) {
            (Whole::Within(a), Whole::Within(b)) => if a < b {
                Order::Less
            } else if a == b {
                Order::Equal
            } else {
                Order::Greater
            },
            (Whole::Within(a), Whole::Above(b)) => if a < 0 {
                Order::Less
            } else if (a as u128) < b {
                Order::Less
            } else if a as u128 == b {
                Order::Equal
            } else {
                Order::Greater
            },
            (Whole::Above(a), Whole::Within(b)) => if b < 0 {
                Order::Greater
            } else if a < b as u128 {
                Order::Less
            } else if a == b as u128 {
                Order::Equal
            } else {
                Order::Greater
            },
            (Whole::Above(a), Whole::Above(b)) => if a < b {
                Order::Less
            } else if a == b {
                Order::Equal
            } else {
                Order::Greater
            },
        }
    }
}

/// Compares two strings given as vectors of characters.
fn compare_chars(a: &Vec<char>, b: &Vec<char>) -> (r: Order)
    ensures
        r == text_order(a@, b@),
{
    let mut i: usize = 0;
    assert(a@.skip(0) =~= a@ && b@.skip(0) =~= b@);
    loop
        invariant
            i <= a.len(),
            i <= b.len(),
            text_order(a@, b@) == text_order(a@.skip(i as int), b@.skip(i as int)),
        decreases a.len() - i,
    {
        if i == a.len() {
            if i == b.len() {
                return Order::Equal;
            }
            return Order::Less;
        }
        if i == b.len() {
            return Order::Greater;
        }
        proof {
            assert(a@.skip(i as int).skip(1) =~= a@.skip(i + 1));
            assert(b@.skip(i as int).skip(1) =~= b@.skip(i + 1));
        }
        if a[i] < b[i] {
            return Order::Less;
        }
        if a[i] > b[i] {
            return Order::Greater;
        }
        i += 1;
    }
}

impl Value {
    /// Whether the value is null.
    pub fn is_null(&self) -> (r: bool)
        ensures
            r == (self@ is Null),
    {
        match self {
            Value::Null => true,
            _ => false,
        }
    }

    /// The boolean of a boolean value.
    pub fn as_bool(&self) -> (r: Option<bool>)
        ensures
            r == (match self@ {
                ValueView::Bool(b) => Some(b),
                _ => None,
            }),
    {
        match self {
            Value::Bool(b) => Some(*b),
            _ => None,
        }
    }

    /// The text of a string value.
    pub fn as_str(&self) -> (r: Option<&str>)
        ensures
            r is Some == self@.text() is Some,
            r matches Some(s) ==> Some(s@) == self@.text(),
    {
        match self {
            Value::String(s) => Some(s.as_str()),
            _ => None,
        }
    }

    /// The items of a list value.
    pub fn as_vec(&self) -> (r: Option<&Vec<Value>>)
        ensures
            r is Some == self@ is Vec,
            r matches Some(v) ==> self@ == ValueView::Vec(views(v@)),
    {
        match self {
            Value::Vec(v) => {
                assert(self@->Vec_0 =~= views(v@));
                Some(v)
            },
            _ => None,
        }
    }

    /// The integer of a numeric value, whatever its width.
    pub fn as_whole(&self) -> (r: Option<Whole>)
        ensures
            r is Some == self@.number() is Some,
            r matches Some(w) ==> self@.number() == Some(w.amount()),
            r matches Some(Whole::Above(u)) ==> u > i128::MAX,
    {
        match self {
            Value::U128(n) => if *n <= i128::MAX as u128 {
                Some(Whole::Within(*n as i128))
            } else {
                Some(Whole::Above(*n))
            },
            _ => match self.as_number() {
                Some(n) => Some(Whole::Within(n)),
                None => None,
            },
        }
    }

    /// The integer of a numeric value, whatever its width, where it is not
    /// above the signed range of 128 bits.
    pub fn as_number(&self) -> (r: Option<i128>)
        ensures
            r == (match self@.number() {
                Some(n) if n <= i128::MAX => Some(n as i128),
                _ => None,
            }),
    {
        match self {
            Value::I128(n) => Some(*n),
            Value::U128(n) => if *n <= i128::MAX as u128 {
                Some(*n as i128)
            } else {
                None
            },
            Value::I8(n) => Some(*n as i128),
            Value::I16(n) => Some(*n as i128),
            Value::I32(n) => Some(*n as i128),
            Value::I64(n) => Some(*n as i128),
            Value::U8(n) => Some(*n as i128),
            Value::U16(n) => Some(*n as i128),
            Value::U32(n) => Some(*n as i128),
            Value::U64(n) => Some(*n as i128),
            _ => None,
        }
    }

    /// The value as a count: the integer of a numeric value that is not
    /// negative and fits in `usize`.
    pub fn as_usize(&self) -> (r: Option<usize>)
        ensures
            r == (match self@.number() {
                Some(n) if 0 <= n <= usize::MAX => Some(n as usize),
                _ => None,
            }),
    {
        match self.as_number() {
            Some(n) => {
                if 0 <= n && n <= usize::MAX as i128 {
                    Some(n as usize)
                } else {
                    None
                }
            },
            None => None,
        }
    }

    /// The value of the variant of `self` that holds `n`, where that variant is
    /// numeric and wide enough.
    pub fn with_number(&self, n: i128) -> (r: Option<Value>)
        ensures
            r is Some == self@.holds(n as int),
            r matches Some(v) ==> v@ == self@.with_number(n as int),
    {
        match self {
            Value::I8(_) => if i8::MIN as i128 <= n && n <= i8::MAX as i128 {
                Some(Value::I8(n as i8))
            } else {
                None
            },
            Value::I16(_) => if i16::MIN as i128 <= n && n <= i16::MAX as i128 {
                Some(Value::I16(n as i16))
            } else {
                None
            },
            Value::I32(_) => if i32::MIN as i128 <= n && n <= i32::MAX as i128 {
                Some(Value::I32(n as i32))
            } else {
                None
            },
            Value::I64(_) => if i64::MIN as i128 <= n && n <= i64::MAX as i128 {
                Some(Value::I64(n as i64))
            } else {
                None
            },
            Value::U8(_) => if 0 <= n && n <= u8::MAX as i128 {
                Some(Value::U8(n as u8))
            } else {
                None
            },
            Value::U16(_) => if 0 <= n && n <= u16::MAX as i128 {
                Some(Value::U16(n as u16))
            } else {
                None
            },
            Value::U32(_) => if 0 <= n && n <= u32::MAX as i128 {
                Some(Value::U32(n as u32))
            } else {
                None
            },
            Value::U64(_) => if 0 <= n && n <= u64::MAX as i128 {
                Some(Value::U64(n as u64))
            } else {
                None
            },
            Value::I128(_) => Some(Value::I128(n)),
            Value::U128(_) => if 0 <= n {
                Some(Value::U128(n as u128))
            } else {
                None
            },
            _ => None,
        }
    }

    /// The value of the variant of `self` that holds `w`, where that variant is
    /// numeric and wide enough.
    pub fn with_whole(&self, w: Whole) -> (r: Option<Value>)
        ensures
            r is Some == self@.holds(w.amount()),
            r matches Some(v) ==> v@ == self@.with_number(w.amount()),
    {
        match w {
            Whole::Within(n) => self.with_number(n),
            Whole::Above(u) => if u <= i128::MAX as u128 {
                self.with_number(u as i128)
            } else {
                match self {
                    Value::U128(_) => Some(Value::U128(u)),
                    _ => None,
                }
            },
        }
    }

    /// How `self` stands to `other`, where the two are of one ordered family.
    pub fn compare(&self, other: &Value) -> (r: Option<Order>)
        ensures
            r == self@.order(other@),
    {
        match (self.as_whole(), other.as_whole()) {
            (Some(a), Some(b)) => Some(a.compare(&b)),
            _ => match (self, other) {
                (Value::String(a), Value::String(b)) => {
                    let x = chars_of(a.as_str());
                    let y = chars_of(b.as_str());
                    Some(compare_chars(&x, &y))
                },
                _ => None,
            },
        }
    }
}

} // verus!

verus! {

/// The entries of a dictionary as pairs of key and content.
pub open spec fn pairs(entries: Seq<(String, Value)>) -> Seq<(Seq<char>, ValueView)> {
    Seq::new(entries.len(), |i: int| (entries[i].0@, entries[i].1@))
}

/// The place of the first entry of `entries` under `key`, or the number of
/// entries where none stands under it.
pub open spec fn entry_place(entries: Seq<(Seq<char>, ValueView)>, key: Seq<char>) -> int
    decreases entries.len(),
{
    if entries.len() == 0 {
        0
    } else if entries[0].0 == key {
        0
    } else {
        1 + entry_place(entries.skip(1), key)
    }
}

/// The place of the first entry under `key` is `k`, where no entry before `k`
/// stands under the key and the one at `k`, if there is one, does.
pub proof fn entry_place_is(entries: Seq<(Seq<char>, ValueView)>, key: Seq<char>, k: int)
    requires
        0 <= k <= entries.len(),
        forall|j: int| 0 <= j < k ==> (#[trigger] entries[j]).0 != key,
        k < entries.len() ==> entries[k].0 == key,
    ensures
        entry_place(entries, key) == k,
    decreases entries.len(),
{
    if k > 0 {
        let rest = entries.skip(1);
        assert(entries[0].0 != key);
        assert forall|j: int| 0 <= j < k - 1 implies (#[trigger] rest[j]).0 != key by {
            assert(rest[j] == entries[j + 1]);
        }
        entry_place_is(rest, key, k - 1);
    }
}

impl ValueView {
    /// The entry of a dictionary under `key`: the first, where there are
    /// several.
    pub open spec fn entry(self, key: Seq<char>) -> Option<ValueView> {
        match self {
            ValueView::Dictionary(entries) => {
                let i = entry_place(entries, key);
                if 0 <= i < entries.len() {
                    Some(entries[i].1)
                } else {
                    None
                }
            },
            _ => None,
        }
    }

    /// The dictionary with `value` under `key`: in place of the first entry
    /// under the key, or behind the last entry where none is under it. A value
    /// that is no dictionary stays as it is.
    pub open spec fn with_entry(self, key: Seq<char>, value: ValueView) -> ValueView {
        match self {
            ValueView::Dictionary(entries) => {
                let i = entry_place(entries, key);
                if 0 <= i < entries.len() {
                    ValueView::Dictionary(entries.update(i, (key, value)))
                } else {
                    ValueView::Dictionary(entries.push((key, value)))
                }
            },
            _ => self,
        }
    }
}

impl Value {
    /// The dictionary without entries.
    pub fn empty_dictionary() -> (r: Value)
        ensures
            r@ == ValueView::Dictionary(Seq::empty()),
    {
        let r = Value::Dictionary(Vec::new());
        assert(r@->Dictionary_0 =~= Seq::empty());
        r
    }

    /// Whether the value is a dictionary.
    pub fn is_dictionary(&self) -> (r: bool)
        ensures
            r == (self@ is Dictionary),
    {
        match self {
            Value::Dictionary(_) => true,
            _ => false,
        }
    }

    /// Whether the value is a list.
    pub fn is_vec(&self) -> (r: bool)
        ensures
            r == (self@ is Vec),
    {
        match self {
            Value::Vec(_) => true,
            _ => false,
        }
    }

    /// The place of the first entry of `entries` under `key`.
    fn find_entry(entries: &Vec<(String, Value)>, key: &str) -> (r: Option<usize>)
        ensures
            match r {
                Some(i) => i < entries.len() && entry_place(pairs(entries@), key@) == i,
                None => entry_place(pairs(entries@), key@) == entries.len(),
            },
    {
        let mut i: usize = 0;
        while i < entries.len()
            invariant
                i <= entries.len(),
                forall|j: int| 0 <= j < i ==> (#[trigger] pairs(entries@)[j]).0 != key@,
            decreases entries.len() - i,
        {
            if crate::collections::same_text(entries[i].0.as_str(), key) {
                proof {
                    entry_place_is(pairs(entries@), key@, i as int);
                }
                return Some(i);
            }
            i += 1;
        }
        proof {
            entry_place_is(pairs(entries@), key@, entries.len() as int);
        }
        None
    }

    /// The entry of a dictionary under `key`.
    pub fn get(&self, key: &str) -> (r: Option<&Value>)
        ensures
            r is Some == self@.entry(key@) is Some,
            r matches Some(v) ==> self@.entry(key@) == Some(v@),
    {
        match self {
            Value::Dictionary(entries) => {
                assert(self@->Dictionary_0 =~= pairs(entries@));
                match Self::find_entry(entries, key) {
                    Some(i) => Some(&entries[i].1),
                    None => None,
                }
            },
            _ => None,
        }
    }

    /// Puts `value` under `key` in a dictionary.
    pub fn with_entry(self, key: &str, value: Value) -> (r: Value)
        ensures
            r@ == self@.with_entry(key@, value@),
    {
        match self {
            Value::Dictionary(entries) => {
                let ghost before = pairs(entries@);
                assert(self@->Dictionary_0 =~= before);
                let mut entries = entries;
                match Self::find_entry(&entries, key) {
                    Some(i) => {
                        entries.set(i, (String::from_str(key), value));
                        assert(pairs(entries@) =~= before.update(i as int, (key@, value@)));
                    },
                    None => {
                        entries.push((String::from_str(key), value));
                        assert(pairs(entries@) =~= before.push((key@, value@)));
                    },
                }
                let r = Value::Dictionary(entries);
                assert(r@->Dictionary_0 =~= pairs(entries@));
                r
            },
            other => other,
        }
    }
}

} // verus!

verus! {

/// Whether two values are the same: numbers where they hold the same integer,
/// whatever their widths; lists where they hold the same values, item by item;
/// dictionaries where they hold the same entries in the same order; all other
/// values where they are of one variant and hold the same.
pub open spec fn same(a: ValueView, b: ValueView) -> bool
    decreases a,
{
    match (a.number(), b.number()) {
        (Some(x), Some(y)) => x == y,
        (None, None) => match (a, b) {
            (ValueView::Vec(x), ValueView::Vec(y)) => x.len() == y.len() && forall|i: int|
                0 <= i < x.len() ==> same(#[trigger] x[i], y[i]),
            (ValueView::Dictionary(x), ValueView::Dictionary(y)) => x.len() == y.len()
                && forall|i: int|
                0 <= i < x.len() ==> (#[trigger] x[i]).0 == y[i].0 && same(x[i].1, y[i].1),
            (ValueView::Vec(_), _) => false,
            (ValueView::Dictionary(_), _) => false,
            (_, ValueView::Vec(_)) => false,
            (_, ValueView::Dictionary(_)) => false,
            _ => a == b,
        },
        _ => false,
    }
}

/// Every value is the same as itself.
pub proof fn same_as_itself(a: ValueView)
    ensures
        same(a, a),
    decreases a,
{
    match a {
        ValueView::Vec(x) => {
            assert forall|i: int| 0 <= i < x.len() implies same(#[trigger] x[i], x[i]) by {
                same_as_itself(x[i]);
            }
        },
        ValueView::Dictionary(x) => {
            assert forall|i: int| 0 <= i < x.len() implies (#[trigger] x[i]).0 == x[i].0 && same(
                x[i].1,
                x[i].1,
            ) by {
                same_as_itself(x[i].1);
            }
        },
        _ => {},
    }
}

impl Value {
    /// Whether the value is the same as `other`.
    pub fn equals(&self, other: &Value) -> (r: bool)
        ensures
            r == same(self@, other@),
        decreases self,
    {
        match (self.as_whole(), other.as_whole()) {
            (Some(x), Some(y)) => {
                return match x.compare(&y) {
                    Order::Equal => true,
                    _ => false,
                };
            },
            (None, None) => {},
            _ => {
                return false;
            },
        }
        match (self, other) {
            (Value::Null, Value::Null) => true,
            (Value::Bool(x), Value::Bool(y)) => *x == *y,
            (Value::String(x), Value::String(y)) => *x == *y,
            (Value::DateTime(x), Value::DateTime(y)) => x.seconds == y.seconds && x.nanos
                == y.nanos,
            (Value::ObjectId(x), Value::ObjectId(y)) => *x == *y,
            (Value::Vec(x), Value::Vec(y)) => {
                assert(self@->Vec_0 =~= views(x@));
                assert(other@->Vec_0 =~= views(y@));
                if x.len() != y.len() {
                    return false;
                }
                let mut i: usize = 0;
                while i < x.len()
                    invariant
                        i <= x.len(),
                        x.len() == y.len(),
                        *self is Vec,
                        self->Vec_0 == *x,
                        self@ == ValueView::Vec(views(x@)),
                        other@ == ValueView::Vec(views(y@)),
                        forall|j: int| 0 <= j < i ==> same(#[trigger] views(x@)[j], views(y@)[j]),
                    decreases x.len() - i,
                {
                    proof {
                        vstd::std_specs::vec::axiom_vec_index_decreases(*x, i as int);
                    }
                    if !x[i].equals(&y[i]) {
                        assert(!same(views(x@)[i as int], views(y@)[i as int]));
                        return false;
                    }
                    i += 1;
                }
                true
            },
            (Value::Dictionary(x), Value::Dictionary(y)) => {
                assert(self@->Dictionary_0 =~= pairs(x@));
                assert(other@->Dictionary_0 =~= pairs(y@));
                if x.len() != y.len() {
                    return false;
                }
                let mut i: usize = 0;
                while i < x.len()
                    invariant
                        i <= x.len(),
                        x.len() == y.len(),
                        *self is Dictionary,
                        self->Dictionary_0 == *x,
                        self@ == ValueView::Dictionary(pairs(x@)),
                        other@ == ValueView::Dictionary(pairs(y@)),
                        forall|j: int|
                            0 <= j < i ==> (#[trigger] pairs(x@)[j]).0 == pairs(y@)[j].0 && same(
                                pairs(x@)[j].1,
                                pairs(y@)[j].1,
                            ),
                    decreases x.len() - i,
                {
                    proof {
                        vstd::std_specs::vec::axiom_vec_index_decreases(*x, i as int);
                    }
                    if !(x[i].0 == y[i].0) {
                        assert(pairs(x@)[i as int].0 != pairs(y@)[i as int].0);
                        return false;
                    }
                    if !x[i].1.equals(&y[i].1) {
                        assert(!same(pairs(x@)[i as int].1, pairs(y@)[i as int].1));
                        return false;
                    }
                    i += 1;
                }
                true
            },
            _ => false,
        }
    }
}

} // verus!

verus! {

/// Two strings stand equal exactly where they are the same string.
pub proof fn text_order_equal(a: Seq<char>, b: Seq<char>)
    ensures
        text_order(a, b) == Order::Equal <==> a == b,
    decreases a.len(),
{
    if a.len() > 0 && b.len() > 0 {
        text_order_equal(a.skip(1), b.skip(1));
        if a[0] == b[0] && a.skip(1) == b.skip(1) {
            assert(a =~= seq![a[0]] + a.skip(1));
            assert(b =~= seq![b[0]] + b.skip(1));
        }
        if a == b {
            assert(a.skip(1) =~= b.skip(1));
        }
    } else if a.len() == 0 && b.len() == 0 {
        assert(a =~= b);
    }
}

/// One string stands before another exactly where the other stands behind it.
pub proof fn text_order_mirrors(a: Seq<char>, b: Seq<char>)
    ensures
        text_order(a, b) == Order::Less <==> text_order(b, a) == Order::Greater,
        text_order(a, b) == Order::Equal <==> text_order(b, a) == Order::Equal,
    decreases a.len(),
{
    if a.len() > 0 && b.len() > 0 {
        text_order_mirrors(a.skip(1), b.skip(1));
    }
}

/// Two values of one ordered family are ordered both ways, and the one way
/// mirrors the other.
pub proof fn order_mirrors(a: ValueView, b: ValueView)
    ensures
        a.order(b) is Some <==> b.order(a) is Some,
        a.order(b) == Some(Order::Less) <==> b.order(a) == Some(Order::Greater),
        a.order(b) == Some(Order::Equal) <==> b.order(a) == Some(Order::Equal),
{
    match (a, b) {
        (ValueView::String(x), ValueView::String(y)) => {
            text_order_mirrors(x, y);
        },
        _ => {},
    }
}

} // verus!
