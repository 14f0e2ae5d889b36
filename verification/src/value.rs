//! Configuration values and the lenient reader over them.

use vstd::prelude::*;
use vstd::string::*;
use crate::error::{ConfigErrorView, ConfigParsingError};
use crate::path::ConfigPath;
use crate::text::{decimal_text, index_text};
use crate::uint::{decimal_below, limb_base, u256_bound, U256};

verus! {

/// One entry of an object: a key and the value under it.
#[derive(Debug, PartialEq, Eq)]
pub struct ConfigEntry {
    pub key: String,
    pub value: ConfigValue,
}

/// A loosely typed configuration value: a tree of objects, arrays, strings
/// and numbers. In an object the first entry with a given key is the one
/// that is found.
#[derive(Debug, PartialEq, Eq)]
pub enum ConfigValue {
    Null,
    Bool(bool),
    /// A whole number that is not negative.
    Unsigned(u64),
    /// A whole number below zero.
    Negative(i64),
    /// A number that is not whole.
    Fractional,
    Str(String),
    Array(Vec<ConfigValue>),
    Object(Vec<ConfigEntry>),
}

/// What a `ConfigValue` is, with strings and lists as sequences.
pub enum ValueView {
    Null,
    Bool(bool),
    Unsigned(u64),
    Negative(i64),
    Fractional,
    Str(Seq<char>),
    Array(Seq<ValueView>),
    Object(Seq<(Seq<char>, ValueView)>),
}

/// What a configuration value is: the same tree with every string and
/// list as a sequence.
pub open spec fn value_view(v: ConfigValue) -> ValueView
    decreases v,
{
    match v {
        ConfigValue::Null => ValueView::Null,
        ConfigValue::Bool(b) => ValueView::Bool(b),
        ConfigValue::Unsigned(n) => ValueView::Unsigned(n),
        ConfigValue::Negative(n) => ValueView::Negative(n),
        ConfigValue::Fractional => ValueView::Fractional,
        ConfigValue::Str(s) => ValueView::Str(s@),
        ConfigValue::Array(items) => ValueView::Array(
            Seq::new(
                items@.len(),
                |i: int|
                    if 0 <= i < items@.len() {
                        value_view(items@[i])
                    } else {
                        ValueView::Null
                    },
            ),
        ),
        ConfigValue::Object(entries) => ValueView::Object(
            Seq::new(
                entries@.len(),
                |i: int|
                    if 0 <= i < entries@.len() {
                        (entries@[i].key@, value_view(entries@[i].value))
                    } else {
                        (Seq::empty(), ValueView::Null)
                    },
            ),
        ),
    }
}

impl View for ConfigValue {
    type V = ValueView;

    open spec fn view(&self) -> ValueView {
        value_view(*self)
    }
}

impl DeepView for ConfigValue {
    type V = ValueView;

    open spec fn deep_view(&self) -> ValueView {
        self@
    }
}

/// The view of an object lists its entries in order, each as its key and the
/// view of its value.
pub proof fn lemma_object_view(entries: Vec<ConfigEntry>)
    ensures
        ConfigValue::Object(entries)@ is Object,
        ConfigValue::Object(entries)@->Object_0.len() == entries@.len(),
        forall|j: int|
            0 <= j < entries@.len() ==> #[trigger] ConfigValue::Object(entries)@->Object_0[j] == (
                entries@[j].key@,
                entries@[j].value@,
            ),
{
}

/// The view of an array lists the views of its items in order.
pub proof fn lemma_array_view(items: Vec<ConfigValue>)
    ensures
        ConfigValue::Array(items)@ is Array,
        ConfigValue::Array(items)@->Array_0.len() == items@.len(),
        forall|j: int|
            0 <= j < items@.len() ==> #[trigger] ConfigValue::Array(items)@->Array_0[j]
                == items@[j]@,
{
}

/// The first value stored under `key` in a list of object entries.
pub open spec fn find_entry(entries: Seq<(Seq<char>, ValueView)>, key: Seq<char>) -> Option<
    ValueView,
>
    decreases entries.len(),
{
    if entries.len() == 0 {
        None
    } else if entries[0].0 == key {
        Some(entries[0].1)
    } else {
        find_entry(entries.drop_first(), key)
    }
}

/// What a read yields: a value, or none, and the problems that the read
/// records in the sink it is given.
pub struct Read<T> {
    pub value: Option<T>,
    pub errors: Seq<ConfigErrorView>,
}

/// A read that yields `value` and records nothing.
pub open spec fn read_ok<T>(value: T) -> Read<T> {
    Read { value: Some(value), errors: Seq::empty() }
}

/// A read that yields nothing and records nothing.
pub open spec fn read_absent<T>() -> Read<T> {
    Read { value: None, errors: Seq::empty() }
}

/// A read that yields nothing and records one problem.
pub open spec fn read_failed<T>(path: Seq<Seq<char>>, cause: Seq<char>) -> Read<T> {
    Read { value: None, errors: seq![ConfigErrorView { path, cause }] }
}

impl<T> Read<T> {
    /// This read followed by `next` on what it yielded: where this read
    /// yields nothing, `next` is not made.
    pub open spec fn and_then<U>(self, next: spec_fn(T) -> Read<U>) -> Read<U> {
        match self.value {
            Some(v) => Read { value: next(v).value, errors: self.errors + next(v).errors },
            None => Read { value: None, errors: self.errors },
        }
    }
}

/// The cause recorded when a key is looked up in something that is no object.
pub open spec fn cause_not_an_object() -> Seq<char> {
    "Expected an object type"@
}

/// The cause recorded when a required key is not there.
pub open spec fn cause_missing_key(key: Seq<char>) -> Seq<char> {
    "Expected key `"@ + key + "` to be defined"@
}

/// The cause recorded when a value that should be a string is none.
pub open spec fn cause_not_a_string() -> Seq<char> {
    "Expected a string"@
}

/// The cause recorded when a value is no unsigned integer in range.
pub open spec fn cause_not_unsigned() -> Seq<char> {
    "Expected an unsigned integer"@
}

/// The cause recorded when an unsigned integer does not fit in 32 bits.
pub open spec fn cause_not_u32() -> Seq<char> {
    "Expected a 32-bit unsigned integer"@
}

/// The cause recorded when a value that should be an array is none.
pub open spec fn cause_not_an_array() -> Seq<char> {
    "Expected an array type"@
}

/// The string that `v` holds, if it is a string.
pub open spec fn string_of(v: ValueView) -> Option<Seq<char>> {
    match v {
        ValueView::Str(s) => Some(s),
        _ => None,
    }
}

/// The 64-bit unsigned integer that `v` stands for: a number that is whole
/// and not negative, or a string that is a decimal literal in range.
pub open spec fn u64_of(v: ValueView) -> Option<u64> {
    match v {
        ValueView::Unsigned(n) => Some(n),
        ValueView::Str(s) => match decimal_below(s, limb_base()) {
            Some(n) => Some(n as u64),
            None => None,
        },
        _ => None,
    }
}

/// The 256-bit unsigned integer that `v` stands for: a number that is whole
/// and not negative, or a string that is a decimal literal in range.
pub open spec fn u256_of(v: ValueView) -> Option<nat> {
    match v {
        ValueView::Unsigned(n) => Some(n as nat),
        ValueView::Str(s) => decimal_below(s, u256_bound()),
        _ => None,
    }
}

/// A reader positioned at one value of a configuration tree, which knows
/// the path that led there.
#[derive(Debug)]
pub struct ValueParser<'v> {
    /// The path from the root to the value.
    pub cwp: ConfigPath,
    /// The value.
    pub val: &'v ConfigValue,
}

/// What a `ValueParser` is: a path and the value found there.
pub struct ParserView {
    pub cwp: Seq<Seq<char>>,
    pub val: ValueView,
}

impl<'v> View for ValueParser<'v> {
    type V = ParserView;

    open spec fn view(&self) -> ParserView {
        ParserView { cwp: self.cwp@, val: self.val@ }
    }
}

impl<'v> DeepView for ValueParser<'v> {
    type V = ParserView;

    open spec fn deep_view(&self) -> ParserView {
        self@
    }
}

impl ParserView {
    /// Looking up a key that may be missing: the reader at the value under
    /// `key`; nothing, silently, where the object has no such key; nothing,
    /// with a problem at the key's path, where this value is no object.
    pub open spec fn opt_key(self, key: Seq<char>) -> Read<ParserView> {
        match self.val {
            ValueView::Object(entries) => match find_entry(entries, key) {
                Some(val) => read_ok(ParserView { cwp: self.cwp.push(key), val }),
                None => read_absent(),
            },
            _ => read_failed(self.cwp.push(key), cause_not_an_object()),
        }
    }

    /// Looking up a key that must be there: as `opt_key`, but a missing key
    /// is a problem at the key's path.
    pub open spec fn key(self, key: Seq<char>) -> Read<ParserView> {
        let found = self.opt_key(key);
        if found.value is None && found.errors.len() == 0 {
            read_failed(self.cwp.push(key), cause_missing_key(key))
        } else {
            found
        }
    }

    /// Reading this value as a string.
    pub open spec fn string(self) -> Read<Seq<char>> {
        match string_of(self.val) {
            Some(s) => read_ok(s),
            None => read_failed(self.cwp, cause_not_a_string()),
        }
    }

    /// Reading this value as a 64-bit unsigned integer.
    pub open spec fn u64(self) -> Read<u64> {
        match u64_of(self.val) {
            Some(n) => read_ok(n),
            None => read_failed(self.cwp, cause_not_unsigned()),
        }
    }

    /// Reading this value as a 32-bit unsigned integer.
    pub open spec fn u32(self) -> Read<u32> {
        match u64_of(self.val) {
            Some(n) => if n <= u32::MAX {
                read_ok(n as u32)
            } else {
                read_failed(self.cwp, cause_not_u32())
            },
            None => read_failed(self.cwp, cause_not_unsigned()),
        }
    }

    /// Reading this value as a 256-bit unsigned integer.
    pub open spec fn u256(self) -> Read<nat> {
        match u256_of(self.val) {
            Some(n) => read_ok(n),
            None => read_failed(self.cwp, cause_not_unsigned()),
        }
    }

    /// Reading this value as an array: a reader at each item, in order,
    /// whose path ends in the item's index.
    pub open spec fn items(self) -> Read<Seq<ParserView>> {
        match self.val {
            ValueView::Array(items) => read_ok(
                Seq::new(
                    items.len(),
                    |i: int| ParserView { cwp: self.cwp.push(decimal_text(i as nat)), val: items[i] },
                ),
            ),
            _ => read_failed(self.cwp, cause_not_an_array()),
        }
    }

    /// Reading the string under a key that must be there.
    pub open spec fn string_at(self, key: Seq<char>) -> Read<Seq<char>> {
        self.key(key).and_then(|p: ParserView| p.string())
    }

    /// Reading the string under a key that may be missing.
    pub open spec fn opt_string_at(self, key: Seq<char>) -> Read<Seq<char>> {
        self.opt_key(key).and_then(|p: ParserView| p.string())
    }

    /// Reading the 32-bit unsigned integer under a key that may be missing.
    pub open spec fn opt_u32_at(self, key: Seq<char>) -> Read<u32> {
        self.opt_key(key).and_then(|p: ParserView| p.u32())
    }

    /// Reading the 64-bit unsigned integer under a key that may be missing.
    pub open spec fn opt_u64_at(self, key: Seq<char>) -> Read<u64> {
        self.opt_key(key).and_then(|p: ParserView| p.u64())
    }

    /// Reading the 256-bit unsigned integer under a key that may be missing.
    pub open spec fn opt_u256_at(self, key: Seq<char>) -> Read<nat> {
        self.opt_key(key).and_then(|p: ParserView| p.u256())
    }
}

impl<'v> ValueParser<'v> {
    /// A reader at `val`, reached by `cwp`.
    pub fn new(cwp: ConfigPath, val: &'v ConfigValue) -> (parser: ValueParser<'v>)
        ensures
            parser@ == (ParserView { cwp: cwp@, val: val@ }),
    {
        ValueParser { cwp, val }
    }

    /// Looks up a key that may be missing. Absence is no problem; a value
    /// that is no object is one, and is recorded in `err`.
    pub fn get_opt_key(&self, key: &str, err: &mut ConfigParsingError) -> (found: Option<
        ValueParser<'v>,
    >)
        ensures
            found.deep_view() == self@.opt_key(key@).value,
            final(err)@ == old(err)@ + self@.opt_key(key@).errors,
    {
        match self.val {
            ConfigValue::Object(entries) => {
                let wanted = key.to_owned();
                let ghost all = self.val@->Object_0;
                proof {
                    lemma_object_view(*entries);
                    assert(all.skip(0) =~= all);
                }
                let mut i: usize = 0;
                while i < entries.len()
                    invariant
                        i <= entries@.len(),
                        wanted@ == key@,
                        self.val@ == ValueView::Object(all),
                        all.len() == entries@.len(),
                        forall|j: int|
                            0 <= j < entries@.len() ==> #[trigger] all[j] == (
                            entries@[j].key@,
                            entries@[j].value@,
                        ),
                        find_entry(all, key@) == find_entry(all.skip(i as int), key@),
                    decreases entries.len() - i,
                {
                    if entries[i].key == wanted {
                        let child = ValueParser { cwp: self.cwp.join(key), val: &entries[i].value };
                        assert(all.skip(i as int)[0] == all[i as int]);
                        assert(err@ + Seq::<ConfigErrorView>::empty() =~= err@);
                        return Some(child);
                    }
                    assert(all.skip(i as int)[0] == all[i as int]);
                    assert(all.skip(i as int).drop_first() =~= all.skip(i + 1));
                    i += 1;
                }
                assert(err@ + Seq::<ConfigErrorView>::empty() =~= err@);
                None
            },
            _ => {
                let ghost before = err@;
                err.push(self.cwp.join(key), "Expected an object type".to_owned());
                assert(err@ =~= before + self@.opt_key(key@).errors);
                None
            },
        }
    }

    /// Looks up a key that must be there. A missing key, or a value that is
    /// no object, is recorded in `err`.
    pub fn get_key(&self, key: &str, err: &mut ConfigParsingError) -> (found: Option<
        ValueParser<'v>,
    >)
        ensures
            found.deep_view() == self@.key(key@).value,
            final(err)@ == old(err)@ + self@.key(key@).errors,
    {
        let ghost before = err@;
        let before_len = err.len();
        let found = self.get_opt_key(key, err);
        if found.is_none() && err.len() == before_len {
            let cause = "Expected key `".to_owned().concat(key).concat("` to be defined");
            err.push(self.cwp.join(key), cause);
            assert(err@ =~= before + self@.key(key@).errors);
        }
        found
    }

    /// Reads the value as a string. Any other kind of value is recorded in
    /// `err`.
    pub fn parse_string(&self, err: &mut ConfigParsingError) -> (text: Option<&'v str>)
        ensures
            text.deep_view() == self@.string().value,
            final(err)@ == old(err)@ + self@.string().errors,
    {
        let ghost before = err@;
        match self.val {
            ConfigValue::Str(s) => {
                assert(err@ + Seq::<ConfigErrorView>::empty() =~= err@);
                Some(s.as_str())
            },
            _ => {
                err.push(self.cwp.duplicate(), "Expected a string".to_owned());
                assert(err@ =~= before + self@.string().errors);
                None
            },
        }
    }

    /// The 64-bit unsigned integer that the value stands for, if any.
    fn unsigned_64(&self) -> (number: Option<u64>)
        ensures
            number == u64_of(self.val@),
    {
        match self.val {
            ConfigValue::Unsigned(n) => Some(*n),
            ConfigValue::Str(s) => match U256::from_dec_str(s.as_str()) {
                Some(wide) => wide.to_u64(),
                None => None,
            },
            _ => None,
        }
    }

    /// Reads the value as a 64-bit unsigned integer: a number, or a string
    /// that holds a decimal literal. Anything else is recorded in `err`.
    pub fn parse_u64(&self, err: &mut ConfigParsingError) -> (number: Option<u64>)
        ensures
            number == self@.u64().value,
            final(err)@ == old(err)@ + self@.u64().errors,
    {
        let ghost before = err@;
        let number = self.unsigned_64();
        if number.is_none() {
            err.push(self.cwp.duplicate(), "Expected an unsigned integer".to_owned());
            assert(err@ =~= before + self@.u64().errors);
        } else {
            assert(err@ + Seq::<ConfigErrorView>::empty() =~= err@);
        }
        number
    }

    /// Reads the value as a 32-bit unsigned integer: a number, or a string
    /// that holds a decimal literal. Anything else is recorded in `err`.
    pub fn parse_u32(&self, err: &mut ConfigParsingError) -> (number: Option<u32>)
        ensures
            number == self@.u32().value,
            final(err)@ == old(err)@ + self@.u32().errors,
    {
        let ghost before = err@;
        match self.unsigned_64() {
            Some(n) => {
                if n <= 0xffff_ffff {
                    assert(err@ + Seq::<ConfigErrorView>::empty() =~= err@);
                    Some(n as u32)
                } else {
                    err.push(self.cwp.duplicate(), "Expected a 32-bit unsigned integer".to_owned());
                    assert(err@ =~= before + self@.u32().errors);
                    None
                }
            },
            None => {
                err.push(self.cwp.duplicate(), "Expected an unsigned integer".to_owned());
                assert(err@ =~= before + self@.u32().errors);
                None
            },
        }
    }

    /// Reads the value as a 256-bit unsigned integer: a number, or a string
    /// that holds a decimal literal. Anything else is recorded in `err`.
    pub fn parse_u256(&self, err: &mut ConfigParsingError) -> (number: Option<U256>)
        ensures
            number.deep_view() == self@.u256().value,
            final(err)@ == old(err)@ + self@.u256().errors,
    {
        let ghost before = err@;
        let number = match self.val {
            ConfigValue::Unsigned(n) => Some(U256::from_u64(*n)),
            ConfigValue::Str(s) => U256::from_dec_str(s.as_str()),
            _ => None,
        };
        if number.is_none() {
            err.push(self.cwp.duplicate(), "Expected an unsigned integer".to_owned());
            assert(err@ =~= before + self@.u256().errors);
        } else {
            assert(err@ + Seq::<ConfigErrorView>::empty() =~= err@);
        }
        number
    }

    /// Reads the string under a key that must be there.
    pub fn string_at(&self, key: &str, err: &mut ConfigParsingError) -> (text: Option<&'v str>)
        ensures
            text.deep_view() == self@.string_at(key@).value,
            final(err)@ == old(err)@ + self@.string_at(key@).errors,
    {
        let ghost before = err@;
        match self.get_key(key, err) {
            Some(child) => {
                let text = child.parse_string(err);
                assert(err@ =~= before + self@.string_at(key@).errors);
                text
            },
            None => None,
        }
    }

    /// Reads the string under a key that may be missing.
    pub fn opt_string_at(&self, key: &str, err: &mut ConfigParsingError) -> (text: Option<&'v str>)
        ensures
            text.deep_view() == self@.opt_string_at(key@).value,
            final(err)@ == old(err)@ + self@.opt_string_at(key@).errors,
    {
        let ghost before = err@;
        match self.get_opt_key(key, err) {
            Some(child) => {
                let text = child.parse_string(err);
                assert(err@ =~= before + self@.opt_string_at(key@).errors);
                text
            },
            None => None,
        }
    }

    /// Reads the 32-bit unsigned integer under a key that may be missing.
    pub fn opt_u32_at(&self, key: &str, err: &mut ConfigParsingError) -> (number: Option<u32>)
        ensures
            number == self@.opt_u32_at(key@).value,
            final(err)@ == old(err)@ + self@.opt_u32_at(key@).errors,
    {
        let ghost before = err@;
        match self.get_opt_key(key, err) {
            Some(child) => {
                let number = child.parse_u32(err);
                assert(err@ =~= before + self@.opt_u32_at(key@).errors);
                number
            },
            None => None,
        }
    }

    /// Reads the 64-bit unsigned integer under a key that may be missing.
    pub fn opt_u64_at(&self, key: &str, err: &mut ConfigParsingError) -> (number: Option<u64>)
        ensures
            number == self@.opt_u64_at(key@).value,
            final(err)@ == old(err)@ + self@.opt_u64_at(key@).errors,
    {
        let ghost before = err@;
        match self.get_opt_key(key, err) {
            Some(child) => {
                let number = child.parse_u64(err);
                assert(err@ =~= before + self@.opt_u64_at(key@).errors);
                number
            },
            None => None,
        }
    }

    /// Reads the 256-bit unsigned integer under a key that may be missing.
    pub fn opt_u256_at(&self, key: &str, err: &mut ConfigParsingError) -> (number: Option<U256>)
        ensures
            number.deep_view() == self@.opt_u256_at(key@).value,
            final(err)@ == old(err)@ + self@.opt_u256_at(key@).errors,
    {
        let ghost before = err@;
        match self.get_opt_key(key, err) {
            Some(child) => {
                let number = child.parse_u256(err);
                assert(err@ =~= before + self@.opt_u256_at(key@).errors);
                number
            },
            None => None,
        }
    }

    /// Reads the value as an array and yields a reader at each item. Any
    /// other kind of value is recorded in `err`.
    pub fn into_array(&self, err: &mut ConfigParsingError) -> (readers: Option<
        Vec<ValueParser<'v>>,
    >)
        ensures
            readers.deep_view() == self@.items().value,
            final(err)@ == old(err)@ + self@.items().errors,
    {
        let ghost before = err@;
        match self.val {
            ConfigValue::Array(items) => {
                proof {
                    lemma_array_view(*items);
                }
                let ghost wanted = self@.items().value->0;
                let mut readers: Vec<ValueParser<'v>> = Vec::new();
                let mut i: usize = 0;
                while i < items.len()
                    invariant
                        i <= items@.len(),
                        self@.items().value == Some(wanted),
                        wanted.len() == items@.len(),
                        self.val@ is Array,
                        self.val@->Array_0.len() == items@.len(),
                        forall|j: int|
                            0 <= j < items@.len() ==> #[trigger] self.val@->Array_0[j]
                                == items@[j]@,
                        readers@.len() == i,
                        forall|j: int| 0 <= j < i ==> (#[trigger] readers@[j])@ == wanted[j],
                    decreases items.len() - i,
                {
                    let index = index_text(i);
                    let child = ValueParser { cwp: self.cwp.join(index.as_str()), val: &items[i] };
                    assert(child@ == wanted[i as int]);
                    readers.push(child);
                    i += 1;
                }
                assert(readers.deep_view() =~= wanted);
                assert(err@ =~= before + self@.items().errors);
                Some(readers)
            },
            _ => {
                err.push(self.cwp.duplicate(), "Expected an array type".to_owned());
                assert(err@ =~= before + self@.items().errors);
                None
            },
        }
    }
}

} // verus!
