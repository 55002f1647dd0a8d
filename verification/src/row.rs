//! Rows of an instrumentation query: field names mapped to dynamically
//! typed values.

use vstd::prelude::*;

verus! {

/// The value of one field of a row, by its declared kind.
#[derive(Debug, Clone)]
pub enum FieldValue {
    /// Unsigned 16-bit integer.
    UI2(u16),
    /// Unsigned 32-bit integer.
    UI4(u32),
    /// Unsigned 64-bit integer.
    UI8(u64),
    /// Text.
    String(String),
    /// Any other kind; no extractor reads it.
    Other,
}

/// A named value.
#[derive(Debug, Clone)]
pub struct Field {
    pub name: String,
    pub value: FieldValue,
}

/// One row of a query result: a finite mapping from field name to value.
#[derive(Debug, Clone)]
pub struct Row {
    fields: Vec<Field>,
}

/// What a query returned: its rows in order, or the fact that it failed.
#[derive(Debug, Clone)]
pub enum QueryOutcome {
    Failed,
    Rows(Vec<Row>),
}

/// The mapping that a list of fields stands for: a later field replaces an
/// earlier one of the same name.
pub open spec fn fields_map(fields: Seq<Field>) -> Map<Seq<char>, FieldValue>
    decreases fields.len(),
{
    if fields.len() == 0 {
        Map::empty()
    } else {
        fields_map(fields.drop_last()).insert(fields.last().name@, fields.last().value)
    }
}

impl View for Row {
    type V = Map<Seq<char>, FieldValue>;

    closed spec fn view(&self) -> Map<Seq<char>, FieldValue> {
        fields_map(self.fields@)
    }
}

impl Row {
    /// The value of the field `name`, if the row has one.
    pub open spec fn field(&self, name: Seq<char>) -> Option<FieldValue> {
        if self@.contains_key(name) {
            Some(self@[name])
        } else {
            None
        }
    }

    /// A row without fields.
    pub fn new() -> (r: Row)
        ensures
            r@ == Map::<Seq<char>, FieldValue>::empty(),
    {
        Row { fields: Vec::new() }
    }

    /// Sets the field `name` to `value`, replacing any earlier value.
    pub fn insert(&mut self, name: String, value: FieldValue)
        ensures
            final(self)@ == old(self)@.insert(name@, value),
    {
        let ghost before = self.fields@;
        self.fields.push(Field { name, value });
        assert(self.fields@.drop_last() == before);
    }

    /// Looks the field `name` up.
    pub fn get(&self, name: &str) -> (r: Option<&FieldValue>)
        ensures
            match r {
                Some(v) => self.field(name@) == Some(*v),
                None => self.field(name@) is None,
            },
    {
        let key = name.to_owned();
        let mut i: usize = self.fields.len();
        assert(self.fields@.take(i as int) == self.fields@);
        while i > 0
            invariant
                i <= self.fields.len(),
                key@ == name@,
                fields_map(self.fields@).contains_key(name@) == fields_map(
                    self.fields@.take(i as int),
                ).contains_key(name@),
                fields_map(self.fields@).contains_key(name@) ==> fields_map(self.fields@)[name@]
                    == fields_map(self.fields@.take(i as int))[name@],
            decreases i,
        {
            i = i - 1;
            assert(self.fields@.take(i + 1).drop_last() == self.fields@.take(i as int));
            if self.fields[i].name == key {
                return Some(&self.fields[i].value);
            }
        }
        None
    }
}

} // verus!
