//! A greeting built from the fields `name` and `city`.

use crate::error::{Error, Field};
use vstd::hash_map::StringHashMap;
use vstd::prelude::*;
use vstd::string::StringExecFns;

verus! {

/// A mapping from field names to text, as a caller hands it to `hello`.
pub struct Fields {
    entries: StringHashMap<String>,
}

impl View for Fields {
    type V = Map<Seq<char>, Seq<char>>;

    closed spec fn view(&self) -> Map<Seq<char>, Seq<char>> {
        self.entries@.map_values(|text: String| text@)
    }
}

impl Fields {
    /// A mapping without fields.
    pub fn new() -> (fields: Fields)
        ensures
            fields@ == Map::<Seq<char>, Seq<char>>::empty(),
    {
        let fields = Fields { entries: StringHashMap::new() };
        assert(fields@ =~= Map::<Seq<char>, Seq<char>>::empty());
        fields
    }

    /// Sets the field `key` to `value`, in place of what it held.
    pub fn insert(&mut self, key: String, value: String)
        ensures
            final(self)@ == old(self)@.insert(key@, value@),
    {
        self.entries.insert(key, value);
        assert(final(self)@ =~= old(self)@.insert(key@, value@));
    }

    /// The text of the field `key`, where the mapping has it.
    pub fn get(&self, key: &str) -> (found: Option<&String>)
        ensures
            match found {
                Some(text) => self@.contains_key(key@) && text@ == self@[key@],
                None => !self@.contains_key(key@),
            },
    {
        self.entries.get(key)
    }
}

/// The greeting for a name and a city.
pub open spec fn greeting(name: Seq<char>, city: Seq<char>) -> Seq<char> {
    "Hello "@ + name + ", welcome to "@ + city
}

/// What `hello` returns for a mapping: the greeting where both fields are
/// there, and otherwise the first of `name` and `city` that is missing.
pub open spec fn hello_result(data: Map<Seq<char>, Seq<char>>) -> Result<Seq<char>, Error> {
    if !data.contains_key(Field::Name.key_view()) {
        Err(Error::MissingField(Field::Name))
    } else if !data.contains_key(Field::City.key_view()) {
        Err(Error::MissingField(Field::City))
    } else {
        Ok(greeting(data[Field::Name.key_view()], data[Field::City.key_view()]))
    }
}

/// Says hello to the name given and welcome to the city.
///
/// Other fields of the mapping are ignored.
pub fn hello(data: Fields) -> (answer: Result<String, Error>)
    ensures
        match hello_result(data@) {
            Ok(text) => answer is Ok && answer->Ok_0@ == text,
            Err(e) => answer == Err::<String, Error>(e),
        },
{
    let name = match data.get(Field::Name.key()) {
        Some(name) => name,
        None => {
            return Err(Error::MissingField(Field::Name));
        },
    };
    let city = match data.get(Field::City.key()) {
        Some(city) => city,
        None => {
            return Err(Error::MissingField(Field::City));
        },
    };
    let mut answer = String::from_str("Hello ");
    answer.append(name.as_str());
    answer.append(", welcome to ");
    answer.append(city.as_str());
    Ok(answer)
}

} // verus!
