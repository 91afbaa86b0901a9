use vstd::prelude::*;
use vstd::hash_map::StringHashMap;
use vstd::string::*;
use crate::numbers::{integer_text, is_integer_text};

verus! {

/// The posted value of `field` passes the number check: it is there and writes an integer.
pub open spec fn numeric_ok(data: Map<Seq<char>, String>, field: Seq<char>) -> bool {
    data.contains_key(field) && is_integer_text(data[field]@)
}

/// The posted value of `field` passes the length check: a non-empty value has between
/// `min` and `max` characters; a missing or empty one passes only where not `required`.
pub open spec fn length_ok(data: Map<Seq<char>, String>, field: Seq<char>, min: usize, max: usize, required: bool) -> bool {
    if data.contains_key(field) && data[field]@.len() > 0 {
        min <= data[field]@.len() <= max
    } else {
        !required
    }
}

/// The posted value of `field` passes the limit check: it is missing or has at most `max` characters.
pub open spec fn limit_ok(data: Map<Seq<char>, String>, field: Seq<char>, max: usize) -> bool {
    !data.contains_key(field) || data[field]@.len() <= max
}

/// The length rule: a required field passes exactly when it is posted, non-empty, and
/// has between `min` and `max` characters; an optional one passes when it is missing,
/// empty, or has between `min` and `max` characters.
pub proof fn lemma_length_rule(data: Map<Seq<char>, String>, field: Seq<char>, min: usize, max: usize, required: bool)
    ensures
        required ==> (length_ok(data, field, min, max, required) <==> (data.contains_key(field)
            && data[field]@.len() > 0 && min <= data[field]@.len() && data[field]@.len() <= max)),
        !required ==> (length_ok(data, field, min, max, required) <==> (!data.contains_key(field)
            || data[field]@.len() == 0 || (min <= data[field]@.len() && data[field]@.len() <= max))),
{
}

/// The limit rule passes exactly when the field is missing or has at most `max` characters.
pub proof fn lemma_limit_rule(data: Map<Seq<char>, String>, field: Seq<char>, max: usize)
    ensures
        limit_ok(data, field, max) <==> (!data.contains_key(field) || data[field]@.len() <= max),
{
}

/// The number rule passes exactly when the field is posted and writes an integer.
pub proof fn lemma_numeric_rule(data: Map<Seq<char>, String>, field: Seq<char>)
    ensures
        numeric_ok(data, field) <==> (data.contains_key(field) && is_integer_text(data[field]@)),
{
}

/// Checks posted form values one rule after another; the first rule that fails gives
/// the message that `validate` answers with.
pub struct Validator<'a> {
    data: &'a StringHashMap<String>,
    error: Option<String>,
}

impl<'a> Validator<'a> {
    /// The posted values under check.
    pub closed spec fn data(&self) -> Map<Seq<char>, String> {
        self.data@
    }

    /// The message of the first failed rule, if one failed.
    pub closed spec fn error(&self) -> Option<Seq<char>> {
        match self.error {
            Some(m) => Some(m@),
            None => None,
        }
    }

    /// The result of a rule: the earlier failure stays; else `msg` where `ok` is false.
    pub open spec fn after(&self, ok: bool, msg: Seq<char>) -> Option<Seq<char>> {
        if self.error() is Some {
            self.error()
        } else if ok {
            None
        } else {
            Some(msg)
        }
    }

    /// The first failure wins: once a rule has failed, later rules keep its message; before
    /// that, a rule that passes leaves no failure and one that fails records its own message.
    pub proof fn lemma_first_failure_wins(&self, ok: bool, msg: Seq<char>)
        ensures
            self.error() is Some ==> self.after(ok, msg) == self.error(),
            self.error() is None && ok ==> self.after(ok, msg) is None,
            self.error() is None && !ok ==> self.after(ok, msg) == Some(msg),
    {
    }

    /// Starts checking `data`, with no rule failed.
    pub fn load(data: &'a StringHashMap<String>) -> (v: Self)
        ensures
            v.data() == data@,
            v.error() is None,
    {
        Validator { data, error: None }
    }

    fn fail(self, msg: &str) -> (v: Self)
        ensures
            v.data() == self.data(),
            v.error() == self.after(false, msg@),
    {
        if self.error.is_some() {
            self
        } else {
            Validator { data: self.data, error: Some(String::from_str(msg)) }
        }
    }

    /// The value of `field` must be there and write an integer.
    pub fn is_numeric(self, field: &str, msg: &str) -> (v: Self)
        ensures
            v.data() == self.data(),
            v.error() == self.after(numeric_ok(self.data(), field@), msg@),
    {
        let ok = match self.data.get(field) {
            Some(value) => integer_text(value.as_str()),
            None => false,
        };
        if ok { self } else { self.fail(msg) }
    }

    /// A non-empty value of `field` must have between `min` and `max` characters; a
    /// missing or empty one fails where `required`.
    pub fn string_length(self, field: &str, msg: &str, min: usize, max: usize, required: bool) -> (v: Self)
        ensures
            v.data() == self.data(),
            v.error() == self.after(length_ok(self.data(), field@, min, max, required), msg@),
    {
        let ok = match self.data.get(field) {
            Some(value) => {
                let len = value.as_str().unicode_len();
                if len > 0 { min <= len && len <= max } else { !required }
            },
            None => !required,
        };
        if ok { self } else { self.fail(msg) }
    }

    /// A value of `field` must have at most `max` characters.
    pub fn string_limit(self, field: &str, msg: &str, max: usize) -> (v: Self)
        ensures
            v.data() == self.data(),
            v.error() == self.after(limit_ok(self.data(), field@, max), msg@),
    {
        let ok = match self.data.get(field) {
            Some(value) => value.as_str().unicode_len() <= max,
            None => true,
        };
        if ok { self } else { self.fail(msg) }
    }

    /// `Ok` where every rule passed, else the first failed rule's message.
    pub fn validate(self) -> (r: Result<(), String>)
        ensures
            match r {
                Ok(_) => self.error() is None,
                Err(m) => self.error() == Some(m@),
            },
    {
        match self.error {
            Some(m) => Err(m),
            None => Ok(()),
        }
    }
}

} // verus!
