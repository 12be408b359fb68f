//! Configuration documents, written in TOML and read by the `toml` crate.
//!
//! A document is a table of groups; a group is a table of settings.

use vstd::prelude::*;

verus! {

/// `toml::Value`, a TOML document or a part of one. Nothing is seen of
/// what it holds but through the functions below.
#[verifier::external_type_specification]
#[verifier::external_body]
pub struct ExTomlValue(toml::Value);

/// The document that the `toml` crate reads from a text, or nothing where
/// the text is no TOML.
pub uninterp spec fn toml_parsed(contents: Seq<char>) -> Option<toml::Value>;

/// What a table holds under a key. A value that is no table holds nothing.
pub uninterp spec fn toml_member(value: toml::Value, key: Seq<char>) -> Option<toml::Value>;

/// Whether a value is a table.
pub uninterp spec fn toml_is_table(value: toml::Value) -> bool;

/// The length of an array. A value that is no array has none.
pub uninterp spec fn toml_length(value: toml::Value) -> Option<nat>;

/// The element of an array at an index. A value that is no array has none.
pub uninterp spec fn toml_element(value: toml::Value, index: int) -> Option<toml::Value>;

/// The text that a value is, if it is one.
pub uninterp spec fn toml_text(value: toml::Value) -> Option<Seq<char>>;

/// The integer that a value is, if it is one.
pub uninterp spec fn toml_integer(value: toml::Value) -> Option<i64>;

/// `str::parse` for a `toml::Table`, as a `toml::Value`: the document that
/// the text spells.
#[verifier::external_body]
fn parse(contents: &str) -> (r: Option<toml::Value>)
    ensures
        r == toml_parsed(contents@),
{
    contents.parse::<toml::Table>().ok().map(toml::Value::Table)
}

/// `Value::as_table`, then `Map::get`: what the table holds under the key.
/// Only a table holds anything.
#[verifier::external_body]
pub(crate) fn member<'a>(value: &'a toml::Value, key: &str) -> (r: Option<&'a toml::Value>)
    ensures
        match r {
            Some(m) => toml_member(*value, key@) == Some(*m),
            None => toml_member(*value, key@) is None,
        },
        r is Some ==> toml_is_table(*value),
{
    value.as_table().and_then(|t| t.get(key))
}

/// `Value::is_table`.
#[verifier::external_body]
pub(crate) fn is_table(value: &toml::Value) -> (r: bool)
    ensures
        r == toml_is_table(*value),
{
    value.is_table()
}

/// `Value::as_array`, then `Vec::len`: the length of the array.
#[verifier::external_body]
pub(crate) fn length(value: &toml::Value) -> (r: Option<usize>)
    ensures
        match r {
            Some(n) => toml_length(*value) == Some(n as nat),
            None => toml_length(*value) is None,
        },
{
    value.as_array().map(|a| a.len())
}

/// `Value::as_array`, then `slice::get`: the element at the index, which an
/// array has exactly at the indices below its length.
#[verifier::external_body]
pub(crate) fn element<'a>(value: &'a toml::Value, index: usize) -> (r: Option<&'a toml::Value>)
    ensures
        match r {
            Some(e) => toml_element(*value, index as int) == Some(*e),
            None => toml_element(*value, index as int) is None,
        },
        r is Some <==> (toml_length(*value) matches Some(n) && index < n),
{
    value.as_array().and_then(|a| a.get(index))
}

/// `Value::as_str`: the text that the value is.
#[verifier::external_body]
pub(crate) fn text(value: &toml::Value) -> (r: Option<String>)
    ensures
        match r {
            Some(t) => toml_text(*value) == Some(t@),
            None => toml_text(*value) is None,
        },
{
    value.as_str().map(|s| s.to_owned())
}

/// `Value::as_integer`: the integer that the value is.
#[verifier::external_body]
pub(crate) fn integer(value: &toml::Value) -> (r: Option<i64>)
    ensures
        r == toml_integer(*value),
{
    value.as_integer()
}

/// Why a configuration is refused.
#[derive(Clone, Copy, PartialEq, Eq, Structural, Debug)]
pub enum ConfError {
    /// The text is no TOML document.
    Unparsable,
    /// A group that is called for is not there, or is no table.
    MissingGroup,
    /// A group lacks a setting that is called for.
    MissingKey,
    /// A setting holds a value of another type than is called for.
    WrongType,
    /// The document has no list of repositories.
    MissingRepos,
    /// An entry of the list of repositories is no table, lacks the token,
    /// the owner or the name, or has no tag that is an identifier.
    BadRepo,
}

/// The group of a document under a name, if it is a table.
pub open spec fn conf_group(conf: toml::Value, group: Seq<char>) -> Option<toml::Value> {
    match toml_member(conf, group) {
        Some(g) => if toml_is_table(g) {
            Some(g)
        } else {
            None
        },
        None => None,
    }
}

/// The setting of a group under a key.
pub open spec fn conf_setting(conf: toml::Value, group: Seq<char>, key: Seq<char>) -> Option<
    toml::Value,
> {
    match toml_member(conf, group) {
        Some(g) => toml_member(g, key),
        None => None,
    }
}

/// The text that a setting holds.
pub open spec fn conf_text(conf: toml::Value, group: Seq<char>, key: Seq<char>) -> Option<
    Seq<char>,
> {
    match conf_setting(conf, group, key) {
        Some(v) => toml_text(v),
        None => None,
    }
}

/// The integer that a setting holds.
pub open spec fn conf_integer(conf: toml::Value, group: Seq<char>, key: Seq<char>) -> Option<i64> {
    match conf_setting(conf, group, key) {
        Some(v) => toml_integer(v),
        None => None,
    }
}

/// Reads a configuration document from the text of a file.
pub fn load_conf(contents: &str) -> (r: Result<toml::Value, ConfError>)
    ensures
        match r {
            Ok(conf) => toml_parsed(contents@) == Some(conf),
            Err(e) => toml_parsed(contents@) is None && e == ConfError::Unparsable,
        },
{
    match parse(contents) {
        Some(conf) => Ok(conf),
        None => Err(ConfError::Unparsable),
    }
}

/// The setting of a group under a key.
fn setting<'a>(conf: &'a toml::Value, group: &str, key: &str) -> (r: Option<&'a toml::Value>)
    ensures
        match r {
            Some(v) => conf_setting(*conf, group@, key@) == Some(*v),
            None => conf_setting(*conf, group@, key@) is None,
        },
{
    match member(conf, group) {
        Some(g) => member(g, key),
        None => None,
    }
}

/// The text that setting `key` of group `group` holds, if it holds a text.
pub fn get_conf_val(conf: &toml::Value, group: &str, key: &str) -> (r: Option<String>)
    ensures
        match r {
            Some(t) => conf_text(*conf, group@, key@) == Some(t@),
            None => conf_text(*conf, group@, key@) is None,
        },
{
    match setting(conf, group, key) {
        Some(v) => text(v),
        None => None,
    }
}

/// The integer that setting `key` of group `group` holds, if it holds one.
pub fn get_conf_val_n(conf: &toml::Value, group: &str, key: &str) -> (r: Option<i64>)
    ensures
        r == conf_integer(*conf, group@, key@),
{
    match setting(conf, group, key) {
        Some(v) => integer(v),
        None => None,
    }
}

/// The group of the document under a name, if there is one.
pub fn get_conf_group<'a>(conf: &'a toml::Value, group: &str) -> (r: Option<&'a toml::Value>)
    ensures
        match r {
            Some(g) => conf_group(*conf, group@) == Some(*g),
            None => conf_group(*conf, group@) is None,
        },
{
    match member(conf, group) {
        Some(g) => if is_table(g) {
            Some(g)
        } else {
            None
        },
        None => None,
    }
}

/// The texts that a list of string slices holds.
pub open spec fn key_texts(keys: Seq<&str>) -> Seq<Seq<char>> {
    Seq::new(keys.len(), |i: int| keys[i]@)
}

/// What is wrong with a group: it is missing, or the first of the keys that
/// it lacks is.
pub open spec fn group_fault(conf: toml::Value, group: Seq<char>, keys: Seq<Seq<char>>) -> Option<
    ConfError,
> {
    if conf_group(conf, group) is None {
        Some(ConfError::MissingGroup)
    } else if exists|i: int| 0 <= i < keys.len() && conf_setting(conf, group, #[trigger] keys[i]) is None {
        Some(ConfError::MissingKey)
    } else {
        None
    }
}

/// Checks that the document has group `group` and that the group has every
/// one of `keys`.
pub fn validate_conf_group(conf: &toml::Value, group: &str, keys: &[&str]) -> (r: Result<
    (),
    ConfError,
>)
    ensures
        match r {
            Ok(_) => group_fault(*conf, group@, key_texts(keys@)) is None,
            Err(e) => group_fault(*conf, group@, key_texts(keys@)) == Some(e),
        },
{
    let grp = match get_conf_group(conf, group) {
        Some(g) => g,
        None => { return Err(ConfError::MissingGroup); },
    };
    let mut i: usize = 0;
    while i < keys.len()
        invariant
            i <= keys.len(),
            conf_group(*conf, group@) == Some(*grp),
            forall|k: int|
                0 <= k < i ==> conf_setting(*conf, group@, #[trigger] key_texts(keys@)[k]) is Some,
        decreases keys.len() - i,
    {
        if member(grp, keys[i]).is_none() {
            assert(conf_setting(*conf, group@, key_texts(keys@)[i as int]) is None);
            return Err(ConfError::MissingKey);
        }
        i = i + 1;
    }
    Ok(())
}

} // verus!
