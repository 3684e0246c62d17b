//! The settings of the server.
//!
//! The settings are a JSON object.  A setting is written from a text and
//! the name of its type, and read back as text in the same way.  The types
//! are `Number`, `Boolean` and `Array`; every other name stands for plain
//! text.

use crate::decimal::{decimal_of, decimal_text};
use crate::json::{
    bool_value, integer_of, is_object, items_of, json_compact, json_number_parse, json_of,
    json_parse, json_pretty, member, number_value, parse, set_member, text_of, text_value,
    to_compact_text, to_pretty_text, Json,
};
use crate::text::str_eq;
use serde_json::Value;
use vstd::prelude::*;

verus! {

/// Why a setting could not be written or read.
#[derive(Clone, Copy, Debug, PartialEq, Eq, Structural)]
pub enum SettingsError {
    /// The settings are not a JSON object.
    MalformedDocument,
    /// The value is not of the type that was named.
    InvalidValue,
    /// The outcome could not be written as text.
    Unwritable,
}

/// The truth value that a text spells: `true` or `false`, in lower case.
pub open spec fn spec_flag(text: Seq<char>) -> Option<bool> {
    if text == "true"@ {
        Some(true)
    } else if text == "false"@ {
        Some(false)
    } else {
        None
    }
}

/// The value that `text` spells as a setting of the type named
/// `value_type`, if it spells one.
pub open spec fn spec_setting_value(text: Seq<char>, value_type: Seq<char>) -> Option<Json> {
    if value_type == "Number"@ {
        match json_number_parse(text) {
            Some(number) => Some(Json::Number(number)),
            None => None,
        }
    } else if value_type == "Boolean"@ {
        match spec_flag(text) {
            Some(flag) => Some(Json::Bool(flag)),
            None => None,
        }
    } else if value_type == "Array"@ {
        match json_parse(text) {
            Some(Json::Array(items)) => Some(Json::Array(items)),
            _ => None,
        }
    } else {
        Some(Json::Text(text))
    }
}

/// The settings after `key` was set to `item`: a new member where there was
/// none of that name, a new value where there was one.
pub open spec fn spec_with_setting(document: Json, key: Seq<char>, item: Json) -> Result<
    Json,
    SettingsError,
> {
    if document is Object {
        Ok(document.with_member(key, item))
    } else {
        Err(SettingsError::MalformedDocument)
    }
}

/// The text of the settings after `key` was set, or why there is none.
pub open spec fn spec_write_setting(
    document: Seq<char>,
    key: Seq<char>,
    text: Seq<char>,
    value_type: Seq<char>,
) -> Result<Seq<char>, SettingsError> {
    match json_parse(document) {
        None => Err(SettingsError::MalformedDocument),
        Some(settings) => match spec_setting_value(text, value_type) {
            None => Err(SettingsError::InvalidValue),
            Some(item) => match spec_with_setting(settings, key, item) {
                Err(error) => Err(error),
                Ok(next) => match json_pretty(next) {
                    Some(written) => Ok(written),
                    None => Err(SettingsError::Unwritable),
                },
            },
        },
    }
}

/// A setting as text: a number in decimal, an array as JSON without white
/// space, a text as it is.  A setting that is read as a number must be a
/// whole number that fits in 64 bits with a sign; one that is read as text
/// must be a text; as an array, any value is written out.
pub open spec fn spec_setting_text(item: Json, value_type: Seq<char>) -> Result<
    Seq<char>,
    SettingsError,
> {
    if value_type == "Number"@ {
        match item.integer() {
            Some(number) => Ok(decimal_of(number as int)),
            None => Err(SettingsError::InvalidValue),
        }
    } else if value_type == "Array"@ {
        match json_compact(item) {
            Some(written) => Ok(written),
            None => Err(SettingsError::Unwritable),
        }
    } else {
        match item.text() {
            Some(text) => Ok(text),
            None => Err(SettingsError::InvalidValue),
        }
    }
}

/// The setting `key` as text, nothing where the settings have no such
/// member, or why it cannot be read.
pub open spec fn spec_setting_of(document: Json, key: Seq<char>, value_type: Seq<char>) -> Result<
    Option<Seq<char>>,
    SettingsError,
> {
    if !(document is Object) {
        Err(SettingsError::MalformedDocument)
    } else {
        match document.member(key) {
            None => Ok(None),
            Some(item) => match spec_setting_text(item, value_type) {
                Ok(text) => Ok(Some(text)),
                Err(error) => Err(error),
            },
        }
    }
}

/// The setting `key` of the settings that `document` spells.
pub open spec fn spec_read_setting(document: Seq<char>, key: Seq<char>, value_type: Seq<char>) -> Result<
    Option<Seq<char>>,
    SettingsError,
> {
    match json_parse(document) {
        None => Err(SettingsError::MalformedDocument),
        Some(settings) => spec_setting_of(settings, key, value_type),
    }
}

/// Whether `outcome` is the text, or the error, that `expected` describes.
pub open spec fn gives_setting(
    outcome: Result<Option<String>, SettingsError>,
    expected: Result<Option<Seq<char>>, SettingsError>,
) -> bool {
    match outcome {
        Ok(Some(text)) => expected == Ok::<Option<Seq<char>>, SettingsError>(Some(text@)),
        Ok(None) => expected == Ok::<Option<Seq<char>>, SettingsError>(None),
        Err(error) => expected == Err::<Option<Seq<char>>, SettingsError>(error),
    }
}

/// Reads a truth value: `true` or `false`, in lower case.
pub fn read_flag(text: &str) -> (r: Option<bool>)
    ensures
        r == spec_flag(text@),
{
    if str_eq(text, "true") {
        Some(true)
    } else if str_eq(text, "false") {
        Some(false)
    } else {
        None
    }
}

/// Makes the value of a setting from its text and the name of its type.
pub fn setting_value(text: &str, value_type: &str) -> (r: Option<Value>)
    ensures
        r is Some <==> spec_setting_value(text@, value_type@) is Some,
        r matches Some(value) ==> spec_setting_value(text@, value_type@) == Some(json_of(value)),
{
    if str_eq(value_type, "Number") {
        number_value(text)
    } else if str_eq(value_type, "Boolean") {
        match read_flag(text) {
            Some(flag) => Some(bool_value(flag)),
            None => None,
        }
    } else if str_eq(value_type, "Array") {
        match parse(text) {
            None => None,
            Some(value) => {
                if items_of(&value).is_some() {
                    Some(value)
                } else {
                    None
                }
            },
        }
    } else {
        Some(text_value(String::from_str(text)))
    }
}

/// Sets `key` to `item` in the settings.
pub fn with_setting(document: Value, key: &str, item: Value) -> (r: Result<Value, SettingsError>)
    ensures
        match r {
            Ok(next) => spec_with_setting(json_of(document), key@, json_of(item)) == Ok::<
                Json,
                SettingsError,
            >(json_of(next)),
            Err(error) => spec_with_setting(json_of(document), key@, json_of(item)) == Err::<
                Json,
                SettingsError,
            >(error),
        },
{
    let mut document = document;
    if !is_object(&document) {
        return Err(SettingsError::MalformedDocument);
    }
    set_member(&mut document, key, item);
    Ok(document)
}

/// Writes a setting of the settings that `document` spells, and gives the
/// text of the new settings.
pub fn write_setting(document: &str, key: &str, text: &str, value_type: &str) -> (r: Result<
    String,
    SettingsError,
>)
    ensures
        match r {
            Ok(written) => spec_write_setting(document@, key@, text@, value_type@) == Ok::<
                Seq<char>,
                SettingsError,
            >(written@),
            Err(error) => spec_write_setting(document@, key@, text@, value_type@) == Err::<
                Seq<char>,
                SettingsError,
            >(error),
        },
{
    let settings = match parse(document) {
        None => {
            return Err(SettingsError::MalformedDocument);
        },
        Some(settings) => settings,
    };
    let item = match setting_value(text, value_type) {
        None => {
            return Err(SettingsError::InvalidValue);
        },
        Some(item) => item,
    };
    match with_setting(settings, key, item) {
        Err(error) => Err(error),
        Ok(next) => match to_pretty_text(&next) {
            Some(written) => Ok(written),
            None => Err(SettingsError::Unwritable),
        },
    }
}

/// Reads the setting `key` as text.
pub fn setting_of(document: &Value, key: &str, value_type: &str) -> (r: Result<
    Option<String>,
    SettingsError,
>)
    ensures
        gives_setting(r, spec_setting_of(json_of(*document), key@, value_type@)),
{
    if !is_object(document) {
        return Err(SettingsError::MalformedDocument);
    }
    let item = match member(document, key) {
        None => {
            return Ok(None);
        },
        Some(item) => item,
    };
    if str_eq(value_type, "Number") {
        match integer_of(item) {
            Some(number) => Ok(Some(decimal_text(number))),
            None => Err(SettingsError::InvalidValue),
        }
    } else if str_eq(value_type, "Array") {
        match to_compact_text(item) {
            Some(written) => Ok(Some(written)),
            None => Err(SettingsError::Unwritable),
        }
    } else {
        match text_of(item) {
            Some(text) => Ok(Some(String::from_str(text))),
            None => Err(SettingsError::InvalidValue),
        }
    }
}

/// Reads the setting `key` of the settings that `document` spells.
pub fn read_setting(document: &str, key: &str, value_type: &str) -> (r: Result<
    Option<String>,
    SettingsError,
>)
    ensures
        gives_setting(r, spec_read_setting(document@, key@, value_type@)),
{
    match parse(document) {
        None => Err(SettingsError::MalformedDocument),
        Some(settings) => setting_of(&settings, key, value_type),
    }
}

} // verus!
