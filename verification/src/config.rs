use vstd::prelude::*;
use crate::json::{Json, parse_json, json_parse, json_get};
use crate::manifest::{number_field, number_of};

verus! {

/// The persisted settings as found in a config file: the text of each
/// number that is present, before it is read as a float and clamped.
#[derive(Debug)]
pub struct ConfigFields {
    pub master_volume: Option<String>,
    pub mouse_sensitivity: Option<String>,
    pub day_length_s: Option<String>,
}

/// A view of `ConfigFields` over character sequences.
pub struct ConfigFieldsView {
    pub master_volume: Option<Seq<char>>,
    pub mouse_sensitivity: Option<Seq<char>>,
    pub day_length_s: Option<Seq<char>>,
}

pub open spec fn opt_view(o: Option<String>) -> Option<Seq<char>> {
    match o {
        Some(s) => Some(s@),
        None => None,
    }
}

impl ConfigFields {
    pub open spec fn view(&self) -> ConfigFieldsView {
        ConfigFieldsView {
            master_volume: opt_view(self.master_volume),
            mouse_sensitivity: opt_view(self.mouse_sensitivity),
            day_length_s: opt_view(self.day_length_s),
        }
    }
}

/// The settings read from a parsed config document: only an object is a
/// config, and each setting is taken when it is a number.
pub open spec fn config_of(root: Json) -> Option<ConfigFieldsView> {
    match root {
        Json::Object(_) => Some(ConfigFieldsView {
            master_volume: number_of(root, "master_volume"@),
            mouse_sensitivity: number_of(root, "mouse_sensitivity"@),
            day_length_s: number_of(root, "day_length_s"@),
        }),
        _ => None,
    }
}

pub fn config_from_json(root: &Json) -> (r: Option<ConfigFields>)
    ensures
        match r {
            Some(f) => config_of(*root) == Some(f.view()),
            None => config_of(*root) is None,
        },
{
    match root {
        Json::Object(_) => Some(ConfigFields {
            master_volume: number_field(root, "master_volume"),
            mouse_sensitivity: number_field(root, "mouse_sensitivity"),
            day_length_s: number_field(root, "day_length_s"),
        }),
        _ => None,
    }
}

/// Reads the settings from the text of a config file: `None` when the text
/// is not JSON or not an object.
pub fn parse_config(text: &str) -> (r: Option<ConfigFields>)
    ensures
        match json_parse(text@) {
            Some(root) => match r {
                Some(f) => config_of(root) == Some(f.view()),
                None => config_of(root) is None,
            },
            None => r is None,
        },
{
    match parse_json(text) {
        Some(root) => config_from_json(&root),
        None => None,
    }
}

/// A config is any JSON object, and each setting is read from its own
/// member: the member's number text when it is a number, and nothing when
/// it is missing or holds anything else.
pub proof fn lemma_config_own_members(root: Json)
    ensures
        config_of(root) is Some <==> root is Object,
        config_of(root) is Some ==> {
            let c = config_of(root).unwrap();
            &&& c.master_volume == match json_get(root, "master_volume"@) {
                Some(Json::Number(t)) => Some(t@),
                _ => None,
            }
            &&& c.mouse_sensitivity == match json_get(root, "mouse_sensitivity"@) {
                Some(Json::Number(t)) => Some(t@),
                _ => None,
            }
            &&& c.day_length_s == match json_get(root, "day_length_s"@) {
                Some(Json::Number(t)) => Some(t@),
                _ => None,
            }
        },
{
}

} // verus!
