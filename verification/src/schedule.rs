//! Care schedules: the watering, light, humidity and temperature guidance a
//! plant carries, and how one is read out of raw model text.

use vstd::prelude::*;

use crate::json::json_of;
use crate::json::parse_json;
use crate::json::JsonValue;
use crate::text::contains_sub;
use crate::text::find_str;
use crate::text::lemma_find_from_some;
use crate::text::trim;
use crate::text::trim_spec;
use crate::executor::after_first;
use crate::executor::up_to_fence;

verus! {

/// A plant's care schedule.
#[derive(Debug, PartialEq, Eq)]
pub struct CareSchedule {
    pub light: String,
    pub water: String,
    pub humidity: String,
    pub temperature: String,
    pub care_instructions: String,
}

impl Clone for CareSchedule {
    fn clone(&self) -> (r: Self)
        ensures
            r == *self,
    {
        CareSchedule {
            light: self.light.clone(),
            water: self.water.clone(),
            humidity: self.humidity.clone(),
            temperature: self.temperature.clone(),
            care_instructions: self.care_instructions.clone(),
        }
    }
}

impl Default for CareSchedule {
    /// The fallback schedule for a plant nothing more specific is known of.
    fn default() -> (r: Self)
        ensures
            r.light@ == "Bright, indirect sunlight"@,
            r.water@ == "Water when top inch of soil is dry"@,
            r.humidity@ == "Moderate humidity (40-60%)"@,
            r.temperature@ == "18-24°C (65-75°F)"@,
            r.care_instructions@.len() == 0,
    {
        CareSchedule {
            light: "Bright, indirect sunlight".to_owned(),
            water: "Water when top inch of soil is dry".to_owned(),
            humidity: "Moderate humidity (40-60%)".to_owned(),
            temperature: "18-24°C (65-75°F)".to_owned(),
            care_instructions: String::new(),
        }
    }
}

/// The text a care-schedule reply is parsed from: the trimmed content of the
/// first tagged fence, else of the first generic fence, else the whole reply
/// trimmed.
pub open spec fn care_text_spec(s: Seq<char>) -> Seq<char> {
    if contains_sub(s, "```json"@) {
        trim_spec(up_to_fence(after_first(s, "```json"@)))
    } else if contains_sub(s, "```"@) {
        trim_spec(up_to_fence(after_first(s, "```"@)))
    } else {
        trim_spec(s)
    }
}

/// The care schedule a structured value describes, when it has all five
/// string fields.
pub open spec fn care_of_json(v: JsonValue) -> Option<CareSchedule> {
    match (
        v.spec_field("light"@),
        v.spec_field("water"@),
        v.spec_field("humidity"@),
        v.spec_field("temperature"@),
        v.spec_field("care_instructions"@),
    ) {
        (
            Some(JsonValue::String(light)),
            Some(JsonValue::String(water)),
            Some(JsonValue::String(humidity)),
            Some(JsonValue::String(temperature)),
            Some(JsonValue::String(care_instructions)),
        ) => Some(
            (CareSchedule { light, water, humidity, temperature, care_instructions }),
        ),
        _ => None,
    }
}

/// The care schedule a raw model reply describes, if any.
pub open spec fn care_schedule_spec(s: Seq<char>) -> Option<CareSchedule> {
    match json_of(care_text_spec(s)) {
        Some(v) => care_of_json(v),
        None => None,
    }
}

fn string_field_of(v: &JsonValue, key: &str) -> (r: Option<String>)
    ensures
        match r {
            Some(s) => v.spec_field(key@) == Some(JsonValue::String(s)),
            None => !(v.spec_field(key@) matches Some(JsonValue::String(_))),
        },
{
    match v.get_field(key) {
        Some(JsonValue::String(s)) => Some(s.clone()),
        _ => None,
    }
}

/// Read a care schedule out of a raw model reply: unwrap a fenced block when
/// one is there, trim, parse, and take the five string fields.
pub fn parse_care_schedule(response: &str) -> (r: Option<CareSchedule>)
    ensures
        r == care_schedule_spec(response@),
{
    let n = response.unicode_len();
    let tagged = "```json";
    let fence = "```";
    let content = if let Some(i) = find_str(response, tagged) {
        proof {
            lemma_find_from_some(response@, tagged@, 0, i as int);
        }
        let tlen = tagged.unicode_len();
        let after = response.substring_char(i + tlen, n);
        proof {
            assert(after@ =~= after_first(response@, tagged@));
        }
        match find_str(after, fence) {
            Some(j) => {
                proof {
                    lemma_find_from_some(after@, fence@, 0, j as int);
                }
                after.substring_char(0, j)
            },
            None => after,
        }
    } else if let Some(i) = find_str(response, fence) {
        proof {
            lemma_find_from_some(response@, fence@, 0, i as int);
        }
        let flen = fence.unicode_len();
        let after = response.substring_char(i + flen, n);
        proof {
            assert(after@ =~= after_first(response@, fence@));
        }
        match find_str(after, fence) {
            Some(j) => {
                proof {
                    lemma_find_from_some(after@, fence@, 0, j as int);
                }
                after.substring_char(0, j)
            },
            None => after,
        }
    } else {
        response
    };
    let trimmed = trim(content);
    proof {
        assert(trimmed@ == care_text_spec(response@));
    }
    let v = match parse_json(trimmed) {
        Some(v) => v,
        None => {
            return None;
        },
    };
    let light = string_field_of(&v, "light");
    let water = string_field_of(&v, "water");
    let humidity = string_field_of(&v, "humidity");
    let temperature = string_field_of(&v, "temperature");
    let care_instructions = string_field_of(&v, "care_instructions");
    match (light, water, humidity, temperature, care_instructions) {
        (Some(light), Some(water), Some(humidity), Some(temperature), Some(care_instructions)) => {
            Some(CareSchedule { light, water, humidity, temperature, care_instructions })
        },
        _ => None,
    }
}

} // verus!
