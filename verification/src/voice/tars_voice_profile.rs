//! The moods TARS speaks in: which one a line calls for, and the film lines
//! with the mood each is delivered in.
//!
//! Intensity, arousal and valence are held in thousandths, so that 0.9 is
//! 900 and -0.2 is -200.

use vstd::prelude::*;
use crate::text::{has_substring, lowercase, str_contains, str_equal, to_lower};

verus! {

broadcast use vstd::string::group_string_axioms;

/// The emotion a line is delivered with; intensity, arousal and valence in
/// thousandths.
#[derive(Debug, Clone)]
pub struct EmotionConfig {
    pub primary_emotion: String,
    pub intensity_milli: u32,
    pub arousal_milli: u32,
    pub valence_milli: i32,
}

/// Whether `e` is the mood `name` with the given intensity, arousal and
/// valence.
pub open spec fn is_emotion(e: EmotionConfig, name: Seq<char>, intensity: u32, arousal: u32, valence: i32) -> bool {
    &&& e.primary_emotion@ == name
    &&& e.intensity_milli == intensity
    &&& e.arousal_milli == arousal
    &&& e.valence_milli == valence
}

/// Builds a mood.
fn emotion(name: &str, intensity: u32, arousal: u32, valence: i32) -> (e: EmotionConfig)
    ensures
        is_emotion(e, name@, intensity, arousal, valence),
{
    EmotionConfig {
        primary_emotion: String::from_str(name),
        intensity_milli: intensity,
        arousal_milli: arousal,
        valence_milli: valence,
    }
}

/// Whether a lower-cased line mentions any of three words.
pub open spec fn mentions_any(lower: Seq<char>, a: Seq<char>, b: Seq<char>, c: Seq<char>) -> bool {
    has_substring(lower, a) || has_substring(lower, b) || has_substring(lower, c)
}

/// Whether a lower-cased line raises the alarm.
pub open spec fn sounds_alarm(lower: Seq<char>) -> bool {
    mentions_any(lower, "emergency"@, "alert"@, "danger"@)
}

/// Whether a lower-cased line is a joke.
pub open spec fn is_joking(lower: Seq<char>) -> bool {
    mentions_any(lower, "joke"@, "humor"@, "funny"@)
}

/// Whether a lower-cased line invites sarcasm.
pub open spec fn invites_sarcasm(lower: Seq<char>) -> bool {
    mentions_any(lower, "perfect"@, "excellent"@, "wonderful"@)
}

/// Whether a lower-cased line in a context is a status report.
pub open spec fn is_status_report(lower: Seq<char>, context: Seq<char>) -> bool {
    context == "status"@ || has_substring(lower, "status"@) || has_substring(lower, "report"@)
}

/// The mood for a lower-cased line in a context, by the first rule that
/// applies: an alarm is an emergency alert (0.9, 0.8, -0.2); a joke deadpan
/// humour (0.7, 0.3, 0.5); Cooper's name a Cooper interaction (0.6, 0.4,
/// 0.1); praise a sarcastic response (0.5, 0.3, -0.1); a status context or a
/// mention of status or a report a status report (0.4, 0.2, 0); anything else
/// mission focus (0.5, 0.3, 0).
pub open spec fn is_mood_for(e: EmotionConfig, lower: Seq<char>, context: Seq<char>) -> bool {
    if sounds_alarm(lower) {
        is_emotion(e, "emergency_alert"@, 900, 800, -200i32)
    } else if is_joking(lower) {
        is_emotion(e, "deadpan_humor"@, 700, 300, 500)
    } else if has_substring(lower, "cooper"@) {
        is_emotion(e, "cooper_interaction"@, 600, 400, 100)
    } else if invites_sarcasm(lower) {
        is_emotion(e, "sarcastic_response"@, 500, 300, -100i32)
    } else if is_status_report(lower, context) {
        is_emotion(e, "status_report"@, 400, 200, 0)
    } else {
        is_emotion(e, "mission_focused"@, 500, 300, 0)
    }
}

/// Whether a line mentions any of three words.
fn mentions(lower: &str, a: &str, b: &str, c: &str) -> (r: bool)
    ensures
        r == mentions_any(lower@, a@, b@, c@),
{
    str_contains(lower, a) || str_contains(lower, b) || str_contains(lower, c)
}

/// The mood for a line already in lower case, in a context.
pub fn mood_for_lowered(lower: &str, context: &str) -> (e: EmotionConfig)
    ensures
        is_mood_for(e, lower@, context@),
{
    if mentions(lower, "emergency", "alert", "danger") {
        emotion("emergency_alert", 900, 800, -200)
    } else if mentions(lower, "joke", "humor", "funny") {
        emotion("deadpan_humor", 700, 300, 500)
    } else if str_contains(lower, "cooper") {
        emotion("cooper_interaction", 600, 400, 100)
    } else if mentions(lower, "perfect", "excellent", "wonderful") {
        emotion("sarcastic_response", 500, 300, -100)
    } else if str_equal(context, "status") || str_contains(lower, "status") || str_contains(lower, "report") {
        emotion("status_report", 400, 200, 0)
    } else {
        emotion("mission_focused", 500, 300, 0)
    }
}

/// The mood a line calls for: the rules of `mood_for_lowered` applied to the
/// line in lower case. There always is one.
pub fn analyze_text_for_emotion(text: &str, context: &str) -> (r: Option<EmotionConfig>)
    ensures
        r matches Some(e) && is_mood_for(e, lowercase(text@), context@),
{
    let lower = to_lower(text);
    Some(mood_for_lowered(lower.as_str(), context))
}

/// Whether `q` is a film line delivered in the given mood.
pub open spec fn is_quote(q: (String, EmotionConfig), line: Seq<char>, name: Seq<char>, i: u32, a: u32, v: i32) -> bool {
    q.0@ == line && is_emotion(q.1, name, i, a, v)
}

/// Whether `v` holds TARS's famous lines with the mood of each, in the
/// order of the film.
pub open spec fn is_famous_quote_list(v: Seq<(String, EmotionConfig)>) -> bool {
    &&& v.len() == 5
    &&& is_quote(v[0], "Plenty of slaves for my robot colony"@, "deadpan_humor"@, 800, 200, 600)
    &&& is_quote(
        v[1],
        "I have a cue light I can use to show you when I'm joking, if you like"@,
        "sarcastic_response"@,
        600,
        300,
        200,
    )
    &&& is_quote(v[2], "Honesty, new setting: 95 percent"@, "mission_focused"@, 500, 300, 0)
    &&& is_quote(v[3], "Cooper, this is no time for caution"@, "cooper_interaction"@, 900, 800, -300i32)
    &&& is_quote(v[4], "See you on the other side, Coop"@, "cooper_interaction"@, 700, 400, 100)
}

/// TARS's famous lines with the mood of each, in the order of the film.
pub fn get_famous_quotes() -> (v: Vec<(String, EmotionConfig)>)
    ensures
        is_famous_quote_list(v@),
{
    let mut v: Vec<(String, EmotionConfig)> = Vec::new();
    v.push((String::from_str("Plenty of slaves for my robot colony"), emotion("deadpan_humor", 800, 200, 600)));
    v.push((
        String::from_str("I have a cue light I can use to show you when I'm joking, if you like"),
        emotion("sarcastic_response", 600, 300, 200),
    ));
    v.push((String::from_str("Honesty, new setting: 95 percent"), emotion("mission_focused", 500, 300, 0)));
    v.push((String::from_str("Cooper, this is no time for caution"), emotion("cooper_interaction", 900, 800, -300)));
    v.push((String::from_str("See you on the other side, Coop"), emotion("cooper_interaction", 700, 400, 100)));
    v
}

/// TARS's famous lines with their moods, as the voice profile gives them.
pub fn get_tars_famous_quotes() -> (v: Vec<(String, EmotionConfig)>)
    ensures
        is_famous_quote_list(v@),
{
    get_famous_quotes()
}

} // verus!
