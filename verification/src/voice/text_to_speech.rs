//! Text-to-speech: engine configuration types, the priority speech queue and
//! the TARS text shaping applied before synthesis.

use vstd::prelude::*;
use vstd::hash_map::StringHashMap;
use crate::text::{owned, replace_str, replace_all, has_substring, str_contains, to_upper, uppercase, join2};

verus! {

broadcast use vstd::string::group_string_axioms;

/// Which synthesizer produces the audio.
#[derive(Debug, Clone)]
pub enum TTSEngine {
    Local(LocalTTSConfig),
    Cloud(CloudTTSConfig),
    Hybrid,
    Neural(NeuralTTSConfig),
}

/// An on-device synthesizer.
#[derive(Debug, Clone)]
pub struct LocalTTSConfig {
    pub engine_name: String,
    pub voice_model_path: String,
    pub sample_rate: u32,
    pub buffer_size: usize,
}

/// A hosted synthesis service.
#[derive(Debug, Clone)]
pub struct CloudTTSConfig {
    pub service_provider: String,
    pub api_key: Option<String>,
    pub region: String,
    pub voice_name: String,
    pub neural_voice: bool,
}

/// A neural acoustic model with its vocoder.
#[derive(Debug, Clone)]
pub struct NeuralTTSConfig {
    pub model_path: String,
    pub vocoder_path: String,
    pub speaker_embeddings: Option<String>,
    pub emotion_model: Option<String>,
}

#[derive(Debug, Clone, Copy, PartialEq, Eq)]
pub enum Gender {
    Male,
    Female,
    Neutral,
    Synthetic,
}

#[derive(Debug, Clone, Copy, PartialEq, Eq)]
pub enum AgeGroup {
    Young,
    Adult,
    Middle,
    Elderly,
    Synthetic,
}

#[derive(Debug, Clone, Copy, PartialEq, Eq)]
pub enum PersonalityTrait {
    Authoritative,
    Friendly,
    Professional,
    Sarcastic,
    Humorous,
    Analytical,
    Reassuring,
    Direct,
}

#[derive(Debug, Clone, Copy, PartialEq, Eq)]
pub enum AudioFormat {
    WAV,
    MP3,
    OGG,
    FLAC,
    Raw,
}

/// How urgently a message is spoken; the queue serves higher priorities
/// first.
#[derive(Debug, Clone, Copy, PartialEq, Eq)]
pub enum SpeechPriority {
    Critical,
    High,
    Normal,
    Low,
}

/// What a message is about; it selects the tone applied to the text.
#[derive(Debug, Clone, Copy, PartialEq, Eq)]
pub enum SpeechContext {
    Emergency,
    EngineeringTask,
    CodeReview,
    SystemStatus,
    RemoteOperation,
    Conversation,
    Tutorial,
    Confirmation,
}

#[derive(Debug, Clone, Copy, PartialEq, Eq)]
pub enum Emotion {
    Neutral,
    Confident,
    Concerned,
    Amused,
    Serious,
    Sarcastic,
    Proud,
    Analytical,
    Reassuring,
    Urgent,
}

/// Synthesized audio with the text that produced it.
#[derive(Debug, Clone)]
pub struct AudioOutput {
    pub audio_data: Vec<u8>,
    pub duration_ms: u64,
    pub sample_rate: u32,
    pub channels: u16,
    pub format: AudioFormat,
    pub text_processed: String,
}

/// Rank of a priority: smaller is served earlier.
pub open spec fn priority_rank(p: SpeechPriority) -> nat {
    match p {
        SpeechPriority::Critical => 0,
        SpeechPriority::High => 1,
        SpeechPriority::Normal => 2,
        SpeechPriority::Low => 3,
    }
}

fn rank_of(p: SpeechPriority) -> (r: u8)
    ensures
        r == priority_rank(p),
{
    match p {
        SpeechPriority::Critical => 0,
        SpeechPriority::High => 1,
        SpeechPriority::Normal => 2,
        SpeechPriority::Low => 3,
    }
}

/// The queue's entries are ordered by rank.
pub open spec fn ranks_sorted<T>(s: Seq<(SpeechPriority, T)>) -> bool {
    forall|i: int, j: int| 0 <= i <= j < s.len() ==> priority_rank(s[i].0) <= priority_rank(s[j].0)
}

/// Where an entry of priority `p` goes: critical messages go to the front,
/// low ones to the back, high and normal ones before the first entry of a
/// lower priority.
pub open spec fn is_insert_pos<T>(s: Seq<(SpeechPriority, T)>, p: SpeechPriority, pos: int) -> bool {
    match p {
        SpeechPriority::Critical => pos == 0,
        SpeechPriority::Low => pos == s.len(),
        _ => {
            &&& 0 <= pos <= s.len()
            &&& forall|j: int| 0 <= j < pos ==> priority_rank(s[j].0) <= priority_rank(p)
            &&& pos < s.len() ==> priority_rank(s[pos].0) > priority_rank(p)
        },
    }
}

/// The status key of a priority.
pub open spec fn priority_key(p: SpeechPriority) -> Seq<char> {
    match p {
        SpeechPriority::Critical => "critical"@,
        SpeechPriority::High => "high"@,
        SpeechPriority::Normal => "normal"@,
        SpeechPriority::Low => "low"@,
    }
}

/// Count of queued messages per priority key, for the priorities present.
pub open spec fn status_of<T>(s: Seq<(SpeechPriority, T)>) -> Map<Seq<char>, usize>
    decreases s.len(),
{
    if s.len() == 0 {
        Map::empty()
    } else {
        let m = status_of(s.drop_last());
        let k = priority_key(s.last().0);
        m.insert(k, if m.contains_key(k) { (m[k] + 1) as usize } else { 1usize })
    }
}

/// Pending messages, served by priority.
pub struct SpeechQueue<T> {
    items: Vec<(SpeechPriority, T)>,
}

impl<T> SpeechQueue<T> {
    /// The queued entries in serving order.
    pub closed spec fn contents(&self) -> Seq<(SpeechPriority, T)> {
        self.items@
    }

    /// The queue is ordered by priority.
    pub open spec fn wf(&self) -> bool {
        ranks_sorted(self.contents())
    }

    /// An empty queue.
    pub fn new() -> (q: Self)
        ensures
            q.wf(),
            q.contents() == Seq::<(SpeechPriority, T)>::empty(),
    {
        SpeechQueue { items: Vec::new() }
    }

    /// The number of queued messages.
    pub fn len(&self) -> (n: usize)
        ensures
            n == self.contents().len(),
    {
        self.items.len()
    }

    /// Queues `item` at the position its priority gives it.
    pub fn enqueue(&mut self, priority: SpeechPriority, item: T) -> (r: Result<(), String>)
        requires
            old(self).wf(),
        ensures
            final(self).wf(),
            r is Ok,
            exists|pos: int|
                is_insert_pos(old(self).contents(), priority, pos) && final(self).contents()
                    == old(self).contents().insert(pos, (priority, item)),
    {
        let ghost s = self.items@;
        let pos: usize = match priority {
            SpeechPriority::Critical => 0,
            SpeechPriority::Low => self.items.len(),
            _ => {
                let r = rank_of(priority);
                let mut i: usize = 0;
                while i < self.items.len() && rank_of(self.items[i].0) <= r
                    invariant
                        i <= self.items@.len(),
                        self.items@ == s,
                        r == priority_rank(priority),
                        forall|j: int| 0 <= j < i ==> priority_rank(s[j].0) <= priority_rank(priority),
                    decreases self.items@.len() - i,
                {
                    i = i + 1;
                }
                i
            },
        };
        assert(is_insert_pos(s, priority, pos as int));
        self.items.insert(pos, (priority, item));
        let ghost t = self.items@;
        assert forall|i: int, j: int| 0 <= i <= j < t.len() implies priority_rank(t[i].0)
            <= priority_rank(t[j].0) by {
            let i0 = if i < pos { i } else { i - 1 };
            let j0 = if j < pos { j } else { j - 1 };
            if i == pos as int && j == pos as int {
            } else if i == pos as int {
                assert(t[j] == s[j0]);
                if pos as int <= j0 {
                    match priority {
                        SpeechPriority::Critical => {},
                        SpeechPriority::Low => {},
                        _ => { assert(priority_rank(s[pos as int].0) <= priority_rank(s[j0].0)); },
                    }
                }
            } else if j == pos as int {
                assert(t[i] == s[i0]);
            } else {
                assert(t[i] == s[i0]);
                assert(t[j] == s[j0]);
            }
        }
        Ok(())
    }

    /// Takes the next message to speak.
    pub fn dequeue(&mut self) -> (r: Option<(SpeechPriority, T)>)
        requires
            old(self).wf(),
        ensures
            final(self).wf(),
            old(self).contents().len() == 0 ==> r is None && final(self).contents() == old(self).contents(),
            old(self).contents().len() > 0 ==> r == Some(old(self).contents()[0])
                && final(self).contents() == old(self).contents().drop_first(),
    {
        if self.items.len() == 0 {
            None
        } else {
            let e = self.items.remove(0);
            proof {
                let s = old(self).contents();
                let t = self.items@;
                assert forall|i: int, j: int| 0 <= i <= j < t.len() implies priority_rank(t[i].0)
                    <= priority_rank(t[j].0) by {
                    assert(t[i] == s[i + 1]);
                    assert(t[j] == s[j + 1]);
                }
                assert(t =~= s.drop_first());
            }
            Some(e)
        }
    }

    /// Drops every queued message.
    pub fn clear(&mut self)
        ensures
            final(self).wf(),
            final(self).contents() == Seq::<(SpeechPriority, T)>::empty(),
    {
        self.items.clear();
    }

    /// How many messages of each priority are queued, keyed `critical`,
    /// `high`, `normal`, `low`; absent priorities have no key.
    pub fn get_status(&self) -> (m: StringHashMap<usize>)
        ensures
            m@ == status_of(self.contents()),
    {
        let mut m: StringHashMap<usize> = StringHashMap::new();
        let mut i: usize = 0;
        while i < self.items.len()
            invariant
                i <= self.items@.len(),
                m@ == status_of(self.items@.take(i as int)),
                forall|k: Seq<char>| #[trigger] m@.contains_key(k) ==> m@[k] <= i,
            decreases self.items@.len() - i,
        {
            let ghost prev = m@;
            let key: &str = match self.items[i].0 {
                SpeechPriority::Critical => "critical",
                SpeechPriority::High => "high",
                SpeechPriority::Normal => "normal",
                SpeechPriority::Low => "low",
            };
            assert(key@ == priority_key(self.items@[i as int].0));
            let count: usize = match m.get(key) {
                Some(c) => *c + 1,
                None => 1,
            };
            m.insert(owned(key), count);
            proof {
                let t = self.items@.take(i + 1);
                assert(t.drop_last() =~= self.items@.take(i as int));
                assert(t.last() == self.items@[i as int]);
            }
            i = i + 1;
        }
        assert(self.items@.take(self.items@.len() as int) =~= self.items@);
        m
    }
}

/// Rising-priority law: the message served next has the smallest rank in
/// the queue.
pub proof fn law_dequeue_serves_highest_priority<T>(s: Seq<(SpeechPriority, T)>)
    requires
        ranks_sorted(s),
        s.len() > 0,
    ensures
        forall|j: int| 0 <= j < s.len() ==> priority_rank(s[0].0) <= priority_rank(#[trigger] s[j].0),
{
}

/// A message of high, normal or low priority is served after every message
/// of the same priority already queued.
pub proof fn law_same_priority_first_in_first_out<T>(
    s: Seq<(SpeechPriority, T)>,
    p: SpeechPriority,
    item: T,
    pos: int,
)
    requires
        ranks_sorted(s),
        p != SpeechPriority::Critical,
        is_insert_pos(s, p, pos),
    ensures
        forall|j: int| 0 <= j < s.len() && s[j].0 == p ==> j < pos,
{
    assert forall|j: int| 0 <= j < s.len() && s[j].0 == p implies j < pos by {
        if j >= pos {
            match p {
                SpeechPriority::Low => {},
                _ => {
                    assert(priority_rank(s[pos].0) <= priority_rank(s[j].0));
                },
            }
        }
    }
}

/// Humor inflection marks the joke words.
pub open spec fn humor_inflection_spec(t: Seq<char>) -> Seq<char> {
    replace_all(
        replace_all(replace_all(t, "like"@, "*like*"@), "would have said"@, "*would have said*"@),
        "Eventually"@,
        "*Eventually*"@,
    )
}

/// Sarcasm markers underline the words TARS says with a straight face.
pub open spec fn sarcasm_markers_spec(t: Seq<char>) -> Seq<char> {
    replace_all(
        replace_all(replace_all(t, "perfect"@, "_perfect_"@), "excellent"@, "_excellent_"@),
        "wonderful"@,
        "_wonderful_"@,
    )
}

/// Names from the film are set in bold.
pub open spec fn movie_references_spec(t: Seq<char>) -> Seq<char> {
    replace_all(
        replace_all(
            replace_all(
                replace_all(
                    replace_all(replace_all(t, "Cooper"@, "**Cooper**"@), "Brand"@, "**Brand**"@),
                    "Mann"@,
                    "**Mann**"@,
                ),
                "CASE"@,
                "**CASE**"@,
            ),
            "Gargantua"@,
            "**Gargantua**"@,
        ),
        "Endurance"@,
        "**Endurance**"@,
    )
}

/// Pauses after Cooper's name, when the text names him.
pub open spec fn cooper_style_spec(t: Seq<char>) -> Seq<char> {
    if has_substring(t, "Cooper"@) {
        replace_all(replace_all(t, "Cooper,"@, "Cooper... "@), "Cooper."@, "Cooper. "@)
    } else {
        t
    }
}

/// Technical terms are emphasised in code review speech.
pub open spec fn analytical_tone_spec(t: Seq<char>) -> Seq<char> {
    replace_all(
        replace_all(replace_all(t, "analysis"@, "*analysis*"@), "result"@, "*result*"@),
        "recommendation"@,
        "*recommendation*"@,
    )
}

/// Sequence words are emphasised in tutorials.
pub open spec fn instructional_tone_spec(t: Seq<char>) -> Seq<char> {
    replace_all(
        replace_all(
            replace_all(replace_all(t, "first"@, "*first*"@), "next"@, "*next*"@),
            "then"@,
            "*then*"@,
        ),
        "finally"@,
        "*finally*"@,
    )
}

/// The tone a context gives to the text.
pub open spec fn context_tone_spec(t: Seq<char>, context: SpeechContext) -> Seq<char> {
    match context {
        SpeechContext::Emergency => "ALERT: "@ + uppercase(t),
        SpeechContext::EngineeringTask => t,
        SpeechContext::CodeReview => analytical_tone_spec(t),
        SpeechContext::SystemStatus => "Status: "@ + t,
        SpeechContext::RemoteOperation => "Operation: "@ + t,
        SpeechContext::Conversation => t,
        SpeechContext::Tutorial => instructional_tone_spec(t),
        SpeechContext::Confirmation => "Confirmed: "@ + t,
    }
}

/// The full TARS shaping of a message: optional humor, sarcasm, film-name
/// and Cooper markers, then the tone of the context.
pub open spec fn personality_processing_spec(
    t: Seq<char>,
    humor: bool,
    sarcasm: bool,
    movie_references: bool,
    cooper_mode: bool,
    context: SpeechContext,
) -> Seq<char> {
    let a = if humor { humor_inflection_spec(t) } else { t };
    let b = if sarcasm { sarcasm_markers_spec(a) } else { a };
    let c = if movie_references { movie_references_spec(b) } else { b };
    let d = if cooper_mode { cooper_style_spec(c) } else { c };
    context_tone_spec(d, context)
}

/// Marks the joke words of a message.
pub fn add_humor_inflection(text: &str) -> (r: String)
    ensures
        r@ == humor_inflection_spec(text@),
{
    proof {
        reveal_strlit("like");
        reveal_strlit("would have said");
        reveal_strlit("Eventually");
    }
    let a = replace_str(text, "like", "*like*");
    let b = replace_str(a.as_str(), "would have said", "*would have said*");
    replace_str(b.as_str(), "Eventually", "*Eventually*")
}

/// Marks the words TARS says sarcastically.
pub fn add_sarcasm_markers(text: &str) -> (r: String)
    ensures
        r@ == sarcasm_markers_spec(text@),
{
    proof {
        reveal_strlit("perfect");
        reveal_strlit("excellent");
        reveal_strlit("wonderful");
    }
    let a = replace_str(text, "perfect", "_perfect_");
    let b = replace_str(a.as_str(), "excellent", "_excellent_");
    replace_str(b.as_str(), "wonderful", "_wonderful_")
}

/// Sets the film's names in bold.
pub fn emphasize_movie_references(text: &str) -> (r: String)
    ensures
        r@ == movie_references_spec(text@),
{
    proof {
        reveal_strlit("Cooper");
        reveal_strlit("Brand");
        reveal_strlit("Mann");
        reveal_strlit("CASE");
        reveal_strlit("Gargantua");
        reveal_strlit("Endurance");
    }
    let a = replace_str(text, "Cooper", "**Cooper**");
    let b = replace_str(a.as_str(), "Brand", "**Brand**");
    let c = replace_str(b.as_str(), "Mann", "**Mann**");
    let d = replace_str(c.as_str(), "CASE", "**CASE**");
    let e = replace_str(d.as_str(), "Gargantua", "**Gargantua**");
    replace_str(e.as_str(), "Endurance", "**Endurance**")
}

/// Adds pauses after Cooper's name when the text names him.
pub fn apply_cooper_interaction_style(text: &str) -> (r: String)
    ensures
        r@ == cooper_style_spec(text@),
{
    proof {
        reveal_strlit("Cooper,");
        reveal_strlit("Cooper.");
    }
    if str_contains(text, "Cooper") {
        let a = replace_str(text, "Cooper,", "Cooper... ");
        replace_str(a.as_str(), "Cooper.", "Cooper. ")
    } else {
        owned(text)
    }
}

/// The tone a context gives to the text.
pub fn apply_context_tone(text: &str, context: SpeechContext) -> (r: String)
    ensures
        r@ == context_tone_spec(text@, context),
{
    proof {
        reveal_strlit("analysis");
        reveal_strlit("result");
        reveal_strlit("recommendation");
        reveal_strlit("first");
        reveal_strlit("next");
        reveal_strlit("then");
        reveal_strlit("finally");
    }
    match context {
        SpeechContext::Emergency => {
            let up = to_upper(text);
            join2("ALERT: ", up.as_str())
        },
        SpeechContext::EngineeringTask => owned(text),
        SpeechContext::CodeReview => {
            let a = replace_str(text, "analysis", "*analysis*");
            let b = replace_str(a.as_str(), "result", "*result*");
            replace_str(b.as_str(), "recommendation", "*recommendation*")
        },
        SpeechContext::SystemStatus => join2("Status: ", text),
        SpeechContext::RemoteOperation => join2("Operation: ", text),
        SpeechContext::Conversation => owned(text),
        SpeechContext::Tutorial => {
            let a = replace_str(text, "first", "*first*");
            let b = replace_str(a.as_str(), "next", "*next*");
            let c = replace_str(b.as_str(), "then", "*then*");
            replace_str(c.as_str(), "finally", "*finally*")
        },
        SpeechContext::Confirmation => join2("Confirmed: ", text),
    }
}

/// Shapes a message in TARS's manner before synthesis. `humor` and
/// `sarcasm` say whether the voice calibration's humor and sarcasm levels
/// are high enough for their markers.
pub fn apply_tars_personality_processing(
    text: &str,
    humor: bool,
    sarcasm: bool,
    movie_references: bool,
    cooper_mode: bool,
    context: SpeechContext,
) -> (r: String)
    ensures
        r@ == personality_processing_spec(text@, humor, sarcasm, movie_references, cooper_mode, context),
{
    let mut t = owned(text);
    if humor {
        t = add_humor_inflection(t.as_str());
    }
    if sarcasm {
        t = add_sarcasm_markers(t.as_str());
    }
    if movie_references {
        t = emphasize_movie_references(t.as_str());
    }
    if cooper_mode {
        t = apply_cooper_interaction_style(t.as_str());
    }
    apply_context_tone(t.as_str(), context)
}

/// TARS's voice calibration: humour, sarcasm, directness and focus levels in
/// thousandths, and whether film lines and Cooper are stressed.
#[derive(Debug, Clone, Copy, PartialEq, Eq, Structural)]
pub struct TARSVoiceCalibration {
    pub humor_modulation_milli: u32,
    pub sarcasm_tone_milli: u32,
    pub honesty_directness_milli: u32,
    pub mission_focus_intensity_milli: u32,
    pub movie_reference_emphasis: bool,
    pub cooper_interaction_mode: bool,
}

/// A voice: who it sounds like and how TARS's manner is calibrated.
#[derive(Debug, Clone)]
pub struct VoiceProfile {
    pub name: String,
    pub gender: Gender,
    pub age_group: AgeGroup,
    pub accent: String,
    pub personality_traits: Vec<PersonalityTrait>,
    pub tars_calibration: TARSVoiceCalibration,
}

/// TARS's calibration: humour 0.75, sarcasm 0.3, directness 0.9, full
/// focus, film lines and Cooper stressed.
pub open spec fn tars_calibration() -> TARSVoiceCalibration {
    TARSVoiceCalibration {
        humor_modulation_milli: 750,
        sarcasm_tone_milli: 300,
        honesty_directness_milli: 900,
        mission_focus_intensity_milli: 1000,
        movie_reference_emphasis: true,
        cooper_interaction_mode: true,
    }
}

/// Whether `p` is TARS's voice: a synthetic, American-neutral voice that is
/// authoritative, analytical, sarcastic, humorous and direct, with TARS's
/// calibration.
pub open spec fn is_tars_voice(p: VoiceProfile) -> bool {
    &&& p.name@ == "TARS"@
    &&& p.gender == Gender::Synthetic
    &&& p.age_group == AgeGroup::Synthetic
    &&& p.accent@ == "American Neutral"@
    &&& p.personality_traits@ == seq![
        PersonalityTrait::Authoritative,
        PersonalityTrait::Analytical,
        PersonalityTrait::Sarcastic,
        PersonalityTrait::Humorous,
        PersonalityTrait::Direct,
    ]
    &&& p.tars_calibration == tars_calibration()
}

impl VoiceProfile {
    /// TARS's voice.
    pub fn tars_default() -> (p: Self)
        ensures
            is_tars_voice(p),
    {
        let mut personality_traits: Vec<PersonalityTrait> = Vec::new();
        personality_traits.push(PersonalityTrait::Authoritative);
        personality_traits.push(PersonalityTrait::Analytical);
        personality_traits.push(PersonalityTrait::Sarcastic);
        personality_traits.push(PersonalityTrait::Humorous);
        personality_traits.push(PersonalityTrait::Direct);
        let p = VoiceProfile {
            name: String::from_str("TARS"),
            gender: Gender::Synthetic,
            age_group: AgeGroup::Synthetic,
            accent: String::from_str("American Neutral"),
            personality_traits,
            tars_calibration: TARSVoiceCalibration {
                humor_modulation_milli: 750,
                sarcasm_tone_milli: 300,
                honesty_directness_milli: 900,
                mission_focus_intensity_milli: 1000,
                movie_reference_emphasis: true,
                cooper_interaction_mode: true,
            },
        };
        assert(p.personality_traits@ =~= seq![
            PersonalityTrait::Authoritative,
            PersonalityTrait::Analytical,
            PersonalityTrait::Sarcastic,
            PersonalityTrait::Humorous,
            PersonalityTrait::Direct,
        ]);
        p
    }
}

/// The mood a message is spoken in: its main emotion with an intensity in
/// thousandths, and others with theirs.
#[derive(Debug, Clone)]
pub struct EmotionalState {
    pub primary_emotion: Emotion,
    pub intensity_milli: u32,
    pub secondary_emotions: Vec<(Emotion, u32)>,
}

/// Settings a message asks for in place of the engine's: rate, pitch and
/// volume in thousandths, and a voice by name.
#[derive(Debug, Clone)]
pub struct TTSOverrides {
    pub rate_milli: Option<u32>,
    pub pitch_milli: Option<i32>,
    pub volume_milli: Option<u32>,
    pub voice_profile: Option<String>,
}

/// A message to speak.
#[derive(Debug, Clone)]
pub struct SpeechRequest {
    pub text: String,
    pub priority: SpeechPriority,
    pub context: SpeechContext,
    pub emotional_state: Option<EmotionalState>,
    pub override_settings: Option<TTSOverrides>,
}

/// How a mood and a priority change the delivery: rate as a multiplier,
/// pitch and volume as offsets, emphasis as an intensity, all in thousandths.
#[derive(Debug, Clone, Copy, PartialEq, Eq, Structural)]
pub struct EmotionalParameters {
    pub rate_modifier_milli: u32,
    pub pitch_modifier_milli: i32,
    pub volume_modifier_milli: i32,
    pub emphasis_intensity_milli: u32,
}

/// The delivery of a message with no mood: normal rate, pitch and volume,
/// emphasis 0.5.
pub open spec fn neutral_parameters() -> EmotionalParameters {
    EmotionalParameters {
        rate_modifier_milli: 1000,
        pitch_modifier_milli: 0,
        volume_modifier_milli: 0,
        emphasis_intensity_milli: 500,
    }
}

impl Default for EmotionalParameters {
    /// Normal rate, pitch and volume, emphasis 0.5.
    fn default() -> (p: Self)
        ensures
            p == neutral_parameters(),
    {
        EmotionalParameters {
            rate_modifier_milli: 1000,
            pitch_modifier_milli: 0,
            volume_modifier_milli: 0,
            emphasis_intensity_milli: 500,
        }
    }
}

/// How fast an emotion is spoken, in thousandths of the normal rate.
pub open spec fn emotion_rate(e: Emotion) -> u32 {
    match e {
        Emotion::Urgent => 1300,
        Emotion::Serious => 900,
        Emotion::Amused => 1100,
        Emotion::Reassuring => 850,
        _ => 1000,
    }
}

/// How an emotion moves the pitch, in thousandths.
pub open spec fn emotion_pitch(e: Emotion) -> i32 {
    match e {
        Emotion::Confident => 100,
        Emotion::Concerned => -50i32,
        Emotion::Amused => 150,
        Emotion::Serious => -100i32,
        Emotion::Sarcastic => 50,
        _ => 0,
    }
}

/// How an emotion moves the volume, in thousandths.
pub open spec fn emotion_volume(e: Emotion) -> i32 {
    match e {
        Emotion::Urgent => 200,
        Emotion::Reassuring => -100i32,
        Emotion::Confident => 100,
        _ => 0,
    }
}

/// The delivery of a message: its mood sets rate, pitch, volume and
/// emphasis (none leaves the neutral delivery); then a critical message is
/// sped up by a fifth and made louder by 0.2, an important one louder by
/// 0.1, and a background one slowed to nine tenths and made quieter by 0.1.
pub open spec fn emotional_parameters_spec(priority: SpeechPriority, state: Option<EmotionalState>) -> EmotionalParameters {
    let base = match state {
        Some(s) => EmotionalParameters {
            rate_modifier_milli: emotion_rate(s.primary_emotion),
            pitch_modifier_milli: emotion_pitch(s.primary_emotion),
            volume_modifier_milli: emotion_volume(s.primary_emotion),
            emphasis_intensity_milli: s.intensity_milli,
        },
        None => neutral_parameters(),
    };
    match priority {
        SpeechPriority::Critical => EmotionalParameters {
            rate_modifier_milli: (base.rate_modifier_milli * 6 / 5) as u32,
            volume_modifier_milli: (base.volume_modifier_milli + 200) as i32,
            ..base
        },
        SpeechPriority::High => EmotionalParameters {
            volume_modifier_milli: (base.volume_modifier_milli + 100) as i32,
            ..base
        },
        SpeechPriority::Low => EmotionalParameters {
            rate_modifier_milli: (base.rate_modifier_milli * 9 / 10) as u32,
            volume_modifier_milli: (base.volume_modifier_milli - 100) as i32,
            ..base
        },
        SpeechPriority::Normal => base,
    }
}

/// How a message will be synthesized: its shaped text, its delivery, and the
/// voice's pace in milliseconds per character, sample rate and format.
#[derive(Debug, Clone)]
pub struct SynthesisPlan {
    pub text_processed: String,
    pub params: EmotionalParameters,
    pub ms_per_char: u32,
    pub sample_rate: u32,
    pub format: AudioFormat,
}

/// Turns text into speech in TARS's voice; rate, pitch and volume in
/// thousandths.
#[derive(Debug, Clone)]
pub struct TextToSpeechEngine {
    pub engine_type: TTSEngine,
    pub voice_profile: VoiceProfile,
    pub speech_rate_milli: u32,
    pub pitch_milli: i32,
    pub volume_milli: u32,
    pub tars_personality: bool,
    pub emotional_inflection: bool,
    pub audio_format: AudioFormat,
}

/// The text of a message as the engine will speak it: shaped in TARS's
/// manner when its personality is on (humour markers above a humour level of
/// 0.5, sarcasm markers above 0.3), as written otherwise.
pub open spec fn engine_text_spec(e: TextToSpeechEngine, r: SpeechRequest) -> Seq<char> {
    if e.tars_personality {
        let c = e.voice_profile.tars_calibration;
        personality_processing_spec(
            r.text@,
            c.humor_modulation_milli > 500,
            c.sarcasm_tone_milli > 300,
            c.movie_reference_emphasis,
            c.cooper_interaction_mode,
            r.context,
        )
    } else {
        r.text@
    }
}

/// Whether `p` is how the engine will synthesize `r`: the engine's text,
/// the mood's delivery when inflection is on (neutral otherwise), and the
/// voice of the engine: the neural voice (40 ms a character at 24 kHz, WAV)
/// for a neural or hybrid engine, the local one (50 ms a character at its
/// own rate, WAV) or the hosted one (45 ms a character at 22.05 kHz, MP3).
pub open spec fn is_synthesis_plan(p: SynthesisPlan, e: TextToSpeechEngine, r: SpeechRequest) -> bool {
    &&& p.text_processed@ == engine_text_spec(e, r)
    &&& p.params == (if e.emotional_inflection {
        emotional_parameters_spec(r.priority, r.emotional_state)
    } else {
        neutral_parameters()
    })
    &&& match e.engine_type {
        TTSEngine::Local(c) => p.ms_per_char == 50 && p.sample_rate == c.sample_rate && p.format == AudioFormat::WAV,
        TTSEngine::Cloud(_) => p.ms_per_char == 45 && p.sample_rate == 22050 && p.format == AudioFormat::MP3,
        _ => p.ms_per_char == 40 && p.sample_rate == 24000 && p.format == AudioFormat::WAV,
    }
}

impl TextToSpeechEngine {
    /// A hybrid engine with TARS's voice at normal rate and pitch, volume
    /// 0.8, personality and inflection on, producing WAV.
    pub fn new() -> (e: Self)
        ensures
            e.engine_type is Hybrid,
            is_tars_voice(e.voice_profile),
            e.speech_rate_milli == 1000,
            e.pitch_milli == 0,
            e.volume_milli == 800,
            e.tars_personality,
            e.emotional_inflection,
            e.audio_format == AudioFormat::WAV,
    {
        TextToSpeechEngine {
            engine_type: TTSEngine::Hybrid,
            voice_profile: VoiceProfile::tars_default(),
            speech_rate_milli: 1000,
            pitch_milli: 0,
            volume_milli: 800,
            tars_personality: true,
            emotional_inflection: true,
            audio_format: AudioFormat::WAV,
        }
    }

    /// The delivery of a message. Never fails.
    pub fn calculate_emotional_parameters(&self, request: &SpeechRequest) -> (r: Result<EmotionalParameters, String>)
        ensures
            r matches Ok(p) && p == emotional_parameters_spec(request.priority, request.emotional_state),
    {
        let mut p = EmotionalParameters::default();
        match &request.emotional_state {
            Some(state) => {
                let e = state.primary_emotion;
                p.rate_modifier_milli = match e {
                    Emotion::Urgent => 1300,
                    Emotion::Serious => 900,
                    Emotion::Amused => 1100,
                    Emotion::Reassuring => 850,
                    _ => 1000,
                };
                p.pitch_modifier_milli = match e {
                    Emotion::Confident => 100,
                    Emotion::Concerned => -50,
                    Emotion::Amused => 150,
                    Emotion::Serious => -100,
                    Emotion::Sarcastic => 50,
                    _ => 0,
                };
                p.volume_modifier_milli = match e {
                    Emotion::Urgent => 200,
                    Emotion::Reassuring => -100,
                    Emotion::Confident => 100,
                    _ => 0,
                };
                p.emphasis_intensity_milli = state.intensity_milli;
            },
            None => {},
        }
        match request.priority {
            SpeechPriority::Critical => {
                p.rate_modifier_milli = p.rate_modifier_milli * 6 / 5;
                p.volume_modifier_milli = p.volume_modifier_milli + 200;
            },
            SpeechPriority::High => {
                p.volume_modifier_milli = p.volume_modifier_milli + 100;
            },
            SpeechPriority::Low => {
                p.rate_modifier_milli = p.rate_modifier_milli * 9 / 10;
                p.volume_modifier_milli = p.volume_modifier_milli - 100;
            },
            SpeechPriority::Normal => {},
        }
        Ok(p)
    }

    /// The on-device synthesizer TARS falls back to: festival with TARS's
    /// voice model, 16 kHz, buffers of 1024.
    pub fn default_local_config(&self) -> (c: LocalTTSConfig)
        ensures
            c.engine_name@ == "festival"@,
            c.voice_model_path@ == "/opt/tars/models/tts/tars_voice.bin"@,
            c.sample_rate == 16000,
            c.buffer_size == 1024,
    {
        LocalTTSConfig {
            engine_name: String::from_str("festival"),
            voice_model_path: String::from_str("/opt/tars/models/tts/tars_voice.bin"),
            sample_rate: 16000,
            buffer_size: 1024,
        }
    }

    /// Google's neural "en-US-Standard-B" voice in us-central1, with no key.
    pub fn default_cloud_config(&self) -> (c: CloudTTSConfig)
        ensures
            c.service_provider@ == "Google"@,
            c.api_key is None,
            c.region@ == "us-central1"@,
            c.voice_name@ == "en-US-Standard-B"@,
            c.neural_voice,
    {
        CloudTTSConfig {
            service_provider: String::from_str("Google"),
            api_key: None,
            region: String::from_str("us-central1"),
            voice_name: String::from_str("en-US-Standard-B"),
            neural_voice: true,
        }
    }

    /// Tacotron 2 with WaveGlow, TARS's speaker embedding and the emotion
    /// model, under /opt/tars/models/tts/neural.
    pub fn default_neural_config(&self) -> (c: NeuralTTSConfig)
        ensures
            c.model_path@ == "/opt/tars/models/tts/neural/tacotron2.pt"@,
            c.vocoder_path@ == "/opt/tars/models/tts/neural/waveglow.pt"@,
            c.speaker_embeddings matches Some(p) && p@ == "/opt/tars/models/tts/neural/tars_speaker.pt"@,
            c.emotion_model matches Some(p) && p@ == "/opt/tars/models/tts/neural/emotion.pt"@,
    {
        NeuralTTSConfig {
            model_path: String::from_str("/opt/tars/models/tts/neural/tacotron2.pt"),
            vocoder_path: String::from_str("/opt/tars/models/tts/neural/waveglow.pt"),
            speaker_embeddings: Some(String::from_str("/opt/tars/models/tts/neural/tars_speaker.pt")),
            emotion_model: Some(String::from_str("/opt/tars/models/tts/neural/emotion.pt")),
        }
    }

    /// How a message will be synthesized: its text shaped when the
    /// personality is on, its delivery when inflection is on, and the voice
    /// of the engine (a hybrid engine speaks with the neural voice, which
    /// would fall back to the local and then the hosted one). Never fails.
    pub fn plan_synthesis(&self, request: &SpeechRequest) -> (r: Result<SynthesisPlan, String>)
        ensures
            r matches Ok(p) && is_synthesis_plan(p, *self, *request),
    {
        let text_processed = if self.tars_personality {
            let c = self.voice_profile.tars_calibration;
            apply_tars_personality_processing(
                request.text.as_str(),
                c.humor_modulation_milli > 500,
                c.sarcasm_tone_milli > 300,
                c.movie_reference_emphasis,
                c.cooper_interaction_mode,
                request.context,
            )
        } else {
            request.text.clone()
        };
        let params = if self.emotional_inflection {
            match self.calculate_emotional_parameters(request) {
                Ok(p) => p,
                Err(e) => {
                    return Err(e);
                },
            }
        } else {
            EmotionalParameters::default()
        };
        let (ms_per_char, sample_rate, format) = match &self.engine_type {
            TTSEngine::Local(config) => (50u32, config.sample_rate, AudioFormat::WAV),
            TTSEngine::Cloud(_) => (45u32, 22050u32, AudioFormat::MP3),
            _ => (40u32, 24000u32, AudioFormat::WAV),
        };
        Ok(SynthesisPlan { text_processed, params, ms_per_char, sample_rate, format })
    }
}

/// For any mood, the more urgent a message the faster it is spoken: a
/// background message no faster than a normal or important one, which are
/// spoken alike, and those no faster than a critical one.
pub proof fn law_urgency_orders_rate(state: Option<EmotionalState>)
    ensures
        emotional_parameters_spec(SpeechPriority::Low, state).rate_modifier_milli
            <= emotional_parameters_spec(SpeechPriority::Normal, state).rate_modifier_milli,
        emotional_parameters_spec(SpeechPriority::Normal, state).rate_modifier_milli
            == emotional_parameters_spec(SpeechPriority::High, state).rate_modifier_milli,
        emotional_parameters_spec(SpeechPriority::High, state).rate_modifier_milli
            <= emotional_parameters_spec(SpeechPriority::Critical, state).rate_modifier_milli,
{
}

/// A status report is labelled and otherwise untouched: in the system
/// status context the spoken text is "Status: " followed by the message
/// itself, so it is eight characters longer, begins with the label, and
/// gives back the message once the label is taken off. Without any of the
/// personality markers, shaping a message only applies this tone.
pub proof fn law_status_reports_are_labelled(t: Seq<char>)
    ensures
        ({
            let r = personality_processing_spec(t, false, false, false, false, SpeechContext::SystemStatus);
            &&& r == context_tone_spec(t, SpeechContext::SystemStatus)
            &&& r.len() == t.len() + 8
            &&& r.subrange(0, 8) == seq!['S', 't', 'a', 't', 'u', 's', ':', ' ']
            &&& r.subrange(8, r.len() as int) == t
        }),
{
    reveal_strlit("Status: ");
    let r = context_tone_spec(t, SpeechContext::SystemStatus);
    assert(r.subrange(0, 8) =~= seq!['S', 't', 'a', 't', 'u', 's', ':', ' ']);
    assert(r.subrange(8, r.len() as int) =~= t);
}

/// The other labelled contexts work the same way: a remote operation is
/// "Operation: " and the message, a confirmation "Confirmed: " and the
/// message, an emergency "ALERT: " and the message shouted; engineering
/// tasks and conversation leave the message as it is.
pub proof fn law_contexts_label_without_changing_the_message(t: Seq<char>)
    ensures
        ({
            let r = context_tone_spec(t, SpeechContext::RemoteOperation);
            &&& r.len() == t.len() + 11
            &&& r.subrange(0, 11) == seq!['O', 'p', 'e', 'r', 'a', 't', 'i', 'o', 'n', ':', ' ']
            &&& r.subrange(11, r.len() as int) == t
        }),
        ({
            let r = context_tone_spec(t, SpeechContext::Confirmation);
            &&& r.len() == t.len() + 11
            &&& r.subrange(0, 11) == seq!['C', 'o', 'n', 'f', 'i', 'r', 'm', 'e', 'd', ':', ' ']
            &&& r.subrange(11, r.len() as int) == t
        }),
        ({
            let r = context_tone_spec(t, SpeechContext::Emergency);
            &&& r.subrange(0, 7) == seq!['A', 'L', 'E', 'R', 'T', ':', ' ']
            &&& r.subrange(7, r.len() as int) == uppercase(t)
        }),
        context_tone_spec(t, SpeechContext::EngineeringTask) == t,
        context_tone_spec(t, SpeechContext::Conversation) == t,
{
    reveal_strlit("Operation: ");
    reveal_strlit("Confirmed: ");
    reveal_strlit("ALERT: ");
    let a = context_tone_spec(t, SpeechContext::RemoteOperation);
    assert(a.subrange(0, 11) =~= seq!['O', 'p', 'e', 'r', 'a', 't', 'i', 'o', 'n', ':', ' ']);
    assert(a.subrange(11, a.len() as int) =~= t);
    let b = context_tone_spec(t, SpeechContext::Confirmation);
    assert(b.subrange(0, 11) =~= seq!['C', 'o', 'n', 'f', 'i', 'r', 'm', 'e', 'd', ':', ' ']);
    assert(b.subrange(11, b.len() as int) =~= t);
    let c = context_tone_spec(t, SpeechContext::Emergency);
    assert(c.subrange(0, 7) =~= seq!['A', 'L', 'E', 'R', 'T', ':', ' ']);
    assert(c.subrange(7, c.len() as int) =~= uppercase(t));
}

} // verus!
