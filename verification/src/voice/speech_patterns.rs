//! Movie-accurate TARS delivery: phrase analysis, speech timing, the servo
//! sounds that punctuate a line and the emphasis placed on Cooper.
//!
//! Intensities, multipliers and other fractional quantities are held in
//! thousandths (`*_milli`), so that 0.8 is 800.

use vstd::prelude::*;
use vstd::hash_map::StringHashMap;
use crate::voice::tars_voice_profile::{is_emotion, EmotionConfig};
use crate::text::{has_substring, split_ws, split_whitespace_chars, str_contains};

verus! {

broadcast use vstd::string::group_string_axioms;

/// What a timing marker in a movie line stands for.
#[derive(Debug, Clone, Copy, PartialEq, Eq, Structural)]
pub enum TimingMarkerType {
    WordBoundary,
    SyllableBoundary,
    PhraseBoundary,
    BreathPause,
    EmphasisPause,
    ServoSound,
    MechanicalClick,
}

/// Why a word is stressed.
#[derive(Debug, Clone, Copy, PartialEq, Eq, Structural)]
pub enum EmphasisType {
    Lexical,
    Contrastive,
    Focus,
    Cooper,
    Technical,
    Numerical,
    Sarcastic,
}

/// How servo noise is synthesised.
#[derive(Debug, Clone, Copy, PartialEq, Eq, Structural)]
pub enum ServoSynthMethod {
    WavetableSynthesis,
    PhysicalModeling,
    GranularSynthesis,
    AdditiveHarmonicSynthesis,
}

/// The moments of speech at which servo sounds may be played.
#[derive(Debug, Clone, Copy, PartialEq, Eq, Structural)]
pub struct ServoTriggers {
    pub sentence_boundaries: bool,
    pub paragraph_boundaries: bool,
    pub emphasis_points: bool,
    pub emotional_transitions: bool,
    pub movement_commands: bool,
    pub idle_periods: bool,
}

/// How pitch moves between two points of a contour.
#[derive(Debug, Clone, Copy, PartialEq, Eq, Structural)]
pub enum F0Transition {
    Linear,
    Exponential,
    Logarithmic,
    Stepped,
    Smooth,
    Sharp,
}

/// Syllable stress in a metrical foot.
#[derive(Debug, Clone, Copy, PartialEq, Eq, Structural, Hash)]
pub enum Stress {
    Primary,
    Secondary,
    Unstressed,
}

/// How strongly a keyword is emphasised.
#[derive(Debug, Clone, Copy, PartialEq, Eq, Structural)]
pub enum EmphasisStrength {
    Light,
    Moderate,
    Strong,
    Extreme,
}

/// A node of a phrase's syntax tree.
pub struct SyntaxNode {
    pub node_type: String,
    pub children: Vec<SyntaxNode>,
    pub features: StringHashMap<String>,
}

/// How strong a phrase boundary is.
#[derive(Debug, Clone, Copy, PartialEq, Eq, Structural)]
pub enum BoundaryStrength {
    NoBoundary,
    Weak,
    Medium,
    Strong,
    Major,
}

/// Boundary strengths by syntactic context, and prosodic pause lengths.
pub struct PhraseBoundaryDetector {
    pub syntactic_boundaries: StringHashMap<BoundaryStrength>,
    pub prosodic_boundaries: StringHashMap<u32>,
}

/// Syntax patterns by name.
pub struct SyntaxAnalyzer {
    pub patterns: StringHashMap<String>,
}

/// Emphasis strengths by pattern.
pub struct EmphasisPatternDB {
    pub patterns: StringHashMap<EmphasisStrength>,
}

/// The ways Cooper is addressed and commanded.
#[derive(Debug, Clone)]
pub struct CooperInteractionPatterns {
    pub address_patterns: Vec<String>,
    pub command_patterns: Vec<String>,
}

/// Boundary detection rules by context.
pub struct BoundaryDetectionSystem {
    pub detection_rules: StringHashMap<BoundaryStrength>,
}

/// What happens at a point of the speech timeline.
#[derive(Debug, Clone, Copy, PartialEq, Eq, Structural)]
pub enum TimingEventType {
    WordStart,
    WordEnd,
    SyllableStress,
    Pause,
    ServoActivation,
}

/// A marker in the timing of a movie line.
#[derive(Debug, Clone, Copy, PartialEq, Eq, Structural)]
pub struct TimingMarker {
    pub position_ms: u32,
    pub marker_type: TimingMarkerType,
    pub duration_ms: u32,
    pub intensity_milli: u32,
}

/// A stressed syllable: which word and syllable, why, and how it is raised
/// (pitch in thousandths of a hertz, duration as a multiplier in thousandths).
#[derive(Debug, Clone, Copy, PartialEq, Eq, Structural)]
pub struct EmphasisPoint {
    pub word_index: usize,
    pub syllable_index: usize,
    pub emphasis_type: EmphasisType,
    pub intensity_milli: u32,
    pub f0_adjustment_milli: u32,
    pub duration_multiplier_milli: u32,
}

/// A line from the film with its delivery.
#[derive(Debug, Clone)]
pub struct MoviePhraseData {
    pub original_text: String,
    pub phonetic_transcription: String,
    pub timing_markers: Vec<TimingMarker>,
    pub emphasis_points: Vec<EmphasisPoint>,
    pub emotional_context: EmotionConfig,
    pub scene_context: String,
    pub delivery_notes: String,
}

/// A named entity found in a phrase, with the confidence in thousandths.
#[derive(Debug, Clone)]
pub struct NamedEntity {
    pub entity_type: String,
    pub text: String,
    pub confidence_milli: u32,
}

/// What a phrase is about.
#[derive(Debug, Clone)]
pub struct SemanticContent {
    pub named_entities: Vec<NamedEntity>,
    pub technical_terms: Vec<String>,
    pub emotional_markers: Vec<String>,
    pub pragmatic_functions: Vec<String>,
}

/// One analysed phrase.
pub struct AnalyzedPhrase {
    pub text: String,
    pub word_count: usize,
    pub syllable_count: usize,
    pub syntax_tree: SyntaxNode,
    pub semantic_content: SemanticContent,
}

/// The analysis of a piece of text; the complexity in thousandths.
pub struct PhraseAnalysis {
    pub phrases: Vec<AnalyzedPhrase>,
    pub overall_emotion: EmotionConfig,
    pub context_classification: String,
    pub complexity_milli: u32,
}

/// Splits text into phrases and knows the film's lines.
pub struct PhraseAnalyzer {
    pub movie_phrases: StringHashMap<MoviePhraseData>,
    pub syntax_parser: SyntaxAnalyzer,
    pub emphasis_patterns: EmphasisPatternDB,
    pub cooper_specific_patterns: CooperInteractionPatterns,
}

/// The letters counted as syllable nuclei: lower-case a, e, i, o, u and y.
pub open spec fn is_syllable_letter(c: char) -> bool {
    c == 'a' || c == 'e' || c == 'i' || c == 'o' || c == 'u' || c == 'y'
}

/// How many syllable letters `s` holds.
pub open spec fn syllable_letters(s: Seq<char>) -> nat
    decreases s.len(),
{
    if s.len() == 0 {
        0
    } else {
        syllable_letters(s.drop_last()) + if is_syllable_letter(s.last()) { 1nat } else { 0nat }
    }
}

/// The estimated syllable count of a text: its syllable letters, at least one.
pub open spec fn syllable_estimate(s: Seq<char>) -> nat {
    if syllable_letters(s) == 0 { 1 } else { syllable_letters(s) }
}

/// Whether `a` is the single-phrase analysis of `text` in `context`: the
/// whole text as one phrase with its word and syllable counts, a bare ROOT
/// syntax tree, no semantic findings, a mission-focused mood (intensity 0.5,
/// arousal 0.3, valence 0) and a complexity of 0.5.
pub open spec fn is_text_analysis(a: PhraseAnalysis, text: Seq<char>, context: Seq<char>) -> bool {
    &&& a.phrases@.len() == 1
    &&& a.phrases@[0].text@ == text
    &&& a.phrases@[0].word_count == split_ws(text).len()
    &&& a.phrases@[0].syllable_count == syllable_estimate(text)
    &&& a.phrases@[0].syntax_tree.node_type@ == "ROOT"@
    &&& a.phrases@[0].syntax_tree.children@.len() == 0
    &&& a.phrases@[0].syntax_tree.features@ == Map::<Seq<char>, String>::empty()
    &&& a.phrases@[0].semantic_content.named_entities@.len() == 0
    &&& a.phrases@[0].semantic_content.technical_terms@.len() == 0
    &&& a.phrases@[0].semantic_content.emotional_markers@.len() == 0
    &&& a.phrases@[0].semantic_content.pragmatic_functions@.len() == 0
    &&& a.overall_emotion.primary_emotion@ == "mission_focused"@
    &&& a.overall_emotion.intensity_milli == 500
    &&& a.overall_emotion.arousal_milli == 300
    &&& a.overall_emotion.valence_milli == 0
    &&& a.context_classification@ == context
    &&& a.complexity_milli == 500
}

/// Counts the syllable letters of `text`, at least one.
fn estimate_syllable_count(text: &str) -> (n: usize)
    ensures
        n == syllable_estimate(text@),
{
    let v = crate::text::chars_of(text);
    let mut n: usize = 0;
    let mut i: usize = 0;
    while i < v.len()
        invariant
            i <= v@.len(),
            v@ == text@,
            n == syllable_letters(v@.take(i as int)),
            n <= i,
        decreases v.len() - i,
    {
        assert(v@.take(i as int + 1).drop_last() =~= v@.take(i as int));
        let c = v[i];
        if c == 'a' || c == 'e' || c == 'i' || c == 'o' || c == 'u' || c == 'y' {
            n = n + 1;
        }
        i = i + 1;
    }
    assert(v@.take(v@.len() as int) =~= v@);
    if n == 0 { 1 } else { n }
}

/// Whether `a` has TARS's tables: no syntax or emphasis patterns; Cooper
/// addressed as "Cooper" or "Coop" and commanded with "Cooper,".
pub open spec fn is_tars_phrase_tables(a: PhraseAnalyzer) -> bool {
    &&& a.syntax_parser.patterns@ == Map::<Seq<char>, String>::empty()
    &&& a.emphasis_patterns.patterns@ == Map::<Seq<char>, EmphasisStrength>::empty()
    &&& a.cooper_specific_patterns.address_patterns@.len() == 2
    &&& a.cooper_specific_patterns.address_patterns@[0]@ == "Cooper"@
    &&& a.cooper_specific_patterns.address_patterns@[1]@ == "Coop"@
    &&& a.cooper_specific_patterns.command_patterns@.len() == 1
    &&& a.cooper_specific_patterns.command_patterns@[0]@ == "Cooper,"@
}

impl PhraseAnalyzer {
    /// An analyzer that knows no film lines yet, with empty syntax and
    /// emphasis tables; Cooper is addressed as "Cooper" or "Coop" and
    /// commanded with "Cooper,".
    pub fn new() -> (a: Self)
        ensures
            a.movie_phrases@ == Map::<Seq<char>, MoviePhraseData>::empty(),
            is_tars_phrase_tables(a),
    {
        let mut address_patterns: Vec<String> = Vec::new();
        address_patterns.push(String::from_str("Cooper"));
        address_patterns.push(String::from_str("Coop"));
        let mut command_patterns: Vec<String> = Vec::new();
        command_patterns.push(String::from_str("Cooper,"));
        PhraseAnalyzer {
            movie_phrases: StringHashMap::new(),
            syntax_parser: SyntaxAnalyzer { patterns: StringHashMap::new() },
            emphasis_patterns: EmphasisPatternDB { patterns: StringHashMap::new() },
            cooper_specific_patterns: CooperInteractionPatterns { address_patterns, command_patterns },
        }
    }

    /// Analyses `text` as a single phrase: its words are its
    /// whitespace-separated pieces, its syllables its vowels (y included),
    /// at least one. Never fails.
    pub fn analyze_text(&self, text: &str, context: &str) -> (r: Result<PhraseAnalysis, String>)
        ensures
            r matches Ok(a) && is_text_analysis(a, text@, context@),
    {
        let words = split_whitespace_chars(text);
        let syllable_count = estimate_syllable_count(text);
        let phrase = AnalyzedPhrase {
            text: String::from_str(text),
            word_count: words.len(),
            syllable_count,
            syntax_tree: SyntaxNode {
                node_type: String::from_str("ROOT"),
                children: Vec::new(),
                features: StringHashMap::new(),
            },
            semantic_content: SemanticContent {
                named_entities: Vec::new(),
                technical_terms: Vec::new(),
                emotional_markers: Vec::new(),
                pragmatic_functions: Vec::new(),
            },
        };
        let mut phrases: Vec<AnalyzedPhrase> = Vec::new();
        phrases.push(phrase);
        let emotion = EmotionConfig {
            primary_emotion: String::from_str("mission_focused"),
            intensity_milli: 500,
            arousal_milli: 300,
            valence_milli: 0,
        };
        Ok(PhraseAnalysis {
            phrases,
            overall_emotion: emotion,
            context_classification: String::from_str(context),
            complexity_milli: 500,
        })
    }
}

/// The stress TARS puts on Cooper's name: the first syllable of the first
/// word, intensity 0.9, pitch raised by 8 Hz, held 1.15 times as long.
pub open spec fn cooper_emphasis() -> EmphasisPoint {
    EmphasisPoint {
        word_index: 0,
        syllable_index: 0,
        emphasis_type: EmphasisType::Cooper,
        intensity_milli: 900,
        f0_adjustment_milli: 8000,
        duration_multiplier_milli: 1150,
    }
}

/// The texts of the phrases, in order.
pub open spec fn phrase_texts(phrases: Seq<AnalyzedPhrase>) -> Seq<Seq<char>> {
    phrases.map_values(|p: AnalyzedPhrase| p.text@)
}

/// How many of the texts mention Cooper by name.
pub open spec fn cooper_mentions(texts: Seq<Seq<char>>) -> nat
    decreases texts.len(),
{
    if texts.len() == 0 {
        0
    } else {
        cooper_mentions(texts.drop_last()) + if has_substring(texts.last(), "Cooper"@) { 1nat } else { 0nat }
    }
}

/// The emphasis found in an analysis; the overall level in thousandths.
pub struct EmphasisMapping {
    pub emphasis_points: Vec<EmphasisPoint>,
    pub overall_emphasis_milli: u32,
    pub context_specific_adjustments: StringHashMap<u32>,
}

/// Whether `m` is the emphasis found in `analysis`: one Cooper stress for
/// each phrase that names Cooper, an overall level of 0.5, no context
/// adjustments.
pub open spec fn is_emphasis_for(m: EmphasisMapping, analysis: PhraseAnalysis) -> bool {
    &&& m.emphasis_points@.len() == cooper_mentions(phrase_texts(analysis.phrases@))
    &&& forall|i: int| 0 <= i < m.emphasis_points@.len() ==> #[trigger] m.emphasis_points@[i] == cooper_emphasis()
    &&& m.overall_emphasis_milli == 500
    &&& m.context_specific_adjustments@ == Map::<Seq<char>, u32>::empty()
}

/// How strongly subjects, objects and predicates are stressed, in
/// thousandths.
#[derive(Debug, Clone, Copy, PartialEq, Eq, Structural)]
pub struct SyntacticEmphasisRules {
    pub subject_emphasis_milli: u32,
    pub object_emphasis_milli: u32,
    pub predicate_emphasis_milli: u32,
}

/// How strongly technical terms, numbers and proper nouns are stressed, in
/// thousandths.
pub struct SemanticEmphasisDetector {
    pub technical_terms: StringHashMap<u32>,
    pub numerical_values_milli: u32,
    pub proper_nouns_milli: u32,
}

/// How strongly Cooper's name, commands to him and concerns for him are
/// stressed, in thousandths.
#[derive(Debug, Clone, Copy, PartialEq, Eq, Structural)]
pub struct CooperEmphasisPatterns {
    pub cooper_address_milli: u32,
    pub cooper_commands_milli: u32,
    pub cooper_concerns_milli: u32,
}

/// Finds the words TARS stresses.
pub struct EmphasisDetector {
    pub keyword_patterns: StringHashMap<EmphasisStrength>,
    pub syntactic_emphasis: SyntacticEmphasisRules,
    pub semantic_emphasis: SemanticEmphasisDetector,
    pub cooper_specific_emphasis: CooperEmphasisPatterns,
}

/// Whether `d` is TARS's emphasis detector: "Cooper" stressed strongly,
/// "emergency" to the extreme, "percent" moderately; subjects 0.6, objects
/// 0.4, predicates 0.5; no technical terms, numbers 0.7, proper nouns 0.8;
/// Cooper's name 0.9, commands 0.8, concerns 0.7.
pub open spec fn is_tars_emphasis_detector(d: EmphasisDetector) -> bool {
    &&& d.keyword_patterns@ == map![
        "Cooper"@ => EmphasisStrength::Strong,
        "emergency"@ => EmphasisStrength::Extreme,
        "percent"@ => EmphasisStrength::Moderate,
    ]
    &&& d.syntactic_emphasis == SyntacticEmphasisRules {
        subject_emphasis_milli: 600,
        object_emphasis_milli: 400,
        predicate_emphasis_milli: 500,
    }
    &&& d.semantic_emphasis.technical_terms@ == Map::<Seq<char>, u32>::empty()
    &&& d.semantic_emphasis.numerical_values_milli == 700
    &&& d.semantic_emphasis.proper_nouns_milli == 800
    &&& d.cooper_specific_emphasis == CooperEmphasisPatterns {
        cooper_address_milli: 900,
        cooper_commands_milli: 800,
        cooper_concerns_milli: 700,
    }
}

impl EmphasisDetector {
    /// TARS's emphasis detector.
    pub fn new() -> (d: Self)
        ensures
            is_tars_emphasis_detector(d),
    {
        let mut keyword_patterns: StringHashMap<EmphasisStrength> = StringHashMap::new();
        keyword_patterns.insert(String::from_str("Cooper"), EmphasisStrength::Strong);
        keyword_patterns.insert(String::from_str("emergency"), EmphasisStrength::Extreme);
        keyword_patterns.insert(String::from_str("percent"), EmphasisStrength::Moderate);
        EmphasisDetector {
            keyword_patterns,
            syntactic_emphasis: SyntacticEmphasisRules {
                subject_emphasis_milli: 600,
                object_emphasis_milli: 400,
                predicate_emphasis_milli: 500,
            },
            semantic_emphasis: SemanticEmphasisDetector {
                technical_terms: StringHashMap::new(),
                numerical_values_milli: 700,
                proper_nouns_milli: 800,
            },
            cooper_specific_emphasis: CooperEmphasisPatterns {
                cooper_address_milli: 900,
                cooper_commands_milli: 800,
                cooper_concerns_milli: 700,
            },
        }
    }

    /// Emphasis for an analysed text: one Cooper stress for each phrase
    /// that names Cooper, an overall level of 0.5, no context adjustments.
    /// Never fails.
    pub fn detect_emphasis(&self, analysis: &PhraseAnalysis, context: &str) -> (r: Result<EmphasisMapping, String>)
        ensures
            r matches Ok(m) && is_emphasis_for(m, *analysis),
    {
        let mut points: Vec<EmphasisPoint> = Vec::new();
        let ghost texts = phrase_texts(analysis.phrases@);
        let mut i: usize = 0;
        while i < analysis.phrases.len()
            invariant
                i <= analysis.phrases@.len(),
                texts == phrase_texts(analysis.phrases@),
                points@.len() == cooper_mentions(texts.take(i as int)),
                forall|j: int| 0 <= j < points@.len() ==> #[trigger] points@[j] == cooper_emphasis(),
            decreases analysis.phrases.len() - i,
        {
            assert(texts.take(i as int + 1).drop_last() =~= texts.take(i as int));
            assert(texts.take(i as int + 1).last() == analysis.phrases@[i as int].text@);
            if str_contains(analysis.phrases[i].text.as_str(), "Cooper") {
                points.push(EmphasisPoint {
                    word_index: 0,
                    syllable_index: 0,
                    emphasis_type: EmphasisType::Cooper,
                    intensity_milli: 900,
                    f0_adjustment_milli: 8000,
                    duration_multiplier_milli: 1150,
                });
            }
            i = i + 1;
        }
        assert(texts.take(texts.len() as int) =~= texts);
        Ok(EmphasisMapping {
            emphasis_points: points,
            overall_emphasis_milli: 500,
            context_specific_adjustments: StringHashMap::new(),
        })
    }
}

/// The pauses and spacing of a delivery style; elongation and final
/// lengthening as multipliers in thousandths.
#[derive(Debug, Clone, Copy, PartialEq, Eq, Structural)]
pub struct TimingPattern {
    pub pre_phrase_pause_ms: u32,
    pub inter_word_spacing_ms: u32,
    pub post_phrase_pause_ms: u32,
    pub emphasis_elongation_milli: u32,
    pub sentence_final_lengthening_milli: u32,
}

/// TARS's default delivery: 200 ms before a phrase, 100 ms between words,
/// 400 ms after, emphasis stretched 1.2 times, the last word 1.3 times.
pub open spec fn default_pattern() -> TimingPattern {
    TimingPattern {
        pre_phrase_pause_ms: 200,
        inter_word_spacing_ms: 100,
        post_phrase_pause_ms: 400,
        emphasis_elongation_milli: 1200,
        sentence_final_lengthening_milli: 1300,
    }
}

/// The emergency delivery: 100 ms before, 80 ms between words, 200 ms
/// after, emphasis 1.15 times, the last word 1.1 times.
pub open spec fn emergency_pattern() -> TimingPattern {
    TimingPattern {
        pre_phrase_pause_ms: 100,
        inter_word_spacing_ms: 80,
        post_phrase_pause_ms: 200,
        emphasis_elongation_milli: 1150,
        sentence_final_lengthening_milli: 1100,
    }
}

/// The delivery TARS uses by default.
fn default_timing_pattern() -> (p: TimingPattern)
    ensures
        p == default_pattern(),
{
    TimingPattern {
        pre_phrase_pause_ms: 200,
        inter_word_spacing_ms: 100,
        post_phrase_pause_ms: 400,
        emphasis_elongation_milli: 1200,
        sentence_final_lengthening_milli: 1300,
    }
}

/// The clipped delivery of an emergency.
fn emergency_timing_pattern() -> (p: TimingPattern)
    ensures
        p == emergency_pattern(),
{
    TimingPattern {
        pre_phrase_pause_ms: 100,
        inter_word_spacing_ms: 80,
        post_phrase_pause_ms: 200,
        emphasis_elongation_milli: 1150,
        sentence_final_lengthening_milli: 1100,
    }
}

/// A point of the speech timeline.
#[derive(Debug, Clone, Copy, PartialEq, Eq, Structural)]
pub struct TimingEvent {
    pub timestamp_ms: u32,
    pub event_type: TimingEventType,
    pub duration_ms: u32,
}

/// The kind of an inserted pause.
#[derive(Debug, Clone, Copy, PartialEq, Eq, Structural)]
pub enum PauseType {
    Breath,
    Emphasis,
    Dramatic,
    Servo,
    Processing,
}

/// A pause inserted into the timeline.
#[derive(Debug, Clone, Copy, PartialEq, Eq, Structural)]
pub struct PauseInsertion {
    pub position_ms: u32,
    pub duration_ms: u32,
    pub pause_type: PauseType,
}

/// The timeline of a delivery.
#[derive(Debug, Clone)]
pub struct GeneratedTiming {
    pub total_duration_ms: u32,
    pub timing_events: Vec<TimingEvent>,
    pub pause_insertions: Vec<PauseInsertion>,
}

/// Every word takes 200 ms and is followed by the pattern's spacing.
pub open spec fn word_slot(p: TimingPattern) -> int {
    200 + p.inter_word_spacing_ms
}

/// How long a phrase of `wc` words lasts, its two pauses included.
pub open spec fn phrase_span(p: TimingPattern, wc: nat) -> int {
    p.pre_phrase_pause_ms + wc * word_slot(p) + p.post_phrase_pause_ms
}

/// How long phrases of the given word counts last, one after the other.
pub open spec fn timeline_span(p: TimingPattern, wcs: Seq<usize>) -> int
    decreases wcs.len(),
{
    if wcs.len() == 0 {
        0
    } else {
        timeline_span(p, wcs.drop_last()) + phrase_span(p, wcs.last() as nat)
    }
}

/// A pause of `d` ms starting at `t`.
pub open spec fn pause_event(t: int, d: u32) -> TimingEvent {
    TimingEvent { timestamp_ms: t as u32, event_type: TimingEventType::Pause, duration_ms: d }
}

/// A 200 ms word starting at `t`.
pub open spec fn word_event(t: int) -> TimingEvent {
    TimingEvent { timestamp_ms: t as u32, event_type: TimingEventType::WordStart, duration_ms: 200 }
}

/// The start of the `k`-th word of a phrase that starts at `start`.
pub open spec fn word_start(p: TimingPattern, start: int, k: int) -> int {
    start + p.pre_phrase_pause_ms + k * word_slot(p)
}

/// The events of a phrase of `wc` words starting at `start`: the pause
/// before it, each word, the pause after it.
pub open spec fn phrase_events(p: TimingPattern, start: int, wc: nat) -> Seq<TimingEvent> {
    seq![pause_event(start, p.pre_phrase_pause_ms)]
        + Seq::new(wc, |k: int| word_event(word_start(p, start, k)))
        + seq![pause_event(word_start(p, start, wc as int), p.post_phrase_pause_ms)]
}

/// The events of phrases of the given word counts, one after the other.
pub open spec fn timeline_events(p: TimingPattern, wcs: Seq<usize>) -> Seq<TimingEvent>
    decreases wcs.len(),
{
    if wcs.len() == 0 {
        Seq::empty()
    } else {
        timeline_events(p, wcs.drop_last()) + phrase_events(p, timeline_span(p, wcs.drop_last()), wcs.last() as nat)
    }
}

/// The word counts of the phrases, in order.
pub open spec fn word_counts(phrases: Seq<AnalyzedPhrase>) -> Seq<usize> {
    phrases.map_values(|ph: AnalyzedPhrase| ph.word_count)
}

/// A timeline grows with every phrase added.
proof fn lemma_timeline_prefix(p: TimingPattern, wcs: Seq<usize>, j: int)
    requires
        0 <= j <= wcs.len(),
    ensures
        0 <= timeline_span(p, wcs.take(j)) <= timeline_span(p, wcs),
    decreases wcs.len(),
{
    if wcs.len() > 0 {
        assert(0 <= (wcs.last() as nat) * word_slot(p)) by (nonlinear_arith);
        if j == wcs.len() {
            assert(wcs.take(j) =~= wcs);
            lemma_timeline_prefix(p, wcs.drop_last(), j - 1);
            assert(wcs.drop_last().take(j - 1) =~= wcs.drop_last());
        } else {
            lemma_timeline_prefix(p, wcs.drop_last(), j);
            assert(wcs.drop_last().take(j) =~= wcs.take(j));
        }
    }
}

/// Appends the events of one phrase of `wc` words starting at `start` and
/// returns the time at which it ends.
fn append_phrase_events(events: &mut Vec<TimingEvent>, p: &TimingPattern, start: u32, wc: usize) -> (end: u32)
    requires
        start + phrase_span(*p, wc as nat) <= u32::MAX,
    ensures
        end == start + phrase_span(*p, wc as nat),
        final(events)@ == old(events)@ + phrase_events(*p, start as int, wc as nat),
{
    let ghost slot = word_slot(*p);
    let ghost base = old(events)@;
    events.push(TimingEvent {
        timestamp_ms: start,
        event_type: TimingEventType::Pause,
        duration_ms: p.pre_phrase_pause_ms,
    });
    let mut current: u32 = start + p.pre_phrase_pause_ms;
    let mut k: usize = 0;
    while k < wc
        invariant
            k <= wc,
            slot == word_slot(*p),
            start + phrase_span(*p, wc as nat) <= u32::MAX,
            current == word_start(*p, start as int, k as int),
            events@ == base + seq![pause_event(start as int, p.pre_phrase_pause_ms)]
                + Seq::new(k as nat, |i: int| word_event(word_start(*p, start as int, i))),
        decreases wc - k,
    {
        assert((k + 1) * slot == k * slot + slot) by (nonlinear_arith);
        assert((k + 1) * slot <= wc * slot) by (nonlinear_arith)
            requires k + 1 <= wc, slot >= 0;
        events.push(TimingEvent { timestamp_ms: current, event_type: TimingEventType::WordStart, duration_ms: 200 });
        current = current + 200 + p.inter_word_spacing_ms;
        k = k + 1;
        assert(events@ =~= base + seq![pause_event(start as int, p.pre_phrase_pause_ms)]
            + Seq::new(k as nat, |i: int| word_event(word_start(*p, start as int, i))));
    }
    events.push(TimingEvent {
        timestamp_ms: current,
        event_type: TimingEventType::Pause,
        duration_ms: p.post_phrase_pause_ms,
    });
    assert(events@ =~= base + phrase_events(*p, start as int, wc as nat));
    current + p.post_phrase_pause_ms
}

/// Whether `g` is the timeline of `analysis` in the delivery style `p`: for
/// each phrase in turn the pause before it, each word (200 ms plus the
/// spacing), the pause after it; no pauses inserted.
pub open spec fn is_timeline_for(g: GeneratedTiming, p: TimingPattern, analysis: PhraseAnalysis) -> bool {
    &&& g.total_duration_ms == timeline_span(p, word_counts(analysis.phrases@))
    &&& g.timing_events@ == timeline_events(p, word_counts(analysis.phrases@))
    &&& g.pause_insertions@.len() == 0
}

/// The timeline of an analysed text in the given delivery style.
fn timeline_for(pattern: &TimingPattern, analysis: &PhraseAnalysis) -> (g: GeneratedTiming)
    requires
        timeline_span(*pattern, word_counts(analysis.phrases@)) <= u32::MAX,
    ensures
        is_timeline_for(g, *pattern, *analysis),
{
    let ghost wcs = word_counts(analysis.phrases@);
    let mut events: Vec<TimingEvent> = Vec::new();
    let mut current: u32 = 0;
    let mut i: usize = 0;
    while i < analysis.phrases.len()
        invariant
            i <= analysis.phrases@.len(),
            wcs == word_counts(analysis.phrases@),
            timeline_span(*pattern, wcs) <= u32::MAX,
            current == timeline_span(*pattern, wcs.take(i as int)),
            events@ == timeline_events(*pattern, wcs.take(i as int)),
        decreases analysis.phrases.len() - i,
    {
        assert(wcs.take(i as int + 1).drop_last() =~= wcs.take(i as int));
        proof {
            lemma_timeline_prefix(*pattern, wcs, i as int + 1);
        }
        let wc = analysis.phrases[i].word_count;
        current = append_phrase_events(&mut events, pattern, current, wc);
        i = i + 1;
    }
    assert(wcs.take(wcs.len() as int) =~= wcs);
    GeneratedTiming { total_duration_ms: current, timing_events: events, pause_insertions: Vec::new() }
}

/// How much breath a phrase takes: capacity and rate in thousandths, and
/// the number of words after which a breath is due.
#[derive(Debug, Clone, Copy, PartialEq, Eq, Structural)]
pub struct BreathPatternGenerator {
    pub breath_capacity_milli: u32,
    pub breath_rate_milli: u32,
    pub phrase_length_threshold: usize,
}

/// Times speech: delivery styles by name, tempo adjustments by context (in
/// thousandths), phrase boundaries and breathing.
pub struct TimingEngine {
    pub base_timing_patterns: StringHashMap<TimingPattern>,
    pub contextual_adjustments: StringHashMap<u32>,
    pub phrase_boundaries: PhraseBoundaryDetector,
    pub breath_patterns: BreathPatternGenerator,
}

/// TARS's delivery styles by name: "default" and "emergency".
pub open spec fn tars_timing_patterns() -> Map<Seq<char>, TimingPattern> {
    map!["default"@ => default_pattern(), "emergency"@ => emergency_pattern()]
}

/// Whether `e` is TARS's timing engine: its two delivery styles; Cooper's
/// lines 1.05 times, humour 0.95 times, technical talk 0.9 times the tempo;
/// no boundary tables; a breath capacity of 100, a rate of 0.2 and a breath
/// due after 15 words.
pub open spec fn is_tars_timing_engine(e: TimingEngine) -> bool {
    &&& e.base_timing_patterns@ == tars_timing_patterns()
    &&& e.contextual_adjustments@ == map!["cooper"@ => 1050u32, "humor"@ => 950u32, "technical"@ => 900u32]
    &&& e.phrase_boundaries.syntactic_boundaries@ == Map::<Seq<char>, BoundaryStrength>::empty()
    &&& e.phrase_boundaries.prosodic_boundaries@ == Map::<Seq<char>, u32>::empty()
    &&& e.breath_patterns == BreathPatternGenerator {
        breath_capacity_milli: 100000,
        breath_rate_milli: 200,
        phrase_length_threshold: 15,
    }
}

impl TimingEngine {
    /// TARS's timing engine.
    pub fn new() -> (e: Self)
        ensures
            is_tars_timing_engine(e),
    {
        let mut base_timing_patterns: StringHashMap<TimingPattern> = StringHashMap::new();
        base_timing_patterns.insert(String::from_str("default"), default_timing_pattern());
        base_timing_patterns.insert(String::from_str("emergency"), emergency_timing_pattern());
        let mut contextual_adjustments: StringHashMap<u32> = StringHashMap::new();
        contextual_adjustments.insert(String::from_str("cooper"), 1050);
        contextual_adjustments.insert(String::from_str("humor"), 950);
        contextual_adjustments.insert(String::from_str("technical"), 900);
        TimingEngine {
            base_timing_patterns,
            contextual_adjustments,
            phrase_boundaries: PhraseBoundaryDetector {
                syntactic_boundaries: StringHashMap::new(),
                prosodic_boundaries: StringHashMap::new(),
            },
            breath_patterns: BreathPatternGenerator {
                breath_capacity_milli: 100000,
                breath_rate_milli: 200,
                phrase_length_threshold: 15,
            },
        }
    }

    /// The timeline of an analysed text in the engine's "default" delivery
    /// style, which must be present. Never fails.
    pub fn generate_timing(&self, analysis: &PhraseAnalysis, emotion: &EmotionConfig) -> (r: Result<GeneratedTiming, String>)
        requires
            self.base_timing_patterns@.contains_key("default"@),
            timeline_span(self.base_timing_patterns@["default"@], word_counts(analysis.phrases@)) <= u32::MAX,
        ensures
            r matches Ok(g) && is_timeline_for(g, self.base_timing_patterns@["default"@], *analysis),
    {
        let pattern = match self.base_timing_patterns.get("default") {
            Some(p) => *p,
            None => {
                return Err(String::from_str("no default timing pattern"));
            },
        };
        Ok(timeline_for(&pattern, analysis))
    }
}

/// TARS's delivery styles by name: "default" and "emergency".
pub fn get_tars_timing_patterns() -> (m: StringHashMap<TimingPattern>)
    ensures
        m@ == tars_timing_patterns(),
{
    let engine = TimingEngine::new();
    engine.base_timing_patterns
}

/// A servo sound in the delivery; frequency in hertz, amplitude in
/// thousandths.
#[derive(Debug, Clone)]
pub struct ServoEvent {
    pub timestamp_ms: u32,
    pub servo_type: String,
    pub frequency_hz: u32,
    pub amplitude_milli: u32,
    pub duration_ms: u32,
}

/// The servo sounds of a delivery.
#[derive(Debug, Clone)]
pub struct ServoEventSequence {
    pub events: Vec<ServoEvent>,
    pub total_duration_ms: u32,
    pub audio_data: Vec<u8>,
}

/// Whether a timeline event is a pause long enough for a servo to be heard:
/// over 300 ms.
pub open spec fn is_servo_pause(e: TimingEvent) -> bool {
    e.event_type == TimingEventType::Pause && e.duration_ms > 300
}

/// When the servo sounds of a timeline play: in the middle of each long
/// pause, in order.
pub open spec fn servo_sound_times(evs: Seq<TimingEvent>) -> Seq<int>
    decreases evs.len(),
{
    if evs.len() == 0 {
        Seq::empty()
    } else {
        servo_sound_times(evs.drop_last()) + if is_servo_pause(evs.last()) {
            seq![evs.last().timestamp_ms + evs.last().duration_ms / 2]
        } else {
            Seq::<int>::empty()
        }
    }
}

/// Whether `e` is the head-turn sound TARS makes at time `t`: 8.5 kHz,
/// amplitude 0.03, 50 ms.
pub open spec fn is_head_turn_sound(e: ServoEvent, t: int) -> bool {
    &&& e.timestamp_ms == t
    &&& e.servo_type@ == "head_turn"@
    &&& e.frequency_hz == 8500
    &&& e.amplitude_milli == 30
    &&& e.duration_ms == 50
}

/// Whether `s` is the servo track of `timing`: a head-turn sound in the
/// middle of every pause longer than 300 ms, over the timeline's whole
/// length, with no audio rendered.
pub open spec fn is_servo_track_for(s: ServoEventSequence, timing: GeneratedTiming) -> bool {
    &&& s.events@.len() == servo_sound_times(timing.timing_events@).len()
    &&& forall|i: int| 0 <= i < s.events@.len()
        ==> is_head_turn_sound(#[trigger] s.events@[i], servo_sound_times(timing.timing_events@)[i])
    &&& s.total_duration_ms == timing.total_duration_ms
    &&& s.audio_data@.len() == 0
}

/// A mechanical click: frequency in hertz, amplitude and probability in
/// thousandths.
#[derive(Debug, Clone, Copy, PartialEq, Eq, Structural)]
pub struct ClickPattern {
    pub frequency_hz: u32,
    pub amplitude_milli: u32,
    pub duration_ms: u32,
    pub occurrence_probability_milli: u32,
}

/// The noise a servo makes besides its tone, levels in thousandths.
#[derive(Debug, Clone)]
pub struct NoiseProfile {
    pub white_noise_milli: u32,
    pub pink_noise_milli: u32,
    pub mechanical_clicks: Vec<ClickPattern>,
    pub bearing_noise_milli: u32,
}

/// The mechanics of a servo: gear ratio and friction in thousandths,
/// resonances in hertz.
#[derive(Debug, Clone)]
pub struct MechanicalCharacteristics {
    pub motor_type: String,
    pub gear_ratio_milli: u32,
    pub friction_coefficient_milli: u32,
    pub resonant_frequencies_hz: Vec<u32>,
    pub noise_profile: NoiseProfile,
}

/// The sound of one servo: frequencies in hertz, durations in
/// milliseconds, envelope and harmonics in thousandths.
pub struct ServoProfile {
    pub base_frequency_hz: u32,
    pub frequency_range_hz: (u32, u32),
    pub duration_range_ms: (u32, u32),
    pub amplitude_envelope_milli: Vec<u32>,
    pub harmonic_content_milli: Vec<u32>,
    pub mechanical_characteristics: MechanicalCharacteristics,
}

/// A movement made while idle: frequency in thousandths of a hertz,
/// amplitude in thousandths.
#[derive(Debug, Clone)]
pub struct IdlePattern {
    pub pattern_name: String,
    pub frequency_milli_hz: u32,
    pub amplitude_milli: u32,
    pub servo_involvement: Vec<String>,
    pub trigger_conditions: Vec<String>,
}

/// How closely servo sounds follow each kind of movement, in thousandths.
#[derive(Debug, Clone)]
pub struct MovementTimingMap {
    pub head_turn_correlation_milli: u32,
    pub arm_movement_correlation_milli: u32,
    pub locomotion_correlation_milli: u32,
    pub idle_movement_patterns: Vec<IdlePattern>,
}

/// The filters servo sound passes through: cut-offs and band centres in
/// hertz, resonance in thousandths.
#[derive(Debug, Clone)]
pub struct ServoFiltering {
    pub lowpass_cutoff_hz: u32,
    pub highpass_cutoff_hz: u32,
    pub bandpass_centers_hz: Vec<u32>,
    pub resonance_milli: u32,
}

/// How servo sound is rendered.
#[derive(Debug, Clone)]
pub struct ServoAudioSynth {
    pub sample_rate: u32,
    pub buffer_size: usize,
    pub synthesis_method: ServoSynthMethod,
    pub filtering: ServoFiltering,
}

/// Adds servo sounds to speech.
pub struct ServoSoundGenerator {
    pub servo_profiles: StringHashMap<ServoProfile>,
    pub timing_correlations: MovementTimingMap,
    pub audio_synthesis: ServoAudioSynth,
    pub contextual_triggers: ServoTriggers,
}

/// Whether `p` is the sound of TARS's head turning: 8.5 kHz within 8 to
/// 9 kHz, 50 to 150 ms, an envelope of 0, 1, 0.8, 0, harmonics of 1, 0.3 and
/// 0.1, from an MG996R servo (gear ratio 5, friction 0.1, resonances at 8.5
/// and 17 kHz, white noise 0.05, pink noise 0.02, no clicks, bearing noise
/// 0.01).
pub open spec fn is_head_turn_profile(p: ServoProfile) -> bool {
    &&& p.base_frequency_hz == 8500
    &&& p.frequency_range_hz == (8000u32, 9000u32)
    &&& p.duration_range_ms == (50u32, 150u32)
    &&& p.amplitude_envelope_milli@ == seq![0u32, 1000, 800, 0]
    &&& p.harmonic_content_milli@ == seq![1000u32, 300, 100]
    &&& p.mechanical_characteristics.motor_type@ == "servo_mg996r"@
    &&& p.mechanical_characteristics.gear_ratio_milli == 5000
    &&& p.mechanical_characteristics.friction_coefficient_milli == 100
    &&& p.mechanical_characteristics.resonant_frequencies_hz@ == seq![8500u32, 17000]
    &&& p.mechanical_characteristics.noise_profile.white_noise_milli == 50
    &&& p.mechanical_characteristics.noise_profile.pink_noise_milli == 20
    &&& p.mechanical_characteristics.noise_profile.mechanical_clicks@.len() == 0
    &&& p.mechanical_characteristics.noise_profile.bearing_noise_milli == 10
}

/// Whether `g` is TARS's servo sound generator: the head-turn profile alone;
/// correlations of 0.8 with head turns, 0.6 with arm movements, 0.9 with
/// locomotion and no idle patterns; physical modelling at 44.1 kHz in
/// buffers of 1024, filtered between 5 and 12 kHz with bands at 8.5 and
/// 17 kHz and a resonance of 0.3; triggered at sentence boundaries, emphasis,
/// movement commands and idle periods.
pub open spec fn is_tars_servo_generator(g: ServoSoundGenerator) -> bool {
    &&& g.servo_profiles@.dom() == set!["head_turn"@]
    &&& is_head_turn_profile(g.servo_profiles@["head_turn"@])
    &&& g.timing_correlations.head_turn_correlation_milli == 800
    &&& g.timing_correlations.arm_movement_correlation_milli == 600
    &&& g.timing_correlations.locomotion_correlation_milli == 900
    &&& g.timing_correlations.idle_movement_patterns@.len() == 0
    &&& g.audio_synthesis.sample_rate == 44100
    &&& g.audio_synthesis.buffer_size == 1024
    &&& g.audio_synthesis.synthesis_method == ServoSynthMethod::PhysicalModeling
    &&& g.audio_synthesis.filtering.lowpass_cutoff_hz == 12000
    &&& g.audio_synthesis.filtering.highpass_cutoff_hz == 5000
    &&& g.audio_synthesis.filtering.bandpass_centers_hz@ == seq![8500u32, 17000]
    &&& g.audio_synthesis.filtering.resonance_milli == 300
    &&& g.contextual_triggers == ServoTriggers {
        sentence_boundaries: true,
        paragraph_boundaries: false,
        emphasis_points: true,
        emotional_transitions: false,
        movement_commands: true,
        idle_periods: true,
    }
}

/// The sound of TARS's head turning.
fn head_turn_profile() -> (p: ServoProfile)
    ensures
        is_head_turn_profile(p),
{
    let mut amplitude_envelope_milli: Vec<u32> = Vec::new();
    amplitude_envelope_milli.push(0);
    amplitude_envelope_milli.push(1000);
    amplitude_envelope_milli.push(800);
    amplitude_envelope_milli.push(0);
    let mut harmonic_content_milli: Vec<u32> = Vec::new();
    harmonic_content_milli.push(1000);
    harmonic_content_milli.push(300);
    harmonic_content_milli.push(100);
    let mut resonant_frequencies_hz: Vec<u32> = Vec::new();
    resonant_frequencies_hz.push(8500);
    resonant_frequencies_hz.push(17000);
    let p = ServoProfile {
        base_frequency_hz: 8500,
        frequency_range_hz: (8000, 9000),
        duration_range_ms: (50, 150),
        amplitude_envelope_milli,
        harmonic_content_milli,
        mechanical_characteristics: MechanicalCharacteristics {
            motor_type: String::from_str("servo_mg996r"),
            gear_ratio_milli: 5000,
            friction_coefficient_milli: 100,
            resonant_frequencies_hz,
            noise_profile: NoiseProfile {
                white_noise_milli: 50,
                pink_noise_milli: 20,
                mechanical_clicks: Vec::new(),
                bearing_noise_milli: 10,
            },
        },
    };
    assert(p.amplitude_envelope_milli@ =~= seq![0u32, 1000, 800, 0]);
    assert(p.harmonic_content_milli@ =~= seq![1000u32, 300, 100]);
    assert(p.mechanical_characteristics.resonant_frequencies_hz@ =~= seq![8500u32, 17000]);
    p
}

impl ServoSoundGenerator {
    /// TARS's servo sound generator.
    pub fn new() -> (g: Self)
        ensures
            is_tars_servo_generator(g),
    {
        let mut servo_profiles: StringHashMap<ServoProfile> = StringHashMap::new();
        servo_profiles.insert(String::from_str("head_turn"), head_turn_profile());
        let mut bandpass_centers_hz: Vec<u32> = Vec::new();
        bandpass_centers_hz.push(8500);
        bandpass_centers_hz.push(17000);
        let g = ServoSoundGenerator {
            servo_profiles,
            timing_correlations: MovementTimingMap {
                head_turn_correlation_milli: 800,
                arm_movement_correlation_milli: 600,
                locomotion_correlation_milli: 900,
                idle_movement_patterns: Vec::new(),
            },
            audio_synthesis: ServoAudioSynth {
                sample_rate: 44100,
                buffer_size: 1024,
                synthesis_method: ServoSynthMethod::PhysicalModeling,
                filtering: ServoFiltering {
                    lowpass_cutoff_hz: 12000,
                    highpass_cutoff_hz: 5000,
                    bandpass_centers_hz,
                    resonance_milli: 300,
                },
            },
            contextual_triggers: ServoTriggers {
                sentence_boundaries: true,
                paragraph_boundaries: false,
                emphasis_points: true,
                emotional_transitions: false,
                movement_commands: true,
                idle_periods: true,
            },
        };
        assert(g.servo_profiles@.dom() =~= set!["head_turn"@]);
        assert(g.audio_synthesis.filtering.bandpass_centers_hz@ =~= seq![8500u32, 17000]);
        g
    }

    /// The servo sounds of a timeline: a head-turn sound in the middle of
    /// every pause longer than 300 ms, over the timeline's whole length, with
    /// no audio rendered. Never fails.
    pub fn generate_servo_sounds(&self, timing: &GeneratedTiming, context: &str) -> (r: Result<ServoEventSequence, String>)
        requires
            forall|i: int| 0 <= i < timing.timing_events@.len() && #[trigger] is_servo_pause(timing.timing_events@[i])
                ==> timing.timing_events@[i].timestamp_ms + timing.timing_events@[i].duration_ms / 2 <= u32::MAX,
        ensures
            r matches Ok(s) && is_servo_track_for(s, *timing),
        {
        let ghost evs = timing.timing_events@;
        let mut out: Vec<ServoEvent> = Vec::new();
        let mut i: usize = 0;
        while i < timing.timing_events.len()
            invariant
                i <= evs.len(),
                evs == timing.timing_events@,
                forall|j: int| 0 <= j < evs.len() && #[trigger] is_servo_pause(evs[j])
                    ==> evs[j].timestamp_ms + evs[j].duration_ms / 2 <= u32::MAX,
                out@.len() == servo_sound_times(evs.take(i as int)).len(),
                forall|j: int| 0 <= j < out@.len()
                    ==> is_head_turn_sound(#[trigger] out@[j], servo_sound_times(evs.take(i as int))[j]),
            decreases evs.len() - i,
        {
            assert(evs.take(i as int + 1).drop_last() =~= evs.take(i as int));
            let e = timing.timing_events[i];
            if e.event_type == TimingEventType::Pause && e.duration_ms > 300 {
                assert(is_servo_pause(evs[i as int]));
                out.push(ServoEvent {
                    timestamp_ms: e.timestamp_ms + e.duration_ms / 2,
                    servo_type: String::from_str("head_turn"),
                    frequency_hz: 8500,
                    amplitude_milli: 30,
                    duration_ms: 50,
                });
            }
            i = i + 1;
        }
        assert(evs.take(evs.len() as int) =~= evs);
        Ok(ServoEventSequence { events: out, total_duration_ms: timing.total_duration_ms, audio_data: Vec::new() })
    }
}

/// A point of a pitch contour: where in the phrase (in thousandths of its
/// length), the pitch in hertz, and how pitch moves on from it.
#[derive(Debug, Clone, Copy, PartialEq, Eq, Structural)]
pub struct F0Point {
    pub time_permille: u32,
    pub f0_hz: u32,
    pub transition_type: F0Transition,
}

/// The pitch point at `time_permille` of a phrase.
pub open spec fn f0_point(time_permille: u32, f0_hz: u32, transition_type: F0Transition) -> F0Point {
    F0Point { time_permille, f0_hz, transition_type }
}

/// A named pitch contour: its points, its length as a multiplier in
/// thousandths, the contexts it is for and its emotional modifiers (in
/// thousandths).
pub struct IntonationContour {
    pub pattern_id: String,
    pub f0_points: Vec<F0Point>,
    pub duration_scaling_milli: u32,
    pub context_conditions: Vec<String>,
    pub emotional_modifiers: StringHashMap<u32>,
}

/// Whether `c` is the contour `id` with the given points and scaling, used
/// in the one context `condition`, with no emotional modifiers.
pub open spec fn is_contour(c: IntonationContour, id: Seq<char>, points: Seq<F0Point>, scaling: u32, condition: Seq<char>) -> bool {
    &&& c.pattern_id@ == id
    &&& c.f0_points@ == points
    &&& c.duration_scaling_milli == scaling
    &&& c.context_conditions@.len() == 1
    &&& c.context_conditions@[0]@ == condition
    &&& c.emotional_modifiers@ == Map::<Seq<char>, u32>::empty()
}

/// Builds a contour used in one context.
fn contour(id: &str, points: Vec<F0Point>, scaling: u32, condition: &str) -> (c: IntonationContour)
    ensures
        is_contour(c, id@, points@, scaling, condition@),
{
    let mut context_conditions: Vec<String> = Vec::new();
    context_conditions.push(String::from_str(condition));
    IntonationContour {
        pattern_id: String::from_str(id),
        f0_points: points,
        duration_scaling_milli: scaling,
        context_conditions,
        emotional_modifiers: StringHashMap::new(),
    }
}

/// The contours of TARS's characteristic deliveries.
pub struct TARSIntonationPatterns {
    pub deadpan_delivery: IntonationContour,
    pub technical_explanation: IntonationContour,
    pub emergency_alert: IntonationContour,
    pub sarcastic_response: IntonationContour,
    pub cooper_address: IntonationContour,
    pub status_report: IntonationContour,
}

/// Pitch contours by sentence type, and TARS's own.
pub struct IntonationPatternDB {
    pub declarative_patterns: Vec<IntonationContour>,
    pub interrogative_patterns: Vec<IntonationContour>,
    pub imperative_patterns: Vec<IntonationContour>,
    pub exclamatory_patterns: Vec<IntonationContour>,
    pub tars_specific_patterns: TARSIntonationPatterns,
}

/// Whether `t` holds TARS's six contours:
/// - deadpan (humour): 220 Hz falling linearly to 200 Hz, at full length;
/// - technical: 220, 225 at the middle, 210 Hz, smoothly, 0.9 times as long;
/// - emergency: a sharp 235 Hz falling linearly to 220 Hz, 1.2 times as long;
/// - sarcastic (sarcasm): 210, 205 at seven tenths, 195 Hz, smoothly, 0.92
///   times as long;
/// - Cooper: 222 Hz easing to 218 Hz, at full length;
/// - status: 220 Hz falling linearly to 215 Hz, 1.05 times as long.
pub open spec fn is_tars_contour_set(t: TARSIntonationPatterns) -> bool {
    &&& is_contour(t.deadpan_delivery, "deadpan"@,
        seq![f0_point(0, 220, F0Transition::Linear), f0_point(1000, 200, F0Transition::Linear)], 1000, "humor"@)
    &&& is_contour(t.technical_explanation, "technical"@,
        seq![
            f0_point(0, 220, F0Transition::Smooth),
            f0_point(500, 225, F0Transition::Smooth),
            f0_point(1000, 210, F0Transition::Smooth),
        ], 900, "technical"@)
    &&& is_contour(t.emergency_alert, "emergency"@,
        seq![f0_point(0, 235, F0Transition::Sharp), f0_point(1000, 220, F0Transition::Linear)], 1200, "emergency"@)
    &&& is_contour(t.sarcastic_response, "sarcastic"@,
        seq![
            f0_point(0, 210, F0Transition::Smooth),
            f0_point(700, 205, F0Transition::Smooth),
            f0_point(1000, 195, F0Transition::Smooth),
        ], 920, "sarcasm"@)
    &&& is_contour(t.cooper_address, "cooper"@,
        seq![f0_point(0, 222, F0Transition::Smooth), f0_point(1000, 218, F0Transition::Smooth)], 1000, "cooper"@)
    &&& is_contour(t.status_report, "status"@,
        seq![f0_point(0, 220, F0Transition::Linear), f0_point(1000, 215, F0Transition::Linear)], 1050, "status"@)
}

/// Whether `db` is TARS's intonation database: no contours by sentence
/// type, and TARS's six own contours.
pub open spec fn is_tars_intonation_db(db: IntonationPatternDB) -> bool {
    &&& db.declarative_patterns@.len() == 0
    &&& db.interrogative_patterns@.len() == 0
    &&& db.imperative_patterns@.len() == 0
    &&& db.exclamatory_patterns@.len() == 0
    &&& is_tars_contour_set(db.tars_specific_patterns)
}

/// A contour of two points.
fn two_point_contour(id: &str, first: F0Point, last: F0Point, scaling: u32, condition: &str) -> (c: IntonationContour)
    ensures
        is_contour(c, id@, seq![first, last], scaling, condition@),
{
    let mut points: Vec<F0Point> = Vec::new();
    points.push(first);
    points.push(last);
    assert(points@ =~= seq![first, last]);
    contour(id, points, scaling, condition)
}

/// A contour of three points.
fn three_point_contour(id: &str, first: F0Point, middle: F0Point, last: F0Point, scaling: u32, condition: &str) -> (c: IntonationContour)
    ensures
        is_contour(c, id@, seq![first, middle, last], scaling, condition@),
{
    let mut points: Vec<F0Point> = Vec::new();
    points.push(first);
    points.push(middle);
    points.push(last);
    assert(points@ =~= seq![first, middle, last]);
    contour(id, points, scaling, condition)
}

impl IntonationPatternDB {
    /// TARS's intonation database.
    pub fn new() -> (db: Self)
        ensures
            is_tars_intonation_db(db),
    {
        let deadpan_delivery = two_point_contour(
            "deadpan",
            F0Point { time_permille: 0, f0_hz: 220, transition_type: F0Transition::Linear },
            F0Point { time_permille: 1000, f0_hz: 200, transition_type: F0Transition::Linear },
            1000,
            "humor",
        );
        let technical_explanation = three_point_contour(
            "technical",
            F0Point { time_permille: 0, f0_hz: 220, transition_type: F0Transition::Smooth },
            F0Point { time_permille: 500, f0_hz: 225, transition_type: F0Transition::Smooth },
            F0Point { time_permille: 1000, f0_hz: 210, transition_type: F0Transition::Smooth },
            900,
            "technical",
        );
        let emergency_alert = two_point_contour(
            "emergency",
            F0Point { time_permille: 0, f0_hz: 235, transition_type: F0Transition::Sharp },
            F0Point { time_permille: 1000, f0_hz: 220, transition_type: F0Transition::Linear },
            1200,
            "emergency",
        );
        let sarcastic_response = three_point_contour(
            "sarcastic",
            F0Point { time_permille: 0, f0_hz: 210, transition_type: F0Transition::Smooth },
            F0Point { time_permille: 700, f0_hz: 205, transition_type: F0Transition::Smooth },
            F0Point { time_permille: 1000, f0_hz: 195, transition_type: F0Transition::Smooth },
            920,
            "sarcasm",
        );
        let cooper_address = two_point_contour(
            "cooper",
            F0Point { time_permille: 0, f0_hz: 222, transition_type: F0Transition::Smooth },
            F0Point { time_permille: 1000, f0_hz: 218, transition_type: F0Transition::Smooth },
            1000,
            "cooper",
        );
        let status_report = two_point_contour(
            "status",
            F0Point { time_permille: 0, f0_hz: 220, transition_type: F0Transition::Linear },
            F0Point { time_permille: 1000, f0_hz: 215, transition_type: F0Transition::Linear },
            1050,
            "status",
        );
        IntonationPatternDB {
            declarative_patterns: Vec::new(),
            interrogative_patterns: Vec::new(),
            imperative_patterns: Vec::new(),
            exclamatory_patterns: Vec::new(),
            tars_specific_patterns: TARSIntonationPatterns {
                deadpan_delivery,
                technical_explanation,
                emergency_alert,
                sarcastic_response,
                cooper_address,
                status_report,
            },
        }
    }
}

/// A metrical foot and how it changes stress, in thousandths.
pub struct MetricalPattern {
    pub pattern_name: String,
    pub foot_structure: Vec<Stress>,
    pub primary_stress_boost_milli: u32,
    pub secondary_stress_boost_milli: u32,
    pub unstressed_reduction_milli: u32,
}

/// How tempo changes within a phrase, as multipliers in thousandths.
#[derive(Debug, Clone, Copy, PartialEq, Eq, Structural)]
pub struct PhraseTempoAdjustments {
    pub phrase_initial_acceleration_milli: u32,
    pub phrase_final_deceleration_milli: u32,
    pub pre_pause_deceleration_milli: u32,
    pub post_pause_acceleration_milli: u32,
}

/// The speaking tempo in beats per minute and its modifiers (in
/// thousandths) by context and by emotion.
pub struct TempoVariationEngine {
    pub base_tempo_bpm: u32,
    pub contextual_modifiers: StringHashMap<u32>,
    pub emotional_modifiers: StringHashMap<u32>,
    pub phrase_level_adjustments: PhraseTempoAdjustments,
}

/// How long a syllable lasts, and its modifiers by stress (in thousandths).
pub struct SyllableTimingModel {
    pub base_duration_ms: u32,
    pub stress_modifiers: std::collections::HashMap<Stress, u32>,
}

/// The gap between words, and its modifiers by context (in thousandths).
pub struct WordSpacingModel {
    pub base_spacing_ms: u32,
    pub context_modifiers: StringHashMap<u32>,
}

/// Produces the rhythm of speech.
pub struct RhythmGenerator {
    pub metrical_patterns: StringHashMap<MetricalPattern>,
    pub tempo_variations: TempoVariationEngine,
    pub syllable_timing: SyllableTimingModel,
    pub word_spacing: WordSpacingModel,
}

/// Whether `r` is TARS's rhythm: no metrical patterns; 110 beats a minute
/// with no modifiers, phrases starting 1.05 times and ending 0.95 times as
/// fast, slowing to 0.9 before a pause and speeding to 1.1 after one;
/// syllables of 150 ms and words 100 ms apart, with no modifiers.
pub open spec fn is_tars_rhythm(r: RhythmGenerator) -> bool {
    &&& r.metrical_patterns@ == Map::<Seq<char>, MetricalPattern>::empty()
    &&& r.tempo_variations.base_tempo_bpm == 110
    &&& r.tempo_variations.contextual_modifiers@ == Map::<Seq<char>, u32>::empty()
    &&& r.tempo_variations.emotional_modifiers@ == Map::<Seq<char>, u32>::empty()
    &&& r.tempo_variations.phrase_level_adjustments == PhraseTempoAdjustments {
        phrase_initial_acceleration_milli: 1050,
        phrase_final_deceleration_milli: 950,
        pre_pause_deceleration_milli: 900,
        post_pause_acceleration_milli: 1100,
    }
    &&& r.syllable_timing.base_duration_ms == 150
    &&& r.syllable_timing.stress_modifiers@ == Map::<Stress, u32>::empty()
    &&& r.word_spacing.base_spacing_ms == 100
    &&& r.word_spacing.context_modifiers@ == Map::<Seq<char>, u32>::empty()
}

impl RhythmGenerator {
    /// TARS's rhythm.
    pub fn new() -> (r: Self)
        ensures
            is_tars_rhythm(r),
    {
        RhythmGenerator {
            metrical_patterns: StringHashMap::new(),
            tempo_variations: TempoVariationEngine {
                base_tempo_bpm: 110,
                contextual_modifiers: StringHashMap::new(),
                emotional_modifiers: StringHashMap::new(),
                phrase_level_adjustments: PhraseTempoAdjustments {
                    phrase_initial_acceleration_milli: 1050,
                    phrase_final_deceleration_milli: 950,
                    pre_pause_deceleration_milli: 900,
                    post_pause_acceleration_milli: 1100,
                },
            },
            syllable_timing: SyllableTimingModel {
                base_duration_ms: 150,
                stress_modifiers: std::collections::HashMap::new(),
            },
            word_spacing: WordSpacingModel { base_spacing_ms: 100, context_modifiers: StringHashMap::new() },
        }
    }
}

/// Stress rules by name, weights in thousandths.
pub struct StressAssignmentEngine {
    pub rules: StringHashMap<u32>,
}

/// Produces pitch, rhythm and stress.
pub struct ProsodyEngine {
    pub intonation_patterns: IntonationPatternDB,
    pub rhythm_generator: RhythmGenerator,
    pub stress_assignment: StressAssignmentEngine,
    pub boundary_detection: BoundaryDetectionSystem,
}

/// Whether `e` is TARS's prosody engine: its intonation database and
/// rhythm, with no stress or boundary rules.
pub open spec fn is_tars_prosody_engine(e: ProsodyEngine) -> bool {
    &&& is_tars_intonation_db(e.intonation_patterns)
    &&& is_tars_rhythm(e.rhythm_generator)
    &&& e.stress_assignment.rules@ == Map::<Seq<char>, u32>::empty()
    &&& e.boundary_detection.detection_rules@ == Map::<Seq<char>, BoundaryStrength>::empty()
}

/// A beat of the rhythm; position, strength and length in thousandths.
#[derive(Debug, Clone, Copy, PartialEq, Eq, Structural)]
pub struct RhythmBeat {
    pub position_milli: u32,
    pub strength_milli: u32,
    pub duration_milli: u32,
}

/// The rhythm of a delivery.
pub struct RhythmPattern {
    pub beats: Vec<RhythmBeat>,
    pub tempo_bpm: u32,
    pub time_signature: (u8, u8),
}

/// Which syllables are stressed, how much (in thousandths) and why.
#[derive(Debug, Clone)]
pub struct StressPattern {
    pub stressed_syllables: Vec<usize>,
    pub stress_levels_milli: Vec<u32>,
    pub stress_types: Vec<EmphasisType>,
}

/// The prosody of a delivery.
pub struct GeneratedProsody {
    pub f0_contour: Vec<F0Point>,
    pub rhythm_pattern: RhythmPattern,
    pub stress_pattern: StressPattern,
    pub intonation_type: String,
}

/// Whether `p` is TARS's declarative prosody: pitch easing from 220 Hz to
/// 200 Hz, 110 beats a minute in four-four time with no beats marked, no
/// stressed syllables.
pub open spec fn is_declarative_prosody(p: GeneratedProsody) -> bool {
    &&& p.f0_contour@ == seq![f0_point(0, 220, F0Transition::Smooth), f0_point(1000, 200, F0Transition::Smooth)]
    &&& p.rhythm_pattern.beats@.len() == 0
    &&& p.rhythm_pattern.tempo_bpm == 110
    &&& p.rhythm_pattern.time_signature == (4u8, 4u8)
    &&& p.stress_pattern.stressed_syllables@.len() == 0
    &&& p.stress_pattern.stress_levels_milli@.len() == 0
    &&& p.stress_pattern.stress_types@.len() == 0
    &&& p.intonation_type@ == "declarative"@
}

impl ProsodyEngine {
    /// TARS's prosody engine.
    pub fn new() -> (e: Self)
        ensures
            is_tars_prosody_engine(e),
    {
        ProsodyEngine {
            intonation_patterns: IntonationPatternDB::new(),
            rhythm_generator: RhythmGenerator::new(),
            stress_assignment: StressAssignmentEngine { rules: StringHashMap::new() },
            boundary_detection: BoundaryDetectionSystem { detection_rules: StringHashMap::new() },
        }
    }

    /// The prosody of an analysed text: TARS's declarative prosody, whatever
    /// the text and emotion. Never fails.
    pub fn generate_prosody(&self, analysis: &PhraseAnalysis, emotion: &EmotionConfig) -> (r: Result<GeneratedProsody, String>)
        ensures
            r matches Ok(p) && is_declarative_prosody(p),
    {
        let mut f0_contour: Vec<F0Point> = Vec::new();
        f0_contour.push(F0Point { time_permille: 0, f0_hz: 220, transition_type: F0Transition::Smooth });
        f0_contour.push(F0Point { time_permille: 1000, f0_hz: 200, transition_type: F0Transition::Smooth });
        let p = GeneratedProsody {
            f0_contour,
            rhythm_pattern: RhythmPattern { beats: Vec::new(), tempo_bpm: 110, time_signature: (4, 4) },
            stress_pattern: StressPattern {
                stressed_syllables: Vec::new(),
                stress_levels_milli: Vec::new(),
                stress_types: Vec::new(),
            },
            intonation_type: String::from_str("declarative"),
        };
        assert(p.f0_contour@ =~= seq![f0_point(0, 220, F0Transition::Smooth), f0_point(1000, 200, F0Transition::Smooth)]);
        Ok(p)
    }
}

/// Whether `d` is the robot-colony line, delivered deadpan with the stress on
/// "robot colony".
pub open spec fn is_robot_colony_line(d: MoviePhraseData) -> bool {
    &&& d.original_text@ == "Plenty of slaves for my robot colony"@
    &&& d.phonetic_transcription@ == "ˈplɛn.ti ʌv sleɪvz fɔr maɪ ˈroʊ.bɑt ˈkɑl.ə.ni"@
    &&& d.timing_markers@ == seq![
        TimingMarker { position_ms: 0, marker_type: TimingMarkerType::WordBoundary, duration_ms: 150, intensity_milli: 800 },
        TimingMarker { position_ms: 800, marker_type: TimingMarkerType::EmphasisPause, duration_ms: 200, intensity_milli: 600 },
        TimingMarker { position_ms: 1200, marker_type: TimingMarkerType::ServoSound, duration_ms: 50, intensity_milli: 300 },
    ]
    &&& d.emphasis_points@ == seq![
        EmphasisPoint {
            word_index: 4,
            syllable_index: 0,
            emphasis_type: EmphasisType::Focus,
            intensity_milli: 800,
            f0_adjustment_milli: 5000,
            duration_multiplier_milli: 1200,
        },
    ]
    &&& d.emotional_context.primary_emotion@ == "deadpan_humor"@
    &&& d.emotional_context.intensity_milli == 800
    &&& d.emotional_context.arousal_milli == 200
    &&& d.emotional_context.valence_milli == 600
    &&& d.scene_context@ == "Humor setting demonstration"@
    &&& d.delivery_notes@ == "Deadpan delivery with slight emphasis on 'robot colony'"@
}

/// Whether `d` is the no-time-for-caution line, urgent, with the stress on
/// Cooper's name.
pub open spec fn is_no_time_for_caution_line(d: MoviePhraseData) -> bool {
    &&& d.original_text@ == "Cooper, this is no time for caution"@
    &&& d.phonetic_transcription@ == "ˈku.pər ðɪs ɪz noʊ taɪm fɔr ˈkɔ.ʃən"@
    &&& d.timing_markers@ == seq![
        TimingMarker { position_ms: 0, marker_type: TimingMarkerType::WordBoundary, duration_ms: 200, intensity_milli: 1000 },
        TimingMarker { position_ms: 600, marker_type: TimingMarkerType::EmphasisPause, duration_ms: 150, intensity_milli: 800 },
    ]
    &&& d.emphasis_points@ == seq![cooper_emphasis()]
    &&& d.emotional_context.primary_emotion@ == "cooper_interaction"@
    &&& d.emotional_context.intensity_milli == 900
    &&& d.emotional_context.arousal_milli == 800
    &&& d.emotional_context.valence_milli == -300i32
    &&& d.scene_context@ == "Urgent mission moment"@
    &&& d.delivery_notes@ == "Urgent but controlled delivery"@
}

/// The robot-colony line.
fn robot_colony_line() -> (d: MoviePhraseData)
    ensures
        is_robot_colony_line(d),
{
    let mut timing_markers: Vec<TimingMarker> = Vec::new();
    timing_markers.push(TimingMarker { position_ms: 0, marker_type: TimingMarkerType::WordBoundary, duration_ms: 150, intensity_milli: 800 });
    timing_markers.push(TimingMarker { position_ms: 800, marker_type: TimingMarkerType::EmphasisPause, duration_ms: 200, intensity_milli: 600 });
    timing_markers.push(TimingMarker { position_ms: 1200, marker_type: TimingMarkerType::ServoSound, duration_ms: 50, intensity_milli: 300 });
    let mut emphasis_points: Vec<EmphasisPoint> = Vec::new();
    emphasis_points.push(EmphasisPoint {
        word_index: 4,
        syllable_index: 0,
        emphasis_type: EmphasisType::Focus,
        intensity_milli: 800,
        f0_adjustment_milli: 5000,
        duration_multiplier_milli: 1200,
    });
    let d = MoviePhraseData {
        original_text: String::from_str("Plenty of slaves for my robot colony"),
        phonetic_transcription: String::from_str("ˈplɛn.ti ʌv sleɪvz fɔr maɪ ˈroʊ.bɑt ˈkɑl.ə.ni"),
        timing_markers,
        emphasis_points,
        emotional_context: EmotionConfig {
            primary_emotion: String::from_str("deadpan_humor"),
            intensity_milli: 800,
            arousal_milli: 200,
            valence_milli: 600,
        },
        scene_context: String::from_str("Humor setting demonstration"),
        delivery_notes: String::from_str("Deadpan delivery with slight emphasis on 'robot colony'"),
    };
    assert(d.timing_markers@ =~= seq![
        TimingMarker { position_ms: 0, marker_type: TimingMarkerType::WordBoundary, duration_ms: 150, intensity_milli: 800 },
        TimingMarker { position_ms: 800, marker_type: TimingMarkerType::EmphasisPause, duration_ms: 200, intensity_milli: 600 },
        TimingMarker { position_ms: 1200, marker_type: TimingMarkerType::ServoSound, duration_ms: 50, intensity_milli: 300 },
    ]);
    assert(d.emphasis_points@ =~= seq![
        EmphasisPoint {
            word_index: 4,
            syllable_index: 0,
            emphasis_type: EmphasisType::Focus,
            intensity_milli: 800,
            f0_adjustment_milli: 5000,
            duration_multiplier_milli: 1200,
        },
    ]);
    d
}

/// The no-time-for-caution line.
fn no_time_for_caution_line() -> (d: MoviePhraseData)
    ensures
        is_no_time_for_caution_line(d),
{
    let mut timing_markers: Vec<TimingMarker> = Vec::new();
    timing_markers.push(TimingMarker { position_ms: 0, marker_type: TimingMarkerType::WordBoundary, duration_ms: 200, intensity_milli: 1000 });
    timing_markers.push(TimingMarker { position_ms: 600, marker_type: TimingMarkerType::EmphasisPause, duration_ms: 150, intensity_milli: 800 });
    let mut emphasis_points: Vec<EmphasisPoint> = Vec::new();
    emphasis_points.push(EmphasisPoint {
        word_index: 0,
        syllable_index: 0,
        emphasis_type: EmphasisType::Cooper,
        intensity_milli: 900,
        f0_adjustment_milli: 8000,
        duration_multiplier_milli: 1150,
    });
    let d = MoviePhraseData {
        original_text: String::from_str("Cooper, this is no time for caution"),
        phonetic_transcription: String::from_str("ˈku.pər ðɪs ɪz noʊ taɪm fɔr ˈkɔ.ʃən"),
        timing_markers,
        emphasis_points,
        emotional_context: EmotionConfig {
            primary_emotion: String::from_str("cooper_interaction"),
            intensity_milli: 900,
            arousal_milli: 800,
            valence_milli: -300,
        },
        scene_context: String::from_str("Urgent mission moment"),
        delivery_notes: String::from_str("Urgent but controlled delivery"),
    };
    assert(d.timing_markers@ =~= seq![
        TimingMarker { position_ms: 0, marker_type: TimingMarkerType::WordBoundary, duration_ms: 200, intensity_milli: 1000 },
        TimingMarker { position_ms: 600, marker_type: TimingMarkerType::EmphasisPause, duration_ms: 150, intensity_milli: 800 },
    ]);
    assert(d.emphasis_points@ =~= seq![cooper_emphasis()]);
    d
}

/// Whether `a` knows TARS's two signature lines, "robot_colony" and
/// "no_time_for_caution", and no others.
pub open spec fn has_movie_quotes(a: PhraseAnalyzer) -> bool {
    &&& a.movie_phrases@.dom() == set!["robot_colony"@, "no_time_for_caution"@]
    &&& is_robot_colony_line(a.movie_phrases@["robot_colony"@])
    &&& is_no_time_for_caution_line(a.movie_phrases@["no_time_for_caution"@])
}

/// How a piece of speech was processed: the context, the emotion asked
/// for, the time taken and the accuracy to the film in thousandths.
pub struct ProcessingMetadata {
    pub context: String,
    pub emotion: EmotionConfig,
    pub processing_time_ms: u32,
    pub quality_milli: u32,
}

/// A text made ready to be spoken as TARS speaks in the film.
pub struct ProcessedSpeech {
    pub original_text: String,
    pub phrase_analysis: PhraseAnalysis,
    pub timing_pattern: GeneratedTiming,
    pub servo_events: ServoEventSequence,
    pub prosody: GeneratedProsody,
    pub emphasis: EmphasisMapping,
    pub processing_metadata: ProcessingMetadata,
}

/// Whether `s` is `text`, said in `context` with `emotion`, processed with
/// the delivery style `p`: analysed as one phrase, timed in that style, given
/// servo sounds in its long pauses, TARS's declarative prosody and a stress
/// on Cooper's name, and recorded as taking 50 ms with an accuracy of 0.95.
pub open spec fn is_processed_speech(
    s: ProcessedSpeech,
    text: Seq<char>,
    context: Seq<char>,
    emotion: EmotionConfig,
    p: TimingPattern,
) -> bool {
    &&& s.original_text@ == text
    &&& is_text_analysis(s.phrase_analysis, text, context)
    &&& is_timeline_for(s.timing_pattern, p, s.phrase_analysis)
    &&& is_servo_track_for(s.servo_events, s.timing_pattern)
    &&& is_declarative_prosody(s.prosody)
    &&& is_emphasis_for(s.emphasis, s.phrase_analysis)
    &&& s.processing_metadata.context@ == context
    &&& is_emotion(
        s.processing_metadata.emotion,
        emotion.primary_emotion@,
        emotion.intensity_milli,
        emotion.arousal_milli,
        emotion.valence_milli,
    )
    &&& s.processing_metadata.processing_time_ms == 50
    &&& s.processing_metadata.quality_milli == 950
}

/// Turns text into speech timed, stressed and punctuated as TARS speaks in
/// the film.
pub struct MovieAccurateSpeechProcessor {
    pub timing_engine: TimingEngine,
    pub phrase_analyzer: PhraseAnalyzer,
    pub servo_sound_generator: ServoSoundGenerator,
    pub prosody_engine: ProsodyEngine,
    pub emphasis_detector: EmphasisDetector,
}

/// Whether `p` has TARS's engines and phrase tables (whatever film lines it
/// knows).
pub open spec fn is_tars_processor(p: MovieAccurateSpeechProcessor) -> bool {
    &&& is_tars_timing_engine(p.timing_engine)
    &&& is_tars_phrase_tables(p.phrase_analyzer)
    &&& is_tars_servo_generator(p.servo_sound_generator)
    &&& is_tars_prosody_engine(p.prosody_engine)
    &&& is_tars_emphasis_detector(p.emphasis_detector)
}

impl MovieAccurateSpeechProcessor {
    /// A processor with TARS's engines that knows no film lines yet.
    pub fn new() -> (p: Self)
        ensures
            is_tars_processor(p),
            p.phrase_analyzer.movie_phrases@ == Map::<Seq<char>, MoviePhraseData>::empty(),
    {
        MovieAccurateSpeechProcessor {
            timing_engine: TimingEngine::new(),
            phrase_analyzer: PhraseAnalyzer::new(),
            servo_sound_generator: ServoSoundGenerator::new(),
            prosody_engine: ProsodyEngine::new(),
            emphasis_detector: EmphasisDetector::new(),
        }
    }

    /// Replaces the known film lines with TARS's two signature lines, each
    /// with its timing, emphasis and mood. Never fails; nothing else changes.
    pub fn load_movie_quotes(&mut self) -> (r: Result<(), String>)
        ensures
            r is Ok,
            has_movie_quotes(final(self).phrase_analyzer),
            final(self).phrase_analyzer.syntax_parser == old(self).phrase_analyzer.syntax_parser,
            final(self).phrase_analyzer.emphasis_patterns == old(self).phrase_analyzer.emphasis_patterns,
            final(self).phrase_analyzer.cooper_specific_patterns == old(self).phrase_analyzer.cooper_specific_patterns,
            final(self).timing_engine == old(self).timing_engine,
            final(self).servo_sound_generator == old(self).servo_sound_generator,
            final(self).prosody_engine == old(self).prosody_engine,
            final(self).emphasis_detector == old(self).emphasis_detector,
    {
        proof {
            reveal_strlit("robot_colony");
            reveal_strlit("no_time_for_caution");
            assert("robot_colony"@.len() == 12);
            assert("no_time_for_caution"@.len() == 19);
        }
        let mut movie_phrases: StringHashMap<MoviePhraseData> = StringHashMap::new();
        movie_phrases.insert(String::from_str("robot_colony"), robot_colony_line());
        movie_phrases.insert(String::from_str("no_time_for_caution"), no_time_for_caution_line());
        assert(movie_phrases@.dom() =~= set!["robot_colony"@, "no_time_for_caution"@]);
        self.phrase_analyzer.movie_phrases = movie_phrases;
        Ok(())
    }

    /// Processes `text`, said in `context` with `emotion`: analyses it as
    /// one phrase, times it in the "default" delivery style (which must be
    /// present), adds servo sounds, prosody and emphasis, and records how it
    /// was done. Never fails.
    pub fn process_text(&self, text: &str, context: &str, emotion: &EmotionConfig) -> (r: Result<ProcessedSpeech, String>)
        requires
            self.timing_engine.base_timing_patterns@.contains_key("default"@),
            phrase_span(self.timing_engine.base_timing_patterns@["default"@], split_ws(text@).len()) <= u32::MAX,
        ensures
            r matches Ok(s) && is_processed_speech(s, text@, context@, *emotion, self.timing_engine.base_timing_patterns@["default"@]),
    {
        let phrase_analysis = match self.phrase_analyzer.analyze_text(text, context) {
            Ok(a) => a,
            Err(e) => {
                return Err(e);
            },
        };
        let ghost p = self.timing_engine.base_timing_patterns@["default"@];
        let ghost wcs = word_counts(phrase_analysis.phrases@);
        proof {
            assert(wcs =~= seq![phrase_analysis.phrases@[0].word_count]);
            assert(wcs.drop_last() =~= Seq::<usize>::empty());
            assert(timeline_span(p, wcs.drop_last()) == 0);
            assert(wcs.last() as nat == split_ws(text@).len());
            assert(timeline_span(p, wcs) == phrase_span(p, split_ws(text@).len()));
            law_servo_sounds_within_delivery(p, wcs);
        }
        let timing_pattern = match self.timing_engine.generate_timing(&phrase_analysis, emotion) {
            Ok(t) => t,
            Err(e) => {
                return Err(e);
            },
        };
        let servo_events = match self.servo_sound_generator.generate_servo_sounds(&timing_pattern, context) {
            Ok(v) => v,
            Err(e) => {
                return Err(e);
            },
        };
        let prosody = match self.prosody_engine.generate_prosody(&phrase_analysis, emotion) {
            Ok(v) => v,
            Err(e) => {
                return Err(e);
            },
        };
        let emphasis = match self.emphasis_detector.detect_emphasis(&phrase_analysis, context) {
            Ok(v) => v,
            Err(e) => {
                return Err(e);
            },
        };
        Ok(ProcessedSpeech {
            original_text: String::from_str(text),
            phrase_analysis,
            timing_pattern,
            servo_events,
            prosody,
            emphasis,
            processing_metadata: ProcessingMetadata {
                context: String::from_str(context),
                emotion: EmotionConfig {
                    primary_emotion: emotion.primary_emotion.clone(),
                    intensity_milli: emotion.intensity_milli,
                    arousal_milli: emotion.arousal_milli,
                    valence_milli: emotion.valence_milli,
                },
                processing_time_ms: 50,
                quality_milli: 950,
            },
        })
    }
}

/// A processor with TARS's engines that knows the film's lines.
pub fn create_movie_speech_processor() -> (p: MovieAccurateSpeechProcessor)
    ensures
        is_tars_processor(p),
        has_movie_quotes(p.phrase_analyzer),
{
    let mut processor = MovieAccurateSpeechProcessor::new();
    let _ = processor.load_movie_quotes();
    processor
}

/// Processes `text` with a fresh processor, in TARS's default delivery.
/// Never fails.
pub fn process_tars_speech(text: &str, context: &str, emotion: &EmotionConfig) -> (r: Result<ProcessedSpeech, String>)
    requires
        phrase_span(default_pattern(), split_ws(text@).len()) <= u32::MAX,
    ensures
        r matches Ok(s) && is_processed_speech(s, text@, context@, *emotion, default_pattern()),
{
    proof {
        reveal_strlit("default");
        reveal_strlit("emergency");
        assert("default"@.len() == 7);
        assert("emergency"@.len() == 9);
    }
    let processor = create_movie_speech_processor();
    assert(processor.timing_engine.base_timing_patterns@["default"@] == default_pattern());
    processor.process_text(text, context, emotion)
}

/// Whether a timeline event is over by `bound`.
pub open spec fn ends_by(e: TimingEvent, bound: int) -> bool {
    e.timestamp_ms + e.duration_ms <= bound
}

/// Every event of a phrase is over by the time the phrase ends.
proof fn lemma_phrase_events_end(p: TimingPattern, start: int, wc: nat)
    requires
        0 <= start,
        start + phrase_span(p, wc) <= u32::MAX,
    ensures
        forall|i: int| 0 <= i < phrase_events(p, start, wc).len()
            ==> ends_by(#[trigger] phrase_events(p, start, wc)[i], start + phrase_span(p, wc)),
{
    let evs = phrase_events(p, start, wc);
    let slot = word_slot(p);
    assert(0 <= wc * slot) by (nonlinear_arith) requires slot >= 0;
    assert forall|i: int| 0 <= i < evs.len() implies ends_by(#[trigger] evs[i], start + phrase_span(p, wc)) by {
        if 1 <= i <= wc {
            let k = i - 1;
            assert((k + 1) * slot <= wc * slot) by (nonlinear_arith) requires k + 1 <= wc, slot >= 0;
            assert(k * slot + slot == (k + 1) * slot) by (nonlinear_arith);
            assert(0 <= k * slot) by (nonlinear_arith) requires k >= 0, slot >= 0;
            assert(evs[i] == word_event(word_start(p, start, k)));
        }
    }
}

/// Every event of a timeline is over by the time the timeline ends.
proof fn lemma_timeline_events_end(p: TimingPattern, wcs: Seq<usize>)
    requires
        timeline_span(p, wcs) <= u32::MAX,
    ensures
        forall|i: int| 0 <= i < timeline_events(p, wcs).len()
            ==> ends_by(#[trigger] timeline_events(p, wcs)[i], timeline_span(p, wcs)),
    decreases wcs.len(),
{
    if wcs.len() > 0 {
        let prev = wcs.drop_last();
        lemma_timeline_prefix(p, wcs, wcs.len() - 1);
        assert(wcs.take(wcs.len() - 1) =~= prev);
        lemma_timeline_prefix(p, prev, 0);
        assert(prev.take(0) =~= Seq::<usize>::empty());
        lemma_timeline_events_end(p, prev);
        lemma_phrase_events_end(p, timeline_span(p, prev), wcs.last() as nat);
        let a = timeline_events(p, prev);
        let b = phrase_events(p, timeline_span(p, prev), wcs.last() as nat);
        assert forall|i: int| 0 <= i < timeline_events(p, wcs).len()
            implies ends_by(#[trigger] timeline_events(p, wcs)[i], timeline_span(p, wcs)) by {
            if i < a.len() {
                assert(timeline_events(p, wcs)[i] == a[i]);
            } else {
                assert(timeline_events(p, wcs)[i] == b[i - a.len()]);
            }
        }
    }
}

/// The servo sounds of events that are all over by `bound` start before it.
proof fn lemma_servo_times_before(evs: Seq<TimingEvent>, bound: int)
    requires
        forall|i: int| 0 <= i < evs.len() ==> ends_by(#[trigger] evs[i], bound),
    ensures
        forall|i: int| 0 <= i < servo_sound_times(evs).len() ==> #[trigger] servo_sound_times(evs)[i] < bound,
    decreases evs.len(),
{
    if evs.len() > 0 {
        let prev = evs.drop_last();
        assert forall|i: int| 0 <= i < prev.len() implies ends_by(#[trigger] prev[i], bound) by {
            assert(prev[i] == evs[i]);
        }
        lemma_servo_times_before(prev, bound);
        let last = evs.last();
        assert(ends_by(evs[evs.len() - 1], bound));
        let pt = servo_sound_times(prev);
        assert forall|i: int| 0 <= i < servo_sound_times(evs).len() implies #[trigger] servo_sound_times(evs)[i] < bound by {
            if i < pt.len() {
                assert(servo_sound_times(evs)[i] == pt[i]);
            } else {
                assert(is_servo_pause(last));
                assert(servo_sound_times(evs)[i] == last.timestamp_ms + last.duration_ms / 2);
            }
        }
    }
}

/// Every timeline made for an analysed text can be given servo sounds (no
/// servo sound's time overflows), and each servo sound starts before the
/// delivery ends.
pub proof fn law_servo_sounds_within_delivery(p: TimingPattern, wcs: Seq<usize>)
    requires
        timeline_span(p, wcs) <= u32::MAX,
    ensures
        forall|i: int| 0 <= i < timeline_events(p, wcs).len() && #[trigger] is_servo_pause(timeline_events(p, wcs)[i])
            ==> timeline_events(p, wcs)[i].timestamp_ms + timeline_events(p, wcs)[i].duration_ms / 2 <= u32::MAX,
        forall|i: int| 0 <= i < servo_sound_times(timeline_events(p, wcs)).len()
            ==> #[trigger] servo_sound_times(timeline_events(p, wcs))[i] < timeline_span(p, wcs),
{
    lemma_timeline_events_end(p, wcs);
    lemma_servo_times_before(timeline_events(p, wcs), timeline_span(p, wcs));
    assert forall|i: int| 0 <= i < timeline_events(p, wcs).len() && #[trigger] is_servo_pause(timeline_events(p, wcs)[i])
        implies timeline_events(p, wcs)[i].timestamp_ms + timeline_events(p, wcs)[i].duration_ms / 2 <= u32::MAX by {
        assert(ends_by(timeline_events(p, wcs)[i], timeline_span(p, wcs)));
    }
}

} // verus!
