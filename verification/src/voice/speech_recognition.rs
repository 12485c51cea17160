//! Speech recognition: engine configuration and the interpretation of a
//! transcript as a TARS command.

use vstd::prelude::*;
use vstd::hash_map::StringHashMap;
use crate::text::{
    chars_of, contains_chars, occurs_at, ends_with_chars, find_from, find_spec, has_substring, ends_with_spec,
    lowercase, owned, split_ws, split_whitespace_chars, string_from_range, to_lower, join2, contains_string,
    strings_view, str_equal,
};
use crate::chance::random_below;

verus! {

broadcast use vstd::string::group_string_axioms;

/// Which recognizer transcribes audio.
#[derive(Debug, Clone)]
pub enum RecognitionEngine {
    Local(LocalRecognitionConfig),
    Cloud(CloudRecognitionConfig),
    Hybrid,
}

/// An offline recognizer's model files.
#[derive(Debug, Clone)]
pub struct LocalRecognitionConfig {
    pub model_path: String,
    pub beam_width: u32,
    pub language_model_path: Option<String>,
    pub acoustic_model_path: Option<String>,
}

/// A hosted recognition service.
#[derive(Debug, Clone)]
pub struct CloudRecognitionConfig {
    pub service_provider: String,
    pub api_key: Option<String>,
    pub region: String,
    pub streaming: bool,
}

/// The kind of request a transcript expresses.
#[derive(Debug, Clone, Copy, PartialEq, Eq)]
pub enum CommandType {
    EngineeringTask,
    SystemControl,
    CodeReview,
    RemoteOperation,
    Conversation,
    Emergency,
    Configuration,
    Query,
}

#[derive(Debug, Clone, Copy, PartialEq, Eq)]
pub enum CommandPriority {
    Critical,
    High,
    Normal,
    Low,
}

/// What TARS makes of a transcript.
pub struct TARSInterpretation {
    pub command_type: CommandType,
    pub parameters: StringHashMap<String>,
    pub context: String,
    pub priority: CommandPriority,
    pub requires_confirmation: bool,
}

/// The parameters as character sequences.
pub open spec fn params_view(m: Map<Seq<char>, String>) -> Map<Seq<char>, Seq<char>> {
    m.map_values(|v: String| v@)
}

/// The command type of a lower-cased transcript; the first rule that
/// matches wins.
pub open spec fn command_type_for(t: Seq<char>) -> CommandType {
    if has_substring(t, "review"@) && has_substring(t, "code"@) {
        CommandType::CodeReview
    } else if has_substring(t, "connect"@) || has_substring(t, "ssh"@) || has_substring(t, "remote"@) {
        CommandType::RemoteOperation
    } else if has_substring(t, "emergency"@) || has_substring(t, "stop"@) || has_substring(t, "abort"@) {
        CommandType::Emergency
    } else if has_substring(t, "deploy"@) || has_substring(t, "build"@) || has_substring(t, "test"@) {
        CommandType::EngineeringTask
    } else if has_substring(t, "?"@) || has_substring(t, "what"@) || has_substring(t, "how"@)
        || has_substring(t, "status"@) {
        CommandType::Query
    } else {
        CommandType::Conversation
    }
}

/// The context label of each command type the interpreter produces.
pub open spec fn context_for(c: CommandType) -> Seq<char> {
    match c {
        CommandType::CodeReview => "engineering_task"@,
        CommandType::RemoteOperation => "remote_access"@,
        CommandType::Emergency => "emergency_protocol"@,
        CommandType::EngineeringTask => "development_workflow"@,
        CommandType::Query => "information_request"@,
        _ => "general_interaction"@,
    }
}

/// The priority of each command type the interpreter produces.
pub open spec fn priority_for(c: CommandType) -> CommandPriority {
    match c {
        CommandType::CodeReview => CommandPriority::Normal,
        CommandType::RemoteOperation => CommandPriority::Normal,
        CommandType::Emergency => CommandPriority::Critical,
        CommandType::EngineeringTask => CommandPriority::High,
        CommandType::Query => CommandPriority::Normal,
        _ => CommandPriority::Low,
    }
}

/// Remote operations and engineering tasks ask for confirmation.
pub open spec fn confirmation_for(c: CommandType) -> bool {
    c == CommandType::RemoteOperation || c == CommandType::EngineeringTask
}

/// The file named after the word "file": the text between the first space
/// after it and the next space.
pub open spec fn file_path_param(t: Seq<char>) -> Option<Seq<char>> {
    match find_spec(t, "file"@, 0) {
        None => None,
        Some(st) => match find_spec(t, " "@, st) {
            None => None,
            Some(ps) => match find_spec(t, " "@, ps + 1) {
                None => None,
                Some(pe) => Some(t.subrange(ps + 1, pe)),
            },
        },
    }
}

/// Parameters of a code review request.
pub open spec fn code_review_params_spec(t: Seq<char>) -> Map<Seq<char>, Seq<char>> {
    let lang = if has_substring(t, "rust"@) || has_substring(t, ".rs"@) {
        Map::empty().insert("language"@, "rust"@)
    } else if has_substring(t, "javascript"@) || has_substring(t, ".js"@) {
        Map::empty().insert("language"@, "javascript"@)
    } else if has_substring(t, "python"@) || has_substring(t, ".py"@) {
        Map::empty().insert("language"@, "python"@)
    } else {
        Map::empty()
    };
    match file_path_param(t) {
        Some(p) => lang.insert("file_path"@, p),
        None => lang,
    }
}

/// A word that looks like a host: it has a dot and a private-network
/// prefix or a `.com` / `.local` ending.
pub open spec fn host_like(w: Seq<char>) -> bool {
    has_substring(w, "."@) && (has_substring(w, "192.168"@) || has_substring(w, "10.0"@)
        || ends_with_spec(w, ".com"@) || ends_with_spec(w, ".local"@))
}

/// The first host-like word of `ws` from position `i` on.
pub open spec fn first_host_from(ws: Seq<Seq<char>>, i: int) -> Option<Seq<char>>
    decreases ws.len() - i,
{
    if i < 0 || i >= ws.len() {
        None
    } else if host_like(ws[i]) {
        Some(ws[i])
    } else {
        first_host_from(ws, i + 1)
    }
}

/// Parameters of a remote operation request.
pub open spec fn remote_params_spec(t: Seq<char>) -> Map<Seq<char>, Seq<char>> {
    let h = match first_host_from(split_ws(t), 0) {
        Some(w) => Map::empty().insert("host"@, w),
        None => Map::empty(),
    };
    if has_substring(t, "connect"@) {
        h.insert("operation"@, "connect"@)
    } else if has_substring(t, "disconnect"@) {
        h.insert("operation"@, "disconnect"@)
    } else if has_substring(t, "deploy"@) {
        h.insert("operation"@, "deploy"@)
    } else {
        h
    }
}

/// Parameters of an engineering task request.
pub open spec fn engineering_params_spec(t: Seq<char>) -> Map<Seq<char>, Seq<char>> {
    if has_substring(t, "test"@) {
        let m = Map::empty().insert("task_type"@, "test"@);
        if has_substring(t, "unit"@) {
            m.insert("test_type"@, "unit"@)
        } else if has_substring(t, "integration"@) {
            m.insert("test_type"@, "integration"@)
        } else {
            m
        }
    } else if has_substring(t, "build"@) {
        let m = Map::empty().insert("task_type"@, "build"@);
        if has_substring(t, "release"@) {
            m.insert("build_type"@, "release"@)
        } else {
            m
        }
    } else if has_substring(t, "deploy"@) {
        let m = Map::empty().insert("task_type"@, "deploy"@);
        if has_substring(t, "production"@) {
            m.insert("environment"@, "production"@)
        } else if has_substring(t, "staging"@) {
            m.insert("environment"@, "staging"@)
        } else {
            m
        }
    } else {
        Map::empty()
    }
}

/// Parameters of a query.
pub open spec fn query_params_spec(t: Seq<char>) -> Map<Seq<char>, Seq<char>> {
    if has_substring(t, "status"@) {
        let m = Map::empty().insert("query_type"@, "status"@);
        if has_substring(t, "system"@) {
            m.insert("status_type"@, "system"@)
        } else if has_substring(t, "remote"@) {
            m.insert("status_type"@, "remote"@)
        } else if has_substring(t, "connection"@) {
            m.insert("status_type"@, "connection"@)
        } else {
            m
        }
    } else if has_substring(t, "what"@) {
        Map::empty().insert("query_type"@, "information"@)
    } else if has_substring(t, "how"@) {
        Map::empty().insert("query_type"@, "instruction"@)
    } else {
        Map::empty()
    }
}

/// The parameters extracted for each command type.
pub open spec fn params_for(c: CommandType, t: Seq<char>) -> Map<Seq<char>, Seq<char>> {
    match c {
        CommandType::CodeReview => code_review_params_spec(t),
        CommandType::RemoteOperation => remote_params_spec(t),
        CommandType::EngineeringTask => engineering_params_spec(t),
        CommandType::Query => query_params_spec(t),
        _ => Map::empty(),
    }
}

/// The interpretation of a lower-cased transcript.
pub open spec fn interpretation_spec(i: TARSInterpretation, t: Seq<char>) -> bool {
    &&& i.command_type == command_type_for(t)
    &&& params_view(i.parameters@) == params_for(command_type_for(t), t)
    &&& i.context@ == context_for(command_type_for(t))
    &&& i.priority == priority_for(command_type_for(t))
    &&& i.requires_confirmation == confirmation_for(command_type_for(t))
}

fn occurs_in(t: &Vec<char>, pat: &str) -> (r: bool)
    ensures
        r == has_substring(t@, pat@),
{
    let p = chars_of(pat);
    contains_chars(t, &p)
}

fn new_params() -> (m: StringHashMap<String>)
    ensures
        params_view(m@) == Map::<Seq<char>, Seq<char>>::empty(),
{
    let m = StringHashMap::new();
    assert(params_view(m@) =~= Map::<Seq<char>, Seq<char>>::empty());
    m
}

fn put_param(m: &mut StringHashMap<String>, k: &str, v: String)
    ensures
        params_view(final(m)@) == params_view(old(m)@).insert(k@, v@),
{
    let ghost vv = v@;
    m.insert(owned(k), v);
    assert(params_view(m@) =~= params_view(old(m)@).insert(k@, vv));
}

/// Parameters of a code review request: the language named, and the file
/// path that follows the word "file".
pub fn extract_code_review_params(text: &str) -> (m: StringHashMap<String>)
    ensures
        params_view(m@) == code_review_params_spec(text@),
{
    let t = chars_of(text);
    let mut m = new_params();
    if occurs_in(&t, "rust") || occurs_in(&t, ".rs") {
        put_param(&mut m, "language", owned("rust"));
    } else if occurs_in(&t, "javascript") || occurs_in(&t, ".js") {
        put_param(&mut m, "language", owned("javascript"));
    } else if occurs_in(&t, "python") || occurs_in(&t, ".py") {
        put_param(&mut m, "language", owned("python"));
    }
    let file_pat = chars_of("file");
    let space = chars_of(" ");
    proof {
        reveal_strlit(" ");
    }
    if let Some(start) = find_from(&t, &file_pat, 0) {
        if let Some(path_start) = find_from(&t, &space, start) {
            assert(occurs_at(t@, space@, path_start as int));
            assert(space@.len() == 1);
            assert(t@.len() == t.len());
            if let Some(path_end) = find_from(&t, &space, path_start + 1) {
                let p = string_from_range(&t, path_start + 1, path_end);
                put_param(&mut m, "file_path", p);
            }
        }
    }
    m
}

fn host_like_exec(w: &Vec<char>) -> (r: bool)
    ensures
        r == host_like(w@),
{
    let dot = chars_of(".");
    let com = chars_of(".com");
    let local = chars_of(".local");
    occurs_in(w, ".") && (occurs_in(w, "192.168") || occurs_in(w, "10.0") || ends_with_chars(w, &com)
        || ends_with_chars(w, &local))
}

fn first_host_index(words: &Vec<Vec<char>>, Ghost(ws): Ghost<Seq<Seq<char>>>) -> (r: Option<usize>)
    requires
        words@.len() == ws.len(),
        forall|j: int| 0 <= j < words@.len() ==> #[trigger] words@[j]@ == ws[j],
    ensures
        match r {
            Some(i) => i < ws.len() && first_host_from(ws, 0) == Some(ws[i as int]),
            None => first_host_from(ws, 0) == None::<Seq<char>>,
        },
{
    let mut i: usize = 0;
    while i < words.len()
        invariant
            i <= words@.len(),
            words@.len() == ws.len(),
            forall|j: int| 0 <= j < words@.len() ==> #[trigger] words@[j]@ == ws[j],
            first_host_from(ws, 0) == first_host_from(ws, i as int),
        decreases words@.len() - i,
    {
        assert(words@[i as int]@ == ws[i as int]);
        if host_like_exec(&words[i]) {
            return Some(i);
        }
        i = i + 1;
    }
    None
}

/// Parameters of a remote operation request: the first host-like word and
/// the operation named.
pub fn extract_remote_params(text: &str) -> (m: StringHashMap<String>)
    ensures
        params_view(m@) == remote_params_spec(text@),
{
    let t = chars_of(text);
    let words = split_whitespace_chars(text);
    let ghost ws = split_ws(text@);
    let mut m = new_params();
    match first_host_index(&words, Ghost(ws)) {
        Some(i) => {
            assert(words@[i as int]@ == ws[i as int]);
            let h = string_from_range(&words[i], 0, words[i].len());
            assert(words@[i as int]@.subrange(0, words@[i as int]@.len() as int) =~= words@[i as int]@);
            put_param(&mut m, "host", h);
        },
        None => {},
    }
    if occurs_in(&t, "connect") {
        put_param(&mut m, "operation", owned("connect"));
    } else if occurs_in(&t, "disconnect") {
        put_param(&mut m, "operation", owned("disconnect"));
    } else if occurs_in(&t, "deploy") {
        put_param(&mut m, "operation", owned("deploy"));
    }
    m
}

/// Parameters of an engineering task: its kind and qualifiers.
pub fn extract_engineering_params(text: &str) -> (m: StringHashMap<String>)
    ensures
        params_view(m@) == engineering_params_spec(text@),
{
    let t = chars_of(text);
    let mut m = new_params();
    if occurs_in(&t, "test") {
        put_param(&mut m, "task_type", owned("test"));
        if occurs_in(&t, "unit") {
            put_param(&mut m, "test_type", owned("unit"));
        } else if occurs_in(&t, "integration") {
            put_param(&mut m, "test_type", owned("integration"));
        }
    } else if occurs_in(&t, "build") {
        put_param(&mut m, "task_type", owned("build"));
        if occurs_in(&t, "release") {
            put_param(&mut m, "build_type", owned("release"));
        }
    } else if occurs_in(&t, "deploy") {
        put_param(&mut m, "task_type", owned("deploy"));
        if occurs_in(&t, "production") {
            put_param(&mut m, "environment", owned("production"));
        } else if occurs_in(&t, "staging") {
            put_param(&mut m, "environment", owned("staging"));
        }
    }
    m
}

/// Parameters of a query: what is asked about.
pub fn extract_query_params(text: &str) -> (m: StringHashMap<String>)
    ensures
        params_view(m@) == query_params_spec(text@),
{
    let t = chars_of(text);
    let mut m = new_params();
    if occurs_in(&t, "status") {
        put_param(&mut m, "query_type", owned("status"));
        if occurs_in(&t, "system") {
            put_param(&mut m, "status_type", owned("system"));
        } else if occurs_in(&t, "remote") {
            put_param(&mut m, "status_type", owned("remote"));
        } else if occurs_in(&t, "connection") {
            put_param(&mut m, "status_type", owned("connection"));
        }
    } else if occurs_in(&t, "what") {
        put_param(&mut m, "query_type", owned("information"));
    } else if occurs_in(&t, "how") {
        put_param(&mut m, "query_type", owned("instruction"));
    }
    m
}

/// Interprets a transcript that is already lower-cased.
pub fn interpret_lowered(text: &str) -> (r: TARSInterpretation)
    ensures
        interpretation_spec(r, text@),
{
    let t = chars_of(text);
    if occurs_in(&t, "review") && occurs_in(&t, "code") {
        TARSInterpretation {
            command_type: CommandType::CodeReview,
            parameters: extract_code_review_params(text),
            context: owned("engineering_task"),
            priority: CommandPriority::Normal,
            requires_confirmation: false,
        }
    } else if occurs_in(&t, "connect") || occurs_in(&t, "ssh") || occurs_in(&t, "remote") {
        TARSInterpretation {
            command_type: CommandType::RemoteOperation,
            parameters: extract_remote_params(text),
            context: owned("remote_access"),
            priority: CommandPriority::Normal,
            requires_confirmation: true,
        }
    } else if occurs_in(&t, "emergency") || occurs_in(&t, "stop") || occurs_in(&t, "abort") {
        TARSInterpretation {
            command_type: CommandType::Emergency,
            parameters: new_params(),
            context: owned("emergency_protocol"),
            priority: CommandPriority::Critical,
            requires_confirmation: false,
        }
    } else if occurs_in(&t, "deploy") || occurs_in(&t, "build") || occurs_in(&t, "test") {
        TARSInterpretation {
            command_type: CommandType::EngineeringTask,
            parameters: extract_engineering_params(text),
            context: owned("development_workflow"),
            priority: CommandPriority::High,
            requires_confirmation: true,
        }
    } else if occurs_in(&t, "?") || occurs_in(&t, "what") || occurs_in(&t, "how") || occurs_in(&t, "status") {
        TARSInterpretation {
            command_type: CommandType::Query,
            parameters: extract_query_params(text),
            context: owned("information_request"),
            priority: CommandPriority::Normal,
            requires_confirmation: false,
        }
    } else {
        TARSInterpretation {
            command_type: CommandType::Conversation,
            parameters: new_params(),
            context: owned("general_interaction"),
            priority: CommandPriority::Low,
            requires_confirmation: false,
        }
    }
}

/// Interprets a transcript as a TARS command: the transcript is
/// lower-cased, then classified, and the parameters of its class are
/// extracted.
pub fn interpret_transcript(text: &str) -> (r: TARSInterpretation)
    ensures
        interpretation_spec(r, lowercase(text@)),
{
    let lowered = to_lower(text);
    interpret_lowered(lowered.as_str())
}

/// A rival reading of a stretch of speech; confidence in thousandths.
#[derive(Debug, Clone)]
pub struct RecognitionAlternative {
    pub text: String,
    pub confidence_milli: u32,
}

/// A stretch of speech: where it starts and ends in milliseconds, what was
/// said, the confidence in thousandths.
#[derive(Debug, Clone)]
pub struct SpeechSegment {
    pub start_ms: u32,
    pub end_ms: u32,
    pub text: String,
    pub confidence_milli: u32,
}

/// What a stretch of audio was heard to say, with TARS's reading of it;
/// confidence in thousandths.
pub struct RecognitionResult {
    pub text: String,
    pub confidence_milli: u32,
    pub alternatives: Vec<RecognitionAlternative>,
    pub detected_language: Option<String>,
    pub speech_segments: Vec<SpeechSegment>,
    pub tars_interpretation: Option<TARSInterpretation>,
}

/// Transcribes speech and reads commands in it; the confidence threshold in
/// thousandths.
pub struct SpeechRecognitionEngine {
    pub engine_type: RecognitionEngine,
    pub language: String,
    pub confidence_threshold_milli: u32,
    pub wake_words: Vec<String>,
    pub voice_activity_detection: bool,
    pub noise_reduction: bool,
    pub tars_mode: bool,
}

/// The commands the simulated recognizer hears.
pub open spec fn example_transcripts() -> Seq<Seq<char>> {
    seq![
        "TARS, review the code in main.rs"@,
        "Connect to the remote server at 192.168.1.100"@,
        "What's the status of the deployment?"@,
        "Run the test suite"@,
        "Deploy to production environment"@,
        "Show me the system health report"@,
        "Execute code review workflow"@,
        "How's the Pi temperature?"@,
        "That's what I would have said. Eventually."@,
    ]
}

/// The `k`-th command the simulated recognizer hears.
pub fn example_transcript(k: usize) -> (t: String)
    requires
        k < 9,
    ensures
        t@ == example_transcripts()[k as int],
{
    let s = if k == 0 {
        "TARS, review the code in main.rs"
    } else if k == 1 {
        "Connect to the remote server at 192.168.1.100"
    } else if k == 2 {
        "What's the status of the deployment?"
    } else if k == 3 {
        "Run the test suite"
    } else if k == 4 {
        "Deploy to production environment"
    } else if k == 5 {
        "Show me the system health report"
    } else if k == 6 {
        "Execute code review workflow"
    } else if k == 7 {
        "How's the Pi temperature?"
    } else {
        "That's what I would have said. Eventually."
    };
    String::from_str(s)
}

/// The 16-bit little-endian sample whose low byte is at `k`.
pub open spec fn sample_at(a: Seq<u8>, k: int) -> int {
    let v = a[k] + 256 * a[k + 1];
    if a[k + 1] >= 128 { v - 65536 } else { v }
}

/// The magnitude of a sample.
pub open spec fn magnitude(x: int) -> int {
    if x < 0 { -x } else { x }
}

/// Whether the byte at `i` belongs to a whole sample quieter than `limit`.
pub open spec fn in_quiet_sample(a: Seq<u8>, i: int, limit: int) -> bool {
    let k = i - i % 2;
    k + 1 < a.len() && magnitude(sample_at(a, k)) < limit
}

/// `a` with every whole sample quieter than `limit` silenced; a trailing odd
/// byte is kept.
pub open spec fn gated(a: Seq<u8>, limit: int) -> Seq<u8> {
    Seq::new(a.len(), |i: int| if in_quiet_sample(a, i, limit) { 0u8 } else { a[i] })
}

/// Silences every whole sample of `audio` quieter than `limit`.
fn gate_samples(audio: &[u8], limit: i32) -> (out: Vec<u8>)
    ensures
        out@ == gated(audio@, limit as int),
{
    let mut out: Vec<u8> = Vec::new();
    let mut i: usize = 0;
    while i < audio.len()
        invariant
            i <= audio@.len(),
            i % 2 == 0 || i == audio@.len(),
            out@ == gated(audio@, limit as int).take(i as int),
        decreases audio@.len() - i,
    {
        let ghost g = gated(audio@, limit as int);
        if i + 1 < audio.len() {
            let lo = audio[i] as i32;
            let hi = audio[i + 1] as i32;
            let v = hi * 256 + lo;
            let sample = if hi >= 128 { v - 65536 } else { v };
            let size = if sample < 0 { -sample } else { sample };
            assert(sample == sample_at(audio@, i as int));
            assert((i + 1) % 2 == 1);
            if size < limit {
                out.push(0);
                out.push(0);
            } else {
                out.push(audio[i]);
                out.push(audio[i + 1]);
            }
            assert(out@ =~= g.take(i + 2));
            i = i + 2;
        } else {
            out.push(audio[i]);
            assert(out@ =~= g.take(i + 1));
            i = i + 1;
        }
    }
    assert(gated(audio@, limit as int).take(audio@.len() as int) =~= gated(audio@, limit as int));
    out
}

/// A copy of the bytes.
fn copy_bytes(a: &[u8]) -> (v: Vec<u8>)
    ensures
        v@ == a@,
{
    let mut v: Vec<u8> = Vec::new();
    let mut i: usize = 0;
    while i < a.len()
        invariant
            i <= a@.len(),
            v@ == a@.take(i as int),
        decreases a@.len() - i,
    {
        v.push(a[i]);
        assert(v@ =~= a@.take(i + 1));
        i = i + 1;
    }
    assert(a@.take(a@.len() as int) =~= a@);
    v
}

/// Gating audio a second time changes nothing: a silenced sample stays
/// silent and a kept one stays loud enough to be kept.
pub proof fn law_gating_is_idempotent(a: Seq<u8>, limit: int)
    ensures
        gated(gated(a, limit), limit) == gated(a, limit),
{
    let g = gated(a, limit);
    assert forall|i: int| 0 <= i < a.len() implies #[trigger] gated(g, limit)[i] == g[i] by {
        let k = i - i % 2;
        assert(k % 2 == 0 && (k + 1) - (k + 1) % 2 == k);
        if k + 1 < a.len() {
            assert(g[k] == (if in_quiet_sample(a, k, limit) { 0u8 } else { a[k] }));
            assert(g[k + 1] == (if in_quiet_sample(a, k + 1, limit) { 0u8 } else { a[k + 1] }));
            assert(in_quiet_sample(a, k + 1, limit) == in_quiet_sample(a, k, limit));
            if in_quiet_sample(a, k, limit) {
                assert(sample_at(g, k) == 0);
            } else {
                assert(sample_at(g, k) == sample_at(a, k));
            }
        }
    }
    assert(gated(g, limit) =~= g);
}

/// Whether the result reads `t` as the offline recognizer reports it:
/// confidence 0.85, a second reading with " (alternative)" at 0.72, English,
/// one segment over the first 2.5 s, no interpretation yet.
pub open spec fn is_local_reading(r: RecognitionResult, t: Seq<char>) -> bool {
    &&& r.text@ == t
    &&& r.confidence_milli == 850
    &&& r.alternatives@.len() == 2
    &&& r.alternatives@[0].text@ == t && r.alternatives@[0].confidence_milli == 850
    &&& r.alternatives@[1].text@ == t + " (alternative)"@ && r.alternatives@[1].confidence_milli == 720
    &&& r.detected_language matches Some(l) && l@ == "en-US"@
    &&& r.speech_segments@.len() == 1
    &&& r.speech_segments@[0].start_ms == 0 && r.speech_segments@[0].end_ms == 2500
    &&& r.speech_segments@[0].text@ == t && r.speech_segments@[0].confidence_milli == 850
    &&& r.tars_interpretation is None
}

/// Whether the result reads `t` as the hosted recognizer reports it:
/// confidence 0.92 and no rival reading, English, one segment over the first
/// 2.8 s, no interpretation yet.
pub open spec fn is_cloud_reading(r: RecognitionResult, t: Seq<char>) -> bool {
    &&& r.text@ == t
    &&& r.confidence_milli == 920
    &&& r.alternatives@.len() == 1
    &&& r.alternatives@[0].text@ == t && r.alternatives@[0].confidence_milli == 920
    &&& r.detected_language matches Some(l) && l@ == "en-US"@
    &&& r.speech_segments@.len() == 1
    &&& r.speech_segments@[0].start_ms == 0 && r.speech_segments@[0].end_ms == 2800
    &&& r.speech_segments@[0].text@ == t && r.speech_segments@[0].confidence_milli == 920
    &&& r.tars_interpretation is None
}

/// The offline recognizer's reading of a transcript.
pub fn local_reading(text: String) -> (r: RecognitionResult)
    ensures
        is_local_reading(r, text@),
{
    let alternative = join2(text.as_str(), " (alternative)");
    let mut alternatives: Vec<RecognitionAlternative> = Vec::new();
    alternatives.push(RecognitionAlternative { text: text.clone(), confidence_milli: 850 });
    alternatives.push(RecognitionAlternative { text: alternative, confidence_milli: 720 });
    let mut speech_segments: Vec<SpeechSegment> = Vec::new();
    speech_segments.push(SpeechSegment { start_ms: 0, end_ms: 2500, text: text.clone(), confidence_milli: 850 });
    RecognitionResult {
        text,
        confidence_milli: 850,
        alternatives,
        detected_language: Some(String::from_str("en-US")),
        speech_segments,
        tars_interpretation: None,
    }
}

/// The hosted recognizer's reading of a transcript.
pub fn cloud_reading(text: String) -> (r: RecognitionResult)
    ensures
        is_cloud_reading(r, text@),
{
    let mut alternatives: Vec<RecognitionAlternative> = Vec::new();
    alternatives.push(RecognitionAlternative { text: text.clone(), confidence_milli: 920 });
    let mut speech_segments: Vec<SpeechSegment> = Vec::new();
    speech_segments.push(SpeechSegment { start_ms: 0, end_ms: 2800, text: text.clone(), confidence_milli: 920 });
    RecognitionResult {
        text,
        confidence_milli: 920,
        alternatives,
        detected_language: Some(String::from_str("en-US")),
        speech_segments,
        tars_interpretation: None,
    }
}

/// Whether `r` is `before` with TARS's reading of its transcript added.
pub open spec fn is_interpreted(r: RecognitionResult, before: RecognitionResult) -> bool {
    &&& r.text == before.text
    &&& r.confidence_milli == before.confidence_milli
    &&& r.alternatives == before.alternatives
    &&& r.detected_language == before.detected_language
    &&& r.speech_segments == before.speech_segments
    &&& r.tars_interpretation matches Some(i) && interpretation_spec(i, lowercase(before.text@))
}

impl SpeechRecognitionEngine {
    /// A hybrid American-English engine with a confidence threshold of 0.7
    /// that wakes to "TARS", "Hey TARS", "Computer" and "Cooper", detects
    /// voice activity, reduces noise and reads commands.
    pub fn new() -> (e: Self)
        ensures
            e.engine_type is Hybrid,
            e.language@ == "en-US"@,
            e.confidence_threshold_milli == 700,
            e.wake_words@.len() == 4,
            e.wake_words@[0]@ == "TARS"@,
            e.wake_words@[1]@ == "Hey TARS"@,
            e.wake_words@[2]@ == "Computer"@,
            e.wake_words@[3]@ == "Cooper"@,
            e.voice_activity_detection,
            e.noise_reduction,
            e.tars_mode,
    {
        let mut wake_words: Vec<String> = Vec::new();
        wake_words.push(String::from_str("TARS"));
        wake_words.push(String::from_str("Hey TARS"));
        wake_words.push(String::from_str("Computer"));
        wake_words.push(String::from_str("Cooper"));
        SpeechRecognitionEngine {
            engine_type: RecognitionEngine::Hybrid,
            language: String::from_str("en-US"),
            confidence_threshold_milli: 700,
            wake_words,
            voice_activity_detection: true,
            noise_reduction: true,
            tars_mode: true,
        }
    }

    /// The offline model files under /opt/tars/models/speech, with a beam of
    /// 16.
    pub fn default_local_config(&self) -> (c: LocalRecognitionConfig)
        ensures
            c.model_path@ == "/opt/tars/models/speech/local_model.bin"@,
            c.beam_width == 16,
            c.language_model_path matches Some(p) && p@ == "/opt/tars/models/speech/lm.bin"@,
            c.acoustic_model_path matches Some(p) && p@ == "/opt/tars/models/speech/am.bin"@,
    {
        LocalRecognitionConfig {
            model_path: String::from_str("/opt/tars/models/speech/local_model.bin"),
            beam_width: 16,
            language_model_path: Some(String::from_str("/opt/tars/models/speech/lm.bin")),
            acoustic_model_path: Some(String::from_str("/opt/tars/models/speech/am.bin")),
        }
    }

    /// Google's streaming service in us-central1, with no key.
    pub fn default_cloud_config(&self) -> (c: CloudRecognitionConfig)
        ensures
            c.service_provider@ == "Google"@,
            c.api_key is None,
            c.region@ == "us-central1"@,
            c.streaming,
    {
        CloudRecognitionConfig {
            service_provider: String::from_str("Google"),
            api_key: None,
            region: String::from_str("us-central1"),
            streaming: true,
        }
    }

    /// One of the example commands, drawn at random.
    pub fn simulate_speech_recognition(&self, audio_data: &[u8]) -> (t: String)
        ensures
            exists|k: int| 0 <= k < 9 && t@ == #[trigger] example_transcripts()[k],
    {
        let k = random_below(9);
        example_transcript(k)
    }

    /// The audio with every sample below a tenth of full scale (a
    /// magnitude of 3276 or less) silenced. Never fails.
    pub fn apply_noise_reduction(&self, audio_data: &[u8]) -> (r: Result<Vec<u8>, String>)
        ensures
            r matches Ok(v) && v@ == gated(audio_data@, 3277),
    {
        Ok(gate_samples(audio_data, 3277))
    }

    /// The offline recognizer's reading of the audio: one of the example
    /// commands. Never fails.
    pub fn transcribe_local(&self, audio_data: &[u8], config: &LocalRecognitionConfig) -> (r: Result<RecognitionResult, String>)
        ensures
            r matches Ok(x) && exists|k: int| 0 <= k < 9 && is_local_reading(x, #[trigger] example_transcripts()[k]),
    {
        let text = self.simulate_speech_recognition(audio_data);
        Ok(local_reading(text))
    }

    /// The hosted recognizer's reading of the audio: one of the example
    /// commands. Never fails.
    pub fn transcribe_cloud(&self, audio_data: &[u8], config: &CloudRecognitionConfig) -> (r: Result<RecognitionResult, String>)
        ensures
            r matches Ok(x) && exists|k: int| 0 <= k < 9 && is_cloud_reading(x, #[trigger] example_transcripts()[k]),
    {
        let text = self.simulate_speech_recognition(audio_data);
        Ok(cloud_reading(text))
    }

    /// Adds TARS's reading of the transcript to a result. Never fails.
    pub fn apply_tars_interpretation(&self, result: RecognitionResult) -> (r: Result<RecognitionResult, String>)
        ensures
            r matches Ok(x) && is_interpreted(x, result),
    {
        let interpretation = interpret_transcript(result.text.as_str());
        let mut result = result;
        result.tars_interpretation = Some(interpretation);
        Ok(result)
    }

    /// Transcribes audio: noise is reduced when asked for, the configured
    /// recognizer reads it (the hybrid engine reads offline, and would turn
    /// to the hosted service if that failed), and in TARS mode the command in
    /// it is read. Never fails.
    pub fn transcribe_audio(&self, audio_data: &[u8]) -> (r: Result<RecognitionResult, String>)
        ensures
            r matches Ok(x) && exists|k: int| 0 <= k < 9 && {
                let t = #[trigger] example_transcripts()[k];
                &&& x.text@ == t
                &&& (self.tars_mode ==> (x.tars_interpretation matches Some(i) && interpretation_spec(i, lowercase(t))))
                &&& (!self.tars_mode ==> x.tars_interpretation is None)
            },
    {
        let processed = if self.noise_reduction {
            match self.apply_noise_reduction(audio_data) {
                Ok(v) => v,
                Err(e) => {
                    return Err(e);
                },
            }
        } else {
            copy_bytes(audio_data)
        };
        let raw = match &self.engine_type {
            RecognitionEngine::Local(config) => self.transcribe_local(processed.as_slice(), config),
            RecognitionEngine::Cloud(config) => self.transcribe_cloud(processed.as_slice(), config),
            RecognitionEngine::Hybrid => {
                let local = self.default_local_config();
                match self.transcribe_local(processed.as_slice(), &local) {
                    Ok(x) => Ok(x),
                    Err(_) => {
                        let cloud = self.default_cloud_config();
                        self.transcribe_cloud(processed.as_slice(), &cloud)
                    },
                }
            },
        };
        let raw = match raw {
            Ok(x) => x,
            Err(e) => {
                return Err(e);
            },
        };
        if self.tars_mode {
            self.apply_tars_interpretation(raw)
        } else {
            Ok(raw)
        }
    }
}

/// The words the wake-word detector listens for, with one added: unchanged
/// if it is there already.
pub open spec fn with_wake_word(words: Seq<Seq<char>>, w: Seq<char>) -> Seq<Seq<char>> {
    if words.contains(w) { words } else { words.push(w) }
}

/// Whether a word differs from `w`.
pub open spec fn other_than(w: Seq<char>) -> spec_fn(Seq<char>) -> bool {
    |x: Seq<char>| x != w
}

/// The words the wake-word detector listens for, without `w`.
pub open spec fn without_wake_word(words: Seq<Seq<char>>, w: Seq<char>) -> Seq<Seq<char>> {
    words.filter(other_than(w))
}

/// Listens for the words that wake TARS; sensitivity in thousandths,
/// timeout in seconds.
pub struct WakeWordDetector {
    pub sensitivity_milli: u32,
    pub wake_words: Vec<String>,
    pub enabled: bool,
    pub listening_timeout: u64,
}

impl WakeWordDetector {
    /// A detector of sensitivity 0.7 that listens for "TARS", "Hey TARS"
    /// and "Computer" for up to 30 s.
    pub fn new() -> (d: Self)
        ensures
            d.sensitivity_milli == 700,
            strings_view(d.wake_words@) == seq!["TARS"@, "Hey TARS"@, "Computer"@],
            d.enabled,
            d.listening_timeout == 30,
    {
        let mut wake_words: Vec<String> = Vec::new();
        wake_words.push(String::from_str("TARS"));
        wake_words.push(String::from_str("Hey TARS"));
        wake_words.push(String::from_str("Computer"));
        assert(strings_view(wake_words@) =~= seq!["TARS"@, "Hey TARS"@, "Computer"@]);
        WakeWordDetector { sensitivity_milli: 700, wake_words, enabled: true, listening_timeout: 30 }
    }

    /// What the detector hears for a draw of `roll` thousandths and a choice
    /// of `pick`: nothing when disabled or below 0.95, else the `pick`-th
    /// wake word.
    pub fn wake_word_for_draw(&self, roll: usize, pick: usize) -> (r: Option<String>)
        requires
            self.enabled && roll >= 950 ==> pick < self.wake_words@.len(),
        ensures
            !self.enabled || roll < 950 ==> r is None,
            self.enabled && roll >= 950 ==> (r matches Some(w) && w@ == self.wake_words@[pick as int]@),
    {
        if !self.enabled || roll < 950 {
            None
        } else {
            Some(self.wake_words[pick].clone())
        }
    }

    /// Listens to the audio: a disabled detector hears nothing; otherwise a
    /// draw decides, one time in twenty, that a wake word was heard, and a
    /// second draw which. Never fails.
    pub fn detect_wake_word(&self, audio_data: &[u8]) -> (r: Result<Option<String>, String>)
        requires
            self.enabled ==> self.wake_words@.len() > 0,
        ensures
            r matches Ok(w) && {
                &&& !self.enabled ==> w is None
                &&& w matches Some(x) ==> strings_view(self.wake_words@).contains(x@)
            },
    {
        if !self.enabled {
            return Ok(None);
        }
        let roll = random_below(1000);
        let pick = if roll >= 950 { random_below(self.wake_words.len()) } else { 0 };
        let w = self.wake_word_for_draw(roll, pick);
        proof {
            if roll >= 950 {
                assert(strings_view(self.wake_words@)[pick as int] == self.wake_words@[pick as int]@);
            }
        }
        Ok(w)
    }

    /// Sets the sensitivity, held between 0 and 1.
    pub fn set_sensitivity(&mut self, sensitivity_milli: i64)
        ensures
            final(self).sensitivity_milli == (if sensitivity_milli < 0 {
                0
            } else if sensitivity_milli > 1000 {
                1000
            } else {
                sensitivity_milli
            }),
            final(self).wake_words == old(self).wake_words,
            final(self).enabled == old(self).enabled,
            final(self).listening_timeout == old(self).listening_timeout,
    {
        self.sensitivity_milli = if sensitivity_milli < 0 {
            0
        } else if sensitivity_milli > 1000 {
            1000
        } else {
            sensitivity_milli as u32
        };
    }

    /// Listens for one more word, unless it already does.
    pub fn add_wake_word(&mut self, word: String)
        ensures
            strings_view(final(self).wake_words@) == with_wake_word(strings_view(old(self).wake_words@), word@),
            final(self).sensitivity_milli == old(self).sensitivity_milli,
            final(self).enabled == old(self).enabled,
            final(self).listening_timeout == old(self).listening_timeout,
    {
        if !contains_string(&self.wake_words, word.as_str()) {
            let ghost before = self.wake_words@;
            let ghost w = word@;
            self.wake_words.push(word);
            assert(strings_view(self.wake_words@) =~= strings_view(before).push(w));
        }
    }

    /// Stops listening for a word.
    pub fn remove_wake_word(&mut self, word: &str)
        ensures
            strings_view(final(self).wake_words@) == without_wake_word(strings_view(old(self).wake_words@), word@),
            final(self).sensitivity_milli == old(self).sensitivity_milli,
            final(self).enabled == old(self).enabled,
            final(self).listening_timeout == old(self).listening_timeout,
    {
        let ghost all = strings_view(self.wake_words@);
        let ghost pred = other_than(word@);
        let mut kept: Vec<String> = Vec::new();
        let mut i: usize = 0;
        while i < self.wake_words.len()
            invariant
                i <= self.wake_words@.len(),
                all == strings_view(self.wake_words@),
                pred == other_than(word@),
                strings_view(kept@) == all.take(i as int).filter(pred),
            decreases self.wake_words@.len() - i,
        {
            proof {
                assert(all.take(i as int + 1) =~= all.take(i as int).push(all[i as int]));
                all.take(i as int).lemma_filter_push(all[i as int], pred);
            }
            if !str_equal(self.wake_words[i].as_str(), word) {
                let c = self.wake_words[i].clone();
                let ghost before = kept@;
                kept.push(c);
                assert(strings_view(kept@) =~= strings_view(before).push(all[i as int]));
            }
            i = i + 1;
        }
        assert(all.take(all.len() as int) =~= all);
        self.wake_words = kept;
    }
}

/// Adding a wake word twice is adding it once.
pub proof fn law_adding_wake_word_twice(words: Seq<Seq<char>>, w: Seq<char>)
    ensures
        with_wake_word(with_wake_word(words, w), w) == with_wake_word(words, w),
{
    if !words.contains(w) {
        assert(words.push(w)[words.len() as int] == w);
    }
}

/// A removed wake word is no longer listened for.
pub proof fn law_removed_wake_word_gone(words: Seq<Seq<char>>, w: Seq<char>)
    ensures
        !without_wake_word(words, w).contains(w),
{
    broadcast use vstd::seq_lib::group_filter_ensures;
    let pred = other_than(w);
    let f = words.filter(pred);
    if f.contains(w) {
        let k = choose|k: int| 0 <= k < f.len() && f[k] == w;
        assert(pred(f[k]));
    }
}

/// Removing a word just added, that was not listened for before, restores
/// the list.
pub proof fn law_remove_undoes_add(words: Seq<Seq<char>>, w: Seq<char>)
    requires
        !words.contains(w),
    ensures
        without_wake_word(with_wake_word(words, w), w) == words,
{
    let pred = other_than(w);
    words.lemma_filter_push(w, pred);
    assert forall|i: int| 0 <= i < words.len() implies pred(words[i]) by {
        if words[i] == w {
            assert(words.contains(w));
        }
    }
    lemma_filter_keeps_all(words, pred);
}

/// Filtering by a predicate every element meets keeps the sequence.
proof fn lemma_filter_keeps_all(s: Seq<Seq<char>>, pred: spec_fn(Seq<char>) -> bool)
    requires
        forall|i: int| 0 <= i < s.len() ==> pred(s[i]),
    ensures
        s.filter(pred) == s,
    decreases s.len(),
{
    reveal_with_fuel(Seq::filter, 1);
    if s.len() > 0 {
        lemma_filter_keeps_all(s.drop_last(), pred);
        assert(s.drop_last().push(s.last()) =~= s);
    } else {
        assert(s.filter(pred) =~= s);
    }
}

/// The noise gate's threshold for a setting in decibels, as a sample
/// magnitude: the setting over 20, times full scale (32768), truncated toward
/// zero and held to the sample range.
pub open spec fn gate_limit(db: int) -> int {
    let scaled = db * 8192;
    let q = if scaled >= 0 { scaled / 5 } else { -((-scaled) / 5) };
    if q < -32768 { -32768 } else if q > 32767 { 32767 } else { q }
}

/// Whether no whole sample of `a` is the most negative value, whose
/// magnitude the sample type cannot hold.
pub open spec fn has_no_full_scale_negative(a: Seq<u8>) -> bool {
    forall|k: int| 0 <= k && k + 1 < a.len() && k % 2 == 0 ==> #[trigger] sample_at(a, k) != -32768
}

/// Prepares audio for recognition: sample rate, channels, buffer and the
/// noise gate's threshold in decibels.
#[derive(Debug, Clone, Copy, PartialEq, Eq, Structural)]
pub struct AudioProcessor {
    pub sample_rate: u32,
    pub channels: u16,
    pub buffer_size: usize,
    pub noise_gate_threshold_db: i32,
    pub auto_gain_control: bool,
    pub echo_cancellation: bool,
}

impl AudioProcessor {
    /// Mono 16 kHz audio in buffers of 1024, gated at -40 dB, with gain
    /// control and echo cancellation.
    pub fn new() -> (p: Self)
        ensures
            p == (AudioProcessor {
                sample_rate: 16000,
                channels: 1,
                buffer_size: 1024,
                noise_gate_threshold_db: -40i32,
                auto_gain_control: true,
                echo_cancellation: true,
            }),
    {
        AudioProcessor {
            sample_rate: 16000,
            channels: 1,
            buffer_size: 1024,
            noise_gate_threshold_db: -40,
            auto_gain_control: true,
            echo_cancellation: true,
        }
    }

    /// Gain control, which leaves the audio as it is.
    fn apply_auto_gain_control(&self, audio_data: Vec<u8>) -> (r: Result<Vec<u8>, String>)
        ensures
            r matches Ok(v) && v@ == audio_data@,
    {
        Ok(audio_data)
    }

    /// Echo cancellation, which leaves the audio as it is.
    fn apply_echo_cancellation(&self, audio_data: Vec<u8>) -> (r: Result<Vec<u8>, String>)
        ensures
            r matches Ok(v) && v@ == audio_data@,
    {
        Ok(audio_data)
    }

    /// Silences every whole sample quieter than the threshold.
    fn apply_noise_gate(&self, audio_data: Vec<u8>) -> (r: Result<Vec<u8>, String>)
        requires
            has_no_full_scale_negative(audio_data@),
        ensures
            r matches Ok(v) && v@ == gated(audio_data@, gate_limit(self.noise_gate_threshold_db as int)),
    {
        let scaled: i64 = self.noise_gate_threshold_db as i64 * 8192;
        let q: i64 = if scaled >= 0 { scaled / 5 } else { -((-scaled) / 5) };
        let limit: i32 = if q < -32768 { -32768 } else if q > 32767 { 32767 } else { q as i32 };
        Ok(gate_samples(audio_data.as_slice(), limit))
    }

    /// Audio ready for recognition: gain-controlled and echo-cancelled as
    /// configured (both leave it as it is), then noise-gated. Never fails.
    pub fn process_audio(&self, raw_audio: &[u8]) -> (r: Result<Vec<u8>, String>)
        requires
            has_no_full_scale_negative(raw_audio@),
        ensures
            r matches Ok(v) && v@ == gated(raw_audio@, gate_limit(self.noise_gate_threshold_db as int)),
    {
        let mut processed = copy_bytes(raw_audio);
        if self.auto_gain_control {
            processed = match self.apply_auto_gain_control(processed) {
                Ok(v) => v,
                Err(e) => {
                    return Err(e);
                },
            };
        }
        if self.echo_cancellation {
            processed = match self.apply_echo_cancellation(processed) {
                Ok(v) => v,
                Err(e) => {
                    return Err(e);
                },
            };
        }
        self.apply_noise_gate(processed)
    }
}

/// The transcript of the audio, as the engine hears it.
pub fn transcribe(engine: &SpeechRecognitionEngine, audio: &[u8]) -> (t: String)
    ensures
        exists|k: int| 0 <= k < 9 && t@ == #[trigger] example_transcripts()[k],
{
    match engine.transcribe_audio(audio) {
        Ok(result) => result.text,
        Err(_) => String::from_str(
            "Sorry Cooper, I couldn't understand that. My speech recognition circuits might need recalibration.",
        ),
    }
}

/// The engine's full reading of the audio, with TARS's interpretation in
/// TARS mode. Never fails.
pub fn transcribe_with_tars_interpretation(engine: &SpeechRecognitionEngine, audio: &[u8]) -> (r: Result<RecognitionResult, String>)
    ensures
        r matches Ok(x) && exists|k: int| 0 <= k < 9 && {
            let t = #[trigger] example_transcripts()[k];
            &&& x.text@ == t
            &&& (engine.tars_mode ==> (x.tars_interpretation matches Some(i) && interpretation_spec(i, lowercase(t))))
            &&& (!engine.tars_mode ==> x.tars_interpretation is None)
        },
{
    engine.transcribe_audio(audio)
}

/// Listens for a wake word with the detector.
pub fn detect_wake_word(detector: &WakeWordDetector, audio: &[u8]) -> (r: Result<Option<String>, String>)
    requires
        detector.enabled ==> detector.wake_words@.len() > 0,
    ensures
        r matches Ok(w) && {
            &&& !detector.enabled ==> w is None
            &&& w matches Some(x) ==> strings_view(detector.wake_words@).contains(x@)
        },
{
    detector.detect_wake_word(audio)
}

/// Replaces the engine's configuration. Never fails.
pub fn configure_recognition_engine(engine: &mut SpeechRecognitionEngine, config: SpeechRecognitionEngine) -> (r: Result<(), String>)
    ensures
        r is Ok,
        *final(engine) == config,
{
    *engine = config;
    Ok(())
}

/// The recognizer's settings as text: a hybrid engine, wake words at 0.7,
/// confidence at 0.7, TARS mode and noise reduction on, operational.
pub fn get_recognition_stats() -> (m: StringHashMap<String>)
    ensures
        params_view(m@) == map![
            "engine_type"@ => "Hybrid"@,
            "wake_word_sensitivity"@ => "0.7"@,
            "confidence_threshold"@ => "0.7"@,
            "tars_mode"@ => "enabled"@,
            "noise_reduction"@ => "enabled"@,
            "status"@ => "operational"@,
        ],
{
    let mut m = new_params();
    put_param(&mut m, "engine_type", owned("Hybrid"));
    put_param(&mut m, "wake_word_sensitivity", owned("0.7"));
    put_param(&mut m, "confidence_threshold", owned("0.7"));
    put_param(&mut m, "tars_mode", owned("enabled"));
    put_param(&mut m, "noise_reduction", owned("enabled"));
    put_param(&mut m, "status", owned("operational"));
    m
}

/// A deployment request goes to the environment the transcript names:
/// production whenever it says "production", staging only when it says
/// "staging" and not "production", and no environment when it names
/// neither; the environment extracted is always a word of the transcript.
pub proof fn law_deploy_targets_the_named_environment(t: Seq<char>)
    requires
        has_substring(t, "deploy"@),
        !has_substring(t, "test"@),
        !has_substring(t, "build"@),
    ensures
        ({
            let m = engineering_params_spec(t);
            &&& m.contains_key("task_type"@) && m["task_type"@] == "deploy"@
            &&& has_substring(t, "production"@) ==> m.contains_key("environment"@) && m["environment"@] == "production"@
            &&& has_substring(t, "staging"@) && !has_substring(t, "production"@) ==> m.contains_key("environment"@)
                && m["environment"@] == "staging"@
            &&& !has_substring(t, "production"@) && !has_substring(t, "staging"@) ==> !m.contains_key("environment"@)
            &&& m.contains_key("environment"@) ==> has_substring(t, m["environment"@])
        }),
{
    reveal_strlit("task_type");
    reveal_strlit("environment");
    assert("task_type"@ != "environment"@) by {
        assert("task_type"@[0] != "environment"@[0]);
    }
}

/// Spoken as a command (lower-cased, and naming no review, connection or
/// stop), a deployment request is an engineering task whose environment is
/// the one the transcript names.
pub proof fn law_spoken_deploy_names_its_environment(i: TARSInterpretation, t: Seq<char>)
    requires
        interpretation_spec(i, t),
        has_substring(t, "deploy"@),
        !has_substring(t, "test"@),
        !has_substring(t, "build"@),
        !has_substring(t, "review"@),
        !has_substring(t, "connect"@),
        !has_substring(t, "ssh"@),
        !has_substring(t, "remote"@),
        !has_substring(t, "emergency"@),
        !has_substring(t, "stop"@),
        !has_substring(t, "abort"@),
    ensures
        i.command_type == CommandType::EngineeringTask,
        params_view(i.parameters@).contains_key("task_type"@) && params_view(i.parameters@)["task_type"@] == "deploy"@,
        has_substring(t, "production"@) ==> params_view(i.parameters@)["environment"@] == "production"@,
        has_substring(t, "staging"@) && !has_substring(t, "production"@) ==> params_view(i.parameters@)["environment"@]
            == "staging"@,
{
    law_deploy_targets_the_named_environment(t);
}

/// A test request runs the tests it names: unit tests whenever it says
/// "unit", integration tests only when it says "integration" and not
/// "unit"; a build request (naming no test) is a release build exactly
/// when it says "release". A request that names tests is never taken for
/// a build or a deployment.
pub proof fn law_test_and_build_requests_follow_their_words(t: Seq<char>)
    ensures
        has_substring(t, "test"@) ==> ({
            let m = engineering_params_spec(t);
            &&& m["task_type"@] == "test"@
            &&& has_substring(t, "unit"@) ==> m.contains_key("test_type"@) && m["test_type"@] == "unit"@
            &&& has_substring(t, "integration"@) && !has_substring(t, "unit"@) ==> m.contains_key("test_type"@)
                && m["test_type"@] == "integration"@
            &&& !m.contains_key("build_type"@) && !m.contains_key("environment"@)
        }),
        !has_substring(t, "test"@) && has_substring(t, "build"@) ==> ({
            let m = engineering_params_spec(t);
            &&& m["task_type"@] == "build"@
            &&& (m.contains_key("build_type"@) <==> has_substring(t, "release"@))
            &&& m.contains_key("build_type"@) ==> m["build_type"@] == "release"@
            &&& !m.contains_key("environment"@)
        }),
{
    reveal_strlit("task_type");
    reveal_strlit("test_type");
    reveal_strlit("build_type");
    reveal_strlit("environment");
    assert("task_type"@ != "test_type"@) by {
        assert("task_type"@[1] != "test_type"@[1]);
    }
    assert("task_type"@ != "build_type"@) by {
        assert("task_type"@[0] != "build_type"@[0]);
    }
    assert("test_type"@ != "build_type"@) by {
        assert("test_type"@[0] != "build_type"@[0]);
    }
    assert("test_type"@ != "environment"@) by {
        assert("test_type"@[0] != "environment"@[0]);
    }
    assert("task_type"@ != "environment"@) by {
        assert("task_type"@[0] != "environment"@[0]);
    }
    assert("build_type"@ != "environment"@) by {
        assert("build_type"@[0] != "environment"@[0]);
    }
}

} // verus!
