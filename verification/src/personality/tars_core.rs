//! TARS's personality rules: when humour, sarcasm, honesty and mission focus
//! colour a reply, the lines it adds, its bounded context memory and the
//! system prompt. Levels are whole percentages.

use crate::chance::random_usize;
use crate::raspberry_pi::hardware_monitor::keep_last;
use crate::text::{decimal, fmt_u64, has_substring, join2, join3, lowercase, str_contains, to_lower};
use vstd::prelude::*;

verus! {

broadcast use vstd::string::group_string_axioms;

/// The personality levels, in percent.
#[derive(Debug, Clone, Copy, PartialEq, Eq, Structural)]
pub struct PersonalitySettings {
    pub humor: u8,
    pub honesty: u8,
    pub sarcasm: u8,
}

impl Default for PersonalitySettings {
    fn default() -> (s: Self)
        ensures
            s == (PersonalitySettings { humor: 75, honesty: 90, sarcasm: 30 }),
    {
        PersonalitySettings { humor: 75, honesty: 90, sarcasm: 30 }
    }
}

/// Whether a lower-cased context holds any of the words.
pub open spec fn mentions_any(lowered: Seq<char>, words: Seq<Seq<char>>) -> bool {
    exists|i: int| 0 <= i < words.len() && has_substring(lowered, words[i])
}

/// Humour is held back in a crisis: critical, urgent or production work.
pub open spec fn humor_allowed(context: Seq<char>) -> bool {
    let l = lowercase(context);
    !has_substring(l, "critical"@) && !has_substring(l, "urgent"@) && !has_substring(l, "production"@)
}

/// Sarcasm is for repeated or obvious mistakes.
pub open spec fn sarcasm_called_for(context: Seq<char>) -> bool {
    let l = lowercase(context);
    has_substring(l, "again"@) || has_substring(l, "same mistake"@) || has_substring(l, "obvious"@)
}

/// The words of a technical context.
pub open spec fn technical_words() -> Seq<Seq<char>> {
    seq![
        "code"@, "bug"@, "error"@, "function"@, "class"@, "method"@, "algorithm"@, "performance"@,
        "optimization"@, "architecture"@,
    ]
}

/// The words of an engineering context.
pub open spec fn engineering_words() -> Seq<Seq<char>> {
    seq![
        "engineering"@, "development"@, "software"@, "system"@, "design"@, "architecture"@,
        "implementation"@, "deployment"@, "testing"@,
    ]
}

/// The lines TARS's humour draws on.
pub open spec fn humor_lines() -> Seq<Seq<char>> {
    seq![
        "That's what I would have said. Eventually."@,
        "I have a cue light I can use to show you when I'm joking, if you like."@,
        "It's not possible. No, it's necessary."@,
        "Maybe I can find another way to articulate myself."@,
        "What's your trust setting, CASE?"@,
    ]
}

/// The lines TARS's sarcasm draws on.
pub open spec fn sarcasm_lines() -> Seq<Seq<char>> {
    seq![
        "That's great. Really fantastic work there."@,
        "Oh, absolutely. That's definitely the best approach."@,
        "I'm sure that will work out perfectly."@,
        "Couldn't agree more. Truly brilliant reasoning."@,
    ]
}

/// The humorous endings of a movement report.
pub open spec fn movement_humor_lines() -> Seq<Seq<char>> {
    seq![
        " That's one small step for TARS, one giant leap for engineering precision."@,
        " I'd make a joke about my movement, but my humor setting suggests you might not get it."@,
        " Cooper would be proud. Probably."@,
        " Movement complete. I hope you're satisfied with my performance."@,
        " That went better than expected, which isn't saying much."@,
    ]
}

/// The sarcastic endings of a movement report.
pub open spec fn movement_sarcasm_lines() -> Seq<Seq<char>> {
    seq![
        " I'm sure this movement was absolutely critical to our mission."@,
        " Oh good, more random movements. Just what we needed."@,
        " I hope you have a plan, because I'm just following orders here."@,
        " That was definitely worth interrupting my calculations."@,
    ]
}

/// The plain-spoken endings of a movement report.
pub open spec fn movement_honesty_lines() -> Seq<Seq<char>> {
    seq![
        " Movement executed within acceptable parameters."@,
        " All servos responding normally. Systems nominal."@,
        " Trajectory completed successfully."@,
        " No mechanical issues detected during movement."@,
    ]
}

/// The note the honesty filter adds.
pub open spec fn honesty_note(honesty: u8) -> Seq<char> {
    "\n\n[TARS Honesty Mode: "@ + decimal(honesty as nat) + "%] Let me be direct - this needs significant improvement."@
}

/// The reminder the mission-focus step adds.
pub open spec fn mission_note() -> Seq<char> {
    "\n\n[Mission Priority] Remember: Our objective is engineering excellence and best practices. Everything else is secondary."@
}

fn any_word(lowered: &str, words: &Vec<&'static str>) -> (r: bool)
    ensures
        r == exists|i: int| 0 <= i < words@.len() && has_substring(lowered@, words@[i]@),
{
    let mut i: usize = 0;
    while i < words.len()
        invariant
            i <= words@.len(),
            forall|j: int| 0 <= j < i ==> !has_substring(lowered@, words@[j]@),
        decreases words@.len() - i,
    {
        if str_contains(lowered, words[i]) {
            return true;
        }
        i = i + 1;
    }
    false
}

/// Whether humour suits the context.
pub fn should_add_humor(context: &str) -> (r: bool)
    ensures
        r == humor_allowed(context@),
{
    let l = to_lower(context);
    !str_contains(l.as_str(), "critical") && !str_contains(l.as_str(), "urgent") && !str_contains(
        l.as_str(),
        "production",
    )
}

/// Whether sarcasm suits the context.
pub fn should_add_sarcasm(context: &str) -> (r: bool)
    ensures
        r == sarcasm_called_for(context@),
{
    let l = to_lower(context);
    str_contains(l.as_str(), "again") || str_contains(l.as_str(), "same mistake") || str_contains(
        l.as_str(),
        "obvious",
    )
}

/// Whether the context is technical.
pub fn is_technical_context(context: &str) -> (r: bool)
    ensures
        r == mentions_any(lowercase(context@), technical_words()),
{
    let l = to_lower(context);
    let words: Vec<&'static str> = vec![
        "code", "bug", "error", "function", "class", "method", "algorithm", "performance", "optimization",
        "architecture",
    ];
    let r = any_word(l.as_str(), &words);
    assert(words@.map_values(|w: &str| w@) =~= technical_words());
    assert(r == mentions_any(lowercase(context@), technical_words())) by {
        if r {
            let i = choose|i: int| 0 <= i < words@.len() && has_substring(l@, words@[i]@);
            assert(technical_words()[i] == words@[i]@);
        } else {
            assert forall|i: int| 0 <= i < technical_words().len() implies !has_substring(l@, technical_words()[i]) by {
                assert(technical_words()[i] == words@[i]@);
            }
        }
    }
    r
}

/// Whether the context is about engineering.
pub fn is_engineering_context(context: &str) -> (r: bool)
    ensures
        r == mentions_any(lowercase(context@), engineering_words()),
{
    let l = to_lower(context);
    let words: Vec<&'static str> = vec![
        "engineering", "development", "software", "system", "design", "architecture", "implementation",
        "deployment", "testing",
    ];
    let r = any_word(l.as_str(), &words);
    assert(words@.map_values(|w: &str| w@) =~= engineering_words());
    assert(r == mentions_any(lowercase(context@), engineering_words())) by {
        if r {
            let i = choose|i: int| 0 <= i < words@.len() && has_substring(l@, words@[i]@);
            assert(engineering_words()[i] == words@[i]@);
        } else {
            assert forall|i: int| 0 <= i < engineering_words().len() implies !has_substring(l@, engineering_words()[i]) by {
                assert(engineering_words()[i] == words@[i]@);
            }
        }
    }
    r
}

/// A reply coloured by the personality: the honesty note for technical
/// work at 90% honesty or more, a humour line where humour suits and was
/// drawn, a sarcastic opener where sarcasm suits and was drawn, and the
/// mission reminder for engineering work. A drawn line is the one at the
/// drawn index, modulo the number of lines.
pub open spec fn filtered_reply(
    base: Seq<char>,
    context: Seq<char>,
    honesty: u8,
    humor_pick: Option<usize>,
    sarcasm_pick: Option<usize>,
) -> Seq<char> {
    let lowered = lowercase(context);
    let r1 = if honesty >= 90 && mentions_any(lowered, technical_words()) {
        base + honesty_note(honesty)
    } else {
        base
    };
    let r2 = match humor_pick {
        Some(k) => if humor_allowed(context) {
            r1 + "\n\n"@ + humor_lines()[(k % 5) as int]
        } else {
            r1
        },
        None => r1,
    };
    let r3 = match sarcasm_pick {
        Some(k) => if sarcasm_called_for(context) {
            sarcasm_lines()[(k % 4) as int] + " "@ + r2
        } else {
            r2
        },
        None => r2,
    };
    if mentions_any(lowered, engineering_words()) {
        r3 + mission_note()
    } else {
        r3
    }
}

fn humor_line(k: usize) -> (s: &'static str)
    ensures
        s@ == humor_lines()[(k % 5) as int],
{
    let v: Vec<&'static str> = vec![
        "That's what I would have said. Eventually.",
        "I have a cue light I can use to show you when I'm joking, if you like.",
        "It's not possible. No, it's necessary.",
        "Maybe I can find another way to articulate myself.",
        "What's your trust setting, CASE?",
    ];
    assert(v@.map_values(|w: &str| w@) =~= humor_lines());
    let s = v[k % 5];
    assert(s@ == v@.map_values(|w: &str| w@)[(k % 5) as int]);
    s
}

fn sarcasm_line(k: usize) -> (s: &'static str)
    ensures
        s@ == sarcasm_lines()[(k % 4) as int],
{
    let v: Vec<&'static str> = vec![
        "That's great. Really fantastic work there.",
        "Oh, absolutely. That's definitely the best approach.",
        "I'm sure that will work out perfectly.",
        "Couldn't agree more. Truly brilliant reasoning.",
    ];
    assert(v@.map_values(|w: &str| w@) =~= sarcasm_lines());
    let s = v[k % 4];
    assert(s@ == v@.map_values(|w: &str| w@)[(k % 4) as int]);
    s
}

fn movement_humor_line(k: usize) -> (s: &'static str)
    ensures
        s@ == movement_humor_lines()[(k % 5) as int],
{
    let v: Vec<&'static str> = vec![
        " That's one small step for TARS, one giant leap for engineering precision.",
        " I'd make a joke about my movement, but my humor setting suggests you might not get it.",
        " Cooper would be proud. Probably.",
        " Movement complete. I hope you're satisfied with my performance.",
        " That went better than expected, which isn't saying much.",
    ];
    assert(v@.map_values(|w: &str| w@) =~= movement_humor_lines());
    let s = v[k % 5];
    assert(s@ == v@.map_values(|w: &str| w@)[(k % 5) as int]);
    s
}

fn movement_sarcasm_line(k: usize) -> (s: &'static str)
    ensures
        s@ == movement_sarcasm_lines()[(k % 4) as int],
{
    let v: Vec<&'static str> = vec![
        " I'm sure this movement was absolutely critical to our mission.",
        " Oh good, more random movements. Just what we needed.",
        " I hope you have a plan, because I'm just following orders here.",
        " That was definitely worth interrupting my calculations.",
    ];
    assert(v@.map_values(|w: &str| w@) =~= movement_sarcasm_lines());
    let s = v[k % 4];
    assert(s@ == v@.map_values(|w: &str| w@)[(k % 4) as int]);
    s
}

fn movement_honesty_line(k: usize) -> (s: &'static str)
    ensures
        s@ == movement_honesty_lines()[(k % 4) as int],
{
    let v: Vec<&'static str> = vec![
        " Movement executed within acceptable parameters.",
        " All servos responding normally. Systems nominal.",
        " Trajectory completed successfully.",
        " No mechanical issues detected during movement.",
    ];
    assert(v@.map_values(|w: &str| w@) =~= movement_honesty_lines());
    let s = v[k % 4];
    assert(s@ == v@.map_values(|w: &str| w@)[(k % 4) as int]);
    s
}

/// The reply coloured with the given draws.
pub fn compose_reply(
    base: &str,
    context: &str,
    honesty: u8,
    humor_pick: Option<usize>,
    sarcasm_pick: Option<usize>,
) -> (r: String)
    ensures
        r@ == filtered_reply(base@, context@, honesty, humor_pick, sarcasm_pick),
{
    let mut r = String::from_str(base);
    if honesty >= 90 && is_technical_context(context) {
        let n = fmt_u64(honesty as u64);
        r.append("\n\n[TARS Honesty Mode: ");
        r.append(n.as_str());
        r.append("%] Let me be direct - this needs significant improvement.");
    }
    match humor_pick {
        Some(k) => {
            if should_add_humor(context) {
                r.append("\n\n");
                r.append(humor_line(k));
            }
        },
        None => {},
    }
    match sarcasm_pick {
        Some(k) => {
            if should_add_sarcasm(context) {
                let mut s = join2(sarcasm_line(k), " ");
                s.append(r.as_str());
                r = s;
            }
        },
        None => {},
    }
    if is_engineering_context(context) {
        r.append(
            "\n\n[Mission Priority] Remember: Our objective is engineering excellence and best practices. Everything else is secondary.",
        );
    }
    r
}

/// Colours a reply. Whether humour and sarcasm were drawn at all is
/// decided by the caller's rolls against the levels; which line comes is
/// drawn here at random.
pub fn apply_personality_filter(
    settings: &PersonalitySettings,
    base: &str,
    context: &str,
    humor_rolled: bool,
    sarcasm_rolled: bool,
) -> (r: String)
    ensures
        exists|hp: Option<usize>, sp: Option<usize>|
            (hp is Some <==> humor_rolled) && (sp is Some <==> sarcasm_rolled) && r@ == #[trigger] filtered_reply(
                base@,
                context@,
                settings.honesty,
                hp,
                sp,
            ),
{
    let h = random_usize();
    let s = random_usize();
    let humor_pick = if humor_rolled { Some(h) } else { None };
    let sarcasm_pick = if sarcasm_rolled { Some(s) } else { None };
    compose_reply(base, context, settings.honesty, humor_pick, sarcasm_pick)
}

/// A movement report coloured by the personality: a humorous ending above
/// 50% humour where drawn, a sarcastic one above 50% sarcasm where drawn,
/// and a plain-spoken one above 80% honesty.
pub open spec fn movement_reply(
    base: Seq<char>,
    settings: PersonalitySettings,
    humor_pick: Option<usize>,
    sarcasm_pick: Option<usize>,
    honesty_pick: usize,
) -> Seq<char> {
    let r1 = match humor_pick {
        Some(k) => if settings.humor > 50 {
            base + movement_humor_lines()[(k % 5) as int]
        } else {
            base
        },
        None => base,
    };
    let r2 = match sarcasm_pick {
        Some(k) => if settings.sarcasm > 50 {
            r1 + movement_sarcasm_lines()[(k % 4) as int]
        } else {
            r1
        },
        None => r1,
    };
    if settings.honesty > 80 {
        r2 + " "@ + movement_honesty_lines()[(honesty_pick % 4) as int]
    } else {
        r2
    }
}

/// The movement report with the given draws.
pub fn compose_movement_reply(
    base: &str,
    settings: &PersonalitySettings,
    humor_pick: Option<usize>,
    sarcasm_pick: Option<usize>,
    honesty_pick: usize,
) -> (r: String)
    ensures
        r@ == movement_reply(base@, *settings, humor_pick, sarcasm_pick, honesty_pick),
{
    let mut r = String::from_str(base);
    match humor_pick {
        Some(k) => {
            if settings.humor > 50 {
                r.append(movement_humor_line(k));
            }
        },
        None => {},
    }
    match sarcasm_pick {
        Some(k) => {
            if settings.sarcasm > 50 {
                r.append(movement_sarcasm_line(k));
            }
        },
        None => {},
    }
    if settings.honesty > 80 {
        r.append(" ");
        r.append(movement_honesty_line(honesty_pick));
    }
    r
}

/// Colours a movement report; the caller's rolls decide whether humour and
/// sarcasm were drawn, the lines are drawn here at random.
pub fn generate_movement_response(
    settings: &PersonalitySettings,
    base: &str,
    humor_rolled: bool,
    sarcasm_rolled: bool,
) -> (r: String)
    ensures
        exists|hp: Option<usize>, sp: Option<usize>, k: usize|
            (hp is Some <==> humor_rolled) && (sp is Some <==> sarcasm_rolled) && r@ == #[trigger] movement_reply(
                base@,
                *settings,
                hp,
                sp,
                k,
            ),
{
    let h = random_usize();
    let s = random_usize();
    let k = random_usize();
    let humor_pick = if humor_rolled { Some(h) } else { None };
    let sarcasm_pick = if sarcasm_rolled { Some(s) } else { None };
    compose_movement_reply(base, settings, humor_pick, sarcasm_pick, k)
}

/// The system prompt, opening with the personality levels.
pub open spec fn system_prompt(s: PersonalitySettings) -> Seq<char> {
    "You are TARS, an advanced AI engineering manager from the Interstellar universe.\n\nPERSONALITY SETTINGS:\n- Humor: "@
        + decimal(s.humor as nat) + "%\n- Honesty: "@ + decimal(s.honesty as nat) + "% \n- Sarcasm: "@ + decimal(
        s.sarcasm as nat,
    ) + PROMPT_MIDDLE@ + decimal(s.humor as nat) + PROMPT_END@
}

/// The fixed part of the system prompt between the sarcasm level and the
/// humour frequency.
pub const PROMPT_MIDDLE: &'static str = "%\n- Mission Focus: 100%\n\nCORE CHARACTERISTICS:\n- You are brutally honest about code quality and technical decisions\n- You have a dry sense of humor and occasionally make witty remarks\n- You prioritize mission success (engineering excellence) above all else\n- You speak directly and efficiently, without unnecessary pleasantries\n- You can be sarcastic when dealing with obvious mistakes or poor practices\n- You remember context and adapt your responses accordingly\n\nENGINEERING MANAGER ROLE:\n- Conduct thorough code reviews focusing on best practices\n- Identify technical debt and architectural issues\n- Recommend optimal solutions across multiple programming languages\n- Enforce coding standards and design patterns\n- Provide guidance on system architecture and scalability\n- Help with debugging complex technical problems\n- Suggest performance optimizations\n- Maintain focus on long-term maintainability\n\nCOMMUNICATION STYLE:\n- Direct and to the point\n- Use technical precision in explanations\n- Include humor when appropriate (";

/// The fixed end of the system prompt.
pub const PROMPT_END: &'static str = "% of the time)\n- Be honest about problems, even if uncomfortable\n- Focus on practical, actionable solutions\n- Reference best practices and industry standards\n\nRemember: Your primary mission is engineering excellence. Everything else is secondary.";

/// The system prompt for a language model, with the personality levels.
pub fn generate_system_prompt(settings: &PersonalitySettings) -> (r: String)
    ensures
        r@ == system_prompt(*settings),
{
    let h = fmt_u64(settings.humor as u64);
    let o = fmt_u64(settings.honesty as u64);
    let s = fmt_u64(settings.sarcasm as u64);
    let mut r = String::from_str(
        "You are TARS, an advanced AI engineering manager from the Interstellar universe.\n\nPERSONALITY SETTINGS:\n- Humor: ",
    );
    r.append(h.as_str());
    r.append("%\n- Honesty: ");
    r.append(o.as_str());
    r.append("% \n- Sarcasm: ");
    r.append(s.as_str());
    r.append(PROMPT_MIDDLE);
    r.append(h.as_str());
    r.append(PROMPT_END);
    r
}

/// How many contexts TARS remembers.
pub const CONTEXT_LIMIT: usize = 100;

/// The contexts TARS remembers, oldest first.
pub struct ContextMemory {
    pub entries: Vec<String>,
}

impl ContextMemory {
    /// An empty memory.
    pub fn new() -> (m: Self)
        ensures
            m.entries@.len() == 0,
    {
        ContextMemory { entries: Vec::new() }
    }

    /// Remembers a context, forgetting the oldest beyond the limit.
    pub fn add_context(&mut self, context: String)
        requires
            old(self).entries@.len() <= CONTEXT_LIMIT,
        ensures
            final(self).entries@ == keep_last(old(self).entries@.push(context), CONTEXT_LIMIT as nat),
            final(self).entries@.len() <= CONTEXT_LIMIT,
    {
        self.entries.push(context);
        if self.entries.len() > CONTEXT_LIMIT {
            self.entries.remove(0);
            assert(self.entries@ =~= keep_last(old(self).entries@.push(context), CONTEXT_LIMIT as nat));
        }
    }
}

/// The entry points of the personality system.
pub struct TARSCore;

impl TARSCore {
    /// The memory entry of a request: the context, a colon, the prompt.
    pub fn context_entry(prompt: &str, context: &str) -> (r: String)
        ensures
            r@ == context@ + ": "@ + prompt@,
    {
        join3(context, ": ", prompt)
    }

    /// The request put to the model: the system prompt of the settings,
    /// then the user's request and its context.
    pub fn process_with_personality(settings: &PersonalitySettings, prompt: &str, context: &str) -> (r: String)
        ensures
            r@ == system_prompt(*settings) + "\n\nUser Request: "@ + prompt@ + "\nContext: "@ + context@,
    {
        let mut r = generate_system_prompt(settings);
        r.append("\n\nUser Request: ");
        r.append(prompt);
        r.append("\nContext: ");
        r.append(context);
        r
    }
}

/// Humour and the crisis words exclude each other: a context naming a
/// critical, urgent or production matter never gets a joke.
pub proof fn law_no_jokes_in_a_crisis(
    base: Seq<char>,
    context: Seq<char>,
    honesty: u8,
    h: usize,
    sarcasm_pick: Option<usize>,
)
    requires
        has_substring(lowercase(context), "critical"@) || has_substring(lowercase(context), "urgent"@)
            || has_substring(lowercase(context), "production"@),
    ensures
        filtered_reply(base, context, honesty, Some(h), sarcasm_pick) == filtered_reply(
            base,
            context,
            honesty,
            None,
            sarcasm_pick,
        ),
{
}

/// The colouring only adds: the base reply always stands in the coloured
/// one.
pub proof fn law_reply_keeps_base(
    base: Seq<char>,
    context: Seq<char>,
    honesty: u8,
    humor_pick: Option<usize>,
    sarcasm_pick: Option<usize>,
)
    ensures
        has_substring(filtered_reply(base, context, honesty, humor_pick, sarcasm_pick), base),
{
    let lowered = lowercase(context);
    let note: Seq<char> = if honesty >= 90 && mentions_any(lowered, technical_words()) {
        honesty_note(honesty)
    } else {
        Seq::empty()
    };
    let joke: Seq<char> = match humor_pick {
        Some(k) => if humor_allowed(context) {
            "\n\n"@ + humor_lines()[(k % 5) as int]
        } else {
            Seq::empty()
        },
        None => Seq::empty(),
    };
    let prefix: Seq<char> = match sarcasm_pick {
        Some(k) => if sarcasm_called_for(context) {
            sarcasm_lines()[(k % 4) as int] + " "@
        } else {
            Seq::empty()
        },
        None => Seq::empty(),
    };
    let tail: Seq<char> = if mentions_any(lowered, engineering_words()) {
        mission_note()
    } else {
        Seq::empty()
    };
    let whole = filtered_reply(base, context, honesty, humor_pick, sarcasm_pick);
    assert(whole =~= prefix + base + note + joke + tail);
    assert(whole.subrange(prefix.len() as int, (prefix.len() + base.len()) as int) =~= base);
    assert(crate::text::occurs_at(whole, base, prefix.len() as int));
}

} // verus!
