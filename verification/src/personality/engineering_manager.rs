//! TARS as engineering manager: the standards a code review checks, the
//! review itself, and stack recommendations.

use vstd::prelude::*;
use crate::text::{
    chars_of, contains_chars, contains_string, count_lines, fmt_u64, has_substring, join2, join3,
    line_count, lowercase, owned, str_equal, strings_view, svec1, svec2, svec3, svec4, to_lower,
    decimal,
};

verus! {

broadcast use vstd::string::group_string_axioms;

/// How serious a breach of a standard is.
#[derive(Debug, Clone, Copy, PartialEq, Eq)]
pub enum StandardSeverity {
    Critical,
    Major,
    Minor,
}

/// An engineering standard a review enforces.
#[derive(Debug, Clone)]
pub struct EngineeringStandard {
    pub name: String,
    pub description: String,
    pub severity: StandardSeverity,
    pub applicable_languages: Vec<String>,
    pub examples: Vec<String>,
    pub fix_suggestions: Vec<String>,
}

/// A breach found by a review.
#[derive(Debug, Clone)]
pub struct StandardViolation {
    pub standard_name: String,
    pub description: String,
    pub severity: StandardSeverity,
    pub line_numbers: Vec<usize>,
}

#[derive(Debug, Clone, Copy, PartialEq, Eq)]
pub enum RecommendationPriority {
    Critical,
    High,
    Medium,
    Low,
}

/// Advice for a technology of a stack.
#[derive(Debug, Clone)]
pub struct EngineeeringRecommendation {
    pub category: String,
    pub title: String,
    pub description: String,
    pub priority: RecommendationPriority,
}

/// The outcome of a code review. Scores are whole points out of 100.
#[derive(Debug, Clone)]
pub struct CodeReviewResult {
    pub overall_score: u32,
    pub violations: Vec<StandardViolation>,
    pub suggestions: Vec<String>,
    pub tars_commentary: String,
    pub language: String,
}

/// A standard as plain values: name, description, severity, languages,
/// examples, fixes.
pub open spec fn standard_view(s: EngineeringStandard) -> (
    Seq<char>,
    Seq<char>,
    StandardSeverity,
    Seq<Seq<char>>,
    Seq<Seq<char>>,
    Seq<Seq<char>>,
) {
    (
        s.name@,
        s.description@,
        s.severity,
        strings_view(s.applicable_languages@),
        strings_view(s.examples@),
        strings_view(s.fix_suggestions@),
    )
}

/// A keyed table of standards as plain values.
pub open spec fn table_view(t: Seq<(String, EngineeringStandard)>) -> Seq<
    (Seq<char>, (Seq<char>, Seq<char>, StandardSeverity, Seq<Seq<char>>, Seq<Seq<char>>, Seq<Seq<char>>)),
> {
    t.map_values(|e: (String, EngineeringStandard)| (e.0@, standard_view(e.1)))
}

/// The standards TARS starts with, keyed by identifier.
pub open spec fn default_standards() -> Seq<
    (Seq<char>, (Seq<char>, Seq<char>, StandardSeverity, Seq<Seq<char>>, Seq<Seq<char>>, Seq<Seq<char>>)),
> {
    seq![
        ("no_hardcoded_secrets"@, (
            "No Hardcoded Secrets"@,
            "Never hardcode API keys, passwords, or sensitive data in source code"@,
            StandardSeverity::Critical,
            seq!["*"@],
            seq![
                "const API_KEY = 'sk-1234567890abcdef'; // WRONG"@,
                "const API_KEY = process.env.API_KEY; // CORRECT"@,
            ],
            seq![
                "Move secrets to environment variables"@,
                "Use secure secret management systems"@,
                "Implement proper configuration management"@,
            ],
        )),
        ("avoid_n_plus_1_queries"@, (
            "Avoid N+1 Query Problems"@,
            "Prevent database N+1 query issues that cause performance degradation"@,
            StandardSeverity::Major,
            seq!["sql"@, "python"@, "javascript"@, "typescript"@],
            seq![
                "// WRONG: N+1 queries\nusers.forEach(user => { db.getPosts(user.id); })"@,
                "// CORRECT: Single query with joins\ndb.getUsersWithPosts()"@,
            ],
            seq![
                "Use database joins or includes"@,
                "Implement batch loading strategies"@,
                "Use DataLoader pattern for GraphQL"@,
            ],
        )),
        ("single_responsibility"@, (
            "Single Responsibility Principle"@,
            "Each function/class should have one reason to change"@,
            StandardSeverity::Major,
            seq!["*"@],
            seq![
                "// WRONG: Multiple responsibilities\nfunction processUserDataAndSendEmail(user) { /* validation, processing, email */ }"@,
                "// CORRECT: Separate concerns\nfunction validateUser(user) { } \nfunction processUser(user) { }\nfunction sendWelcomeEmail(user) { }"@,
            ],
            seq![
                "Break down large functions into smaller, focused ones"@,
                "Separate data processing from side effects"@,
                "Use composition over inheritance"@,
            ],
        )),
        ("proper_error_handling"@, (
            "Comprehensive Error Handling"@,
            "All error conditions should be properly handled and logged"@,
            StandardSeverity::Critical,
            seq!["*"@],
            seq![
                "// WRONG: Silent failures\ntry { riskyOperation(); } catch(e) { }"@,
                "// CORRECT: Proper error handling\ntry { riskyOperation(); } catch(e) { logger.error(e); throw new ProcessingError(e); }"@,
            ],
            seq![
                "Never catch and ignore exceptions silently"@,
                "Log errors with context and stack traces"@,
                "Use proper error types and error boundaries"@,
            ],
        )),
    ]
}

/// The standards TARS starts with, keyed by identifier (security,
/// performance, code quality, error handling).
pub fn initialize_standards() -> (t: Vec<(String, EngineeringStandard)>)
    ensures
        table_view(t@) == default_standards(),
{
    let mut t: Vec<(String, EngineeringStandard)> = Vec::new();
    t.push((owned("no_hardcoded_secrets"), EngineeringStandard {
        name: owned("No Hardcoded Secrets"),
        description: owned("Never hardcode API keys, passwords, or sensitive data in source code"),
        severity: StandardSeverity::Critical,
        applicable_languages: svec1("*"),
        examples: svec2(
            "const API_KEY = 'sk-1234567890abcdef'; // WRONG",
            "const API_KEY = process.env.API_KEY; // CORRECT",
        ),
        fix_suggestions: svec3(
            "Move secrets to environment variables",
            "Use secure secret management systems",
            "Implement proper configuration management",
        ),
    }));
    t.push((owned("avoid_n_plus_1_queries"), EngineeringStandard {
        name: owned("Avoid N+1 Query Problems"),
        description: owned("Prevent database N+1 query issues that cause performance degradation"),
        severity: StandardSeverity::Major,
        applicable_languages: svec4("sql", "python", "javascript", "typescript"),
        examples: svec2(
            "// WRONG: N+1 queries\nusers.forEach(user => { db.getPosts(user.id); })",
            "// CORRECT: Single query with joins\ndb.getUsersWithPosts()",
        ),
        fix_suggestions: svec3(
            "Use database joins or includes",
            "Implement batch loading strategies",
            "Use DataLoader pattern for GraphQL",
        ),
    }));
    t.push((owned("single_responsibility"), EngineeringStandard {
        name: owned("Single Responsibility Principle"),
        description: owned("Each function/class should have one reason to change"),
        severity: StandardSeverity::Major,
        applicable_languages: svec1("*"),
        examples: svec2(
            "// WRONG: Multiple responsibilities\nfunction processUserDataAndSendEmail(user) { /* validation, processing, email */ }",
            "// CORRECT: Separate concerns\nfunction validateUser(user) { } \nfunction processUser(user) { }\nfunction sendWelcomeEmail(user) { }",
        ),
        fix_suggestions: svec3(
            "Break down large functions into smaller, focused ones",
            "Separate data processing from side effects",
            "Use composition over inheritance",
        ),
    }));
    t.push((owned("proper_error_handling"), EngineeringStandard {
        name: owned("Comprehensive Error Handling"),
        description: owned("All error conditions should be properly handled and logged"),
        severity: StandardSeverity::Critical,
        applicable_languages: svec1("*"),
        examples: svec2(
            "// WRONG: Silent failures\ntry { riskyOperation(); } catch(e) { }",
            "// CORRECT: Proper error handling\ntry { riskyOperation(); } catch(e) { logger.error(e); throw new ProcessingError(e); }",
        ),
        fix_suggestions: svec3(
            "Never catch and ignore exceptions silently",
            "Log errors with context and stack traces",
            "Use proper error types and error boundaries",
        ),
    }));
    assert(table_view(t@) =~= default_standards());
    t
}

/// The standard applies to the (lower-cased) language: it lists the
/// language or the wildcard `*`.
pub open spec fn applies_to(s: EngineeringStandard, lang_lower: Seq<char>) -> bool {
    strings_view(s.applicable_languages@).contains("*"@) || strings_view(
        s.applicable_languages@,
    ).contains(lang_lower)
}

/// What a standard finds wrong with the code, if anything; `lower` is the
/// code lower-cased. Standards are told apart by name.
pub open spec fn violation_description(name: Seq<char>, code: Seq<char>, lower: Seq<char>) -> Option<
    Seq<char>,
> {
    if name == "No Hardcoded Secrets"@ {
        if has_substring(lower, "api_key"@) && (has_substring(lower, "sk-"@) || has_substring(
            lower,
            "bearer "@,
        )) {
            Some("Hardcoded API key detected"@)
        } else {
            None
        }
    } else if name == "Avoid N+1 Query Problems"@ {
        if has_substring(lower, "foreach"@) && (has_substring(lower, "query"@) || has_substring(
            lower,
            "find"@,
        )) {
            Some("Potential N+1 query pattern detected"@)
        } else {
            None
        }
    } else if name == "Single Responsibility Principle"@ {
        if line_count(code) > 50 && (has_substring(lower, "and"@) || has_substring(lower, "process"@)) {
            Some("Function appears to have multiple responsibilities"@)
        } else {
            None
        }
    } else if name == "Comprehensive Error Handling"@ {
        if has_substring(lower, "try"@) && has_substring(lower, "catch"@) && !has_substring(
            lower,
            "log"@,
        ) && !has_substring(lower, "throw"@) {
            Some("Empty or insufficient error handling detected"@)
        } else {
            None
        }
    } else {
        None
    }
}

/// Points a breach costs.
pub open spec fn severity_penalty(s: StandardSeverity) -> nat {
    match s {
        StandardSeverity::Critical => 25,
        StandardSeverity::Major => 15,
        StandardSeverity::Minor => 5,
    }
}

/// A violation as plain values.
pub open spec fn violation_view(v: StandardViolation) -> (Seq<char>, Seq<char>, StandardSeverity, Seq<usize>) {
    (v.standard_name@, v.description@, v.severity, v.line_numbers@)
}

/// The review of the first entries of a table: points lost, violations
/// found, fixes suggested, in table order.
pub open spec fn review_spec(
    t: Seq<(String, EngineeringStandard)>,
    code: Seq<char>,
    lower: Seq<char>,
    lang_lower: Seq<char>,
) -> (nat, Seq<(Seq<char>, Seq<char>, StandardSeverity, Seq<usize>)>, Seq<Seq<char>>)
    decreases t.len(),
{
    if t.len() == 0 {
        (0, Seq::empty(), Seq::empty())
    } else {
        let (p, vs, sg) = review_spec(t.drop_last(), code, lower, lang_lower);
        let st = t.last().1;
        if applies_to(st, lang_lower) && violation_description(st.name@, code, lower) is Some {
            (
                p + severity_penalty(st.severity),
                vs.push(
                    (st.name@, violation_description(st.name@, code, lower)->0, st.severity, seq![1usize]),
                ),
                sg + strings_view(st.fix_suggestions@),
            )
        } else {
            (p, vs, sg)
        }
    }
}

/// The verdict line for a score.
pub open spec fn verdict_for(score: int) -> Seq<char> {
    if 90 <= score <= 100 {
        "Excellent work. This code meets all engineering standards. That's what I would have said. Eventually."@
    } else if 70 <= score <= 89 {
        "Good implementation, but there are areas for improvement. Let's address them systematically."@
    } else if 50 <= score <= 69 {
        "This code has significant issues that need immediate attention. I have a cue light I can use to show you when I'm joking, if you like. I'm not joking about this."@
    } else {
        "Critical issues detected. This code is not ready for production deployment. It's not possible to ship this. No, wait - it's necessary to fix it first."@
    }
}

/// The remark on a breach of each severity.
pub open spec fn severity_remark(s: StandardSeverity) -> Seq<char> {
    match s {
        StandardSeverity::Critical => "   [CRITICAL] This could compromise system security or stability.\n"@,
        StandardSeverity::Major => "   [MAJOR] This affects code maintainability and quality.\n"@,
        StandardSeverity::Minor => "   [MINOR] This is a style or convention issue.\n"@,
    }
}

/// The numbered list of violations.
pub open spec fn violation_lines(vs: Seq<(Seq<char>, Seq<char>, StandardSeverity, Seq<usize>)>) -> Seq<char>
    decreases vs.len(),
{
    if vs.len() == 0 {
        Seq::empty()
    } else {
        let v = vs.last();
        violation_lines(vs.drop_last()) + decimal(vs.len()) + ". "@ + v.0 + ": "@ + v.1 + "\n"@
            + severity_remark(v.2)
    }
}

/// TARS's review commentary for a score and the violations found.
pub open spec fn commentary_spec(score: nat, vs: Seq<(Seq<char>, Seq<char>, StandardSeverity, Seq<usize>)>) -> Seq<char> {
    "Code Review Analysis Complete.\n\n"@ + verdict_for(score as int) + "\n\n[ENGINEERING ASSESSMENT: "@
        + decimal(score) + ".0/100]\n"@ + (if vs.len() == 0 {
        Seq::empty()
    } else {
        "\nVIOLATIONS DETECTED:\n"@ + violation_lines(vs)
    })
        + "\n[MISSION PRIORITY] Engineering excellence requires attention to these details. Address the critical and major issues before deployment."@
}

/// A recommendation as plain values: category, title, description,
/// priority.
pub open spec fn recommendation_view(r: EngineeeringRecommendation) -> (Seq<char>, Seq<char>, Seq<char>, RecommendationPriority) {
    (r.category@, r.title@, r.description@, r.priority)
}

/// The advice for one lower-cased technology name, if TARS has any.
pub open spec fn recommendation_for(t: Seq<char>) -> Option<(Seq<char>, Seq<char>, Seq<char>, RecommendationPriority)> {
    if t == "react"@ {
        Some(("Frontend"@, "React Best Practices"@,
            "Use functional components with hooks, implement proper error boundaries, and optimize with React.memo when appropriate"@,
            RecommendationPriority::High))
    } else if t == "node.js"@ || t == "nodejs"@ {
        Some(("Backend"@, "Node.js Security & Performance"@,
            "Implement proper async/await patterns, use helmet for security headers, and monitor event loop lag"@,
            RecommendationPriority::High))
    } else if t == "rust"@ {
        Some(("System Programming"@, "Rust Memory Safety"@,
            "Leverage Rust's ownership system, avoid unnecessary cloning, and use appropriate error handling with Result<T, E>"@,
            RecommendationPriority::Medium))
    } else {
        None
    }
}

/// The advice for a stack, one entry per technology TARS knows, in stack
/// order.
pub open spec fn recommendations_for(stack_lower: Seq<Seq<char>>) -> Seq<(Seq<char>, Seq<char>, Seq<char>, RecommendationPriority)>
    decreases stack_lower.len(),
{
    if stack_lower.len() == 0 {
        Seq::empty()
    } else {
        let rest = recommendations_for(stack_lower.drop_last());
        match recommendation_for(stack_lower.last()) {
            Some(r) => rest.push(r),
            None => rest,
        }
    }
}

/// The advice for one lower-cased technology name.
pub fn recommendation_for_lowered(t: &str) -> (r: Option<EngineeeringRecommendation>)
    ensures
        match recommendation_for(t@) {
            Some(x) => r matches Some(y) && recommendation_view(y) == x,
            None => r is None,
        },
{
    if str_equal(t, "react") {
        Some(EngineeeringRecommendation {
            category: owned("Frontend"),
            title: owned("React Best Practices"),
            description: owned("Use functional components with hooks, implement proper error boundaries, and optimize with React.memo when appropriate"),
            priority: RecommendationPriority::High,
        })
    } else if str_equal(t, "node.js") || str_equal(t, "nodejs") {
        Some(EngineeeringRecommendation {
            category: owned("Backend"),
            title: owned("Node.js Security & Performance"),
            description: owned("Implement proper async/await patterns, use helmet for security headers, and monitor event loop lag"),
            priority: RecommendationPriority::High,
        })
    } else if str_equal(t, "rust") {
        Some(EngineeeringRecommendation {
            category: owned("System Programming"),
            title: owned("Rust Memory Safety"),
            description: owned("Leverage Rust's ownership system, avoid unnecessary cloning, and use appropriate error handling with Result<T, E>"),
            priority: RecommendationPriority::Medium,
        })
    } else {
        None
    }
}

/// Engineering manager holding the standards it reviews against.
pub struct EngineeringManager {
    standards: Vec<(String, EngineeringStandard)>,
}

fn penalty_of(s: StandardSeverity) -> (p: u32)
    ensures
        p == severity_penalty(s),
{
    match s {
        StandardSeverity::Critical => 25,
        StandardSeverity::Major => 15,
        StandardSeverity::Minor => 5,
    }
}

fn copy_strings(v: &Vec<String>) -> (r: Vec<String>)
    ensures
        strings_view(r@) == strings_view(v@),
{
    let mut r: Vec<String> = Vec::new();
    let mut i: usize = 0;
    while i < v.len()
        invariant
            i <= v@.len(),
            strings_view(r@) == strings_view(v@).take(i as int),
        decreases v@.len() - i,
    {
        let c = v[i].clone();
        assert(c == v@[i as int]);
        let ghost old_r = r@;
        r.push(c);
        assert(strings_view(r@) =~= strings_view(old_r).push(v@[i as int]@));
        assert(strings_view(v@).take(i + 1) =~= strings_view(v@).take(i as int).push(v@[i as int]@));
        i = i + 1;
    }
    assert(strings_view(v@).take(v@.len() as int) =~= strings_view(v@));
    r
}

/// Whether the standard covers the lower-cased language.
pub fn applies_to_lowered(standard: &EngineeringStandard, lang_lower: &str) -> (r: bool)
    ensures
        r == applies_to(*standard, lang_lower@),
{
    contains_string(&standard.applicable_languages, "*") || contains_string(
        &standard.applicable_languages,
        lang_lower,
    )
}

fn occurs_in(t: &Vec<char>, pat: &str) -> (r: bool)
    ensures
        r == has_substring(t@, pat@),
{
    let p = chars_of(pat);
    contains_chars(t, &p)
}

/// The breach of `standard`, if any, in code whose lower-cased form is
/// `code_lower`.
pub fn violation_in(code: &str, code_lower: &str, standard: &EngineeringStandard) -> (r: Option<
    StandardViolation,
>)
    ensures
        match violation_description(standard.name@, code@, code_lower@) {
            Some(d) => r matches Some(v) && violation_view(v) == (standard.name@, d, standard.severity, seq![1usize]),
            None => r is None,
        },
{
    let lower = chars_of(code_lower);
    let name = standard.name.as_str();
    let desc: Option<&str> = if str_equal(name, "No Hardcoded Secrets") {
        if occurs_in(&lower, "api_key") && (occurs_in(&lower, "sk-") || occurs_in(&lower, "bearer ")) {
            Some("Hardcoded API key detected")
        } else {
            None
        }
    } else if str_equal(name, "Avoid N+1 Query Problems") {
        if occurs_in(&lower, "foreach") && (occurs_in(&lower, "query") || occurs_in(&lower, "find")) {
            Some("Potential N+1 query pattern detected")
        } else {
            None
        }
    } else if str_equal(name, "Single Responsibility Principle") {
        if count_lines(code) > 50 && (occurs_in(&lower, "and") || occurs_in(&lower, "process")) {
            Some("Function appears to have multiple responsibilities")
        } else {
            None
        }
    } else if str_equal(name, "Comprehensive Error Handling") {
        if occurs_in(&lower, "try") && occurs_in(&lower, "catch") && !occurs_in(&lower, "log") && !occurs_in(&lower, "throw") {
            Some("Empty or insufficient error handling detected")
        } else {
            None
        }
    } else {
        None
    };
    match desc {
        Some(d) => {
            let mut lines: Vec<usize> = Vec::new();
            lines.push(1);
            assert(lines@ =~= seq![1usize]);
            Some(StandardViolation {
                standard_name: standard.name.clone(),
                description: owned(d),
                severity: standard.severity,
                line_numbers: lines,
            })
        },
        None => None,
    }
}

fn verdict_text(score: u32) -> (r: &'static str)
    ensures
        r@ == verdict_for(score as int),
{
    if 90 <= score && score <= 100 {
        "Excellent work. This code meets all engineering standards. That's what I would have said. Eventually."
    } else if 70 <= score && score <= 89 {
        "Good implementation, but there are areas for improvement. Let's address them systematically."
    } else if 50 <= score && score <= 69 {
        "This code has significant issues that need immediate attention. I have a cue light I can use to show you when I'm joking, if you like. I'm not joking about this."
    } else {
        "Critical issues detected. This code is not ready for production deployment. It's not possible to ship this. No, wait - it's necessary to fix it first."
    }
}

fn severity_remark_text(s: StandardSeverity) -> (r: &'static str)
    ensures
        r@ == severity_remark(s),
{
    match s {
        StandardSeverity::Critical => "   [CRITICAL] This could compromise system security or stability.\n",
        StandardSeverity::Major => "   [MAJOR] This affects code maintainability and quality.\n",
        StandardSeverity::Minor => "   [MINOR] This is a style or convention issue.\n",
    }
}

/// TARS's commentary on a review with the given score and violations.
#[verifier::rlimit(80)]
pub fn generate_tars_review_commentary(score: u32, violations: &Vec<StandardViolation>) -> (r: String)
    ensures
        r@ == commentary_spec(score as nat, violations@.map_values(|v: StandardViolation| violation_view(v))),
{
    let ghost vs = violations@.map_values(|v: StandardViolation| violation_view(v));
    let mut c = owned("Code Review Analysis Complete.\n\n");
    c.append(verdict_text(score));
    c.append("\n\n[ENGINEERING ASSESSMENT: ");
    let n = fmt_u64(score as u64);
    c.append(n.as_str());
    c.append(".0/100]\n");
    let ghost head = c@;
    if violations.len() > 0 {
        c.append("\nVIOLATIONS DETECTED:\n");
        let ghost start = c@;
        let mut i: usize = 0;
        while i < violations.len()
            invariant
                i <= violations@.len(),
                vs == violations@.map_values(|v: StandardViolation| violation_view(v)),
                c@ == start + violation_lines(vs.take(i as int)),
            decreases violations@.len() - i,
        {
            let v = &violations[i];
            let num = fmt_u64((i + 1) as u64);
            c.append(num.as_str());
            c.append(". ");
            c.append(v.standard_name.as_str());
            c.append(": ");
            c.append(v.description.as_str());
            c.append("\n");
            c.append(severity_remark_text(v.severity));
            proof {
                let t = vs.take(i + 1);
                assert(t.drop_last() =~= vs.take(i as int));
                assert(t.last() == violation_view(violations@[i as int]));
            }
            i = i + 1;
        }
        assert(vs.take(vs.len() as int) =~= vs);
    }
    c.append("\n[MISSION PRIORITY] Engineering excellence requires attention to these details. Address the critical and major issues before deployment.");
    c
}

impl EngineeringManager {
    /// The table of standards reviewed against.
    pub closed spec fn table(&self) -> Seq<(String, EngineeringStandard)> {
        self.standards@
    }

    /// The manager reviews against the default standards.
    pub open spec fn wf(&self) -> bool {
        table_view(self.table()) == default_standards()
    }

    /// A manager with TARS's default standards.
    pub fn new() -> (m: Self)
        ensures
            m.wf(),
    {
        EngineeringManager { standards: initialize_standards() }
    }

    /// Whether a standard covers a language, compared lower-cased.
    pub fn standard_applies_to_language(&self, standard: &EngineeringStandard, language: &str) -> (r: bool)
        ensures
            r == applies_to(*standard, lowercase(language@)),
    {
        let lang = to_lower(language);
        applies_to_lowered(standard, lang.as_str())
    }

    /// The breach of `standard`, if any, in `code` (matched lower-cased).
    pub fn check_standard_violation(&self, code: &str, standard: &EngineeringStandard) -> (r: Option<
        StandardViolation,
    >)
        ensures
            match violation_description(standard.name@, code@, lowercase(code@)) {
                Some(d) => r matches Some(v) && violation_view(v) == (standard.name@, d, standard.severity, seq![1usize]),
                None => r is None,
            },
    {
        let lower = to_lower(code);
        violation_in(code, lower.as_str(), standard)
    }

    /// Reviews code against every standard covering the language, given the
    /// code and the language lower-cased: each breach costs its penalty from
    /// 100 points and adds its fixes to the suggestions.
    pub fn review_lowered(&self, code: &str, code_lower: &str, language: &str, lang_lower: &str) -> (r:
        CodeReviewResult)
        requires
            self.wf(),
        ensures
            ({
                let (p, vs, sg) = review_spec(self.table(), code@, code_lower@, lang_lower@);
                &&& p <= 100
                &&& r.overall_score == 100 - p
                &&& r.violations@.map_values(|v: StandardViolation| violation_view(v)) == vs
                &&& strings_view(r.suggestions@) == sg
                &&& r.tars_commentary@ == commentary_spec((100 - p) as nat, vs)
                &&& r.language@ == language@
            }),
    {
        assert(table_view(self.standards@).len() == self.standards@.len());
        assert(default_standards().len() == 4);
        assert(self.standards@.take(0) =~= Seq::<(String, EngineeringStandard)>::empty());
        let mut penalty: u32 = 0;
        let mut violations: Vec<StandardViolation> = Vec::new();
        let mut suggestions: Vec<String> = Vec::new();
        let mut i: usize = 0;
        while i < self.standards.len()
            invariant
                i <= self.standards@.len(),
                self.wf(),
                self.standards@.len() == 4,
                penalty <= 25 * i,
                ({
                    let (p, vs, sg) = review_spec(self.standards@.take(i as int), code@, code_lower@, lang_lower@);
                    &&& penalty == p
                    &&& violations@.map_values(|v: StandardViolation| violation_view(v)) == vs
                    &&& strings_view(suggestions@) == sg
                }),
            decreases self.standards@.len() - i,
        {
            proof {
                assert(table_view(self.standards@).len() == 4);
                let t = self.standards@.take(i + 1);
                assert(t.drop_last() =~= self.standards@.take(i as int));
            }
            let st = &self.standards[i].1;
            if applies_to_lowered(st, lang_lower) {
                match violation_in(code, code_lower, st) {
                    Some(v) => {
                        penalty = penalty + penalty_of(st.severity);
                        let ghost old_vs = violations@;
                        violations.push(v);
                        assert(violations@.map_values(|v: StandardViolation| violation_view(v)) =~=
                            old_vs.map_values(|v: StandardViolation| violation_view(v)).push(violation_view(v)));
                        let mut fixes = copy_strings(&st.fix_suggestions);
                        let ghost old_sg = suggestions@;
                        suggestions.append(&mut fixes);
                        assert(strings_view(suggestions@) =~= strings_view(old_sg) + strings_view(st.fix_suggestions@));
                    },
                    None => {},
                }
            }
            i = i + 1;
        }
        assert(self.standards@.take(self.standards@.len() as int) =~= self.standards@);
        let score = 100 - penalty;
        let commentary = generate_tars_review_commentary(score, &violations);
        CodeReviewResult {
            overall_score: score,
            violations,
            suggestions,
            tars_commentary: commentary,
            language: owned(language),
        }
    }

    /// Advice for each technology of a stack that TARS knows (React,
    /// Node.js, Rust), matched lower-cased, in stack order.
    pub fn get_stack_recommendations(&self, stack: &[&str]) -> (r: Vec<EngineeeringRecommendation>)
        ensures
            r@.map_values(|x: EngineeeringRecommendation| recommendation_view(x)) == recommendations_for(
                stack@.map_values(|s: &str| lowercase(s@)),
            ),
    {
        let ghost lowered = stack@.map_values(|s: &str| lowercase(s@));
        let mut r: Vec<EngineeeringRecommendation> = Vec::new();
        let mut i: usize = 0;
        while i < stack.len()
            invariant
                i <= stack@.len(),
                lowered == stack@.map_values(|s: &str| lowercase(s@)),
                r@.map_values(|x: EngineeeringRecommendation| recommendation_view(x)) == recommendations_for(
                    lowered.take(i as int),
                ),
            decreases stack@.len() - i,
        {
            let t = to_lower(stack[i]);
            let ghost old_r = r@;
            proof {
                assert(lowered.take(i + 1).drop_last() =~= lowered.take(i as int));
                assert(lowered.take(i + 1).last() == t@);
            }
            match recommendation_for_lowered(t.as_str()) {
                Some(x) => {
                    r.push(x);
                    assert(r@.map_values(|x: EngineeeringRecommendation| recommendation_view(x)) =~= old_r.map_values(
                        |x: EngineeeringRecommendation| recommendation_view(x),
                    ).push(recommendation_view(x)));
                },
                None => {},
            }
            i = i + 1;
        }
        assert(lowered.take(stack@.len() as int) =~= lowered);
        r
    }

    /// Reviews code written in `language` against TARS's standards.
    pub fn conduct_code_review(&self, code: &str, language: &str, context: &str) -> (r: CodeReviewResult)
        requires
            self.wf(),
        ensures
            ({
                let (p, vs, sg) = review_spec(self.table(), code@, lowercase(code@), lowercase(language@));
                &&& p <= 100
                &&& r.overall_score == 100 - p
                &&& r.violations@.map_values(|v: StandardViolation| violation_view(v)) == vs
                &&& strings_view(r.suggestions@) == sg
                &&& r.tars_commentary@ == commentary_spec((100 - p) as nat, vs)
                &&& r.language@ == language@
            }),
    {
        let lower = to_lower(code);
        let lang = to_lower(language);
        self.review_lowered(code, lower.as_str(), language, lang.as_str())
    }
}

/// Whether an entry of the table is breached by the code: it applies to the
/// language and finds something wrong.
pub open spec fn breached_by(code: Seq<char>, lower: Seq<char>, lang_lower: Seq<char>) -> spec_fn(
    (String, EngineeringStandard),
) -> bool {
    |e: (String, EngineeringStandard)| applies_to(e.1, lang_lower) && violation_description(e.1.name@, code, lower) is Some
}

/// The points the breached entries cost, together.
pub open spec fn penalty_total(v: Seq<(String, EngineeringStandard)>) -> nat
    decreases v.len(),
{
    if v.len() == 0 {
        0
    } else {
        penalty_total(v.drop_last()) + severity_penalty(v.last().1.severity)
    }
}

/// The fixes the breached entries suggest, one entry after another.
pub open spec fn suggestions_total(v: Seq<(String, EngineeringStandard)>) -> Seq<Seq<char>>
    decreases v.len(),
{
    if v.len() == 0 {
        Seq::empty()
    } else {
        suggestions_total(v.drop_last()) + strings_view(v.last().1.fix_suggestions@)
    }
}

/// The violation recorded for a breached entry.
pub open spec fn violation_entry(code: Seq<char>, lower: Seq<char>) -> spec_fn(
    (String, EngineeringStandard),
) -> (Seq<char>, Seq<char>, StandardSeverity, Seq<usize>) {
    |e: (String, EngineeringStandard)|
        (e.1.name@, violation_description(e.1.name@, code, lower)->0, e.1.severity, seq![1usize])
}

/// A review reports exactly one violation per breached standard, in table
/// order; it loses the points of each of them and no others, and suggests
/// the fixes of each of them in the same order.
pub proof fn law_review_counts_each_breach(
    t: Seq<(String, EngineeringStandard)>,
    code: Seq<char>,
    lower: Seq<char>,
    lang_lower: Seq<char>,
)
    ensures
        ({
            let b = t.filter(breached_by(code, lower, lang_lower));
            let (p, vs, sg) = review_spec(t, code, lower, lang_lower);
            &&& p == penalty_total(b)
            &&& vs == b.map_values(violation_entry(code, lower))
            &&& vs.len() == b.len()
            &&& sg == suggestions_total(b)
        }),
    decreases t.len(),
{
    let f = breached_by(code, lower, lang_lower);
    if t.len() == 0 {
        assert(t.filter(f) =~= Seq::<(String, EngineeringStandard)>::empty());
        assert(t.filter(f).map_values(violation_entry(code, lower)) =~= Seq::empty());
    } else {
        let init = t.drop_last();
        law_review_counts_each_breach(init, code, lower, lang_lower);
        assert(init.push(t.last()) =~= t);
        init.lemma_filter_push(t.last(), f);
        let bi = init.filter(f);
        if f(t.last()) {
            assert(t.filter(f) == bi.push(t.last()));
            assert(bi.push(t.last()).drop_last() =~= bi);
            assert(bi.push(t.last()).map_values(violation_entry(code, lower)) =~= bi.map_values(
                violation_entry(code, lower),
            ).push(violation_entry(code, lower)(t.last())));
        } else {
            assert(t.filter(f) == bi);
        }
    }
}

} // verus!
