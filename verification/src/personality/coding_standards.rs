//! The coding standards TARS briefs engineers on: the built-in table, the
//! queries over it, violation checks and the standards briefing.

use crate::text::{
    chars_of, contains_string, count_matches, decimal, find_from, fmt_u64, has_substring, join2, join3, lowercase,
    match_count, occurs_at, split_whitespace_chars, split_ws, str_contains, strings_view, svec1, svec4, to_lower,
};
use vstd::prelude::*;

verus! {

broadcast use vstd::string::group_string_axioms;

/// The concern a standard addresses.
#[derive(Debug, Clone, Copy, PartialEq, Eq, Structural)]
pub enum StandardCategory {
    Security,
    Performance,
    Maintainability,
    Reliability,
    Style,
    Architecture,
}

/// How serious a breach of a standard is.
#[derive(Debug, Clone, Copy, PartialEq, Eq, Structural)]
pub enum StandardSeverity {
    Critical,
    High,
    Medium,
    Low,
}

/// A code sample that follows or breaks a standard.
#[derive(Debug)]
pub struct CodeExample {
    pub language: String,
    pub code: String,
    pub explanation: String,
}

/// A coding standard.
#[derive(Debug)]
pub struct CodingStandard {
    pub id: String,
    pub name: String,
    pub category: StandardCategory,
    pub languages: Vec<String>,
    pub description: String,
    pub good_examples: Vec<CodeExample>,
    pub bad_examples: Vec<CodeExample>,
    pub rationale: String,
    pub severity: StandardSeverity,
}

/// A code sample as plain values.
pub struct ExampleView {
    pub language: Seq<char>,
    pub code: Seq<char>,
    pub explanation: Seq<char>,
}

/// A standard as plain values.
pub struct StandardView {
    pub id: Seq<char>,
    pub name: Seq<char>,
    pub category: StandardCategory,
    pub languages: Seq<Seq<char>>,
    pub description: Seq<char>,
    pub good_examples: Seq<ExampleView>,
    pub bad_examples: Seq<ExampleView>,
    pub rationale: Seq<char>,
    pub severity: StandardSeverity,
}

impl View for CodeExample {
    type V = ExampleView;

    open spec fn view(&self) -> ExampleView {
        ExampleView { language: self.language@, code: self.code@, explanation: self.explanation@ }
    }
}

/// The views of a sequence of code samples.
pub open spec fn examples_view(v: Seq<CodeExample>) -> Seq<ExampleView> {
    v.map_values(|e: CodeExample| e@)
}

impl View for CodingStandard {
    type V = StandardView;

    open spec fn view(&self) -> StandardView {
        StandardView {
            id: self.id@,
            name: self.name@,
            category: self.category,
            languages: strings_view(self.languages@),
            description: self.description@,
            good_examples: examples_view(self.good_examples@),
            bad_examples: examples_view(self.bad_examples@),
            rationale: self.rationale@,
            severity: self.severity,
        }
    }
}

/// The views of a sequence of standards.
pub open spec fn standards_view(v: Seq<CodingStandard>) -> Seq<StandardView> {
    v.map_values(|s: CodingStandard| s@)
}

impl Clone for CodeExample {
    fn clone(&self) -> (r: Self)
        ensures
            r@ == self@,
    {
        CodeExample { language: self.language.clone(), code: self.code.clone(), explanation: self.explanation.clone() }
    }
}

fn clone_strings(v: &Vec<String>) -> (r: Vec<String>)
    ensures
        strings_view(r@) == strings_view(v@),
{
    let mut r: Vec<String> = Vec::new();
    let mut i: usize = 0;
    while i < v.len()
        invariant
            i <= v@.len(),
            strings_view(r@) == strings_view(v@).take(i as int),
        decreases v@.len() - i,
    {
        let c = v[i].clone();
        let ghost before = r@;
        r.push(c);
        assert(strings_view(r@) =~= strings_view(before).push(v@[i as int]@));
        assert(strings_view(v@).take(i as int + 1) =~= strings_view(v@).take(i as int).push(v@[i as int]@));
        i = i + 1;
    }
    assert(strings_view(v@).take(v@.len() as int) =~= strings_view(v@));
    r
}

fn clone_examples(v: &Vec<CodeExample>) -> (r: Vec<CodeExample>)
    ensures
        examples_view(r@) == examples_view(v@),
{
    let mut r: Vec<CodeExample> = Vec::new();
    let mut i: usize = 0;
    while i < v.len()
        invariant
            i <= v@.len(),
            examples_view(r@) == examples_view(v@).take(i as int),
        decreases v@.len() - i,
    {
        let c = v[i].clone();
        let ghost before = r@;
        r.push(c);
        assert(examples_view(r@) =~= examples_view(before).push(v@[i as int]@));
        assert(examples_view(v@).take(i as int + 1) =~= examples_view(v@).take(i as int).push(v@[i as int]@));
        i = i + 1;
    }
    assert(examples_view(v@).take(v@.len() as int) =~= examples_view(v@));
    r
}

impl Clone for CodingStandard {
    fn clone(&self) -> (r: Self)
        ensures
            r@ == self@,
    {
        CodingStandard {
            id: self.id.clone(),
            name: self.name.clone(),
            category: self.category,
            languages: clone_strings(&self.languages),
            description: self.description.clone(),
            good_examples: clone_examples(&self.good_examples),
            bad_examples: clone_examples(&self.bad_examples),
            rationale: self.rationale.clone(),
            severity: self.severity,
        }
    }
}

/// The safe JavaScript input handler of the input-validation standard.
pub const INPUT_VALIDATION_GOOD_JS: &'static str = r#"
function processUserInput(input) {
    if (typeof input !== 'string' || input.length > 100) {
        throw new ValidationError('Invalid input format');
    }
    return sanitizeHTML(input.trim());
}"#;

/// The safe Rust input handler of the input-validation standard.
pub const INPUT_VALIDATION_GOOD_RUST: &'static str = r#"
fn process_user_input(input: &str) -> Result<String, ValidationError> {
    if input.len() > 100 {
        return Err(ValidationError::TooLong);
    }
    Ok(sanitize_html(input.trim()))
}"#;

/// The unsafe input handler of the input-validation standard.
pub const INPUT_VALIDATION_BAD_JS: &'static str = r#"
function processUserInput(input) {
    return eval(input); // DANGEROUS!
}"#;

/// The array-method sample of the loop standard.
pub const EFFICIENT_LOOPS_GOOD_JS: &'static str = r#"
// Use map for transformations
const doubled = numbers.map(n => n * 2);

// Use filter for filtering
const evens = numbers.filter(n => n % 2 === 0);

// Use reduce for aggregations
const sum = numbers.reduce((acc, n) => acc + n, 0);
"#;

/// The nested-loop sample of the loop standard.
pub const EFFICIENT_LOOPS_BAD_JS: &'static str = r#"
// Inefficient nested loops
for (let i = 0; i < arr1.length; i++) {
    for (let j = 0; j < arr2.length; j++) {
        if (arr1[i] === arr2[j]) {
            // O(n²) complexity when O(n) is possible
        }
    }
}
"#;

/// The well-named sample of the naming standard.
pub const DESCRIPTIVE_NAMING_GOOD_JS: &'static str = r#"
function calculateMonthlyInterestRate(annualRate, compoundingPeriods) {
    const monthlyRate = annualRate / (12 * compoundingPeriods);
    return monthlyRate;
}

const userAuthenticationToken = generateSecureToken();
const activeUserCount = countActiveUsers();
"#;

/// The cryptically named sample of the naming standard.
pub const DESCRIPTIVE_NAMING_BAD_JS: &'static str = r#"
function calc(r, p) {
    const x = r / (12 * p);
    return x;
}

const t = genTok();
const n = cnt();
"#;

/// The constructor-injection sample of the dependency-injection standard.
pub const DEPENDENCY_INJECTION_GOOD_TS: &'static str = r#"
class UserService {
    constructor(
        private userRepo: UserRepository,
        private logger: Logger,
        private emailService: EmailService
    ) {}
    
    async createUser(userData: UserData): Promise<User> {
        this.logger.info('Creating new user');
        const user = await this.userRepo.create(userData);
        await this.emailService.sendWelcomeEmail(user.email);
        return user;
    }
}
"#;

/// The hard-wired sample of the dependency-injection standard.
pub const DEPENDENCY_INJECTION_BAD_TS: &'static str = r#"
class UserService {
    async createUser(userData: UserData): Promise<User> {
        const userRepo = new DatabaseUserRepository(); // Hard dependency
        const logger = console; // Hard dependency
        const emailService = new SMTPEmailService(); // Hard dependency
        
        logger.log('Creating new user');
        const user = await userRepo.create(userData);
        await emailService.sendWelcomeEmail(user.email);
        return user;
    }
}
"#;

/// A code sample as plain values.
pub open spec fn example(language: Seq<char>, code: Seq<char>, explanation: Seq<char>) -> ExampleView {
    ExampleView { language, code, explanation }
}

/// The built-in standards, in the order they are defined.
pub open spec fn builtin_standards() -> Seq<StandardView> {
    seq![
        StandardView {
            id: "input_validation"@,
            name: "Input Validation"@,
            category: StandardCategory::Security,
            languages: seq!["*"@],
            description: "Always validate and sanitize user input to prevent injection attacks"@,
            good_examples: seq![
                example("javascript"@, INPUT_VALIDATION_GOOD_JS@, "Validates input type, length, and sanitizes content"@),
                example("rust"@, INPUT_VALIDATION_GOOD_RUST@, "Uses Result type for error handling and validates input"@),
            ],
            bad_examples: seq![
                example("javascript"@, INPUT_VALIDATION_BAD_JS@, "Directly executing user input without validation"@),
            ],
            rationale: "Prevents SQL injection, XSS, and code injection attacks"@,
            severity: StandardSeverity::Critical,
        },
        StandardView {
            id: "efficient_loops"@,
            name: "Efficient Loop Patterns"@,
            category: StandardCategory::Performance,
            languages: seq!["javascript"@, "typescript"@, "python"@],
            description: "Use appropriate loop constructs and avoid performance anti-patterns"@,
            good_examples: seq![
                example("javascript"@, EFFICIENT_LOOPS_GOOD_JS@, "Uses functional array methods for clarity and performance"@),
            ],
            bad_examples: seq![
                example("javascript"@, EFFICIENT_LOOPS_BAD_JS@, "Unnecessary O(n²) complexity - could use Set or Map for O(n)"@),
            ],
            rationale: "Improves performance and code readability"@,
            severity: StandardSeverity::Medium,
        },
        StandardView {
            id: "descriptive_naming"@,
            name: "Descriptive Naming"@,
            category: StandardCategory::Maintainability,
            languages: seq!["*"@],
            description: "Use clear, descriptive names for variables, functions, and classes"@,
            good_examples: seq![
                example("javascript"@, DESCRIPTIVE_NAMING_GOOD_JS@, "Names clearly express intent and purpose"@),
            ],
            bad_examples: seq![
                example("javascript"@, DESCRIPTIVE_NAMING_BAD_JS@, "Cryptic names that don't convey meaning"@),
            ],
            rationale: "Improves code readability and maintenance efficiency"@,
            severity: StandardSeverity::Medium,
        },
        StandardView {
            id: "dependency_injection"@,
            name: "Dependency Injection"@,
            category: StandardCategory::Architecture,
            languages: seq!["typescript"@, "java"@, "c#"@, "rust"@],
            description: "Use dependency injection to improve testability and modularity"@,
            good_examples: seq![
                example("typescript"@, DEPENDENCY_INJECTION_GOOD_TS@, "Dependencies injected through constructor, making testing easy"@),
            ],
            bad_examples: seq![
                example("typescript"@, DEPENDENCY_INJECTION_BAD_TS@, "Hard dependencies make testing difficult and reduce modularity"@),
            ],
            rationale: "Enables unit testing, reduces coupling, improves modularity"@,
            severity: StandardSeverity::High,
        },
    ]
}

fn code_example(language: &str, code: &str, explanation: &str) -> (e: CodeExample)
    ensures
        e@ == example(language@, code@, explanation@),
{
    CodeExample {
        language: String::from_str(language),
        code: String::from_str(code),
        explanation: String::from_str(explanation),
    }
}

fn examples1(a: CodeExample) -> (v: Vec<CodeExample>)
    ensures
        examples_view(v@) == seq![a@],
{
    let ghost va = a@;
    let mut v: Vec<CodeExample> = Vec::new();
    v.push(a);
    assert(examples_view(v@) =~= seq![va]);
    v
}

fn examples2(a: CodeExample, b: CodeExample) -> (v: Vec<CodeExample>)
    ensures
        examples_view(v@) == seq![a@, b@],
{
    let ghost va = a@;
    let ghost vb = b@;
    let mut v: Vec<CodeExample> = Vec::new();
    v.push(a);
    v.push(b);
    assert(examples_view(v@) =~= seq![va, vb]);
    v
}

/// The built-in standards: input validation, efficient loops, descriptive
/// naming and dependency injection.
pub fn initialize_coding_standards() -> (v: Vec<CodingStandard>)
    ensures
        standards_view(v@) == builtin_standards(),
{
    let mut v: Vec<CodingStandard> = Vec::new();
    v.push(CodingStandard {
        id: String::from_str("input_validation"),
        name: String::from_str("Input Validation"),
        category: StandardCategory::Security,
        languages: svec1("*"),
        description: String::from_str("Always validate and sanitize user input to prevent injection attacks"),
        good_examples: examples2(
            code_example("javascript", INPUT_VALIDATION_GOOD_JS, "Validates input type, length, and sanitizes content"),
            code_example("rust", INPUT_VALIDATION_GOOD_RUST, "Uses Result type for error handling and validates input"),
        ),
        bad_examples: examples1(
            code_example("javascript", INPUT_VALIDATION_BAD_JS, "Directly executing user input without validation"),
        ),
        rationale: String::from_str("Prevents SQL injection, XSS, and code injection attacks"),
        severity: StandardSeverity::Critical,
    });
    v.push(CodingStandard {
        id: String::from_str("efficient_loops"),
        name: String::from_str("Efficient Loop Patterns"),
        category: StandardCategory::Performance,
        languages: crate::text::svec3("javascript", "typescript", "python"),
        description: String::from_str("Use appropriate loop constructs and avoid performance anti-patterns"),
        good_examples: examples1(
            code_example("javascript", EFFICIENT_LOOPS_GOOD_JS, "Uses functional array methods for clarity and performance"),
        ),
        bad_examples: examples1(
            code_example("javascript", EFFICIENT_LOOPS_BAD_JS, "Unnecessary O(n²) complexity - could use Set or Map for O(n)"),
        ),
        rationale: String::from_str("Improves performance and code readability"),
        severity: StandardSeverity::Medium,
    });
    v.push(CodingStandard {
        id: String::from_str("descriptive_naming"),
        name: String::from_str("Descriptive Naming"),
        category: StandardCategory::Maintainability,
        languages: svec1("*"),
        description: String::from_str("Use clear, descriptive names for variables, functions, and classes"),
        good_examples: examples1(
            code_example("javascript", DESCRIPTIVE_NAMING_GOOD_JS, "Names clearly express intent and purpose"),
        ),
        bad_examples: examples1(
            code_example("javascript", DESCRIPTIVE_NAMING_BAD_JS, "Cryptic names that don't convey meaning"),
        ),
        rationale: String::from_str("Improves code readability and maintenance efficiency"),
        severity: StandardSeverity::Medium,
    });
    v.push(CodingStandard {
        id: String::from_str("dependency_injection"),
        name: String::from_str("Dependency Injection"),
        category: StandardCategory::Architecture,
        languages: svec4("typescript", "java", "c#", "rust"),
        description: String::from_str("Use dependency injection to improve testability and modularity"),
        good_examples: examples1(
            code_example("typescript", DEPENDENCY_INJECTION_GOOD_TS, "Dependencies injected through constructor, making testing easy"),
        ),
        bad_examples: examples1(
            code_example("typescript", DEPENDENCY_INJECTION_BAD_TS, "Hard dependencies make testing difficult and reduce modularity"),
        ),
        rationale: String::from_str("Enables unit testing, reduces coupling, improves modularity"),
        severity: StandardSeverity::High,
    });
    assert(standards_view(v@) =~= builtin_standards());
    v
}

/// Whether a standard covers a (lower-cased) language: it names the
/// language or the wildcard `*`.
pub open spec fn covers(s: StandardView, language: Seq<char>) -> bool {
    s.languages.contains("*"@) || s.languages.contains(language)
}

/// Whether a standard is critical or of high severity.
pub open spec fn is_critical(s: StandardView) -> bool {
    s.severity == StandardSeverity::Critical || s.severity == StandardSeverity::High
}

/// A choice of standards.
pub enum Selection {
    Language(String),
    Category(StandardCategory),
    Critical,
}

/// Whether a standard is chosen.
pub open spec fn selects(sel: Selection, s: StandardView) -> bool {
    match sel {
        Selection::Language(l) => covers(s, l@),
        Selection::Category(c) => s.category == c,
        Selection::Critical => is_critical(s),
    }
}

/// No two standards share an identifier.
pub open spec fn distinct_ids(t: Seq<StandardView>) -> bool {
    forall|i: int, j: int| 0 <= i < j < t.len() ==> t[i].id != t[j].id
}

/// Whether some standard has this identifier.
pub open spec fn has_id(t: Seq<StandardView>, id: Seq<char>) -> bool {
    exists|i: int| 0 <= i < t.len() && t[i].id == id
}

fn selected(sel: &Selection, s: &CodingStandard) -> (r: bool)
    ensures
        r == selects(*sel, s@),
{
    match sel {
        Selection::Language(l) => contains_string(&s.languages, "*") || contains_string(&s.languages, l.as_str()),
        Selection::Category(c) => s.category == *c,
        Selection::Critical => s.severity == StandardSeverity::Critical || s.severity == StandardSeverity::High,
    }
}

/// The chosen standards, in table order.
pub fn select_standards(v: &Vec<CodingStandard>, sel: &Selection) -> (r: Vec<CodingStandard>)
    ensures
        standards_view(r@) == standards_view(v@).filter(|s: StandardView| selects(*sel, s)),
{
    let ghost all = standards_view(v@);
    let ghost pred = |s: StandardView| selects(*sel, s);
    let mut r: Vec<CodingStandard> = Vec::new();
    let mut i: usize = 0;
    while i < v.len()
        invariant
            i <= v@.len(),
            all == standards_view(v@),
            pred == (|s: StandardView| selects(*sel, s)),
            standards_view(r@) == all.take(i as int).filter(pred),
        decreases v@.len() - i,
    {
        proof {
            assert(all.take(i as int + 1) =~= all.take(i as int).push(all[i as int]));
            all.take(i as int).lemma_filter_push(all[i as int], pred);
        }
        if selected(sel, &v[i]) {
            let c = v[i].clone();
            let ghost before = r@;
            r.push(c);
            assert(standards_view(r@) =~= standards_view(before).push(v@[i as int]@));
        }
        i = i + 1;
    }
    assert(all.take(v@.len() as int) =~= all);
    r
}

/// The severity marker of the briefing.
pub open spec fn severity_marker(s: StandardSeverity) -> Seq<char> {
    match s {
        StandardSeverity::Critical => "[CRITICAL]"@,
        StandardSeverity::High => "[HIGH]"@,
        StandardSeverity::Medium => "[MEDIUM]"@,
        StandardSeverity::Low => "[LOW]"@,
    }
}

/// A category's heading, upper case.
pub open spec fn category_heading(c: StandardCategory) -> Seq<char> {
    match c {
        StandardCategory::Security => "SECURITY"@,
        StandardCategory::Performance => "PERFORMANCE"@,
        StandardCategory::Maintainability => "MAINTAINABILITY"@,
        StandardCategory::Reliability => "RELIABILITY"@,
        StandardCategory::Style => "STYLE"@,
        StandardCategory::Architecture => "ARCHITECTURE"@,
    }
}

/// The two lines of a standard in the briefing.
pub open spec fn standard_entry(s: StandardView) -> Seq<char> {
    "  "@ + severity_marker(s.severity) + " "@ + s.name + "\n    "@ + s.description + "\n"@
}

/// The entries of the standards, in order.
pub open spec fn standard_entries(v: Seq<StandardView>) -> Seq<char>
    decreases v.len(),
{
    if v.len() == 0 {
        Seq::empty()
    } else {
        standard_entries(v.drop_last()) + standard_entry(v.last())
    }
}

/// The section of a category: nothing where no standard falls in it.
pub open spec fn category_section(c: StandardCategory, v: Seq<StandardView>) -> Seq<char> {
    let in_c = v.filter(|s: StandardView| s.category == c);
    if in_c.len() == 0 {
        Seq::empty()
    } else {
        "["@ + category_heading(c) + "] - "@ + decimal(in_c.len()) + " standards\n"@ + standard_entries(in_c) + "\n"@
    }
}

/// The briefing's opening line on a language.
pub open spec fn briefing_intro(language: Seq<char>, count: nat) -> Seq<char> {
    if count == 0 {
        "No specific standards found for "@ + language + ". Using universal standards.\n"@
    } else {
        "Standards for "@ + language + ": "@ + decimal(count) + " rules active\n\n"@
    }
}

/// The standards briefing for a language, over the standards covering it;
/// the categories come in the order security, performance,
/// maintainability, reliability, style, architecture.
pub open spec fn briefing(language: Seq<char>, v: Seq<StandardView>) -> Seq<char> {
    "ENGINEERING STANDARDS BRIEFING\n==============================\n\n"@ + briefing_intro(language, v.len())
        + category_section(StandardCategory::Security, v) + category_section(StandardCategory::Performance, v)
        + category_section(StandardCategory::Maintainability, v) + category_section(StandardCategory::Reliability, v)
        + category_section(StandardCategory::Style, v) + category_section(StandardCategory::Architecture, v)
        + "[MISSION PRIORITY] All critical and high-severity standards must be followed.\nEngineering excellence is non-negotiable.\n"@
}

fn marker_of(s: StandardSeverity) -> (m: &'static str)
    ensures
        m@ == severity_marker(s),
{
    match s {
        StandardSeverity::Critical => "[CRITICAL]",
        StandardSeverity::High => "[HIGH]",
        StandardSeverity::Medium => "[MEDIUM]",
        StandardSeverity::Low => "[LOW]",
    }
}

fn heading_of(c: StandardCategory) -> (h: &'static str)
    ensures
        h@ == category_heading(c),
{
    match c {
        StandardCategory::Security => "SECURITY",
        StandardCategory::Performance => "PERFORMANCE",
        StandardCategory::Maintainability => "MAINTAINABILITY",
        StandardCategory::Reliability => "RELIABILITY",
        StandardCategory::Style => "STYLE",
        StandardCategory::Architecture => "ARCHITECTURE",
    }
}

/// The title of a briefing followed by its introduction for `count` standards.
fn briefing_opening(language: &str, count: usize) -> (r: String)
    ensures
        r@ == "ENGINEERING STANDARDS BRIEFING\n==============================\n\n"@ + briefing_intro(language@, count as nat),
{
    let mut report = String::from_str("ENGINEERING STANDARDS BRIEFING\n==============================\n\n");
    if count == 0 {
        report.append("No specific standards found for ");
        report.append(language);
        report.append(". Using universal standards.\n");
    } else {
        let n = fmt_u64(count as u64);
        report.append("Standards for ");
        report.append(language);
        report.append(": ");
        report.append(n.as_str());
        report.append(" rules active\n\n");
    }
    report
}

/// Appends the closing lines of a briefing.
fn append_closing(report: &mut String)
    ensures
        final(report)@ == old(report)@
            + "[MISSION PRIORITY] All critical and high-severity standards must be followed.\nEngineering excellence is non-negotiable.\n"@,
{
    report.append("[MISSION PRIORITY] All critical and high-severity standards must be followed.\n");
    report.append("Engineering excellence is non-negotiable.\n");
    proof {
        reveal_strlit("[MISSION PRIORITY] All critical and high-severity standards must be followed.\n");
        reveal_strlit("Engineering excellence is non-negotiable.\n");
        reveal_strlit("[MISSION PRIORITY] All critical and high-severity standards must be followed.\nEngineering excellence is non-negotiable.\n");
    }
}

fn append_section(report: &mut String, c: StandardCategory, v: &Vec<CodingStandard>)
    ensures
        final(report)@ == old(report)@ + category_section(c, standards_view(v@)),
{
    let in_c = select_standards(v, &Selection::Category(c));
    assert(standards_view(v@).filter(|s: StandardView| selects(Selection::Category(c), s))
        =~= standards_view(v@).filter(|s: StandardView| s.category == c)) by {
        assert((|s: StandardView| selects(Selection::Category(c), s)) =~= (|s: StandardView| s.category == c));
    }
    if in_c.len() == 0 {
        assert(report@ =~= old(report)@ + category_section(c, standards_view(v@)));
        return;
    }
    let n = fmt_u64(in_c.len() as u64);
    report.append("[");
    report.append(heading_of(c));
    report.append("] - ");
    report.append(n.as_str());
    report.append(" standards\n");
    let ghost head = report@;
    let ghost entries = standards_view(in_c@);
    let mut i: usize = 0;
    while i < in_c.len()
        invariant
            i <= in_c@.len(),
            entries == standards_view(in_c@),
            report@ == head + standard_entries(entries.take(i as int)),
        decreases in_c@.len() - i,
    {
        assert(entries.take(i as int + 1).drop_last() =~= entries.take(i as int));
        report.append("  ");
        report.append(marker_of(in_c[i].severity));
        report.append(" ");
        report.append(in_c[i].name.as_str());
        report.append("\n    ");
        report.append(in_c[i].description.as_str());
        report.append("\n");
        i = i + 1;
    }
    assert(entries.take(in_c@.len() as int) =~= entries);
    report.append("\n");
}

/// The messages of the breaches of a standard found in `code`.
pub open spec fn violations_for(id: Seq<char>, code: Seq<char>, lowered: Seq<char>) -> Seq<Seq<char>> {
    if id == "input_validation"@ {
        (if has_substring(lowered, "eval("@) {
            seq!["Use of eval() function detected - major security risk"@]
        } else {
            Seq::empty()
        }) + (if has_substring(lowered, "innerhtml ="@) {
            seq!["Direct innerHTML assignment without sanitization"@]
        } else {
            Seq::empty()
        })
    } else if id == "efficient_loops"@ {
        if occurs_twice(code, "for ("@) {
            seq!["Nested loops detected - consider using more efficient algorithms"@]
        } else {
            Seq::empty()
        }
    } else if id == "descriptive_naming"@ {
        if has_substring(code, " x "@) || has_substring(code, " i "@) || has_substring(code, " j "@) {
            seq!["Single-letter variable names found - use descriptive names"@]
        } else {
            Seq::empty()
        }
    } else {
        Seq::empty()
    }
}

/// `pat` occurs at two different places of `s`. For a pattern such as
/// "for (", no two occurrences can overlap, so this is the count of its
/// matches exceeding one.
pub open spec fn occurs_twice(s: Seq<char>, pat: Seq<char>) -> bool {
    exists|i: int, j: int| 0 <= i < j && occurs_at(s, pat, i) && occurs_at(s, pat, j)
}

fn occurs_twice_exec(s: &Vec<char>, pat: &Vec<char>) -> (r: bool)
    requires
        pat@.len() > 0,
    ensures
        r == occurs_twice(s@, pat@),
{
    match find_from(s, pat, 0) {
        Some(i) => {
            assert(occurs_at(s@, pat@, i as int));
            assert(i < s@.len());
            assert(s@.len() == s.len());
            match find_from(s, pat, i + 1) {
                Some(j) => {
                    assert(occurs_at(s@, pat@, i as int) && occurs_at(s@, pat@, j as int));
                    true
                },
                None => {
                    assert(!occurs_twice(s@, pat@)) by {
                        if occurs_twice(s@, pat@) {
                            let (a, b) = choose|a: int, b: int|
                                0 <= a < b && occurs_at(s@, pat@, a) && occurs_at(s@, pat@, b);
                            assert(!occurs_at(s@, pat@, a) || a >= i);
                        }
                    }
                    false
                },
            }
        },
        None => {
            assert(!occurs_twice(s@, pat@)) by {
                if occurs_twice(s@, pat@) {
                    let (a, b) = choose|a: int, b: int|
                        0 <= a < b && occurs_at(s@, pat@, a) && occurs_at(s@, pat@, b);
                    assert(!occurs_at(s@, pat@, a));
                }
            }
            false
        },
    }
}

/// The suggestions drawn from a standard's good samples.
pub open spec fn suggestions_for(s: StandardView) -> Seq<Seq<char>> {
    s.good_examples.map_values(|e: ExampleView| "Consider: "@ + e.explanation)
}

/// The text counted as a short identifier when naming is scored: the
/// literal characters `\b[a-z]{1,2}\b`.
pub open spec fn short_name_pattern() -> Seq<char> {
    "\\b[a-z]{1,2}\\b"@
}

/// How well `code` follows the standard `id`, in thousandths: for input
/// validation 0.8 if it validates or sanitizes, else 0.2 if it uses eval or
/// innerHTML, else 0.5; for loop efficiency 0.8 if it maps, filters or
/// reduces, else 0.3 if it loops with `for`, else 0.6 (all matched
/// lower-cased); for naming 1 less the share of short-identifier matches
/// among its whitespace-separated words (at least one word counted), rounded
/// up to a thousandth; 0.5 for any other standard.
pub open spec fn compliance_score(id: Seq<char>, code: Seq<char>, lowered: Seq<char>) -> int {
    if id == "input_validation"@ {
        if has_substring(lowered, "validate"@) || has_substring(lowered, "sanitize"@) {
            800
        } else if has_substring(lowered, "eval"@) || has_substring(lowered, "innerhtml"@) {
            200
        } else {
            500
        }
    } else if id == "efficient_loops"@ {
        if has_substring(lowered, "map"@) || has_substring(lowered, "filter"@) || has_substring(lowered, "reduce"@) {
            800
        } else if has_substring(lowered, "for"@) {
            300
        } else {
            600
        }
    } else if id == "descriptive_naming"@ {
        let words = if split_ws(code).len() == 0 { 1 } else { split_ws(code).len() };
        1000 - (1000 * match_count(code, short_name_pattern())) / words
    } else {
        500
    }
}

/// How well a piece of code follows one standard: the score in thousandths,
/// whether it is above 0.7, the breaches found and the suggestions made.
#[derive(Debug, Clone)]
pub struct StandardComplianceResult {
    pub standard_id: String,
    pub standard_name: String,
    pub compliant: bool,
    pub score_milli: i128,
    pub violations: Vec<String>,
    pub suggestions: Vec<String>,
}

/// Whether `r` reports how `code` follows the standard `s`.
pub open spec fn is_compliance_report(r: StandardComplianceResult, s: StandardView, code: Seq<char>) -> bool {
    &&& r.standard_id@ == s.id
    &&& r.standard_name@ == s.name
    &&& r.score_milli == compliance_score(s.id, code, lowercase(code))
    &&& r.compliant == (r.score_milli > 700)
    &&& strings_view(r.violations@) == violations_for(s.id, code, lowercase(code))
    &&& strings_view(r.suggestions@) == suggestions_for(s)
}

/// Whether `r` reports that no standard `id` is known.
pub open spec fn is_unknown_standard_report(r: StandardComplianceResult, id: Seq<char>) -> bool {
    &&& r.standard_id@ == id
    &&& r.standard_name@ == "Unknown Standard"@
    &&& !r.compliant
    &&& r.score_milli == 0
    &&& strings_view(r.violations@) == seq!["Standard not found"@]
    &&& strings_view(r.suggestions@) == seq!["Verify standard ID"@]
}

/// No more matches than characters.
proof fn lemma_match_count_bound(s: Seq<char>, pat: Seq<char>)
    ensures
        match_count(s, pat) <= s.len(),
    decreases s.len(),
{
    if pat.len() > 0 && s.len() >= pat.len() {
        if s.subrange(0, pat.len() as int) == pat {
            lemma_match_count_bound(s.skip(pat.len() as int), pat);
        } else {
            lemma_match_count_bound(s.skip(1), pat);
        }
    }
}

/// The coding standards TARS knows, identifiers unique.
pub struct CodingStandardsEngine {
    standards: Vec<CodingStandard>,
}

impl CodingStandardsEngine {
    /// The standards, in the order they were added.
    pub closed spec fn table(&self) -> Seq<StandardView> {
        standards_view(self.standards@)
    }

    /// A fresh engine over the built-in standards.
    pub fn new() -> (e: Self)
        ensures
            e.table() == builtin_standards(),
    {
        CodingStandardsEngine { standards: initialize_coding_standards() }
    }

    /// Every standard, in order.
    pub fn all_standards(&self) -> (r: &Vec<CodingStandard>)
        ensures
            standards_view(r@) == self.table(),
    {
        &self.standards
    }

    /// The standards covering a language, compared lower-cased.
    pub fn get_standards_for_language(&self, language: &str) -> (r: Vec<CodingStandard>)
        ensures
            standards_view(r@) == self.table().filter(|s: StandardView| covers(s, lowercase(language@))),
    {
        let l = to_lower(language);
        let sel = Selection::Language(l);
        let r = select_standards(&self.standards, &sel);
        assert((|s: StandardView| selects(sel, s)) =~= (|s: StandardView| covers(s, lowercase(language@))));
        r
    }

    /// The standards of a category.
    pub fn get_standards_by_category(&self, category: StandardCategory) -> (r: Vec<CodingStandard>)
        ensures
            standards_view(r@) == self.table().filter(|s: StandardView| s.category == category),
    {
        let sel = Selection::Category(category);
        let r = select_standards(&self.standards, &sel);
        assert((|s: StandardView| selects(sel, s)) =~= (|s: StandardView| s.category == category));
        r
    }

    /// The critical and high-severity standards.
    pub fn get_critical_standards(&self) -> (r: Vec<CodingStandard>)
        ensures
            standards_view(r@) == self.table().filter(|s: StandardView| is_critical(s)),
    {
        let sel = Selection::Critical;
        let r = select_standards(&self.standards, &sel);
        assert((|s: StandardView| selects(sel, s)) =~= (|s: StandardView| is_critical(s)));
        r
    }

    /// The standard with an identifier, if any.
    pub fn find_standard(&self, id: &str) -> (r: Option<&CodingStandard>)
        ensures
            match r {
                Some(s) => exists|i: int| 0 <= i < self.table().len() && self.table()[i] == s@ && s@.id == id@,
                None => !has_id(self.table(), id@),
            },
    {
        let mut i: usize = 0;
        while i < self.standards.len()
            invariant
                i <= self.standards@.len(),
                forall|j: int| 0 <= j < i ==> self.table()[j].id != id@,
            decreases self.standards@.len() - i,
        {
            assert(self.table()[i as int] == self.standards@[i as int]@);
            if crate::text::str_equal(self.standards[i].id.as_str(), id) {
                return Some(&self.standards[i]);
            }
            i = i + 1;
        }
        None
    }

    /// Adds a standard; one whose identifier is taken is refused with
    /// "Standard with ID '<id>' already exists".
    pub fn add_custom_standard(&mut self, standard: CodingStandard) -> (r: Result<(), String>)
        ensures
            r is Err <==> has_id(old(self).table(), standard@.id),
            r is Ok ==> final(self).table() == old(self).table().push(standard@),
            r matches Err(m) ==> m@ == "Standard with ID '"@ + standard@.id + "' already exists"@
                && final(self).table() == old(self).table(),
    {
        match self.find_standard(standard.id.as_str()) {
            Some(_) => Err(join3("Standard with ID '", standard.id.as_str(), "' already exists")),
            None => {
                let ghost before = self.standards@;
                self.standards.push(standard);
                assert(standards_view(self.standards@) =~= standards_view(before).push(standard@));
                Ok(())
            },
        }
    }

    /// The standards briefing for a language.
    pub fn generate_tars_standards_report(&self, language: &str) -> (r: String)
        ensures
            r@ == briefing(language@, self.table().filter(|s: StandardView| covers(s, lowercase(language@)))),
            ({
                let v = self.table().filter(|s: StandardView| covers(s, lowercase(language@)));
                &&& r@.subrange(0, "ENGINEERING STANDARDS BRIEFING\n"@.len() as int) == "ENGINEERING STANDARDS BRIEFING\n"@
                &&& v.len() == 0 ==> has_substring(r@, "No specific standards found for "@ + language@ + ". Using universal standards."@)
                &&& v.len() > 0 ==> has_substring(r@, "Standards for "@ + language@ + ": "@ + decimal(v.len()) + " rules active"@)
                &&& forall|k: int| 0 <= k < v.len() ==> has_substring(r@, #[trigger] v[k].name)
                &&& r@.subrange(r@.len() - "Engineering excellence is non-negotiable.\n"@.len(), r@.len() as int)
                    == "Engineering excellence is non-negotiable.\n"@
            }),
    {
        let chosen = self.get_standards_for_language(language);
        let mut report = briefing_opening(language, chosen.len());
        let ghost opening = report@;
        append_section(&mut report, StandardCategory::Security, &chosen);
        append_section(&mut report, StandardCategory::Performance, &chosen);
        append_section(&mut report, StandardCategory::Maintainability, &chosen);
        append_section(&mut report, StandardCategory::Reliability, &chosen);
        append_section(&mut report, StandardCategory::Style, &chosen);
        append_section(&mut report, StandardCategory::Architecture, &chosen);
        append_closing(&mut report);
        assert(report@ =~= briefing(language@, standards_view(chosen@)));
        proof {
            law_briefing_names_every_standard(language@, standards_view(chosen@));
        }
        report
    }

    /// The breaches of a standard found in `code`: `eval(` or an
    /// `innerHTML =` assignment for input validation (matched lower-cased),
    /// two `for (` loops for loop efficiency, ` x `, ` i ` or ` j ` for
    /// naming; nothing for other standards.
    pub fn find_violations(&self, code: &str, standard: &CodingStandard) -> (r: Vec<String>)
        ensures
            strings_view(r@) == violations_for(standard@.id, code@, lowercase(code@)),
    {
        let lower = to_lower(code);
        let lowered = chars_of(lower.as_str());
        let text = chars_of(code);
        let mut r: Vec<String> = Vec::new();
        let id = standard.id.as_str();
        if crate::text::str_equal(id, "input_validation") {
            if crate::text::contains_chars(&lowered, &chars_of("eval(")) {
                crate::text::push_line(&mut r, String::from_str("Use of eval() function detected - major security risk"));
            }
            let ghost first = strings_view(r@);
            if crate::text::contains_chars(&lowered, &chars_of("innerhtml =")) {
                crate::text::push_line(&mut r, String::from_str("Direct innerHTML assignment without sanitization"));
            }
            assert(strings_view(r@) =~= violations_for(standard@.id, code@, lowercase(code@)));
        } else if crate::text::str_equal(id, "efficient_loops") {
            let pat = chars_of("for (");
            proof {
                reveal_strlit("for (");
            }
            if occurs_twice_exec(&text, &pat) {
                crate::text::push_line(
                    &mut r,
                    String::from_str("Nested loops detected - consider using more efficient algorithms"),
                );
            }
            assert(strings_view(r@) =~= violations_for(standard@.id, code@, lowercase(code@)));
        } else if crate::text::str_equal(id, "descriptive_naming") {
            if crate::text::str_contains(code, " x ") || crate::text::str_contains(code, " i ")
                || crate::text::str_contains(code, " j ") {
                crate::text::push_line(
                    &mut r,
                    String::from_str("Single-letter variable names found - use descriptive names"),
                );
            }
            assert(strings_view(r@) =~= violations_for(standard@.id, code@, lowercase(code@)));
        } else {
            assert(strings_view(r@) =~= violations_for(standard@.id, code@, lowercase(code@)));
        }
        r
    }

    /// How well `code` follows `standard`, in thousandths.
    fn calculate_compliance_score(&self, code: &str, standard: &CodingStandard) -> (score: i128)
        ensures
            score == compliance_score(standard@.id, code@, lowercase(code@)),
    {
        let lower = to_lower(code);
        let l = lower.as_str();
        let id = standard.id.as_str();
        if crate::text::str_equal(id, "input_validation") {
            if str_contains(l, "validate") || str_contains(l, "sanitize") {
                800
            } else if str_contains(l, "eval") || str_contains(l, "innerhtml") {
                200
            } else {
                500
            }
        } else if crate::text::str_equal(id, "efficient_loops") {
            if str_contains(l, "map") || str_contains(l, "filter") || str_contains(l, "reduce") {
                800
            } else if str_contains(l, "for") {
                300
            } else {
                600
            }
        } else if crate::text::str_equal(id, "descriptive_naming") {
            proof {
                reveal_strlit("\\b[a-z]{1,2}\\b");
                lemma_match_count_bound(code@, short_name_pattern());
            }
            let short = count_matches(code, "\\b[a-z]{1,2}\\b");
            let words = split_whitespace_chars(code);
            let total: usize = if words.len() == 0 { 1 } else { words.len() };
            let v = chars_of(code);
            assert(short <= v@.len());
            let share: u128 = (short as u128 * 1000) / (total as u128);
            assert(share <= short * 1000) by (nonlinear_arith)
                requires share == (short * 1000) / (total as int), total >= 1;
            1000 - share as i128
        } else {
            500
        }
    }

    /// How `code` follows the standard `standard_id`: its score, whether
    /// that is above 0.7, its breaches and the standard's suggestions; for an
    /// unknown identifier a non-compliant "Unknown Standard" report with a
    /// score of 0.
    pub fn check_standard_compliance(&self, code: &str, standard_id: &str) -> (r: StandardComplianceResult)
        ensures
            has_id(self.table(), standard_id@) ==> exists|i: int|
                0 <= i < self.table().len() && self.table()[i].id == standard_id@
                    && is_compliance_report(r, self.table()[i], code@),
            !has_id(self.table(), standard_id@) ==> is_unknown_standard_report(r, standard_id@),
    {
        match self.find_standard(standard_id) {
            Some(standard) => {
                let score = self.calculate_compliance_score(code, standard);
                StandardComplianceResult {
                    standard_id: String::from_str(standard_id),
                    standard_name: standard.name.clone(),
                    compliant: score > 700,
                    score_milli: score,
                    violations: self.find_violations(code, standard),
                    suggestions: self.generate_suggestions(code, standard),
                }
            },
            None => StandardComplianceResult {
                standard_id: String::from_str(standard_id),
                standard_name: String::from_str("Unknown Standard"),
                compliant: false,
                score_milli: 0,
                violations: svec1("Standard not found"),
                suggestions: svec1("Verify standard ID"),
            },
        }
    }

    /// One suggestion per good sample of the standard: "Consider: " and
    /// the sample's explanation.
    pub fn generate_suggestions(&self, code: &str, standard: &CodingStandard) -> (r: Vec<String>)
        ensures
            strings_view(r@) == suggestions_for(standard@),
    {
        let mut r: Vec<String> = Vec::new();
        let mut i: usize = 0;
        while i < standard.good_examples.len()
            invariant
                i <= standard.good_examples@.len(),
                strings_view(r@) == suggestions_for(standard@).take(i as int),
            decreases standard.good_examples@.len() - i,
        {
            let line = join2("Consider: ", standard.good_examples[i].explanation.as_str());
            crate::text::push_line(&mut r, line);
            assert(suggestions_for(standard@).take(i as int + 1) =~= suggestions_for(standard@).take(i as int).push(
                "Consider: "@ + standard.good_examples@[i as int].explanation@,
            ));
            i = i + 1;
        }
        assert(suggestions_for(standard@).take(standard.good_examples@.len() as int) =~= suggestions_for(standard@));
        r
    }
}

/// The built-in identifiers are distinct.
pub proof fn law_builtin_ids_distinct()
    ensures
        distinct_ids(builtin_standards()),
{
    reveal_strlit("input_validation");
    reveal_strlit("efficient_loops");
    reveal_strlit("descriptive_naming");
    reveal_strlit("dependency_injection");
    let t = builtin_standards();
    assert(t[0].id.len() == 16 && t[1].id.len() == 15 && t[2].id.len() == 18 && t[3].id.len() == 20);
    assert forall|i: int, j: int| 0 <= i < j < t.len() implies t[i].id != t[j].id by {
        assert(t[i].id.len() != t[j].id.len());
    }
}

/// Adding a standard keeps identifiers distinct: a refused one changes
/// nothing, an accepted one brings an identifier not yet present.
pub proof fn law_add_keeps_ids_distinct(before: Seq<StandardView>, s: StandardView)
    requires
        distinct_ids(before),
        !has_id(before, s.id),
    ensures
        distinct_ids(before.push(s)),
{
    assert forall|i: int, j: int| 0 <= i < j < before.push(s).len() implies before.push(s)[i].id != before.push(s)[j].id by {
        if j == before.len() {
            assert(before[i].id != s.id);
        }
    }
}

/// A standard for every language (`*`) is in every language's selection.
pub proof fn law_wildcard_standards_cover_all(t: Seq<StandardView>, language: Seq<char>, i: int)
    requires
        0 <= i < t.len(),
        t[i].languages.contains("*"@),
    ensures
        t.filter(|s: StandardView| covers(s, language)).contains(t[i]),
{
    broadcast use vstd::seq_lib::group_filter_ensures;
    assert(covers(t[i], language));
}

proof fn lemma_substring_in_middle(a: Seq<char>, b: Seq<char>, c: Seq<char>, pat: Seq<char>)
    requires
        has_substring(b, pat),
    ensures
        has_substring(a + b + c, pat),
{
    let i = choose|i: int| occurs_at(b, pat, i);
    assert((a + b + c).subrange(a.len() + i, a.len() + i + pat.len()) =~= b.subrange(i, i + pat.len()));
    assert(occurs_at(a + b + c, pat, a.len() + i));
}

proof fn lemma_entries_name_each(w: Seq<StandardView>, k: int)
    requires
        0 <= k < w.len(),
    ensures
        has_substring(standard_entries(w), w[k].name),
    decreases w.len(),
{
    let init = w.drop_last();
    if k == w.len() - 1 {
        let s = w.last();
        let head = standard_entries(init) + ("  "@ + severity_marker(s.severity) + " "@);
        let tail = "\n    "@ + s.description + "\n"@;
        assert(occurs_at(s.name, s.name, 0)) by {
            assert(s.name.subrange(0, s.name.len() as int) =~= s.name);
        }
        lemma_substring_in_middle(head, s.name, tail, s.name);
        assert(standard_entries(w) =~= head + s.name + tail);
    } else {
        lemma_entries_name_each(init, k);
        assert(init[k] == w[k]);
        lemma_substring_in_middle(Seq::empty(), standard_entries(init), standard_entry(w.last()), w[k].name);
        assert(standard_entries(w) =~= Seq::<char>::empty() + standard_entries(init) + standard_entry(w.last()));
    }
}

proof fn lemma_section_names_each(c: StandardCategory, v: Seq<StandardView>, k: int)
    requires
        0 <= k < v.len(),
        v[k].category == c,
    ensures
        has_substring(category_section(c, v), v[k].name),
{
    let pred = |s: StandardView| s.category == c;
    let in_c = v.filter(pred);
    v.lemma_filter_contains(pred, k);
    let j = choose|j: int| 0 <= j < in_c.len() && in_c[j] == v[k];
    lemma_entries_name_each(in_c, j);
    let head = "["@ + category_heading(c) + "] - "@ + decimal(in_c.len()) + " standards\n"@;
    lemma_substring_in_middle(head, standard_entries(in_c), "\n"@, v[k].name);
    assert(category_section(c, v) =~= head + standard_entries(in_c) + "\n"@);
}

proof fn lemma_substring_left(x: Seq<char>, y: Seq<char>, pat: Seq<char>)
    requires
        has_substring(x, pat),
    ensures
        has_substring(x + y, pat),
{
    let i = choose|i: int| occurs_at(x, pat, i);
    assert((x + y).subrange(i, i + pat.len()) =~= x.subrange(i, i + pat.len()));
    assert(occurs_at(x + y, pat, i));
}

proof fn lemma_substring_right(x: Seq<char>, y: Seq<char>, pat: Seq<char>)
    requires
        has_substring(y, pat),
    ensures
        has_substring(x + y, pat),
{
    lemma_substring_in_middle(x, y, Seq::empty(), pat);
    assert(x + y + Seq::<char>::empty() =~= x + y);
}

proof fn lemma_prefix_kept(z: Seq<char>, y: Seq<char>, x: Seq<char>)
    requires
        x.len() <= z.len(),
        z.subrange(0, x.len() as int) == x,
    ensures
        (z + y).subrange(0, x.len() as int) == x,
{
    assert((z + y).subrange(0, x.len() as int) =~= z.subrange(0, x.len() as int));
}

proof fn lemma_whole_is_substring(x: Seq<char>)
    ensures
        has_substring(x, x),
{
    assert(x.subrange(0, x.len() as int) =~= x);
    assert(occurs_at(x, x, 0));
}

/// The briefing up to and including its category sections.
spec fn briefing_body(language: Seq<char>, v: Seq<StandardView>) -> Seq<char> {
    "ENGINEERING STANDARDS BRIEFING\n==============================\n\n"@ + briefing_intro(language, v.len())
        + category_section(StandardCategory::Security, v) + category_section(StandardCategory::Performance, v)
        + category_section(StandardCategory::Maintainability, v) + category_section(StandardCategory::Reliability, v)
        + category_section(StandardCategory::Style, v) + category_section(StandardCategory::Architecture, v)
}

proof fn lemma_body_names_each(language: Seq<char>, v: Seq<StandardView>, k: int)
    requires
        0 <= k < v.len(),
    ensures
        has_substring(briefing_body(language, v), v[k].name),
{
    let t = "ENGINEERING STANDARDS BRIEFING\n==============================\n\n"@;
    let p0 = t + briefing_intro(language, v.len());
    let s1 = category_section(StandardCategory::Security, v);
    let s2 = category_section(StandardCategory::Performance, v);
    let s3 = category_section(StandardCategory::Maintainability, v);
    let s4 = category_section(StandardCategory::Reliability, v);
    let s5 = category_section(StandardCategory::Style, v);
    let s6 = category_section(StandardCategory::Architecture, v);
    let n = v[k].name;
    lemma_section_names_each(v[k].category, v, k);
    if v[k].category == StandardCategory::Security {
        lemma_substring_right(p0, s1, n);
    }
    if v[k].category == StandardCategory::Security {
        lemma_substring_left(p0 + s1, s2, n);
    } else if v[k].category == StandardCategory::Performance {
        lemma_substring_right(p0 + s1, s2, n);
    }
    let p2 = p0 + s1 + s2;
    if v[k].category == StandardCategory::Security || v[k].category == StandardCategory::Performance {
        lemma_substring_left(p2, s3, n);
    } else if v[k].category == StandardCategory::Maintainability {
        lemma_substring_right(p2, s3, n);
    }
    let p3 = p2 + s3;
    if v[k].category == StandardCategory::Reliability {
        lemma_substring_right(p3, s4, n);
    } else if v[k].category == StandardCategory::Security || v[k].category == StandardCategory::Performance
        || v[k].category == StandardCategory::Maintainability {
        lemma_substring_left(p3, s4, n);
    }
    let p4 = p3 + s4;
    if v[k].category == StandardCategory::Style {
        lemma_substring_right(p4, s5, n);
    } else if v[k].category != StandardCategory::Architecture {
        lemma_substring_left(p4, s5, n);
    }
    let p5 = p4 + s5;
    if v[k].category == StandardCategory::Architecture {
        lemma_substring_right(p5, s6, n);
    } else {
        lemma_substring_left(p5, s6, n);
    }
}

proof fn lemma_body_opens_with_title(language: Seq<char>, v: Seq<StandardView>)
    ensures
        briefing_body(language, v).subrange(0, "ENGINEERING STANDARDS BRIEFING\n==============================\n\n"@.len() as int)
            == "ENGINEERING STANDARDS BRIEFING\n==============================\n\n"@,
        has_substring(briefing_body(language, v), briefing_intro(language, v.len())),
{
    let t = "ENGINEERING STANDARDS BRIEFING\n==============================\n\n"@;
    let intro = briefing_intro(language, v.len());
    assert(t.subrange(0, t.len() as int) =~= t);
    lemma_prefix_kept(t, intro, t);
    let p0 = t + intro;
    let s1 = category_section(StandardCategory::Security, v);
    let s2 = category_section(StandardCategory::Performance, v);
    let s3 = category_section(StandardCategory::Maintainability, v);
    let s4 = category_section(StandardCategory::Reliability, v);
    let s5 = category_section(StandardCategory::Style, v);
    let s6 = category_section(StandardCategory::Architecture, v);
    lemma_prefix_kept(p0, s1, t);
    lemma_prefix_kept(p0 + s1, s2, t);
    lemma_prefix_kept(p0 + s1 + s2, s3, t);
    lemma_prefix_kept(p0 + s1 + s2 + s3, s4, t);
    lemma_prefix_kept(p0 + s1 + s2 + s3 + s4, s5, t);
    lemma_prefix_kept(p0 + s1 + s2 + s3 + s4 + s5, s6, t);
    lemma_whole_is_substring(intro);
    lemma_substring_right(t, intro, intro);
    lemma_substring_left(p0, s1, intro);
    lemma_substring_left(p0 + s1, s2, intro);
    lemma_substring_left(p0 + s1 + s2, s3, intro);
    lemma_substring_left(p0 + s1 + s2 + s3, s4, intro);
    lemma_substring_left(p0 + s1 + s2 + s3 + s4, s5, intro);
    lemma_substring_left(p0 + s1 + s2 + s3 + s4 + s5, s6, intro);
}

/// A briefing opens with its title, says how many standards cover the
/// language (or that none does), names every standard it was given, and
/// closes with the mission-priority lines.
pub proof fn law_briefing_names_every_standard(language: Seq<char>, v: Seq<StandardView>)
    ensures
        ({
            let b = briefing(language, v);
            let title = "ENGINEERING STANDARDS BRIEFING\n==============================\n\n"@;
            let closing = "[MISSION PRIORITY] All critical and high-severity standards must be followed.\nEngineering excellence is non-negotiable.\n"@;
            &&& b.subrange(0, title.len() as int) == title
            &&& b.subrange(b.len() - closing.len(), b.len() as int) == closing
            &&& has_substring(b, briefing_intro(language, v.len()))
            &&& forall|k: int| 0 <= k < v.len() ==> has_substring(b, #[trigger] v[k].name)
            &&& b.subrange(0, "ENGINEERING STANDARDS BRIEFING\n"@.len() as int) == "ENGINEERING STANDARDS BRIEFING\n"@
            &&& b.subrange(b.len() - "Engineering excellence is non-negotiable.\n"@.len(), b.len() as int)
                == "Engineering excellence is non-negotiable.\n"@
            &&& v.len() == 0 ==> has_substring(b, "No specific standards found for "@ + language + ". Using universal standards."@)
            &&& v.len() > 0 ==> has_substring(b, "Standards for "@ + language + ": "@ + decimal(v.len()) + " rules active"@)
        }),
{
    let title = "ENGINEERING STANDARDS BRIEFING\n==============================\n\n"@;
    let closing = "[MISSION PRIORITY] All critical and high-severity standards must be followed.\nEngineering excellence is non-negotiable.\n"@;
    let body = briefing_body(language, v);
    let b = briefing(language, v);
    assert(b == body + closing);
    lemma_body_opens_with_title(language, v);
    lemma_prefix_kept(body, closing, title);
    assert(b.subrange(b.len() - closing.len(), b.len() as int) =~= closing);
    lemma_substring_left(body, closing, briefing_intro(language, v.len()));
    assert forall|k: int| 0 <= k < v.len() implies has_substring(b, #[trigger] v[k].name) by {
        lemma_body_names_each(language, v, k);
        lemma_substring_left(body, closing, v[k].name);
    }
    lemma_briefing_literals(language, v, b, title, closing);
}

proof fn lemma_briefing_literals(language: Seq<char>, v: Seq<StandardView>, b: Seq<char>, title: Seq<char>, closing: Seq<char>)
    requires
        title == "ENGINEERING STANDARDS BRIEFING\n==============================\n\n"@,
        closing == "[MISSION PRIORITY] All critical and high-severity standards must be followed.\nEngineering excellence is non-negotiable.\n"@,
        b.len() >= title.len() + closing.len(),
        b.subrange(0, title.len() as int) == title,
        b.subrange(b.len() - closing.len(), b.len() as int) == closing,
        has_substring(b, briefing_intro(language, v.len())),
    ensures
        b.subrange(0, "ENGINEERING STANDARDS BRIEFING\n"@.len() as int) == "ENGINEERING STANDARDS BRIEFING\n"@,
        b.subrange(b.len() - "Engineering excellence is non-negotiable.\n"@.len(), b.len() as int)
            == "Engineering excellence is non-negotiable.\n"@,
        v.len() == 0 ==> has_substring(b, "No specific standards found for "@ + language + ". Using universal standards."@),
        v.len() > 0 ==> has_substring(b, "Standards for "@ + language + ": "@ + decimal(v.len()) + " rules active"@),
{
    reveal_strlit("ENGINEERING STANDARDS BRIEFING\n==============================\n\n");
    reveal_strlit("ENGINEERING STANDARDS BRIEFING\n");
    reveal_strlit("[MISSION PRIORITY] All critical and high-severity standards must be followed.\nEngineering excellence is non-negotiable.\n");
    reveal_strlit("Engineering excellence is non-negotiable.\n");
    let short = "ENGINEERING STANDARDS BRIEFING\n"@;
    assert(b.subrange(0, short.len() as int) =~= title.subrange(0, short.len() as int));
    assert(title.subrange(0, short.len() as int) =~= short);
    let end = "Engineering excellence is non-negotiable.\n"@;
    assert(b.subrange(b.len() - end.len(), b.len() as int) =~= closing.subrange(closing.len() - end.len(), closing.len() as int));
    assert(closing.subrange(closing.len() - end.len(), closing.len() as int) =~= end);
    let intro = briefing_intro(language, v.len());
    if v.len() == 0 {
        reveal_strlit(". Using universal standards.\n");
        reveal_strlit(". Using universal standards.");
        reveal_strlit("\n");
        let line = "No specific standards found for "@ + language + ". Using universal standards."@;
        assert(intro =~= line + "\n"@);
        lemma_substring_prefix_part(intro, line, "\n"@, b);
    } else {
        reveal_strlit(" rules active\n\n");
        reveal_strlit(" rules active");
        reveal_strlit("\n\n");
        let line = "Standards for "@ + language + ": "@ + decimal(v.len()) + " rules active"@;
        assert(intro =~= line + "\n\n"@);
        lemma_substring_prefix_part(intro, line, "\n\n"@, b);
    }
}

proof fn lemma_substring_prefix_part(whole: Seq<char>, part: Seq<char>, rest: Seq<char>, b: Seq<char>)
    requires
        whole == part + rest,
        has_substring(b, whole),
    ensures
        has_substring(b, part),
{
    let i = choose|i: int| occurs_at(b, whole, i);
    assert(b.subrange(i, i + whole.len()) == whole);
    assert(whole.subrange(0, part.len() as int) =~= part);
    assert(b.subrange(i, i + part.len()) =~= b.subrange(i, i + whole.len()).subrange(0, part.len() as int));
    assert(occurs_at(b, part, i));
}

} // verus!
