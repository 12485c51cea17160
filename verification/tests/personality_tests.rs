use gsteng::personality::coding_standards::{CodingStandard, CodingStandardsEngine, StandardCategory, StandardSeverity};
use gsteng::personality::engineering_manager::EngineeringManager;
use gsteng::personality::tars_core::{
    apply_personality_filter, compose_movement_reply, compose_reply, generate_system_prompt, is_engineering_context,
    is_technical_context, should_add_humor, should_add_sarcasm, ContextMemory, PersonalitySettings, TARSCore,
    CONTEXT_LIMIT,
};

#[test]
fn personality_defaults() {
    let s = PersonalitySettings::default();
    assert_eq!((s.humor, s.honesty, s.sarcasm), (75, 90, 30));
}

#[test]
fn context_predicates() {
    assert!(!should_add_humor("Production outage"));
    assert!(!should_add_humor("URGENT fix"));
    assert!(should_add_humor("code review"));
    assert!(should_add_sarcasm("the same mistake again"));
    assert!(!should_add_sarcasm("first attempt"));
    assert!(is_technical_context("Fix this BUG"));
    assert!(!is_technical_context("lunch"));
    assert!(is_engineering_context("system design"));
}

#[test]
fn honesty_note_for_technical_work() {
    let r = compose_reply("Base", "fix this bug", 95, None, None);
    assert_eq!(r, "Base\n\n[TARS Honesty Mode: 95%] Let me be direct - this needs significant improvement.");
    assert_eq!(compose_reply("Base", "fix this bug", 89, None, None), "Base");
}

#[test]
fn no_jokes_in_a_crisis() {
    assert_eq!(compose_reply("Base", "critical outage", 50, Some(1), None), "Base");
    assert_eq!(
        compose_reply("Base", "chat", 50, Some(1), None),
        "Base\n\nI have a cue light I can use to show you when I'm joking, if you like."
    );
}

#[test]
fn sarcasm_opens_and_mission_note_closes() {
    let r = compose_reply("Base", "same mistake in system design", 0, None, Some(4));
    assert!(r.starts_with("That's great. Really fantastic work there. Base"));
    assert!(r.ends_with("Everything else is secondary."));
}

#[test]
fn filter_keeps_the_base_reply() {
    let settings = PersonalitySettings::default();
    for humor in [false, true] {
        for sarcasm in [false, true] {
            let r = apply_personality_filter(&settings, "Keep calm.", "same mistake in testing again", humor, sarcasm);
            assert!(r.contains("Keep calm."));
        }
    }
}

#[test]
fn movement_reply_with_draws() {
    let settings = PersonalitySettings { humor: 0, honesty: 100, sarcasm: 0 };
    let r = compose_movement_reply("Turning left.", &settings, None, None, 2);
    assert!(r.starts_with("Turning left."));
    assert!(r.len() > "Turning left.".len());
}

#[test]
fn system_prompt_carries_the_settings() {
    let prompt = generate_system_prompt(&PersonalitySettings::default());
    assert!(prompt.contains("Humor: 75%"));
    assert!(prompt.contains("Honesty: 90%"));
    let request = TARSCore::process_with_personality(&PersonalitySettings::default(), "Deploy", "ops");
    assert!(request.ends_with("\n\nUser Request: Deploy\nContext: ops"));
    assert_eq!(TARSCore::context_entry("Deploy", "ops"), "ops: Deploy");
}

#[test]
fn context_memory_keeps_the_last_entries() {
    let mut memory = ContextMemory::new();
    for i in 0..(CONTEXT_LIMIT + 5) {
        memory.add_context(format!("entry {}", i));
    }
    assert_eq!(memory.entries.len(), CONTEXT_LIMIT);
    assert_eq!(memory.entries[0], "entry 5");
}

#[test]
fn code_review_finds_hardcoded_secrets() {
    let manager = EngineeringManager::new();
    let review = manager.conduct_code_review("let api_key = \"sk-123\";", "rust", "review");
    assert!(review.overall_score < 100);
    assert!(review.violations.iter().any(|v| v.standard_name == "No Hardcoded Secrets"));
    assert!(review.tars_commentary.contains("VIOLATIONS DETECTED"));
    let clean = manager.conduct_code_review("fn main() {}", "rust", "review");
    assert_eq!(clean.overall_score, 100);
    assert!(clean.violations.is_empty());
}

#[test]
fn stack_recommendations() {
    let manager = EngineeringManager::new();
    let recs = manager.get_stack_recommendations(&["React", "Cobol"]);
    assert_eq!(recs.len(), 1);
    assert_eq!(recs[0].title, "React Best Practices");
}

#[test]
fn coding_standards_catalogue() {
    let engine = CodingStandardsEngine::new();
    assert!(!engine.all_standards().is_empty());
    assert!(engine.find_standard("input_validation").is_some());
    assert!(engine.find_standard("nope").is_none());
    assert!(engine
        .get_critical_standards()
        .iter()
        .all(|s| s.severity == StandardSeverity::Critical || s.severity == StandardSeverity::High));
    assert!(engine
        .get_standards_by_category(StandardCategory::Security)
        .iter()
        .all(|s| s.category == StandardCategory::Security));
    assert!(engine.generate_tars_standards_report("rust").starts_with("ENGINEERING STANDARDS BRIEFING"));
}

fn custom(id: &str) -> CodingStandard {
    CodingStandard {
        id: id.to_string(),
        name: "Custom".to_string(),
        category: StandardCategory::Style,
        languages: vec!["*".to_string()],
        description: "A house rule".to_string(),
        good_examples: vec![],
        bad_examples: vec![],
        rationale: "Consistency".to_string(),
        severity: StandardSeverity::Low,
    }
}

#[test]
fn custom_standards_need_fresh_ids() {
    let mut engine = CodingStandardsEngine::new();
    let before = engine.all_standards().len();
    assert!(engine.add_custom_standard(custom("house_rule")).is_ok());
    assert_eq!(engine.all_standards().len(), before + 1);
    let err = engine.add_custom_standard(custom("input_validation")).unwrap_err();
    assert_eq!(err, "Standard with ID 'input_validation' already exists");
}

#[test]
fn compliance_of_input_validation() {
    let engine = CodingStandardsEngine::new();
    let good = engine.check_standard_compliance("let v = validate(input);", "input_validation");
    assert_eq!(good.standard_name, "Input Validation");
    assert_eq!(good.score_milli, 800);
    assert!(good.compliant);
    assert!(good.violations.is_empty());
    let bad = engine.check_standard_compliance("eval(input)", "input_validation");
    assert_eq!(bad.score_milli, 200);
    assert!(!bad.compliant);
    assert_eq!(bad.violations, vec!["Use of eval() function detected - major security risk"]);
}

#[test]
fn compliance_of_loops_and_naming() {
    let engine = CodingStandardsEngine::new();
    let nested = engine.check_standard_compliance("for (a) { for (b) { } }", "efficient_loops");
    assert_eq!(nested.score_milli, 300);
    assert!(!nested.compliant);
    assert_eq!(nested.violations.len(), 1);
    let mapped = engine.check_standard_compliance("items.map(f)", "efficient_loops");
    assert_eq!(mapped.score_milli, 800);
    let plain = engine.check_standard_compliance("let total = 1;", "descriptive_naming");
    assert_eq!(plain.score_milli, 1000);
    assert!(plain.compliant);
    // three literal matches among two words: 1 - 3/2
    let odd = engine.check_standard_compliance(r"\b[a-z]{1,2}\b \b[a-z]{1,2}\b\b[a-z]{1,2}\b", "descriptive_naming");
    assert_eq!(odd.score_milli, -500);
    assert!(!odd.compliant);
}

#[test]
fn compliance_of_an_unknown_standard() {
    let engine = CodingStandardsEngine::new();
    let r = engine.check_standard_compliance("anything", "no_such_rule");
    assert_eq!(r.standard_id, "no_such_rule");
    assert_eq!(r.standard_name, "Unknown Standard");
    assert!(!r.compliant);
    assert_eq!(r.score_milli, 0);
    assert_eq!(r.violations, vec!["Standard not found"]);
    assert_eq!(r.suggestions, vec!["Verify standard ID"]);
}

#[test]
fn whitespace_split_agrees_with_std() {
    for n in 0u32..0x3100 {
        if let Some(c) = char::from_u32(n) {
            let text: String = ['a', c, 'b'].iter().collect();
            let words = gsteng::text::split_whitespace_chars(&text);
            let expected = text.split_whitespace().count();
            assert_eq!(words.len(), expected, "character U+{:04X}", n);
        }
    }
}
