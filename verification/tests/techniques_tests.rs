use breathe::techniques::{
    all_categories, all_techniques, get_technique, get_techniques_by_category, Category,
    Difficulty, PhaseName, TechniqueColor,
};

#[test]
fn catalog_has_sixteen_techniques() {
    assert_eq!(all_techniques().len(), 16);
}

#[test]
fn catalog_ids_are_in_order_and_distinct() {
    let ids: Vec<&str> = all_techniques().iter().map(|t| t.id).collect();
    assert_eq!(
        ids,
        vec![
            "box",
            "gateway",
            "operative",
            "sere",
            "combat",
            "sigh",
            "coherent",
            "resonant",
            "military-sleep",
            "478",
            "sleep-exhale",
            "energize",
            "power",
            "wim-hof",
            "recovery",
            "nsdr",
        ]
    );
}

#[test]
fn every_technique_can_be_practised() {
    for t in all_techniques() {
        assert!(!t.phases.is_empty());
        assert!(t.default_cycles >= 1 && t.default_cycles <= 99);
        for p in &t.phases {
            assert!(p.duration_micros >= 1_000_000);
            assert!(!p.instruction.is_empty());
        }
        assert!(!t.name.is_empty() && !t.pattern.is_empty() && !t.description.is_empty());
    }
}

#[test]
fn box_breathing_is_four_equal_phases() {
    let t = get_technique("box").unwrap();
    assert_eq!(t.name, "Box Breathing");
    assert_eq!(t.pattern, "4-4-4-4");
    assert_eq!(t.phases.len(), 4);
    let names: Vec<PhaseName> = t.phases.iter().map(|p| p.name).collect();
    assert_eq!(
        names,
        vec![PhaseName::Inhale, PhaseName::Hold, PhaseName::Exhale, PhaseName::HoldAfterExhale]
    );
    for p in &t.phases {
        assert_eq!(p.duration_micros, 4_000_000);
    }
    assert_eq!(t.phases[0].instruction, "Breathe In");
    assert_eq!(t.default_cycles, 5);
    assert_eq!(t.color, TechniqueColor::arctic());
    assert_eq!(t.category, Category::Focus);
    assert_eq!(t.difficulty, Difficulty::Beginner);
    assert_eq!(t.cycle_duration(), 16_000_000);
}

#[test]
fn lookup_by_id() {
    assert_eq!(get_technique("478").unwrap().name, "4-7-8 Breathing");
    let gateway = get_technique("gateway").unwrap();
    assert_eq!(gateway.phases.len(), 3);
    assert_eq!(gateway.phases[2].duration_micros, 8_000_000);
    assert_eq!(gateway.cycle_duration(), 16_000_000);
    assert_eq!(get_technique("nsdr").unwrap().id, "nsdr");
    for t in all_techniques() {
        assert_eq!(get_technique(t.id).unwrap().name, t.name);
    }
}

#[test]
fn unknown_id_is_not_found() {
    assert!(get_technique("no-such-technique").is_none());
    assert!(get_technique("").is_none());
    assert!(get_technique("Box").is_none());
    assert!(get_technique("box ").is_none());
}

#[test]
fn cycle_duration_is_held_at_the_largest_number() {
    let mut t = get_technique("box").unwrap();
    t.phases[0].duration_micros = u64::MAX;
    assert_eq!(t.cycle_duration(), u64::MAX);
    t.phases.clear();
    assert_eq!(t.cycle_duration(), 0);
}

#[test]
fn cloning_keeps_every_field() {
    let t = get_technique("wim-hof").unwrap();
    let c = t.clone();
    assert_eq!(c.id, t.id);
    assert_eq!(c.name, t.name);
    assert_eq!(c.tagline, t.tagline);
    assert_eq!(c.description, t.description);
    assert_eq!(c.pattern, t.pattern);
    assert_eq!(c.purpose, t.purpose);
    assert_eq!(c.use_case, t.use_case);
    assert_eq!(c.source, t.source);
    assert_eq!(c.color, t.color);
    assert_eq!(c.default_cycles, t.default_cycles);
    assert_eq!(c.category, t.category);
    assert_eq!(c.difficulty, t.difficulty);
    assert_eq!(c.phases.len(), t.phases.len());
    for (a, b) in c.phases.iter().zip(t.phases.iter()) {
        assert_eq!((a.name, a.duration_micros, a.instruction), (b.name, b.duration_micros, b.instruction));
    }
}

#[test]
fn techniques_by_category() {
    let counts: Vec<usize> =
        all_categories().into_iter().map(|c| get_techniques_by_category(c).len()).collect();
    assert_eq!(counts, vec![4, 4, 3, 3, 2]);
    let focus: Vec<&str> =
        get_techniques_by_category(Category::Focus).iter().map(|t| t.id).collect();
    assert_eq!(focus, vec!["box", "gateway", "operative", "sere"]);
    for c in all_categories() {
        for t in get_techniques_by_category(c) {
            assert_eq!(t.category, c);
        }
    }
}

#[test]
fn categories_are_listed_in_order() {
    assert_eq!(
        all_categories(),
        vec![Category::Focus, Category::Calm, Category::Sleep, Category::Energy, Category::Recovery]
    );
}

#[test]
fn display_texts() {
    assert_eq!(PhaseName::Inhale.display(), "INHALE");
    assert_eq!(PhaseName::Hold.display(), "HOLD");
    assert_eq!(PhaseName::Exhale.display(), "EXHALE");
    assert_eq!(PhaseName::HoldAfterExhale.display(), "REST");
    assert_eq!(PhaseName::Inhale.default_instruction(), "Breathe in slowly through your nose");
    assert_eq!(PhaseName::Hold.default_instruction(), "Hold your breath gently");
    assert_eq!(PhaseName::Exhale.default_instruction(), "Release slowly through your mouth");
    assert_eq!(PhaseName::HoldAfterExhale.default_instruction(), "Rest in the stillness");
    assert_eq!(Category::Focus.display(), "Focus & Performance");
    assert_eq!(Category::Calm.display(), "Stress & Calm");
    assert_eq!(Category::Sleep.display(), "Sleep & Relaxation");
    assert_eq!(Category::Energy.display(), "Energy & Activation");
    assert_eq!(Category::Recovery.display(), "Recovery & Healing");
    assert_eq!(Difficulty::Beginner.display(), "Beginner");
    assert_eq!(Difficulty::Intermediate.display(), "Intermediate");
    assert_eq!(Difficulty::Advanced.display(), "Advanced");
}

#[test]
fn category_icons() {
    assert_eq!(Category::Focus.icon(), "\u{25ce}");
    assert_eq!(Category::Calm.icon(), "\u{25cb}");
    assert_eq!(Category::Sleep.icon(), "\u{25d0}");
    assert_eq!(Category::Energy.icon(), "\u{25c8}");
    assert_eq!(Category::Recovery.icon(), "\u{25c7}");
}

#[test]
fn named_colors() {
    assert_eq!(TechniqueColor::new(1, 2, 3), TechniqueColor { r: 1, g: 2, b: 3 });
    assert_eq!(TechniqueColor::arctic(), TechniqueColor::new(74, 144, 217));
    assert_eq!(TechniqueColor::gold(), TechniqueColor::new(201, 162, 39));
    assert_eq!(TechniqueColor::slate(), TechniqueColor::new(100, 116, 139));
    assert_eq!(TechniqueColor::purple(), TechniqueColor::new(139, 92, 246));
    assert_eq!(TechniqueColor::orange(), TechniqueColor::new(251, 146, 60));
    assert_eq!(TechniqueColor::emerald(), TechniqueColor::new(34, 197, 94));
    assert_eq!(TechniqueColor::rose(), TechniqueColor::new(244, 63, 94));
}
