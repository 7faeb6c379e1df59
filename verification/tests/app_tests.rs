use breathe::app::{App, AppState, Particle};
use breathe::fixed::{HALF, ONE};
use breathe::particles::ParticleType;
use breathe::techniques::{
    get_technique, Category, Difficulty, Phase, PhaseName, Technique, TechniqueColor,
};
use breathe::theme::{default_theme, Color};

fn two_phase_technique() -> Technique {
    Technique {
        id: "pair",
        name: "Pair",
        tagline: "",
        description: "",
        pattern: "1-1",
        phases: vec![
            Phase { name: PhaseName::Inhale, duration_micros: 1_000_000, instruction: "In" },
            Phase { name: PhaseName::Exhale, duration_micros: 1_000_000, instruction: "Out" },
        ],
        purpose: "",
        use_case: "",
        source: "",
        color: TechniqueColor::arctic(),
        default_cycles: 3,
        category: Category::Calm,
        difficulty: Difficulty::Beginner,
    }
}

fn box_app() -> App {
    App::new_with_technique(get_technique("box").unwrap(), 0)
}

#[test]
fn interactive_app_starts_selecting() {
    let app = App::new_interactive();
    assert_eq!(app.state, AppState::Selecting);
    assert!(app.technique.is_none());
    assert_eq!(app.techniques.len(), 16);
    assert_eq!(app.selected_index, 0);
    assert_eq!(app.list_state.selected(), Some(0));
    assert_eq!(app.cycles_target, 4);
    assert_eq!(app.cycles_completed, 0);
    assert_eq!(app.particle_system.max_particles, 150);
    assert_eq!(app.phase_transition_progress, ONE);
    assert!(app.celebration.is_none());
    assert!(!app.show_help && !app.show_guide && app.audio_enabled);
    assert_eq!(app.selected_technique().id, "box");
}

#[test]
fn app_with_technique_is_ready() {
    let app = box_app();
    assert_eq!(app.state, AppState::Ready);
    assert_eq!(app.current_technique().id, "box");
    assert_eq!(app.cycles_target, 5);
    let app = App::new_with_technique(get_technique("box").unwrap(), 9);
    assert_eq!(app.cycles_target, 9);
    assert_eq!(app.list_state.selected(), Some(0));
}

#[test]
fn selection_wraps_both_ways() {
    let mut app = App::new_interactive();
    app.select_next();
    assert_eq!(app.selected_index, 1);
    assert_eq!(app.list_state.selected(), Some(1));
    app.select_prev();
    app.select_prev();
    assert_eq!(app.selected_index, 15);
    assert_eq!(app.list_state.selected(), Some(15));
    app.select_next();
    assert_eq!(app.selected_index, 0);
    assert_eq!(app.list_state.selected(), Some(0));
}

#[test]
fn selection_moves_only_while_selecting() {
    let mut app = box_app();
    app.select_next();
    app.select_prev();
    app.select_prev();
    assert_eq!(app.selected_index, 0);
    assert_eq!(app.list_state.selected(), Some(0));
}

#[test]
fn confirming_takes_the_selected_technique() {
    let mut app = App::new_interactive();
    app.select_next();
    app.confirm_selection();
    assert_eq!(app.state, AppState::Ready);
    assert_eq!(app.current_technique().id, "gateway");
    assert_eq!(app.current_technique().phases.len(), 3);
    assert_eq!(app.cycles_target, 7);
    // Once ready, confirming again changes nothing.
    app.adjust_cycles(1);
    app.confirm_selection();
    assert_eq!(app.cycles_target, 8);
}

#[test]
fn cycle_count_adjustment_is_clamped() {
    let mut app = App::new_with_technique(get_technique("box").unwrap(), 4);
    app.adjust_cycles(-10);
    assert_eq!(app.cycles_target, 1);
    app.adjust_cycles(200);
    assert_eq!(app.cycles_target, 99);
    app.adjust_cycles(-1);
    assert_eq!(app.cycles_target, 98);
    app.adjust_cycles(1);
    app.adjust_cycles(1);
    assert_eq!(app.cycles_target, 99);
    app.adjust_cycles(i32::MIN);
    assert_eq!(app.cycles_target, 1);
    app.adjust_cycles(i32::MAX);
    assert_eq!(app.cycles_target, 99);
}

#[test]
fn cycles_are_adjusted_only_while_ready() {
    let mut app = App::new_interactive();
    app.adjust_cycles(3);
    assert_eq!(app.cycles_target, 4);
    let mut app = box_app();
    app.start(0);
    app.adjust_cycles(3);
    assert_eq!(app.cycles_target, 5);
    app.toggle_pause(10);
    app.adjust_cycles(3);
    assert_eq!(app.cycles_target, 5);
}

#[test]
fn switches_toggle() {
    let mut app = App::new_interactive();
    app.toggle_help();
    app.toggle_guide();
    app.toggle_audio();
    assert!(app.show_help && app.show_guide && !app.audio_enabled);
    app.toggle_help();
    app.toggle_guide();
    app.toggle_audio();
    assert!(!app.show_help && !app.show_guide && app.audio_enabled);
}

#[test]
fn start_begins_the_first_phase() {
    let mut app = box_app();
    app.cycles_completed = 3;
    app.phase_transition_progress = 0;
    app.start(7_000_000);
    assert_eq!(app.state, AppState::Breathing);
    assert_eq!(app.phase_start_time, 7_000_000);
    assert_eq!(app.session_start_time, 7_000_000);
    assert_eq!(app.current_phase_index, 0);
    assert_eq!(app.cycles_completed, 0);
    assert_eq!(app.phase_transition_progress, ONE);
    assert_eq!(app.previous_phase, Some(PhaseName::Inhale));
    assert!(app.celebration.is_none());
    // The particle field flows inward, from a ring sized by scale zero.
    assert_eq!(app.particle_system.emitters.len(), 1);
    assert_eq!(app.particle_system.emitters[0].particle_type, ParticleType::Inward);
    assert_eq!(app.particle_system.emitters[0].rate, 30_000_000);
    assert_eq!(app.phase_elapsed(7_500_000), 500_000);
    assert_eq!(app.session_elapsed(9_000_000), 2_000_000);
}

#[test]
fn start_is_valid_only_from_ready() {
    let mut app = App::new_interactive();
    app.start(5);
    assert_eq!(app.state, AppState::Selecting);

    let mut app = box_app();
    app.start(0);
    for k in 1..=300u64 {
        app.tick(16_000, k * 16_000);
    }
    let (index, start) = (app.current_phase_index, app.phase_start_time);
    assert_eq!(index, 1);
    app.start(5_000_000);
    assert_eq!(app.state, AppState::Breathing);
    assert_eq!((app.current_phase_index, app.phase_start_time), (index, start));
    app.toggle_pause(5_000_000);
    app.start(6_000_000);
    assert_eq!(app.state, AppState::Paused);
}

#[test]
fn session_scale_follows_the_phases_of_box_breathing() {
    let mut app = box_app();
    app.start(0);
    // Inhale grows from zero to one.
    assert_eq!(app.current_phase().name, PhaseName::Inhale);
    assert_eq!(app.breath_scale(0), 0);
    assert_eq!(app.phase_progress(2_000_000), HALF);
    assert_eq!(app.breath_scale(2_000_000), 499_999);
    assert_eq!(app.breath_scale(4_000_000), ONE);
    assert_eq!(app.breath_scale(40_000_000), ONE);
    // Hold stays at one.
    app.current_phase_index = 1;
    assert_eq!(app.current_phase().name, PhaseName::Hold);
    for now in [0u64, 1, 2_000_000, 4_000_000, 9_000_000] {
        assert_eq!(app.breath_scale(now), ONE);
    }
    // Exhale shrinks from one to zero.
    app.current_phase_index = 2;
    assert_eq!(app.current_phase().name, PhaseName::Exhale);
    assert_eq!(app.breath_scale(0), ONE);
    assert_eq!(app.breath_scale(1_000_000), ONE - 121_262);
    assert_eq!(app.breath_scale(4_000_000), 0);
    // Rest stays at zero.
    app.current_phase_index = 3;
    assert_eq!(app.current_phase().name, PhaseName::HoldAfterExhale);
    for now in [0u64, 1, 2_000_000, 4_000_000, 9_000_000] {
        assert_eq!(app.breath_scale(now), 0);
    }
}

#[test]
fn scale_stays_between_zero_and_one() {
    let mut app = box_app();
    app.start(0);
    for index in 0..4 {
        app.current_phase_index = index;
        let mut now = 0u64;
        while now <= 4_100_000 {
            let scale = app.breath_scale(now);
            assert!((0..=ONE).contains(&scale));
            now += 12_345;
        }
    }
}

#[test]
fn a_phase_without_duration_is_over_at_once() {
    let mut technique = two_phase_technique();
    technique.phases[0].duration_micros = 0;
    let mut app = App::new_with_technique(technique, 1);
    app.start(100);
    assert_eq!(app.phase_progress(100), ONE);
    assert_eq!(app.breath_scale(100), ONE);
    app.tick(16_000, 100);
    assert_eq!(app.current_phase_index, 1);
}

#[test]
fn pause_does_not_count_toward_the_phase() {
    let mut app = box_app();
    app.start(1_000_000);
    // Two seconds of session.
    for k in 1..=125u64 {
        app.tick(16_000, 1_000_000 + k * 16_000);
    }
    assert_eq!(app.phase_elapsed(3_000_000), 2_000_000);
    app.toggle_pause(3_000_000);
    assert_eq!(app.state, AppState::Paused);
    // Five seconds pass; no ticks change anything.
    assert_eq!(app.phase_elapsed(5_000_000), 2_000_000);
    assert_eq!(app.session_elapsed(8_000_000), 2_000_000);
    app.tick(16_000, 7_000_000);
    assert_eq!(app.current_phase_index, 0);
    assert_eq!(app.phase_elapsed(8_000_000), 2_000_000);
    app.toggle_pause(8_000_000);
    assert_eq!(app.state, AppState::Breathing);
    assert_eq!(app.phase_elapsed(8_000_000), 2_000_000);
    // Two seconds more: four seconds of phase, not nine.
    assert_eq!(app.phase_elapsed(10_000_000), 4_000_000);
    assert_eq!(app.session_elapsed(10_000_000), 4_000_000);
    assert_eq!(app.current_phase_index, 0);
    app.tick(16_000, 10_000_000);
    assert_eq!(app.current_phase_index, 1);
    assert_eq!(app.phase_elapsed(10_000_000), 0);
}

#[test]
fn pause_toggles_only_a_running_or_paused_session() {
    let mut app = box_app();
    app.toggle_pause(5);
    assert_eq!(app.state, AppState::Ready);
    let mut app = App::new_interactive();
    app.toggle_pause(5);
    assert_eq!(app.state, AppState::Selecting);
}

#[test]
fn full_session_completes_exactly_once() {
    let mut app = App::new_with_technique(two_phase_technique(), 2);
    app.start(0);
    let mut completions = 0;
    let mut phase_changes = 0;
    for k in 1..=8u64 {
        let before = (app.state, app.current_phase_index);
        app.tick(500_000, k * 500_000);
        if before.0 != AppState::Complete && app.state == AppState::Complete {
            completions += 1;
        }
        if app.current_phase_index != before.1 {
            phase_changes += 1;
        }
        if k < 8 {
            assert_eq!(app.state, AppState::Breathing);
            assert_eq!(app.cycles_completed as u64, k / 4);
            assert_eq!(app.current_phase_index as u64, (k / 2) % 2);
            assert!(app.celebration.is_none());
        }
    }
    assert_eq!(completions, 1);
    assert_eq!(phase_changes, 4);
    assert_eq!(app.state, AppState::Complete);
    assert_eq!(app.cycles_completed, 2);
    assert_eq!(app.current_phase_index, 0);
    assert_eq!(app.previous_phase, Some(PhaseName::Exhale));
    assert_eq!(app.session_elapsed(99_000_000), 4_000_000);

    // One burst of a hundred sparks at the origin.
    let celebration = app.celebration.as_mut().unwrap();
    assert!(celebration.burst_complete);
    assert_eq!(celebration.particles.len(), 100);
    assert_eq!((celebration.center_x, celebration.center_y), (0, 0));
    celebration.spawn_burst();
    assert_eq!(celebration.particles.len(), 100);

    // Further ticks run the celebration and leave the session alone.
    app.tick(500_000, 4_500_000);
    assert_eq!(app.state, AppState::Complete);
    assert_eq!(app.cycles_completed, 2);
    assert_eq!(app.celebration.as_ref().unwrap().progress, 500_000);
    for k in 10..=20u64 {
        app.tick(500_000, k * 500_000);
    }
    assert!(app.celebration.is_none());
    assert_eq!(app.state, AppState::Complete);
}

#[test]
fn phase_change_begins_a_blend_and_reconfigures_the_particles() {
    let mut app = box_app();
    app.start(0);
    app.tick(16_000, 3_999_999);
    assert_eq!(app.current_phase_index, 0);
    app.tick(16_000, 4_000_000);
    assert_eq!(app.current_phase_index, 1);
    assert_eq!(app.previous_phase, Some(PhaseName::Inhale));
    assert_eq!(app.phase_start_time, 4_000_000);
    assert_eq!(app.phase_transition_progress, 0);
    assert_eq!(app.particle_system.emitters.len(), 1);
    assert_eq!(app.particle_system.emitters[0].particle_type, ParticleType::Orbital);
    // Hold is at scale one: the orbit has radius 12 + 5.
    assert_eq!(
        app.particle_system.emitters[0].shape,
        breathe::particles::EmitterShape::Ring { cx: 0, cy: 0, radius: 17_000_000 }
    );
    // The blend runs toward one and ends there.
    let mut last = 0;
    for k in 1..=100u64 {
        app.tick(16_000, 4_000_000 + k * 16_000);
        assert!(app.phase_transition_progress >= last);
        last = app.phase_transition_progress;
    }
    assert_eq!(last, ONE);
}

#[test]
fn blended_colors_move_from_the_old_palette_to_the_new() {
    let theme = default_theme();
    let mut app = box_app();
    app.start(0);
    assert_eq!(app.get_blended_phase_colors(), *theme.get_phase_colors(PhaseName::Inhale));
    app.tick(16_000, 4_000_000);
    // The blend has just begun: the colors are still those of inhaling.
    assert_eq!(app.get_blended_phase_colors(), *theme.get_phase_colors(PhaseName::Inhale));
    app.phase_transition_progress = HALF;
    assert_eq!(app.get_blended_phase_colors().primary, Color::Rgb(138, 153, 128));
    app.phase_transition_progress = ONE;
    assert_eq!(app.get_blended_phase_colors(), *theme.get_phase_colors(PhaseName::Hold));
}

#[test]
fn ticks_do_nothing_before_the_session_runs() {
    let mut app = box_app();
    app.tick(16_000, 50_000_000);
    assert_eq!(app.state, AppState::Ready);
    assert_eq!(app.current_phase_index, 0);
    assert_eq!(app.particle_system.count(), 0);
    let mut app = App::new_interactive();
    app.tick(16_000, 50_000_000);
    assert_eq!(app.state, AppState::Selecting);
}

#[test]
fn particles_stay_within_the_capacity_during_a_session() {
    let mut app = box_app();
    app.start(0);
    for k in 1..=2_000u64 {
        app.tick(16_000, k * 16_000);
        assert!(app.particles().len() <= 150);
    }
    assert!(!app.particles().is_empty());
    assert_eq!(app.particles().len(), app.particle_system.count());
}

#[test]
fn reset_returns_to_ready() {
    let mut app = App::new_with_technique(two_phase_technique(), 1);
    app.start(0);
    for k in 1..=4u64 {
        app.tick(500_000, k * 500_000);
    }
    assert_eq!(app.state, AppState::Complete);
    app.reset();
    assert_eq!(app.state, AppState::Ready);
    assert_eq!(app.cycles_completed, 0);
    assert_eq!(app.current_phase_index, 0);
    assert_eq!(app.particle_system.count(), 0);
    assert!(app.celebration.is_none());
    assert_eq!(app.phase_transition_progress, ONE);
    assert_eq!(app.previous_phase, None);
    assert_eq!(app.current_technique().id, "pair");
    assert_eq!(app.cycles_target, 1);
    // Without a technique there is nothing to reset.
    let mut app = App::new_interactive();
    app.reset();
    assert_eq!(app.state, AppState::Selecting);
}

#[test]
fn back_to_selection_gives_the_session_up() {
    let mut app = box_app();
    app.start(0);
    for k in 1..=300u64 {
        app.tick(16_000, k * 16_000);
    }
    app.toggle_pause(5_000_000);
    app.back_to_selection();
    assert_eq!(app.state, AppState::Selecting);
    assert!(app.technique.is_none());
    assert_eq!(app.current_phase_index, 0);
    assert_eq!(app.cycles_completed, 0);
    assert_eq!(app.particle_system.count(), 0);
    assert_eq!(app.phase_elapsed_at_pause, 0);
    assert_eq!(app.session_elapsed_at_pause, 0);
    assert_eq!(app.techniques.len(), 16);
}

#[test]
fn times_are_formatted_as_minutes_and_seconds() {
    assert_eq!(App::format_time(0), "00:00");
    assert_eq!(App::format_time(999_999), "00:00");
    assert_eq!(App::format_time(59_000_000), "00:59");
    assert_eq!(App::format_time(60_000_000), "01:00");
    assert_eq!(App::format_time(754_000_000), "12:34");
    assert_eq!(App::format_time(6_000_000_000), "100:00");
}

#[test]
fn well_formedness_can_be_tested() {
    let mut app = App::new_interactive();
    assert!(app.is_well_formed());
    app.select_next();
    app.confirm_selection();
    assert!(app.is_well_formed());
    app.start(0);
    for k in 1..=700u64 {
        app.tick(16_000, k * 16_000);
        assert!(app.is_well_formed());
    }
    app.toggle_pause(12_000_000);
    assert!(app.is_well_formed());
    app.back_to_selection();
    assert!(app.is_well_formed());

    // A phase index outside of the technique is not well formed.
    let mut app = box_app();
    app.current_phase_index = 4;
    assert!(!app.is_well_formed());
    // Nor is a list state that selects another entry than the index.
    let mut app = box_app();
    app.selected_index = 2;
    assert!(!app.is_well_formed());
    app.list_state.select(Some(2));
    assert!(app.is_well_formed());
    // Nor a session past selecting without a technique.
    let mut app = App::new_interactive();
    app.state = AppState::Ready;
    assert!(!app.is_well_formed());
    // Nor a particle field over its bound.
    let mut app = box_app();
    app.particle_system.max_particles = 0;
    app.particle_system.spawn_burst(0, 0, 1, ParticleType::Standard);
    assert!(app.is_well_formed());
    app.particle_system.max_particles = 1;
    app.particle_system.spawn_burst(0, 0, 1, ParticleType::Standard);
    app.particle_system.max_particles = 0;
    assert!(!app.is_well_formed());
    assert!(!app.particle_system.is_well_formed());
}

#[test]
fn plain_particle_drifts_and_fades() {
    let mut p = Particle::new(ONE, 2 * ONE, 0, 10 * ONE, 2 * ONE);
    assert_eq!((p.vx, p.vy), (10 * ONE, 0));
    assert_eq!((p.life, p.max_life, p.size), (2 * ONE, 2 * ONE, 1));
    assert_eq!(p.opacity(), ONE);
    p.update(500_000);
    assert_eq!((p.x, p.y), (6 * ONE, 2 * ONE));
    assert_eq!(p.vx, 9_800_000);
    assert_eq!(p.life, 1_500_000);
    assert_eq!(p.opacity(), 750_000);
    p.update(2_000_000);
    assert_eq!(p.opacity(), 0);
}

#[test]
fn visualizer_blends_from_the_phase_before_in_the_cycle() {
    let mut app = box_app();
    app.start(0);
    // Before the first phase comes the last.
    assert_eq!(app.get_previous_phase(), Some(PhaseName::HoldAfterExhale));
    assert_eq!(
        app.vibrant_colors(),
        (Color::Rgb(80, 180, 255), Color::Rgb(150, 220, 255), Color::Rgb(200, 240, 255))
    );
    app.tick(16_000, 4_000_000);
    assert_eq!(app.get_previous_phase(), Some(PhaseName::Inhale));
    // The blend has just begun: the colors of inhaling.
    assert_eq!(app.phase_transition_progress, 0);
    assert_eq!(
        app.vibrant_colors(),
        (Color::Rgb(80, 180, 255), Color::Rgb(150, 220, 255), Color::Rgb(200, 240, 255))
    );
    app.phase_transition_progress = HALF;
    assert_eq!(
        app.vibrant_colors(),
        (Color::Rgb(168, 190, 153), Color::Rgb(203, 225, 188), Color::Rgb(228, 245, 228))
    );
    app.phase_transition_progress = ONE;
    assert_eq!(
        app.vibrant_colors(),
        (Color::Rgb(255, 200, 50), Color::Rgb(255, 230, 120), Color::Rgb(255, 250, 200))
    );
}
