//! The catalog of breathing techniques and the phases they are made of.

use vstd::prelude::*;
use vstd::string::StrSliceExecFns;

verus! {

/// The four kinds of phase a breathing cycle is built from.
#[derive(Debug, Clone, Copy, PartialEq, Eq, Structural)]
pub enum PhaseName {
    Inhale,
    Hold,
    Exhale,
    HoldAfterExhale,
}

impl PhaseName {
    /// The label of the phase as a sequence of characters.
    pub open spec fn display_text(self) -> Seq<char> {
        match self {
            PhaseName::Inhale => "INHALE"@,
            PhaseName::Hold => "HOLD"@,
            PhaseName::Exhale => "EXHALE"@,
            PhaseName::HoldAfterExhale => "REST"@,
        }
    }

    /// The instruction shown when a phase brings none of its own.
    pub open spec fn instruction_text(self) -> Seq<char> {
        match self {
            PhaseName::Inhale => "Breathe in slowly through your nose"@,
            PhaseName::Hold => "Hold your breath gently"@,
            PhaseName::Exhale => "Release slowly through your mouth"@,
            PhaseName::HoldAfterExhale => "Rest in the stillness"@,
        }
    }

    pub fn display(&self) -> (s: &'static str)
        ensures
            s@ == self.display_text(),
    {
        match self {
            PhaseName::Inhale => "INHALE",
            PhaseName::Hold => "HOLD",
            PhaseName::Exhale => "EXHALE",
            PhaseName::HoldAfterExhale => "REST",
        }
    }

    pub fn default_instruction(&self) -> (s: &'static str)
        ensures
            s@ == self.instruction_text(),
    {
        match self {
            PhaseName::Inhale => "Breathe in slowly through your nose",
            PhaseName::Hold => "Hold your breath gently",
            PhaseName::Exhale => "Release slowly through your mouth",
            PhaseName::HoldAfterExhale => "Rest in the stillness",
        }
    }
}

/// What a technique is meant to help with.
#[derive(Debug, Clone, Copy, PartialEq, Eq, Structural)]
pub enum Category {
    Focus,
    Calm,
    Sleep,
    Energy,
    Recovery,
}

impl Category {
    pub open spec fn display_text(self) -> Seq<char> {
        match self {
            Category::Focus => "Focus & Performance"@,
            Category::Calm => "Stress & Calm"@,
            Category::Sleep => "Sleep & Relaxation"@,
            Category::Energy => "Energy & Activation"@,
            Category::Recovery => "Recovery & Healing"@,
        }
    }

    pub open spec fn icon_text(self) -> Seq<char> {
        match self {
            Category::Focus => "\u{25ce}"@,
            Category::Calm => "\u{25cb}"@,
            Category::Sleep => "\u{25d0}"@,
            Category::Energy => "\u{25c8}"@,
            Category::Recovery => "\u{25c7}"@,
        }
    }

    pub fn display(&self) -> (s: &'static str)
        ensures
            s@ == self.display_text(),
    {
        match self {
            Category::Focus => "Focus & Performance",
            Category::Calm => "Stress & Calm",
            Category::Sleep => "Sleep & Relaxation",
            Category::Energy => "Energy & Activation",
            Category::Recovery => "Recovery & Healing",
        }
    }

    /// A one-glyph marker for the category.
    pub fn icon(&self) -> (s: &'static str)
        ensures
            s@ == self.icon_text(),
    {
        match self {
            Category::Focus => "\u{25ce}",
            Category::Calm => "\u{25cb}",
            Category::Sleep => "\u{25d0}",
            Category::Energy => "\u{25c8}",
            Category::Recovery => "\u{25c7}",
        }
    }
}

/// How much practice a technique asks for.
#[derive(Debug, Clone, Copy, PartialEq, Eq, Structural)]
pub enum Difficulty {
    Beginner,
    Intermediate,
    Advanced,
}

impl Difficulty {
    pub open spec fn display_text(self) -> Seq<char> {
        match self {
            Difficulty::Beginner => "Beginner"@,
            Difficulty::Intermediate => "Intermediate"@,
            Difficulty::Advanced => "Advanced"@,
        }
    }

    pub fn display(&self) -> (s: &'static str)
        ensures
            s@ == self.display_text(),
    {
        match self {
            Difficulty::Beginner => "Beginner",
            Difficulty::Intermediate => "Intermediate",
            Difficulty::Advanced => "Advanced",
        }
    }
}

/// The accent color of a technique, as red, green and blue.
#[derive(Debug, Clone, Copy, PartialEq, Eq, Structural)]
pub struct TechniqueColor {
    pub r: u8,
    pub g: u8,
    pub b: u8,
}

impl TechniqueColor {
    pub fn new(r: u8, g: u8, b: u8) -> (c: Self)
        ensures
            c == (TechniqueColor { r, g, b }),
    {
        Self { r, g, b }
    }

    pub fn arctic() -> (c: Self)
        ensures
            c == (TechniqueColor { r: 74, g: 144, b: 217 }),
    {
        Self::new(74, 144, 217)
    }

    pub fn gold() -> (c: Self)
        ensures
            c == (TechniqueColor { r: 201, g: 162, b: 39 }),
    {
        Self::new(201, 162, 39)
    }

    pub fn slate() -> (c: Self)
        ensures
            c == (TechniqueColor { r: 100, g: 116, b: 139 }),
    {
        Self::new(100, 116, 139)
    }

    pub fn purple() -> (c: Self)
        ensures
            c == (TechniqueColor { r: 139, g: 92, b: 246 }),
    {
        Self::new(139, 92, 246)
    }

    pub fn orange() -> (c: Self)
        ensures
            c == (TechniqueColor { r: 251, g: 146, b: 60 }),
    {
        Self::new(251, 146, 60)
    }

    pub fn emerald() -> (c: Self)
        ensures
            c == (TechniqueColor { r: 34, g: 197, b: 94 }),
    {
        Self::new(34, 197, 94)
    }

    pub fn rose() -> (c: Self)
        ensures
            c == (TechniqueColor { r: 244, g: 63, b: 94 }),
    {
        Self::new(244, 63, 94)
    }
}

/// One segment of a breathing cycle. The duration is in microseconds.
#[derive(Debug, Clone, Copy)]
pub struct Phase {
    pub name: PhaseName,
    pub duration_micros: u64,
    pub instruction: &'static str,
}

/// A breathing pattern: its phases in order, and what is shown about it.
#[derive(Debug)]
pub struct Technique {
    pub id: &'static str,
    pub name: &'static str,
    pub tagline: &'static str,
    pub description: &'static str,
    pub pattern: &'static str,
    pub phases: Vec<Phase>,
    pub purpose: &'static str,
    pub use_case: &'static str,
    pub source: &'static str,
    pub color: TechniqueColor,
    pub default_cycles: u32,
    pub category: Category,
    pub difficulty: Difficulty,
}

/// A phase as a value, its instruction a sequence of characters.
pub ghost struct PhaseSummary {
    pub name: PhaseName,
    pub duration_micros: u64,
    pub instruction: Seq<char>,
}

/// A technique as a value: its texts are sequences of characters and its
/// phases a sequence.
pub ghost struct TechniqueSummary {
    pub id: Seq<char>,
    pub name: Seq<char>,
    pub tagline: Seq<char>,
    pub description: Seq<char>,
    pub pattern: Seq<char>,
    pub phases: Seq<PhaseSummary>,
    pub purpose: Seq<char>,
    pub use_case: Seq<char>,
    pub source: Seq<char>,
    pub color: TechniqueColor,
    pub default_cycles: u32,
    pub category: Category,
    pub difficulty: Difficulty,
}

/// A list of phases as values, in order.
pub open spec fn phase_pattern(phases: Seq<Phase>) -> Seq<PhaseSummary> {
    Seq::new(
        phases.len(),
        |i: int|
            PhaseSummary {
                name: phases[i].name,
                duration_micros: phases[i].duration_micros,
                instruction: phases[i].instruction@,
            },
    )
}

/// The sum of the durations of a list of phases.
pub open spec fn total_micros(phases: Seq<Phase>) -> nat
    decreases phases.len(),
{
    if phases.len() == 0 {
        0
    } else {
        total_micros(phases.drop_last()) + phases.last().duration_micros as nat
    }
}

impl Technique {
    /// The technique as a value.
    pub open spec fn summary(&self) -> TechniqueSummary {
        TechniqueSummary {
            id: self.id@,
            name: self.name@,
            tagline: self.tagline@,
            description: self.description@,
            pattern: self.pattern@,
            phases: phase_pattern(self.phases@),
            purpose: self.purpose@,
            use_case: self.use_case@,
            source: self.source@,
            color: self.color,
            default_cycles: self.default_cycles,
            category: self.category,
            difficulty: self.difficulty,
        }
    }

    /// A technique can be practised when it has at least one phase.
    pub open spec fn well_formed(&self) -> bool {
        self.phases@.len() > 0
    }

    /// Field by field the same technique, the phases compared as a sequence.
    pub open spec fn same_as(&self, other: &Technique) -> bool {
        &&& self.id == other.id
        &&& self.name == other.name
        &&& self.tagline == other.tagline
        &&& self.description == other.description
        &&& self.pattern == other.pattern
        &&& self.phases@ == other.phases@
        &&& self.purpose == other.purpose
        &&& self.use_case == other.use_case
        &&& self.source == other.source
        &&& self.color == other.color
        &&& self.default_cycles == other.default_cycles
        &&& self.category == other.category
        &&& self.difficulty == other.difficulty
    }

    /// The length of one full cycle in microseconds, held at `u64::MAX`
    /// where the sum would pass it.
    pub fn cycle_duration(&self) -> (total: u64)
        ensures
            total as nat == if total_micros(self.phases@) <= u64::MAX {
                total_micros(self.phases@)
            } else {
                u64::MAX as nat
            },
    {
        let mut total: u64 = 0;
        let mut i: usize = 0;
        while i < self.phases.len()
            invariant
                i <= self.phases@.len(),
                total as nat == if total_micros(self.phases@.take(i as int)) <= u64::MAX {
                    total_micros(self.phases@.take(i as int))
                } else {
                    u64::MAX as nat
                },
            decreases self.phases@.len() - i,
        {
            assert(self.phases@.take(i + 1).drop_last() =~= self.phases@.take(i as int));
            total = total.saturating_add(self.phases[i].duration_micros);
            i += 1;
        }
        assert(self.phases@.take(i as int) =~= self.phases@);
        total
    }
}

impl Clone for Technique {
    fn clone(&self) -> (out: Self)
        ensures
            out.same_as(self),
    {
        let mut phases: Vec<Phase> = Vec::new();
        let mut i: usize = 0;
        while i < self.phases.len()
            invariant
                i <= self.phases@.len(),
                phases@ == self.phases@.take(i as int),
            decreases self.phases@.len() - i,
        {
            phases.push(self.phases[i]);
            assert(phases@ =~= self.phases@.take(i + 1));
            i += 1;
        }
        assert(self.phases@.take(i as int) =~= self.phases@);
        Technique {
            id: self.id,
            name: self.name,
            tagline: self.tagline,
            description: self.description,
            pattern: self.pattern,
            phases,
            purpose: self.purpose,
            use_case: self.use_case,
            source: self.source,
            color: self.color,
            default_cycles: self.default_cycles,
            category: self.category,
            difficulty: self.difficulty,
        }
    }
}

/// The categories in the order in which they are listed.
pub fn all_categories() -> (all: Vec<Category>)
    ensures
        all@ == seq![
            Category::Focus,
            Category::Calm,
            Category::Sleep,
            Category::Energy,
            Category::Recovery,
        ],
{
    let all: Vec<Category> = vec![
        Category::Focus,
        Category::Calm,
        Category::Sleep,
        Category::Energy,
        Category::Recovery,
    ];
    assert(all@ =~= seq![
        Category::Focus,
        Category::Calm,
        Category::Sleep,
        Category::Energy,
        Category::Recovery,
    ]);
    all
}

/// The built-in techniques, in catalog order.
pub open spec fn catalog() -> Seq<TechniqueSummary> {
    seq![
        TechniqueSummary {
            id: "box"@,
            name: "Box Breathing"@,
            tagline: "Navy SEAL Standard"@,
            description: "The gold standard of tactical breathing. Equal parts inhale, hold, exhale, and hold create a \"box\" pattern that brings you to a state of alert calm."@,
            pattern: "4-4-4-4"@,
            phases: seq![
                PhaseSummary { name: PhaseName::Inhale, duration_micros: 4_000_000, instruction: "Breathe In"@ },
                PhaseSummary { name: PhaseName::Hold, duration_micros: 4_000_000, instruction: "Hold"@ },
                PhaseSummary { name: PhaseName::Exhale, duration_micros: 4_000_000, instruction: "Breathe Out"@ },
                PhaseSummary { name: PhaseName::HoldAfterExhale, duration_micros: 4_000_000, instruction: "Hold Empty"@ },
            ],
            purpose: "Alert calm, mental clarity, stress inoculation"@,
            use_case: "Pre-performance, daily practice, high-pressure situations"@,
            source: "Navy SEAL standard, Mark Divine (SEALFIT)"@,
            color: TechniqueColor { r: 74, g: 144, b: 217 },
            default_cycles: 5,
            category: Category::Focus,
            difficulty: Difficulty::Beginner,
        },
        TechniqueSummary {
            id: "gateway"@,
            name: "Gateway Process"@,
            tagline: "CIA Declassified"@,
            description: "From declassified CIA documents. Developed at the Monroe Institute for intelligence applications. Achieves \"Focus 10\" state—mind awake, body asleep."@,
            pattern: "4-4-8"@,
            phases: seq![
                PhaseSummary { name: PhaseName::Inhale, duration_micros: 4_000_000, instruction: "Deep Breath In"@ },
                PhaseSummary { name: PhaseName::Hold, duration_micros: 4_000_000, instruction: "Hold & Hum"@ },
                PhaseSummary { name: PhaseName::Exhale, duration_micros: 8_000_000, instruction: "Resonant Exhale"@ },
            ],
            purpose: "Enhanced focus, expanded awareness, mental clarity"@,
            use_case: "Deep concentration, meditation, problem-solving"@,
            source: "CIA/Monroe Institute, declassified 2003"@,
            color: TechniqueColor { r: 100, g: 116, b: 139 },
            default_cycles: 7,
            category: Category::Focus,
            difficulty: Difficulty::Intermediate,
        },
        TechniqueSummary {
            id: "operative"@,
            name: "Operative Protocol"@,
            tagline: "Field Agent Standard"@,
            description: "Three-phase technique from declassified CIA training. Emphasizes exhale and post-exhale hold where best mental concentration is achieved."@,
            pattern: "3-6-3"@,
            phases: seq![
                PhaseSummary { name: PhaseName::Inhale, duration_micros: 3_000_000, instruction: "Effortless Inhale"@ },
                PhaseSummary { name: PhaseName::Exhale, duration_micros: 6_000_000, instruction: "Controlled Exhale"@ },
                PhaseSummary { name: PhaseName::HoldAfterExhale, duration_micros: 3_000_000, instruction: "Focus Point"@ },
            ],
            purpose: "Tactical calmness, mental concentration under pressure"@,
            use_case: "High-stakes situations, crisis management"@,
            source: "CIA declassified training documents"@,
            color: TechniqueColor { r: 100, g: 116, b: 139 },
            default_cycles: 8,
            category: Category::Focus,
            difficulty: Difficulty::Intermediate,
        },
        TechniqueSummary {
            id: "sere"@,
            name: "SERE Breathing"@,
            tagline: "Survival Training"@,
            description: "Core technique from Survival, Evasion, Resistance, and Escape training. Builds stress tolerance through controlled discomfort."@,
            pattern: "4-7-8-4"@,
            phases: seq![
                PhaseSummary { name: PhaseName::Inhale, duration_micros: 4_000_000, instruction: "Controlled Inhale"@ },
                PhaseSummary { name: PhaseName::Hold, duration_micros: 7_000_000, instruction: "Stress Inoculation"@ },
                PhaseSummary { name: PhaseName::Exhale, duration_micros: 8_000_000, instruction: "Complete Release"@ },
                PhaseSummary { name: PhaseName::HoldAfterExhale, duration_micros: 4_000_000, instruction: "Empty Resilience"@ },
            ],
            purpose: "Stress inoculation, psychological resilience"@,
            use_case: "Extreme stress preparation, building mental toughness"@,
            source: "SERE Training Program, U.S. Military"@,
            color: TechniqueColor { r: 201, g: 162, b: 39 },
            default_cycles: 6,
            category: Category::Focus,
            difficulty: Difficulty::Advanced,
        },
        TechniqueSummary {
            id: "combat"@,
            name: "Combat Breathing"@,
            tagline: "Rapid Calm-Down"@,
            description: "Designed for rapid calm-down in high-stress situations. Extended exhale activates parasympathetic nervous system, dropping heart rate within seconds."@,
            pattern: "4-1-8"@,
            phases: seq![
                PhaseSummary { name: PhaseName::Inhale, duration_micros: 4_000_000, instruction: "Breathe In"@ },
                PhaseSummary { name: PhaseName::Hold, duration_micros: 1_000_000, instruction: "Brief Pause"@ },
                PhaseSummary { name: PhaseName::Exhale, duration_micros: 8_000_000, instruction: "Slow Exhale"@ },
            ],
            purpose: "Rapid heart rate reduction, combat stress control"@,
            use_case: "Acute stress, panic moments, before confrontation"@,
            source: "U.S. Military Combat Stress Control"@,
            color: TechniqueColor { r: 201, g: 162, b: 39 },
            default_cycles: 6,
            category: Category::Calm,
            difficulty: Difficulty::Beginner,
        },
        TechniqueSummary {
            id: "sigh"@,
            name: "Physiological Sigh"@,
            tagline: "Instant Calm Reset"@,
            description: "The fastest scientifically-proven way to reduce stress in real-time. Double inhale reinflates lung sacs, long exhale offloads CO2, triggering immediate calm."@,
            pattern: "2-1-6"@,
            phases: seq![
                PhaseSummary { name: PhaseName::Inhale, duration_micros: 2_000_000, instruction: "Inhale (Nose)"@ },
                PhaseSummary { name: PhaseName::Inhale, duration_micros: 1_000_000, instruction: "Sip More Air"@ },
                PhaseSummary { name: PhaseName::Exhale, duration_micros: 6_000_000, instruction: "Long Exhale (Mouth)"@ },
            ],
            purpose: "Fastest real-time stress reduction"@,
            use_case: "Panic attacks, immediate relief, emotional reset"@,
            source: "Dr. Andrew Huberman, Stanford Neuroscience"@,
            color: TechniqueColor { r: 74, g: 144, b: 217 },
            default_cycles: 3,
            category: Category::Calm,
            difficulty: Difficulty::Beginner,
        },
        TechniqueSummary {
            id: "coherent"@,
            name: "Coherent Breathing"@,
            tagline: "Heart-Brain Sync"@,
            description: "Breathing at 5 breaths per minute synchronizes heart rate variability, creating \"coherence\" between heart and brain. Used by elite athletes."@,
            pattern: "6-6"@,
            phases: seq![
                PhaseSummary { name: PhaseName::Inhale, duration_micros: 6_000_000, instruction: "Slow Inhale"@ },
                PhaseSummary { name: PhaseName::Exhale, duration_micros: 6_000_000, instruction: "Slow Exhale"@ },
            ],
            purpose: "Heart-brain coherence, HRV optimization"@,
            use_case: "Daily practice, emotional regulation, peak performance"@,
            source: "HeartMath Institute, Stephen Elliott"@,
            color: TechniqueColor { r: 244, g: 63, b: 94 },
            default_cycles: 10,
            category: Category::Calm,
            difficulty: Difficulty::Intermediate,
        },
        TechniqueSummary {
            id: "resonant"@,
            name: "Resonant Breathing"@,
            tagline: "Vagal Tone Builder"@,
            description: "Optimizes vagal tone—the strength of your relaxation response. At 5-6 breaths per minute, cardiovascular system enters resonance."@,
            pattern: "5-5"@,
            phases: seq![
                PhaseSummary { name: PhaseName::Inhale, duration_micros: 5_000_000, instruction: "Smooth Inhale"@ },
                PhaseSummary { name: PhaseName::Exhale, duration_micros: 5_000_000, instruction: "Smooth Exhale"@ },
            ],
            purpose: "Build long-term stress resilience"@,
            use_case: "Daily practice, vagal toning, PTSD recovery"@,
            source: "Dr. Richard Brown, Columbia University"@,
            color: TechniqueColor { r: 34, g: 197, b: 94 },
            default_cycles: 12,
            category: Category::Calm,
            difficulty: Difficulty::Beginner,
        },
        TechniqueSummary {
            id: "military-sleep"@,
            name: "Military Sleep"@,
            tagline: "2-Minute Sleep Technique"@,
            description: "Developed for fighter pilots to fall asleep in 2 minutes under any conditions. Used by 96% of pilots after 6 weeks of practice."@,
            pattern: "4-7-8"@,
            phases: seq![
                PhaseSummary { name: PhaseName::Inhale, duration_micros: 4_000_000, instruction: "Deep Breath In"@ },
                PhaseSummary { name: PhaseName::Hold, duration_micros: 7_000_000, instruction: "Hold & Relax Face"@ },
                PhaseSummary { name: PhaseName::Exhale, duration_micros: 8_000_000, instruction: "Release Everything"@ },
            ],
            purpose: "Fall asleep in under 2 minutes"@,
            use_case: "Insomnia, sleeping in difficult conditions, jet lag"@,
            source: "U.S. Navy Pre-Flight School, Bud Winter"@,
            color: TechniqueColor { r: 139, g: 92, b: 246 },
            default_cycles: 6,
            category: Category::Sleep,
            difficulty: Difficulty::Beginner,
        },
        TechniqueSummary {
            id: "478"@,
            name: "4-7-8 Breathing"@,
            tagline: "Natural Tranquilizer"@,
            description: "A powerful relaxation technique that acts as a natural tranquilizer for the nervous system. Long hold and exhale shift body into deep rest mode."@,
            pattern: "4-7-8"@,
            phases: seq![
                PhaseSummary { name: PhaseName::Inhale, duration_micros: 4_000_000, instruction: "Breathe In"@ },
                PhaseSummary { name: PhaseName::Hold, duration_micros: 7_000_000, instruction: "Hold"@ },
                PhaseSummary { name: PhaseName::Exhale, duration_micros: 8_000_000, instruction: "Breathe Out"@ },
            ],
            purpose: "Deep relaxation, nervous system reset"@,
            use_case: "Pre-sleep routine, anxiety relief, wind-down"@,
            source: "Dr. Andrew Weil (based on yogic pranayama)"@,
            color: TechniqueColor { r: 139, g: 92, b: 246 },
            default_cycles: 4,
            category: Category::Sleep,
            difficulty: Difficulty::Beginner,
        },
        TechniqueSummary {
            id: "sleep-exhale"@,
            name: "Sleep Exhale"@,
            tagline: "Extended Exhale Sleep"@,
            description: "Emphasizes very long exhale to maximally activate parasympathetic \"rest and digest\" response. 2:1 exhale-to-inhale ratio signals deep safety."@,
            pattern: "4-2-8-2"@,
            phases: seq![
                PhaseSummary { name: PhaseName::Inhale, duration_micros: 4_000_000, instruction: "Gentle Inhale"@ },
                PhaseSummary { name: PhaseName::Hold, duration_micros: 2_000_000, instruction: "Soft Hold"@ },
                PhaseSummary { name: PhaseName::Exhale, duration_micros: 8_000_000, instruction: "Long Slow Exhale"@ },
                PhaseSummary { name: PhaseName::HoldAfterExhale, duration_micros: 2_000_000, instruction: "Rest Empty"@ },
            ],
            purpose: "Maximum relaxation, parasympathetic activation"@,
            use_case: "Deep insomnia, racing thoughts, nighttime anxiety"@,
            source: "Clinical sleep research"@,
            color: TechniqueColor { r: 139, g: 92, b: 246 },
            default_cycles: 8,
            category: Category::Sleep,
            difficulty: Difficulty::Beginner,
        },
        TechniqueSummary {
            id: "energize"@,
            name: "Energizing Breath"@,
            tagline: "Natural Energy Surge"@,
            description: "Controlled hyperventilation that boosts oxygen levels and triggers adrenaline release. Creates natural energy surge without caffeine."@,
            pattern: "1-1"@,
            phases: seq![
                PhaseSummary { name: PhaseName::Inhale, duration_micros: 1_000_000, instruction: "Quick Inhale"@ },
                PhaseSummary { name: PhaseName::Exhale, duration_micros: 1_000_000, instruction: "Quick Exhale"@ },
            ],
            purpose: "Alertness, energy boost, wake-up"@,
            use_case: "Morning activation, pre-workout, afternoon slump"@,
            source: "Modified from Wim Hof & Kapalabhati"@,
            color: TechniqueColor { r: 251, g: 146, b: 60 },
            default_cycles: 30,
            category: Category::Energy,
            difficulty: Difficulty::Intermediate,
        },
        TechniqueSummary {
            id: "power"@,
            name: "Power Breathing"@,
            tagline: "Pre-Mission Activation"@,
            description: "Used by special operators before missions. Builds energy through breath holds that trigger adrenaline, then channels it with controlled exhales."@,
            pattern: "4-4-4"@,
            phases: seq![
                PhaseSummary { name: PhaseName::Inhale, duration_micros: 4_000_000, instruction: "Power Inhale"@ },
                PhaseSummary { name: PhaseName::Hold, duration_micros: 4_000_000, instruction: "Build Energy"@ },
                PhaseSummary { name: PhaseName::Exhale, duration_micros: 4_000_000, instruction: "Channel Power"@ },
            ],
            purpose: "Peak activation, mental intensity, pre-performance"@,
            use_case: "Before competition, presentations, physical challenges"@,
            source: "Special Operations performance protocols"@,
            color: TechniqueColor { r: 251, g: 146, b: 60 },
            default_cycles: 6,
            category: Category::Energy,
            difficulty: Difficulty::Beginner,
        },
        TechniqueSummary {
            id: "wim-hof"@,
            name: "Wim Hof Method"@,
            tagline: "The Iceman Protocol"@,
            description: "Famous technique from \"The Iceman.\" 30 power breaths create massive oxygen saturation and controlled stress exposure, building mental resilience."@,
            pattern: "2-1"@,
            phases: seq![
                PhaseSummary { name: PhaseName::Inhale, duration_micros: 2_000_000, instruction: "Full Breath In"@ },
                PhaseSummary { name: PhaseName::Exhale, duration_micros: 1_000_000, instruction: "Let Go"@ },
            ],
            purpose: "Immune boost, cold tolerance, mental fortitude"@,
            use_case: "Morning practice, cold exposure prep, stress inoculation"@,
            source: "Wim Hof, validated by Radboud University"@,
            color: TechniqueColor { r: 74, g: 144, b: 217 },
            default_cycles: 30,
            category: Category::Energy,
            difficulty: Difficulty::Advanced,
        },
        TechniqueSummary {
            id: "recovery"@,
            name: "Recovery Breathing"@,
            tagline: "Post-Stress Recovery"@,
            description: "Designed for recovery after intense physical or mental stress. Longer exhales and holds maximize parasympathetic recovery and reduce cortisol."@,
            pattern: "4-2-6-4"@,
            phases: seq![
                PhaseSummary { name: PhaseName::Inhale, duration_micros: 4_000_000, instruction: "Recovery Breath"@ },
                PhaseSummary { name: PhaseName::Hold, duration_micros: 2_000_000, instruction: "Brief Hold"@ },
                PhaseSummary { name: PhaseName::Exhale, duration_micros: 6_000_000, instruction: "Release Tension"@ },
                PhaseSummary { name: PhaseName::HoldAfterExhale, duration_micros: 4_000_000, instruction: "Deep Rest"@ },
            ],
            purpose: "Cortisol reduction, nervous system recovery"@,
            use_case: "Post-workout, after stressful events, evening wind-down"@,
            source: "Sports science recovery protocols"@,
            color: TechniqueColor { r: 34, g: 197, b: 94 },
            default_cycles: 8,
            category: Category::Recovery,
            difficulty: Difficulty::Beginner,
        },
        TechniqueSummary {
            id: "nsdr"@,
            name: "NSDR Breathing"@,
            tagline: "Non-Sleep Deep Rest"@,
            description: "Breathing pattern for Non-Sleep Deep Rest, providing recovery benefits similar to sleep. Achieves deep relaxation while maintaining awareness."@,
            pattern: "4-6-6"@,
            phases: seq![
                PhaseSummary { name: PhaseName::Inhale, duration_micros: 4_000_000, instruction: "Gentle Inhale"@ },
                PhaseSummary { name: PhaseName::Hold, duration_micros: 6_000_000, instruction: "Restful Hold"@ },
                PhaseSummary { name: PhaseName::Exhale, duration_micros: 6_000_000, instruction: "Melting Exhale"@ },
            ],
            purpose: "Deep rest without sleep, recovery, focus restoration"@,
            use_case: "Afternoon recharge, sleep debt recovery, mental reset"@,
            source: "Dr. Andrew Huberman, Stanford protocols"@,
            color: TechniqueColor { r: 139, g: 92, b: 246 },
            default_cycles: 10,
            category: Category::Recovery,
            difficulty: Difficulty::Beginner,
        },
    ]
}

/// All built-in techniques, in catalog order.
pub fn all_techniques() -> (all: Vec<Technique>)
    ensures
        all@.len() == catalog().len(),
        forall|i: int| 0 <= i < all@.len() ==> (#[trigger] all@[i]).summary() == catalog()[i],
        forall|i: int| 0 <= i < all@.len() ==> (#[trigger] all@[i]).well_formed(),
{
    let mut all: Vec<Technique> = Vec::new();
    let phases: Vec<Phase> = vec![
                Phase { name: PhaseName::Inhale, duration_micros: 4_000_000, instruction: "Breathe In" },
                Phase { name: PhaseName::Hold, duration_micros: 4_000_000, instruction: "Hold" },
                Phase { name: PhaseName::Exhale, duration_micros: 4_000_000, instruction: "Breathe Out" },
                Phase { name: PhaseName::HoldAfterExhale, duration_micros: 4_000_000, instruction: "Hold Empty" },
    ];
    all.push(Technique {
        id: "box",
        name: "Box Breathing",
        tagline: "Navy SEAL Standard",
        description: "The gold standard of tactical breathing. Equal parts inhale, hold, exhale, and hold create a \"box\" pattern that brings you to a state of alert calm.",
        pattern: "4-4-4-4",
        phases,
        purpose: "Alert calm, mental clarity, stress inoculation",
        use_case: "Pre-performance, daily practice, high-pressure situations",
        source: "Navy SEAL standard, Mark Divine (SEALFIT)",
        color: TechniqueColor::arctic(),
        default_cycles: 5,
        category: Category::Focus,
        difficulty: Difficulty::Beginner,
    });
    assert(phase_pattern(all@[0].phases@) =~= catalog()[0].phases);

    let phases: Vec<Phase> = vec![
                Phase { name: PhaseName::Inhale, duration_micros: 4_000_000, instruction: "Deep Breath In" },
                Phase { name: PhaseName::Hold, duration_micros: 4_000_000, instruction: "Hold & Hum" },
                Phase { name: PhaseName::Exhale, duration_micros: 8_000_000, instruction: "Resonant Exhale" },
    ];
    all.push(Technique {
        id: "gateway",
        name: "Gateway Process",
        tagline: "CIA Declassified",
        description: "From declassified CIA documents. Developed at the Monroe Institute for intelligence applications. Achieves \"Focus 10\" state—mind awake, body asleep.",
        pattern: "4-4-8",
        phases,
        purpose: "Enhanced focus, expanded awareness, mental clarity",
        use_case: "Deep concentration, meditation, problem-solving",
        source: "CIA/Monroe Institute, declassified 2003",
        color: TechniqueColor::slate(),
        default_cycles: 7,
        category: Category::Focus,
        difficulty: Difficulty::Intermediate,
    });
    assert(phase_pattern(all@[1].phases@) =~= catalog()[1].phases);

    let phases: Vec<Phase> = vec![
                Phase { name: PhaseName::Inhale, duration_micros: 3_000_000, instruction: "Effortless Inhale" },
                Phase { name: PhaseName::Exhale, duration_micros: 6_000_000, instruction: "Controlled Exhale" },
                Phase { name: PhaseName::HoldAfterExhale, duration_micros: 3_000_000, instruction: "Focus Point" },
    ];
    all.push(Technique {
        id: "operative",
        name: "Operative Protocol",
        tagline: "Field Agent Standard",
        description: "Three-phase technique from declassified CIA training. Emphasizes exhale and post-exhale hold where best mental concentration is achieved.",
        pattern: "3-6-3",
        phases,
        purpose: "Tactical calmness, mental concentration under pressure",
        use_case: "High-stakes situations, crisis management",
        source: "CIA declassified training documents",
        color: TechniqueColor::slate(),
        default_cycles: 8,
        category: Category::Focus,
        difficulty: Difficulty::Intermediate,
    });
    assert(phase_pattern(all@[2].phases@) =~= catalog()[2].phases);

    let phases: Vec<Phase> = vec![
                Phase { name: PhaseName::Inhale, duration_micros: 4_000_000, instruction: "Controlled Inhale" },
                Phase { name: PhaseName::Hold, duration_micros: 7_000_000, instruction: "Stress Inoculation" },
                Phase { name: PhaseName::Exhale, duration_micros: 8_000_000, instruction: "Complete Release" },
                Phase { name: PhaseName::HoldAfterExhale, duration_micros: 4_000_000, instruction: "Empty Resilience" },
    ];
    all.push(Technique {
        id: "sere",
        name: "SERE Breathing",
        tagline: "Survival Training",
        description: "Core technique from Survival, Evasion, Resistance, and Escape training. Builds stress tolerance through controlled discomfort.",
        pattern: "4-7-8-4",
        phases,
        purpose: "Stress inoculation, psychological resilience",
        use_case: "Extreme stress preparation, building mental toughness",
        source: "SERE Training Program, U.S. Military",
        color: TechniqueColor::gold(),
        default_cycles: 6,
        category: Category::Focus,
        difficulty: Difficulty::Advanced,
    });
    assert(phase_pattern(all@[3].phases@) =~= catalog()[3].phases);

    let phases: Vec<Phase> = vec![
                Phase { name: PhaseName::Inhale, duration_micros: 4_000_000, instruction: "Breathe In" },
                Phase { name: PhaseName::Hold, duration_micros: 1_000_000, instruction: "Brief Pause" },
                Phase { name: PhaseName::Exhale, duration_micros: 8_000_000, instruction: "Slow Exhale" },
    ];
    all.push(Technique {
        id: "combat",
        name: "Combat Breathing",
        tagline: "Rapid Calm-Down",
        description: "Designed for rapid calm-down in high-stress situations. Extended exhale activates parasympathetic nervous system, dropping heart rate within seconds.",
        pattern: "4-1-8",
        phases,
        purpose: "Rapid heart rate reduction, combat stress control",
        use_case: "Acute stress, panic moments, before confrontation",
        source: "U.S. Military Combat Stress Control",
        color: TechniqueColor::gold(),
        default_cycles: 6,
        category: Category::Calm,
        difficulty: Difficulty::Beginner,
    });
    assert(phase_pattern(all@[4].phases@) =~= catalog()[4].phases);

    let phases: Vec<Phase> = vec![
                Phase { name: PhaseName::Inhale, duration_micros: 2_000_000, instruction: "Inhale (Nose)" },
                Phase { name: PhaseName::Inhale, duration_micros: 1_000_000, instruction: "Sip More Air" },
                Phase { name: PhaseName::Exhale, duration_micros: 6_000_000, instruction: "Long Exhale (Mouth)" },
    ];
    all.push(Technique {
        id: "sigh",
        name: "Physiological Sigh",
        tagline: "Instant Calm Reset",
        description: "The fastest scientifically-proven way to reduce stress in real-time. Double inhale reinflates lung sacs, long exhale offloads CO2, triggering immediate calm.",
        pattern: "2-1-6",
        phases,
        purpose: "Fastest real-time stress reduction",
        use_case: "Panic attacks, immediate relief, emotional reset",
        source: "Dr. Andrew Huberman, Stanford Neuroscience",
        color: TechniqueColor::arctic(),
        default_cycles: 3,
        category: Category::Calm,
        difficulty: Difficulty::Beginner,
    });
    assert(phase_pattern(all@[5].phases@) =~= catalog()[5].phases);

    let phases: Vec<Phase> = vec![
                Phase { name: PhaseName::Inhale, duration_micros: 6_000_000, instruction: "Slow Inhale" },
                Phase { name: PhaseName::Exhale, duration_micros: 6_000_000, instruction: "Slow Exhale" },
    ];
    all.push(Technique {
        id: "coherent",
        name: "Coherent Breathing",
        tagline: "Heart-Brain Sync",
        description: "Breathing at 5 breaths per minute synchronizes heart rate variability, creating \"coherence\" between heart and brain. Used by elite athletes.",
        pattern: "6-6",
        phases,
        purpose: "Heart-brain coherence, HRV optimization",
        use_case: "Daily practice, emotional regulation, peak performance",
        source: "HeartMath Institute, Stephen Elliott",
        color: TechniqueColor::rose(),
        default_cycles: 10,
        category: Category::Calm,
        difficulty: Difficulty::Intermediate,
    });
    assert(phase_pattern(all@[6].phases@) =~= catalog()[6].phases);

    let phases: Vec<Phase> = vec![
                Phase { name: PhaseName::Inhale, duration_micros: 5_000_000, instruction: "Smooth Inhale" },
                Phase { name: PhaseName::Exhale, duration_micros: 5_000_000, instruction: "Smooth Exhale" },
    ];
    all.push(Technique {
        id: "resonant",
        name: "Resonant Breathing",
        tagline: "Vagal Tone Builder",
        description: "Optimizes vagal tone—the strength of your relaxation response. At 5-6 breaths per minute, cardiovascular system enters resonance.",
        pattern: "5-5",
        phases,
        purpose: "Build long-term stress resilience",
        use_case: "Daily practice, vagal toning, PTSD recovery",
        source: "Dr. Richard Brown, Columbia University",
        color: TechniqueColor::emerald(),
        default_cycles: 12,
        category: Category::Calm,
        difficulty: Difficulty::Beginner,
    });
    assert(phase_pattern(all@[7].phases@) =~= catalog()[7].phases);

    let phases: Vec<Phase> = vec![
                Phase { name: PhaseName::Inhale, duration_micros: 4_000_000, instruction: "Deep Breath In" },
                Phase { name: PhaseName::Hold, duration_micros: 7_000_000, instruction: "Hold & Relax Face" },
                Phase { name: PhaseName::Exhale, duration_micros: 8_000_000, instruction: "Release Everything" },
    ];
    all.push(Technique {
        id: "military-sleep",
        name: "Military Sleep",
        tagline: "2-Minute Sleep Technique",
        description: "Developed for fighter pilots to fall asleep in 2 minutes under any conditions. Used by 96% of pilots after 6 weeks of practice.",
        pattern: "4-7-8",
        phases,
        purpose: "Fall asleep in under 2 minutes",
        use_case: "Insomnia, sleeping in difficult conditions, jet lag",
        source: "U.S. Navy Pre-Flight School, Bud Winter",
        color: TechniqueColor::purple(),
        default_cycles: 6,
        category: Category::Sleep,
        difficulty: Difficulty::Beginner,
    });
    assert(phase_pattern(all@[8].phases@) =~= catalog()[8].phases);

    let phases: Vec<Phase> = vec![
                Phase { name: PhaseName::Inhale, duration_micros: 4_000_000, instruction: "Breathe In" },
                Phase { name: PhaseName::Hold, duration_micros: 7_000_000, instruction: "Hold" },
                Phase { name: PhaseName::Exhale, duration_micros: 8_000_000, instruction: "Breathe Out" },
    ];
    all.push(Technique {
        id: "478",
        name: "4-7-8 Breathing",
        tagline: "Natural Tranquilizer",
        description: "A powerful relaxation technique that acts as a natural tranquilizer for the nervous system. Long hold and exhale shift body into deep rest mode.",
        pattern: "4-7-8",
        phases,
        purpose: "Deep relaxation, nervous system reset",
        use_case: "Pre-sleep routine, anxiety relief, wind-down",
        source: "Dr. Andrew Weil (based on yogic pranayama)",
        color: TechniqueColor::purple(),
        default_cycles: 4,
        category: Category::Sleep,
        difficulty: Difficulty::Beginner,
    });
    assert(phase_pattern(all@[9].phases@) =~= catalog()[9].phases);

    let phases: Vec<Phase> = vec![
                Phase { name: PhaseName::Inhale, duration_micros: 4_000_000, instruction: "Gentle Inhale" },
                Phase { name: PhaseName::Hold, duration_micros: 2_000_000, instruction: "Soft Hold" },
                Phase { name: PhaseName::Exhale, duration_micros: 8_000_000, instruction: "Long Slow Exhale" },
                Phase { name: PhaseName::HoldAfterExhale, duration_micros: 2_000_000, instruction: "Rest Empty" },
    ];
    all.push(Technique {
        id: "sleep-exhale",
        name: "Sleep Exhale",
        tagline: "Extended Exhale Sleep",
        description: "Emphasizes very long exhale to maximally activate parasympathetic \"rest and digest\" response. 2:1 exhale-to-inhale ratio signals deep safety.",
        pattern: "4-2-8-2",
        phases,
        purpose: "Maximum relaxation, parasympathetic activation",
        use_case: "Deep insomnia, racing thoughts, nighttime anxiety",
        source: "Clinical sleep research",
        color: TechniqueColor::purple(),
        default_cycles: 8,
        category: Category::Sleep,
        difficulty: Difficulty::Beginner,
    });
    assert(phase_pattern(all@[10].phases@) =~= catalog()[10].phases);

    let phases: Vec<Phase> = vec![
                Phase { name: PhaseName::Inhale, duration_micros: 1_000_000, instruction: "Quick Inhale" },
                Phase { name: PhaseName::Exhale, duration_micros: 1_000_000, instruction: "Quick Exhale" },
    ];
    all.push(Technique {
        id: "energize",
        name: "Energizing Breath",
        tagline: "Natural Energy Surge",
        description: "Controlled hyperventilation that boosts oxygen levels and triggers adrenaline release. Creates natural energy surge without caffeine.",
        pattern: "1-1",
        phases,
        purpose: "Alertness, energy boost, wake-up",
        use_case: "Morning activation, pre-workout, afternoon slump",
        source: "Modified from Wim Hof & Kapalabhati",
        color: TechniqueColor::orange(),
        default_cycles: 30,
        category: Category::Energy,
        difficulty: Difficulty::Intermediate,
    });
    assert(phase_pattern(all@[11].phases@) =~= catalog()[11].phases);

    let phases: Vec<Phase> = vec![
                Phase { name: PhaseName::Inhale, duration_micros: 4_000_000, instruction: "Power Inhale" },
                Phase { name: PhaseName::Hold, duration_micros: 4_000_000, instruction: "Build Energy" },
                Phase { name: PhaseName::Exhale, duration_micros: 4_000_000, instruction: "Channel Power" },
    ];
    all.push(Technique {
        id: "power",
        name: "Power Breathing",
        tagline: "Pre-Mission Activation",
        description: "Used by special operators before missions. Builds energy through breath holds that trigger adrenaline, then channels it with controlled exhales.",
        pattern: "4-4-4",
        phases,
        purpose: "Peak activation, mental intensity, pre-performance",
        use_case: "Before competition, presentations, physical challenges",
        source: "Special Operations performance protocols",
        color: TechniqueColor::orange(),
        default_cycles: 6,
        category: Category::Energy,
        difficulty: Difficulty::Beginner,
    });
    assert(phase_pattern(all@[12].phases@) =~= catalog()[12].phases);

    let phases: Vec<Phase> = vec![
                Phase { name: PhaseName::Inhale, duration_micros: 2_000_000, instruction: "Full Breath In" },
                Phase { name: PhaseName::Exhale, duration_micros: 1_000_000, instruction: "Let Go" },
    ];
    all.push(Technique {
        id: "wim-hof",
        name: "Wim Hof Method",
        tagline: "The Iceman Protocol",
        description: "Famous technique from \"The Iceman.\" 30 power breaths create massive oxygen saturation and controlled stress exposure, building mental resilience.",
        pattern: "2-1",
        phases,
        purpose: "Immune boost, cold tolerance, mental fortitude",
        use_case: "Morning practice, cold exposure prep, stress inoculation",
        source: "Wim Hof, validated by Radboud University",
        color: TechniqueColor::arctic(),
        default_cycles: 30,
        category: Category::Energy,
        difficulty: Difficulty::Advanced,
    });
    assert(phase_pattern(all@[13].phases@) =~= catalog()[13].phases);

    let phases: Vec<Phase> = vec![
                Phase { name: PhaseName::Inhale, duration_micros: 4_000_000, instruction: "Recovery Breath" },
                Phase { name: PhaseName::Hold, duration_micros: 2_000_000, instruction: "Brief Hold" },
                Phase { name: PhaseName::Exhale, duration_micros: 6_000_000, instruction: "Release Tension" },
                Phase { name: PhaseName::HoldAfterExhale, duration_micros: 4_000_000, instruction: "Deep Rest" },
    ];
    all.push(Technique {
        id: "recovery",
        name: "Recovery Breathing",
        tagline: "Post-Stress Recovery",
        description: "Designed for recovery after intense physical or mental stress. Longer exhales and holds maximize parasympathetic recovery and reduce cortisol.",
        pattern: "4-2-6-4",
        phases,
        purpose: "Cortisol reduction, nervous system recovery",
        use_case: "Post-workout, after stressful events, evening wind-down",
        source: "Sports science recovery protocols",
        color: TechniqueColor::emerald(),
        default_cycles: 8,
        category: Category::Recovery,
        difficulty: Difficulty::Beginner,
    });
    assert(phase_pattern(all@[14].phases@) =~= catalog()[14].phases);

    let phases: Vec<Phase> = vec![
                Phase { name: PhaseName::Inhale, duration_micros: 4_000_000, instruction: "Gentle Inhale" },
                Phase { name: PhaseName::Hold, duration_micros: 6_000_000, instruction: "Restful Hold" },
                Phase { name: PhaseName::Exhale, duration_micros: 6_000_000, instruction: "Melting Exhale" },
    ];
    all.push(Technique {
        id: "nsdr",
        name: "NSDR Breathing",
        tagline: "Non-Sleep Deep Rest",
        description: "Breathing pattern for Non-Sleep Deep Rest, providing recovery benefits similar to sleep. Achieves deep relaxation while maintaining awareness.",
        pattern: "4-6-6",
        phases,
        purpose: "Deep rest without sleep, recovery, focus restoration",
        use_case: "Afternoon recharge, sleep debt recovery, mental reset",
        source: "Dr. Andrew Huberman, Stanford protocols",
        color: TechniqueColor::purple(),
        default_cycles: 10,
        category: Category::Recovery,
        difficulty: Difficulty::Beginner,
    });
    assert(phase_pattern(all@[15].phases@) =~= catalog()[15].phases);

    all
}

/// The first index at or after `from` whose entry has the given id, or the
/// length of `entries` where there is none.
pub open spec fn first_with_id(entries: Seq<TechniqueSummary>, id: Seq<char>, from: int) -> int
    decreases entries.len() - from,
{
    if from < 0 || from >= entries.len() {
        entries.len() as int
    } else if entries[from].id == id {
        from
    } else {
        first_with_id(entries, id, from + 1)
    }
}

/// Whether two string slices hold the same characters.
fn same_text(a: &str, b: &str) -> (same: bool)
    ensures
        same == (a@ == b@),
{
    let length = a.unicode_len();
    if length != b.unicode_len() {
        return false;
    }
    let mut i: usize = 0;
    while i < length
        invariant
            i <= length,
            length == a@.len(),
            length == b@.len(),
            forall|j: int| 0 <= j < i ==> a@[j] == b@[j],
        decreases length - i,
    {
        if a.get_char(i) != b.get_char(i) {
            return false;
        }
        i += 1;
    }
    assert(a@ =~= b@);
    true
}

/// Looks a technique up by its id. The first catalog entry with that id is
/// returned; `None` where the catalog has no such entry.
pub fn get_technique(id: &str) -> (found: Option<Technique>)
    ensures
        match found {
            Some(t) => {
                let k = first_with_id(catalog(), id@, 0);
                &&& 0 <= k < catalog().len()
                &&& t.summary() == catalog()[k]
                &&& t.well_formed()
            },
            None => first_with_id(catalog(), id@, 0) == catalog().len(),
        },
{
    let mut all = all_techniques();
    let mut i: usize = 0;
    while i < all.len()
        invariant
            i <= all@.len(),
            all@.len() == catalog().len(),
            forall|j: int| 0 <= j < all@.len() ==> (#[trigger] all@[j]).summary() == catalog()[j],
            forall|j: int| 0 <= j < all@.len() ==> (#[trigger] all@[j]).well_formed(),
            first_with_id(catalog(), id@, 0) == first_with_id(catalog(), id@, i as int),
        decreases all@.len() - i,
    {
        if same_text(all[i].id, id) {
            let t = all.swap_remove(i);
            return Some(t);
        }
        i += 1;
    }
    None
}

/// The entries of `entries` that belong to `category`, in order.
pub open spec fn in_category(entries: Seq<TechniqueSummary>, category: Category) -> Seq<
    TechniqueSummary,
> {
    entries.filter(|e: TechniqueSummary| e.category == category)
}

proof fn lemma_in_category_push(entries: Seq<TechniqueSummary>, e: TechniqueSummary, category: Category)
    ensures
        in_category(entries.push(e), category) == if e.category == category {
            in_category(entries, category).push(e)
        } else {
            in_category(entries, category)
        },
{
    reveal(Seq::filter);
    assert(entries.push(e).drop_last() =~= entries);
}

/// The summaries of a list of techniques, in order.
pub open spec fn summaries(list: Seq<Technique>) -> Seq<TechniqueSummary> {
    Seq::new(list.len(), |i: int| list[i].summary())
}

/// The techniques of one category, in catalog order.
pub fn get_techniques_by_category(category: Category) -> (list: Vec<Technique>)
    ensures
        summaries(list@) == in_category(catalog(), category),
        forall|i: int| 0 <= i < list@.len() ==> (#[trigger] list@[i]).well_formed(),
{
    let all = all_techniques();
    let mut list: Vec<Technique> = Vec::new();
    let mut i: usize = 0;
    assert(catalog().take(0) =~= Seq::<TechniqueSummary>::empty());
    assert(summaries(list@) =~= in_category(catalog().take(0), category)) by {
        reveal(Seq::filter);
    }
    while i < all.len()
        invariant
            i <= all@.len(),
            all@.len() == catalog().len(),
            forall|j: int| 0 <= j < all@.len() ==> (#[trigger] all@[j]).summary() == catalog()[j],
            forall|j: int| 0 <= j < all@.len() ==> (#[trigger] all@[j]).well_formed(),
            summaries(list@) == in_category(catalog().take(i as int), category),
            forall|j: int| 0 <= j < list@.len() ==> (#[trigger] list@[j]).well_formed(),
        decreases all@.len() - i,
    {
        proof {
            lemma_in_category_push(catalog().take(i as int), catalog()[i as int], category);
            assert(catalog().take(i as int).push(catalog()[i as int]) =~= catalog().take(i + 1));
        }
        if all[i].category == category {
            let ghost before = list@;
            let t = all[i].clone();
            assert(t.summary() =~= all@[i as int].summary());
            list.push(t);
            assert(summaries(list@) =~= summaries(before).push(t.summary()));
        }
        i += 1;
    }
    assert(catalog().take(i as int) =~= catalog());
    list
}

} // verus!
