//! The instrument style catalogue: one variant per General MIDI program
//! number, with the identifier round trip and the display names the
//! generation API expects.

use vstd::prelude::*;

verus! {

/// An instrument style the user can pick for generation. Each style stands
/// for one General MIDI program, numbered from zero.
#[derive(Debug, Clone, Copy, PartialEq, Eq, Structural)]
pub enum Style {
    AcousticGrand,
    BrightAcoustic,
    ElectricGrand,
    HonkyTonk,
    ElectricPiano1,
    ElectricPiano2,
    Harpsichord,
    Clav,
    Celesta,
    Glockenspiel,
    MusicBox,
    Vibraphone,
    Marimba,
    Xylophone,
    TubularBells,
    Dulcimer,
    DrawbarOrgan,
    PercussiveOrgan,
    RockOrgan,
    ChurchOrgan,
    ReedOrgan,
    Accordion,
    Harmonica,
    TangoAccordion,
    AcousticGuitarNylon,
    AcousticGuitarSteel,
    ElectricGuitarJazz,
    ElectricGuitarClean,
    ElectricGuitarMuted,
    OverdrivenGuitar,
    DistortionGuitar,
    GuitarHarmonics,
    AcousticBass,
    ElectricBassFinger,
    ElectricBassPick,
    FretlessBass,
    SlapBass1,
    SlapBass2,
    SynthBass1,
    SynthBass2,
    Violin,
    Viola,
    Cello,
    Contrabass,
    TremoloStrings,
    PizzicatoStrings,
    OrchestralHarp,
    Timpani,
    StringEnsemble1,
    StringEnsemble2,
    SynthStrings1,
    SynthStrings2,
    ChoirAahs,
    VoiceOohs,
    SynthVoice,
    OrchestraHit,
    Trumpet,
    Trombone,
    Tuba,
    MutedTrumpet,
    FrenchHorn,
    BrassSection,
    SynthBrass1,
    SynthBrass2,
    SopranoSax,
    AltoSax,
    TenorSax,
    BaritoneSax,
    Oboe,
    EnglishHorn,
    Bassoon,
    Clarinet,
    Piccolo,
    Flute,
    Recorder,
    PanFlute,
    BlownBottle,
    Shakuhachi,
    Whistle,
    Ocarina,
    Lead1Square,
    Lead2Sawtooth,
    Lead3Calliope,
    Lead4Chiff,
    Lead5Charang,
    Lead6Voice,
    Lead7Fifths,
    Lead8BassLead,
    Pad1NewAge,
    Pad2Warm,
    Pad3Polysynth,
    Pad4Choir,
    Pad5Bowed,
    Pad6Metallic,
    Pad7Halo,
    Pad8Sweep,
    FX1Rain,
    FX2Soundtrack,
    FX3Crystal,
    FX4Atmosphere,
    FX5Brightness,
    FX6Goblins,
    FX7Echoes,
    FX8SciFi,
    Sitar,
    Banjo,
    Shamisen,
    Koto,
    Kalimba,
    Bagpipe,
    Fiddle,
    Shanai,
    TinkleBell,
    Agogo,
    SteelDrums,
    Woodblock,
    TaikoDrum,
    MelodicTom,
    SynthDrum,
    ReverseCymbal,
    GuitarFretNoise,
    BreathNoise,
    Seashore,
    BirdTweet,
    TelephoneRing,
    Helicopter,
    Applause,
    Gunshot,
}

impl Style {
    /// The style for a General MIDI program number. Returns a style exactly
    /// for the numbers below 128.
    pub fn from_id(id: u8) -> (r: Option<Style>)
        ensures
            id < 128 ==> (r matches Some(s) && s.spec_id() == id),
            id >= 128 ==> r is None,
    {
        match id {
            0 => Some(Style::AcousticGrand),
            1 => Some(Style::BrightAcoustic),
            2 => Some(Style::ElectricGrand),
            3 => Some(Style::HonkyTonk),
            4 => Some(Style::ElectricPiano1),
            5 => Some(Style::ElectricPiano2),
            6 => Some(Style::Harpsichord),
            7 => Some(Style::Clav),
            8 => Some(Style::Celesta),
            9 => Some(Style::Glockenspiel),
            10 => Some(Style::MusicBox),
            11 => Some(Style::Vibraphone),
            12 => Some(Style::Marimba),
            13 => Some(Style::Xylophone),
            14 => Some(Style::TubularBells),
            15 => Some(Style::Dulcimer),
            16 => Some(Style::DrawbarOrgan),
            17 => Some(Style::PercussiveOrgan),
            18 => Some(Style::RockOrgan),
            19 => Some(Style::ChurchOrgan),
            20 => Some(Style::ReedOrgan),
            21 => Some(Style::Accordion),
            22 => Some(Style::Harmonica),
            23 => Some(Style::TangoAccordion),
            24 => Some(Style::AcousticGuitarNylon),
            25 => Some(Style::AcousticGuitarSteel),
            26 => Some(Style::ElectricGuitarJazz),
            27 => Some(Style::ElectricGuitarClean),
            28 => Some(Style::ElectricGuitarMuted),
            29 => Some(Style::OverdrivenGuitar),
            30 => Some(Style::DistortionGuitar),
            31 => Some(Style::GuitarHarmonics),
            32 => Some(Style::AcousticBass),
            33 => Some(Style::ElectricBassFinger),
            34 => Some(Style::ElectricBassPick),
            35 => Some(Style::FretlessBass),
            36 => Some(Style::SlapBass1),
            37 => Some(Style::SlapBass2),
            38 => Some(Style::SynthBass1),
            39 => Some(Style::SynthBass2),
            40 => Some(Style::Violin),
            41 => Some(Style::Viola),
            42 => Some(Style::Cello),
            43 => Some(Style::Contrabass),
            44 => Some(Style::TremoloStrings),
            45 => Some(Style::PizzicatoStrings),
            46 => Some(Style::OrchestralHarp),
            47 => Some(Style::Timpani),
            48 => Some(Style::StringEnsemble1),
            49 => Some(Style::StringEnsemble2),
            50 => Some(Style::SynthStrings1),
            51 => Some(Style::SynthStrings2),
            52 => Some(Style::ChoirAahs),
            53 => Some(Style::VoiceOohs),
            54 => Some(Style::SynthVoice),
            55 => Some(Style::OrchestraHit),
            56 => Some(Style::Trumpet),
            57 => Some(Style::Trombone),
            58 => Some(Style::Tuba),
            59 => Some(Style::MutedTrumpet),
            60 => Some(Style::FrenchHorn),
            61 => Some(Style::BrassSection),
            62 => Some(Style::SynthBrass1),
            63 => Some(Style::SynthBrass2),
            64 => Some(Style::SopranoSax),
            65 => Some(Style::AltoSax),
            66 => Some(Style::TenorSax),
            67 => Some(Style::BaritoneSax),
            68 => Some(Style::Oboe),
            69 => Some(Style::EnglishHorn),
            70 => Some(Style::Bassoon),
            71 => Some(Style::Clarinet),
            72 => Some(Style::Piccolo),
            73 => Some(Style::Flute),
            74 => Some(Style::Recorder),
            75 => Some(Style::PanFlute),
            76 => Some(Style::BlownBottle),
            77 => Some(Style::Shakuhachi),
            78 => Some(Style::Whistle),
            79 => Some(Style::Ocarina),
            80 => Some(Style::Lead1Square),
            81 => Some(Style::Lead2Sawtooth),
            82 => Some(Style::Lead3Calliope),
            83 => Some(Style::Lead4Chiff),
            84 => Some(Style::Lead5Charang),
            85 => Some(Style::Lead6Voice),
            86 => Some(Style::Lead7Fifths),
            87 => Some(Style::Lead8BassLead),
            88 => Some(Style::Pad1NewAge),
            89 => Some(Style::Pad2Warm),
            90 => Some(Style::Pad3Polysynth),
            91 => Some(Style::Pad4Choir),
            92 => Some(Style::Pad5Bowed),
            93 => Some(Style::Pad6Metallic),
            94 => Some(Style::Pad7Halo),
            95 => Some(Style::Pad8Sweep),
            96 => Some(Style::FX1Rain),
            97 => Some(Style::FX2Soundtrack),
            98 => Some(Style::FX3Crystal),
            99 => Some(Style::FX4Atmosphere),
            100 => Some(Style::FX5Brightness),
            101 => Some(Style::FX6Goblins),
            102 => Some(Style::FX7Echoes),
            103 => Some(Style::FX8SciFi),
            104 => Some(Style::Sitar),
            105 => Some(Style::Banjo),
            106 => Some(Style::Shamisen),
            107 => Some(Style::Koto),
            108 => Some(Style::Kalimba),
            109 => Some(Style::Bagpipe),
            110 => Some(Style::Fiddle),
            111 => Some(Style::Shanai),
            112 => Some(Style::TinkleBell),
            113 => Some(Style::Agogo),
            114 => Some(Style::SteelDrums),
            115 => Some(Style::Woodblock),
            116 => Some(Style::TaikoDrum),
            117 => Some(Style::MelodicTom),
            118 => Some(Style::SynthDrum),
            119 => Some(Style::ReverseCymbal),
            120 => Some(Style::GuitarFretNoise),
            121 => Some(Style::BreathNoise),
            122 => Some(Style::Seashore),
            123 => Some(Style::BirdTweet),
            124 => Some(Style::TelephoneRing),
            125 => Some(Style::Helicopter),
            126 => Some(Style::Applause),
            127 => Some(Style::Gunshot),
            _ => None,
        }
    }

    /// The style's General MIDI program number.
    pub fn to_id(self) -> (r: u8)
        ensures
            r == self.spec_id(),
    {
        match self {
            Style::AcousticGrand => 0,
            Style::BrightAcoustic => 1,
            Style::ElectricGrand => 2,
            Style::HonkyTonk => 3,
            Style::ElectricPiano1 => 4,
            Style::ElectricPiano2 => 5,
            Style::Harpsichord => 6,
            Style::Clav => 7,
            Style::Celesta => 8,
            Style::Glockenspiel => 9,
            Style::MusicBox => 10,
            Style::Vibraphone => 11,
            Style::Marimba => 12,
            Style::Xylophone => 13,
            Style::TubularBells => 14,
            Style::Dulcimer => 15,
            Style::DrawbarOrgan => 16,
            Style::PercussiveOrgan => 17,
            Style::RockOrgan => 18,
            Style::ChurchOrgan => 19,
            Style::ReedOrgan => 20,
            Style::Accordion => 21,
            Style::Harmonica => 22,
            Style::TangoAccordion => 23,
            Style::AcousticGuitarNylon => 24,
            Style::AcousticGuitarSteel => 25,
            Style::ElectricGuitarJazz => 26,
            Style::ElectricGuitarClean => 27,
            Style::ElectricGuitarMuted => 28,
            Style::OverdrivenGuitar => 29,
            Style::DistortionGuitar => 30,
            Style::GuitarHarmonics => 31,
            Style::AcousticBass => 32,
            Style::ElectricBassFinger => 33,
            Style::ElectricBassPick => 34,
            Style::FretlessBass => 35,
            Style::SlapBass1 => 36,
            Style::SlapBass2 => 37,
            Style::SynthBass1 => 38,
            Style::SynthBass2 => 39,
            Style::Violin => 40,
            Style::Viola => 41,
            Style::Cello => 42,
            Style::Contrabass => 43,
            Style::TremoloStrings => 44,
            Style::PizzicatoStrings => 45,
            Style::OrchestralHarp => 46,
            Style::Timpani => 47,
            Style::StringEnsemble1 => 48,
            Style::StringEnsemble2 => 49,
            Style::SynthStrings1 => 50,
            Style::SynthStrings2 => 51,
            Style::ChoirAahs => 52,
            Style::VoiceOohs => 53,
            Style::SynthVoice => 54,
            Style::OrchestraHit => 55,
            Style::Trumpet => 56,
            Style::Trombone => 57,
            Style::Tuba => 58,
            Style::MutedTrumpet => 59,
            Style::FrenchHorn => 60,
            Style::BrassSection => 61,
            Style::SynthBrass1 => 62,
            Style::SynthBrass2 => 63,
            Style::SopranoSax => 64,
            Style::AltoSax => 65,
            Style::TenorSax => 66,
            Style::BaritoneSax => 67,
            Style::Oboe => 68,
            Style::EnglishHorn => 69,
            Style::Bassoon => 70,
            Style::Clarinet => 71,
            Style::Piccolo => 72,
            Style::Flute => 73,
            Style::Recorder => 74,
            Style::PanFlute => 75,
            Style::BlownBottle => 76,
            Style::Shakuhachi => 77,
            Style::Whistle => 78,
            Style::Ocarina => 79,
            Style::Lead1Square => 80,
            Style::Lead2Sawtooth => 81,
            Style::Lead3Calliope => 82,
            Style::Lead4Chiff => 83,
            Style::Lead5Charang => 84,
            Style::Lead6Voice => 85,
            Style::Lead7Fifths => 86,
            Style::Lead8BassLead => 87,
            Style::Pad1NewAge => 88,
            Style::Pad2Warm => 89,
            Style::Pad3Polysynth => 90,
            Style::Pad4Choir => 91,
            Style::Pad5Bowed => 92,
            Style::Pad6Metallic => 93,
            Style::Pad7Halo => 94,
            Style::Pad8Sweep => 95,
            Style::FX1Rain => 96,
            Style::FX2Soundtrack => 97,
            Style::FX3Crystal => 98,
            Style::FX4Atmosphere => 99,
            Style::FX5Brightness => 100,
            Style::FX6Goblins => 101,
            Style::FX7Echoes => 102,
            Style::FX8SciFi => 103,
            Style::Sitar => 104,
            Style::Banjo => 105,
            Style::Shamisen => 106,
            Style::Koto => 107,
            Style::Kalimba => 108,
            Style::Bagpipe => 109,
            Style::Fiddle => 110,
            Style::Shanai => 111,
            Style::TinkleBell => 112,
            Style::Agogo => 113,
            Style::SteelDrums => 114,
            Style::Woodblock => 115,
            Style::TaikoDrum => 116,
            Style::MelodicTom => 117,
            Style::SynthDrum => 118,
            Style::ReverseCymbal => 119,
            Style::GuitarFretNoise => 120,
            Style::BreathNoise => 121,
            Style::Seashore => 122,
            Style::BirdTweet => 123,
            Style::TelephoneRing => 124,
            Style::Helicopter => 125,
            Style::Applause => 126,
            Style::Gunshot => 127,
        }
    }

    /// The style's General MIDI program number, as a specification value.
    pub open spec fn spec_id(self) -> int {
        match self {
            Style::AcousticGrand => 0,
            Style::BrightAcoustic => 1,
            Style::ElectricGrand => 2,
            Style::HonkyTonk => 3,
            Style::ElectricPiano1 => 4,
            Style::ElectricPiano2 => 5,
            Style::Harpsichord => 6,
            Style::Clav => 7,
            Style::Celesta => 8,
            Style::Glockenspiel => 9,
            Style::MusicBox => 10,
            Style::Vibraphone => 11,
            Style::Marimba => 12,
            Style::Xylophone => 13,
            Style::TubularBells => 14,
            Style::Dulcimer => 15,
            Style::DrawbarOrgan => 16,
            Style::PercussiveOrgan => 17,
            Style::RockOrgan => 18,
            Style::ChurchOrgan => 19,
            Style::ReedOrgan => 20,
            Style::Accordion => 21,
            Style::Harmonica => 22,
            Style::TangoAccordion => 23,
            Style::AcousticGuitarNylon => 24,
            Style::AcousticGuitarSteel => 25,
            Style::ElectricGuitarJazz => 26,
            Style::ElectricGuitarClean => 27,
            Style::ElectricGuitarMuted => 28,
            Style::OverdrivenGuitar => 29,
            Style::DistortionGuitar => 30,
            Style::GuitarHarmonics => 31,
            Style::AcousticBass => 32,
            Style::ElectricBassFinger => 33,
            Style::ElectricBassPick => 34,
            Style::FretlessBass => 35,
            Style::SlapBass1 => 36,
            Style::SlapBass2 => 37,
            Style::SynthBass1 => 38,
            Style::SynthBass2 => 39,
            Style::Violin => 40,
            Style::Viola => 41,
            Style::Cello => 42,
            Style::Contrabass => 43,
            Style::TremoloStrings => 44,
            Style::PizzicatoStrings => 45,
            Style::OrchestralHarp => 46,
            Style::Timpani => 47,
            Style::StringEnsemble1 => 48,
            Style::StringEnsemble2 => 49,
            Style::SynthStrings1 => 50,
            Style::SynthStrings2 => 51,
            Style::ChoirAahs => 52,
            Style::VoiceOohs => 53,
            Style::SynthVoice => 54,
            Style::OrchestraHit => 55,
            Style::Trumpet => 56,
            Style::Trombone => 57,
            Style::Tuba => 58,
            Style::MutedTrumpet => 59,
            Style::FrenchHorn => 60,
            Style::BrassSection => 61,
            Style::SynthBrass1 => 62,
            Style::SynthBrass2 => 63,
            Style::SopranoSax => 64,
            Style::AltoSax => 65,
            Style::TenorSax => 66,
            Style::BaritoneSax => 67,
            Style::Oboe => 68,
            Style::EnglishHorn => 69,
            Style::Bassoon => 70,
            Style::Clarinet => 71,
            Style::Piccolo => 72,
            Style::Flute => 73,
            Style::Recorder => 74,
            Style::PanFlute => 75,
            Style::BlownBottle => 76,
            Style::Shakuhachi => 77,
            Style::Whistle => 78,
            Style::Ocarina => 79,
            Style::Lead1Square => 80,
            Style::Lead2Sawtooth => 81,
            Style::Lead3Calliope => 82,
            Style::Lead4Chiff => 83,
            Style::Lead5Charang => 84,
            Style::Lead6Voice => 85,
            Style::Lead7Fifths => 86,
            Style::Lead8BassLead => 87,
            Style::Pad1NewAge => 88,
            Style::Pad2Warm => 89,
            Style::Pad3Polysynth => 90,
            Style::Pad4Choir => 91,
            Style::Pad5Bowed => 92,
            Style::Pad6Metallic => 93,
            Style::Pad7Halo => 94,
            Style::Pad8Sweep => 95,
            Style::FX1Rain => 96,
            Style::FX2Soundtrack => 97,
            Style::FX3Crystal => 98,
            Style::FX4Atmosphere => 99,
            Style::FX5Brightness => 100,
            Style::FX6Goblins => 101,
            Style::FX7Echoes => 102,
            Style::FX8SciFi => 103,
            Style::Sitar => 104,
            Style::Banjo => 105,
            Style::Shamisen => 106,
            Style::Koto => 107,
            Style::Kalimba => 108,
            Style::Bagpipe => 109,
            Style::Fiddle => 110,
            Style::Shanai => 111,
            Style::TinkleBell => 112,
            Style::Agogo => 113,
            Style::SteelDrums => 114,
            Style::Woodblock => 115,
            Style::TaikoDrum => 116,
            Style::MelodicTom => 117,
            Style::SynthDrum => 118,
            Style::ReverseCymbal => 119,
            Style::GuitarFretNoise => 120,
            Style::BreathNoise => 121,
            Style::Seashore => 122,
            Style::BirdTweet => 123,
            Style::TelephoneRing => 124,
            Style::Helicopter => 125,
            Style::Applause => 126,
            Style::Gunshot => 127,
        }
    }

    /// The display name of the style, as sent to the generation API.
    pub fn name(&self) -> (r: &'static str)
        ensures
            r@ == self.spec_name(),
    {
        match self {
            Style::AcousticGrand => "Acoustic Grand",
            Style::BrightAcoustic => "Bright Acoustic",
            Style::ElectricGrand => "Electric Grand",
            Style::HonkyTonk => "Honky-Tonk",
            Style::ElectricPiano1 => "Electric Piano 1",
            Style::ElectricPiano2 => "Electric Piano 2",
            Style::Harpsichord => "Harpsichord",
            Style::Clav => "Clav",
            Style::Celesta => "Celesta",
            Style::Glockenspiel => "Glockenspiel",
            Style::MusicBox => "Music Box",
            Style::Vibraphone => "Vibraphone",
            Style::Marimba => "Marimba",
            Style::Xylophone => "Xylophone",
            Style::TubularBells => "Tubular Bells",
            Style::Dulcimer => "Dulcimer",
            Style::DrawbarOrgan => "Drawbar Organ",
            Style::PercussiveOrgan => "Percussive Organ",
            Style::RockOrgan => "Rock Organ",
            Style::ChurchOrgan => "Church Organ",
            Style::ReedOrgan => "Reed Organ",
            Style::Accordion => "Accordion",
            Style::Harmonica => "Harmonica",
            Style::TangoAccordion => "Tango Accordion",
            Style::AcousticGuitarNylon => "Acoustic Guitar(nylon)",
            Style::AcousticGuitarSteel => "Acoustic Guitar(steel)",
            Style::ElectricGuitarJazz => "Electric Guitar(jazz)",
            Style::ElectricGuitarClean => "Electric Guitar(clean)",
            Style::ElectricGuitarMuted => "Electric Guitar(muted)",
            Style::OverdrivenGuitar => "Overdriven Guitar",
            Style::DistortionGuitar => "Distortion Guitar",
            Style::GuitarHarmonics => "Guitar Harmonics",
            Style::AcousticBass => "Acoustic Bass",
            Style::ElectricBassFinger => "Electric Bass(finger)",
            Style::ElectricBassPick => "Electric Bass(pick)",
            Style::FretlessBass => "Fretless Bass",
            Style::SlapBass1 => "Slap Bass 1",
            Style::SlapBass2 => "Slap Bass 2",
            Style::SynthBass1 => "Synth Bass 1",
            Style::SynthBass2 => "Synth Bass 2",
            Style::Violin => "Violin",
            Style::Viola => "Viola",
            Style::Cello => "Cello",
            Style::Contrabass => "Contrabass",
            Style::TremoloStrings => "Tremolo Strings",
            Style::PizzicatoStrings => "Pizzicato Strings",
            Style::OrchestralHarp => "Orchestral Harp",
            Style::Timpani => "Timpani",
            Style::StringEnsemble1 => "String Ensemble 1",
            Style::StringEnsemble2 => "String Ensemble 2",
            Style::SynthStrings1 => "SynthStrings 1",
            Style::SynthStrings2 => "SynthStrings 2",
            Style::ChoirAahs => "Choir Aahs",
            Style::VoiceOohs => "Voice Oohs",
            Style::SynthVoice => "Synth Voice",
            Style::OrchestraHit => "Orchestra Hit",
            Style::Trumpet => "Trumpet",
            Style::Trombone => "Trombone",
            Style::Tuba => "Tuba",
            Style::MutedTrumpet => "Muted Trumpet",
            Style::FrenchHorn => "French Horn",
            Style::BrassSection => "Brass Section",
            Style::SynthBrass1 => "SynthBrass 1",
            Style::SynthBrass2 => "SynthBrass 2",
            Style::SopranoSax => "Soprano Sax",
            Style::AltoSax => "Alto Sax",
            Style::TenorSax => "Tenor Sax",
            Style::BaritoneSax => "Baritone Sax",
            Style::Oboe => "Oboe",
            Style::EnglishHorn => "English Horn",
            Style::Bassoon => "Bassoon",
            Style::Clarinet => "Clarinet",
            Style::Piccolo => "Piccolo",
            Style::Flute => "Flute",
            Style::Recorder => "Recorder",
            Style::PanFlute => "Pan Flute",
            Style::BlownBottle => "Blown Bottle",
            Style::Shakuhachi => "Shakuhachi",
            Style::Whistle => "Whistle",
            Style::Ocarina => "Ocarina",
            Style::Lead1Square => "Lead 1 (square)",
            Style::Lead2Sawtooth => "Lead 2 (sawtooth)",
            Style::Lead3Calliope => "Lead 3 (calliope)",
            Style::Lead4Chiff => "Lead 4 (chiff)",
            Style::Lead5Charang => "Lead 5 (charang)",
            Style::Lead6Voice => "Lead 6 (voice)",
            Style::Lead7Fifths => "Lead 7 (fifths)",
            Style::Lead8BassLead => "Lead 8 (bass+lead)",
            Style::Pad1NewAge => "Pad 1 (new age)",
            Style::Pad2Warm => "Pad 2 (warm)",
            Style::Pad3Polysynth => "Pad 3 (polysynth)",
            Style::Pad4Choir => "Pad 4 (choir)",
            Style::Pad5Bowed => "Pad 5 (bowed)",
            Style::Pad6Metallic => "Pad 6 (metallic)",
            Style::Pad7Halo => "Pad 7 (halo)",
            Style::Pad8Sweep => "Pad 8 (sweep)",
            Style::FX1Rain => "FX 1 (rain)",
            Style::FX2Soundtrack => "FX 2 (soundtrack)",
            Style::FX3Crystal => "FX 3 (crystal)",
            Style::FX4Atmosphere => "FX 4 (atmosphere)",
            Style::FX5Brightness => "FX 5 (brightness)",
            Style::FX6Goblins => "FX 6 (goblins)",
            Style::FX7Echoes => "FX 7 (echoes)",
            Style::FX8SciFi => "FX 8 (sci-fi)",
            Style::Sitar => "Sitar",
            Style::Banjo => "Banjo",
            Style::Shamisen => "Shamisen",
            Style::Koto => "Koto",
            Style::Kalimba => "Kalimba",
            Style::Bagpipe => "Bagpipe",
            Style::Fiddle => "Fiddle",
            Style::Shanai => "Shanai",
            Style::TinkleBell => "Tinkle Bell",
            Style::Agogo => "Agogo",
            Style::SteelDrums => "Steel Drums",
            Style::Woodblock => "Woodblock",
            Style::TaikoDrum => "Taiko Drum",
            Style::MelodicTom => "Melodic Tom",
            Style::SynthDrum => "Synth Drum",
            Style::ReverseCymbal => "Reverse Cymbal",
            Style::GuitarFretNoise => "Guitar Fret Noise",
            Style::BreathNoise => "Breath Noise",
            Style::Seashore => "Seashore",
            Style::BirdTweet => "Bird Tweet",
            Style::TelephoneRing => "Telephone Ring",
            Style::Helicopter => "Helicopter",
            Style::Applause => "Applause",
            Style::Gunshot => "Gunshot",
        }
    }

    /// The characters of the style's display name.
    pub open spec fn spec_name(self) -> Seq<char> {
        match self {
            Style::AcousticGrand => "Acoustic Grand"@,
            Style::BrightAcoustic => "Bright Acoustic"@,
            Style::ElectricGrand => "Electric Grand"@,
            Style::HonkyTonk => "Honky-Tonk"@,
            Style::ElectricPiano1 => "Electric Piano 1"@,
            Style::ElectricPiano2 => "Electric Piano 2"@,
            Style::Harpsichord => "Harpsichord"@,
            Style::Clav => "Clav"@,
            Style::Celesta => "Celesta"@,
            Style::Glockenspiel => "Glockenspiel"@,
            Style::MusicBox => "Music Box"@,
            Style::Vibraphone => "Vibraphone"@,
            Style::Marimba => "Marimba"@,
            Style::Xylophone => "Xylophone"@,
            Style::TubularBells => "Tubular Bells"@,
            Style::Dulcimer => "Dulcimer"@,
            Style::DrawbarOrgan => "Drawbar Organ"@,
            Style::PercussiveOrgan => "Percussive Organ"@,
            Style::RockOrgan => "Rock Organ"@,
            Style::ChurchOrgan => "Church Organ"@,
            Style::ReedOrgan => "Reed Organ"@,
            Style::Accordion => "Accordion"@,
            Style::Harmonica => "Harmonica"@,
            Style::TangoAccordion => "Tango Accordion"@,
            Style::AcousticGuitarNylon => "Acoustic Guitar(nylon)"@,
            Style::AcousticGuitarSteel => "Acoustic Guitar(steel)"@,
            Style::ElectricGuitarJazz => "Electric Guitar(jazz)"@,
            Style::ElectricGuitarClean => "Electric Guitar(clean)"@,
            Style::ElectricGuitarMuted => "Electric Guitar(muted)"@,
            Style::OverdrivenGuitar => "Overdriven Guitar"@,
            Style::DistortionGuitar => "Distortion Guitar"@,
            Style::GuitarHarmonics => "Guitar Harmonics"@,
            Style::AcousticBass => "Acoustic Bass"@,
            Style::ElectricBassFinger => "Electric Bass(finger)"@,
            Style::ElectricBassPick => "Electric Bass(pick)"@,
            Style::FretlessBass => "Fretless Bass"@,
            Style::SlapBass1 => "Slap Bass 1"@,
            Style::SlapBass2 => "Slap Bass 2"@,
            Style::SynthBass1 => "Synth Bass 1"@,
            Style::SynthBass2 => "Synth Bass 2"@,
            Style::Violin => "Violin"@,
            Style::Viola => "Viola"@,
            Style::Cello => "Cello"@,
            Style::Contrabass => "Contrabass"@,
            Style::TremoloStrings => "Tremolo Strings"@,
            Style::PizzicatoStrings => "Pizzicato Strings"@,
            Style::OrchestralHarp => "Orchestral Harp"@,
            Style::Timpani => "Timpani"@,
            Style::StringEnsemble1 => "String Ensemble 1"@,
            Style::StringEnsemble2 => "String Ensemble 2"@,
            Style::SynthStrings1 => "SynthStrings 1"@,
            Style::SynthStrings2 => "SynthStrings 2"@,
            Style::ChoirAahs => "Choir Aahs"@,
            Style::VoiceOohs => "Voice Oohs"@,
            Style::SynthVoice => "Synth Voice"@,
            Style::OrchestraHit => "Orchestra Hit"@,
            Style::Trumpet => "Trumpet"@,
            Style::Trombone => "Trombone"@,
            Style::Tuba => "Tuba"@,
            Style::MutedTrumpet => "Muted Trumpet"@,
            Style::FrenchHorn => "French Horn"@,
            Style::BrassSection => "Brass Section"@,
            Style::SynthBrass1 => "SynthBrass 1"@,
            Style::SynthBrass2 => "SynthBrass 2"@,
            Style::SopranoSax => "Soprano Sax"@,
            Style::AltoSax => "Alto Sax"@,
            Style::TenorSax => "Tenor Sax"@,
            Style::BaritoneSax => "Baritone Sax"@,
            Style::Oboe => "Oboe"@,
            Style::EnglishHorn => "English Horn"@,
            Style::Bassoon => "Bassoon"@,
            Style::Clarinet => "Clarinet"@,
            Style::Piccolo => "Piccolo"@,
            Style::Flute => "Flute"@,
            Style::Recorder => "Recorder"@,
            Style::PanFlute => "Pan Flute"@,
            Style::BlownBottle => "Blown Bottle"@,
            Style::Shakuhachi => "Shakuhachi"@,
            Style::Whistle => "Whistle"@,
            Style::Ocarina => "Ocarina"@,
            Style::Lead1Square => "Lead 1 (square)"@,
            Style::Lead2Sawtooth => "Lead 2 (sawtooth)"@,
            Style::Lead3Calliope => "Lead 3 (calliope)"@,
            Style::Lead4Chiff => "Lead 4 (chiff)"@,
            Style::Lead5Charang => "Lead 5 (charang)"@,
            Style::Lead6Voice => "Lead 6 (voice)"@,
            Style::Lead7Fifths => "Lead 7 (fifths)"@,
            Style::Lead8BassLead => "Lead 8 (bass+lead)"@,
            Style::Pad1NewAge => "Pad 1 (new age)"@,
            Style::Pad2Warm => "Pad 2 (warm)"@,
            Style::Pad3Polysynth => "Pad 3 (polysynth)"@,
            Style::Pad4Choir => "Pad 4 (choir)"@,
            Style::Pad5Bowed => "Pad 5 (bowed)"@,
            Style::Pad6Metallic => "Pad 6 (metallic)"@,
            Style::Pad7Halo => "Pad 7 (halo)"@,
            Style::Pad8Sweep => "Pad 8 (sweep)"@,
            Style::FX1Rain => "FX 1 (rain)"@,
            Style::FX2Soundtrack => "FX 2 (soundtrack)"@,
            Style::FX3Crystal => "FX 3 (crystal)"@,
            Style::FX4Atmosphere => "FX 4 (atmosphere)"@,
            Style::FX5Brightness => "FX 5 (brightness)"@,
            Style::FX6Goblins => "FX 6 (goblins)"@,
            Style::FX7Echoes => "FX 7 (echoes)"@,
            Style::FX8SciFi => "FX 8 (sci-fi)"@,
            Style::Sitar => "Sitar"@,
            Style::Banjo => "Banjo"@,
            Style::Shamisen => "Shamisen"@,
            Style::Koto => "Koto"@,
            Style::Kalimba => "Kalimba"@,
            Style::Bagpipe => "Bagpipe"@,
            Style::Fiddle => "Fiddle"@,
            Style::Shanai => "Shanai"@,
            Style::TinkleBell => "Tinkle Bell"@,
            Style::Agogo => "Agogo"@,
            Style::SteelDrums => "Steel Drums"@,
            Style::Woodblock => "Woodblock"@,
            Style::TaikoDrum => "Taiko Drum"@,
            Style::MelodicTom => "Melodic Tom"@,
            Style::SynthDrum => "Synth Drum"@,
            Style::ReverseCymbal => "Reverse Cymbal"@,
            Style::GuitarFretNoise => "Guitar Fret Noise"@,
            Style::BreathNoise => "Breath Noise"@,
            Style::Seashore => "Seashore"@,
            Style::BirdTweet => "Bird Tweet"@,
            Style::TelephoneRing => "Telephone Ring"@,
            Style::Helicopter => "Helicopter"@,
            Style::Applause => "Applause"@,
            Style::Gunshot => "Gunshot"@,
        }
    }
}

/// Program numbers identify styles: no two styles share one.
pub proof fn lemma_style_id_injective(a: Style, b: Style)
    requires
        a.spec_id() == b.spec_id(),
    ensures
        a == b,
{
}

} // verus!
