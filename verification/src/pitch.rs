//! The twelve chromatic pitch classes and notes pinned to an octave.

use vstd::prelude::*;
use vstd::string::StrSliceExecFns;

verus! {

/// One of the twelve chromatic pitch classes, in ascending order from C,
/// written in sharp notation.
#[derive(Copy, Clone, Debug, PartialEq, Eq, Structural)]
pub enum NoteName {
    C,
    CSharp,
    D,
    DSharp,
    E,
    F,
    FSharp,
    G,
    GSharp,
    A,
    ASharp,
    B,
}

/// Position of a pitch class within the chromatic scale: C is 0, B is 11.
pub open spec fn chromatic_index(name: NoteName) -> int {
    match name {
        NoteName::C => 0,
        NoteName::CSharp => 1,
        NoteName::D => 2,
        NoteName::DSharp => 3,
        NoteName::E => 4,
        NoteName::F => 5,
        NoteName::FSharp => 6,
        NoteName::G => 7,
        NoteName::GSharp => 8,
        NoteName::A => 9,
        NoteName::ASharp => 10,
        NoteName::B => 11,
    }
}

/// The next pitch class up the chromatic cycle; B wraps around to C.
pub open spec fn spec_next(name: NoteName) -> NoteName {
    match name {
        NoteName::C => NoteName::CSharp,
        NoteName::CSharp => NoteName::D,
        NoteName::D => NoteName::DSharp,
        NoteName::DSharp => NoteName::E,
        NoteName::E => NoteName::F,
        NoteName::F => NoteName::FSharp,
        NoteName::FSharp => NoteName::G,
        NoteName::G => NoteName::GSharp,
        NoteName::GSharp => NoteName::A,
        NoteName::A => NoteName::ASharp,
        NoteName::ASharp => NoteName::B,
        NoteName::B => NoteName::C,
    }
}

/// The previous pitch class down the chromatic cycle; C wraps around to B.
pub open spec fn spec_prev(name: NoteName) -> NoteName {
    match name {
        NoteName::C => NoteName::B,
        NoteName::CSharp => NoteName::C,
        NoteName::D => NoteName::CSharp,
        NoteName::DSharp => NoteName::D,
        NoteName::E => NoteName::DSharp,
        NoteName::F => NoteName::E,
        NoteName::FSharp => NoteName::F,
        NoteName::G => NoteName::FSharp,
        NoteName::GSharp => NoteName::G,
        NoteName::A => NoteName::GSharp,
        NoteName::ASharp => NoteName::A,
        NoteName::B => NoteName::ASharp,
    }
}

/// The canonical sharp-notation spelling of a pitch class.
pub open spec fn canonical(name: NoteName) -> Seq<char> {
    match name {
        NoteName::C => "C"@,
        NoteName::CSharp => "C#"@,
        NoteName::D => "D"@,
        NoteName::DSharp => "D#"@,
        NoteName::E => "E"@,
        NoteName::F => "F"@,
        NoteName::FSharp => "F#"@,
        NoteName::G => "G"@,
        NoteName::GSharp => "G#"@,
        NoteName::A => "A"@,
        NoteName::ASharp => "A#"@,
        NoteName::B => "B"@,
    }
}

/// The pitch class whose canonical spelling is exactly the given string, if
/// any. Matching is case-sensitive and exact: flat spellings, lowercase and
/// anything else give no match.
pub open spec fn spec_parse(s: Seq<char>) -> Option<NoteName> {
    if s == "C"@ {
        Some(NoteName::C)
    } else if s == "C#"@ {
        Some(NoteName::CSharp)
    } else if s == "D"@ {
        Some(NoteName::D)
    } else if s == "D#"@ {
        Some(NoteName::DSharp)
    } else if s == "E"@ {
        Some(NoteName::E)
    } else if s == "F"@ {
        Some(NoteName::F)
    } else if s == "F#"@ {
        Some(NoteName::FSharp)
    } else if s == "G"@ {
        Some(NoteName::G)
    } else if s == "G#"@ {
        Some(NoteName::GSharp)
    } else if s == "A"@ {
        Some(NoteName::A)
    } else if s == "A#"@ {
        Some(NoteName::ASharp)
    } else if s == "B"@ {
        Some(NoteName::B)
    } else {
        None
    }
}

impl NoteName {
    /// The next pitch class up the chromatic cycle, wrapping B to C.
    pub fn next(&self) -> (r: NoteName)
        ensures
            r == spec_next(*self),
    {
        match self {
            NoteName::C => NoteName::CSharp,
            NoteName::CSharp => NoteName::D,
            NoteName::D => NoteName::DSharp,
            NoteName::DSharp => NoteName::E,
            NoteName::E => NoteName::F,
            NoteName::F => NoteName::FSharp,
            NoteName::FSharp => NoteName::G,
            NoteName::G => NoteName::GSharp,
            NoteName::GSharp => NoteName::A,
            NoteName::A => NoteName::ASharp,
            NoteName::ASharp => NoteName::B,
            NoteName::B => NoteName::C,
        }
    }

    /// The previous pitch class down the chromatic cycle, wrapping C to B.
    pub fn prev(&self) -> (r: NoteName)
        ensures
            r == spec_prev(*self),
    {
        match self {
            NoteName::C => NoteName::B,
            NoteName::CSharp => NoteName::C,
            NoteName::D => NoteName::CSharp,
            NoteName::DSharp => NoteName::D,
            NoteName::E => NoteName::DSharp,
            NoteName::F => NoteName::E,
            NoteName::FSharp => NoteName::F,
            NoteName::G => NoteName::FSharp,
            NoteName::GSharp => NoteName::G,
            NoteName::A => NoteName::GSharp,
            NoteName::ASharp => NoteName::A,
            NoteName::B => NoteName::ASharp,
        }
    }

    /// The canonical sharp-notation spelling of this pitch class.
    pub fn display(&self) -> (r: &'static str)
        ensures
            r@ == canonical(*self),
    {
        match self {
            NoteName::C => "C",
            NoteName::CSharp => "C#",
            NoteName::D => "D",
            NoteName::DSharp => "D#",
            NoteName::E => "E",
            NoteName::F => "F",
            NoteName::FSharp => "F#",
            NoteName::G => "G",
            NoteName::GSharp => "G#",
            NoteName::A => "A",
            NoteName::ASharp => "A#",
            NoteName::B => "B",
        }
    }

    /// Parses a canonical sharp-notation spelling back into a pitch class;
    /// any other string gives no match.
    pub fn from_str(note_str: &str) -> (r: Option<NoteName>)
        ensures
            r == spec_parse(note_str@),
    {
        proof {
            reveal_strlit("C");
            reveal_strlit("C#");
            reveal_strlit("D");
            reveal_strlit("D#");
            reveal_strlit("E");
            reveal_strlit("F");
            reveal_strlit("F#");
            reveal_strlit("G");
            reveal_strlit("G#");
            reveal_strlit("A");
            reveal_strlit("A#");
            reveal_strlit("B");
        }
        let len = note_str.unicode_len();
        if len == 1 {
            let c0 = note_str.get_char(0);
            match c0 {
                'C' => {
                    assert(note_str@ =~= "C"@);
                    Some(NoteName::C)
                },
                'D' => {
                    assert(note_str@ =~= "D"@);
                    Some(NoteName::D)
                },
                'E' => {
                    assert(note_str@ =~= "E"@);
                    Some(NoteName::E)
                },
                'F' => {
                    assert(note_str@ =~= "F"@);
                    Some(NoteName::F)
                },
                'G' => {
                    assert(note_str@ =~= "G"@);
                    Some(NoteName::G)
                },
                'A' => {
                    assert(note_str@ =~= "A"@);
                    Some(NoteName::A)
                },
                'B' => {
                    assert(note_str@ =~= "B"@);
                    Some(NoteName::B)
                },
                _ => None,
            }
        } else if len == 2 {
            let c0 = note_str.get_char(0);
            let c1 = note_str.get_char(1);
            if c1 == '#' {
                match c0 {
                    'C' => {
                        assert(note_str@ =~= "C#"@);
                        Some(NoteName::CSharp)
                    },
                    'D' => {
                        assert(note_str@ =~= "D#"@);
                        Some(NoteName::DSharp)
                    },
                    'F' => {
                        assert(note_str@ =~= "F#"@);
                        Some(NoteName::FSharp)
                    },
                    'G' => {
                        assert(note_str@ =~= "G#"@);
                        Some(NoteName::GSharp)
                    },
                    'A' => {
                        assert(note_str@ =~= "A#"@);
                        Some(NoteName::ASharp)
                    },
                    _ => None,
                }
            } else {
                None
            }
        } else {
            None
        }
    }
}

/// Successor and predecessor are inverse to each other, so the twelve pitch
/// classes form a single cycle.
pub proof fn lemma_next_prev_inverse(name: NoteName)
    ensures
        spec_prev(spec_next(name)) == name,
        spec_next(spec_prev(name)) == name,
{
}

/// Parsing is a left inverse of display: the canonical spelling of every
/// pitch class parses back to exactly that pitch class.
pub proof fn lemma_parse_canonical_roundtrip(name: NoteName)
    ensures
        spec_parse(canonical(name)) == Some(name),
{
    reveal_strlit("C");
    reveal_strlit("C#");
    reveal_strlit("D");
    reveal_strlit("D#");
    reveal_strlit("E");
    reveal_strlit("F");
    reveal_strlit("F#");
    reveal_strlit("G");
    reveal_strlit("G#");
    reveal_strlit("A");
    reveal_strlit("A#");
    reveal_strlit("B");
    assert("C"@.len() == 1 && "D"@.len() == 1 && "E"@.len() == 1 && "F"@.len() == 1);
    assert("G"@.len() == 1 && "A"@.len() == 1 && "B"@.len() == 1);
    assert("C#"@.len() == 2 && "D#"@.len() == 2 && "F#"@.len() == 2);
    assert("G#"@.len() == 2 && "A#"@.len() == 2);
    assert("C"@[0] == 'C' && "D"@[0] == 'D' && "E"@[0] == 'E' && "F"@[0] == 'F');
    assert("G"@[0] == 'G' && "A"@[0] == 'A' && "B"@[0] == 'B');
    assert("C#"@[0] == 'C' && "D#"@[0] == 'D' && "F#"@[0] == 'F');
    assert("G#"@[0] == 'G' && "A#"@[0] == 'A');
    match name {
        NoteName::C => assert(spec_parse(canonical(name)) == Some(NoteName::C)),
        NoteName::CSharp => assert(spec_parse(canonical(name)) == Some(NoteName::CSharp)),
        NoteName::D => assert(spec_parse(canonical(name)) == Some(NoteName::D)),
        NoteName::DSharp => assert(spec_parse(canonical(name)) == Some(NoteName::DSharp)),
        NoteName::E => assert(spec_parse(canonical(name)) == Some(NoteName::E)),
        NoteName::F => assert(spec_parse(canonical(name)) == Some(NoteName::F)),
        NoteName::FSharp => assert(spec_parse(canonical(name)) == Some(NoteName::FSharp)),
        NoteName::G => assert(spec_parse(canonical(name)) == Some(NoteName::G)),
        NoteName::GSharp => assert(spec_parse(canonical(name)) == Some(NoteName::GSharp)),
        NoteName::A => assert(spec_parse(canonical(name)) == Some(NoteName::A)),
        NoteName::ASharp => assert(spec_parse(canonical(name)) == Some(NoteName::ASharp)),
        NoteName::B => assert(spec_parse(canonical(name)) == Some(NoteName::B)),
    }
}

/// The MIDI-style numeric value of a pitch class at a given octave, with
/// octave 0 as the reference: C0 is 0, B0 is 11, C1 is 12, and so on.
pub open spec fn midi_value(name: NoteName, octave: u8) -> int {
    chromatic_index(name) + 12 * octave
}

/// A pitch class pinned to an octave, with its numeric value computed once
/// at construction. Notes are immutable after construction.
#[derive(Copy, Clone, Debug, PartialEq, Eq, Structural)]
pub struct Note {
    note_name: NoteName,
    octave: u8,
    midi: u8,
}

impl Note {
    /// The pitch class this note was built from.
    pub closed spec fn spec_note_name(&self) -> NoteName {
        self.note_name
    }

    /// The octave this note was built from.
    pub closed spec fn spec_octave(&self) -> u8 {
        self.octave
    }

    /// The stored numeric pitch value.
    pub closed spec fn spec_midi(&self) -> u8 {
        self.midi
    }

    /// The stored numeric value is exactly the one derived from the pitch
    /// class and the octave; construction establishes this and no operation
    /// can invalidate it.
    pub open spec fn wf(&self) -> bool {
        self.spec_midi() == midi_value(self.spec_note_name(), self.spec_octave())
    }

    /// Builds a note from a pitch class and an octave, deriving its numeric
    /// value. The octave is only bounded by the numeric value having to fit
    /// in a byte.
    pub fn new(note_name: NoteName, octave: u8) -> (r: Note)
        requires
            midi_value(note_name, octave) <= u8::MAX,
        ensures
            r.spec_note_name() == note_name,
            r.spec_octave() == octave,
            r.spec_midi() == midi_value(note_name, octave),
            r.wf(),
    {
        Note { note_name, octave, midi: Self::map_note_to_midi(note_name, octave) }
    }

    /// Computes the numeric pitch value of a pitch class at an octave.
    fn map_note_to_midi(note_name: NoteName, octave: u8) -> (midi: u8)
        requires
            midi_value(note_name, octave) <= u8::MAX,
        ensures
            midi == midi_value(note_name, octave),
    {
        let base_midi: u8 = match note_name {
            NoteName::C => 0,
            NoteName::CSharp => 1,
            NoteName::D => 2,
            NoteName::DSharp => 3,
            NoteName::E => 4,
            NoteName::F => 5,
            NoteName::FSharp => 6,
            NoteName::G => 7,
            NoteName::GSharp => 8,
            NoteName::A => 9,
            NoteName::ASharp => 10,
            NoteName::B => 11,
        };
        base_midi + octave * 12
    }

    /// The pitch class this note was built from.
    pub fn note_name(&self) -> (r: NoteName)
        ensures
            r == self.spec_note_name(),
    {
        self.note_name
    }

    /// The octave this note was built from.
    pub fn octave(&self) -> (r: u8)
        ensures
            r == self.spec_octave(),
    {
        self.octave
    }

    /// The numeric pitch value derived at construction.
    pub fn midi(&self) -> (r: u8)
        ensures
            r == self.spec_midi(),
    {
        self.midi
    }
}

} // verus!
