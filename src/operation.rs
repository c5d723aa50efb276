use vstd::prelude::*;

verus! {

/// The endpoints of the word service, each a fixed path segment.
#[derive(Clone, Copy, Debug, PartialEq, Eq)]
pub enum Operation {
    Audio,
    Definitions,
    Etymologies,
    Examples,
    Frequency,
    Hyphenation,
    Phrases,
    Pronunciations,
    RelatedWords,
    ScrabbleScore,
    TopExample,
}

impl Operation {
    /// The path segment that names this operation on the wire.
    pub open spec fn spec_name(self) -> Seq<char> {
        match self {
            Operation::Audio => "audio"@,
            Operation::Definitions => "definitions"@,
            Operation::Etymologies => "etymologies"@,
            Operation::Examples => "examples"@,
            Operation::Frequency => "frequency"@,
            Operation::Hyphenation => "hyphenation"@,
            Operation::Phrases => "phrases"@,
            Operation::Pronunciations => "pronunciations"@,
            Operation::RelatedWords => "relatedWords"@,
            Operation::ScrabbleScore => "scrabbleScore"@,
            Operation::TopExample => "topExample"@,
        }
    }

    /// Renders the operation as its path segment.
    pub fn name(&self) -> (r: String)
        ensures
            r@ == self.spec_name(),
    {
        let s = match self {
            Operation::Audio => "audio",
            Operation::Definitions => "definitions",
            Operation::Etymologies => "etymologies",
            Operation::Examples => "examples",
            Operation::Frequency => "frequency",
            Operation::Hyphenation => "hyphenation",
            Operation::Phrases => "phrases",
            Operation::Pronunciations => "pronunciations",
            Operation::RelatedWords => "relatedWords",
            Operation::ScrabbleScore => "scrabbleScore",
            Operation::TopExample => "topExample",
        };
        s.to_string()
    }

    /// Same as [`Operation::name`]; stands where a textual rendering is expected.
    pub fn to_string(&self) -> (r: String)
        ensures
            r@ == self.spec_name(),
    {
        self.name()
    }
}

} // verus!
