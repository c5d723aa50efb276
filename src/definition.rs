use vstd::prelude::*;

verus! {

/// One dictionary entry as the service returns it.
///
/// `definition` holds the entry's `text`; any field that the service leaves
/// out reads as the empty string.
#[derive(Debug, Default, PartialEq, Eq)]
pub struct Definition {
    pub word: String,
    pub definition: String,
    pub part_of_speech: String,
    pub attribution_text: String,
    pub source_dictionary: String,
    pub attribution_url: String,
    pub wordnik_url: String,
}

/// The bullet body of one entry: the part of speech and a space, when there is
/// one, then the definition text and a newline.
pub open spec fn pretty_line(d: Definition) -> Seq<char> {
    if d.part_of_speech@.len() == 0 {
        d.definition@ + "\n"@
    } else {
        d.part_of_speech@ + " "@ + d.definition@ + "\n"@
    }
}

impl Definition {
    /// A field-for-field copy.
    pub fn copy(&self) -> (r: Definition)
        ensures
            r == *self,
    {
        Definition {
            word: self.word.clone(),
            definition: self.definition.clone(),
            part_of_speech: self.part_of_speech.clone(),
            attribution_text: self.attribution_text.clone(),
            source_dictionary: self.source_dictionary.clone(),
            attribution_url: self.attribution_url.clone(),
            wordnik_url: self.wordnik_url.clone(),
        }
    }

    /// Renders the entry as one line: `"<part of speech> <text>\n"`, or
    /// `"<text>\n"` when the part of speech is empty.
    pub fn to_pretty(&self) -> (r: String)
        ensures
            r@ == pretty_line(*self),
    {
        let mut s = String::new();
        if self.part_of_speech.as_str().is_empty() {
            s.append(self.definition.as_str());
        } else {
            s.append(self.part_of_speech.as_str());
            s.append(" ");
            s.append(self.definition.as_str());
        }
        s.append("\n");
        s
    }
}

} // verus!
