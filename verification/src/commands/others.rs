//! The small commands: latency, uptime and dictionary definitions.

use crate::text::{decimal, decimal_string, wide_decimal_string};
use vstd::prelude::*;
use vstd::string::StringExecFns;

verus! {

/// Where the definitions of English words are looked up; the word follows.
pub const DICTIONARY_URL: &'static str = "https://api.dictionaryapi.dev/api/v2/entries/en/";

/// How many meanings of a word, and how many definitions of a meaning, are shown.
pub const SHOWN: usize = 3;

/// One definition of a word, with an example of its use.
pub struct Definition {
    pub definition: String,
    pub example: String,
}

pub struct DefinitionView {
    pub definition: Seq<char>,
    pub example: Seq<char>,
}

impl DeepView for Definition {
    type V = DefinitionView;

    open spec fn deep_view(&self) -> DefinitionView {
        DefinitionView { definition: self.definition@, example: self.example@ }
    }
}

/// The definitions of a word as one part of speech.
pub struct Meaning {
    pub part_of_speech: String,
    pub definitions: Vec<Definition>,
}

pub struct MeaningView {
    pub part_of_speech: Seq<char>,
    pub definitions: Seq<DefinitionView>,
}

impl DeepView for Meaning {
    type V = MeaningView;

    open spec fn deep_view(&self) -> MeaningView {
        MeaningView {
            part_of_speech: self.part_of_speech@,
            definitions: self.definitions.deep_view(),
        }
    }
}

/// What the dictionary knows about a word.
pub struct DictionaryResult {
    pub phonetics: String,
    pub origin: String,
    pub meanings: Vec<Meaning>,
}

pub struct DictionaryResultView {
    pub phonetics: Seq<char>,
    pub origin: Seq<char>,
    pub meanings: Seq<MeaningView>,
}

impl DeepView for DictionaryResult {
    type V = DictionaryResultView;

    open spec fn deep_view(&self) -> DictionaryResultView {
        DictionaryResultView {
            phonetics: self.phonetics@,
            origin: self.origin@,
            meanings: self.meanings.deep_view(),
        }
    }
}

/// A titled entry of an answer.
pub struct Field {
    pub name: String,
    pub value: String,
}

pub struct FieldView {
    pub name: Seq<char>,
    pub value: Seq<char>,
}

impl DeepView for Field {
    type V = FieldView;

    open spec fn deep_view(&self) -> FieldView {
        FieldView { name: self.name@, value: self.value@ }
    }
}

/// The address at which `word` is looked up.
pub fn dictionary_url(word: &str) -> (url: String)
    ensures
        url@ == DICTIONARY_URL@ + word@,
{
    String::from_str(DICTIONARY_URL).concat(word)
}

/// What opens the block of a definition.
pub const BLOCK_OPEN: &'static str = "```\u{e2}\u{20ac}\u{a2}\n";

/// A definition as a block of preformatted text: the definition on one line, its
/// example indented on the next.
pub open spec fn block_text(d: DefinitionView) -> Seq<char> {
    BLOCK_OPEN@ + d.definition + seq!['\n', '\t'] + d.example + seq!['\n', '`', '`', '`']
}

/// Writes a definition as a block.
pub fn definition_block(d: &Definition) -> (block: String)
    ensures
        block@ == block_text(d.deep_view()),
{
    proof {
        reveal_strlit("\n\t");
        reveal_strlit("\n```");
    }
    let mut block = String::from_str(BLOCK_OPEN);
    block.append(d.definition.as_str());
    block.append("\n\t");
    block.append(d.example.as_str());
    block.append("\n```");
    assert("\n\t"@ =~= seq!['\n', '\t']);
    assert("\n```"@ =~= seq!['\n', '`', '`', '`']);
    block
}

/// The blocks of the first `count` of `definitions`, one after the other.
pub open spec fn blocks_text(definitions: Seq<DefinitionView>, count: nat) -> Seq<char>
    decreases count,
{
    if count == 0 {
        Seq::empty()
    } else {
        blocks_text(definitions, (count - 1) as nat) + block_text(definitions[count - 1])
    }
}

/// At most [`SHOWN`] of `len`.
pub open spec fn shown(len: nat) -> nat {
    if len < SHOWN {
        len
    } else {
        SHOWN as nat
    }
}

/// A meaning as an entry: the part of speech as its name, and under it the blocks of
/// the first three definitions.
pub open spec fn meaning_field(meaning: MeaningView) -> FieldView {
    FieldView {
        name: meaning.part_of_speech,
        value: blocks_text(meaning.definitions, shown(meaning.definitions.len())),
    }
}

/// Writes the entry of a meaning.
pub fn meaning_entry(meaning: &Meaning) -> (field: Field)
    ensures
        field.deep_view() == meaning_field(meaning.deep_view()),
{
    let ghost all = meaning.definitions.deep_view();
    let count: usize = if meaning.definitions.len() < SHOWN {
        meaning.definitions.len()
    } else {
        SHOWN
    };
    let mut value = String::new();
    let mut i: usize = 0;
    while i < count
        invariant
            i <= count <= meaning.definitions.len(),
            all == meaning.definitions.deep_view(),
            value@ == blocks_text(all, i as nat),
        decreases count - i,
    {
        value.append(definition_block(&meaning.definitions[i]).as_str());
        assert(all[i as int] == meaning.definitions[i as int].deep_view());
        i = i + 1;
    }
    Field { name: meaning.part_of_speech.clone(), value }
}

/// The entries of the answer that defines a word: its origin, its phonetics, and its
/// first three meanings.
pub open spec fn definition_fields(result: DictionaryResultView) -> Seq<FieldView> {
    seq![
        FieldView { name: "origin"@, value: result.origin },
        FieldView { name: "phonetics"@, value: result.phonetics },
    ] + Seq::new(shown(result.meanings.len()), |i: int| meaning_field(result.meanings[i]))
}

/// Lays out what the dictionary knows about a word.
pub fn definition_entries(result: &DictionaryResult) -> (fields: Vec<Field>)
    ensures
        fields.deep_view() == definition_fields(result.deep_view()),
{
    let ghost all = result.meanings.deep_view();
    let count: usize = if result.meanings.len() < SHOWN {
        result.meanings.len()
    } else {
        SHOWN
    };
    let mut fields: Vec<Field> = Vec::new();
    fields.push(Field { name: String::from_str("origin"), value: result.origin.clone() });
    fields.push(Field { name: String::from_str("phonetics"), value: result.phonetics.clone() });
    let mut i: usize = 0;
    while i < count
        invariant
            i <= count <= result.meanings.len(),
            all == result.meanings.deep_view(),
            fields.len() == i + 2,
            fields[0].deep_view() == (FieldView { name: "origin"@, value: result.origin@ }),
            fields[1].deep_view() == (FieldView { name: "phonetics"@, value: result.phonetics@ }),
            forall|k: int| 0 <= k < i ==> (#[trigger] fields[k + 2]).deep_view() == meaning_field(all[k]),
        decreases count - i,
    {
        let field = meaning_entry(&result.meanings[i]);
        assert(all[i as int] == result.meanings[i as int].deep_view());
        fields.push(field);
        i = i + 1;
    }
    proof {
        let expected = definition_fields(result.deep_view());
        assert(fields.deep_view().len() == expected.len());
        assert forall|k: int| 0 <= k < expected.len() implies fields.deep_view()[k] == expected[k] by {
            assert(fields.deep_view()[k] == fields[k].deep_view());
            if k >= 2 {
                assert(fields[(k - 2) + 2].deep_view() == meaning_field(all[k - 2]));
            }
        }
        assert(fields.deep_view() =~= expected);
    }
    fields
}

/// Says that the dictionary does not know `word`.
pub fn no_definition(word: &str) -> (text: String)
    ensures
        text@ == "No definition found for "@ + word@,
{
    String::from_str("No definition found for ").concat(word)
}

/// Reports how long an answer took, in milliseconds.
pub fn pong(elapsed_ms: u128) -> (text: String)
    ensures
        text@ == "Pong! "@ + decimal(elapsed_ms as nat) + "ms!"@,
{
    let mut text = String::from_str("Pong! ");
    text.append(wide_decimal_string(elapsed_ms).as_str());
    text.append("ms!");
    text
}

/// Reports for how many seconds the bot has been running.
pub fn uptime_text(secs: u64) -> (text: String)
    ensures
        text@ == "Running for "@ + decimal(secs as nat) + " seconds!"@,
{
    let mut text = String::from_str("Running for ");
    text.append(decimal_string(secs).as_str());
    text.append(" seconds!");
    text
}

} // verus!
