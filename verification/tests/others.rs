use tunebot::commands::others::{
    definition_block, definition_entries, dictionary_url, meaning_entry, no_definition, pong,
    uptime_text, Definition, DictionaryResult, Meaning,
};

fn definition(n: usize) -> Definition {
    Definition { definition: format!("definition {n}"), example: format!("example {n}") }
}

fn meaning(part: &str, definitions: usize) -> Meaning {
    Meaning { part_of_speech: part.to_string(), definitions: (0..definitions).map(definition).collect() }
}

#[test]
fn words_are_looked_up_by_address() {
    assert_eq!(dictionary_url("hello"), "https://api.dictionaryapi.dev/api/v2/entries/en/hello");
    assert_eq!(dictionary_url(""), "https://api.dictionaryapi.dev/api/v2/entries/en/");
}

#[test]
fn definition_as_a_block() {
    assert_eq!(
        definition_block(&definition(1)),
        "```\u{e2}\u{20ac}\u{a2}\ndefinition 1\n\texample 1\n```"
    );
}

#[test]
fn meaning_shows_three_definitions_at_most() {
    let block = |n: usize| format!("```\u{e2}\u{20ac}\u{a2}\ndefinition {n}\n\texample {n}\n```");
    assert_eq!(meaning_entry(&meaning("noun", 0)).value, "");
    assert_eq!(meaning_entry(&meaning("noun", 1)).value, block(0));
    assert_eq!(meaning_entry(&meaning("noun", 3)).value, format!("{}{}{}", block(0), block(1), block(2)));
    let field = meaning_entry(&meaning("verb", 5));
    assert_eq!(field.name, "verb");
    assert_eq!(field.value, format!("{}{}{}", block(0), block(1), block(2)));
}

#[test]
fn answer_shows_three_meanings_at_most() {
    let result = DictionaryResult {
        phonetics: "h\u{259}\u{2c8}l\u{259}\u{28a}".to_string(),
        origin: "early 19th century".to_string(),
        meanings: vec![meaning("a", 1), meaning("b", 0), meaning("c", 2), meaning("d", 1)],
    };
    let fields = definition_entries(&result);
    assert_eq!(fields.len(), 5);
    assert_eq!(fields[0].name, "origin");
    assert_eq!(fields[0].value, "early 19th century");
    assert_eq!(fields[1].name, "phonetics");
    assert_eq!(fields[1].value, "h\u{259}\u{2c8}l\u{259}\u{28a}");
    assert_eq!(fields[2].name, "a");
    assert_eq!(fields[3].name, "b");
    assert_eq!(fields[3].value, "");
    assert_eq!(fields[4].name, "c");
}

#[test]
fn answer_without_meanings() {
    let result = DictionaryResult { phonetics: String::new(), origin: String::new(), meanings: Vec::new() };
    let fields = definition_entries(&result);
    assert_eq!(fields.len(), 2);
}

#[test]
fn unknown_words() {
    assert_eq!(no_definition("xyzzy"), "No definition found for xyzzy");
}

#[test]
fn latency_and_uptime() {
    assert_eq!(pong(0), "Pong! 0ms!");
    assert_eq!(pong(123), "Pong! 123ms!");
    assert_eq!(pong(u128::MAX), "Pong! 340282366920938463463374607431768211455ms!");
    assert_eq!(uptime_text(0), "Running for 0 seconds!");
    assert_eq!(uptime_text(86400), "Running for 86400 seconds!");
}
