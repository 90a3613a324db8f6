//! Seed phrases as text: the words of a mnemonic, separated by white space.
use crate::bip39::codec::phrase_view;
use crate::error::{ErrorView, SCypherError};
use vstd::prelude::*;
use vstd::string::StringExecFns;

verus! {

/// The characters that separate words: space, tab, line feed and carriage return.
pub open spec fn is_separator(c: char) -> bool {
    c == ' ' || c == '\t' || c == '\n' || c == '\r'
}

/// Reading a text character by character: the words that are complete, and the
/// characters of the word that is being read.
pub open spec fn scan_words(text: Seq<char>) -> (Seq<Seq<char>>, Seq<char>)
    decreases text.len(),
{
    if text.len() == 0 {
        (Seq::empty(), Seq::empty())
    } else {
        let (complete, current) = scan_words(text.drop_last());
        if !is_separator(text.last()) {
            (complete, current.push(text.last()))
        } else if current.len() > 0 {
            (complete.push(current), Seq::empty())
        } else {
            (complete, current)
        }
    }
}

/// The words of a text: its longest runs of characters that are no separators.
pub open spec fn split_spec(text: Seq<char>) -> Seq<Seq<char>> {
    let (complete, current) = scan_words(text);
    if current.len() > 0 {
        complete.push(current)
    } else {
        complete
    }
}

/// Splits a text into its words.
pub fn split_words(text: &str) -> (words: Vec<String>)
    ensures
        phrase_view(words@) == split_spec(text@),
{
    let mut words: Vec<String> = Vec::new();
    let mut current = String::new();
    for c in it: text.chars()
        invariant
            it.seq() == text@,
            scan_words(text@.take(it.index())) == (phrase_view(words@), current@),
    {
        proof {
            assert(text@.take(it.index() + 1).drop_last() =~= text@.take(it.index()));
        }
        if !(c == ' ' || c == '\t' || c == '\n' || c == '\r') {
            current.push(c);
        } else if !current.as_str().is_empty() {
            let ghost before = phrase_view(words@);
            let ghost word = current@;
            words.push(current);
            current = String::new();
            proof {
                assert(phrase_view(words@) =~= before.push(word));
            }
        }
    }
    proof {
        assert(text@.take(text@.len() as int) =~= text@);
    }
    if !current.as_str().is_empty() {
        let ghost before = phrase_view(words@);
        let ghost word = current@;
        words.push(current);
        proof {
            assert(phrase_view(words@) =~= before.push(word));
        }
    }
    words
}

/// The words of a seed phrase. A text without a word is no seed phrase
/// (`InvalidSeedPhrase`).
pub fn parse_phrase(text: &str) -> (r: Result<Vec<String>, SCypherError>)
    ensures
        match r {
            Ok(words) => split_spec(text@).len() > 0 && phrase_view(words@) == split_spec(text@),
            Err(e) => split_spec(text@).len() == 0 && e@ == ErrorView::InvalidSeedPhrase,
        },
{
    let words = split_words(text);
    if words.len() == 0 {
        Err(SCypherError::InvalidSeedPhrase)
    } else {
        Ok(words)
    }
}

/// The text of a word sequence: the words with one space between neighbours.
pub open spec fn join_spec(words: Seq<Seq<char>>) -> Seq<char>
    decreases words.len(),
{
    if words.len() == 0 {
        Seq::empty()
    } else if words.len() == 1 {
        words[0]
    } else {
        join_spec(words.drop_last()).push(' ') + words.last()
    }
}

/// Writes a word sequence as a text, with one space between neighbours.
pub fn format_phrase(words: &[String]) -> (text: String)
    ensures
        text@ == join_spec(phrase_view(words@)),
{
    let mut text = String::new();
    let mut k: usize = 0;
    while k < words.len()
        invariant
            k <= words@.len(),
            text@ == join_spec(phrase_view(words@).take(k as int)),
        decreases words@.len() - k,
    {
        proof {
            let next = phrase_view(words@).take(k + 1);
            assert(next.drop_last() =~= phrase_view(words@).take(k as int));
            assert(next.last() == words@[k as int]@);
            if k == 0 {
                assert(Seq::<char>::empty() + words@[0]@ =~= words@[0]@);
            }
        }
        if k > 0 {
            text.push(' ');
        }
        text.append(words[k].as_str());
        k = k + 1;
    }
    proof {
        assert(phrase_view(words@).take(k as int) =~= phrase_view(words@));
    }
    text
}

/// A word as the word list has them: not empty and without a separator.
pub open spec fn is_plain_word(word: Seq<char>) -> bool {
    word.len() > 0 && forall|k: int| 0 <= k < word.len() ==> !is_separator(word[k])
}

/// Reading on through a run of characters that are no separators extends the word
/// that is being read.
proof fn lemma_scan_run(text: Seq<char>, run: Seq<char>)
    requires
        forall|k: int| 0 <= k < run.len() ==> !is_separator(run[k]),
    ensures
        scan_words(text + run) == (scan_words(text).0, scan_words(text).1 + run),
    decreases run.len(),
{
    if run.len() == 0 {
        assert(text + run =~= text);
        assert(scan_words(text).1 + run =~= scan_words(text).1);
    } else {
        lemma_scan_run(text, run.drop_last());
        assert((text + run).drop_last() =~= text + run.drop_last());
        assert((scan_words(text).1 + run.drop_last()).push(run.last()) =~= scan_words(text).1
            + run);
    }
}

/// Reading the text of plain words ends in the last of them, with the others complete.
proof fn lemma_scan_join(words: Seq<Seq<char>>)
    requires
        words.len() > 0,
        forall|k: int| 0 <= k < words.len() ==> is_plain_word(#[trigger] words[k]),
    ensures
        scan_words(join_spec(words)) == (words.drop_last(), words.last()),
    decreases words.len(),
{
    if words.len() == 1 {
        lemma_scan_run(Seq::empty(), words[0]);
        assert(Seq::<char>::empty() + words[0] =~= words[0]);
        assert(words.drop_last() =~= Seq::<Seq<char>>::empty());
    } else {
        let front = words.drop_last();
        assert forall|k: int| 0 <= k < front.len() implies is_plain_word(#[trigger] front[k]) by {
            assert(front[k] == words[k]);
        }
        lemma_scan_join(front);
        let spaced = join_spec(front).push(' ');
        assert(spaced.drop_last() =~= join_spec(front));
        assert(front.drop_last().push(front.last()) =~= front);
        assert(scan_words(spaced) == (front, Seq::<char>::empty()));
        assert(is_plain_word(words[words.len() - 1]));
        lemma_scan_run(spaced, words.last());
        assert(Seq::<char>::empty() + words.last() =~= words.last());
    }
}

/// Splitting the text of plain words gives the words back.
pub proof fn lemma_split_of_join(words: Seq<Seq<char>>)
    requires
        forall|k: int| 0 <= k < words.len() ==> is_plain_word(#[trigger] words[k]),
    ensures
        split_spec(join_spec(words)) == words,
{
    if words.len() == 0 {
        assert(split_spec(join_spec(words)) =~= words);
    } else {
        lemma_scan_join(words);
        assert(is_plain_word(words[words.len() - 1]));
        assert(words.drop_last().push(words.last()) =~= words);
    }
}

} // verus!
