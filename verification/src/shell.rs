//! Command lines that can be copied into a shell.

use vstd::prelude::*;
use vstd::string::*;

use crate::text;

verus! {

/// The shells that command lines are written for.
#[derive(Debug, Clone, Copy, PartialEq, Eq, Structural)]
pub enum Shell {
    Posix,
    PowerShell,
}

/// Whether a shell reads a character as itself outside quotes.
pub open spec fn is_plain(ch: char) -> bool {
    text::is_alnum(ch) || ch == '_' || ch == '-' || ch == '.' || ch == '/' || ch == ':' || ch
        == '=' || ch == ',' || ch == '@' || ch == '%' || ch == '+'
}

/// Whether a word needs no quotes.
pub open spec fn plain_word(word: Seq<char>) -> bool {
    word.len() > 0 && forall|i: int| 0 <= i < word.len() ==> is_plain(#[trigger] word[i])
}

/// A word as it stands between single quotes: each single quote of its own closes the
/// quotes, stands there escaped and opens them again.
pub open spec fn escaped(word: Seq<char>) -> Seq<char>
    decreases word.len(),
{
    if word.len() == 0 {
        word
    } else if word.last() == '\'' {
        escaped(word.drop_last()).push('\'').push('\\').push('\'').push('\'')
    } else {
        escaped(word.drop_last()).push(word.last())
    }
}

/// A word of a command line.
pub open spec fn quoted(word: Seq<char>) -> Seq<char> {
    if plain_word(word) {
        word
    } else {
        seq!['\''] + escaped(word) + seq!['\'']
    }
}

/// Words of a command line.
pub open spec fn quoted_words(words: Seq<Seq<char>>) -> Seq<Seq<char>> {
    Seq::new(words.len(), |i: int| quoted(words[i]))
}

/// The command line of `words`.
pub open spec fn command(words: Seq<Seq<char>>) -> Seq<char> {
    text::joined(quoted_words(words), " "@)
}

fn plain_char(ch: char) -> (r: bool)
    ensures
        r == is_plain(ch),
{
    text::alnum_char(ch) || ch == '_' || ch == '-' || ch == '.' || ch == '/' || ch == ':' || ch
        == '=' || ch == ',' || ch == '@' || ch == '%' || ch == '+'
}

fn needs_no_quotes(word: &[char]) -> (r: bool)
    ensures
        r == plain_word(word@),
{
    if word.len() == 0 {
        return false;
    }
    for i in 0..word.len()
        invariant
            word@.len() > 0,
            forall|j: int| 0 <= j < i ==> is_plain(#[trigger] word@[j]),
    {
        if !plain_char(word[i]) {
            assert(!is_plain(word@[i as int]));
            return false;
        }
    }
    true
}

/// A word of a command line.
pub fn quote_word(word: &str) -> (r: String)
    ensures
        r@ == quoted(word@),
{
    let chars: Vec<char> = text::chars_of(word);
    if needs_no_quotes(chars.as_slice()) {
        return word.to_owned();
    }
    let mut r: String = String::new();
    r.push('\'');
    assert(r@ =~= seq!['\''] + escaped(word@.take(0)));
    for i in 0..chars.len()
        invariant
            chars@ == word@,
            r@ == seq!['\''] + escaped(word@.take(i as int)),
    {
        assert(word@.take(i + 1).drop_last() =~= word@.take(i as int));
        if chars[i] == '\'' {
            r.push('\'');
            r.push('\\');
            r.push('\'');
            r.push('\'');
        } else {
            r.push(chars[i]);
        }
        assert(r@ =~= seq!['\''] + escaped(word@.take(i + 1)));
    }
    assert(word@.take(word@.len() as int) =~= word@);
    r.push('\'');
    assert(r@ =~= quoted(word@));
    r
}

/// The command line of `words`.
pub fn format_command(words: &[String]) -> (r: String)
    ensures
        r@ == command(text::texts(words@)),
{
    let mut shown: Vec<String> = Vec::new();
    for i in 0..words.len()
        invariant
            shown@.len() == i,
            forall|j: int| 0 <= j < i ==> (#[trigger] shown@[j])@ == quoted(words@[j]@),
    {
        shown.push(quote_word(words[i].as_str()));
    }
    assert(text::texts(shown@) =~= quoted_words(text::texts(words@)));
    text::join(shown.as_slice(), " ")
}

/// The command line of `words`, with the directory of the gcloud configuration before it.
pub open spec fn command_with_config(
    shell: Shell,
    words: Seq<Seq<char>>,
    config_dir: Option<Seq<char>>,
) -> Seq<char> {
    match config_dir {
        None => command(words),
        Some(dir) => {
            let setting = (match shell {
                Shell::Posix => "CLOUDSDK_CONFIG="@,
                Shell::PowerShell => "$env:CLOUDSDK_CONFIG="@,
            }) + command(seq![dir]);
            if command(words).len() == 0 {
                setting
            } else {
                setting + (match shell {
                    Shell::Posix => " "@,
                    Shell::PowerShell => "; "@,
                }) + command(words)
            }
        },
    }
}

/// The command line of `words`, with the directory of the gcloud configuration before it.
pub fn join_with_config(shell: Shell, words: &[String], config_dir: Option<&str>) -> (r: String)
    ensures
        r@ == command_with_config(shell, text::texts(words@), text::opt_str(config_dir)),
{
    let command_line: String = format_command(words);
    match config_dir {
        None => command_line,
        Some(dir) => {
            let mut one: Vec<String> = Vec::new();
            one.push(dir.to_owned());
            assert(text::texts(one@) =~= seq![dir@]);
            let mut r: String = match shell {
                Shell::Posix => "CLOUDSDK_CONFIG=".to_owned(),
                Shell::PowerShell => "$env:CLOUDSDK_CONFIG=".to_owned(),
            };
            r.append(format_command(one.as_slice()).as_str());
            if !command_line.as_str().is_empty() {
                match shell {
                    Shell::Posix => r.append(" "),
                    Shell::PowerShell => r.append("; "),
                }
                r.append(command_line.as_str());
            }
            r
        },
    }
}

// ---------------------------------------------------------------------------
// Reading a command line.
// ---------------------------------------------------------------------------

/// What is read of a word that may not have begun.
pub open spec fn begun(word: Option<Seq<char>>) -> Seq<char> {
    match word {
        Some(held) => held,
        None => Seq::<char>::empty(),
    }
}

/// The words of the rest of a command line, as a POSIX shell reads blanks, single quotes
/// and backslashes: `done` are the words before, `word` is what was read of the next one,
/// and `open` says whether the rest begins inside quotes. There is no reading of a line
/// that ends inside quotes or after a backslash.
pub open spec fn read_words(
    rest: Seq<char>,
    done: Seq<Seq<char>>,
    word: Option<Seq<char>>,
    open: bool,
) -> Option<Seq<Seq<char>>>
    decreases rest.len(),
{
    if rest.len() == 0 {
        if open {
            None
        } else {
            match word {
                Some(held) => Some(done.push(held)),
                None => Some(done),
            }
        }
    } else {
        let ch = rest[0];
        let next = rest.skip(1);
        if open {
            if ch == '\'' {
                read_words(next, done, word, false)
            } else {
                read_words(next, done, Some(begun(word).push(ch)), true)
            }
        } else if ch == ' ' {
            match word {
                Some(held) => read_words(next, done.push(held), None, false),
                None => read_words(next, done, None, false),
            }
        } else if ch == '\'' {
            read_words(next, done, Some(begun(word)), true)
        } else if ch == '\\' {
            if next.len() == 0 {
                None
            } else {
                read_words(next.skip(1), done, Some(begun(word).push(next[0])), false)
            }
        } else {
            read_words(next, done, Some(begun(word).push(ch)), false)
        }
    }
}

proof fn lemma_read_plain(
    word: Seq<char>,
    tail: Seq<char>,
    done: Seq<Seq<char>>,
    before: Option<Seq<char>>,
)
    requires
        plain_word(word),
    ensures
        read_words(word + tail, done, before, false) == read_words(
            tail,
            done,
            Some(begun(before) + word),
            false,
        ),
    decreases word.len(),
{
    let ch = word[0];
    let next = word.skip(1);
    assert(is_plain(word[0]));
    assert((word + tail).skip(1) =~= next + tail);
    assert((word + tail)[0] == ch);
    if next.len() == 0 {
        assert(next + tail =~= tail);
        assert(begun(before).push(ch) =~= begun(before) + word);
    } else {
        assert forall|i: int| 0 <= i < next.len() implies is_plain(#[trigger] next[i]) by {
            assert(is_plain(word[i + 1]));
        }
        lemma_read_plain(next, tail, done, Some(begun(before).push(ch)));
        assert(begun(before).push(ch) + next =~= begun(before) + word);
    }
}

proof fn lemma_escaped_first(word: Seq<char>)
    requires
        word.len() > 0,
    ensures
        escaped(word) == (if word[0] == '\'' {
            seq!['\'', '\\', '\'', '\'']
        } else {
            seq![word[0]]
        }) + escaped(word.skip(1)),
    decreases word.len(),
{
    if word.len() == 1 {
        assert(word.drop_last() =~= Seq::<char>::empty());
        assert(word.skip(1) =~= Seq::<char>::empty());
        assert(escaped(word.drop_last()) =~= Seq::<char>::empty());
        assert(escaped(word.skip(1)) =~= Seq::<char>::empty());
        if word[0] == '\'' {
            assert(escaped(word) =~= seq!['\'', '\\', '\'', '\''] + escaped(word.skip(1)));
        } else {
            assert(escaped(word) =~= seq![word[0]] + escaped(word.skip(1)));
        }
    } else {
        lemma_escaped_first(word.drop_last());
        assert(word.drop_last().skip(1) =~= word.skip(1).drop_last());
        let head = if word[0] == '\'' {
            seq!['\'', '\\', '\'', '\'']
        } else {
            seq![word[0]]
        };
        assert(escaped(word) =~= head + escaped(word.skip(1)));
    }
}

proof fn lemma_read_escaped(
    word: Seq<char>,
    tail: Seq<char>,
    done: Seq<Seq<char>>,
    before: Seq<char>,
)
    ensures
        read_words(escaped(word) + tail, done, Some(before), true) == read_words(
            tail,
            done,
            Some(before + word),
            true,
        ),
    decreases word.len(),
{
    if word.len() == 0 {
        assert(escaped(word) + tail =~= tail);
        assert(before + word =~= before);
    } else {
        let ch = word[0];
        let next = word.skip(1);
        lemma_escaped_first(word);
        lemma_read_escaped(next, tail, done, before.push(ch));
        assert(before.push(ch) + next =~= before + word);
        let all = escaped(word) + tail;
        let left = escaped(next) + tail;
        if ch == '\'' {
            assert(all[0] == '\'');
            assert(all.skip(1)[0] == '\\');
            assert(all.skip(1).skip(1)[0] == '\'');
            assert(all.skip(1).skip(1).skip(1)[0] == '\'');
            assert(all.skip(1).skip(1).skip(1).skip(1) =~= left);
            assert(read_words(all, done, Some(before), true) == read_words(
                all.skip(1),
                done,
                Some(before),
                false,
            ));
            assert(read_words(all.skip(1), done, Some(before), false) == read_words(
                all.skip(1).skip(1).skip(1),
                done,
                Some(before.push('\'')),
                false,
            ));
            assert(read_words(
                all.skip(1).skip(1).skip(1),
                done,
                Some(before.push('\'')),
                false,
            ) == read_words(left, done, Some(before.push('\'')), true));
        } else {
            assert(all[0] == ch);
            assert(all.skip(1) =~= left);
        }
    }
}

proof fn lemma_read_quoted(word: Seq<char>, tail: Seq<char>, done: Seq<Seq<char>>)
    ensures
        read_words(quoted(word) + tail, done, None, false) == read_words(
            tail,
            done,
            Some(word),
            false,
        ),
{
    let none = Seq::<char>::empty();
    assert(none + word =~= word);
    if plain_word(word) {
        lemma_read_plain(word, tail, done, None);
    } else {
        let after = seq!['\''] + tail;
        let all = quoted(word) + tail;
        assert(all[0] == '\'');
        assert(all.skip(1) =~= escaped(word) + after);
        lemma_read_escaped(word, after, done, none);
        assert(after[0] == '\'');
        assert(after.skip(1) =~= tail);
    }
}

proof fn lemma_joined_first(parts: Seq<Seq<char>>, mark: Seq<char>)
    requires
        parts.len() > 1,
    ensures
        text::joined(parts, mark) == parts[0] + mark + text::joined(parts.skip(1), mark),
    decreases parts.len(),
{
    if parts.len() == 2 {
        assert(text::joined(parts.drop_last(), mark) == parts[0]);
        assert(text::joined(parts.skip(1), mark) == parts.last());
    } else {
        lemma_joined_first(parts.drop_last(), mark);
        assert(parts.drop_last().skip(1) =~= parts.skip(1).drop_last());
        assert(parts.skip(1).last() == parts.last());
        assert(text::joined(parts, mark) =~= parts[0] + mark + text::joined(parts.skip(1), mark));
    }
}

proof fn lemma_read_command(words: Seq<Seq<char>>, done: Seq<Seq<char>>)
    ensures
        read_words(command(words), done, None, false) == Some(done + words),
    decreases words.len(),
{
    reveal_strlit(" ");
    if words.len() == 0 {
        assert(quoted_words(words) =~= Seq::<Seq<char>>::empty());
        assert(done + words =~= done);
    } else {
        let first = words[0];
        let next = words.skip(1);
        let shown = quoted_words(words);
        if words.len() == 1 {
            assert(command(words) =~= quoted(first) + Seq::<char>::empty());
            lemma_read_quoted(first, Seq::<char>::empty(), done);
            assert(done.push(first) =~= done + words);
        } else {
            lemma_joined_first(shown, " "@);
            assert(shown.skip(1) =~= quoted_words(next));
            let tail = " "@ + command(next);
            assert(command(words) =~= quoted(first) + tail);
            lemma_read_quoted(first, tail, done);
            assert(tail[0] == ' ');
            assert(tail.skip(1) =~= command(next));
            lemma_read_command(next, done.push(first));
            assert(done.push(first) + next =~= done + words);
        }
    }
}

/// A POSIX shell reads a command line as the words that it was made from.
pub proof fn law_commands_read_back(words: Seq<Seq<char>>)
    ensures
        read_words(command(words), Seq::<Seq<char>>::empty(), None, false) == Some(words),
{
    lemma_read_command(words, Seq::<Seq<char>>::empty());
    assert(Seq::<Seq<char>>::empty() + words =~= words);
}

/// A word of plain characters is written as it is; every other one, and an empty one, between
/// quotes.
pub proof fn law_plain_words_are_not_quoted(word: Seq<char>)
    ensures
        word.len() > 0 && (forall|i: int|
            0 <= i < word.len() ==> ('a' <= #[trigger] word[i] <= 'z' || 'A' <= word[i] <= 'Z'
                || '0' <= word[i] <= '9' || word[i] == '_' || word[i] == '-' || word[i] == '.'
                || word[i] == '/' || word[i] == ':' || word[i] == '=' || word[i] == ',' || word[i]
                == '@' || word[i] == '%' || word[i] == '+')) ==> quoted(word) == word,
        word.len() == 0 ==> quoted(word) == seq!['\'', '\''],
        (exists|i: int|
            0 <= i < word.len() && (#[trigger] word[i] == ' ' || word[i] == '$' || word[i] == ';'
                || word[i] == '"')) ==> quoted(word) == seq!['\''] + escaped(word) + seq!['\''],
{
    if word.len() == 0 {
        assert(seq!['\''] + escaped(word) + seq!['\''] =~= seq!['\'', '\'']);
    }
    if plain_word(word) {
        assert forall|i: int| 0 <= i < word.len() implies !(#[trigger] word[i] == ' ' || word[i]
            == '$' || word[i] == ';' || word[i] == '"') by {
            assert(is_plain(word[i]));
        }
    }
}

/// The words of a command stand in their order with a blank between each two of them; and where
/// there is a directory for it, the setting stands in front, in the form of the shell.
pub proof fn law_commands_carry_their_setting(
    words: Seq<Seq<char>>,
    word: Seq<char>,
    dir: Seq<char>,
)
    requires
        words.len() > 0,
        command(words).len() > 0,
    ensures
        command(seq![word]) == quoted(word),
        command(words.push(word)) == command(words) + " "@ + quoted(word),
        command_with_config(Shell::Posix, words, None) == command(words),
        command_with_config(Shell::PowerShell, words, None) == command(words),
        command_with_config(Shell::Posix, words, Some(dir)) == "CLOUDSDK_CONFIG="@ + quoted(dir)
            + " "@ + command(words),
        command_with_config(Shell::PowerShell, words, Some(dir)) == "$env:CLOUDSDK_CONFIG="@
            + quoted(dir) + "; "@ + command(words),
{
    assert(quoted_words(seq![word]) =~= seq![quoted(word)]);
    assert(quoted_words(seq![dir]) =~= seq![quoted(dir)]);
    assert(quoted_words(words.push(word)) =~= quoted_words(words).push(quoted(word)));
    text::law_joined_texts_stand_in_order(quoted_words(words), quoted(word), " "@);
    text::law_joined_texts_stand_in_order(quoted_words(words), quoted(dir), " "@);
}

} // verus!
