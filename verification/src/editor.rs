//! Opening the configuration file in the user's editor, and telling the configuration watcher's
//! events about the file apart from the rest of its directory.

use vstd::prelude::*;

use crate::text::{is_blank, is_white, text_is_blank, white_char};

verus! {

/// Where splitting an editor command has got to.
pub struct WordScan {
    pub words: Seq<Seq<char>>,
    pub current: Seq<char>,
    /// The word being read has begun (an empty quoted word counts).
    pub started: bool,
    /// The quote being read inside, if any.
    pub quote: Option<char>,
}

pub open spec fn scan_start() -> WordScan {
    WordScan { words: Seq::empty(), current: Seq::empty(), started: false, quote: None }
}

/// One character of an editor command: inside quotes everything but the closing quote is text;
/// outside, a quote opens, white space ends a word, and anything else is text.
pub open spec fn scan_step(st: WordScan, ch: char) -> WordScan {
    match st.quote {
        Some(open) => if ch == open {
            WordScan { quote: None, ..st }
        } else {
            WordScan { current: st.current.push(ch), ..st }
        },
        None => if ch == '\'' || ch == '"' {
            WordScan { quote: Some(ch), started: true, ..st }
        } else if is_white(ch) {
            if st.started {
                WordScan { words: st.words.push(st.current), current: Seq::empty(), started: false, ..st }
            } else {
                st
            }
        } else {
            WordScan { current: st.current.push(ch), started: true, ..st }
        },
    }
}

pub open spec fn scan_words(chars: Seq<char>) -> WordScan
    decreases chars.len(),
{
    if chars.len() == 0 {
        scan_start()
    } else {
        scan_step(scan_words(chars.drop_last()), chars.last())
    }
}

/// The argv words of an `$EDITOR` value, honouring the quotes put around a program path that
/// holds spaces.
pub open spec fn editor_word_list(chars: Seq<char>) -> Seq<Seq<char>> {
    let st = scan_words(chars);
    if st.started {
        st.words.push(st.current)
    } else {
        st.words
    }
}

pub open spec fn texts(v: Seq<String>) -> Seq<Seq<char>> {
    v.map_values(|s: String| s@)
}

/// Split an `$EDITOR` value into argv words.
pub fn editor_words(value: &str) -> (r: Vec<String>)
    ensures
        texts(r@) == editor_word_list(value@),
{
    let n = value.unicode_len();
    let mut words: Vec<String> = Vec::new();
    let mut current = String::new();
    let mut started = false;
    let mut quote: Option<char> = None;
    let mut i: usize = 0;
    while i < n
        invariant
            n == value@.len(),
            i <= n,
            ({
                let st = scan_words(value@.take(i as int));
                &&& texts(words@) == st.words
                &&& current@ == st.current
                &&& started == st.started
                &&& quote == st.quote
            }),
        decreases n - i,
    {
        proof {
            assert(value@.take(i as int + 1).drop_last() =~= value@.take(i as int));
        }
        let ch = value.get_char(i);
        let one = value.substring_char(i, i + 1);
        assert(one@ =~= seq![ch]);
        match quote {
            Some(open) => {
                if ch == open {
                    quote = None;
                } else {
                    current.append(one);
                }
            },
            None => {
                if ch == '\'' || ch == '"' {
                    quote = Some(ch);
                    started = true;
                } else if white_char(ch) {
                    if started {
                        let ghost before = words@;
                        words.push(current);
                        current = String::new();
                        started = false;
                        proof {
                            assert(texts(words@) =~= texts(before).push(words@[before.len() as int]@));
                        }
                    }
                } else {
                    current.append(one);
                    started = true;
                }
            },
        }
        i = i + 1;
    }
    proof {
        assert(value@.take(n as int) =~= value@);
    }
    if started {
        let ghost before = words@;
        words.push(current);
        proof {
            assert(texts(words@) =~= texts(before).push(words@[before.len() as int]@));
        }
    }
    words
}

/// The argv that opens `path` in `editor`: the editor's words, then the path as an argument of
/// its own, never quoted.
pub fn editor_argv(editor: &str, path: String) -> (r: Vec<String>)
    ensures
        texts(r@) == editor_word_list(editor@).push(path@),
{
    let mut argv = editor_words(editor);
    let ghost before = argv@;
    argv.push(path);
    proof {
        assert(texts(argv@) =~= texts(before).push(path@));
    }
    argv
}

/// The editor to use: `$EDITOR`, else `$VISUAL`, else `vi`, skipping a value that is blank.
pub fn choose_editor(editor: Option<String>, visual: Option<String>) -> (r: String)
    ensures
        r@ == match editor {
            Some(e) if !is_blank(e@) => e@,
            _ => match visual {
                Some(v) if !is_blank(v@) => v@,
                _ => "vi"@,
            },
        },
{
    if let Some(e) = editor {
        if !text_is_blank(e.as_str()) {
            return e;
        }
    }
    if let Some(v) = visual {
        if !text_is_blank(v.as_str()) {
            return v;
        }
    }
    String::from_str("vi")
}

/// The program an editor value runs: its first word, or nothing.
pub fn editor_command(editor: &str) -> (r: String)
    ensures
        r@ == if editor_word_list(editor@).len() > 0 {
            editor_word_list(editor@)[0]
        } else {
            Seq::empty()
        },
{
    let mut words = editor_words(editor);
    if words.len() > 0 {
        words.swap_remove(0)
    } else {
        String::new()
    }
}

/// What kind of change a file watcher saw.
#[derive(Clone, Copy, Debug, PartialEq, Eq, Structural)]
pub enum WatchKind {
    Any,
    Access,
    Create,
    Modify,
    Remove,
    Other,
}

/// A file watcher's event: its kind and the file names of the paths it names (`None` for a path
/// without one).
#[derive(Clone, Debug)]
pub struct WatchEvent {
    pub kind: WatchKind,
    pub file_names: Vec<Option<String>>,
}

/// A path's file name is `t`.
pub open spec fn named(n: Option<String>, t: Seq<char>) -> bool {
    match n {
        Some(x) => x@ == t,
        None => false,
    }
}

/// The event may have changed the file named `target`: it creates or modifies (or is of an
/// unknown kind), and one of its paths has that file name.
pub open spec fn touches(kind: WatchKind, names: Seq<Option<String>>, target: Option<Seq<char>>) -> bool {
    (kind == WatchKind::Any || kind == WatchKind::Create || kind == WatchKind::Modify) && match target {
        Some(t) => exists|i: int| 0 <= i < names.len() && named(#[trigger] names[i], t),
        None => false,
    }
}

/// Whether a watcher event may have changed the configuration file, whose file name is `target`.
pub fn event_touches_config(event: &WatchEvent, target: &Option<String>) -> (r: bool)
    ensures
        r == touches(
            event.kind,
            event.file_names@,
            match target {
                Some(t) => Some(t@),
                None => None,
            },
        ),
{
    let relevant = match event.kind {
        WatchKind::Any | WatchKind::Create | WatchKind::Modify => true,
        _ => false,
    };
    if !relevant {
        return false;
    }
    let name = match target {
        Some(t) => t,
        None => return false,
    };
    let mut i: usize = 0;
    while i < event.file_names.len()
        invariant
            i <= event.file_names.len(),
            event.kind == WatchKind::Any || event.kind == WatchKind::Create || event.kind == WatchKind::Modify,
            *target == Some(*name),
            forall|k: int| 0 <= k < i ==> !named(#[trigger] event.file_names@[k], name@),
        decreases event.file_names.len() - i,
    {
        if let Some(n) = &event.file_names[i] {
            if *n == *name {
                assert(named(event.file_names@[i as int], name@));
                return true;
            }
        }
        i = i + 1;
    }
    false
}

} // verus!
