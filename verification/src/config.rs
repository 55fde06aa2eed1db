//! The boot parameters and the line-oriented text they are read from.
//!
//! A source is scanned line by line. Blank lines and lines whose trimmed form
//! starts with `//` are skipped; every other line must read `key=value` with
//! a recognised key. A key may repeat, and its last value counts.

use crate::text::{
    chars_of, lines, opt_text, same_text, split_lines, split_once, split_text_once, starts_with,
    string_of, text_starts_with, texts, trim, trim_text,
};
use vstd::prelude::*;

verus! {

/// A key of the configuration source.
#[derive(Debug, Clone, Copy, PartialEq, Eq, Structural)]
pub enum Key {
    Root,
    Swap,
    Home,
    KeyFilePath,
}

/// The boot parameters: the identifiers by which the three partitions are
/// found, and, where volumes are encrypted, the path of the key file.
#[derive(Debug, Clone, PartialEq, Eq)]
pub struct Cfg {
    pub root_uuid: String,
    pub swap_uuid: String,
    pub home_uuid: String,
    pub key_file_path: Option<String>,
}

/// The boot parameters as plain texts.
pub ghost struct CfgView {
    pub root_uuid: Seq<char>,
    pub swap_uuid: Seq<char>,
    pub home_uuid: Seq<char>,
    pub key_file_path: Option<Seq<char>>,
}

impl View for Cfg {
    type V = CfgView;

    open spec fn view(&self) -> CfgView {
        CfgView {
            root_uuid: self.root_uuid@,
            swap_uuid: self.swap_uuid@,
            home_uuid: self.home_uuid@,
            key_file_path: match self.key_file_path {
                Some(p) => Some(p@),
                None => None,
            },
        }
    }
}

/// Why a configuration source was rejected. Lines are counted from zero.
#[derive(Debug, Clone, PartialEq, Eq)]
pub enum CfgError {
    /// A line that is neither blank nor a comment holds no `=`.
    MissingSeparator { line: usize, content: String },
    /// The text before the first `=` of a line is no recognised key.
    UnknownKey { name: String, line: usize, content: String },
    /// No line of the source at `path` sets a required key.
    MissingKey { key: Key, path: String },
}

/// A rejection as plain values.
pub ghost enum CfgErrorView {
    MissingSeparator { line: int, content: Seq<char> },
    UnknownKey { name: Seq<char>, line: int, content: Seq<char> },
    MissingKey { key: Key, path: Seq<char> },
}

impl View for CfgError {
    type V = CfgErrorView;

    open spec fn view(&self) -> CfgErrorView {
        match self {
            CfgError::MissingSeparator { line, content } => CfgErrorView::MissingSeparator {
                line: *line as int,
                content: content@,
            },
            CfgError::UnknownKey { name, line, content } => CfgErrorView::UnknownKey {
                name: name@,
                line: *line as int,
                content: content@,
            },
            CfgError::MissingKey { key, path } => CfgErrorView::MissingKey {
                key: *key,
                path: path@,
            },
        }
    }
}

/// What one line of a source says.
pub ghost enum LineView {
    /// Blank, or a comment.
    Skip,
    /// `key=value` with a recognised key.
    Entry(Key, Seq<char>),
    /// No `=`.
    Malformed,
    /// `key=value` with a key that is not recognised.
    Unknown(Seq<char>),
}

/// The key that `name` spells. `key_file_path` is a key only where volumes
/// are encrypted.
pub open spec fn key_named(name: Seq<char>, encryption: bool) -> Option<Key> {
    if name == "root"@ {
        Some(Key::Root)
    } else if name == "home"@ {
        Some(Key::Home)
    } else if name == "swap"@ {
        Some(Key::Swap)
    } else if encryption && name == "key_file_path"@ {
        Some(Key::KeyFilePath)
    } else {
        None
    }
}

/// What `line` says. The key is the text before the first `=` of the trimmed
/// line and the value is all that follows it, both taken as they stand.
pub open spec fn classify(line: Seq<char>, encryption: bool) -> LineView {
    let t = trim(line);
    if t.len() == 0 || starts_with(t, "//"@) {
        LineView::Skip
    } else {
        match split_once(t, '=') {
            None => LineView::Malformed,
            Some((k, v)) => match key_named(k, encryption) {
                Some(key) => LineView::Entry(key, v),
                None => LineView::Unknown(k),
            },
        }
    }
}

/// Whether `line` makes the source unreadable.
pub open spec fn is_bad(line: Seq<char>, encryption: bool) -> bool {
    classify(line, encryption) is Malformed || classify(line, encryption) is Unknown
}

/// The index of the first bad line among `ls`.
pub open spec fn first_bad(ls: Seq<Seq<char>>, encryption: bool) -> Option<int>
    decreases ls.len(),
{
    if ls.len() == 0 {
        None
    } else {
        match first_bad(ls.drop_last(), encryption) {
            Some(i) => Some(i),
            None => if is_bad(ls.last(), encryption) {
                Some(ls.len() - 1)
            } else {
                None
            },
        }
    }
}

/// The value that the last line of `ls` which sets `key` gives it.
pub open spec fn last_value(ls: Seq<Seq<char>>, key: Key, encryption: bool) -> Option<Seq<char>>
    decreases ls.len(),
{
    if ls.len() == 0 {
        None
    } else {
        match classify(ls.last(), encryption) {
            LineView::Entry(k, v) if k == key => Some(v),
            _ => last_value(ls.drop_last(), key, encryption),
        }
    }
}

/// The rejection for a bad line at index `i`.
pub open spec fn line_error(line: Seq<char>, i: int, encryption: bool) -> CfgErrorView {
    match classify(line, encryption) {
        LineView::Unknown(k) => CfgErrorView::UnknownKey { name: k, line: i, content: line },
        _ => CfgErrorView::MissingSeparator { line: i, content: line },
    }
}

/// What reading the source `content`, found at `path`, yields: the rejection
/// of its first bad line; else the first of `root`, `swap`, `home` and, with
/// encryption, `key_file_path` that no line sets; else the parameters, each
/// with its last value.
pub open spec fn parse(content: Seq<char>, path: Seq<char>, encryption: bool) -> Result<
    CfgView,
    CfgErrorView,
> {
    let ls = lines(content);
    match first_bad(ls, encryption) {
        Some(i) => Err(line_error(ls[i], i, encryption)),
        None => {
            let root = last_value(ls, Key::Root, encryption);
            let swap = last_value(ls, Key::Swap, encryption);
            let home = last_value(ls, Key::Home, encryption);
            let key_file = last_value(ls, Key::KeyFilePath, encryption);
            if root is None {
                Err(CfgErrorView::MissingKey { key: Key::Root, path })
            } else if swap is None {
                Err(CfgErrorView::MissingKey { key: Key::Swap, path })
            } else if home is None {
                Err(CfgErrorView::MissingKey { key: Key::Home, path })
            } else if encryption && key_file is None {
                Err(CfgErrorView::MissingKey { key: Key::KeyFilePath, path })
            } else {
                Ok(
                    CfgView {
                        root_uuid: root->0,
                        swap_uuid: swap->0,
                        home_uuid: home->0,
                        key_file_path: key_file,
                    },
                )
            }
        },
    }
}

/// What one line of a source says, as the reader holds it.
pub enum Line {
    Skip,
    Entry(Key, Vec<char>),
    Malformed,
    Unknown(Vec<char>),
}

impl View for Line {
    type V = LineView;

    open spec fn view(&self) -> LineView {
        match self {
            Line::Skip => LineView::Skip,
            Line::Entry(k, v) => LineView::Entry(*k, v@),
            Line::Malformed => LineView::Malformed,
            Line::Unknown(k) => LineView::Unknown(k@),
        }
    }
}

/// Finds the key that `name` spells.
pub fn key_of(name: &Vec<char>, encryption: bool) -> (r: Option<Key>)
    ensures
        r == key_named(name@, encryption),
{
    if same_text(name, &chars_of("root")) {
        Some(Key::Root)
    } else if same_text(name, &chars_of("home")) {
        Some(Key::Home)
    } else if same_text(name, &chars_of("swap")) {
        Some(Key::Swap)
    } else if encryption && same_text(name, &chars_of("key_file_path")) {
        Some(Key::KeyFilePath)
    } else {
        None
    }
}

/// Reads one line.
pub fn classify_line(line: &Vec<char>, encryption: bool) -> (r: Line)
    ensures
        r@ == classify(line@, encryption),
{
    let t = trim_text(line);
    if t.len() == 0 || text_starts_with(&t, &chars_of("//")) {
        return Line::Skip;
    }
    match split_text_once(&t, '=') {
        None => Line::Malformed,
        Some((k, v)) => match key_of(&k, encryption) {
            Some(key) => Line::Entry(key, v),
            None => Line::Unknown(k),
        },
    }
}

/// A bad line among the first `k` lines is the first bad line of them all.
pub proof fn lemma_first_bad_extends(ls: Seq<Seq<char>>, k: int, encryption: bool)
    requires
        0 <= k <= ls.len(),
        first_bad(ls.take(k), encryption) is Some,
    ensures
        first_bad(ls, encryption) == first_bad(ls.take(k), encryption),
    decreases ls.len() - k,
{
    if k == ls.len() {
        assert(ls.take(k) =~= ls);
    } else {
        assert(ls.take(k + 1).drop_last() =~= ls.take(k));
        lemma_first_bad_extends(ls, k + 1, encryption);
    }
}

/// Reads the boot parameters from the source `content` that was found at
/// `cfg_path`. With `encryption` the key `key_file_path` is recognised and
/// required; without it that key is unknown.
pub fn read_cfg(content: &str, cfg_path: &str, encryption: bool) -> (r: Result<Cfg, CfgError>)
    ensures
        match r {
            Ok(cfg) => parse(content@, cfg_path@, encryption) == Ok::<CfgView, CfgErrorView>(cfg@),
            Err(e) => parse(content@, cfg_path@, encryption) == Err::<CfgView, CfgErrorView>(e@),
        },
{
    let source = chars_of(content);
    let ls = split_lines(&source);
    let ghost all = lines(content@);
    let mut root: Option<Vec<char>> = None;
    let mut swap: Option<Vec<char>> = None;
    let mut home: Option<Vec<char>> = None;
    let mut key_file: Option<Vec<char>> = None;
    let mut i: usize = 0;
    while i < ls.len()
        invariant
            i <= ls.len(),
            texts(ls@) == all,
            all == lines(content@),
            first_bad(all.take(i as int), encryption) is None,
            opt_text(root) == last_value(all.take(i as int), Key::Root, encryption),
            opt_text(swap) == last_value(all.take(i as int), Key::Swap, encryption),
            opt_text(home) == last_value(all.take(i as int), Key::Home, encryption),
            opt_text(key_file) == last_value(all.take(i as int), Key::KeyFilePath, encryption),
        decreases ls.len() - i,
    {
        proof {
            assert(all.take(i + 1).drop_last() =~= all.take(i as int));
            assert(all.take(i + 1).last() == all[i as int]);
            assert(ls@[i as int]@ == all[i as int]);
        }
        match classify_line(&ls[i], encryption) {
            Line::Skip => {},
            Line::Entry(key, value) => match key {
                Key::Root => {
                    root = Some(value);
                },
                Key::Swap => {
                    swap = Some(value);
                },
                Key::Home => {
                    home = Some(value);
                },
                Key::KeyFilePath => {
                    key_file = Some(value);
                },
            },
            Line::Malformed => {
                proof {
                    lemma_first_bad_extends(all, i + 1, encryption);
                }
                return Err(
                    CfgError::MissingSeparator { line: i, content: string_of(&ls[i]) },
                );
            },
            Line::Unknown(key) => {
                proof {
                    lemma_first_bad_extends(all, i + 1, encryption);
                }
                return Err(
                    CfgError::UnknownKey {
                        name: string_of(&key),
                        line: i,
                        content: string_of(&ls[i]),
                    },
                );
            },
        }
        i += 1;
    }
    assert(all.take(i as int) =~= all);
    let root = match root {
        Some(v) => v,
        None => {
            return Err(CfgError::MissingKey { key: Key::Root, path: cfg_path.to_owned() });
        },
    };
    let swap = match swap {
        Some(v) => v,
        None => {
            return Err(CfgError::MissingKey { key: Key::Swap, path: cfg_path.to_owned() });
        },
    };
    let home = match home {
        Some(v) => v,
        None => {
            return Err(CfgError::MissingKey { key: Key::Home, path: cfg_path.to_owned() });
        },
    };
    let key_file_path = match key_file {
        Some(v) => Some(string_of(&v)),
        None => {
            if encryption {
                return Err(
                    CfgError::MissingKey { key: Key::KeyFilePath, path: cfg_path.to_owned() },
                );
            }
            None
        },
    };
    Ok(
        Cfg {
            root_uuid: string_of(&root),
            swap_uuid: string_of(&swap),
            home_uuid: string_of(&home),
            key_file_path,
        },
    )
}

/// Whether `line` sets `key`.
pub open spec fn sets(line: Seq<char>, key: Key, encryption: bool) -> bool {
    classify(line, encryption) matches LineView::Entry(k, _) && k == key
}

/// The value that a line gives the key it sets.
pub open spec fn value_of(line: Seq<char>, encryption: bool) -> Seq<char> {
    classify(line, encryption)->Entry_1
}

/// `first_bad` is the least index of a bad line.
pub proof fn lemma_first_bad(ls: Seq<Seq<char>>, encryption: bool)
    ensures
        match first_bad(ls, encryption) {
            Some(i) => 0 <= i < ls.len() && is_bad(ls[i], encryption) && forall|j: int|
                0 <= j < i ==> !is_bad(#[trigger] ls[j], encryption),
            None => forall|j: int| 0 <= j < ls.len() ==> !is_bad(#[trigger] ls[j], encryption),
        },
    decreases ls.len(),
{
    if ls.len() > 0 {
        let init = ls.drop_last();
        lemma_first_bad(init, encryption);
        assert forall|j: int| 0 <= j < init.len() implies init[j] == ls[j] by {}
        match first_bad(init, encryption) {
            Some(i) => {
                assert(init[i] == ls[i]);
                assert forall|j: int| 0 <= j < i implies !is_bad(#[trigger] ls[j], encryption) by {
                    assert(init[j] == ls[j]);
                }
            },
            None => {
                assert forall|j: int| 0 <= j < ls.len() - 1 implies !is_bad(
                    #[trigger] ls[j],
                    encryption,
                ) by {
                    assert(init[j] == ls[j]);
                }
            },
        }
    }
}

/// `last_value` is the value on the last line that sets the key.
pub proof fn lemma_last_value(ls: Seq<Seq<char>>, key: Key, encryption: bool)
    ensures
        match last_value(ls, key, encryption) {
            Some(v) => exists|i: int|
                0 <= i < ls.len() && sets(#[trigger] ls[i], key, encryption) && v == value_of(
                    ls[i],
                    encryption,
                ) && forall|j: int| i < j < ls.len() ==> !sets(#[trigger] ls[j], key, encryption),
            None => forall|j: int| 0 <= j < ls.len() ==> !sets(#[trigger] ls[j], key, encryption),
        },
    decreases ls.len(),
{
    if ls.len() > 0 {
        let init = ls.drop_last();
        lemma_last_value(init, key, encryption);
        assert forall|j: int| 0 <= j < init.len() implies init[j] == ls[j] by {}
        if sets(ls.last(), key, encryption) {
            let i = ls.len() - 1;
            assert(sets(ls[i], key, encryption));
        } else {
            match last_value(init, key, encryption) {
                Some(v) => {
                    let i = choose|i: int|
                        0 <= i < init.len() && sets(#[trigger] init[i], key, encryption) && v
                            == value_of(init[i], encryption) && forall|j: int|
                            i < j < init.len() ==> !sets(#[trigger] init[j], key, encryption);
                    assert(init[i] == ls[i]);
                    assert forall|j: int| i < j < ls.len() implies !sets(
                        #[trigger] ls[j],
                        key,
                        encryption,
                    ) by {
                        if j < init.len() {
                            assert(init[j] == ls[j]);
                        }
                    }
                    assert(sets(ls[i], key, encryption));
                },
                None => {
                    assert forall|j: int| 0 <= j < ls.len() implies !sets(
                        #[trigger] ls[j],
                        key,
                        encryption,
                    ) by {
                        if j < init.len() {
                            assert(init[j] == ls[j]);
                        }
                    }
                },
            }
        }
    }
}

/// The last line to set a key decides its value: a source without a bad line
/// in which line `i` is the last to set `root`, `s` the last to set `swap`,
/// `h` the last to set `home` and, with encryption, `k` the last to set
/// `key_file_path`, is read as the values on those four lines.
pub proof fn law_last_occurrence_wins(
    content: Seq<char>,
    path: Seq<char>,
    encryption: bool,
    i: int,
    s: int,
    h: int,
    k: int,
)
    requires
        first_bad(lines(content), encryption) is None,
        is_last_to_set(lines(content), Key::Root, encryption, i),
        is_last_to_set(lines(content), Key::Swap, encryption, s),
        is_last_to_set(lines(content), Key::Home, encryption, h),
        encryption ==> is_last_to_set(lines(content), Key::KeyFilePath, encryption, k),
    ensures
        parse(content, path, encryption) == Ok::<CfgView, CfgErrorView>(
            CfgView {
                root_uuid: value_of(lines(content)[i], encryption),
                swap_uuid: value_of(lines(content)[s], encryption),
                home_uuid: value_of(lines(content)[h], encryption),
                key_file_path: if encryption {
                    Some(value_of(lines(content)[k], encryption))
                } else {
                    None
                },
            },
        ),
{
    let ls = lines(content);
    lemma_last_value(ls, Key::Root, encryption);
    lemma_last_value(ls, Key::Swap, encryption);
    lemma_last_value(ls, Key::Home, encryption);
    lemma_last_value(ls, Key::KeyFilePath, encryption);
    lemma_last_to_set_unique(ls, Key::Root, encryption, i);
    lemma_last_to_set_unique(ls, Key::Swap, encryption, s);
    lemma_last_to_set_unique(ls, Key::Home, encryption, h);
    if encryption {
        lemma_last_to_set_unique(ls, Key::KeyFilePath, encryption, k);
    } else {
        assert forall|j: int| 0 <= j < ls.len() implies !sets(
            #[trigger] ls[j],
            Key::KeyFilePath,
            encryption,
        ) by {}
    }
}

/// Whether line `i` of `ls` sets `key` and no later line does.
pub open spec fn is_last_to_set(ls: Seq<Seq<char>>, key: Key, encryption: bool, i: int) -> bool {
    &&& 0 <= i < ls.len()
    &&& sets(ls[i], key, encryption)
    &&& forall|j: int| i < j < ls.len() ==> !sets(#[trigger] ls[j], key, encryption)
}

/// The value of a key is the one on the last line that sets it.
pub proof fn lemma_last_to_set_unique(ls: Seq<Seq<char>>, key: Key, encryption: bool, i: int)
    requires
        is_last_to_set(ls, key, encryption, i),
    ensures
        last_value(ls, key, encryption) == Some(value_of(ls[i], encryption)),
{
    lemma_last_value(ls, key, encryption);
    match last_value(ls, key, encryption) {
        Some(v) => {
            let m = choose|m: int|
                0 <= m < ls.len() && sets(#[trigger] ls[m], key, encryption) && v == value_of(
                    ls[m],
                    encryption,
                ) && forall|j: int| m < j < ls.len() ==> !sets(#[trigger] ls[j], key, encryption);
            if m < i {
                assert(!sets(ls[i], key, encryption));
            }
            if i < m {
                assert(!sets(ls[m], key, encryption));
            }
        },
        None => {
            assert(!sets(ls[i], key, encryption));
        },
    }
}

/// A source without a bad line in which no line sets the required key `key`
/// is rejected for a missing key, and the key that the rejection names is
/// required and set by no line.
pub proof fn law_missing_key_is_reported(
    content: Seq<char>,
    path: Seq<char>,
    encryption: bool,
    key: Key,
)
    requires
        first_bad(lines(content), encryption) is None,
        key != Key::KeyFilePath || encryption,
        forall|j: int|
            0 <= j < lines(content).len() ==> !sets(#[trigger] lines(content)[j], key, encryption),
    ensures
        parse(content, path, encryption) matches Err(CfgErrorView::MissingKey { key: named, path: p })
            && p == path && (named != Key::KeyFilePath || encryption) && forall|j: int|
            0 <= j < lines(content).len() ==> !sets(
                #[trigger] lines(content)[j],
                named,
                encryption,
            ),
{
    let ls = lines(content);
    lemma_last_value(ls, Key::Root, encryption);
    lemma_last_value(ls, Key::Swap, encryption);
    lemma_last_value(ls, Key::Home, encryption);
    lemma_last_value(ls, Key::KeyFilePath, encryption);
    match last_value(ls, key, encryption) {
        Some(v) => {
            let m = choose|m: int|
                0 <= m < ls.len() && sets(#[trigger] ls[m], key, encryption) && v == value_of(
                    ls[m],
                    encryption,
                ) && forall|j: int| m < j < ls.len() ==> !sets(#[trigger] ls[j], key, encryption);
            assert(!sets(ls[m], key, encryption));
        },
        None => {},
    }
}

/// The first line that is neither blank nor a comment and holds no `=`, with
/// no bad line before it, has the source rejected with its index and text.
pub proof fn law_line_without_separator(
    content: Seq<char>,
    path: Seq<char>,
    encryption: bool,
    i: int,
)
    requires
        0 <= i < lines(content).len(),
        forall|j: int| 0 <= j < i ==> !is_bad(#[trigger] lines(content)[j], encryption),
        trim(lines(content)[i]).len() > 0,
        !starts_with(trim(lines(content)[i]), "//"@),
        !trim(lines(content)[i]).contains('='),
    ensures
        parse(content, path, encryption) == Err::<CfgView, CfgErrorView>(
            CfgErrorView::MissingSeparator { line: i, content: lines(content)[i] },
        ),
{
    let ls = lines(content);
    let t = trim(ls[i]);
    crate::text::lemma_position(t, '=');
    if crate::text::position(t, '=') < t.len() {
        assert(t.contains(t[crate::text::position(t, '=') as int]));
    }
    assert(is_bad(ls[i], encryption));
    lemma_first_bad(ls, encryption);
    match first_bad(ls, encryption) {
        Some(m) => {
            if m < i {
                assert(!is_bad(ls[m], encryption));
            }
            if i < m {
                assert(is_bad(ls[i], encryption));
            }
        },
        None => {
            assert(!is_bad(ls[i], encryption));
        },
    }
}

/// The first line whose text before `=` is no recognised key, with no bad
/// line before it, has the source rejected with that text, the line's index
/// and the line.
pub proof fn law_unrecognised_key(content: Seq<char>, path: Seq<char>, encryption: bool, i: int)
    requires
        0 <= i < lines(content).len(),
        forall|j: int| 0 <= j < i ==> !is_bad(#[trigger] lines(content)[j], encryption),
        trim(lines(content)[i]).len() > 0,
        !starts_with(trim(lines(content)[i]), "//"@),
        split_once(trim(lines(content)[i]), '=') is Some,
        key_named(split_once(trim(lines(content)[i]), '=').unwrap().0, encryption) is None,
    ensures
        parse(content, path, encryption) == Err::<CfgView, CfgErrorView>(
            CfgErrorView::UnknownKey {
                name: split_once(trim(lines(content)[i]), '=').unwrap().0,
                line: i,
                content: lines(content)[i],
            },
        ),
{
    let ls = lines(content);
    assert(is_bad(ls[i], encryption));
    lemma_first_bad(ls, encryption);
    match first_bad(ls, encryption) {
        Some(m) => {
            if m < i {
                assert(!is_bad(ls[m], encryption));
            }
            if i < m {
                assert(is_bad(ls[i], encryption));
            }
        },
        None => {
            assert(!is_bad(ls[i], encryption));
        },
    }
}

} // verus!
