//! Preparing the runtime that the managed application runs in: picking the
//! interpreter directory, keeping the virtual environment's `pyvenv.cfg`
//! pointed at it, and composing the variables that the child is started
//! with.
//!
//! Reading directories and files, and setting variables, are the caller's
//! work.  This module computes what is to be written and set.

use vstd::prelude::*;
use vstd::slice::{slice_subrange, slice_to_vec};
use vstd::string::{StringExecFns, StringSliceAdditionalSpecFns};
use vstd::utf8::encode_utf8;
use crate::text::{
    ByteClass, CR, LF, append_bytes, begins_with, find, first_match, has_prefix, is_space,
    lemma_first_match_from, run_end, same_bytes, scan,
};

verus! {

/// An entry of the directory that holds the interpreters.
#[derive(Debug, PartialEq, Eq)]
pub struct DirEntryInfo {
    /// The entry's file name.
    pub name: String,
    /// Whether the entry is a directory.
    pub is_dir: bool,
}

impl DirEntryInfo {
    /// Whether the entry is an interpreter directory: a directory whose name
    /// begins with `cpython-`.
    pub open spec fn is_python_dir(self) -> bool {
        self.is_dir && has_prefix(encode_utf8(self.name@), "cpython-".spec_bytes())
    }
}

/// The index of the first interpreter directory among `entries`, in the
/// order in which the directory was listed.
pub fn find_python_dir(entries: &Vec<DirEntryInfo>) -> (r: Option<usize>)
    ensures
        match r {
            Some(i) => {
                &&& i < entries@.len()
                &&& entries@[i as int].is_python_dir()
                &&& forall|j: int| 0 <= j < i ==> !entries@[j].is_python_dir()
            },
            None => forall|j: int| 0 <= j < entries@.len() ==> !entries@[j].is_python_dir(),
        },
{
    let mut i: usize = 0;
    while i < entries.len()
        invariant
            i <= entries@.len(),
            forall|j: int| 0 <= j < i ==> !entries@[j].is_python_dir(),
        decreases entries@.len() - i,
    {
        if entries[i].is_dir && begins_with(
            entries[i].name.as_str().as_bytes(),
            "cpython-".as_bytes(),
        ) {
            return Some(i);
        }
        i += 1;
    }
    None
}

/// Where the line that starts at `from` ends: at the next line feed, or at
/// the end of the text.
pub open spec fn line_end(s: Seq<u8>, from: int) -> int
    decreases s.len() - from,
{
    if 0 <= from < s.len() && s[from] != LF {
        line_end(s, from + 1)
    } else {
        from
    }
}

/// The line from `from` to its end `end`, without the carriage return that
/// stands in front of its line feed, if one does.
pub open spec fn line_text(s: Seq<u8>, from: int, end: int) -> Seq<u8> {
    if end < s.len() && from < end && s[end - 1] == CR {
        s.subrange(from, end - 1)
    } else {
        s.subrange(from, end)
    }
}

/// The lower-case form of an ASCII letter; any other byte as it is.
pub open spec fn ascii_lower(b: u8) -> u8 {
    if 65 <= b <= 90 {
        (b + 32) as u8
    } else {
        b
    }
}

/// Whether `line` begins with the lower-case `word`, the case of ASCII
/// letters in `line` set aside.
pub open spec fn begins_with_word(line: Seq<u8>, word: Seq<u8>) -> bool {
    &&& word.len() <= line.len()
    &&& forall|j: int| 0 <= j < word.len() ==> ascii_lower(line[j]) == word[j]
}

/// Where the text ends once trailing white space is dropped, but not before
/// `floor`.
pub open spec fn trimmed_end(s: Seq<u8>, floor: int) -> int
    decreases s.len(),
{
    if s.len() > floor && s.len() > 0 && is_space(s.last()) {
        trimmed_end(s.drop_last(), floor)
    } else {
        s.len() as int
    }
}

/// The text without the white space at its two ends.
pub open spec fn trimmed(s: Seq<u8>) -> Seq<u8> {
    let start = run_end(s, ByteClass::Space, 0);
    s.subrange(start, trimmed_end(s, start))
}

/// What the launcher needs to know of a `pyvenv.cfg`.
pub struct CfgFacts {
    /// The last line that begins with `version`, or nothing.
    pub version_line: Seq<u8>,
    /// The value of the last `home` line that has an equals sign, or
    /// nothing.
    pub home: Seq<u8>,
}

/// The byte sequence of the equals sign.
pub open spec fn equals_sign() -> Seq<u8> {
    "=".spec_bytes()
}

/// The facts after one more line.
pub open spec fn note_line(facts: CfgFacts, line: Seq<u8>) -> CfgFacts {
    if begins_with_word(line, "version".spec_bytes()) {
        CfgFacts { version_line: line, home: facts.home }
    } else if begins_with_word(line, "home".spec_bytes()) {
        match first_match(line, equals_sign()) {
            Some(at) => CfgFacts {
                version_line: facts.version_line,
                home: trimmed(line.subrange(at + equals_sign().len(), line.len() as int)),
            },
            None => facts,
        }
    } else {
        facts
    }
}

/// The facts after the lines of `s` from index `from` on.
pub open spec fn facts_from(s: Seq<u8>, from: int, facts: CfgFacts) -> CfgFacts
    decreases s.len() - from + 1,
{
    if 0 <= from < s.len() {
        let end = line_end(s, from);
        if from <= end <= s.len() {
            facts_from(s, end + 1, note_line(facts, line_text(s, from, end)))
        } else {
            facts
        }
    } else {
        facts
    }
}

/// The facts of a whole `pyvenv.cfg`.
pub open spec fn cfg_facts(content: Seq<u8>) -> CfgFacts {
    facts_from(
        content,
        0,
        CfgFacts { version_line: Seq::<u8>::empty(), home: Seq::<u8>::empty() },
    )
}

/// The `pyvenv.cfg` that points at `home` and keeps `version_line`.
pub open spec fn cfg_text(home: Seq<u8>, version_line: Seq<u8>) -> Seq<u8> {
    let head = "home = ".spec_bytes() + home
        + "\ninclude-system-site-packages = false\n".spec_bytes();
    if version_line.len() > 0 {
        head + version_line + "\n".spec_bytes()
    } else {
        head
    }
}

/// What is to be written in place of the `pyvenv.cfg` `content`, so that it
/// points at `expected_home`: nothing where it does so already.
pub open spec fn planned_cfg(content: Seq<u8>, expected_home: Seq<u8>) -> Option<Seq<u8>> {
    let facts = cfg_facts(content);
    if facts.home == expected_home {
        None
    } else {
        Some(cfg_text(expected_home, facts.version_line))
    }
}

fn find_line_end(s: &[u8], from: usize) -> (r: usize)
    requires
        from <= s@.len(),
    ensures
        r == line_end(s@, from as int),
        from <= r <= s@.len(),
{
    let mut i: usize = from;
    while i < s.len() && s[i] != LF
        invariant
            from <= i <= s@.len(),
            line_end(s@, from as int) == line_end(s@, i as int),
        decreases s@.len() - i,
    {
        i += 1;
    }
    i
}

fn starts_with_word(line: &[u8], word: &[u8]) -> (r: bool)
    ensures
        r == begins_with_word(line@, word@),
{
    if word.len() > line.len() {
        return false;
    }
    let mut i: usize = 0;
    while i < word.len()
        invariant
            i <= word@.len() <= line@.len(),
            forall|j: int| 0 <= j < i ==> ascii_lower(line@[j]) == word@[j],
        decreases word@.len() - i,
    {
        let b: u8 = line[i];
        let lower: u8 = if 65 <= b && b <= 90 {
            b + 32
        } else {
            b
        };
        if lower != word[i] {
            return false;
        }
        i += 1;
    }
    true
}

fn trim(s: &[u8]) -> (r: &[u8])
    ensures
        r@ == trimmed(s@),
{
    let start: usize = scan(s, ByteClass::Space, 0);
    let mut end: usize = s.len();
    assert(s@.take(end as int) =~= s@);
    while end > start && ByteClass::Space.admits(s[end - 1])
        invariant
            start <= end <= s@.len(),
            trimmed_end(s@, start as int) == trimmed_end(s@.take(end as int), start as int),
        decreases end,
    {
        assert(s@.take(end as int).drop_last() =~= s@.take(end - 1));
        end -= 1;
    }
    slice_subrange(s, start, end)
}

/// What is to be written in place of the `pyvenv.cfg` whose text is
/// `content`, so that its `home` is `expected_home`.  `None` where the file
/// names that home already and is left alone.  The new text keeps the last
/// `version` line of the old one and nothing else of it.
pub fn fix_pyvenv_cfg(content: &str, expected_home: &str) -> (r: Option<Vec<u8>>)
    ensures
        match r {
            Some(text) => planned_cfg(content.spec_bytes(), expected_home.spec_bytes()) == Some(
                text@,
            ),
            None => planned_cfg(content.spec_bytes(), expected_home.spec_bytes()) is None,
        },
{
    let s = content.as_bytes();
    let eq = "=".as_bytes();
    let mut version_line: Vec<u8> = Vec::new();
    let mut home: Vec<u8> = Vec::new();
    let mut from: usize = 0;
    let len: usize = s.len();
    while from < len
        invariant
            from <= len,
            len == s@.len(),
            eq@ == equals_sign(),
            cfg_facts(s@) == facts_from(
                s@,
                from as int,
                CfgFacts { version_line: version_line@, home: home@ },
            ),
        decreases len - from,
    {
        let ghost before = CfgFacts { version_line: version_line@, home: home@ };
        let end: usize = find_line_end(s, from);
        let stop: usize = if end < len && from < end && s[end - 1] == CR {
            end - 1
        } else {
            end
        };
        let line = slice_subrange(s, from, stop);
        if starts_with_word(line, "version".as_bytes()) {
            version_line = slice_to_vec(line);
        } else if starts_with_word(line, "home".as_bytes()) {
            proof {
                lemma_first_match_from(line@, eq@, 0);
            }
            match find(line, eq) {
                Some(at) => {
                    let line_len: usize = line.len();
                    home = slice_to_vec(trim(slice_subrange(line, at + eq.len(), line_len)));
                },
                None => {},
            }
        }
        proof {
            let after = CfgFacts { version_line: version_line@, home: home@ };
            assert(facts_from(s@, from as int, before) == facts_from(s@, end + 1, after));
        }
        from = if end < len {
            end + 1
        } else {
            len
        };
    }
    if same_bytes(home.as_slice(), expected_home.as_bytes()) {
        return None;
    }
    let mut out: Vec<u8> = Vec::new();
    append_bytes(&mut out, "home = ".as_bytes());
    append_bytes(&mut out, expected_home.as_bytes());
    append_bytes(&mut out, "\ninclude-system-site-packages = false\n".as_bytes());
    if version_line.len() > 0 {
        append_bytes(&mut out, version_line.as_slice());
        append_bytes(&mut out, "\n".as_bytes());
    }
    Some(out)
}

/// A variable of the process environment and the value it is given.
#[derive(Debug, PartialEq, Eq)]
pub struct EnvAssignment {
    pub name: String,
    pub value: String,
}

impl EnvAssignment {
    /// The name and the value as texts.
    pub open spec fn pair(self) -> (Seq<char>, Seq<char>) {
        (self.name@, self.value@)
    }
}

fn assign(name: &str, value: &str) -> (r: EnvAssignment)
    ensures
        r.pair() == (name@, value@),
{
    EnvAssignment { name: String::from_str(name), value: String::from_str(value) }
}

/// The search path of the child: the scripts of the virtual environment, the
/// interpreter directory and its scripts, in front of the path that was
/// there.
pub open spec fn search_path_text(
    venv_scripts: Seq<char>,
    python_dir: Seq<char>,
    python_scripts: Seq<char>,
    old_path: Seq<char>,
) -> Seq<char> {
    venv_scripts + ";"@ + python_dir + ";"@ + python_scripts + ";"@ + old_path
}

/// The search path of the child.
pub fn search_path(
    venv_scripts: &str,
    python_dir: &str,
    python_scripts: &str,
    old_path: &str,
) -> (r: String)
    ensures
        r@ == search_path_text(venv_scripts@, python_dir@, python_scripts@, old_path@),
{
    let mut path = String::from_str(venv_scripts);
    path.append(";");
    path.append(python_dir);
    path.append(";");
    path.append(python_scripts);
    path.append(";");
    path.append(old_path);
    path
}

/// The variables that the launcher sets before it starts the application, in
/// the order in which it sets them: where the virtual environment and the
/// browsers are, which web engine to use, that the loopback addresses bypass
/// any proxy, that the interpreter's output is unbuffered, and the search
/// path.
pub fn setup_environment(
    venv_dir: &str,
    browsers_dir: &str,
    venv_scripts: &str,
    python_dir: &str,
    python_scripts: &str,
    old_path: &str,
) -> (r: Vec<EnvAssignment>)
    ensures
        r@.len() == 6,
        r@[0].pair() == ("VIRTUAL_ENV"@, venv_dir@),
        r@[1].pair() == ("PLAYWRIGHT_BROWSERS_PATH"@, browsers_dir@),
        r@[2].pair() == ("PYWEBVIEW_GUI"@, "edgechromium"@),
        r@[3].pair() == ("NO_PROXY"@, "localhost,127.0.0.1"@),
        r@[4].pair() == ("PYTHONUNBUFFERED"@, "1"@),
        r@[5].pair() == (
            "PATH"@,
            search_path_text(venv_scripts@, python_dir@, python_scripts@, old_path@),
        ),
{
    let mut vars: Vec<EnvAssignment> = Vec::new();
    vars.push(assign("VIRTUAL_ENV", venv_dir));
    vars.push(assign("PLAYWRIGHT_BROWSERS_PATH", browsers_dir));
    vars.push(assign("PYWEBVIEW_GUI", "edgechromium"));
    vars.push(assign("NO_PROXY", "localhost,127.0.0.1"));
    vars.push(assign("PYTHONUNBUFFERED", "1"));
    let path = search_path(venv_scripts, python_dir, python_scripts, old_path);
    vars.push(EnvAssignment { name: String::from_str("PATH"), value: path });
    vars
}

/// The variables that the child is given on top of the launcher's own: the
/// flag that keeps the application from opening a window of its own accord
/// and the mark of the launch source, each only where the user has not set
/// it, and always the flag that says that a watchdog is present.
pub open spec fn child_variables(no_auto_open_set: bool, launch_source_set: bool) -> Seq<
    (Seq<char>, Seq<char>),
> {
    let first = if no_auto_open_set {
        Seq::<(Seq<char>, Seq<char>)>::empty()
    } else {
        seq![("YAKULINGO_NO_AUTO_OPEN"@, "1"@)]
    };
    let second = if launch_source_set {
        first
    } else {
        first.push(("YAKULINGO_LAUNCH_SOURCE"@, "launcher"@))
    };
    second.push(("YAKULINGO_WATCHDOG"@, "1"@))
}

/// The variables that the child is given on top of the launcher's own.
/// `no_auto_open_set` and `launch_source_set` say whether the launcher's
/// environment holds the variable already.
pub fn launch_environment(no_auto_open_set: bool, launch_source_set: bool) -> (r: Vec<
    EnvAssignment,
>)
    ensures
        r@.len() == child_variables(no_auto_open_set, launch_source_set).len(),
        forall|i: int|
            0 <= i < r@.len() ==> (#[trigger] r@[i]).pair() == child_variables(
                no_auto_open_set,
                launch_source_set,
            )[i],
{
    let mut vars: Vec<EnvAssignment> = Vec::new();
    if !no_auto_open_set {
        vars.push(assign("YAKULINGO_NO_AUTO_OPEN", "1"));
    }
    if !launch_source_set {
        vars.push(assign("YAKULINGO_LAUNCH_SOURCE", "launcher"));
    }
    vars.push(assign("YAKULINGO_WATCHDOG", "1"));
    vars
}

} // verus!
