//! Self-install detection: deciding from the running executable's own file
//! name whether this invocation is the self-installing stub or a normal run.

use vstd::prelude::*;

verus! {

/// The classification of one invocation: either the binary is the
/// self-installing stub and must divert into installation, or it is a
/// normal run that proceeds to command dispatch.
#[derive(Clone, Copy, Debug, PartialEq, Eq, Structural)]
pub enum Mode {
    Installer,
    Normal,
}

/// The position of the last occurrence of `c` in `s`, if `c` occurs at all.
pub open spec fn last_index_of(s: Seq<char>, c: char) -> Option<int>
    decreases s.len(),
{
    if s.len() == 0 {
        None
    } else if s[s.len() - 1] == c {
        Some(s.len() - 1)
    } else {
        last_index_of(s.take(s.len() - 1), c)
    }
}

/// `last_index_of` names the last occurrence: the character stands there,
/// nowhere after it, and `None` means it stands nowhere in `s`.
pub proof fn lemma_last_index_of(s: Seq<char>, c: char)
    ensures
        match last_index_of(s, c) {
            Some(i) => 0 <= i < s.len() && s[i] == c && (forall|j: int|
                i < j < s.len() ==> s[j] != c),
            None => forall|j: int| 0 <= j < s.len() ==> s[j] != c,
        },
    decreases s.len(),
{
    if s.len() == 0 {
    } else if s[s.len() - 1] == c {
    } else {
        lemma_last_index_of(s.take(s.len() - 1), c);
        assert forall|j: int| 0 <= j < s.len() - 1 implies s.take(s.len() - 1)[j] == s[j] by {}
    }
}

/// The final path component: everything after the last `/` separator, or the
/// whole string when no separator occurs.
pub open spec fn file_name_of(path: Seq<char>) -> Seq<char> {
    match last_index_of(path, '/') {
        Some(i) => path.subrange(i + 1, path.len() as int),
        None => path,
    }
}

/// The file stem of a name: everything before the last `.`, except that a
/// name whose only `.` is its first character (a hidden file without a
/// further extension) is kept whole.
pub open spec fn stem_of(name: Seq<char>) -> Seq<char> {
    match last_index_of(name, '.') {
        Some(i) => if i > 0 {
            name.take(i)
        } else {
            name
        },
        None => name,
    }
}

/// The fixed file-name prefix that marks the running binary as the
/// self-installing stub.
pub open spec fn spec_installer_prefix() -> Seq<char> {
    "wrangler-init"@
}

/// Whether an executable path names the self-installing stub: its file stem
/// starts with the installer prefix.
pub open spec fn is_installer_path(path: Seq<char>) -> bool {
    spec_installer_prefix().is_prefix_of(stem_of(file_name_of(path)))
}

/// The invocation mode an executable path (when one could be determined at
/// all) selects; an undeterminable path falls open to a normal run.
pub open spec fn spec_mode(path: Option<Seq<char>>) -> Mode {
    match path {
        Some(p) => if is_installer_path(p) {
            Mode::Installer
        } else {
            Mode::Normal
        },
        None => Mode::Normal,
    }
}

/// The position of the last occurrence of `c` among the characters of `s`.
pub fn last_index_of_char(s: &str, c: char) -> (r: Option<usize>)
    ensures
        match r {
            Some(i) => last_index_of(s@, c) == Some(i as int),
            None => last_index_of(s@, c) is None,
        },
{
    let n = s.unicode_len();
    let mut result: Option<usize> = None;
    let mut i: usize = 0;
    while i < n
        invariant
            n as nat == s@.len(),
            i <= n,
            match result {
                Some(k) => last_index_of(s@.take(i as int), c) == Some(k as int),
                None => last_index_of(s@.take(i as int), c) is None,
            },
        decreases n - i,
    {
        let ch = s.get_char(i);
        proof {
            assert(s@.take(i + 1).take(i as int) =~= s@.take(i as int));
            assert(s@.take(i + 1)[i as int] == s@[i as int]);
        }
        if ch == c {
            result = Some(i);
        }
        i = i + 1;
    }
    proof {
        assert(s@.take(n as int) =~= s@);
    }
    result
}

/// The file stem of a path: its final component, without the directories
/// before it and without its extension.
pub fn file_stem(path: &str) -> (stem: &str)
    ensures
        stem@ == stem_of(file_name_of(path@)),
{
    let n = path.unicode_len();
    let start: usize = match last_index_of_char(path, '/') {
        Some(i) => {
            proof {
                lemma_last_index_of(path@, '/');
            }
            i + 1
        },
        None => 0,
    };
    let name = path.substring_char(start, n);
    proof {
        if last_index_of(path@, '/') is None {
            assert(name@ =~= path@);
        }
    }
    let m = name.unicode_len();
    match last_index_of_char(name, '.') {
        Some(i) => {
            proof {
                lemma_last_index_of(name@, '.');
            }
            if i > 0 {
                let cut = name.substring_char(0, i);
                proof {
                    assert(cut@ =~= name@.take(i as int));
                }
                cut
            } else {
                name
            }
        },
        None => name,
    }
}

/// The fixed installer-stub prefix as an executable value.
pub fn installer_prefix() -> (p: &'static str)
    ensures
        p@ == spec_installer_prefix(),
{
    "wrangler-init"
}

/// Whether `prefix` is a prefix of `s`, comparing character by character.
pub fn str_starts_with(s: &str, prefix: &str) -> (r: bool)
    ensures
        r == prefix@.is_prefix_of(s@),
{
    let n = s.unicode_len();
    let m = prefix.unicode_len();
    if m > n {
        return false;
    }
    let mut i: usize = 0;
    while i < m
        invariant
            n as nat == s@.len(),
            m as nat == prefix@.len(),
            m <= n,
            i <= m,
            forall|j: int| 0 <= j < i ==> s@[j] == prefix@[j],
        decreases m - i,
    {
        if s.get_char(i) != prefix.get_char(i) {
            proof {
                assert(s@.subrange(0, m as int)[i as int] == s@[i as int]);
            }
            return false;
        }
        i = i + 1;
    }
    proof {
        assert(prefix@ =~= s@.subrange(0, m as int));
    }
    true
}

/// Whether the given executable path (when one could be determined at all)
/// names the self-installing stub.
pub fn is_installer_invocation(exe_path: Option<&str>) -> (r: bool)
    ensures
        r == match exe_path {
            Some(p) => is_installer_path(p@),
            None => false,
        },
{
    match exe_path {
        Some(p) => {
            let stem = file_stem(p);
            str_starts_with(stem, installer_prefix())
        },
        None => false,
    }
}

/// Classifies one invocation from the executable path: the self-installing
/// stub when the file stem carries the installer prefix, a normal run
/// otherwise — also when no path could be determined at all (fail open).
pub fn classify_invocation(exe_path: Option<&str>) -> (m: Mode)
    ensures
        m == spec_mode(match exe_path {
            Some(p) => Some(p@),
            None => None::<Seq<char>>,
        }),
{
    if is_installer_invocation(exe_path) {
        Mode::Installer
    } else {
        Mode::Normal
    }
}

} // verus!
