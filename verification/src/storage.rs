//! Character collection paths.
//!
//! Paths are handled as text with `/` as the separator. A path's components
//! are its runs of non-separator characters, except that a `.` run counts only
//! at the very start; a leading `/` is a component of its own.

use vstd::prelude::*;

use crate::text::{chars_of, string_of};

verus! {

/// The collection directory used when none is given.
pub const DEFAULT_CHARACTER_DIRECTORY: &'static str = ".";

/// A run of non-separator characters starts at `i`.
pub open spec fn run_start(s: Seq<char>, i: int) -> bool {
    0 <= i < s.len() && s[i] != '/' && (i == 0 || s[i - 1] == '/')
}

/// `t` holds no separator.
pub open spec fn no_separator(t: Seq<char>) -> bool {
    forall|k: int| 0 <= k < t.len() ==> t[k] != '/'
}

/// The whole run starting at `i` is `t`.
pub open spec fn run_is(s: Seq<char>, i: int, t: Seq<char>) -> bool {
    &&& 0 <= i
    &&& i + t.len() <= s.len()
    &&& s.subrange(i, i + t.len()) == t
    &&& no_separator(t)
    &&& (i + t.len() == s.len() || s[i + t.len()] == '/')
}

/// The run at `i` is a component: every run but a `.` after the start.
pub open spec fn kept_run(s: Seq<char>, i: int) -> bool {
    run_start(s, i) && !(i > 0 && run_is(s, i, "."@))
}

/// The path begins at the root.
pub open spec fn is_absolute(s: Seq<char>) -> bool {
    s.len() > 0 && s[0] == '/'
}

/// The path has more than one component.
pub open spec fn several_components(s: Seq<char>) -> bool {
    ||| is_absolute(s) && exists|i: int| #[trigger] kept_run(s, i)
    ||| exists|i: int, j: int| i < j && #[trigger] kept_run(s, i) && #[trigger] kept_run(s, j)
}

/// The path's component is the ordinary name `name`.
pub open spec fn names(s: Seq<char>, name: Seq<char>) -> bool {
    &&& !is_absolute(s)
    &&& exists|i: int| #[trigger] kept_run(s, i) && run_is(s, i, name)
    &&& name != "."@
    &&& name != ".."@
}

/// The ordinary name a single-component path consists of, if it is one.
pub open spec fn bare_name(s: Seq<char>) -> Option<Seq<char>> {
    if !several_components(s) && exists|name: Seq<char>| names(s, name) {
        Some(choose|name: Seq<char>| names(s, name))
    } else {
        None
    }
}

/// A file name with an extension: a `.` after its first character.
pub open spec fn has_extension(name: Seq<char>) -> bool {
    exists|k: int| 0 < k < name.len() && name[k] == '.'
}

/// `path` appended to `directory`, as path joining does it.
pub open spec fn join_path(directory: Seq<char>, path: Seq<char>) -> Seq<char> {
    if is_absolute(path) {
        path
    } else if directory.len() == 0 || directory.last() == '/' {
        directory + path
    } else {
        directory + "/"@ + path
    }
}

/// Where a character reference leads inside a collection directory.
///
/// An existing file, a name with an extension and a path of several components
/// are taken as they are; a bare name becomes `<name>.json` in the directory.
pub open spec fn resolved_reference(directory: Seq<char>, reference: Seq<char>, is_file: bool) -> Seq<char> {
    match bare_name(reference) {
        Some(name) => if is_file || has_extension(name) {
            reference
        } else {
            join_path(directory, name) + ".json"@
        },
        None => if is_file || several_components(reference) {
            reference
        } else {
            join_path(directory, reference)
        },
    }
}

proof fn lemma_run_unique(s: Seq<char>, i: int, a: Seq<char>, b: Seq<char>)
    requires
        run_is(s, i, a),
        run_is(s, i, b),
    ensures
        a == b,
{
    if a.len() < b.len() {
        assert(s[i + a.len()] == b[a.len() as int]);
    } else if b.len() < a.len() {
        assert(s[i + b.len()] == a[b.len() as int]);
    }
    assert(a =~= b) by {
        assert forall|k: int| 0 <= k < a.len() implies a[k] == b[k] by {
            assert(a[k] == s.subrange(i, i + a.len())[k]);
            assert(b[k] == s.subrange(i, i + b.len())[k]);
        }
    }
}

/// The end of the run that starts at `i`.
fn run_end(s: &Vec<char>, i: usize) -> (e: usize)
    requires
        i <= s@.len(),
    ensures
        i <= e <= s@.len(),
        e == s@.len() || s@[e as int] == '/',
        forall|k: int| i <= k < e ==> s@[k] != '/',
{
    let mut e = i;
    while e < s.len() && s[e] != '/'
        invariant
            i <= e <= s@.len(),
            forall|k: int| i <= k < e ==> s@[k] != '/',
        decreases s.len() - e,
    {
        e = e + 1;
    }
    e
}

/// The components of `s`: whether there are several, and the first run kept, with its end.
fn first_components(s: &Vec<char>) -> (r: (bool, Option<(usize, usize)>))
    ensures
        r.0 == several_components(s@),
        match r.1 {
            Some((i, e)) => i <= e <= s@.len() && kept_run(s@, i as int) && run_is(
                s@,
                i as int,
                s@.subrange(i as int, e as int),
            ) && forall|j: int| j < i ==> !#[trigger] kept_run(s@, j),
            None => forall|j: int| !#[trigger] kept_run(s@, j),
        },
{
    let absolute = s.len() > 0 && s[0] == '/';
    let mut first: Option<(usize, usize)> = None;
    let mut i: usize = 0;
    while i < s.len()
        invariant
            i <= s@.len(),
            absolute == is_absolute(s@),
            match first {
                Some((a, e)) => a <= e <= s@.len() && kept_run(s@, a as int) && a < i && run_is(
                    s@,
                    a as int,
                    s@.subrange(a as int, e as int),
                )
                    && forall|j: int| j < a ==> !#[trigger] kept_run(s@, j),
                None => forall|j: int| j < i ==> !#[trigger] kept_run(s@, j),
            },
            forall|j: int, k: int| j < k < i ==> !(#[trigger] kept_run(s@, j) && #[trigger] kept_run(s@, k)),
            absolute ==> forall|j: int| j < i ==> !#[trigger] kept_run(s@, j),
        decreases s.len() - i,
    {
        if s[i] != '/' && (i == 0 || s[i - 1] == '/') {
            let e = run_end(s, i);
            let dot = e == i + 1 && s[i] == '.';
            proof {
                let t = s@.subrange(i as int, e as int);
                assert(run_is(s@, i as int, t));
                reveal_strlit(".");
                if run_is(s@, i as int, "."@) {
                    lemma_run_unique(s@, i as int, t, "."@);
                    assert(t.len() == 1);
                    assert(t[0] == s@[i as int]);
                    assert(e == i + 1 && s@[i as int] == '.');
                }
                if dot {
                    assert(t =~= "."@);
                }
            }
            if !(i > 0 && dot) {
                assert(kept_run(s@, i as int));
                match first {
                    Some(_) => {
                        return (true, first);
                    },
                    None => {
                        if absolute {
                            return (true, Some((i, e)));
                        }
                        first = Some((i, e));
                    },
                }
            }
        }
        i = i + 1;
    }
    proof {
        match first {
            Some((a, e)) => {
                assert forall|j: int| #[trigger] kept_run(s@, j) implies j == a by {
                    if j != a {
                        assert(j < i);
                    }
                }
            },
            None => {},
        }
    }
    (false, first)
}

/// The characters of `s` from `from` up to `to`.
fn sub_chars(s: &Vec<char>, from: usize, to: usize) -> (r: Vec<char>)
    requires
        from <= to <= s@.len(),
    ensures
        r@ == s@.subrange(from as int, to as int),
{
    let mut r: Vec<char> = Vec::new();
    let mut i = from;
    while i < to
        invariant
            from <= i <= to <= s@.len(),
            r@ == s@.subrange(from as int, i as int),
        decreases to - i,
    {
        r.push(s[i]);
        i = i + 1;
    }
    r
}

/// `path` appended to `directory`, as path joining does it.
pub fn join_path_exec(directory: &str, path: &str) -> (r: String)
    ensures
        r@ == join_path(directory@, path@),
{
    let p = chars_of(path);
    if p.len() > 0 && p[0] == '/' {
        return crate::text::owned(path);
    }
    let d = chars_of(directory);
    let mut out = crate::text::owned(directory);
    if !(d.len() == 0 || d[d.len() - 1] == '/') {
        out.append("/");
    }
    out.append(path);
    out
}

/// A collection of character JSON files in one directory.
#[derive(Debug)]
pub struct CharacterRepository {
    directory: String,
}

impl CharacterRepository {
    pub closed spec fn directory_spec(&self) -> Seq<char> {
        self.directory@
    }

    /// The collection in `directory`, or in the current directory.
    pub fn new(directory: Option<&str>) -> (r: CharacterRepository)
        ensures
            r.directory_spec() == match directory {
                Some(d) => d@,
                None => DEFAULT_CHARACTER_DIRECTORY@,
            },
    {
        CharacterRepository {
            directory: match directory {
                Some(d) => crate::text::owned(d),
                None => crate::text::owned(DEFAULT_CHARACTER_DIRECTORY),
            },
        }
    }

    /// The collection's directory.
    pub fn directory(&self) -> (r: &str)
        ensures
            r@ == self.directory_spec(),
    {
        self.directory.as_str()
    }

    /// Where a character reference leads: `is_file` tells whether it names an
    /// existing file.
    pub fn resolve(&self, reference: &str, is_file: bool) -> (r: String)
        ensures
            r@ == resolved_reference(self.directory_spec(), reference@, is_file),
    {
        let s = chars_of(reference);
        let (several, first) = first_components(&s);
        let absolute = s.len() > 0 && s[0] == '/';
        let mut bare: Option<Vec<char>> = None;
        match first {
            Some((i, e)) => {
                let name = sub_chars(&s, i, e);
                proof {
                    reveal_strlit(".");
                    reveal_strlit("..");
                }
                let is_dot = name.len() == 1 && name[0] == '.';
                let is_dotdot = name.len() == 2 && name[0] == '.' && name[1] == '.';
                proof {
                    if is_dot {
                        assert(name@ =~= "."@);
                    }
                    if is_dotdot {
                        assert(name@ =~= ".."@);
                    }
                    if name@ == "."@ {
                        assert(name@.len() == 1 && name@[0] == '.');
                    }
                    if name@ == ".."@ {
                        assert(name@.len() == 2 && name@[0] == '.' && name@[1] == '.');
                    }
                }
                if !several && !absolute && !is_dot && !is_dotdot {
                    proof {
                        assert(names(s@, name@));
                        assert forall|n: Seq<char>| names(s@, n) implies n == name@ by {
                            let j = choose|j: int| #[trigger] kept_run(s@, j) && run_is(s@, j, n);
                            assert(j == i as int);
                            lemma_run_unique(s@, i as int, n, name@);
                        }
                    }
                    bare = Some(name);
                } else {
                    proof {
                        if !several {
                            assert forall|n: Seq<char>| !names(s@, n) by {
                                if names(s@, n) {
                                    let j = choose|j: int| #[trigger] kept_run(s@, j) && run_is(s@, j, n);
                                    assert(j == i as int);
                                    lemma_run_unique(s@, i as int, n, name@);
                                }
                            }
                        }
                    }
                }
            },
            None => {},
        }
        match bare {
            Some(name) => {
                let mut dotted = false;
                let mut k: usize = 1;
                while k < name.len()
                    invariant
                        1 <= k <= name@.len() || name@.len() == 0,
                        dotted == exists|j: int| 0 < j < k && name@[j] == '.',
                    decreases name.len() - k,
                {
                    if name[k] == '.' {
                        dotted = true;
                    }
                    k = k + 1;
                }
                if is_file || dotted {
                    crate::text::owned(reference)
                } else {
                    let text = string_of(&name);
                    let mut out = join_path_exec(self.directory.as_str(), text.as_str());
                    out.append(".json");
                    out
                }
            },
            None => {
                if is_file || several {
                    crate::text::owned(reference)
                } else {
                    join_path_exec(self.directory.as_str(), reference)
                }
            },
        }
    }
}

} // verus!
