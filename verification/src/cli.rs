//! The command-line surface: output names, collection paths, SRD constraints,
//! and the grammar of the command line.

use vstd::prelude::*;

use crate::app_error::{AppError, ErrorKind};
use crate::storage::{resolved_reference, CharacterRepository, DEFAULT_CHARACTER_DIRECTORY};
use crate::wizard::joined;
use crate::text::{chars_of, str_eq, str_views, eq_ignore_case, eq_ignore_case_exec, lower_char, lower_char_exec, owned, string_of, trim, trim_exec};

verus! {

/// Whether a character is alphabetic or numeric in Unicode.
pub uninterp spec fn is_alphanumeric(c: char) -> bool;

/// `char::is_alphanumeric`.
///
/// Trusted: the result is named `is_alphanumeric`; for ASCII the standard
/// library documents it as the letters and the digits, which is stated.
#[verifier::external_body]
fn char_is_alphanumeric(c: char) -> (r: bool)
    ensures
        r == is_alphanumeric(c),
        (c as u32) < 128 ==> (r <==> (('a' <= c && c <= 'z') || ('A' <= c && c <= 'Z') || ('0' <= c && c <= '9'))),
{
    c.is_alphanumeric()
}

/// An ASCII letter or digit.
pub open spec fn ascii_alphanumeric(c: char) -> bool {
    ('a' <= c && c <= 'z') || ('A' <= c && c <= 'Z') || ('0' <= c && c <= '9')
}

/// Whether a character is alphabetic or numeric: for ASCII, a letter or a digit.
pub open spec fn name_alphanumeric(c: char) -> bool {
    if (c as u32) < 128 {
        ascii_alphanumeric(c)
    } else {
        is_alphanumeric(c)
    }
}

/// A name character as it appears in a file name: alphanumerics in ASCII
/// lower case, anything else as `-`.
pub open spec fn file_char(c: char) -> char {
    if name_alphanumeric(c) {
        lower_char(c)
    } else {
        '-'
    }
}

/// A character that could not stand in a file name: a path separator or a dot.
pub open spec fn path_punctuation(c: char) -> bool {
    c == '/' || c == '\\' || c == '.'
}

proof fn lemma_strip_leading_keeps(s: Seq<char>)
    ensures
        forall|i: int| 0 <= i < strip_leading_dashes(s).len() ==> s.contains(#[trigger] strip_leading_dashes(s)[i]),
    decreases s.len(),
{
    if s.len() > 0 && s[0] == '-' {
        lemma_strip_leading_keeps(s.drop_first());
        assert forall|i: int| 0 <= i < strip_leading_dashes(s).len() implies s.contains(
            #[trigger] strip_leading_dashes(s)[i],
        ) by {
            let x = strip_leading_dashes(s)[i];
            assert(strip_leading_dashes(s) == strip_leading_dashes(s.drop_first()));
            assert(x == strip_leading_dashes(s.drop_first())[i]);
            assert(s.drop_first().contains(x));
            let k = choose|k: int| 0 <= k < s.drop_first().len() && s.drop_first()[k] == x;
            assert(s[k + 1] == x);
        }
    } else {
        assert forall|i: int| 0 <= i < strip_leading_dashes(s).len() implies s.contains(
            #[trigger] strip_leading_dashes(s)[i],
        ) by {
            assert(s[i] == strip_leading_dashes(s)[i]);
        }
    }
}

proof fn lemma_strip_trailing_keeps(s: Seq<char>)
    ensures
        forall|i: int| 0 <= i < strip_trailing_dashes(s).len() ==> s.contains(#[trigger] strip_trailing_dashes(s)[i]),
    decreases s.len(),
{
    if s.len() > 0 && s.last() == '-' {
        lemma_strip_trailing_keeps(s.drop_last());
        assert forall|i: int| 0 <= i < strip_trailing_dashes(s).len() implies s.contains(
            #[trigger] strip_trailing_dashes(s)[i],
        ) by {
            let x = strip_trailing_dashes(s)[i];
            assert(strip_trailing_dashes(s) == strip_trailing_dashes(s.drop_last()));
            assert(x == strip_trailing_dashes(s.drop_last())[i]);
            assert(s.drop_last().contains(x));
            let k = choose|k: int| 0 <= k < s.drop_last().len() && s.drop_last()[k] == x;
            assert(s[k] == x);
        }
    } else {
        assert forall|i: int| 0 <= i < strip_trailing_dashes(s).len() implies s.contains(
            #[trigger] strip_trailing_dashes(s)[i],
        ) by {
            assert(s[i] == strip_trailing_dashes(s)[i]);
        }
    }
}

/// A default output name is a single safe file name: its stem is never
/// empty and holds no path separator or dot, so it names a file in the
/// current directory whatever the character is called.
pub proof fn lemma_output_stem_is_a_file_name(name: Seq<char>)
    ensures
        output_stem(name).len() > 0,
        forall|i: int| 0 <= i < output_stem(name).len() ==> !path_punctuation(#[trigger] output_stem(name)[i]),
{
    let mapped = trim(name).map_values(|c: char| file_char(c));
    assert forall|k: int| 0 <= k < mapped.len() implies !path_punctuation(#[trigger] mapped[k]) by {
        let c = trim(name)[k];
        assert(mapped[k] == file_char(c));
    }
    let left = strip_leading_dashes(mapped);
    lemma_strip_leading_keeps(mapped);
    lemma_strip_trailing_keeps(left);
    let stem = strip_trailing_dashes(left);
    assert forall|i: int| 0 <= i < stem.len() implies !path_punctuation(#[trigger] stem[i]) by {
        assert(left.contains(stem[i]));
        let j = choose|j: int| 0 <= j < left.len() && left[j] == stem[i];
        assert(mapped.contains(left[j]));
    }
    reveal_strlit("character");
}

/// `s` without leading hyphens.
pub open spec fn strip_leading_dashes(s: Seq<char>) -> Seq<char>
    decreases s.len(),
{
    if s.len() > 0 && s[0] == '-' {
        strip_leading_dashes(s.drop_first())
    } else {
        s
    }
}

/// `s` without trailing hyphens.
pub open spec fn strip_trailing_dashes(s: Seq<char>) -> Seq<char>
    decreases s.len(),
{
    if s.len() > 0 && s.last() == '-' {
        strip_trailing_dashes(s.drop_last())
    } else {
        s
    }
}

/// The file stem for a character name: the trimmed name with every
/// non-alphanumeric as `-`, letters in lower case, without hyphens at either
/// end, and `character` when nothing is left.
pub open spec fn output_stem(name: Seq<char>) -> Seq<char> {
    let stem = strip_trailing_dashes(strip_leading_dashes(trim(name).map_values(|c: char| file_char(c))));
    if stem.len() == 0 {
        "character"@
    } else {
        stem
    }
}

/// The default output file name for a character: its stem, a dot and the extension.
pub fn character_output_path(name: &str, extension: &str) -> (r: String)
    ensures
        r@ == output_stem(name@) + "."@ + extension@,
{
    let trimmed = trim_exec(name);
    let chars = chars_of(trimmed.as_str());
    let mut mapped: Vec<char> = Vec::new();
    let mut i: usize = 0;
    while i < chars.len()
        invariant
            i <= chars@.len(),
            chars@ == trim(name@),
            mapped@ == chars@.subrange(0, i as int).map_values(|c: char| file_char(c)),
        decreases chars.len() - i,
    {
        let c = chars[i];
        let out = if char_is_alphanumeric(c) {
            lower_char_exec(c)
        } else {
            '-'
        };
        mapped.push(out);
        assert(chars@.subrange(0, i as int + 1).map_values(|c: char| file_char(c)) =~= chars@.subrange(
            0,
            i as int,
        ).map_values(|c: char| file_char(c)).push(file_char(c)));
        i = i + 1;
    }
    assert(chars@.subrange(0, chars@.len() as int) =~= chars@);
    let mut start: usize = 0;
    assert(mapped@.subrange(0, mapped@.len() as int) =~= mapped@);
    while start < mapped.len() && mapped[start] == '-'
        invariant
            start <= mapped@.len(),
            strip_leading_dashes(mapped@) == strip_leading_dashes(mapped@.subrange(start as int, mapped@.len() as int)),
        decreases mapped.len() - start,
    {
        assert(mapped@.subrange(start as int, mapped@.len() as int).drop_first() =~= mapped@.subrange(
            start as int + 1,
            mapped@.len() as int,
        ));
        start = start + 1;
    }
    let ghost lead = mapped@.subrange(start as int, mapped@.len() as int);
    assert(strip_leading_dashes(mapped@) == lead);
    let mut end: usize = mapped.len();
    assert(mapped@.subrange(start as int, end as int) =~= lead);
    while end > start && mapped[end - 1] == '-'
        invariant
            start <= end <= mapped@.len(),
            strip_trailing_dashes(lead) == strip_trailing_dashes(mapped@.subrange(start as int, end as int)),
        decreases end - start,
    {
        assert(mapped@.subrange(start as int, end as int).drop_last() =~= mapped@.subrange(start as int, end as int - 1));
        end = end - 1;
    }
    let mut stem: Vec<char> = Vec::new();
    let mut k: usize = start;
    while k < end
        invariant
            start <= k <= end <= mapped@.len(),
            stem@ == mapped@.subrange(start as int, k as int),
        decreases end - k,
    {
        stem.push(mapped[k]);
        k = k + 1;
    }
    assert(strip_trailing_dashes(lead) == stem@);
    let mut out = if stem.len() == 0 {
        owned("character")
    } else {
        string_of(&stem)
    };
    out.append(".");
    out.append(extension);
    out
}

/// The first of `choices` equal to `value` ignoring ASCII case.
pub open spec fn canonical_choice(value: Seq<char>, choices: Seq<&str>) -> Option<int> {
    crate::resolve::first_where(choices, |c: &str| eq_ignore_case(c@, value))
}

/// The canonical SRD spelling of a requested name, or an error listing the choices.
pub fn canonical_srd_choice(value: &str, choices: &[&str], label: &str) -> (r: Result<String, AppError>)
    ensures
        match canonical_choice(value@, choices@) {
            Some(i) => match r {
                Ok(s) => s@ == choices@[i]@,
                Err(_) => false,
            },
            None => match r {
                Err(e) => e.kind_spec() == ErrorKind::Input && e.message_spec() == "unknown SRD "@ + label@ + ": "@
                    + value@ + " (choose one of: "@ + joined(str_views(choices@), ", "@) + ")"@,
                Ok(_) => false,
            },
        },
{
    let ghost p = |c: &str| eq_ignore_case(c@, value@);
    proof {
        crate::resolve::lemma_first_where(choices@, p, 0);
    }
    let mut i: usize = 0;
    while i < choices.len()
        invariant
            i <= choices@.len(),
            p == (|c: &str| eq_ignore_case(c@, value@)),
            crate::resolve::first_where(choices@, p) == crate::resolve::first_where_from(choices@, p, i as int),
        decreases choices.len() - i,
    {
        if eq_ignore_case_exec(choices[i], value) {
            assert(p(choices@[i as int]));
            return Ok(owned(choices[i]));
        }
        i = i + 1;
    }
    let mut message = owned("unknown SRD ");
    message.append(label);
    message.append(": ");
    message.append(value);
    message.append(" (choose one of: ");
    let ghost head = message@;
    let mut k: usize = 0;
    while k < choices.len()
        invariant
            k <= choices@.len(),
            message@ == head + joined(str_views(choices@.subrange(0, k as int)), ", "@),
        decreases choices.len() - k,
    {
        assert(str_views(choices@.subrange(0, k as int + 1)).drop_last() =~= str_views(choices@.subrange(0, k as int)));
        if k > 0 {
            message.append(", ");
        }
        message.append(choices[k]);
        k = k + 1;
    }
    assert(choices@.subrange(0, choices@.len() as int) =~= choices@);
    message.append(")");
    Err(AppError::new(ErrorKind::Input, message))
}

/// A requested class, background or species constraint: an entry of the loaded
/// pack is kept as requested; anything else must name one of the SRD `choices`.
pub fn constraint_choice(requested: Option<&str>, custom: bool, choices: &[&str], label: &str) -> (r: Result<
    Option<String>,
    AppError,
>)
    ensures
        match requested {
            None => r matches Ok(None),
            Some(v) => if custom {
                r matches Ok(Some(s)) && s@ == v@
            } else {
                match canonical_choice(v@, choices@) {
                    Some(i) => r matches Ok(Some(s)) && s@ == choices@[i]@,
                    None => r matches Err(e) && e.kind_spec() == ErrorKind::Input,
                }
            },
        },
{
    match requested {
        None => Ok(None),
        Some(value) => if custom {
            Ok(Some(owned(value)))
        } else {
            match canonical_srd_choice(value, choices, label) {
                Ok(choice) => Ok(Some(choice)),
                Err(e) => Err(e),
            }
        },
    }
}

/// The collection directory: the given one, or the current directory.
pub fn collection_directory(directory: Option<&str>) -> (r: String)
    ensures
        r@ == match directory {
            Some(d) => d@,
            None => DEFAULT_CHARACTER_DIRECTORY@,
        },
{
    owned(CharacterRepository::new(directory).directory())
}

/// Where a character reference leads in its collection; `is_file` tells
/// whether the reference names an existing file.
pub fn resolve_character_path(character: &str, directory: Option<&str>, is_file: bool) -> (r: String)
    ensures
        r@ == resolved_reference(
            match directory {
                Some(d) => d@,
                None => DEFAULT_CHARACTER_DIRECTORY@,
            },
            character@,
            is_file,
        ),
{
    CharacterRepository::new(directory).resolve(character, is_file)
}


/// What the command line asked for, when it is not a command to run.
#[derive(Debug, PartialEq, Eq)]
pub enum CliParseError {
    /// Show the usage text.
    Help,
    /// Show the version.
    Version,
    /// The arguments do not fit the grammar, for the stated reason.
    Invalid(String),
}

/// Options of `create`.
#[derive(Debug, PartialEq, Eq)]
pub struct CreateArgs {
    pub template: Option<String>,
    pub quick: bool,
    pub from_json: Option<String>,
    pub json: Option<String>,
    pub output: Option<String>,
    pub draft: String,
    pub force: bool,
}

/// Options of `random`.
#[derive(Debug, PartialEq, Eq)]
pub struct RandomArgs {
    pub class_name: Option<String>,
    pub background: Option<String>,
    pub species: Option<String>,
    pub template: Option<String>,
    pub json: Option<String>,
    pub output: Option<String>,
    pub force: bool,
}

/// A character named in a collection, or given by path.
#[derive(Debug, PartialEq, Eq)]
pub struct CharacterRefArgs {
    pub character: String,
    pub directory: Option<String>,
}

/// Options of `edit`.
#[derive(Debug, PartialEq, Eq)]
pub struct EditArgs {
    pub character: CharacterRefArgs,
    pub output: Option<String>,
    pub template: Option<String>,
    pub force: bool,
}

/// Options of `render`.
#[derive(Debug, PartialEq, Eq)]
pub struct RenderArgs {
    pub character: CharacterRefArgs,
    pub template: Option<String>,
    pub output: Option<String>,
    pub force: bool,
}

/// Options of `list`.
#[derive(Debug, PartialEq, Eq)]
pub struct ListArgs {
    pub directory: Option<String>,
}

/// Options of `show`.
#[derive(Debug, PartialEq, Eq)]
pub struct ShowArgs {
    pub character: CharacterRefArgs,
}

/// Options of `export`.
#[derive(Debug, PartialEq, Eq)]
pub struct ExportArgs {
    pub character: CharacterRefArgs,
}

/// Options of `import`.
#[derive(Debug, PartialEq, Eq)]
pub struct ImportArgs {
    pub code: String,
    pub output: Option<String>,
    pub directory: Option<String>,
    pub force: bool,
}

/// A command and its options.
#[derive(Debug, PartialEq, Eq)]
pub enum Command {
    Create(CreateArgs),
    Random(RandomArgs),
    Edit(EditArgs),
    Render(RenderArgs),
    List(ListArgs),
    Validate { character_json: String },
    Show(ShowArgs),
    Export(ExportArgs),
    Import(ImportArgs),
}

/// A parsed command line: the global data pack option and the command.
#[derive(Debug, PartialEq, Eq)]
pub struct Cli {
    pub data: Option<String>,
    pub command: Command,
}

/// The command-line tokens seen so far, sorted into their roles.
pub struct Lexed {
    pub command: Option<Seq<char>>,
    pub values: Seq<(Seq<char>, Seq<char>)>,
    pub flags: Seq<Seq<char>>,
    pub positionals: Seq<Seq<char>>,
    pub raw: bool,
}

/// Why the tokens cannot be sorted.
pub enum LexFailure {
    Help,
    Version,
    Invalid,
}

/// The commands.
pub open spec fn is_command(t: Seq<char>) -> bool {
    t == "create"@ || t == "random"@ || t == "edit"@ || t == "render"@ || t == "list"@ || t == "validate"@ || t
        == "show"@ || t == "export"@ || t == "import"@
}

/// Whether a long option takes a value (`Some(true)`), is a flag (`Some(false)`),
/// or is unknown (`None`) where `command` has been given.
pub open spec fn option_kind(command: Option<Seq<char>>, name: Seq<char>) -> Option<bool> {
    if name == "data"@ {
        Some(true)
    } else {
        match command {
            None => None,
            Some(c) => if c == "create"@ {
                if name == "template"@ || name == "from-json"@ || name == "json"@ || name == "output"@ || name
                    == "draft"@ {
                    Some(true)
                } else if name == "quick"@ || name == "force"@ {
                    Some(false)
                } else {
                    None
                }
            } else if c == "random"@ {
                if name == "class"@ || name == "background"@ || name == "species"@ || name == "template"@ || name
                    == "json"@ || name == "output"@ {
                    Some(true)
                } else if name == "force"@ {
                    Some(false)
                } else {
                    None
                }
            } else if c == "edit"@ || c == "render"@ {
                if name == "directory"@ || name == "output"@ || name == "template"@ {
                    Some(true)
                } else if name == "force"@ {
                    Some(false)
                } else {
                    None
                }
            } else if c == "list"@ || c == "show"@ || c == "export"@ {
                if name == "directory"@ {
                    Some(true)
                } else {
                    None
                }
            } else if c == "import"@ {
                if name == "output"@ || name == "directory"@ {
                    Some(true)
                } else if name == "force"@ {
                    Some(false)
                } else {
                    None
                }
            } else {
                None
            },
        }
    }
}

/// The long option a one-letter option stands for under `command`.
pub open spec fn short_option(command: Option<Seq<char>>, letter: char) -> Option<Seq<char>> {
    match command {
        Some(c) => if letter == 'o' && (c == "create"@ || c == "random"@ || c == "render"@) {
            Some("output"@)
        } else {
            None
        },
        None => None,
    }
}

/// The value recorded for an option, if any.
pub open spec fn value_of(values: Seq<(Seq<char>, Seq<char>)>, name: Seq<char>) -> Option<Seq<char>>
    decreases values.len(),
{
    if values.len() == 0 {
        None
    } else if values.last().0 == name {
        Some(values.last().1)
    } else {
        value_of(values.drop_last(), name)
    }
}

/// A token that stands for an option rather than a value.
pub open spec fn looks_like_option(t: Seq<char>) -> bool {
    t.len() >= 2 && t[0] == '-'
}

/// The index of the first `=` in `t`, if any.
pub open spec fn equals_at(t: Seq<char>) -> Option<int> {
    crate::resolve::first_where(t, |c: char| c == '=')
}

/// Record an option value, refusing a second value for the same option.
pub open spec fn with_value(st: Lexed, name: Seq<char>, value: Seq<char>) -> Result<Lexed, LexFailure> {
    if value_of(st.values, name) is Some {
        Err(LexFailure::Invalid)
    } else {
        Ok(Lexed { values: st.values.push((name, value)), ..st })
    }
}

/// Record a flag, refusing it twice.
pub open spec fn with_flag(st: Lexed, name: Seq<char>) -> Result<Lexed, LexFailure> {
    if st.flags.contains(name) {
        Err(LexFailure::Invalid)
    } else {
        Ok(Lexed { flags: st.flags.push(name), ..st })
    }
}

/// Sort the tokens from index `i` on, given what was seen before.
///
/// After `--` every token is positional. `--help` or `-h` asks for help;
/// `--version` or `-V` before the command asks for the version. A long option
/// is `--name`, `--name=value` or `--name value`; `-o` stands for `--output`
/// where the command has it. The first other token is the command, the later
/// ones are positionals.
pub open spec fn lex_from(args: Seq<Seq<char>>, i: int, st: Lexed) -> Result<Lexed, LexFailure>
    decreases args.len() - i,
{
    if i < 0 || i >= args.len() {
        Ok(st)
    } else {
        let t = args[i];
        if st.raw {
            lex_from(args, i + 1, Lexed { positionals: st.positionals.push(t), ..st })
        } else if t == "--"@ {
            lex_from(args, i + 1, Lexed { raw: true, ..st })
        } else if t == "--help"@ || t == "-h"@ {
            Err(LexFailure::Help)
        } else if (t == "--version"@ || t == "-V"@) && st.command is None {
            Err(LexFailure::Version)
        } else if t.len() > 2 && t[0] == '-' && t[1] == '-' {
            let body = t.subrange(2, t.len() as int);
            let (name, inline) = match equals_at(body) {
                Some(k) => (body.subrange(0, k), Some(body.subrange(k + 1, body.len() as int))),
                None => (body, None::<Seq<char>>),
            };
            match option_kind(st.command, name) {
                None => Err(LexFailure::Invalid),
                Some(true) => match inline {
                    Some(v) => match with_value(st, name, v) {
                        Ok(next) => lex_from(args, i + 1, next),
                        Err(f) => Err(f),
                    },
                    None => if i + 1 < args.len() && !looks_like_option(args[i + 1]) {
                        match with_value(st, name, args[i + 1]) {
                            Ok(next) => lex_from(args, i + 2, next),
                            Err(f) => Err(f),
                        }
                    } else {
                        Err(LexFailure::Invalid)
                    },
                },
                Some(false) => if inline is Some {
                    Err(LexFailure::Invalid)
                } else {
                    match with_flag(st, name) {
                        Ok(next) => lex_from(args, i + 1, next),
                        Err(f) => Err(f),
                    }
                },
            }
        } else if t.len() >= 2 && t[0] == '-' {
            match short_option(st.command, t[1]) {
                None => Err(LexFailure::Invalid),
                Some(name) => if t.len() > 2 {
                    match with_value(st, name, t.subrange(2, t.len() as int)) {
                        Ok(next) => lex_from(args, i + 1, next),
                        Err(f) => Err(f),
                    }
                } else if i + 1 < args.len() && !looks_like_option(args[i + 1]) {
                    match with_value(st, name, args[i + 1]) {
                        Ok(next) => lex_from(args, i + 2, next),
                        Err(f) => Err(f),
                    }
                } else {
                    Err(LexFailure::Invalid)
                },
            }
        } else if st.command is None {
            if is_command(t) {
                lex_from(args, i + 1, Lexed { command: Some(t), ..st })
            } else {
                Err(LexFailure::Invalid)
            }
        } else {
            lex_from(args, i + 1, Lexed { positionals: st.positionals.push(t), ..st })
        }
    }
}

/// Nothing seen yet.
pub open spec fn lex_start() -> Lexed {
    Lexed { command: None, values: seq![], flags: seq![], positionals: seq![], raw: false }
}

/// The tokens of a command line sorted into their roles; the first token is
/// the program's name.
pub open spec fn lexed(args: Seq<Seq<char>>) -> Result<Lexed, LexFailure> {
    lex_from(args, 1, lex_start())
}


/// The command line fits its command: the right number of positionals, and no
/// options used together that exclude each other.
pub open spec fn fits(m: Lexed) -> bool {
    match m.command {
        None => false,
        Some(c) => is_command(c) && if c == "create"@ {
            m.positionals.len() == 0 && !(m.flags.contains("quick"@) && value_of(m.values, "from-json"@) is Some)
        } else if c == "random"@ || c == "list"@ {
            m.positionals.len() == 0
        } else if c == "edit"@ {
            m.positionals.len() == 1 && (value_of(m.values, "template"@) is Some ==> value_of(m.values, "output"@) is Some)
        } else if c == "import"@ {
            m.positionals.len() == 1 && !(value_of(m.values, "directory"@) is Some && value_of(m.values, "output"@) is Some)
        } else {
            m.positionals.len() == 1
        },
    }
}

/// An optional value as text.
pub open spec fn opt_text(o: Option<String>) -> Option<Seq<char>> {
    crate::text::opt_view(o)
}

/// `cli` is the command that the sorted tokens `m` describe.
pub open spec fn cli_matches(cli: Cli, m: Lexed) -> bool {
    &&& opt_text(cli.data) == value_of(m.values, "data"@)
    &&& match cli.command {
        Command::Create(a) => {
            &&& m.command == Some("create"@)
            &&& opt_text(a.template) == value_of(m.values, "template"@)
            &&& a.quick == m.flags.contains("quick"@)
            &&& opt_text(a.from_json) == value_of(m.values, "from-json"@)
            &&& opt_text(a.json) == value_of(m.values, "json"@)
            &&& opt_text(a.output) == value_of(m.values, "output"@)
            &&& a.draft@ == match value_of(m.values, "draft"@) {
                Some(d) => d,
                None => "character-draft.json"@,
            }
            &&& a.force == m.flags.contains("force"@)
        },
        Command::Random(a) => {
            &&& m.command == Some("random"@)
            &&& opt_text(a.class_name) == value_of(m.values, "class"@)
            &&& opt_text(a.background) == value_of(m.values, "background"@)
            &&& opt_text(a.species) == value_of(m.values, "species"@)
            &&& opt_text(a.template) == value_of(m.values, "template"@)
            &&& opt_text(a.json) == value_of(m.values, "json"@)
            &&& opt_text(a.output) == value_of(m.values, "output"@)
            &&& a.force == m.flags.contains("force"@)
        },
        Command::Edit(a) => {
            &&& m.command == Some("edit"@)
            &&& a.character.character@ == m.positionals[0]
            &&& opt_text(a.character.directory) == value_of(m.values, "directory"@)
            &&& opt_text(a.output) == value_of(m.values, "output"@)
            &&& opt_text(a.template) == value_of(m.values, "template"@)
            &&& a.force == m.flags.contains("force"@)
        },
        Command::Render(a) => {
            &&& m.command == Some("render"@)
            &&& a.character.character@ == m.positionals[0]
            &&& opt_text(a.character.directory) == value_of(m.values, "directory"@)
            &&& opt_text(a.template) == value_of(m.values, "template"@)
            &&& opt_text(a.output) == value_of(m.values, "output"@)
            &&& a.force == m.flags.contains("force"@)
        },
        Command::List(a) => m.command == Some("list"@) && opt_text(a.directory) == value_of(m.values, "directory"@),
        Command::Validate { character_json } => m.command == Some("validate"@) && character_json@ == m.positionals[0],
        Command::Show(a) => {
            &&& m.command == Some("show"@)
            &&& a.character.character@ == m.positionals[0]
            &&& opt_text(a.character.directory) == value_of(m.values, "directory"@)
        },
        Command::Export(a) => {
            &&& m.command == Some("export"@)
            &&& a.character.character@ == m.positionals[0]
            &&& opt_text(a.character.directory) == value_of(m.values, "directory"@)
        },
        Command::Import(a) => {
            &&& m.command == Some("import"@)
            &&& a.code@ == m.positionals[0]
            &&& opt_text(a.output) == value_of(m.values, "output"@)
            &&& opt_text(a.directory) == value_of(m.values, "directory"@)
            &&& a.force == m.flags.contains("force"@)
        },
    }
}

/// The views of option-value pairs.
pub open spec fn pair_views(values: Seq<(String, String)>) -> Seq<(Seq<char>, Seq<char>)> {
    values.map_values(|p: (String, String)| (p.0@, p.1@))
}

/// Tokens sorted so far, with owned text.
struct LexState {
    command: Option<String>,
    values: Vec<(String, String)>,
    flags: Vec<String>,
    positionals: Vec<String>,
    raw: bool,
}

spec fn lex_view(st: LexState) -> Lexed {
    Lexed {
        command: crate::text::opt_view(st.command),
        values: pair_views(st.values@),
        flags: crate::text::string_views(st.flags@),
        positionals: crate::text::string_views(st.positionals@),
        raw: st.raw,
    }
}

fn find_value(values: &Vec<(String, String)>, name: &str) -> (r: Option<String>)
    ensures
        crate::text::opt_view(r) == value_of(pair_views(values@), name@),
{
    let mut k: usize = values.len();
    assert(values@.subrange(0, k as int) =~= values@);
    while k > 0
        invariant
            k <= values@.len(),
            value_of(pair_views(values@), name@) == value_of(pair_views(values@.subrange(0, k as int)), name@),
        decreases k,
    {
        let ghost prefix = values@.subrange(0, k as int);
        assert(pair_views(prefix).drop_last() =~= pair_views(values@.subrange(0, k as int - 1)));
        assert(pair_views(prefix).last() == (values@[k as int - 1].0@, values@[k as int - 1].1@));
        if str_eq(values[k - 1].0.as_str(), name) {
            return Some(values[k - 1].1.clone());
        }
        k = k - 1;
    }
    None
}

fn has_flag(flags: &Vec<String>, name: &str) -> (r: bool)
    ensures
        r == crate::text::string_views(flags@).contains(name@),
{
    proof {
        crate::text::lemma_in_strings_views(flags@, name@);
    }
    crate::text::strings_contain(flags, name)
}

fn is_command_exec(t: &str) -> (r: bool)
    ensures
        r == is_command(t@),
{
    str_eq(t, "create") || str_eq(t, "random") || str_eq(t, "edit")
        || str_eq(t, "render") || str_eq(t, "list") || str_eq(t, "validate")
        || str_eq(t, "show") || str_eq(t, "export") || str_eq(t, "import")
}

fn option_kind_exec(command: &Option<String>, name: &str) -> (r: Option<bool>)
    ensures
        r == option_kind(crate::text::opt_view(*command), name@),
{
    if str_eq(name, "data") {
        return Some(true);
    }
    match command {
        None => None,
        Some(c) => {
            let c = c.as_str();
            if str_eq(c, "create") {
                if str_eq(name, "template") || str_eq(name, "from-json") || str_eq(name, "json") || str_eq(name, "output")
                    || str_eq(name, "draft") {
                    Some(true)
                } else if str_eq(name, "quick") || str_eq(name, "force") {
                    Some(false)
                } else {
                    None
                }
            } else if str_eq(c, "random") {
                if str_eq(name, "class") || str_eq(name, "background") || str_eq(name, "species") || str_eq(
                    name,
                    "template",
                ) || str_eq(name, "json") || str_eq(name, "output") {
                    Some(true)
                } else if str_eq(name, "force") {
                    Some(false)
                } else {
                    None
                }
            } else if str_eq(c, "edit") || str_eq(c, "render") {
                if str_eq(name, "directory") || str_eq(name, "output") || str_eq(name, "template") {
                    Some(true)
                } else if str_eq(name, "force") {
                    Some(false)
                } else {
                    None
                }
            } else if str_eq(c, "list") || str_eq(c, "show") || str_eq(c, "export") {
                if str_eq(name, "directory") {
                    Some(true)
                } else {
                    None
                }
            } else if str_eq(c, "import") {
                if str_eq(name, "output") || str_eq(name, "directory") {
                    Some(true)
                } else if str_eq(name, "force") {
                    Some(false)
                } else {
                    None
                }
            } else {
                None
            }
        },
    }
}

fn short_option_exec(command: &Option<String>, letter: char) -> (r: Option<&'static str>)
    ensures
        match r {
            Some(n) => short_option(crate::text::opt_view(*command), letter) == Some(n@),
            None => short_option(crate::text::opt_view(*command), letter) is None,
        },
{
    match command {
        Some(c) => if letter == 'o' && (str_eq(c.as_str(), "create") || str_eq(c.as_str(), "random") || str_eq(
            c.as_str(),
            "render",
        )) {
            Some("output")
        } else {
            None
        },
        None => None,
    }
}

fn looks_like_option_exec(t: &str) -> (r: bool)
    ensures
        r == looks_like_option(t@),
{
    let c = chars_of(t);
    c.len() >= 2 && c[0] == '-'
}


fn sub_text(chars: &Vec<char>, from: usize, to: usize) -> (r: String)
    requires
        from <= to <= chars@.len(),
    ensures
        r@ == chars@.subrange(from as int, to as int),
{
    let mut v: Vec<char> = Vec::new();
    let mut i = from;
    while i < to
        invariant
            from <= i <= to <= chars@.len(),
            v@ == chars@.subrange(from as int, i as int),
        decreases to - i,
    {
        v.push(chars[i]);
        i = i + 1;
    }
    string_of(&v)
}

fn equals_at_exec(body: &Vec<char>) -> (r: Option<usize>)
    ensures
        match r {
            Some(k) => equals_at(body@) == Some(k as int) && k < body@.len(),
            None => equals_at(body@) is None,
        },
{
    let ghost p = |c: char| c == '=';
    proof {
        crate::resolve::lemma_first_where(body@, p, 0);
    }
    let mut k: usize = 0;
    while k < body.len()
        invariant
            k <= body@.len(),
            p == (|c: char| c == '='),
            crate::resolve::first_where(body@, p) == crate::resolve::first_where_from(body@, p, k as int),
        decreases body.len() - k,
    {
        if body[k] == '=' {
            assert(p(body@[k as int]));
            return Some(k);
        }
        k = k + 1;
    }
    None
}

fn push_value(st: &mut LexState, name: String, value: String) -> (r: Result<(), LexFailure>)
    ensures
        match with_value(lex_view(*old(st)), name@, value@) {
            Ok(next) => r is Ok && lex_view(*final(st)) == next,
            Err(f) => r == Err::<(), LexFailure>(f),
        },
{
    if find_value(&st.values, name.as_str()).is_some() {
        return Err(LexFailure::Invalid);
    }
    let ghost before = st.values@;
    st.values.push((name, value));
    assert(pair_views(st.values@) =~= pair_views(before).push((name@, value@)));
    Ok(())
}

fn push_flag(st: &mut LexState, name: String) -> (r: Result<(), LexFailure>)
    ensures
        match with_flag(lex_view(*old(st)), name@) {
            Ok(next) => r is Ok && lex_view(*final(st)) == next,
            Err(f) => r == Err::<(), LexFailure>(f),
        },
{
    if has_flag(&st.flags, name.as_str()) {
        return Err(LexFailure::Invalid);
    }
    let ghost before = st.flags@;
    st.flags.push(name);
    assert(crate::text::string_views(st.flags@) =~= crate::text::string_views(before).push(st.flags@.last()@));
    Ok(())
}

fn push_positional(st: &mut LexState, t: &str)
    ensures
        lex_view(*final(st)) == (Lexed { positionals: lex_view(*old(st)).positionals.push(t@), ..lex_view(*old(st)) }),
{
    let ghost before = st.positionals@;
    st.positionals.push(owned(t));
    assert(crate::text::string_views(st.positionals@) =~= crate::text::string_views(before).push(t@));
}

/// Sort the command-line tokens into their roles; the first token is the program's name.
#[verifier::loop_isolation(false)]
fn lex_args(args: &Vec<String>) -> (r: Result<LexState, LexFailure>)
    ensures
        match lexed(crate::text::string_views(args@)) {
            Ok(m) => match r {
                Ok(st) => lex_view(st) == m,
                Err(_) => false,
            },
            Err(f) => r == Err::<LexState, LexFailure>(f),
        },
{
    let ghost a = crate::text::string_views(args@);
    let mut st = LexState {
        command: None,
        values: Vec::new(),
        flags: Vec::new(),
        positionals: Vec::new(),
        raw: false,
    };
    assert(lex_view(st) =~= lex_start()) by {
        assert(pair_views(st.values@) =~= seq![]);
        assert(crate::text::string_views(st.flags@) =~= seq![]);
        assert(crate::text::string_views(st.positionals@) =~= seq![]);
    }
    let mut i: usize = 1;
    while i < args.len()
        invariant
            1 <= i,
            a == crate::text::string_views(args@),
            lex_from(a, i as int, lex_view(st)) == lexed(a),
        decreases args.len() - i,
    {
        let t = args[i].as_str();
        assert(t@ == a[i as int]);
        if st.raw {
            push_positional(&mut st, t);
            i = i + 1;
            continue;
        }
        if str_eq(t, "--") {
            st.raw = true;
            i = i + 1;
            continue;
        }
        if str_eq(t, "--help") || str_eq(t, "-h") {
            return Err(LexFailure::Help);
        }
        if (str_eq(t, "--version") || str_eq(t, "-V")) && st.command.is_none() {
            return Err(LexFailure::Version);
        }
        let chars = chars_of(t);
        if chars.len() > 2 && chars[0] == '-' && chars[1] == '-' {
            let body = {
                let mut v: Vec<char> = Vec::new();
                let mut k: usize = 2;
                while k < chars.len()
                    invariant
                        2 <= k <= chars@.len(),
                        v@ == chars@.subrange(2, k as int),
                    decreases chars.len() - k,
                {
                    v.push(chars[k]);
                    k = k + 1;
                }
                v
            };
            assert(body@ == t@.subrange(2, t@.len() as int));
            let (name, inline) = match equals_at_exec(&body) {
                Some(k) => (sub_text(&body, 0, k), Some(sub_text(&body, k + 1, body.len()))),
                None => (string_of(&body), None),
            };
            match option_kind_exec(&st.command, name.as_str()) {
                None => {
                    return Err(LexFailure::Invalid);
                },
                Some(true) => match inline {
                    Some(v) => {
                        push_value(&mut st, name, v)?;
                        i = i + 1;
                    },
                    None => {
                        if i + 1 < args.len() && !looks_like_option_exec(args[i + 1].as_str()) {
                            assert(args@[i as int + 1]@ == a[i as int + 1]);
                            push_value(&mut st, name, args[i + 1].clone())?;
                            i = i + 2;
                        } else {
                            return Err(LexFailure::Invalid);
                        }
                    },
                },
                Some(false) => {
                    if inline.is_some() {
                        return Err(LexFailure::Invalid);
                    }
                    push_flag(&mut st, name)?;
                    i = i + 1;
                },
            }
        } else if chars.len() >= 2 && chars[0] == '-' {
            match short_option_exec(&st.command, chars[1]) {
                None => {
                    return Err(LexFailure::Invalid);
                },
                Some(name) => {
                    if chars.len() > 2 {
                        let v = sub_text(&chars, 2, chars.len());
                        push_value(&mut st, owned(name), v)?;
                        i = i + 1;
                    } else if i + 1 < args.len() && !looks_like_option_exec(args[i + 1].as_str()) {
                        assert(args@[i as int + 1]@ == a[i as int + 1]);
                        push_value(&mut st, owned(name), args[i + 1].clone())?;
                        i = i + 2;
                    } else {
                        return Err(LexFailure::Invalid);
                    }
                },
            }
        } else if st.command.is_none() {
            if is_command_exec(t) {
                st.command = Some(owned(t));
                i = i + 1;
            } else {
                return Err(LexFailure::Invalid);
            }
        } else {
            push_positional(&mut st, t);
            i = i + 1;
        }
    }
    Ok(st)
}


fn invalid(message: &str) -> (r: CliParseError)
    ensures
        r is Invalid,
{
    CliParseError::Invalid(owned(message))
}

/// Build the command the sorted tokens describe, when they fit it.
fn assemble(st: LexState) -> (r: Result<Cli, CliParseError>)
    ensures
        fits(lex_view(st)) ==> match r {
            Ok(cli) => cli_matches(cli, lex_view(st)),
            Err(_) => false,
        },
        !fits(lex_view(st)) ==> match r {
            Err(e) => e is Invalid,
            Ok(_) => false,
        },
{
    let ghost m = lex_view(st);
    let data = find_value(&st.values, "data");
    let command = match &st.command {
        Some(c) => c.as_str(),
        None => {
            return Err(invalid("a subcommand is required"));
        },
    };
    let count = st.positionals.len();
    if str_eq(command, "create") {
        let quick = has_flag(&st.flags, "quick");
        let from_json = find_value(&st.values, "from-json");
        if count != 0 {
            return Err(invalid("unexpected argument found"));
        }
        if quick && from_json.is_some() {
            return Err(invalid("the argument '--quick' cannot be used with '--from-json <FROM_JSON>'"));
        }
        let draft = match find_value(&st.values, "draft") {
            Some(d) => d,
            None => owned("character-draft.json"),
        };
        let args = CreateArgs {
            template: find_value(&st.values, "template"),
            quick,
            from_json,
            json: find_value(&st.values, "json"),
            output: find_value(&st.values, "output"),
            draft,
            force: has_flag(&st.flags, "force"),
        };
        return Ok(Cli { data, command: Command::Create(args) });
    }
    if str_eq(command, "random") || str_eq(command, "list") {
        if count != 0 {
            return Err(invalid("unexpected argument found"));
        }
        if str_eq(command, "random") {
            let args = RandomArgs {
                class_name: find_value(&st.values, "class"),
                background: find_value(&st.values, "background"),
                species: find_value(&st.values, "species"),
                template: find_value(&st.values, "template"),
                json: find_value(&st.values, "json"),
                output: find_value(&st.values, "output"),
                force: has_flag(&st.flags, "force"),
            };
            return Ok(Cli { data, command: Command::Random(args) });
        }
        return Ok(Cli { data, command: Command::List(ListArgs { directory: find_value(&st.values, "directory") }) });
    }
    if count != 1 {
        return Err(invalid("the following required arguments were not provided, or too many were given"));
    }
    let first = st.positionals[0].clone();
    assert(first@ == m.positionals[0]);
    if str_eq(command, "edit") {
        let output = find_value(&st.values, "output");
        let template = find_value(&st.values, "template");
        if template.is_some() && output.is_none() {
            return Err(invalid("the following required arguments were not provided: --output <OUTPUT>"));
        }
        let args = EditArgs {
            character: CharacterRefArgs { character: first, directory: find_value(&st.values, "directory") },
            output,
            template,
            force: has_flag(&st.flags, "force"),
        };
        return Ok(Cli { data, command: Command::Edit(args) });
    }
    if str_eq(command, "import") {
        let output = find_value(&st.values, "output");
        let directory = find_value(&st.values, "directory");
        if directory.is_some() && output.is_some() {
            return Err(invalid("the argument '--directory <PATH>' cannot be used with '--output <PATH>'"));
        }
        let args = ImportArgs { code: first, output, directory, force: has_flag(&st.flags, "force") };
        return Ok(Cli { data, command: Command::Import(args) });
    }
    if str_eq(command, "render") {
        let args = RenderArgs {
            character: CharacterRefArgs { character: first, directory: find_value(&st.values, "directory") },
            template: find_value(&st.values, "template"),
            output: find_value(&st.values, "output"),
            force: has_flag(&st.flags, "force"),
        };
        return Ok(Cli { data, command: Command::Render(args) });
    }
    if str_eq(command, "validate") {
        return Ok(Cli { data, command: Command::Validate { character_json: first } });
    }
    if str_eq(command, "show") {
        let args = ShowArgs {
            character: CharacterRefArgs { character: first, directory: find_value(&st.values, "directory") },
        };
        return Ok(Cli { data, command: Command::Show(args) });
    }
    if str_eq(command, "export") {
        let args = ExportArgs {
            character: CharacterRefArgs { character: first, directory: find_value(&st.values, "directory") },
        };
        return Ok(Cli { data, command: Command::Export(args) });
    }
    Err(invalid("unrecognized subcommand"))
}

/// Parse a command line; the first argument is the program's name.
///
/// The result is the command the arguments describe, or a request for help or
/// the version, or the reason they do not fit the grammar.
pub fn parse_command_line(args: &Vec<String>) -> (r: Result<Cli, CliParseError>)
    ensures
        match lexed(crate::text::string_views(args@)) {
            Err(LexFailure::Help) => r == Err::<Cli, CliParseError>(CliParseError::Help),
            Err(LexFailure::Version) => r == Err::<Cli, CliParseError>(CliParseError::Version),
            Err(LexFailure::Invalid) => match r {
                Err(e) => e is Invalid,
                Ok(_) => false,
            },
            Ok(m) => if fits(m) {
                match r {
                    Ok(cli) => cli_matches(cli, m),
                    Err(_) => false,
                }
            } else {
                match r {
                    Err(e) => e is Invalid,
                    Ok(_) => false,
                }
            },
        },
{
    match lex_args(args) {
        Ok(st) => assemble(st),
        Err(LexFailure::Help) => Err(CliParseError::Help),
        Err(LexFailure::Version) => Err(CliParseError::Version),
        Err(LexFailure::Invalid) => Err(invalid("the arguments do not fit the command line")),
    }
}

proof fn lemma_strip_leading_first(s: Seq<char>)
    ensures
        strip_leading_dashes(s).len() > 0 ==> strip_leading_dashes(s)[0] != '-',
    decreases s.len(),
{
    if s.len() > 0 && s[0] == '-' {
        lemma_strip_leading_first(s.drop_first());
    }
}

proof fn lemma_strip_trailing_ends(s: Seq<char>)
    ensures
        strip_trailing_dashes(s).len() <= s.len(),
        strip_trailing_dashes(s) == s.subrange(0, strip_trailing_dashes(s).len() as int),
        strip_trailing_dashes(s).len() > 0 ==> strip_trailing_dashes(s).last() != '-',
    decreases s.len(),
{
    if s.len() > 0 && s.last() == '-' {
        lemma_strip_trailing_ends(s.drop_last());
        let t = strip_trailing_dashes(s.drop_last());
        assert(s.drop_last().subrange(0, t.len() as int) =~= s.subrange(0, t.len() as int));
    } else {
        assert(s.subrange(0, s.len() as int) =~= s);
    }
}

/// A default output stem has no hyphen at either end: hyphens that stand for
/// spaces or punctuation at the start or end of a name are dropped.
pub proof fn lemma_output_stem_has_no_edge_hyphens(name: Seq<char>)
    ensures
        output_stem(name).len() > 0,
        output_stem(name)[0] != '-',
        output_stem(name).last() != '-',
{
    let mapped = trim(name).map_values(|c: char| file_char(c));
    let left = strip_leading_dashes(mapped);
    lemma_strip_leading_first(mapped);
    lemma_strip_trailing_ends(left);
    let stem = strip_trailing_dashes(left);
    if stem.len() > 0 {
        assert(stem[0] == left[0]);
    }
    reveal_strlit("character");
}

proof fn lemma_alphanumeric_file_char_is_no_hyphen(c: char)
    requires
        name_alphanumeric(c),
    ensures
        file_char(c) != '-',
{
    if 'A' <= c && c <= 'Z' {
        assert(((c as u32) + 32) as char as u32 == (c as u32) + 32);
    }
}

/// Where the trimmed name begins and ends with a letter or digit, the stem
/// keeps every one of its characters in place: a letter or digit in ASCII
/// lower case, anything else as one `-`.
pub proof fn lemma_output_stem_keeps_every_position(name: Seq<char>)
    requires
        trim(name).len() > 0,
        name_alphanumeric(trim(name)[0]),
        name_alphanumeric(trim(name).last()),
    ensures
        output_stem(name).len() == trim(name).len(),
        forall|i: int|
            0 <= i < trim(name).len() ==> (name_alphanumeric(trim(name)[i]) ==> #[trigger] output_stem(name)[i]
                == lower_char(trim(name)[i])) && (!name_alphanumeric(trim(name)[i]) ==> output_stem(name)[i] == '-'),
{
    let t = trim(name);
    let mapped = t.map_values(|c: char| file_char(c));
    lemma_alphanumeric_file_char_is_no_hyphen(t[0]);
    lemma_alphanumeric_file_char_is_no_hyphen(t.last());
    assert(mapped[0] != '-');
    assert(mapped.last() == file_char(t.last()));
    assert(strip_leading_dashes(mapped) == mapped);
    assert(strip_trailing_dashes(mapped) == mapped);
    assert(output_stem(name) == mapped);
}

#[verifier::rlimit(100)]
#[verifier::spinoff_prover]
proof fn lemma_lex_step_reads_the_rest(a: Seq<Seq<char>>, b: Seq<Seq<char>>, i: int, st: Lexed)
    requires
        0 <= i < a.len(),
        a.len() == b.len(),
        a[i] == b[i],
        i + 1 < a.len() ==> a[i + 1] == b[i + 1],
        forall|s1: Lexed| #[trigger] lex_from(a, i + 1, s1) == lex_from(b, i + 1, s1),
        forall|s2: Lexed| #[trigger] lex_from(a, i + 2, s2) == lex_from(b, i + 2, s2),
    ensures
        lex_from(a, i, st) == lex_from(b, i, st),
{
    let t = a[i];
    assert(a[i] == b[i]);
    if i + 1 < a.len() {
        assert(a[i + 1] == b[i + 1]);
    }
    if st.raw {
        let next = Lexed { positionals: st.positionals.push(t), ..st };
        assert(lex_from(a, i + 1, next) == lex_from(b, i + 1, next));
    } else if t == "--"@ {
        let next = Lexed { raw: true, ..st };
        assert(lex_from(a, i + 1, next) == lex_from(b, i + 1, next));
    } else if t == "--help"@ || t == "-h"@ {
    } else if (t == "--version"@ || t == "-V"@) && st.command is None {
    } else if t.len() > 2 && t[0] == '-' && t[1] == '-' {
        let body = t.subrange(2, t.len() as int);
        let (name, inline) = match equals_at(body) {
            Some(k) => (body.subrange(0, k), Some(body.subrange(k + 1, body.len() as int))),
            None => (body, None::<Seq<char>>),
        };
        match option_kind(st.command, name) {
            None => {},
            Some(true) => match inline {
                Some(v) => {
                    match with_value(st, name, v) {
                        Ok(next) => {
                            assert(lex_from(a, i + 1, next) == lex_from(b, i + 1, next));
                        },
                        Err(_) => {},
                    }
                },
                None => if i + 1 < a.len() && !looks_like_option(a[i + 1]) {
                    match with_value(st, name, a[i + 1]) {
                        Ok(next) => {
                            assert(lex_from(a, i + 2, next) == lex_from(b, i + 2, next));
                        },
                        Err(_) => {},
                    }
                },
            },
            Some(false) => {
                match with_flag(st, name) {
                    Ok(next) => {
                        assert(lex_from(a, i + 1, next) == lex_from(b, i + 1, next));
                    },
                    Err(_) => {},
                }
            },
        }
    } else if t.len() >= 2 && t[0] == '-' {
        match short_option(st.command, t[1]) {
            None => {},
            Some(name) => if t.len() > 2 {
                match with_value(st, name, t.subrange(2, t.len() as int)) {
                    Ok(next) => {
                        assert(lex_from(a, i + 1, next) == lex_from(b, i + 1, next));
                    },
                    Err(_) => {},
                }
            } else if i + 1 < a.len() && !looks_like_option(a[i + 1]) {
                match with_value(st, name, a[i + 1]) {
                    Ok(next) => {
                        assert(lex_from(a, i + 2, next) == lex_from(b, i + 2, next));
                    },
                    Err(_) => {},
                }
            },
        }
    } else if st.command is None {
        let next = Lexed { command: Some(t), ..st };
        assert(lex_from(a, i + 1, next) == lex_from(b, i + 1, next));
    } else {
        let next = Lexed { positionals: st.positionals.push(t), ..st };
        assert(lex_from(a, i + 1, next) == lex_from(b, i + 1, next));
    }
}

/// Lexing from token `i` on reads only the tokens from `i` on.
proof fn lemma_lex_reads_the_rest(a: Seq<Seq<char>>, b: Seq<Seq<char>>, i: int)
    requires
        0 <= i,
        a.len() == b.len(),
        forall|k: int| i <= k < a.len() ==> a[k] == b[k],
    ensures
        forall|st: Lexed| #[trigger] lex_from(a, i, st) == lex_from(b, i, st),
    decreases a.len() - i,
{
    if i < a.len() {
        lemma_lex_reads_the_rest(a, b, i + 1);
        if i + 2 <= a.len() {
            lemma_lex_reads_the_rest(a, b, i + 2);
        }
        assert forall|st: Lexed| #[trigger] lex_from(a, i, st) == lex_from(b, i, st) by {
            if i + 1 < a.len() {
                assert(a[i + 1] == b[i + 1]);
            }
            lemma_lex_step_reads_the_rest(a, b, i, st);
        }
    }
}

/// Where the command has `--output`, `-o <path>` is read exactly as
/// `--output <path>`: replacing the one token by the other changes nothing
/// in how the command line is lexed.
pub proof fn lemma_short_output_is_long_output(args: Seq<Seq<char>>, i: int, st: Lexed)
    requires
        0 <= i < args.len(),
        args[i] == "-o"@,
        !st.raw,
        st.command == Some("create"@) || st.command == Some("random"@) || st.command == Some("render"@),
    ensures
        lex_from(args, i, st) == lex_from(args.update(i, "--output"@), i, st),
{
    let long = args.update(i, "--output"@);
    reveal_strlit("-o");
    reveal_strlit("--output");
    reveal_strlit("output");
    reveal_strlit("--");
    reveal_strlit("--help");
    reveal_strlit("-h");
    reveal_strlit("--version");
    reveal_strlit("-V");
    reveal_strlit("create");
    reveal_strlit("random");
    reveal_strlit("render");
    reveal_strlit("data");
    assert("--output"@.subrange(2, 8) =~= "output"@);
    crate::resolve::lemma_first_where("output"@, |c: char| c == '=', 0);
    assert(equals_at("output"@) is None);
    assert(option_kind(st.command, "output"@) == Some(true));
    assert(short_option(st.command, 'o') == Some("output"@));
    lemma_lex_reads_the_rest(args, long, i + 1);
    if i + 2 <= args.len() {
        lemma_lex_reads_the_rest(args, long, i + 2);
    }
    let t = args[i];
    let u = long[i];
    assert(u == "--output"@);
    assert(t.len() == 2 && t[0] == '-' && t[1] == 'o');
    assert(t != "--"@ && t != "--help"@ && t != "-h"@ && t != "--version"@ && t != "-V"@) by {
        assert(t[1] != "--"@[1]);
        assert(t.len() != "--help"@.len());
        assert(t[1] != "-h"@[1]);
        assert(t.len() != "--version"@.len());
        assert(t[1] != "-V"@[1]);
    }
    assert(u != "--"@ && u != "--help"@ && u != "-h"@ && u != "--version"@ && u != "-V"@) by {
        assert(u.len() != "--"@.len());
        assert(u.len() != "--help"@.len());
        assert(u.len() != "-h"@.len());
        assert(u.len() != "--version"@.len());
        assert(u.len() != "-V"@.len());
    }
    assert(u.subrange(2, u.len() as int) == "output"@);
    let expected = if i + 1 < args.len() && !looks_like_option(args[i + 1]) {
        match with_value(st, "output"@, args[i + 1]) {
            Ok(next) => lex_from(args, i + 2, next),
            Err(f) => Err(f),
        }
    } else {
        Err(LexFailure::Invalid)
    };
    assert(lex_from(args, i, st) == expected);
    if i + 1 < args.len() {
        assert(long[i + 1] == args[i + 1]);
        match with_value(st, "output"@, args[i + 1]) {
            Ok(next) => {
                assert(lex_from(long, i + 2, next) == lex_from(args, i + 2, next));
            },
            Err(_) => {},
        }
    }
    assert(lex_from(long, i, st) == expected);
}

/// A character as a default output name may hold it: a hyphen, an ASCII lower-case
/// letter or digit, or a non-ASCII letter or digit.
pub open spec fn output_name_char(ch: char) -> bool {
    ch == '-' || ('a' <= ch && ch <= 'z') || ('0' <= ch && ch <= '9') || (ch as u32) >= 128
}

proof fn lemma_file_char_is_output_name_char(c: char)
    ensures
        output_name_char(file_char(c)),
{
    if name_alphanumeric(c) && (c as u32) < 128 && 'A' <= c && c <= 'Z' {
        assert(((c as u32) + 32) as char as u32 == (c as u32) + 32);
    }
}

/// A default output stem is written in lower case: every character is a
/// hyphen, an ASCII lower-case letter or digit, or a non-ASCII letter or digit.
pub proof fn lemma_output_stem_is_lower_case(name: Seq<char>)
    ensures
        forall|i: int| 0 <= i < output_stem(name).len() ==> output_name_char(#[trigger] output_stem(name)[i]),
{
    let mapped = trim(name).map_values(|c: char| file_char(c));
    assert forall|k: int| 0 <= k < mapped.len() implies output_name_char(#[trigger] mapped[k]) by {
        lemma_file_char_is_output_name_char(trim(name)[k]);
    }
    let left = strip_leading_dashes(mapped);
    lemma_strip_leading_keeps(mapped);
    lemma_strip_trailing_keeps(left);
    let stem = strip_trailing_dashes(left);
    assert forall|i: int| 0 <= i < stem.len() implies output_name_char(#[trigger] stem[i]) by {
        assert(left.contains(stem[i]));
        let j = choose|j: int| 0 <= j < left.len() && left[j] == stem[i];
        assert(mapped.contains(left[j]));
    }
    reveal_strlit("character");
    if stem.len() == 0 {
        assert forall|i: int| 0 <= i < output_stem(name).len() implies output_name_char(#[trigger] output_stem(name)[i]) by {
            assert('a' <= "character"@[i] && "character"@[i] <= 'z');
        }
    }
}

/// `-o` stands for `--output` only under the commands that have it: anywhere
/// else the token is refused.
pub proof fn lemma_short_output_only_where_offered(args: Seq<Seq<char>>, i: int, st: Lexed)
    requires
        0 <= i < args.len(),
        args[i] == "-o"@,
        !st.raw,
        !(st.command == Some("create"@) || st.command == Some("random"@) || st.command == Some("render"@)),
    ensures
        lex_from(args, i, st) == Err::<Lexed, LexFailure>(LexFailure::Invalid),
{
    reveal_strlit("-o");
    reveal_strlit("--");
    reveal_strlit("--help");
    reveal_strlit("-h");
    reveal_strlit("--version");
    reveal_strlit("-V");
    let t = args[i];
    assert(t.len() == 2 && t[0] == '-' && t[1] == 'o');
    assert(t != "--"@ && t != "--help"@ && t != "-h"@ && t != "--version"@ && t != "-V"@) by {
        assert(t[1] != "--"@[1]);
        assert(t.len() != "--help"@.len());
        assert(t[1] != "-h"@[1]);
        assert(t.len() != "--version"@.len());
        assert(t[1] != "-V"@[1]);
    }
    assert(short_option(st.command, 'o') is None);
}

} // verus!
