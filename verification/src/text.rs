//! Character-level text helpers with exact specifications.
//!
//! Every helper here is specified over the character sequence (`@`) of its
//! arguments, so that rule contracts elsewhere can speak of names, trimming and
//! case folding as plain sequence operations.

use vstd::prelude::*;

verus! {

/// The views of a list of string slices.
pub open spec fn str_views(list: Seq<&str>) -> Seq<Seq<char>> {
    list.map_values(|x: &str| x@)
}

/// The views of a list of owned strings.
pub open spec fn string_views(list: Seq<String>) -> Seq<Seq<char>> {
    list.map_values(|x: String| x@)
}

/// `s` is one of the entries of `list`.
pub open spec fn in_list(list: Seq<&str>, s: Seq<char>) -> bool {
    exists|i: int| 0 <= i < list.len() && #[trigger] list[i]@ == s
}

/// `s` is one of the entries of `list`.
pub open spec fn in_strings(list: Seq<String>, s: Seq<char>) -> bool {
    exists|i: int| 0 <= i < list.len() && #[trigger] list[i]@ == s
}

/// No two entries of `list` hold the same characters.
pub open spec fn distinct_strings(list: Seq<String>) -> bool {
    forall|i: int, j: int|
        0 <= i < list.len() && 0 <= j < list.len() && i != j ==> #[trigger] list[i]@ != #[trigger] list[j]@
}

/// No two entries of `list` are equal.
pub open spec fn distinct_seqs(list: Seq<Seq<char>>) -> bool {
    forall|i: int, j: int|
        0 <= i < list.len() && 0 <= j < list.len() && i != j ==> #[trigger] list[i] != #[trigger] list[j]
}

/// Unicode `White_Space`, the set that `char::is_whitespace` tests.
pub open spec fn is_whitespace(c: char) -> bool {
    let v = c as u32;
    ||| 0x09 <= v <= 0x0d
    ||| v == 0x20
    ||| v == 0x85
    ||| v == 0xa0
    ||| v == 0x1680
    ||| 0x2000 <= v <= 0x200a
    ||| v == 0x2028
    ||| v == 0x2029
    ||| v == 0x202f
    ||| v == 0x205f
    ||| v == 0x3000
}

/// `s` without its leading whitespace.
pub open spec fn trim_start(s: Seq<char>) -> Seq<char>
    decreases s.len(),
{
    if s.len() > 0 && is_whitespace(s[0]) {
        trim_start(s.drop_first())
    } else {
        s
    }
}

/// `s` without its trailing whitespace.
pub open spec fn trim_end(s: Seq<char>) -> Seq<char>
    decreases s.len(),
{
    if s.len() > 0 && is_whitespace(s.last()) {
        trim_end(s.drop_last())
    } else {
        s
    }
}

/// `s` without leading and trailing whitespace, as `str::trim` gives it.
pub open spec fn trim(s: Seq<char>) -> Seq<char> {
    trim_end(trim_start(s))
}

/// `s` holds nothing but whitespace.
pub open spec fn is_blank(s: Seq<char>) -> bool {
    forall|i: int| 0 <= i < s.len() ==> is_whitespace(#[trigger] s[i])
}

/// ASCII lower-casing of one character.
pub open spec fn lower_char(c: char) -> char {
    if 'A' <= c <= 'Z' {
        ((c as u32) + 32) as char
    } else {
        c
    }
}

/// ASCII lower-casing of a whole string, as `str::to_ascii_lowercase` gives it.
pub open spec fn lower(s: Seq<char>) -> Seq<char> {
    s.map_values(|c: char| lower_char(c))
}

/// Equality up to ASCII case, as `str::eq_ignore_ascii_case` decides it.
pub open spec fn eq_ignore_case(a: Seq<char>, b: Seq<char>) -> bool {
    lower(a) == lower(b)
}

/// The key under which rule names are compared for duplicates.
pub open spec fn name_key(s: Seq<char>) -> Seq<char> {
    lower(trim(s))
}

/// The decimal digits of `n`, without sign or leading zeros.
pub open spec fn decimal(n: nat) -> Seq<char>
    decreases n,
{
    if n < 10 {
        seq![digit_char(n)]
    } else {
        decimal(n / 10).push(digit_char(n % 10))
    }
}

/// The ASCII digit for a value below ten.
pub open spec fn digit_char(d: nat) -> char {
    ((d + 48) as u32) as char
}

pub proof fn lemma_trim_start_suffix(s: Seq<char>)
    ensures
        trim_start(s).len() <= s.len(),
        trim_start(s) == s.subrange(s.len() - trim_start(s).len(), s.len() as int),
        forall|i: int| 0 <= i < s.len() - trim_start(s).len() ==> is_whitespace(#[trigger] s[i]),
        trim_start(s).len() > 0 ==> !is_whitespace(trim_start(s)[0]),
    decreases s.len(),
{
    if s.len() > 0 && is_whitespace(s[0]) {
        lemma_trim_start_suffix(s.drop_first());
        assert forall|i: int| 0 <= i < s.len() - trim_start(s).len() implies is_whitespace(#[trigger] s[i]) by {
            if i > 0 {
                assert(s[i] == s.drop_first()[i - 1]);
            }
        }
    } else {
        assert(s == s.subrange(0, s.len() as int));
    }
}

pub proof fn lemma_trim_end_prefix(s: Seq<char>)
    ensures
        trim_end(s).len() <= s.len(),
        trim_end(s) == s.subrange(0, trim_end(s).len() as int),
        forall|i: int| trim_end(s).len() <= i < s.len() ==> is_whitespace(#[trigger] s[i]),
        trim_end(s).len() > 0 ==> !is_whitespace(trim_end(s).last()),
    decreases s.len(),
{
    if s.len() > 0 && is_whitespace(s.last()) {
        lemma_trim_end_prefix(s.drop_last());
        assert forall|i: int| trim_end(s).len() <= i < s.len() implies is_whitespace(#[trigger] s[i]) by {
            if i < s.len() - 1 {
                assert(s[i] == s.drop_last()[i]);
            }
        }
    } else {
        assert(s == s.subrange(0, s.len() as int));
    }
}

/// A trimmed string is empty exactly when the string holds only whitespace.
pub proof fn lemma_trim_empty_iff_blank(s: Seq<char>)
    ensures
        (trim(s).len() == 0) == is_blank(s),
{
    lemma_trim_start_suffix(s);
    lemma_trim_end_prefix(trim_start(s));
    let t = trim_start(s);
    if trim(s).len() == 0 {
        assert forall|i: int| 0 <= i < s.len() implies is_whitespace(#[trigger] s[i]) by {
            let k = s.len() - t.len();
            if i >= k {
                assert(s[i] == t[i - k]);
            }
        }
    } else {
        let k = s.len() - t.len();
        assert(t.len() > 0);
        assert(s[k] == t[0]);
    }
}

/// `String::push`: append one character to a string.
///
/// Trusted: the standard library documents that `push` appends the given
/// character to the end of the string; the contract states exactly that.
#[verifier::external_body]
pub(crate) fn push_char(s: &mut String, c: char)
    ensures
        final(s)@ == old(s)@.push(c),
{
    s.push(c)
}

/// The characters of a string slice, in order.
pub fn chars_of(s: &str) -> (r: Vec<char>)
    ensures
        r@ == s@,
{
    let mut out: Vec<char> = Vec::new();
    let n = s.unicode_len();
    let mut i: usize = 0;
    while i < n
        invariant
            n == s@.len(),
            i <= n,
            out@ == s@.subrange(0, i as int),
        decreases n - i,
    {
        out.push(s.get_char(i));
        i = i + 1;
    }
    out
}

/// A string holding exactly the given characters.
pub fn string_of(chars: &Vec<char>) -> (r: String)
    ensures
        r@ == chars@,
{
    let mut out = String::new();
    let mut i: usize = 0;
    while i < chars.len()
        invariant
            i <= chars.len(),
            out@ == chars@.subrange(0, i as int),
        decreases chars.len() - i,
    {
        push_char(&mut out, chars[i]);
        i = i + 1;
    }
    out
}

/// An owned copy of a string slice.
pub fn owned(s: &str) -> (r: String)
    ensures
        r@ == s@,
{
    s.to_owned()
}

/// The concatenation of two strings.
pub fn join2(a: &str, b: &str) -> (r: String)
    ensures
        r@ == a@ + b@,
{
    let mut out = a.to_owned();
    out.append(b);
    out
}

/// The concatenation of three strings.
pub fn join3(a: &str, b: &str, c: &str) -> (r: String)
    ensures
        r@ == a@ + b@ + c@,
{
    let mut out = a.to_owned();
    out.append(b);
    out.append(c);
    out
}

/// The concatenation of four strings.
pub fn join4(a: &str, b: &str, c: &str, d: &str) -> (r: String)
    ensures
        r@ == a@ + b@ + c@ + d@,
{
    let mut out = a.to_owned();
    out.append(b);
    out.append(c);
    out.append(d);
    out
}

/// True when `a` and `b` hold the same characters.
pub fn str_eq(a: &str, b: &str) -> (r: bool)
    ensures
        r == (a@ == b@),
{
    let x = a.to_owned();
    let y = b.to_owned();
    x == y
}

/// ASCII lower-casing of one character.
pub fn lower_char_exec(c: char) -> (r: char)
    ensures
        r == lower_char(c),
{
    if 'A' <= c && c <= 'Z' {
        let r = ((c as u8) + 32) as char;
        assert(r == lower_char(c)) by {
            assert((c as u8) as u32 == c as u32);
        }
        r
    } else {
        c
    }
}

/// ASCII lower-casing of a whole string.
pub fn to_lower(s: &str) -> (r: String)
    ensures
        r@ == lower(s@),
{
    let chars = chars_of(s);
    let mut out: Vec<char> = Vec::new();
    let mut i: usize = 0;
    while i < chars.len()
        invariant
            chars@ == s@,
            i <= chars.len(),
            out@ == lower(s@).subrange(0, i as int),
        decreases chars.len() - i,
    {
        out.push(lower_char_exec(chars[i]));
        i = i + 1;
    }
    string_of(&out)
}

/// Equality up to ASCII case.
pub fn eq_ignore_case_exec(a: &str, b: &str) -> (r: bool)
    ensures
        r == eq_ignore_case(a@, b@),
{
    let x = to_lower(a);
    let y = to_lower(b);
    x == y
}

/// Unicode `White_Space`, as `char::is_whitespace` decides it.
pub fn is_whitespace_exec(c: char) -> (r: bool)
    ensures
        r == is_whitespace(c),
{
    let v = c as u32;
    (0x09 <= v && v <= 0x0d) || v == 0x20 || v == 0x85 || v == 0xa0 || v == 0x1680 || (0x2000 <= v
        && v <= 0x200a) || v == 0x2028 || v == 0x2029 || v == 0x202f || v == 0x205f || v == 0x3000
}

/// True when the string holds only whitespace (so that trimming empties it).
pub fn is_blank_exec(s: &str) -> (r: bool)
    ensures
        r == is_blank(s@),
        r == (trim(s@).len() == 0),
{
    proof {
        lemma_trim_empty_iff_blank(s@);
    }
    let chars = chars_of(s);
    let mut i: usize = 0;
    while i < chars.len()
        invariant
            chars@ == s@,
            i <= chars.len(),
            (trim(s@).len() == 0) == is_blank(s@),
            forall|j: int| 0 <= j < i ==> is_whitespace(#[trigger] s@[j]),
        decreases chars.len() - i,
    {
        if !is_whitespace_exec(chars[i]) {
            assert(!is_whitespace(s@[i as int]));
            return false;
        }
        i = i + 1;
    }
    true
}

/// The string without leading and trailing whitespace.
pub fn trim_exec(s: &str) -> (r: String)
    ensures
        r@ == trim(s@),
{
    proof {
        lemma_trim_start_suffix(s@);
        lemma_trim_end_prefix(trim_start(s@));
    }
    let chars = chars_of(s);
    let n = chars.len();
    let mut start: usize = 0;
    assert(s@.subrange(0, n as int) == s@);
    while start < n && is_whitespace_exec(chars[start])
        invariant
            chars@ == s@,
            n == chars.len(),
            start <= n,
            trim_start(s@) == trim_start(s@.subrange(start as int, n as int)),
        decreases n - start,
    {
        assert(s@.subrange(start as int + 1, n as int) == s@.subrange(start as int, n as int).drop_first());
        start = start + 1;
    }
    assert(trim_start(s@) == s@.subrange(start as int, n as int));
    let mut end: usize = n;
    while end > start && is_whitespace_exec(chars[end - 1])
        invariant
            chars@ == s@,
            n == chars.len(),
            start <= end <= n,
            trim(s@) == trim_end(s@.subrange(start as int, end as int)),
        decreases end,
    {
        assert(s@.subrange(start as int, end - 1) == s@.subrange(start as int, end as int).drop_last());
        end = end - 1;
    }
    assert(trim(s@) == s@.subrange(start as int, end as int));
    let mut out: Vec<char> = Vec::new();
    let mut i: usize = start;
    while i < end
        invariant
            chars@ == s@,
            n == chars.len(),
            start <= i <= end <= n,
            out@ == s@.subrange(start as int, i as int),
        decreases end - i,
    {
        out.push(chars[i]);
        i = i + 1;
    }
    string_of(&out)
}

/// The key under which rule names are compared for duplicates.
pub fn name_key_exec(s: &str) -> (r: String)
    ensures
        r@ == name_key(s@),
{
    let t = trim_exec(s);
    to_lower(t.as_str())
}

/// True when `list` holds `s`.
pub fn list_contains(list: &[&str], s: &str) -> (r: bool)
    ensures
        r == in_list(list@, s@),
{
    let mut i: usize = 0;
    while i < list.len()
        invariant
            i <= list.len(),
            forall|j: int| 0 <= j < i ==> list@[j]@ != s@,
        decreases list.len() - i,
    {
        if str_eq(list[i], s) {
            return true;
        }
        i = i + 1;
    }
    false
}

/// True when `list` holds `s`.
pub fn strings_contain(list: &Vec<String>, s: &str) -> (r: bool)
    ensures
        r == in_strings(list@, s@),
{
    let mut i: usize = 0;
    while i < list.len()
        invariant
            i <= list.len(),
            forall|j: int| 0 <= j < i ==> list@[j]@ != s@,
        decreases list.len() - i,
    {
        if str_eq(list[i].as_str(), s) {
            return true;
        }
        i = i + 1;
    }
    false
}

/// True when no two entries of `list` hold the same characters.
pub fn strings_distinct(list: &Vec<String>) -> (r: bool)
    ensures
        r == distinct_strings(list@),
{
    let mut i: usize = 0;
    while i < list.len()
        invariant
            i <= list.len(),
            forall|a: int, b: int|
                0 <= a < i && 0 <= b < list.len() && a != b ==> #[trigger] list@[a]@ != #[trigger] list@[b]@,
        decreases list.len() - i,
    {
        let mut j: usize = 0;
        while j < list.len()
            invariant
                i < list.len(),
                j <= list.len(),
                forall|a: int, b: int|
                    0 <= a < i && 0 <= b < list.len() && a != b ==> #[trigger] list@[a]@ != #[trigger] list@[b]@,
                forall|b: int| 0 <= b < j && b != i ==> list@[i as int]@ != #[trigger] list@[b]@,
            decreases list.len() - j,
        {
            if j != i && list[i] == list[j] {
                return false;
            }
            j = j + 1;
        }
        i = i + 1;
    }
    true
}

/// Every entry of `items` is one of `list`.
pub open spec fn all_listed(items: Seq<String>, list: Seq<&str>) -> bool {
    forall|i: int| 0 <= i < items.len() ==> in_list(list, #[trigger] items[i]@)
}

/// Every entry of `items` is one of `others`.
pub open spec fn all_among(items: Seq<String>, others: Seq<Seq<char>>) -> bool {
    forall|i: int| 0 <= i < items.len() ==> others.contains(#[trigger] items[i]@)
}

/// No entry of `items` is one of `others`.
pub open spec fn none_among(items: Seq<String>, others: Seq<Seq<char>>) -> bool {
    forall|i: int| 0 <= i < items.len() ==> !others.contains(#[trigger] items[i]@)
}

/// An optional value, when present, is one of `list`.
pub open spec fn opt_listed(o: Option<String>, list: Seq<&str>) -> bool {
    match o {
        Some(v) => in_list(list, v@),
        None => true,
    }
}

/// The view of an optional string.
pub open spec fn opt_view(o: Option<String>) -> Option<Seq<char>> {
    match o {
        Some(v) => Some(v@),
        None => None,
    }
}

/// The one-element list of a present value, or nothing.
pub open spec fn opt_seq(o: Option<String>) -> Seq<Seq<char>> {
    match o {
        Some(v) => seq![v@],
        None => seq![],
    }
}

pub proof fn lemma_in_strings_views(list: Seq<String>, s: Seq<char>)
    ensures
        in_strings(list, s) == string_views(list).contains(s),
{
    if in_strings(list, s) {
        let i = choose|i: int| 0 <= i < list.len() && #[trigger] list[i]@ == s;
        assert(string_views(list)[i] == s);
    }
    if string_views(list).contains(s) {
        let i = choose|i: int| 0 <= i < string_views(list).len() && string_views(list)[i] == s;
        assert(list[i]@ == s);
    }
}

/// Whether every entry of `items` is one of `list`.
pub fn all_listed_exec(items: &Vec<String>, list: &[&str]) -> (r: bool)
    ensures
        r == all_listed(items@, list@),
{
    let mut i: usize = 0;
    while i < items.len()
        invariant
            i <= items.len(),
            forall|k: int| 0 <= k < i ==> in_list(list@, #[trigger] items@[k]@),
        decreases items.len() - i,
    {
        if !list_contains(list, items[i].as_str()) {
            return false;
        }
        i = i + 1;
    }
    true
}

/// Whether the views of `list` contain `s`.
pub fn views_contain(list: &Vec<String>, s: &str) -> (r: bool)
    ensures
        r == string_views(list@).contains(s@),
{
    proof {
        lemma_in_strings_views(list@, s@);
    }
    strings_contain(list, s)
}

/// Whether every entry of `items` is one of `others`.
pub fn all_among_exec(items: &Vec<String>, others: &Vec<String>) -> (r: bool)
    ensures
        r == all_among(items@, string_views(others@)),
{
    let mut i: usize = 0;
    while i < items.len()
        invariant
            i <= items.len(),
            forall|k: int| 0 <= k < i ==> string_views(others@).contains(#[trigger] items@[k]@),
        decreases items.len() - i,
    {
        if !views_contain(others, items[i].as_str()) {
            return false;
        }
        i = i + 1;
    }
    true
}

/// Whether no entry of `items` is one of `others`.
pub fn none_among_exec(items: &Vec<String>, others: &Vec<String>) -> (r: bool)
    ensures
        r == none_among(items@, string_views(others@)),
{
    let mut i: usize = 0;
    while i < items.len()
        invariant
            i <= items.len(),
            forall|k: int| 0 <= k < i ==> !string_views(others@).contains(#[trigger] items@[k]@),
        decreases items.len() - i,
    {
        if views_contain(others, items[i].as_str()) {
            return false;
        }
        i = i + 1;
    }
    true
}

/// Whether an optional value, when present, is one of `list`.
pub fn opt_listed_exec(o: &Option<String>, list: &[&str]) -> (r: bool)
    ensures
        r == opt_listed(*o, list@),
{
    match o {
        Some(v) => list_contains(list, v.as_str()),
        None => true,
    }
}

/// Append an optional value to a list of strings.
pub fn push_opt(list: &mut Vec<String>, o: &Option<String>)
    ensures
        string_views(final(list)@) == string_views(old(list)@) + opt_seq(*o),
{
    match o {
        Some(v) => {
            list.push(v.clone());
        },
        None => {},
    }
    assert(string_views(list@) =~= string_views(old(list)@) + opt_seq(*o));
}

/// Append copies of every entry of `items` to a list of strings.
pub fn push_all(list: &mut Vec<String>, items: &Vec<String>)
    ensures
        string_views(final(list)@) == string_views(old(list)@) + string_views(items@),
{
    let ghost start = list@;
    let mut i: usize = 0;
    while i < items.len()
        invariant
            i <= items.len(),
            string_views(list@) == string_views(start) + string_views(items@.subrange(0, i as int)),
        decreases items.len() - i,
    {
        let ghost before = list@;
        list.push(items[i].clone());
        assert(string_views(list@) =~= string_views(before).push(items@[i as int]@));
        assert(string_views(items@.subrange(0, i as int + 1)) =~= string_views(items@.subrange(0, i as int)).push(items@[i as int]@));
        assert(string_views(list@) =~= string_views(start) + string_views(items@.subrange(0, i as int + 1)));
        i = i + 1;
    }
    assert(items@.subrange(0, items.len() as int) =~= items@);
}

/// Every character of the string is an ASCII capital letter.
pub open spec fn all_ascii_upper(s: Seq<char>) -> bool {
    forall|k: int| 0 <= k < s.len() ==> 'A' <= #[trigger] s[k] <= 'Z'
}

/// Whether every character of the string is an ASCII capital letter.
pub fn all_ascii_upper_exec(s: &str) -> (r: bool)
    ensures
        r == all_ascii_upper(s@),
{
    let chars = chars_of(s);
    let mut i: usize = 0;
    while i < chars.len()
        invariant
            chars@ == s@,
            i <= chars.len(),
            forall|k: int| 0 <= k < i ==> 'A' <= #[trigger] s@[k] <= 'Z',
        decreases chars.len() - i,
    {
        if !('A' <= chars[i] && chars[i] <= 'Z') {
            return false;
        }
        i = i + 1;
    }
    true
}

/// Owned copies of string slices.
pub fn strs_to_strings(list: &[&str]) -> (r: Vec<String>)
    ensures
        string_views(r@) == str_views(list@),
{
    let mut out: Vec<String> = Vec::new();
    let mut i: usize = 0;
    while i < list.len()
        invariant
            i <= list.len(),
            string_views(out@) == str_views(list@.subrange(0, i as int)),
        decreases list.len() - i,
    {
        let ghost before = out@;
        out.push(owned(list[i]));
        assert(string_views(out@) =~= string_views(before).push(list@[i as int]@));
        assert(str_views(list@.subrange(0, i as int + 1)) =~= str_views(list@.subrange(0, i as int)).push(list@[i as int]@));
        i = i + 1;
    }
    assert(list@.subrange(0, list@.len() as int) =~= list@);
    out
}

/// A copy of a list of strings.
pub fn clone_strings(v: &Vec<String>) -> (r: Vec<String>)
    ensures
        r@ == v@,
{
    let mut out: Vec<String> = Vec::new();
    let mut i: usize = 0;
    while i < v.len()
        invariant
            i <= v.len(),
            out@ == v@.subrange(0, i as int),
        decreases v.len() - i,
    {
        out.push(v[i].clone());
        i = i + 1;
    }
    out
}

/// A copy of an optional string.
pub fn clone_opt_string(v: &Option<String>) -> (r: Option<String>)
    ensures
        r == *v,
{
    match v {
        Some(s) => Some(s.clone()),
        None => None,
    }
}

/// The digit character for a value below ten.
fn digit_exec(d: u64) -> (r: char)
    requires
        d < 10,
    ensures
        r == digit_char(d as nat),
{
    let r = ((d as u8) + 48) as char;
    assert(r == digit_char(d as nat)) by {
        assert(((d as u8) + 48) as u8 as u32 == (d + 48) as u32);
    }
    r
}

/// The decimal representation of `n`.
pub fn decimal_exec(n: u64) -> (r: String)
    ensures
        r@ == decimal(n as nat),
    decreases n,
{
    if n < 10 {
        let mut out = String::new();
        push_char(&mut out, digit_exec(n));
        assert(out@ == seq![digit_char(n as nat)]);
        out
    } else {
        let mut out = decimal_exec(n / 10);
        push_char(&mut out, digit_exec(n % 10));
        out
    }
}

} // verus!
