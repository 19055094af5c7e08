//! The rules for the output filenames that the user reviews before protecting or
//! restoring, and the names derived from them.
use vstd::prelude::*;
use vstd::string::*;

verus! {

/// The Unicode `White_Space` property, which `char::is_whitespace` tests and `str::trim`
/// removes: tab, line feed, vertical tab, form feed, carriage return, space, next line,
/// no-break space, ogham space mark, the spaces U+2000 to U+200A, line separator,
/// paragraph separator, narrow no-break space, medium mathematical space and
/// ideographic space.
pub open spec fn unicode_white_space(c: char) -> bool {
    let v = c as u32;
    ||| 0x09 <= v <= 0x0D
    ||| v == 0x20
    ||| v == 0x85
    ||| v == 0xA0
    ||| v == 0x1680
    ||| 0x2000 <= v <= 0x200A
    ||| v == 0x2028
    ||| v == 0x2029
    ||| v == 0x202F
    ||| v == 0x205F
    ||| v == 0x3000
}

/// Whether `c` has the Unicode `White_Space` property.
pub fn char_is_whitespace(c: char) -> (r: bool)
    ensures
        r == unicode_white_space(c),
{
    let v = c as u32;
    (0x09 <= v && v <= 0x0D) || v == 0x20 || v == 0x85 || v == 0xA0 || v == 0x1680 || (0x2000
        <= v && v <= 0x200A) || v == 0x2028 || v == 0x2029 || v == 0x202F || v == 0x205F || v
        == 0x3000
}

/// `s` without its leading Unicode white space.
pub open spec fn trim_start(s: Seq<char>) -> Seq<char>
    decreases s.len(),
{
    if s.len() > 0 && unicode_white_space(s[0]) {
        trim_start(s.drop_first())
    } else {
        s
    }
}

/// `s` without its trailing Unicode white space.
pub open spec fn trim_end(s: Seq<char>) -> Seq<char>
    decreases s.len(),
{
    if s.len() > 0 && unicode_white_space(s.last()) {
        trim_end(s.drop_last())
    } else {
        s
    }
}

/// `s` without leading and trailing Unicode white space, as `str::trim` gives it.
pub open spec fn trimmed(s: Seq<char>) -> Seq<char> {
    trim_end(trim_start(s))
}

/// ASCII lowercase of one character; every other character is kept.
pub open spec fn ascii_lower(c: char) -> char {
    if 'A' <= c <= 'Z' {
        (((c as u8) + 32) as u8) as char
    } else {
        c
    }
}

/// `s` ends with `suffix`.
pub open spec fn ends_with(s: Seq<char>, suffix: Seq<char>) -> bool {
    suffix.len() <= s.len() && s.subrange(s.len() - suffix.len(), s.len() as int) == suffix
}

/// `s` ends with `suffix` once ASCII letters of `s` are lowercased.
pub open spec fn ends_with_ascii_lowercase(s: Seq<char>, suffix: Seq<char>) -> bool {
    suffix.len() <= s.len() && forall|i: int|
        0 <= i < suffix.len() ==> #[trigger] ascii_lower(s[s.len() - suffix.len() + i]) == suffix[i]
}

/// The output-name rule: the trimmed name is not empty, `.` or `..`, holds no `/`, `\`
/// or NUL, and, when an extension is required, ends in `.` and that extension (ASCII
/// case ignored).
pub open spec fn spec_valid_output_name(name: Seq<char>, extension: Seq<char>) -> bool {
    let t = trimmed(name);
    &&& t.len() > 0
    &&& t != seq!['.']
    &&& t != seq!['.', '.']
    &&& !t.contains('/')
    &&& !t.contains('\\')
    &&& !t.contains('\0')
    &&& (extension.len() == 0 || ends_with_ascii_lowercase(t, seq!['.'] + extension))
}

/// `name` without the suffix `suffix` when it ends with it.
pub open spec fn spec_strip_suffix(name: Seq<char>, suffix: Seq<char>) -> Option<Seq<char>> {
    if ends_with(name, suffix) {
        Some(name.subrange(0, name.len() - suffix.len()))
    } else {
        None
    }
}

/// The key file name planned beside a container name: the container name without a
/// final `.coffer`, followed by `.cofferkey`.
pub open spec fn spec_key_file_name(container_name: Seq<char>) -> Seq<char> {
    match spec_strip_suffix(container_name, ".coffer"@) {
        Some(stem) => stem + ".cofferkey"@,
        None => container_name + ".cofferkey"@,
    }
}

/// `name` without `suffix` when it ends with it.
pub fn strip_suffix(name: &str, suffix: &str) -> (r: Option<String>)
    ensures
        match r {
            Some(s) => spec_strip_suffix(name@, suffix@) == Some(s@),
            None => spec_strip_suffix(name@, suffix@) is None,
        },
{
    let n = name.unicode_len();
    let k = suffix.unicode_len();
    if k > n {
        return None;
    }
    let mut i: usize = 0;
    while i < k
        invariant
            n == name@.len(),
            k == suffix@.len(),
            k <= n,
            0 <= i <= k,
            forall|j: int| 0 <= j < i ==> name@[n - k + j] == suffix@[j],
        decreases k - i,
    {
        if name.get_char(n - k + i) != suffix.get_char(i) {
            assert(name@.subrange(n - k, n as int)[i as int] != suffix@[i as int]);
            return None;
        }
        i += 1;
    }
    assert(name@.subrange(n - k, n as int) =~= suffix@);
    Some(String::from_str(name.substring_char(0, n - k)))
}

/// The key file name planned beside a container name: `notes.coffer` gives
/// `notes.cofferkey`, and a name without `.coffer` gets `.cofferkey` appended.
pub fn key_file_name(container_name: &str) -> (r: String)
    ensures
        r@ == spec_key_file_name(container_name@),
{
    let mut stem = match strip_suffix(container_name, ".coffer") {
        Some(s) => s,
        None => String::from_str(container_name),
    };
    stem.append(".cofferkey");
    stem
}

/// The index of the first character of `name` that is not white space.
fn first_kept(name: &str, n: usize) -> (r: usize)
    requires
        n == name@.len(),
    ensures
        r <= n,
        trim_start(name@) == name@.subrange(r as int, n as int),
        r < n ==> !unicode_white_space(name@[r as int]),
{
    let mut i: usize = 0;
    assert(name@.subrange(0, n as int) =~= name@);
    while i < n && char_is_whitespace(name.get_char(i))
        invariant
            n == name@.len(),
            0 <= i <= n,
            trim_start(name@) == trim_start(name@.subrange(i as int, n as int)),
        decreases n - i,
    {
        assert(name@.subrange(i as int, n as int).drop_first() =~= name@.subrange(
            i + 1,
            n as int,
        ));
        i += 1;
    }
    proof {
        let rest = name@.subrange(i as int, n as int);
        if i < n {
            assert(rest[0] == name@[i as int]);
        }
    }
    i
}

/// `name` trimmed of Unicode white space at both ends.
pub fn trim(name: &str) -> (r: String)
    ensures
        r@ == trimmed(name@),
{
    let n = name.unicode_len();
    let start = first_kept(name, n);
    let mut end: usize = n;
    let ghost t = name@.subrange(start as int, n as int);
    assert(t.subrange(0, (n - start) as int) =~= t);
    while end > start && char_is_whitespace(name.get_char(end - 1))
        invariant
            n == name@.len(),
            start <= end <= n,
            t == name@.subrange(start as int, n as int),
            trim_end(t) == trim_end(name@.subrange(start as int, end as int)),
        decreases end,
    {
        let ghost cur = name@.subrange(start as int, end as int);
        assert(cur.last() == name@[end - 1]);
        assert(cur.drop_last() =~= name@.subrange(start as int, end - 1));
        end -= 1;
    }
    proof {
        let cur = name@.subrange(start as int, end as int);
        if end > start {
            assert(cur.last() == name@[end - 1]);
        }
    }
    String::from_str(name.substring_char(start, end))
}

/// Whether `name` is acceptable as a reviewed output name, with the required extension
/// (`""` for none). See [`spec_valid_output_name`].
pub fn valid_output_name(name: &str, required_extension: &str) -> (r: bool)
    ensures
        r == spec_valid_output_name(name@, required_extension@),
{
    let trimmed_name = trim(name);
    let t = trimmed_name.as_str();
    let n = t.unicode_len();
    proof {
        reveal_strlit(".");
    }
    if n == 0 {
        return false;
    }
    if n == 1 && t.get_char(0) == '.' {
        assert(t@ =~= seq!['.']);
        return false;
    }
    if n == 2 && t.get_char(0) == '.' && t.get_char(1) == '.' {
        assert(t@ =~= seq!['.', '.']);
        return false;
    }
    let mut i: usize = 0;
    while i < n
        invariant
            n == t@.len(),
            t@ == trimmed(name@),
            0 <= i <= n,
            forall|j: int| 0 <= j < i ==> t@[j] != '/' && t@[j] != '\\' && t@[j] != '\0',
        decreases n - i,
    {
        let c = t.get_char(i);
        if c == '/' || c == '\\' || c == '\0' {
            assert(t@[i as int] == c);
            return false;
        }
        i += 1;
    }
    assert(!t@.contains('/') && !t@.contains('\\') && !t@.contains('\0'));
    proof {
        if t@ == seq!['.'] {
            assert(t@[0] == '.');
        }
        if t@ == seq!['.', '.'] {
            assert(t@[0] == '.' && t@[1] == '.');
        }
    }
    let k = required_extension.unicode_len();
    if k == 0 {
        return true;
    }
    if k >= n {
        return false;
    }
    let ghost suffix = seq!['.'] + required_extension@;
    if ascii_lowercase_char(t.get_char(n - k - 1)) != '.' {
        assert(suffix[0] == '.');
        assert(ascii_lower(t@[t@.len() - suffix.len() + 0]) != suffix[0]);
        return false;
    }
    let mut j: usize = 0;
    while j < k
        invariant
            n == t@.len(),
            t@ == trimmed(name@),
            !t@.contains('/') && !t@.contains('\\') && !t@.contains('\0'),
            t@ != seq!['.'],
            t@ != seq!['.', '.'],
            n > 0,
            k == required_extension@.len(),
            k + 1 <= n,
            suffix == seq!['.'] + required_extension@,
            ascii_lower(t@[n - k - 1]) == '.',
            0 <= j <= k,
            forall|m: int| 0 <= m < j ==> ascii_lower(t@[n - k + m]) == required_extension@[m],
        decreases k - j,
    {
        if ascii_lowercase_char(t.get_char(n - k + j)) != required_extension.get_char(j) {
            assert(suffix[j + 1] == required_extension@[j as int]);
            assert(ascii_lower(t@[(n - suffix.len() + (j + 1)) as int]) != suffix[j + 1]);
            return false;
        }
        j += 1;
    }
    assert forall|m: int| 0 <= m < suffix.len() implies #[trigger] ascii_lower(
        t@[t@.len() - suffix.len() + m],
    ) == suffix[m] by {
        if m > 0 {
            assert(suffix[m] == required_extension@[m - 1]);
        }
    }
    true
}

/// ASCII lowercase of one character.
fn ascii_lowercase_char(c: char) -> (r: char)
    ensures
        r == ascii_lower(c),
{
    if 'A' <= c && c <= 'Z' {
        ((c as u8) + 32) as char
    } else {
        c
    }
}

/// Whether `name` ends with `suffix` once its ASCII letters are lowercased (the hint
/// shown while a container name does not end in `.coffer`).
pub fn ends_with_ignoring_ascii_case(name: &str, suffix: &str) -> (r: bool)
    ensures
        r == ends_with_ascii_lowercase(name@, suffix@),
{
    let n = name.unicode_len();
    let k = suffix.unicode_len();
    if k > n {
        return false;
    }
    let mut i: usize = 0;
    while i < k
        invariant
            n == name@.len(),
            k == suffix@.len(),
            k <= n,
            0 <= i <= k,
            forall|j: int| 0 <= j < i ==> ascii_lower(name@[n - k + j]) == suffix@[j],
        decreases k - i,
    {
        if ascii_lowercase_char(name.get_char(n - k + i)) != suffix.get_char(i) {
            assert(ascii_lower(name@[name@.len() - suffix@.len() + i]) != suffix@[i as int]);
            return false;
        }
        i += 1;
    }
    true
}

/// Law: an output name is accepted whenever, once trimmed of white space at both ends,
/// it is not empty, `.` or `..`, holds no `/`, `\\` or NUL, and (when an extension is
/// required) ends in `.` and that extension with ASCII letters compared case-blind; no
/// other character, inner spaces included, is refused.
pub proof fn law_output_names_accepted(name: Seq<char>, extension: Seq<char>)
    requires
        trimmed(name).len() > 0,
        trimmed(name) != seq!['.'],
        trimmed(name) != seq!['.', '.'],
        forall|i: int|
            0 <= i < trimmed(name).len() ==> trimmed(name)[i] != '/' && trimmed(name)[i] != '\\'
                && trimmed(name)[i] != '\0',
        extension.len() == 0 || (extension.len() + 1 <= trimmed(name).len() && trimmed(name)[trimmed(
            name,
        ).len() - extension.len() - 1] == '.' && forall|i: int|
            0 <= i < extension.len() ==> ascii_lower(
                trimmed(name)[trimmed(name).len() - extension.len() + i],
            ) == extension[i]),
    ensures
        spec_valid_output_name(name, extension),
{
    let t = trimmed(name);
    if extension.len() > 0 {
        let suffix = seq!['.'] + extension;
        assert forall|i: int| 0 <= i < suffix.len() implies #[trigger] ascii_lower(
            t[t.len() - suffix.len() + i],
        ) == suffix[i] by {
            if i > 0 {
                assert(suffix[i] == extension[i - 1]);
                assert(t.len() - suffix.len() + i == t.len() - extension.len() + (i - 1));
            } else {
                assert(t[t.len() - suffix.len()] == '.');
            }
        }
    }
}

/// Trimming the start keeps an end of the text.
proof fn lemma_trim_start_is_suffix(s: Seq<char>)
    ensures
        trim_start(s).len() <= s.len(),
        trim_start(s) == s.subrange(s.len() - trim_start(s).len(), s.len() as int),
    decreases s.len(),
{
    if s.len() > 0 && unicode_white_space(s[0]) {
        lemma_trim_start_is_suffix(s.drop_first());
        assert(s.drop_first().subrange(
            s.drop_first().len() - trim_start(s.drop_first()).len(),
            s.drop_first().len() as int,
        ) =~= s.subrange(s.len() - trim_start(s).len(), s.len() as int));
    } else {
        assert(s.subrange(0, s.len() as int) =~= s);
    }
}

/// Trimming the start of a text followed by `x`, which does not begin with white space,
/// trims only the text.
proof fn lemma_trim_start_append(s: Seq<char>, x: Seq<char>)
    requires
        x.len() > 0,
        !unicode_white_space(x[0]),
    ensures
        trim_start(s + x) == trim_start(s) + x,
    decreases s.len(),
{
    if s.len() == 0 {
        assert(s + x =~= x);
        assert(trim_start(s) + x =~= x);
    } else {
        assert((s + x)[0] == s[0]);
        if unicode_white_space(s[0]) {
            assert((s + x).drop_first() =~= s.drop_first() + x);
            lemma_trim_start_append(s.drop_first(), x);
        }
    }
}

/// Law: the container name proposed for a source file (its name followed by `.coffer`)
/// is accepted by the output-name rule for every source name without `/`, `\\` or NUL.
pub proof fn law_proposed_container_name_is_accepted(stem: Seq<char>)
    requires
        forall|i: int| 0 <= i < stem.len() ==> stem[i] != '/' && stem[i] != '\\' && stem[i] != '\0',
    ensures
        spec_valid_output_name(stem + ".coffer"@, "coffer"@),
{
    reveal_strlit(".coffer");
    reveal_strlit("coffer");
    let x = ".coffer"@;
    assert(!unicode_white_space(x[0]));
    lemma_trim_start_append(stem, x);
    let u = trim_start(stem) + x;
    assert(u.len() > 0 && u.last() == 'r');
    assert(trim_end(u) == u);
    assert(trimmed(stem + x) == u);
    lemma_trim_start_is_suffix(stem);
    let k = stem.len() - trim_start(stem).len();
    assert forall|i: int| 0 <= i < u.len() implies u[i] != '/' && u[i] != '\\' && u[i] != '\0' by {
        if i < trim_start(stem).len() {
            assert(u[i] == trim_start(stem)[i]);
            assert(trim_start(stem)[i] == stem[k + i]);
        } else {
            assert(u[i] == x[i - trim_start(stem).len()]);
        }
    }
    assert(u.len() >= 7);
    law_output_names_accepted(stem + x, "coffer"@);
}

} // verus!
