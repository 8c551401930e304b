//! Turning a page title into a file name that every common file system accepts.
use vstd::prelude::*;
use vstd::utf8::*;

use crate::text::push_char;

verus! {

broadcast use vstd::utf8::char_is_scalar;

/// Longest file name, in UTF-8 bytes, that a report may get.
pub const MAX_FILE_NAME_BYTES: usize = 255;

// ---------------------------------------------------------------------------
// Specification
// ---------------------------------------------------------------------------

/// Characters that Windows refuses in file names.
pub open spec fn is_forbidden_char(c: char) -> bool {
    c == '<' || c == '>' || c == ':' || c == '"' || c == '/' || c == '\\' || c == '|' || c == '?'
        || c == '*'
}

/// What one character of a title becomes in a file name: forbidden characters
/// become `-`, control characters (below U+0020) become `_`.
pub open spec fn replaced_char(c: char) -> char {
    if is_forbidden_char(c) {
        '-'
    } else if (c as u32) < 0x20 {
        '_'
    } else {
        c
    }
}

/// The title with every character replaced as `replaced_char` says.
pub open spec fn replace_chars(s: Seq<char>) -> Seq<char> {
    s.map_values(|c: char| replaced_char(c))
}

/// Whether `c` is removed from the end of a file name.
pub open spec fn is_trailing_trim_char(c: char) -> bool {
    c == '.' || c == ' '
}

/// `s` without its trailing dots and spaces.
pub open spec fn trim_end_dots_spaces(s: Seq<char>) -> Seq<char>
    decreases s.len(),
{
    if s.len() > 0 && is_trailing_trim_char(s.last()) {
        trim_end_dots_spaces(s.drop_last())
    } else {
        s
    }
}

/// The title after replacement and trimming; `untitled` when nothing is left.
pub open spec fn cleaned_name(name: Seq<char>) -> Seq<char> {
    let t = trim_end_dots_spaces(replace_chars(name));
    if t.len() == 0 {
        "untitled"@
    } else {
        t
    }
}

/// The part of `s` before its first `.` (all of `s` when it has none).
pub open spec fn first_segment(s: Seq<char>) -> Seq<char>
    decreases s.len(),
{
    if s.len() == 0 {
        s
    } else if s[0] == '.' {
        Seq::empty()
    } else {
        seq![s[0]] + first_segment(s.drop_first())
    }
}

/// Device names that Windows reserves, whatever the extension.
pub open spec fn reserved_names() -> Seq<Seq<char>> {
    seq![
        "CON"@, "PRN"@, "AUX"@, "NUL"@, "COM1"@, "COM2"@, "COM3"@, "COM4"@, "COM5"@, "COM6"@,
        "COM7"@, "COM8"@, "COM9"@, "LPT1"@, "LPT2"@, "LPT3"@, "LPT4"@, "LPT5"@, "LPT6"@, "LPT7"@,
        "LPT8"@, "LPT9"@,
    ]
}

/// Whether a name whose upper-case form is `upper` names a reserved device.
pub open spec fn is_reserved_upper(upper: Seq<char>) -> bool {
    reserved_names().contains(first_segment(upper))
}

/// Number of bytes of the UTF-8 encoding of `c`.
pub open spec fn char_utf8_len(c: char) -> nat {
    encode_scalar(c as u32).len()
}

/// Number of bytes of the UTF-8 encoding of `s`.
pub open spec fn utf8_len(s: Seq<char>) -> nat {
    encode_utf8(s).len()
}

/// The longest prefix of `s` whose UTF-8 encoding fits in `limit` bytes.
pub open spec fn utf8_prefix(s: Seq<char>, limit: int) -> Seq<char>
    decreases s.len(),
{
    if s.len() == 0 || char_utf8_len(s[0]) > limit {
        Seq::empty()
    } else {
        seq![s[0]] + utf8_prefix(s.drop_first(), limit - char_utf8_len(s[0]))
    }
}

/// The last steps of sanitizing: a `_` in front of reserved device names, then
/// the cut to `MAX_FILE_NAME_BYTES` bytes. `upper` is the upper-case form of
/// `cleaned`.
pub open spec fn finished_name(cleaned: Seq<char>, upper: Seq<char>) -> Seq<char> {
    let guarded = if is_reserved_upper(upper) {
        "_"@ + cleaned
    } else {
        cleaned
    };
    utf8_prefix(guarded, MAX_FILE_NAME_BYTES as int)
}

/// The file name that `sanitize_file_name` makes of `name`.
pub open spec fn sanitized_name(name: Seq<char>) -> Seq<char> {
    finished_name(cleaned_name(name), unicode_uppercase(cleaned_name(name)))
}

/// The file name that `build_file_name` makes of a parsed title.
pub open spec fn built_file_name(parsed: Option<Seq<char>>) -> Seq<char> {
    match parsed {
        Some(name) => sanitized_name(name),
        None => "untitled_article"@,
    }
}

// ---------------------------------------------------------------------------
// Trusted: Unicode upper case
// ---------------------------------------------------------------------------

/// What `str::to_uppercase` returns for a string: its Unicode upper-case
/// mapping, character by character, as std's tables define it.
pub uninterp spec fn unicode_uppercase(s: Seq<char>) -> Seq<char>;

/// Upper-case form of `s`.
///
/// Trusted: calls `str::to_uppercase`. The contract only names its result
/// (`unicode_uppercase`), a function of the characters of `s`; nothing is
/// claimed about the Unicode tables themselves.
#[verifier::external_body]
fn to_uppercase(s: &str) -> (r: String)
    ensures
        r@ == unicode_uppercase(s@),
{
    s.to_uppercase()
}

// ---------------------------------------------------------------------------
// Lemmas
// ---------------------------------------------------------------------------

proof fn lemma_encode_utf8_push(s: Seq<char>, c: char)
    ensures
        encode_utf8(s.push(c)) == encode_utf8(s) + encode_scalar(c as u32),
    decreases s.len(),
{
    if s.len() == 0 {
        assert(s.push(c).drop_first() =~= Seq::<char>::empty());
        assert(encode_utf8(Seq::<char>::empty()) =~= Seq::<u8>::empty());
        assert(encode_utf8(s.push(c)) =~= encode_scalar(c as u32) + Seq::<u8>::empty());
        assert(encode_utf8(s) =~= Seq::<u8>::empty());
        assert(encode_scalar(c as u32) + Seq::<u8>::empty() =~= encode_scalar(c as u32));
    } else {
        lemma_encode_utf8_push(s.drop_first(), c);
        assert(s.push(c).drop_first() =~= s.drop_first().push(c));
        assert(encode_utf8(s.push(c)) =~= encode_scalar(s[0] as u32) + encode_utf8(
            s.drop_first().push(c),
        ));
    }
}

/// The UTF-8 length of a prefix grows by the length of the next character.
proof fn lemma_utf8_len_take_succ(s: Seq<char>, i: int)
    requires
        0 <= i < s.len(),
    ensures
        utf8_len(s.take(i + 1)) == utf8_len(s.take(i)) + char_utf8_len(s[i]),
{
    assert(s.take(i + 1) =~= s.take(i).push(s[i]));
    lemma_encode_utf8_push(s.take(i), s[i]);
}

proof fn lemma_utf8_prefix_skip(s: Seq<char>, i: int, limit: int)
    requires
        0 <= i < s.len(),
    ensures
        utf8_prefix(s.skip(i), limit) == (if char_utf8_len(s[i]) > limit {
            Seq::<char>::empty()
        } else {
            seq![s[i]] + utf8_prefix(s.skip(i + 1), limit - char_utf8_len(s[i]))
        }),
{
    assert(s.skip(i).drop_first() =~= s.skip(i + 1));
    assert(s.skip(i)[0] == s[i]);
}

proof fn lemma_first_segment_skip(s: Seq<char>, i: int)
    requires
        0 <= i < s.len(),
    ensures
        first_segment(s.skip(i)) == (if s[i] == '.' {
            Seq::<char>::empty()
        } else {
            seq![s[i]] + first_segment(s.skip(i + 1))
        }),
{
    assert(s.skip(i).drop_first() =~= s.skip(i + 1));
    assert(s.skip(i)[0] == s[i]);
}

proof fn lemma_trim_take(s: Seq<char>, k: int)
    requires
        0 < k <= s.len(),
        is_trailing_trim_char(s[k - 1]),
    ensures
        trim_end_dots_spaces(s.take(k)) == trim_end_dots_spaces(s.take(k - 1)),
{
    assert(s.take(k).drop_last() =~= s.take(k - 1));
}


// ---------------------------------------------------------------------------
// Laws
// ---------------------------------------------------------------------------

proof fn lemma_utf8_len_cons(s: Seq<char>)
    requires
        s.len() > 0,
    ensures
        utf8_len(s) == char_utf8_len(s[0]) + utf8_len(s.drop_first()),
{
}

proof fn lemma_utf8_prefix_props(s: Seq<char>, limit: int)
    requires
        limit >= 0,
    ensures
        utf8_prefix(s, limit).len() <= s.len(),
        utf8_prefix(s, limit) == s.take(utf8_prefix(s, limit).len() as int),
        utf8_len(utf8_prefix(s, limit)) <= limit,
        utf8_prefix(s, limit).len() < s.len() ==> utf8_len(
            s.take(utf8_prefix(s, limit).len() as int + 1),
        ) > limit,
        utf8_len(s) <= limit ==> utf8_prefix(s, limit) == s,
    decreases s.len(),
{
    let p = utf8_prefix(s, limit);
    if s.len() == 0 {
        assert(s.take(0) =~= s);
    } else {
        lemma_utf8_len_cons(s);
        let c = s[0];
        let rest = s.drop_first();
        if char_utf8_len(c) > limit {
            assert(s.take(1) =~= seq![c]);
            lemma_utf8_len_cons(seq![c]);
            assert(seq![c].drop_first() =~= Seq::<char>::empty());
            assert(s.take(0) =~= Seq::<char>::empty());
        } else {
            let l = limit - char_utf8_len(c);
            lemma_utf8_prefix_props(rest, l);
            let q = utf8_prefix(rest, l);
            assert(p == seq![c] + q);
            assert(p =~= s.take(p.len() as int));
            lemma_utf8_len_cons(p);
            assert(p.drop_first() =~= q);
            if p.len() < s.len() {
                let t = s.take(p.len() as int + 1);
                lemma_utf8_len_cons(t);
                assert(t.drop_first() =~= rest.take(q.len() as int + 1));
            }
            if utf8_len(s) <= limit {
                assert(p =~= s);
            }
        }
    }
}

/// Law: a report's file name never exceeds 255 bytes of UTF-8, and the cut
/// keeps the longest prefix that fits: one more character would not fit.
pub proof fn lemma_file_name_fits(name: Seq<char>)
    ensures
        utf8_len(sanitized_name(name)) <= MAX_FILE_NAME_BYTES,
        ({
            let cleaned = cleaned_name(name);
            let guarded = if is_reserved_upper(unicode_uppercase(cleaned)) {
                "_"@ + cleaned
            } else {
                cleaned
            };
            let r = sanitized_name(name);
            &&& r == guarded.take(r.len() as int)
            &&& r.len() < guarded.len() ==> utf8_len(guarded.take(r.len() as int + 1))
                > MAX_FILE_NAME_BYTES
            &&& utf8_len(guarded) <= MAX_FILE_NAME_BYTES ==> r == guarded
        }),
{
    let cleaned = cleaned_name(name);
    let guarded = if is_reserved_upper(unicode_uppercase(cleaned)) {
        "_"@ + cleaned
    } else {
        cleaned
    };
    lemma_utf8_prefix_props(guarded, MAX_FILE_NAME_BYTES as int);
}

proof fn lemma_trim_props(s: Seq<char>)
    ensures
        trim_end_dots_spaces(s).len() <= s.len(),
        trim_end_dots_spaces(s) == s.take(trim_end_dots_spaces(s).len() as int),
        trim_end_dots_spaces(s).len() > 0 ==> !is_trailing_trim_char(
            trim_end_dots_spaces(s).last(),
        ),
    decreases s.len(),
{
    if s.len() > 0 && is_trailing_trim_char(s.last()) {
        lemma_trim_props(s.drop_last());
        let t = trim_end_dots_spaces(s.drop_last());
        assert(t =~= s.take(t.len() as int));
    } else {
        assert(s.take(s.len() as int) =~= s);
    }
}

/// Whether `c` may stand in a file name that this module produces.
pub open spec fn is_safe_char(c: char) -> bool {
    !is_forbidden_char(c) && (c as u32) >= 0x20
}

proof fn lemma_cleaned_name_props(name: Seq<char>)
    ensures
        cleaned_name(name).len() > 0,
        forall|i: int| 0 <= i < cleaned_name(name).len() ==> is_safe_char(
            #[trigger] cleaned_name(name)[i],
        ),
        !is_trailing_trim_char(cleaned_name(name).last()),
{
    reveal_strlit("untitled");
    let replaced = replace_chars(name);
    lemma_trim_props(replaced);
    let t = trim_end_dots_spaces(replaced);
    let cleaned = cleaned_name(name);
    assert forall|i: int| 0 <= i < cleaned.len() implies is_safe_char(#[trigger] cleaned[i]) by {
        if t.len() > 0 {
            assert(t[i] == replaced[i]);
        }
    }
}

/// Cleaning a cleaned title changes nothing.
proof fn lemma_cleaned_name_idempotent(name: Seq<char>)
    ensures
        cleaned_name(cleaned_name(name)) == cleaned_name(name),
{
    lemma_cleaned_name_props(name);
    let c = cleaned_name(name);
    assert(replace_chars(c) =~= c);
    assert(trim_end_dots_spaces(c) == c);
}

/// Law: sanitizing a second time gives the same file name back, when the
/// first time neither put a `_` in front (the cleaned title is not a reserved
/// device name) nor cut anything (the cleaned title fits in 255 bytes).
pub proof fn lemma_sanitize_again_uncut_unreserved(name: Seq<char>)
    requires
        !is_reserved_upper(unicode_uppercase(cleaned_name(name))),
        utf8_len(cleaned_name(name)) <= MAX_FILE_NAME_BYTES,
    ensures
        sanitized_name(name) == cleaned_name(name),
        sanitized_name(sanitized_name(name)) == sanitized_name(name),
{
    lemma_utf8_prefix_props(cleaned_name(name), MAX_FILE_NAME_BYTES as int);
    lemma_cleaned_name_idempotent(name);
}

/// Law: a report's file name is never empty, and it holds no forbidden
/// character (`< > : " / \ | ? *`) and no control character.
pub proof fn lemma_file_name_safe(name: Seq<char>)
    ensures
        sanitized_name(name).len() > 0,
        forall|i: int| 0 <= i < sanitized_name(name).len() ==> is_safe_char(
            #[trigger] sanitized_name(name)[i],
        ),
{
    reveal_strlit("_");
    lemma_cleaned_name_props(name);
    let cleaned = cleaned_name(name);
    let guarded = if is_reserved_upper(unicode_uppercase(cleaned)) {
        "_"@ + cleaned
    } else {
        cleaned
    };
    assert forall|i: int| 0 <= i < guarded.len() implies is_safe_char(#[trigger] guarded[i]) by {
        if is_reserved_upper(unicode_uppercase(cleaned)) && i > 0 {
            assert(guarded[i] == cleaned[i - 1]);
        }
    }
    lemma_utf8_prefix_props(guarded, MAX_FILE_NAME_BYTES as int);
    let r = sanitized_name(name);
    assert forall|i: int| 0 <= i < r.len() implies is_safe_char(#[trigger] r[i]) by {
        assert(r[i] == guarded[i]);
    }
    assert(guarded.len() > 0);
    lemma_utf8_len_cons(guarded);
}

/// Law: a title that is already a good file name is kept as it is: no
/// forbidden or control character, no trailing dot or space, not empty, at
/// most 255 UTF-8 bytes, and not a reserved device name.
pub proof fn lemma_good_name_unchanged(name: Seq<char>)
    requires
        name.len() > 0,
        forall|i: int| 0 <= i < name.len() ==> is_safe_char(#[trigger] name[i]),
        !is_trailing_trim_char(name.last()),
        utf8_len(name) <= MAX_FILE_NAME_BYTES,
        !is_reserved_upper(unicode_uppercase(name)),
    ensures
        sanitized_name(name) == name,
{
    assert(replace_chars(name) =~= name);
    assert(trim_end_dots_spaces(name) == name);
    lemma_utf8_prefix_props(name, MAX_FILE_NAME_BYTES as int);
}

// ---------------------------------------------------------------------------
// Executable code
// ---------------------------------------------------------------------------

/// The character that `c` becomes in a file name.
fn replace_char(c: char) -> (r: char)
    ensures
        r == replaced_char(c),
{
    if c == '<' || c == '>' || c == ':' || c == '"' || c == '/' || c == '\\' || c == '|' || c
        == '?' || c == '*' {
        '-'
    } else if (c as u32) < 0x20 {
        '_'
    } else {
        c
    }
}

/// Number of UTF-8 bytes of `c`.
fn utf8_char_len(c: char) -> (r: usize)
    ensures
        r == char_utf8_len(c),
        1 <= r <= 4,
{
    let u: u32 = c as u32;
    if u < 0x80 {
        1
    } else if u < 0x800 {
        2
    } else if u < 0x10000 {
        3
    } else {
        4
    }
}

/// The title with forbidden and control characters replaced, trailing dots and
/// spaces removed, and `untitled` in place of an empty result.
pub fn clean_file_name(name: &str) -> (r: String)
    ensures
        r@ == cleaned_name(name@),
{
    let n: usize = name.unicode_len();
    let mut replaced: Vec<char> = Vec::new();
    let mut i: usize = 0;
    while i < n
        invariant
            n == name@.len(),
            i <= n,
            replaced@ == replace_chars(name@.take(i as int)),
        decreases n - i,
    {
        let c = replace_char(name.get_char(i));
        replaced.push(c);
        assert(replace_chars(name@.take(i + 1)) =~= replace_chars(name@.take(i as int)).push(c));
        i = i + 1;
    }
    assert(name@.take(n as int) =~= name@);
    let ghost full = replaced@;
    let mut k: usize = replaced.len();
    assert(full.take(k as int) =~= full);
    while k > 0 && (replaced[k - 1] == '.' || replaced[k - 1] == ' ')
        invariant
            replaced@ == full,
            k <= full.len(),
            trim_end_dots_spaces(full) == trim_end_dots_spaces(full.take(k as int)),
        decreases k,
    {
        proof {
            lemma_trim_take(full, k as int);
        }
        k = k - 1;
    }
    assert(trim_end_dots_spaces(full.take(k as int)) == full.take(k as int));
    if k == 0 {
        return crate::text::owned("untitled");
    }
    let mut r = String::new();
    let mut j: usize = 0;
    while j < k
        invariant
            replaced@ == full,
            k <= full.len(),
            j <= k,
            r@ == full.take(j as int),
        decreases k - j,
    {
        push_char(&mut r, replaced[j]);
        assert(full.take(j + 1) =~= full.take(j as int).push(full[j as int]));
        j = j + 1;
    }
    r
}

/// The part of `s` before its first `.`.
fn first_segment_of(s: &str) -> (r: String)
    ensures
        r@ == first_segment(s@),
{
    let n: usize = s.unicode_len();
    let mut r = String::new();
    let mut i: usize = 0;
    assert(s@.skip(0) =~= s@);
    while i < n
        invariant
            n == s@.len(),
            i <= n,
            first_segment(s@) == r@ + first_segment(s@.skip(i as int)),
        decreases n - i,
    {
        let c = s.get_char(i);
        proof {
            lemma_first_segment_skip(s@, i as int);
        }
        if c == '.' {
            assert(r@ + Seq::<char>::empty() =~= r@);
            return r;
        }
        assert(r@ + (seq![c] + first_segment(s@.skip(i + 1))) =~= r@.push(c) + first_segment(
            s@.skip(i + 1),
        ));
        push_char(&mut r, c);
        i = i + 1;
    }
    assert(s@.skip(n as int) =~= Seq::<char>::empty());
    assert(r@ + Seq::<char>::empty() =~= r@);
    r
}

/// Whether the upper-case name `upper` starts with a reserved device name.
fn is_reserved(upper: &str) -> (r: bool)
    ensures
        r == is_reserved_upper(upper@),
{
    let base = first_segment_of(upper);
    let names: Vec<&str> = vec![
        "CON", "PRN", "AUX", "NUL", "COM1", "COM2", "COM3", "COM4", "COM5", "COM6", "COM7",
        "COM8", "COM9", "LPT1", "LPT2", "LPT3", "LPT4", "LPT5", "LPT6", "LPT7", "LPT8", "LPT9",
    ];
    let ghost views = names@.map_values(|s: &str| s@);
    assert(views =~= reserved_names());
    let mut i: usize = 0;
    while i < names.len()
        invariant
            views == names@.map_values(|s: &str| s@),
            views == reserved_names(),
            i <= names.len(),
            base@ == first_segment(upper@),
            forall|j: int| 0 <= j < i ==> views[j] != base@,
        decreases names.len() - i,
    {
        if crate::text::same_text(names[i], base.as_str()) {
            assert(views[i as int] == base@);
            return true;
        }
        i = i + 1;
    }
    assert(!reserved_names().contains(base@));
    false
}

/// The longest prefix of `s` whose UTF-8 encoding has at most
/// `MAX_FILE_NAME_BYTES` bytes.
fn fit_to_max_bytes(s: &str) -> (r: String)
    ensures
        r@ == utf8_prefix(s@, MAX_FILE_NAME_BYTES as int),
{
    let n: usize = s.unicode_len();
    let mut r = String::new();
    let mut bytes: usize = 0;
    let mut i: usize = 0;
    assert(s@.skip(0) =~= s@);
    assert(s@.take(0) =~= Seq::<char>::empty());
    while i < n
        invariant
            n == s@.len(),
            i <= n,
            r@ == s@.take(i as int),
            bytes == utf8_len(s@.take(i as int)),
            bytes <= MAX_FILE_NAME_BYTES,
            utf8_prefix(s@, MAX_FILE_NAME_BYTES as int) == r@ + utf8_prefix(
                s@.skip(i as int),
                MAX_FILE_NAME_BYTES - bytes,
            ),
        decreases n - i,
    {
        let c = s.get_char(i);
        let len: usize = utf8_char_len(c);
        proof {
            lemma_utf8_prefix_skip(s@, i as int, MAX_FILE_NAME_BYTES - bytes);
            lemma_utf8_len_take_succ(s@, i as int);
        }
        if len > MAX_FILE_NAME_BYTES - bytes {
            assert(r@ + Seq::<char>::empty() =~= r@);
            return r;
        }
        assert(r@ + (seq![c] + utf8_prefix(
            s@.skip(i + 1),
            MAX_FILE_NAME_BYTES - bytes - len,
        )) =~= r@.push(c) + utf8_prefix(s@.skip(i + 1), MAX_FILE_NAME_BYTES - (bytes + len)));
        assert(s@.take(i + 1) =~= s@.take(i as int).push(c));
        push_char(&mut r, c);
        bytes = bytes + len;
        i = i + 1;
    }
    assert(s@.skip(n as int) =~= Seq::<char>::empty());
    assert(r@ + Seq::<char>::empty() =~= r@);
    r
}

/// The last steps of sanitizing `cleaned`, given its upper-case form `upper`:
/// a `_` goes in front when the part of `upper` before the first `.` is a
/// reserved device name (`CON`, `PRN`, `AUX`, `NUL`, `COM1`..`COM9`,
/// `LPT1`..`LPT9`), then the name is cut to the longest prefix of at most
/// 255 UTF-8 bytes.
pub fn finish_file_name(cleaned: &str, upper: &str) -> (r: String)
    ensures
        r@ == finished_name(cleaned@, upper@),
{
    let guarded = if is_reserved(upper) {
        crate::text::concat("_", cleaned)
    } else {
        crate::text::owned(cleaned)
    };
    fit_to_max_bytes(guarded.as_str())
}

/// Makes a page title usable as a file name: forbidden characters
/// (`< > : " / \ | ? *`) become `-`, control characters become `_`, trailing
/// dots and spaces go, an empty result becomes `untitled`, reserved device
/// names get a leading `_`, and the name is cut to 255 UTF-8 bytes.
pub fn sanitize_file_name(name: &str) -> (r: String)
    ensures
        r@ == sanitized_name(name@),
{
    let cleaned = clean_file_name(name);
    let upper = to_uppercase(cleaned.as_str());
    finish_file_name(cleaned.as_str(), upper.as_str())
}

/// The file name of a report: the sanitized title, or `untitled_article` when
/// the page had none.
pub fn build_file_name(parsed_name: Option<String>) -> (r: String)
    ensures
        r@ == built_file_name(
            match parsed_name {
                Some(n) => Some(n@),
                None => None,
            },
        ),
{
    match parsed_name {
        Some(name) => sanitize_file_name(name.as_str()),
        None => crate::text::owned("untitled_article"),
    }
}

} // verus!
