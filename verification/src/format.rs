//! Citation output formats and the text transformations behind them: LaTeX
//! accents and math turned into plain Unicode text, author lists, and the
//! clean-up of formatted citations.
use vstd::prelude::*;
use vstd::string::StringExecFns;

use crate::regex_ops::{is_match, regex_find_all, regex_is_match, regex_split, rejoin, rewrite, rewrite_all};
use crate::text::{
    chars_to_string, contains_seq, ends_with_char, has_prefix, join_chars, join_with, replace_all,
    replace_chars, split_chars, split_from, split_on, str_chars, str_eq,
};

verus! {

/// The markup in which a citation is written out.
#[derive(Debug, Clone, Copy, PartialEq, Eq, Structural)]
pub enum Format {
    Plain,
    Markdown,
    LaTeX,
}

impl Default for Format {
    fn default() -> (res: Self)
        ensures
            res == Format::Plain,
    {
        Format::Plain
    }
}

impl Format {
    /// The number of the format.
    pub open spec fn index(self) -> int {
        match self {
            Format::Plain => 0,
            Format::Markdown => 1,
            Format::LaTeX => 2,
        }
    }

    /// The format with number `i`; `Plain` for a number out of range.
    pub open spec fn from_index(i: int) -> Format {
        if i == 1 {
            Format::Markdown
        } else if i == 2 {
            Format::LaTeX
        } else {
            Format::Plain
        }
    }

    /// The name under which the format is shown and stored.
    pub open spec fn name(self) -> Seq<char> {
        match self {
            Format::Plain => "Plain"@,
            Format::Markdown => "Markdown"@,
            Format::LaTeX => "LaTeX"@,
        }
    }

    /// The format a stored setting names: `"Markdown"` and `"Latex"`, anything
    /// else meaning `Plain`.
    pub open spec fn from_setting(s: Seq<char>) -> Format {
        if s == "Markdown"@ {
            Format::Markdown
        } else if s == "Latex"@ {
            Format::LaTeX
        } else {
            Format::Plain
        }
    }

    /// The number of the format.
    pub fn to_i32(self) -> (res: i32)
        ensures
            res == self.index(),
    {
        match self {
            Format::Plain => 0,
            Format::Markdown => 1,
            Format::LaTeX => 2,
        }
    }

    /// The format with number `i`; `Plain` for any number out of range.
    pub fn from_i32(i: i32) -> (res: Format)
        ensures
            res == Format::from_index(i as int),
    {
        match i {
            1 => Format::Markdown,
            2 => Format::LaTeX,
            _ => Format::Plain,
        }
    }

    /// The format a stored setting names.
    pub fn from_string(s: String) -> (res: Format)
        ensures
            res == Format::from_setting(s@),
    {
        if str_eq(s.as_str(), "Markdown") {
            Format::Markdown
        } else if str_eq(s.as_str(), "Latex") {
            Format::LaTeX
        } else {
            Format::Plain
        }
    }

    /// The name of the format.
    pub fn to_string(&self) -> (res: String)
        ensures
            res@ == self.name(),
    {
        match self {
            Format::Plain => String::from_str("Plain"),
            Format::Markdown => String::from_str("Markdown"),
            Format::LaTeX => String::from_str("LaTeX"),
        }
    }

    /// The message id of the name of the format: its name, of which the
    /// front end translates "Plain" and shows the other two as they are.
    pub fn to_translatable_string(self) -> (res: String)
        ensures
            res@ == self.name(),
    {
        match self {
            Format::Plain => String::from_str("Plain"),
            Format::Markdown => String::from_str("Markdown"),
            Format::LaTeX => String::from_str("LaTeX"),
        }
    }
}

/// Numbering a format and reading the number back gives the format again.
pub proof fn lemma_format_index_round_trip(f: Format)
    ensures
        Format::from_index(f.index()) == f,
{
}

/// A space, a tab or a line break.
pub open spec fn is_blank(c: char) -> bool {
    c == ' ' || c == '\t' || c == '\n'
}

/// `out` with `c` appended, where a blank is appended as a single space and
/// only when `out` does not already end with a space.
pub open spec fn push_non_space_spec(out: Seq<char>, c: char) -> Seq<char> {
    if is_blank(c) {
        if out.len() > 0 && out.last() == ' ' {
            out
        } else {
            out.push(' ')
        }
    } else {
        out.push(c)
    }
}

/// Appends `c` to `output`, collapsing blanks into single spaces.
pub fn push_non_space(output: &mut String, c: char)
    ensures
        final(output)@ == push_non_space_spec(old(output)@, c),
{
    if c == ' ' || c == '\t' || c == '\n' {
        if !ends_with_char(output.as_str(), ' ') {
            output.push(' ');
        }
    } else {
        output.push(c);
    }
}

/// Reading math from index `i` of `s`: every character up to the closing
/// `$` is appended as by `push_non_space_spec`, and the `$` is consumed.
/// Gives the index after the math and the output.
pub open spec fn math_end(s: Seq<char>, i: int, out: Seq<char>) -> (int, Seq<char>)
    decreases s.len() - i,
{
    if i < 0 || i >= s.len() {
        (i, out)
    } else if s[i] == '$' {
        (i + 1, out)
    } else {
        math_end(s, i + 1, push_non_space_spec(out, s[i]))
    }
}

proof fn lemma_math_end_bounds(s: Seq<char>, i: int, out: Seq<char>)
    requires
        0 <= i <= s.len(),
    ensures
        i <= math_end(s, i, out).0 <= s.len(),
    decreases s.len() - i,
{
    if i < s.len() && s[i] != '$' {
        lemma_math_end_bounds(s, i + 1, push_non_space_spec(out, s[i]));
    }
}

/// Copies the math that starts at index `pos` of `chars` into `output`, up
/// to and without the closing `$`, and returns the index after it.
pub fn push_math(chars: &Vec<char>, pos: usize, output: &mut String) -> (end: usize)
    requires
        pos <= chars.len(),
    ensures
        (end as int, final(output)@) == math_end(chars@, pos as int, old(output)@),
{
    let mut i = pos;
    while i < chars.len()
        invariant
            pos <= i <= chars.len(),
            math_end(chars@, i as int, output@) == math_end(chars@, pos as int, old(output)@),
        decreases chars.len() - i,
    {
        let c = chars[i];
        if c == '$' {
            return i + 1;
        }
        push_non_space(output, c);
        i = i + 1;
    }
    i
}

/// The combining accent that a LaTeX accent command made of a symbol
/// stands for.
pub open spec fn combining(c: char) -> Option<char> {
    if c == '\'' {
        Some('\u{301}')
    } else if c == '`' {
        Some('\u{300}')
    } else if c == '~' {
        Some('\u{303}')
    } else if c == '^' {
        Some('\u{302}')
    } else if c == '"' {
        Some('\u{308}')
    } else if c == '=' {
        Some('\u{304}')
    } else {
        None
    }
}

/// The combining accent that a LaTeX accent command made of a letter
/// stands for.
pub open spec fn combining_alpha(c: char) -> Option<char> {
    if c == 'c' {
        Some('\u{327}')
    } else if c == 'u' {
        Some('\u{306}')
    } else if c == 'v' {
        Some('\u{30C}')
    } else if c == 'k' {
        Some('\u{328}')
    } else {
        None
    }
}

/// The letter that a LaTeX special-letter command stands for.
pub open spec fn special_letter(c: char) -> Option<char> {
    if c == 'o' {
        Some('\u{f8}')
    } else if c == 'O' {
        Some('\u{d8}')
    } else if c == 'l' {
        Some('\u{142}')
    } else if c == 'L' {
        Some('\u{141}')
    } else {
        None
    }
}

fn combining_exec(c: char) -> (res: Option<char>)
    ensures
        res == combining(c),
{
    if c == '\'' {
        Some('\u{301}')
    } else if c == '`' {
        Some('\u{300}')
    } else if c == '~' {
        Some('\u{303}')
    } else if c == '^' {
        Some('\u{302}')
    } else if c == '"' {
        Some('\u{308}')
    } else if c == '=' {
        Some('\u{304}')
    } else {
        None
    }
}

fn combining_alpha_exec(c: char) -> (res: Option<char>)
    ensures
        res == combining_alpha(c),
{
    if c == 'c' {
        Some('\u{327}')
    } else if c == 'u' {
        Some('\u{306}')
    } else if c == 'v' {
        Some('\u{30C}')
    } else if c == 'k' {
        Some('\u{328}')
    } else {
        None
    }
}

fn special_letter_exec(c: char) -> (res: Option<char>)
    ensures
        res == special_letter(c),
{
    if c == 'o' {
        Some('\u{f8}')
    } else if c == 'O' {
        Some('\u{d8}')
    } else if c == 'l' {
        Some('\u{142}')
    } else if c == 'L' {
        Some('\u{141}')
    } else {
        None
    }
}

/// One step of the LaTeX-to-text conversion: the character at index `i` of
/// `s` and what follows it that belongs to the same construct. Gives the
/// index after the construct and the output.
pub open spec fn texer_step(s: Seq<char>, i: int, out: Seq<char>) -> (int, Seq<char>) {
    let c = s[i];
    let j = i + 1;
    if c == '$' {
        math_end(s, j, out)
    } else if c == '{' {
        if j < s.len() {
            let c2 = s[j];
            let k = j + 1;
            if c2 == '$' {
                math_end(s, k, out)
            } else if c2 == '\\' {
                if k + 1 < s.len() {
                    let symbol = s[k];
                    let paren = s[k + 1];
                    let m = k + 2;
                    if paren == '}' {
                        match special_letter(symbol) {
                            Some(to) => (m, out.push(to)),
                            None => (k, out),
                        }
                    } else {
                        match combining(symbol) {
                            Some(to) => (
                                if m < s.len() {
                                    m + 1
                                } else {
                                    m
                                },
                                out.push(paren).push(to),
                            ),
                            None => (m, push_non_space_spec(out.push(symbol), paren)),
                        }
                    }
                } else {
                    (s.len() as int, out)
                }
            } else {
                (k, push_non_space_spec(out, c2))
            }
        } else {
            (j, out)
        }
    } else if c == '\\' {
        if j < s.len() {
            let compose = s[j];
            let k = j + 1;
            match combining_alpha(compose) {
                Some(to) => if k + 2 < s.len() && s[k] == '{' && s[k + 2] == '}' {
                    (k + 3, out.push(s[k + 1]).push(to))
                } else {
                    (k, out.push(compose))
                },
                None => match combining(compose) {
                    Some(to) => if k < s.len() {
                        (k + 1, out.push(s[k]).push(to))
                    } else {
                        (k, out.push(compose))
                    },
                    None => (k, out.push(compose)),
                },
            }
        } else {
            (j, push_non_space_spec(out, c))
        }
    } else if c == '}' {
        (j, out)
    } else {
        (j, push_non_space_spec(out, c))
    }
}

proof fn lemma_texer_step_bounds(s: Seq<char>, i: int, out: Seq<char>)
    requires
        0 <= i < s.len(),
    ensures
        i < texer_step(s, i, out).0 <= s.len(),
{
    let c = s[i];
    if c == '$' {
        lemma_math_end_bounds(s, i + 1, out);
    } else if c == '{' && i + 1 < s.len() && s[i + 1] == '$' {
        lemma_math_end_bounds(s, i + 2, out);
    }
}

/// The conversion from index `i` of `s` on, `out` holding what was produced
/// before `i`.
pub open spec fn texer_from(s: Seq<char>, i: int, out: Seq<char>) -> Seq<char>
    decreases s.len() - i,
{
    if i < 0 || i >= s.len() {
        out
    } else {
        let (i2, out2) = texer_step(s, i, out);
        if i2 <= i || i2 > s.len() {
            out2
        } else {
            texer_from(s, i2, out2)
        }
    }
}

/// The text of `s` with its LaTeX turned into plain Unicode: accent commands
/// become combining accents, special-letter commands become letters, math
/// delimiters and braces are dropped and blanks are collapsed. When nothing
/// at all is produced, `s` itself.
pub open spec fn texer_spec(s: Seq<char>) -> Seq<char> {
    let out = texer_from(s, 0, seq![]);
    if out.len() > 0 {
        out
    } else {
        s
    }
}

fn texer_step_exec(s: &Vec<char>, i: usize, output: &mut String) -> (next: usize)
    requires
        i < s.len(),
    ensures
        (next as int, final(output)@) == texer_step(s@, i as int, old(output)@),
{
    let n = s.len();
    let c = s[i];
    let j = i + 1;
    if c == '$' {
        push_math(s, j, output)
    } else if c == '{' {
        if j < n {
            let c2 = s[j];
            let k = j + 1;
            if c2 == '$' {
                push_math(s, k, output)
            } else if c2 == '\\' {
                if n - k > 1 {
                    let symbol = s[k];
                    let paren = s[k + 1];
                    let m = k + 2;
                    if paren == '}' {
                        match special_letter_exec(symbol) {
                            Some(to) => {
                                output.push(to);
                                m
                            },
                            None => k,
                        }
                    } else {
                        match combining_exec(symbol) {
                            Some(to) => {
                                output.push(paren);
                                output.push(to);
                                if m < n {
                                    m + 1
                                } else {
                                    m
                                }
                            },
                            None => {
                                output.push(symbol);
                                push_non_space(output, paren);
                                m
                            },
                        }
                    }
                } else {
                    n
                }
            } else {
                push_non_space(output, c2);
                k
            }
        } else {
            j
        }
    } else if c == '\\' {
        if j < n {
            let compose = s[j];
            let k = j + 1;
            match combining_alpha_exec(compose) {
                Some(to) => {
                    if n - k > 2 && s[k] == '{' && s[k + 2] == '}' {
                        output.push(s[k + 1]);
                        output.push(to);
                        k + 3
                    } else {
                        output.push(compose);
                        k
                    }
                },
                None => match combining_exec(compose) {
                    Some(to) => {
                        if k < n {
                            output.push(s[k]);
                            output.push(to);
                            k + 1
                        } else {
                            output.push(compose);
                            k
                        }
                    },
                    None => {
                        output.push(compose);
                        k
                    },
                },
            }
        } else {
            push_non_space(output, c);
            j
        }
    } else if c == '}' {
        j
    } else {
        push_non_space(output, c);
        j
    }
}

/// The text of `input` with its LaTeX turned into plain Unicode (see
/// `texer_spec`).
pub fn texer(input: &str) -> (res: String)
    ensures
        res@ == texer_spec(input@),
{
    let s = str_chars(input);
    let mut output = String::new();
    let mut i: usize = 0;
    while i < s.len()
        invariant
            s@ == input@,
            i <= s.len(),
            texer_from(s@, i as int, output@) == texer_from(s@, 0, seq![]),
        decreases s.len() - i,
    {
        proof {
            lemma_texer_step_bounds(s@, i as int, output@);
        }
        i = texer_step_exec(&s, i, &mut output);
    }
    if !output.as_str().is_empty() {
        output
    } else {
        String::from_str(input)
    }
}

/// Text that the LaTeX conversion leaves as it is: no math delimiters,
/// braces, backslashes, tabs or line breaks, and no two spaces in a row.
pub open spec fn is_plain_text(s: Seq<char>) -> bool {
    &&& forall|i: int|
        0 <= i < s.len() ==> {
            let c = #[trigger] s[i];
            c != '$' && c != '{' && c != '}' && c != '\\' && c != '\t' && c != '\n'
        }
    &&& forall|i: int| 0 < i < s.len() && #[trigger] s[i] == ' ' ==> s[i - 1] != ' '
}

proof fn lemma_texer_plain_from(s: Seq<char>, i: int)
    requires
        is_plain_text(s),
        0 <= i <= s.len(),
    ensures
        texer_from(s, i, s.take(i)) == s,
    decreases s.len() - i,
{
    if i == s.len() {
        assert(s.take(i) =~= s);
    } else {
        let c = s[i];
        assert(texer_step(s, i, s.take(i)) == (i + 1, s.take(i + 1))) by {
            if c == ' ' && i > 0 {
                assert(s.take(i).last() == s[i - 1]);
            }
            assert(s.take(i).push(c) =~= s.take(i + 1));
        }
        lemma_texer_plain_from(s, i + 1);
    }
}

/// Plain text passes through the LaTeX conversion unchanged.
pub proof fn lemma_texer_plain_text(s: Seq<char>)
    requires
        is_plain_text(s),
    ensures
        texer_spec(s) == s,
{
    assert(s.take(0) =~= Seq::<char>::empty());
    lemma_texer_plain_from(s, 0);
}


/// Text with no tab, no line break and no two spaces in a row.
pub open spec fn has_single_spaces(s: Seq<char>) -> bool {
    &&& forall|i: int| 0 <= i < s.len() ==> #[trigger] s[i] != '\t' && s[i] != '\n'
    &&& forall|i: int| 0 < i < s.len() && #[trigger] s[i] == ' ' ==> s[i - 1] != ' '
}

/// No character of `s` at a position in `start..end` is a blank.
pub open spec fn no_blank_in(s: Seq<char>, start: int, end: int) -> bool {
    forall|k: int| start <= k < end ==> !is_blank(#[trigger] s[k])
}

proof fn lemma_push_non_space_single(out: Seq<char>, c: char)
    requires
        has_single_spaces(out),
    ensures
        has_single_spaces(push_non_space_spec(out, c)),
        push_non_space_spec(out, c).len() >= out.len(),
        is_blank(c) ==> push_non_space_spec(out, c).len() > 0,
{
    let r = push_non_space_spec(out, c);
    if r.len() > out.len() {
        assert forall|i: int| 0 <= i < out.len() implies r[i] == out[i] by {}
    }
}

proof fn lemma_math_end_single(s: Seq<char>, i: int, out: Seq<char>)
    requires
        0 <= i <= s.len(),
        has_single_spaces(out),
    ensures
        has_single_spaces(math_end(s, i, out).1),
        math_end(s, i, out).1.len() >= out.len(),
        math_end(s, i, out).1.len() == 0 ==> no_blank_in(s, i, math_end(s, i, out).0),
    decreases s.len() - i,
{
    if i < s.len() && s[i] != '$' {
        let out2 = push_non_space_spec(out, s[i]);
        lemma_push_non_space_single(out, s[i]);
        lemma_math_end_single(s, i + 1, out2);
        lemma_math_end_bounds(s, i + 1, out2);
    }
}

proof fn lemma_texer_step_single(s: Seq<char>, i: int, out: Seq<char>)
    requires
        0 <= i < s.len(),
        !s.contains('\\'),
        has_single_spaces(out),
    ensures
        has_single_spaces(texer_step(s, i, out).1),
        texer_step(s, i, out).1.len() >= out.len(),
        texer_step(s, i, out).1.len() == 0 ==> no_blank_in(s, i, texer_step(s, i, out).0),
{
    let c = s[i];
    let j = i + 1;
    if c == '$' {
        lemma_math_end_single(s, j, out);
    } else if c == '{' {
        if j < s.len() {
            let c2 = s[j];
            if c2 == '$' {
                lemma_math_end_single(s, j + 1, out);
            } else {
                assert(c2 != '\\') by {
                    if c2 == '\\' {
                        assert(s.contains(s[j]));
                    }
                }
                lemma_push_non_space_single(out, c2);
            }
        }
    } else if c == '\\' {
        assert(s.contains(s[i]));
    } else if c != '}' {
        lemma_push_non_space_single(out, c);
    }
}

proof fn lemma_texer_from_single(s: Seq<char>, i: int, out: Seq<char>)
    requires
        0 <= i <= s.len(),
        !s.contains('\\'),
        has_single_spaces(out),
        out.len() == 0 ==> no_blank_in(s, 0, i),
    ensures
        has_single_spaces(texer_from(s, i, out)),
        texer_from(s, i, out).len() == 0 ==> no_blank_in(s, 0, s.len() as int),
    decreases s.len() - i,
{
    if i < s.len() {
        let (i2, out2) = texer_step(s, i, out);
        lemma_texer_step_single(s, i, out);
        lemma_texer_step_bounds(s, i, out);
        if out2.len() == 0 {
            assert(no_blank_in(s, 0, i2)) by {
                assert forall|k: int| 0 <= k < i2 implies !is_blank(#[trigger] s[k]) by {
                    if k < i {
                        assert(no_blank_in(s, 0, i));
                    } else {
                        assert(no_blank_in(s, i, i2));
                    }
                }
            }
        }
        lemma_texer_from_single(s, i2, out2);
    }
}

/// Without backslashes, the LaTeX conversion gives text with no tab, no
/// line break and no two spaces in a row.
pub proof fn lemma_texer_single_spaces(s: Seq<char>)
    requires
        !s.contains('\\'),
    ensures
        has_single_spaces(texer_spec(s)),
{
    lemma_texer_from_single(s, 0, seq![]);
    if texer_from(s, 0, seq![]).len() == 0 {
        assert forall|i: int| 0 <= i < s.len() implies #[trigger] s[i] != '\t' && s[i] != '\n' by {
            assert(!is_blank(s[i]));
        }
        assert forall|i: int| 0 < i < s.len() && #[trigger] s[i] == ' ' implies s[i - 1] != ' ' by {
            assert(!is_blank(s[i]));
        }
    }
}

/// The author list `authors` written out for a citation: the separators
/// " and " and " & " are first normalised to " AND ", the list is split at
/// " AND ", the last of several authors is prefixed with "and ", and the
/// authors are joined with ", ".
pub open spec fn format_authors_spec(authors: Seq<char>) -> Seq<char> {
    let normalized = replace_all(
        replace_all(authors, " and "@, " AND "@),
        " & "@,
        " AND "@,
    );
    let parts = split_on(normalized, " AND "@);
    let parts = if parts.len() > 1 {
        parts.update(parts.len() - 1, "and "@ + parts.last())
    } else {
        parts
    };
    join_with(parts, ", "@)
}

/// The author list written out for a citation, e.g. "x and y and z" as
/// "x, y, and z".
pub fn format_authors(authors: &str) -> (res: String)
    ensures
        res@ == format_authors_spec(authors@),
{
    let input = str_chars(authors);
    let and_lower = str_chars(" and ");
    let and_upper = str_chars(" AND ");
    let ampersand = str_chars(" & ");
    proof {
        reveal_strlit(" and ");
        reveal_strlit(" AND ");
        reveal_strlit(" & ");
    }
    let step = replace_chars(&input, &and_lower, &and_upper);
    let normalized = replace_chars(&step, &ampersand, &and_upper);
    let mut parts = split_chars(&normalized, &and_upper);
    let ghost views = parts@.map_values(|v: Vec<char>| v@);
    if parts.len() > 1 {
        let last_index = parts.len() - 1;
        let mut prefixed = str_chars("and ");
        let ghost before = prefixed@;
        prefixed.extend_from_slice(parts[last_index].as_slice());
        proof {
            assert(prefixed@ =~= before + views.last());
        }
        parts.set(last_index, prefixed);
        proof {
            assert(parts@.map_values(|v: Vec<char>| v@) =~= views.update(
                views.len() - 1,
                "and "@ + views.last(),
            ));
        }
    }
    let sep = str_chars(", ");
    let joined = join_chars(&parts, &sep);
    chars_to_string(&joined)
}

/// An author list is split into names at " and ", " & " and " AND "; with
/// several names the result is the names but the last joined by ", ", then
/// ", and " and the last name, however many names there are; a single name
/// is written as it is.
pub proof fn lemma_format_authors_list(authors: Seq<char>)
    ensures
        ({
            let names = split_on(
                replace_all(replace_all(authors, " and "@, " AND "@), " & "@, " AND "@),
                " AND "@,
            );
            &&& names.len() > 1 ==> format_authors_spec(authors) == join_with(
                names.take(names.len() - 1),
                ", "@,
            ) + ", and "@ + names.last()
            &&& names.len() == 1 ==> format_authors_spec(authors) == names[0]
        }),
{
    let names = split_on(
        replace_all(replace_all(authors, " and "@, " AND "@), " & "@, " AND "@),
        " AND "@,
    );
    let n = names.len();
    if n > 1 {
        let marked = names.update(n - 1, "and "@ + names.last());
        assert(marked.drop_last() =~= names.take(n - 1));
        assert(marked.last() == "and "@ + names.last());
        reveal_strlit(", ");
        reveal_strlit("and ");
        reveal_strlit(", and ");
        assert(", "@ + "and "@ =~= ", and "@);
        assert(join_with(names.take(n - 1), ", "@) + ", "@ + ("and "@ + names.last()) =~= join_with(
            names.take(n - 1),
            ", "@,
        ) + ", and "@ + names.last());
    }
}

proof fn lemma_replace_absent(s: Seq<char>, pat: Seq<char>, rep: Seq<char>)
    requires
        pat.len() > 0,
        !contains_seq(s, pat),
    ensures
        replace_all(s, pat, rep) == s,
    decreases s.len(),
{
    if s.len() > 0 {
        assert(s.skip(0) =~= s);
        assert(!has_prefix(s, pat));
        assert(!contains_seq(s.skip(1), pat)) by {
            if contains_seq(s.skip(1), pat) {
                let i = choose|i: int| 0 <= i <= s.skip(1).len() && has_prefix(s.skip(1).skip(i), pat);
                assert(s.skip(1).skip(i) =~= s.skip(i + 1));
                assert(has_prefix(s.skip(i + 1), pat));
            }
        }
        lemma_replace_absent(s.skip(1), pat, rep);
        assert(seq![s[0]] + s.skip(1) =~= s);
    }
}

proof fn lemma_split_absent(s: Seq<char>, pat: Seq<char>, cur: Seq<char>)
    requires
        pat.len() > 0,
        !contains_seq(s, pat),
    ensures
        split_from(s, pat, cur) == seq![cur + s],
    decreases s.len(),
{
    if s.len() > 0 {
        assert(s.skip(0) =~= s);
        assert(!has_prefix(s, pat));
        assert(!contains_seq(s.skip(1), pat)) by {
            if contains_seq(s.skip(1), pat) {
                let i = choose|i: int| 0 <= i <= s.skip(1).len() && has_prefix(s.skip(1).skip(i), pat);
                assert(s.skip(1).skip(i) =~= s.skip(i + 1));
                assert(has_prefix(s.skip(i + 1), pat));
            }
        }
        lemma_split_absent(s.skip(1), pat, cur.push(s[0]));
        assert(cur.push(s[0]) + s.skip(1) =~= cur + s);
    } else {
        assert(cur + s =~= cur);
    }
}

/// A single author, with none of the separators " and ", " & " and " AND "
/// in it, is written out as it is.
pub proof fn lemma_format_single_author(authors: Seq<char>)
    requires
        !contains_seq(authors, " and "@),
        !contains_seq(authors, " & "@),
        !contains_seq(authors, " AND "@),
    ensures
        format_authors_spec(authors) == authors,
{
    reveal_strlit(" and ");
    reveal_strlit(" AND ");
    reveal_strlit(" & ");
    lemma_replace_absent(authors, " and "@, " AND "@);
    lemma_replace_absent(authors, " & "@, " AND "@);
    lemma_split_absent(authors, " AND "@, seq![]);
    assert(Seq::<char>::empty() + authors =~= authors);
}


/// Emphasis and bold marks as written in a plain-text template.
pub const PLAIN_MARKUP: &'static str = r"\*\S[^\*]+\S\*|\*{2}[^\*]+\*{2}|_\S[^_]+\S_";

/// Emphasis marks, turned into `\emph` in LaTeX.
pub const LATEX_EMPH: &'static str = r"\*[^\*]+\*|_\S[^_]+\S_";

/// Bold marks, turned into `\textbf` in LaTeX.
pub const LATEX_BOLD: &'static str = r"\*{2}(?P<b>[^\*]+)\*{2}";

/// What bold text becomes in LaTeX.
pub const LATEX_BOLD_REPLACEMENT: &'static str = r"\textbf{$b}";

/// A run of punctuation, or of blanks.
pub const PUNCTUATION_RUN: &'static str = r"\s*([,\.;:])(\s*[,\.;:]\s*)+|(\s)[\n\s]+";

/// Punctuation at the end.
pub const TRAILING_PUNCTUATION: &'static str = r"\s*[,\.;:]\s*$";

/// Punctuation at the start.
pub const LEADING_PUNCTUATION: &'static str = r"^(\s*[,\.]\s*)+";

/// An abbreviation ("no.", "vol.", "pp.") left without its value.
pub const EMPTY_ABBREVIATION: &'static str = r"([\.,])\s*([Nn]o|[Vv]ol|pp)\.\s*[,\.]\s*";

/// Quotes, parentheses or braces with nothing between them.
pub const EMPTY_DELIMITERS: &'static str = r#"("\s*"\s*|'\s*'\s*|\(\s*\)\s*|`\s*`\s*|\{\s*\}\s*)"#;

/// Markdown emphasis or bold around nothing.
pub const EMPTY_MARKDOWN: &'static str = r#"(\*{2}\s*\*{2}|\*\s+\*|_\s*_)"#;

/// Emphasis or bold marks around nothing, with the blanks after them.
pub const EMPTY_NON_MARKDOWN: &'static str = r#"\*\s*\*\s*|\*{2}\s*\*{2}\s*|_\s*_\s*"#;

/// LaTeX emphasis or bold around nothing.
pub const EMPTY_LATEX: &'static str = r"\\emph\{\s*\}|\\textbf\{\s*\}";

/// Whether `c` is an emphasis mark.
pub open spec fn is_mark(c: char) -> bool {
    c == '*' || c == '_'
}

/// `s` without the emphasis marks at its start.
pub open spec fn trim_start_marks(s: Seq<char>) -> Seq<char>
    decreases s.len(),
{
    if s.len() > 0 && is_mark(s[0]) {
        trim_start_marks(s.skip(1))
    } else {
        s
    }
}

/// `s` without the emphasis marks at its end.
pub open spec fn trim_end_marks(s: Seq<char>) -> Seq<char>
    decreases s.len(),
{
    if s.len() > 0 && is_mark(s.last()) {
        trim_end_marks(s.drop_last())
    } else {
        s
    }
}

/// `s` without the emphasis marks at either end.
pub open spec fn trim_marks(s: Seq<char>) -> Seq<char> {
    trim_end_marks(trim_start_marks(s))
}

/// `s` without the emphasis marks (`*` and `_`) at either end.
pub fn trim_mark_chars(s: &str) -> (res: String)
    ensures
        res@ == trim_marks(s@),
{
    let v = str_chars(s);
    let mut start: usize = 0;
    proof {
        assert(v@.skip(0) =~= v@);
    }
    while start < v.len() && (v[start] == '*' || v[start] == '_')
        invariant
            v@ == s@,
            start <= v.len(),
            trim_start_marks(v@.skip(start as int)) == trim_start_marks(v@),
        decreases v.len() - start,
    {
        proof {
            assert(v@.skip(start as int).skip(1) =~= v@.skip(start + 1));
        }
        start = start + 1;
    }
    let ghost front = v@.skip(start as int);
    let mut end: usize = v.len();
    while end > start && (v[end - 1] == '*' || v[end - 1] == '_')
        invariant
            v@ == s@,
            start <= end <= v.len(),
            front == v@.skip(start as int),
            trim_start_marks(v@) == front,
            trim_end_marks(v@.subrange(start as int, end as int)) == trim_end_marks(front),
        decreases end,
    {
        proof {
            assert(v@.subrange(start as int, end as int).drop_last() =~= v@.subrange(
                start as int,
                end - 1,
            ));
        }
        end = end - 1;
    }
    proof {
        assert(v@.skip(start as int) =~= v@.subrange(start as int, v.len() as int));
        assert(trim_end_marks(v@.subrange(start as int, end as int)) == v@.subrange(
            start as int,
            end as int,
        ));
    }
    let mut out = String::new();
    let mut i = start;
    while i < end
        invariant
            start <= i <= end <= v.len(),
            out@ == v@.subrange(start as int, i as int),
        decreases end - i,
    {
        out.push(v[i]);
        proof {
            assert(v@.subrange(start as int, i + 1) =~= v@.subrange(start as int, i as int).push(
                v@[i as int],
            ));
        }
        i = i + 1;
    }
    out
}

/// `s` with every match of `pattern` replaced by the match without its
/// emphasis marks, put between `before` and `after`; unchanged when the
/// pattern does not compile.
pub open spec fn replace_marked(
    pattern: Seq<char>,
    s: Seq<char>,
    before: Seq<char>,
    after: Seq<char>,
) -> Seq<char> {
    match (regex_split(pattern, s), regex_find_all(pattern, s)) {
        (Some(gaps), Some(found)) => rejoin(
            gaps,
            found.map_values(|m: Seq<char>| before + trim_marks(m) + after),
        ),
        _ => s,
    }
}

/// What an emphasised match becomes: the match without its marks, between
/// `before` and `after`.
pub fn marked_replacement(m: &str, before: &str, after: &str) -> (res: String)
    ensures
        res@ == before@ + trim_marks(m@) + after@,
{
    let mut rep = String::from_str(before);
    let trimmed = trim_mark_chars(m);
    rep.append(trimmed.as_str());
    rep.append(after);
    rep
}

/// Calls `regex::Regex::new` and `Regex::replace_all` with a closure that
/// hands each match to `marked_replacement`. `replace_all` copies the text
/// between successive matches and puts the closure's text in place of each
/// match: the pieces that `Regex::split` gives (named `regex_split`) with the
/// replaced matches that `Regex::find_iter` gives (named `regex_find_all`)
/// between them. `None` when the pattern does not compile.
#[verifier::external_body]
fn replace_marked_all(pattern: &str, haystack: &str, before: &str, after: &str) -> (res: Option<
    String,
>)
    ensures
        res is Some <==> (regex_split(pattern@, haystack@) is Some && regex_find_all(
            pattern@,
            haystack@,
        ) is Some),
        res matches Some(s) ==> s@ == rejoin(
            regex_split(pattern@, haystack@).unwrap(),
            regex_find_all(pattern@, haystack@).unwrap().map_values(
                |m: Seq<char>| before@ + trim_marks(m) + after@,
            ),
        ),
{
    regex::Regex::new(pattern).ok().map(
        |re| re.replace_all(haystack, |c: &regex::Captures| marked_replacement(&c[0], before, after)).into_owned(),
    )
}

/// `s` with every match of `pattern` replaced by the match without its
/// emphasis marks, put between `before` and `after`.
pub fn replace_marked_matches(pattern: &str, s: &str, before: &str, after: &str) -> (res: String)
    ensures
        res@ == replace_marked(pattern@, s@, before@, after@),
{
    match replace_marked_all(pattern, s, before, after) {
        Some(r) => r,
        None => s.to_owned(),
    }
}

/// A plain-text citation from a template: text marked as emphasised or
/// bold is kept without its marks.
pub open spec fn format_plain_spec(citation: Seq<char>) -> Seq<char> {
    replace_marked(PLAIN_MARKUP@, citation, seq![], seq![])
}

/// A plain-text citation from a template: emphasis and bold marks dropped.
pub fn format_plain(citation: &str) -> (res: String)
    ensures
        res@ == format_plain_spec(citation@),
{
    proof {
        assert(""@ =~= Seq::<char>::empty()) by {
            reveal_strlit("");
        }
    }
    replace_marked_matches(PLAIN_MARKUP, citation, "", "")
}

/// A LaTeX citation from a template: bold marks become `\textbf`,
/// emphasis marks become `\emph`, and the whole is a `\bibitem` with the
/// citation key.
pub open spec fn format_latex_spec(citation: Seq<char>, key: Seq<char>) -> Seq<char> {
    let bold = rewrite(LATEX_BOLD@, citation, LATEX_BOLD_REPLACEMENT@);
    let emph = replace_marked(LATEX_EMPH@, bold, "\\emph{"@, "}"@);
    "\\bibitem{"@ + key + "} "@ + emph
}

/// A LaTeX citation from a template, as a `\bibitem` with the citation key.
pub fn format_latex(citation: &str, key: &str) -> (res: String)
    ensures
        res@ == format_latex_spec(citation@, key@),
{
    let bold = rewrite_all(LATEX_BOLD, citation, LATEX_BOLD_REPLACEMENT);
    let emph = replace_marked_matches(LATEX_EMPH, bold.as_str(), "\\emph{", "}");
    let mut out = String::from_str("\\bibitem{");
    out.append(key);
    out.append("} ");
    out.append(emph.as_str());
    out
}

/// `s` with empty quotes, parentheses and braces removed, again and again
/// while any is left, at most `fuel` times.
pub open spec fn clear_empty_delimiters(s: Seq<char>, fuel: nat) -> Seq<char>
    decreases fuel,
{
    if fuel == 0 {
        s
    } else if regex_is_match(EMPTY_DELIMITERS@, s) == Some(true) {
        clear_empty_delimiters(rewrite(EMPTY_DELIMITERS@, s, ""@), (fuel - 1) as nat)
    } else {
        s
    }
}

/// A citation cleaned of the traces of empty fields: abbreviations without
/// a value, empty delimiters (removed as long as any is left; each removal
/// shortens the text, so as many rounds as the text has characters are
/// enough), runs of punctuation or blanks reduced to one, punctuation at the
/// end turned into a period and punctuation at the start removed.
pub open spec fn clear_citation_spec(citation: Seq<char>) -> Seq<char> {
    let a = rewrite(EMPTY_ABBREVIATION@, citation, "$1 "@);
    let b = clear_empty_delimiters(a, a.len());
    let c = rewrite(PUNCTUATION_RUN@, b, "$1 "@);
    let d = rewrite(TRAILING_PUNCTUATION@, c, "."@);
    rewrite(LEADING_PUNCTUATION@, d, ""@)
}

/// A citation cleaned of the traces of empty fields (see
/// `clear_citation_spec`).
pub fn clear_citation(citation: &str) -> (res: String)
    ensures
        res@ == clear_citation_spec(citation@),
{
    let mut formatted = rewrite_all(EMPTY_ABBREVIATION, citation, "$1 ");
    let ghost a = formatted@;
    let mut fuel: usize = formatted.as_str().unicode_len();
    while fuel > 0
        invariant
            clear_empty_delimiters(formatted@, fuel as nat) == clear_empty_delimiters(a, a.len()),
        ensures
            formatted@ == clear_empty_delimiters(a, a.len()),
        decreases fuel,
    {
        match is_match(EMPTY_DELIMITERS, formatted.as_str()) {
            Some(true) => {
                formatted = rewrite_all(EMPTY_DELIMITERS, formatted.as_str(), "");
                fuel = fuel - 1;
            },
            _ => {
                break;
            },
        }
    }
    let formatted = rewrite_all(PUNCTUATION_RUN, formatted.as_str(), "$1 ");
    let formatted = rewrite_all(TRAILING_PUNCTUATION, formatted.as_str(), ".");
    rewrite_all(LEADING_PUNCTUATION, formatted.as_str(), "")
}

/// A Markdown citation without emphasis or bold around nothing.
pub fn clear_markdown(citation: &str) -> (res: String)
    ensures
        res@ == rewrite(EMPTY_MARKDOWN@, citation@, ""@),
{
    rewrite_all(EMPTY_MARKDOWN, citation, "")
}

/// A citation without emphasis or bold marks around nothing.
pub fn clear_non_markdown(citation: &str) -> (res: String)
    ensures
        res@ == rewrite(EMPTY_NON_MARKDOWN@, citation@, ""@),
{
    rewrite_all(EMPTY_NON_MARKDOWN, citation, "")
}

/// A LaTeX citation without `\emph` or `\textbf` around nothing.
pub fn clear_latex(citation: &str) -> (res: String)
    ensures
        res@ == rewrite(EMPTY_LATEX@, citation@, ""@),
{
    rewrite_all(EMPTY_LATEX, citation, "")
}

} // verus!
