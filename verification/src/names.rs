//! Project names: which are accepted, and the spellings derived from one.

use crate::text::{append_chars, chars_of, replace_char, replace_in, string_of};
use vstd::prelude::*;

verus! {

/// Whether `char::is_alphanumeric` holds of `c`.
pub uninterp spec fn is_alphanumeric(c: char) -> bool;

/// Whether `char::is_uppercase` holds of `c`.
pub uninterp spec fn is_uppercase(c: char) -> bool;

/// The characters that `char::to_lowercase` gives for `c`.
pub uninterp spec fn lowercase_of_char(c: char) -> Seq<char>;

/// The characters that `char::to_uppercase` gives for `c`.
pub uninterp spec fn uppercase_of_char(c: char) -> Seq<char>;

/// The text that `str::to_lowercase` gives for `s`.
pub uninterp spec fn lowercase_of(s: Seq<char>) -> Seq<char>;

/// The text that `str::to_uppercase` gives for `s`.
pub uninterp spec fn uppercase_of(s: Seq<char>) -> Seq<char>;

/// Asks `char::is_alphanumeric`.
#[verifier::external_body]
pub(crate) fn char_is_alphanumeric(c: char) -> (r: bool)
    ensures
        r == is_alphanumeric(c),
{
    c.is_alphanumeric()
}

/// Asks `char::is_uppercase`.
#[verifier::external_body]
pub(crate) fn char_is_uppercase(c: char) -> (r: bool)
    ensures
        r == is_uppercase(c),
{
    c.is_uppercase()
}

/// Collects what `char::to_lowercase` gives.
#[verifier::external_body]
pub(crate) fn char_to_lowercase(c: char) -> (r: Vec<char>)
    ensures
        r@ == lowercase_of_char(c),
{
    c.to_lowercase().collect()
}

/// Collects what `char::to_uppercase` gives.
#[verifier::external_body]
pub(crate) fn char_to_uppercase(c: char) -> (r: Vec<char>)
    ensures
        r@ == uppercase_of_char(c),
{
    c.to_uppercase().collect()
}

/// Lowers a text with `str::to_lowercase`.
#[verifier::external_body]
pub(crate) fn str_to_lowercase(s: &str) -> (r: String)
    ensures
        r@ == lowercase_of(s@),
{
    s.to_lowercase()
}

/// Raises a text with `str::to_uppercase`.
#[verifier::external_body]
pub(crate) fn str_to_uppercase(s: &str) -> (r: String)
    ensures
        r@ == uppercase_of(s@),
{
    s.to_uppercase()
}

/// `c` may stand in a project name: a letter, a digit, a hyphen or an
/// underscore.
pub open spec fn name_char(c: char) -> bool {
    is_alphanumeric(c) || c == '-' || c == '_'
}

/// `s` is an accepted project name: not empty, made of name characters,
/// beginning with neither a hyphen nor an underscore, and not ending with a
/// hyphen.
pub open spec fn valid_project_name(s: Seq<char>) -> bool {
    &&& s.len() > 0
    &&& forall|i: int| 0 <= i < s.len() ==> name_char(#[trigger] s[i])
    &&& s[0] != '-'
    &&& s[0] != '_'
    &&& s[s.len() - 1] != '-'
}

/// Tells whether `name` is an accepted project name.
pub fn project_name_validator(name: &str) -> (r: bool)
    ensures
        r == valid_project_name(name@),
{
    let v = chars_of(name);
    if v.len() == 0 {
        return false;
    }
    let mut i: usize = 0;
    while i < v.len()
        invariant
            0 <= i <= v.len(),
            v@ == name@,
            forall|j: int| 0 <= j < i ==> name_char(#[trigger] v@[j]),
        decreases v.len() - i,
    {
        let c = v[i];
        if !(char_is_alphanumeric(c) || c == '-' || c == '_') {
            assert(!name_char(name@[i as int]));
            return false;
        }
        i += 1;
    }
    v[0] != '-' && v[0] != '_' && v[v.len() - 1] != '-'
}

/// The snake-case spelling: hyphens become underscores, and the whole is
/// lowered.
pub open spec fn snake_case(s: Seq<char>) -> Seq<char> {
    lowercase_of(replace_char(s, '-', '_'))
}

/// Spells `name` in snake case, as in `vault_program` for `vault-program`.
pub fn to_snake_case(name: &str) -> (r: String)
    ensures
        r@ == snake_case(name@),
{
    let replaced = replace_in(name, '-', '_');
    str_to_lowercase(replaced.as_str())
}

/// The one character that stands for `c` lowered: the first that
/// `char::to_lowercase` gives, or `c` itself where it gives none.
pub open spec fn lowered(c: char) -> char {
    if lowercase_of_char(c).len() > 0 {
        lowercase_of_char(c)[0]
    } else {
        c
    }
}

/// The kebab-case spelling before underscores are turned: each character
/// lowered, with a hyphen before every upper-case character but the first
/// character of the name.
pub open spec fn hyphenated(s: Seq<char>) -> Seq<char>
    decreases s.len(),
{
    if s.len() == 0 {
        Seq::empty()
    } else {
        let head = hyphenated(s.drop_last());
        if is_uppercase(s.last()) && s.len() > 1 {
            head.push('-').push(lowered(s.last()))
        } else {
            head.push(lowered(s.last()))
        }
    }
}

/// The kebab-case spelling: lowered, a hyphen before every upper-case
/// character but the first, and every underscore turned into a hyphen.
pub open spec fn kebab_case(s: Seq<char>) -> Seq<char> {
    replace_char(hyphenated(s), '_', '-')
}

/// Spells `name` in kebab case, as in `vault-program` for `VaultProgram`.
pub fn to_kebab_case(name: &str) -> (r: String)
    ensures
        r@ == kebab_case(name@),
{
    let v = chars_of(name);
    let mut out: Vec<char> = Vec::new();
    let mut i: usize = 0;
    while i < v.len()
        invariant
            0 <= i <= v.len(),
            out@ == kebab_case(v@.take(i as int)),
        decreases v.len() - i,
    {
        let c = v[i];
        let ghost before = v@.take(i as int);
        let ghost now = v@.take(i + 1);
        proof {
            assert(now.drop_last() =~= before);
            assert(now.last() == c);
        }
        if char_is_uppercase(c) && i > 0 {
            out.push('-');
        }
        let low = char_to_lowercase(c);
        let d = if low.len() > 0 {
            low[0]
        } else {
            c
        };
        out.push(if d == '_' { '-' } else { d });
        proof {
            assert(out@ =~= kebab_case(now));
        }
        i += 1;
    }
    proof {
        assert(v@.take(v@.len() as int) =~= v@);
    }
    string_of(&out)
}

/// `c` parts the words of a name.
pub open spec fn is_separator(c: char) -> bool {
    c == '-' || c == '_'
}

/// The words of a name: the pieces between its hyphens and underscores.
pub open spec fn words(s: Seq<char>) -> Seq<Seq<char>>
    decreases s.len(),
{
    if s.len() == 0 {
        seq![Seq::empty()]
    } else {
        let before = words(s.drop_last());
        if is_separator(s.last()) {
            before.push(Seq::empty())
        } else {
            before.drop_last().push(before.last().push(s.last()))
        }
    }
}

/// A word with its first character raised and the rest lowered.
pub open spec fn capitalized(w: Seq<char>) -> Seq<char> {
    if w.len() == 0 {
        Seq::empty()
    } else {
        uppercase_of_char(w[0]) + lowercase_of(w.skip(1))
    }
}

/// The words of `ws`, each capitalized, one after the other.
pub open spec fn capitalized_all(ws: Seq<Seq<char>>) -> Seq<char>
    decreases ws.len(),
{
    if ws.len() == 0 {
        Seq::empty()
    } else {
        capitalized_all(ws.drop_last()) + capitalized(ws.last())
    }
}

/// The Pascal-case spelling: the words of the name, each capitalized, with
/// nothing between them.
pub open spec fn pascal_case(s: Seq<char>) -> Seq<char> {
    capitalized_all(words(s))
}

/// A name has at least one word.
pub proof fn lemma_words_nonempty(s: Seq<char>)
    ensures
        words(s).len() >= 1,
    decreases s.len(),
{
    if s.len() > 0 {
        lemma_words_nonempty(s.drop_last());
    }
}

/// Appends a word, capitalized, to `out`.
fn push_capitalized(out: &mut Vec<char>, word: &Vec<char>)
    ensures
        final(out)@ == old(out)@ + capitalized(word@),
{
    if word.len() > 0 {
        let first = char_to_uppercase(word[0]);
        append_chars(out, &first);
        let mut rest: Vec<char> = Vec::new();
        let mut j: usize = 1;
        while j < word.len()
            invariant
                1 <= j <= word.len(),
                rest@ == word@.subrange(1, j as int),
            decreases word.len() - j,
        {
            rest.push(word[j]);
            proof {
                assert(rest@ =~= word@.subrange(1, j + 1));
            }
            j += 1;
        }
        proof {
            assert(rest@ =~= word@.skip(1));
        }
        let tail = string_of(&rest);
        let low = str_to_lowercase(tail.as_str());
        let low_chars = chars_of(low.as_str());
        append_chars(out, &low_chars);
        proof {
            assert(out@ =~= old(out)@ + capitalized(word@));
        }
    } else {
        proof {
            assert(out@ =~= old(out)@ + capitalized(word@));
        }
    }
}

/// Spells `name` in Pascal case, as in `VaultProgram` for `vault-program`.
pub fn to_pascal_case(name: &str) -> (r: String)
    ensures
        r@ == pascal_case(name@),
{
    let v = chars_of(name);
    let mut out: Vec<char> = Vec::new();
    let mut cur: Vec<char> = Vec::new();
    let mut i: usize = 0;
    proof {
        assert(v@.take(0) =~= Seq::<char>::empty());
        assert(words(v@.take(0)).drop_last() =~= Seq::<Seq<char>>::empty());
    }
    while i < v.len()
        invariant
            0 <= i <= v.len(),
            words(v@.take(i as int)).len() >= 1,
            cur@ == words(v@.take(i as int)).last(),
            out@ == capitalized_all(words(v@.take(i as int)).drop_last()),
        decreases v.len() - i,
    {
        let c = v[i];
        let ghost before = words(v@.take(i as int));
        let ghost now = v@.take(i + 1);
        proof {
            assert(now.drop_last() =~= v@.take(i as int));
            assert(now.last() == c);
            lemma_words_nonempty(now);
        }
        if c == '-' || c == '_' {
            push_capitalized(&mut out, &cur);
            cur = Vec::new();
            proof {
                assert(words(now) == before.push(Seq::empty()));
                assert(words(now).drop_last() =~= before);
                assert(before.drop_last().push(before.last()) =~= before);
            }
        } else {
            cur.push(c);
            proof {
                assert(words(now) == before.drop_last().push(before.last().push(c)));
                assert(words(now).drop_last() =~= before.drop_last());
            }
        }
        i += 1;
    }
    proof {
        assert(v@.take(v@.len() as int) =~= v@);
        let ws = words(v@);
        assert(ws.drop_last().push(ws.last()) =~= ws);
    }
    push_capitalized(&mut out, &cur);
    string_of(&out)
}

/// The spellings of a project name that the generated files use.
#[derive(Clone, Debug)]
pub struct TemplateVariables {
    pub project_name: String,
    pub snake_name: String,
    pub pascal_name: String,
    pub kebab_name: String,
    pub program_name: String,
}

/// The name of the program type: the Pascal-case spelling followed by
/// `Program`.
pub open spec fn program_type_name(s: Seq<char>) -> Seq<char> {
    pascal_case(s) + "Program"@
}

/// Derives the spellings of `project_name`. They are the same for every
/// template.
pub fn generate_template_variables(project_name: &str, template_type: &str) -> (r:
    TemplateVariables)
    ensures
        r.project_name@ == project_name@,
        r.snake_name@ == snake_case(project_name@),
        r.pascal_name@ == pascal_case(project_name@),
        r.kebab_name@ == kebab_case(project_name@),
        r.program_name@ == program_type_name(project_name@),
{
    let snake_name = to_snake_case(project_name);
    let pascal_name = to_pascal_case(project_name);
    let kebab_name = to_kebab_case(project_name);
    let mut program = chars_of(pascal_name.as_str());
    let suffix = chars_of("Program");
    append_chars(&mut program, &suffix);
    TemplateVariables {
        project_name: project_name.to_owned(),
        snake_name,
        pascal_name,
        kebab_name,
        program_name: string_of(&program),
    }
}

} // verus!
