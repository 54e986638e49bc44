use vstd::prelude::*;
use vstd::string::StrSliceExecFns;

verus! {

/// The languages that the editor tells apart by file extension.
#[derive(PartialEq, Eq, Structural, Clone, Copy, Debug)]
pub enum Language {
    Rust,
    Python,
    Lua,
    Shell,
    Sql,
    Assembly,
    PlainText,
}

/// The part of `name` after its last '.', or all of `name` when it has none.
pub open spec fn extension(name: Seq<char>) -> Seq<char>
    decreases name.len(),
{
    if name.len() == 0 {
        name
    } else if name.last() == '.' {
        Seq::empty()
    } else {
        extension(name.drop_last()).push(name.last())
    }
}

pub open spec fn language_of_extension(e: Seq<char>) -> Language {
    if e == "rs"@ {
        Language::Rust
    } else if e == "py"@ || e == "py3"@ || e == "pyw"@ {
        Language::Python
    } else if e == "lua"@ {
        Language::Lua
    } else if e == "sh"@ || e == "bash"@ || e == "zsh"@ {
        Language::Shell
    } else if e == "sql"@ {
        Language::Sql
    } else if e == "asm"@ || e == "s"@ {
        Language::Assembly
    } else {
        Language::PlainText
    }
}

/// The language of a file by its name; plain text when there is no name.
pub open spec fn language_of_file(filename: Option<Seq<char>>) -> Language {
    match filename {
        Some(name) => language_of_extension(extension(name)),
        None => Language::PlainText,
    }
}

pub open spec fn language_name(l: Language) -> Seq<char> {
    match l {
        Language::Rust => "Rust"@,
        Language::Python => "Python"@,
        Language::Lua => "Lua"@,
        Language::Shell => "Shell"@,
        Language::Sql => "SQL"@,
        Language::Assembly => "Assembly"@,
        Language::PlainText => "Plain Text"@,
    }
}

pub open spec fn name_view(filename: Option<&String>) -> Option<Seq<char>> {
    match filename {
        Some(s) => Some(s@),
        None => None,
    }
}

proof fn lemma_extension_after(s: Seq<char>, k: int)
    requires
        -1 <= k < s.len(),
        k >= 0 ==> s[k] == '.',
        forall|j: int| k < j < s.len() ==> s[j] != '.',
    ensures
        extension(s) == s.subrange(k + 1, s.len() as int),
    decreases s.len(),
{
    if s.len() == 0 {
        assert(s.subrange(0, 0) =~= s);
    } else if k == s.len() - 1 {
        assert(s.subrange(k + 1, s.len() as int) =~= Seq::<char>::empty());
    } else {
        lemma_extension_after(s.drop_last(), k);
        assert(s.drop_last().subrange(k + 1, s.len() - 1).push(s.last()) =~= s.subrange(
            k + 1,
            s.len() as int,
        ));
    }
}

/// Where the extension of `name` begins: just past its last '.', or 0.
fn extension_start(name: &str) -> (r: usize)
    ensures
        r <= name@.len(),
        extension(name@) == name@.subrange(r as int, name@.len() as int),
{
    let n = name.unicode_len();
    let mut i: usize = n;
    while i > 0
        invariant
            n == name@.len(),
            i <= n,
            forall|j: int| i <= j < n ==> name@[j] != '.',
        decreases i,
    {
        if name.get_char(i - 1) == '.' {
            proof {
                lemma_extension_after(name@, i - 1);
            }
            return i;
        }
        i = i - 1;
    }
    proof {
        lemma_extension_after(name@, -1);
    }
    0
}

/// Whether the characters of `s` from `from` on are exactly `word`.
fn tail_is(s: &str, from: usize, word: &str) -> (r: bool)
    requires
        from <= s@.len(),
    ensures
        r == (s@.subrange(from as int, s@.len() as int) == word@),
{
    let n = s.unicode_len();
    let m = word.unicode_len();
    if n - from != m {
        assert(s@.subrange(from as int, s@.len() as int).len() != word@.len());
        return false;
    }
    let mut j: usize = 0;
    while j < m
        invariant
            n == s@.len(),
            m == word@.len(),
            from + m == n,
            j <= m,
            forall|k: int| 0 <= k < j ==> s@[from + k] == word@[k],
        decreases m - j,
    {
        if s.get_char(from + j) != word.get_char(j) {
            assert(s@.subrange(from as int, s@.len() as int)[j as int] != word@[j as int]);
            return false;
        }
        j = j + 1;
    }
    assert(s@.subrange(from as int, s@.len() as int) =~= word@);
    true
}

/// The language of a file by the extension of its name.
pub fn language_for_file(filename: Option<&String>) -> (r: Language)
    ensures
        r == language_of_file(name_view(filename)),
{
    let name = match filename {
        Some(name) => name.as_str(),
        None => {
            return Language::PlainText;
        },
    };
    let at = extension_start(name);
    if tail_is(name, at, "rs") {
        Language::Rust
    } else if tail_is(name, at, "py") || tail_is(name, at, "py3") || tail_is(name, at, "pyw") {
        Language::Python
    } else if tail_is(name, at, "lua") {
        Language::Lua
    } else if tail_is(name, at, "sh") || tail_is(name, at, "bash") || tail_is(name, at, "zsh") {
        Language::Shell
    } else if tail_is(name, at, "sql") {
        Language::Sql
    } else if tail_is(name, at, "asm") || tail_is(name, at, "s") {
        Language::Assembly
    } else {
        Language::PlainText
    }
}

impl Language {
    /// The name shown to the user.
    pub fn name(&self) -> (r: &'static str)
        ensures
            r@ == language_name(*self),
    {
        match self {
            Language::Rust => "Rust",
            Language::Python => "Python",
            Language::Lua => "Lua",
            Language::Shell => "Shell",
            Language::Sql => "SQL",
            Language::Assembly => "Assembly",
            Language::PlainText => "Plain Text",
        }
    }
}

/// A human-readable name for the language of the named file.
pub fn get_language_name(filename: Option<&String>) -> (r: &'static str)
    ensures
        r@ == language_name(language_of_file(name_view(filename))),
{
    language_for_file(filename).name()
}

} // verus!
