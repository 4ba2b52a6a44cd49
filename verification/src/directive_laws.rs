//! What holds of the grammar of directives.
use crate::directive::{blanks, directives, directives_from, is_blank, is_key_char, key_len};
use crate::directive::{is_rename, is_with, DirectiveError, DirectiveSet};
use crate::literal::{cooked_from, escape_at, literal_at};
use vstd::prelude::*;

verus! {

/// A text that stands for itself in a cooked literal: it holds no `"`, no
/// `\` and no carriage return.
pub open spec fn is_literal_text(value: Seq<char>) -> bool {
    forall|i: int|
        0 <= i < value.len() ==> (#[trigger] value[i]) != '"' && value[i] != '\\' && value[i] != '\r'
}

/// One directive as it is written: the key, ` = `, and the value in quotes.
pub open spec fn written(key: Seq<char>, value: Seq<char>) -> Seq<char> {
    key + seq![' ', '=', ' ', '"'] + value + seq!['"']
}

/// The key `rename`, character by character.
pub open spec fn rename_key() -> Seq<char> {
    seq!['r', 'e', 'n', 'a', 'm', 'e']
}

/// The key `with`, character by character.
pub open spec fn with_key() -> Seq<char> {
    seq!['w', 'i', 't', 'h']
}

/// Where no blank stands at `at`, no blanks are skipped.
proof fn lemma_no_blanks(s: Seq<char>, at: int)
    requires
        at < 0 || at >= s.len() || !is_blank(s[at]),
    ensures
        blanks(s, at) == 0,
{
}

/// One blank before something else is one blank.
proof fn lemma_one_blank(s: Seq<char>, at: int)
    requires
        0 <= at < s.len(),
        is_blank(s[at]),
        at + 1 >= s.len() || !is_blank(s[at + 1]),
    ensures
        blanks(s, at) == 1,
{
    lemma_no_blanks(s, at + 1);
}

/// A run of key characters that ends before something else has the length
/// of the run.
proof fn lemma_key_run(s: Seq<char>, at: int, n: nat)
    requires
        0 <= at,
        at + n <= s.len(),
        forall|j: int| at <= j < at + n ==> is_key_char(#[trigger] s[j]),
        at + n == s.len() || !is_key_char(s[at + n]),
    ensures
        key_len(s, at) == n,
    decreases n,
{
    if n > 0 {
        lemma_key_run(s, at + 1, (n - 1) as nat);
    }
}

/// A run of characters that stand for themselves is read as it is.
proof fn lemma_cooked_run(s: Seq<char>, at: int, so_far: Seq<char>, n: nat)
    requires
        0 <= at,
        at + n <= s.len(),
        forall|j: int| at <= j < at + n ==> (#[trigger] s[j]) != '"' && s[j] != '\\' && s[j] != '\r',
    ensures
        cooked_from(s, at, so_far) == cooked_from(s, at + n, so_far + s.subrange(at, at + n)),
    decreases n,
{
    if n > 0 {
        assert(s[at] != '"' && s[at] != '\\' && s[at] != '\r');
        lemma_cooked_run(s, at + 1, so_far.push(s[at]), (n - 1) as nat);
        assert(so_far.push(s[at]) + s.subrange(at + 1, at + n) =~= so_far + s.subrange(at, at + n));
    } else {
        assert(so_far + s.subrange(at, at + n) =~= so_far);
    }
}

/// The keys are told apart.
proof fn lemma_keys()
    ensures
        is_rename(rename_key()),
        !is_with(rename_key()),
        is_with(with_key()),
        !is_rename(with_key()),
{
    reveal_strlit("rename");
    reveal_strlit("with");
    assert(rename_key() =~= "rename"@);
    assert(with_key() =~= "with"@);
    assert(rename_key().len() != with_key().len());
}

/// The characters of a written directive stand in the text.
proof fn lemma_written_at(s: Seq<char>, at: int, key: Seq<char>, value: Seq<char>)
    requires
        0 <= at,
        at + written(key, value).len() <= s.len(),
        s.subrange(at, at + written(key, value).len()) == written(key, value),
    ensures
        forall|j: int| 0 <= j < key.len() ==> s[at + j] == key[j],
        s[at + key.len()] == ' ',
        s[at + key.len() + 1] == '=',
        s[at + key.len() + 2] == ' ',
        s[at + key.len() + 3] == '"',
        forall|j: int| 0 <= j < value.len() ==> s[at + key.len() + 4 + j] == value[j],
        s[at + key.len() + 4 + value.len()] == '"',
        written(key, value).len() == key.len() + value.len() + 5,
{
    let w = written(key, value);
    assert forall|j: int| 0 <= j < w.len() implies s[at + j] == w[j] by {
        assert(s.subrange(at, at + w.len())[j] == s[at + j]);
    }
    assert forall|j: int| 0 <= j < key.len() implies s[at + j] == key[j] by {
        assert(w[j] == key[j]);
    }
    assert forall|j: int| 0 <= j < value.len() implies s[at + key.len() + 4 + j] == value[j] by {
        assert(w[key.len() + 4 + j] == value[j]);
    }
    let k = key.len() as int;
    assert(w[k] == ' ');
    assert(w[k + 1] == '=');
    assert(w[k + 2] == ' ');
    assert(w[k + 3] == '"');
    assert(w[k + 4 + value.len()] == '"');
}

/// The key of a written directive is found where the directive starts.
proof fn lemma_key_at(s: Seq<char>, at: int, key: Seq<char>, value: Seq<char>)
    requires
        0 <= at,
        key == rename_key() || key == with_key(),
        at + written(key, value).len() <= s.len(),
        s.subrange(at, at + written(key, value).len()) == written(key, value),
    ensures
        blanks(s, at) == 0,
        key_len(s, at) == key.len(),
        s.subrange(at, at + key.len()) == key,
{
    lemma_written_at(s, at, key, value);
    let k = key.len() as int;
    assert forall|j: int| at <= j < at + k implies is_key_char(#[trigger] s[j]) by {
        assert(s[at + (j - at)] == key[j - at]);
    }
    assert(s[at + 0] == key[0]);
    lemma_no_blanks(s, at);
    lemma_key_run(s, at, k as nat);
    assert(s.subrange(at, at + k) =~= key);
}

/// The value of a written directive is found after its key.
proof fn lemma_value_at(s: Seq<char>, at: int, key: Seq<char>, value: Seq<char>)
    requires
        0 <= at,
        is_literal_text(value),
        at + written(key, value).len() <= s.len(),
        s.subrange(at, at + written(key, value).len()) == written(key, value),
        at + written(key, value).len() == s.len() || s[at + written(key, value).len()] == ',',
    ensures
        literal_at(s, at + key.len() + 3) == Some((value, at + written(key, value).len())),
{
    lemma_written_at(s, at, key, value);
    let k = key.len() as int;
    let v = value.len() as int;
    assert forall|j: int| at + k + 4 <= j < at + k + 4 + v implies (#[trigger] s[j]) != '"' && s[j]
        != '\\' && s[j] != '\r' by {
        assert(s[at + k + 4 + (j - at - k - 4)] == value[j - at - k - 4]);
    }
    lemma_cooked_run(s, at + k + 4, Seq::empty(), v as nat);
    assert(s.subrange(at + k + 4, at + k + 4 + v) =~= value);
    assert(Seq::<char>::empty() + value =~= value);
}

/// What the grammar makes of one directive that starts at `at` and is
/// written with some literal, given what the literal reads as: the value is
/// taken in under the key, and after a comma the reading goes on.
proof fn lemma_reads_literal(
    s: Seq<char>,
    at: int,
    key: Seq<char>,
    inner: Seq<char>,
    value: Seq<char>,
    so_far: DirectiveSet,
)
    requires
        0 <= at,
        key == rename_key() || key == with_key(),
        at + written(key, inner).len() <= s.len(),
        s.subrange(at, at + written(key, inner).len()) == written(key, inner),
        literal_at(s, at + key.len() + 3) == Some((value, at + written(key, inner).len())),
        key == rename_key() ==> so_far.rename is None,
        key == with_key() ==> so_far.with is None,
        at + written(key, inner).len() == s.len() || s[at + written(key, inner).len()] == ',',
    ensures
        directives_from(s, at, so_far) == {
            let next = if key == rename_key() {
                DirectiveSet { rename: Some(value), with: so_far.with }
            } else {
                DirectiveSet { rename: so_far.rename, with: Some(value) }
            };
            if at + written(key, inner).len() == s.len() {
                Ok::<DirectiveSet, DirectiveError>(next)
            } else {
                directives_from(s, at + written(key, inner).len() + 1, next)
            }
        },
{
    reveal_with_fuel(directives_from, 1);
    lemma_keys();
    lemma_written_at(s, at, key, inner);
    lemma_key_at(s, at, key, inner);
    lemma_one_blank(s, at + key.len());
    lemma_one_blank(s, at + key.len() + 2);
    lemma_no_blanks(s, at + written(key, inner).len());
}

/// What the grammar makes of one written directive that starts at `at`:
/// the value is taken in under the key, and after a comma the reading goes
/// on.
proof fn lemma_reads_written(
    s: Seq<char>,
    at: int,
    key: Seq<char>,
    value: Seq<char>,
    so_far: DirectiveSet,
)
    requires
        0 <= at,
        key == rename_key() || key == with_key(),
        is_literal_text(value),
        at + written(key, value).len() <= s.len(),
        s.subrange(at, at + written(key, value).len()) == written(key, value),
        key == rename_key() ==> so_far.rename is None,
        key == with_key() ==> so_far.with is None,
        at + written(key, value).len() == s.len() || s[at + written(key, value).len()] == ',',
    ensures
        directives_from(s, at, so_far) == {
            let next = if key == rename_key() {
                DirectiveSet { rename: Some(value), with: so_far.with }
            } else {
                DirectiveSet { rename: so_far.rename, with: Some(value) }
            };
            if at + written(key, value).len() == s.len() {
                Ok::<DirectiveSet, DirectiveError>(next)
            } else {
                directives_from(s, at + written(key, value).len() + 1, next)
            }
        },
{
    lemma_value_at(s, at, key, value);
    lemma_reads_literal(s, at, key, value, value, so_far);
}

/// What the grammar makes of a written directive whose key was given
/// before: a fault at the key.
proof fn lemma_reads_duplicate(
    s: Seq<char>,
    at: int,
    key: Seq<char>,
    value: Seq<char>,
    so_far: DirectiveSet,
)
    requires
        0 <= at,
        key == rename_key() || key == with_key(),
        at + written(key, value).len() <= s.len(),
        s.subrange(at, at + written(key, value).len()) == written(key, value),
        key == rename_key() ==> so_far.rename is Some,
        key == with_key() ==> so_far.with is Some,
    ensures
        directives_from(s, at, so_far) == Err::<DirectiveSet, DirectiveError>(
            DirectiveError::DuplicateKey { at: at as usize },
        ),
{
    reveal_with_fuel(directives_from, 1);
    lemma_keys();
    lemma_written_at(s, at, key, value);
    lemma_key_at(s, at, key, value);
}

/// A written `rename` is read as that rename.
pub proof fn law_reads_rename(name: Seq<char>)
    requires
        is_literal_text(name),
    ensures
        directives(written(rename_key(), name)) == Ok::<DirectiveSet, DirectiveError>(
            DirectiveSet { rename: Some(name), with: None },
        ),
{
    let s = written(rename_key(), name);
    assert(s.subrange(0, s.len() as int) == s);
    lemma_reads_written(s, 0, rename_key(), name, DirectiveSet { rename: None, with: None });
}

/// A written `with` is read as that function.
pub proof fn law_reads_with(path: Seq<char>)
    requires
        is_literal_text(path),
    ensures
        directives(written(with_key(), path)) == Ok::<DirectiveSet, DirectiveError>(
            DirectiveSet { rename: None, with: Some(path) },
        ),
{
    let s = written(with_key(), path);
    assert(s.subrange(0, s.len() as int) == s);
    lemma_reads_written(s, 0, with_key(), path, DirectiveSet { rename: None, with: None });
}

/// Two texts joined by a comma: each stands in the whole.
proof fn lemma_joined(a: Seq<char>, b: Seq<char>)
    ensures
        (a + seq![','] + b).len() == a.len() + 1 + b.len(),
        (a + seq![','] + b).subrange(0, a.len() as int) == a,
        (a + seq![','] + b)[a.len() as int] == ',',
        (a + seq![','] + b).subrange(a.len() as int + 1, a.len() as int + 1 + b.len()) == b,
{
    let s = a + seq![','] + b;
    assert(s.subrange(0, a.len() as int) =~= a);
    assert(s.subrange(a.len() as int + 1, a.len() as int + 1 + b.len()) =~= b);
}

/// What the grammar makes of two written directives with a comma between
/// them: the first is taken in, and the second is read after it.
proof fn lemma_reads_first_of_two(
    first_key: Seq<char>,
    first: Seq<char>,
    second_key: Seq<char>,
    second: Seq<char>,
)
    requires
        first_key == rename_key() || first_key == with_key(),
        is_literal_text(first),
    ensures
        directives(written(first_key, first) + seq![','] + written(second_key, second))
            == directives_from(
            written(first_key, first) + seq![','] + written(second_key, second),
            written(first_key, first).len() as int + 1,
            if first_key == rename_key() {
                DirectiveSet { rename: Some(first), with: None }
            } else {
                DirectiveSet { rename: None, with: Some(first) }
            },
        ),
{
    let a = written(first_key, first);
    let b = written(second_key, second);
    lemma_joined(a, b);
    lemma_reads_written(a + seq![','] + b, 0, first_key, first, DirectiveSet { rename: None, with: None });
}

/// A `rename`, then a `with`.
#[verifier::rlimit(50)]
pub proof fn law_reads_rename_then_with(name: Seq<char>, path: Seq<char>)
    requires
        is_literal_text(name),
        is_literal_text(path),
    ensures
        directives(written(rename_key(), name) + seq![','] + written(with_key(), path)) == Ok::<
            DirectiveSet,
            DirectiveError,
        >(DirectiveSet { rename: Some(name), with: Some(path) }),
{
    let a = written(rename_key(), name);
    let b = written(with_key(), path);
    lemma_reads_first_of_two(rename_key(), name, with_key(), path);
    lemma_joined(a, b);
    lemma_reads_written(
        a + seq![','] + b,
        a.len() as int + 1,
        with_key(),
        path,
        DirectiveSet { rename: Some(name), with: None },
    );
}

/// A `with`, then a `rename`: the order of the two does not matter.
#[verifier::rlimit(50)]
pub proof fn law_reads_with_then_rename(name: Seq<char>, path: Seq<char>)
    requires
        is_literal_text(name),
        is_literal_text(path),
    ensures
        directives(written(with_key(), path) + seq![','] + written(rename_key(), name)) == Ok::<
            DirectiveSet,
            DirectiveError,
        >(DirectiveSet { rename: Some(name), with: Some(path) }),
{
    let a = written(with_key(), path);
    let b = written(rename_key(), name);
    lemma_reads_first_of_two(with_key(), path, rename_key(), name);
    lemma_joined(a, b);
    lemma_reads_written(
        a + seq![','] + b,
        a.len() as int + 1,
        rename_key(),
        name,
        DirectiveSet { rename: None, with: Some(path) },
    );
}

/// A key may be given once only: a second `rename` is a fault.
#[verifier::rlimit(50)]
pub proof fn law_no_rename_twice(first: Seq<char>, second: Seq<char>)
    requires
        is_literal_text(first),
    ensures
        directives(written(rename_key(), first) + seq![','] + written(rename_key(), second)) == Err::<
            DirectiveSet,
            DirectiveError,
        >(DirectiveError::DuplicateKey { at: (first.len() + 12) as usize }),
{
    let a = written(rename_key(), first);
    let b = written(rename_key(), second);
    lemma_reads_first_of_two(rename_key(), first, rename_key(), second);
    lemma_joined(a, b);
    lemma_reads_duplicate(
        a + seq![','] + b,
        a.len() as int + 1,
        rename_key(),
        second,
        DirectiveSet { rename: Some(first), with: None },
    );
}

/// A key may be given once only: a second `with` is a fault.
#[verifier::rlimit(50)]
pub proof fn law_no_with_twice(first: Seq<char>, second: Seq<char>)
    requires
        is_literal_text(first),
    ensures
        directives(written(with_key(), first) + seq![','] + written(with_key(), second)) == Err::<
            DirectiveSet,
            DirectiveError,
        >(DirectiveError::DuplicateKey { at: (first.len() + 10) as usize }),
{
    let a = written(with_key(), first);
    let b = written(with_key(), second);
    lemma_reads_first_of_two(with_key(), first, with_key(), second);
    lemma_joined(a, b);
    lemma_reads_duplicate(
        a + seq![','] + b,
        a.len() as int + 1,
        with_key(),
        second,
        DirectiveSet { rename: None, with: Some(first) },
    );
}

/// The value of a directive whose literal holds an escaped quote.
proof fn lemma_escaped_value_at(key: Seq<char>, before: Seq<char>, after: Seq<char>)
    requires
        is_literal_text(before),
        is_literal_text(after),
    ensures
        literal_at(written(key, before + seq!['\\', '"'] + after), key.len() as int + 3) == Some(
            (before + seq!['"'] + after, written(key, before + seq!['\\', '"'] + after).len() as int),
        ),
{
    let inner = before + seq!['\\', '"'] + after;
    let s = written(key, inner);
    let k = key.len() as int;
    let b = before.len() as int;
    let a = after.len() as int;
    assert(s.subrange(0, s.len() as int) == s);
    lemma_written_at(s, 0, key, inner);
    assert forall|j: int| k + 4 <= j < k + 4 + b implies (#[trigger] s[j]) != '"' && s[j] != '\\' && s[j]
        != '\r' by {
        assert(s[k + 4 + (j - k - 4)] == inner[j - k - 4]);
        assert(inner[j - k - 4] == before[j - k - 4]);
    }
    lemma_cooked_run(s, k + 4, Seq::empty(), b as nat);
    let p = k + 4 + b;
    assert(s[p] == inner[b] && inner[b] == '\\');
    assert(s[p + 1] == inner[b + 1] && inner[b + 1] == '"');
    assert(escape_at(s, p + 1) == Some((Some('"'), 1nat)));
    let first = Seq::<char>::empty() + s.subrange(k + 4, p);
    assert(first =~= before) by {
        assert forall|j: int| 0 <= j < b implies first[j] == before[j] by {
            assert(s[k + 4 + j] == inner[j]);
        }
    }
    assert(cooked_from(s, p, first) == cooked_from(s, p + 2, first.push('"')));
    assert forall|j: int| p + 2 <= j < p + 2 + a implies (#[trigger] s[j]) != '"' && s[j] != '\\' && s[j]
        != '\r' by {
        assert(s[k + 4 + (j - k - 4)] == inner[j - k - 4]);
        assert(inner[j - k - 4] == after[j - p - 2]);
    }
    lemma_cooked_run(s, p + 2, first.push('"'), a as nat);
    assert(first.push('"') + s.subrange(p + 2, p + 2 + a) =~= before + seq!['"'] + after) by {
        assert forall|j: int| 0 <= j < a implies s.subrange(p + 2, p + 2 + a)[j] == after[j] by {
            assert(s[k + 4 + (b + 2 + j)] == inner[b + 2 + j]);
        }
    }
    assert(s[p + 2 + a] == '"');
}

/// An escape is read: a `rename` whose literal holds `\"` between two
/// texts that stand for themselves is the first text, a `"`, and the
/// second.
#[verifier::rlimit(50)]
pub proof fn law_reads_escaped_quote(before: Seq<char>, after: Seq<char>)
    requires
        is_literal_text(before),
        is_literal_text(after),
    ensures
        directives(written(rename_key(), before + seq!['\\', '"'] + after)) == Ok::<
            DirectiveSet,
            DirectiveError,
        >(DirectiveSet { rename: Some(before + seq!['"'] + after), with: None }),
{
    let inner = before + seq!['\\', '"'] + after;
    let s = written(rename_key(), inner);
    assert(s.subrange(0, s.len() as int) == s);
    lemma_escaped_value_at(rename_key(), before, after);
    lemma_reads_literal(
        s,
        0,
        rename_key(),
        inner,
        before + seq!['"'] + after,
        DirectiveSet { rename: None, with: None },
    );
}

} // verus!
