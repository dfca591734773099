//! The placeholders `${NAME}` of a configuration file, which name
//! environment variables: a name starts with a letter or `_`
//! and goes on with letters, digits and `_`. The file is read from left to
//! right; each placeholder found is replaced by the value of its variable,
//! and the search goes on after it.
use vstd::prelude::*;
use crate::text::string_push;

verus! {

/// A character that can start a name.
pub open spec fn is_name_start(c: char) -> bool {
    c == '_' || ('a' <= c && c <= 'z') || ('A' <= c && c <= 'Z')
}

/// A character that can go on with a name.
pub open spec fn is_name_char(c: char) -> bool {
    is_name_start(c) || ('0' <= c && c <= '9')
}

/// How many name characters follow from position `i` on.
pub open spec fn name_run(s: Seq<char>, i: int) -> nat
    decreases s.len() - i,
{
    if 0 <= i < s.len() && is_name_char(s[i]) {
        1 + name_run(s, i + 1)
    } else {
        0
    }
}

/// The length of the name of the placeholder that starts at `i`, if one
/// does: `$`, `{`, a name, `}`.
pub open spec fn placeholder_at(s: Seq<char>, i: int) -> Option<nat> {
    if 0 <= i && i + 2 < s.len() && s[i] == '$' && s[i + 1] == '{' && is_name_start(s[i + 2]) {
        let n = name_run(s, i + 2);
        if i + 2 + n < s.len() && s[i + 2 + n] == '}' {
            Some(n)
        } else {
            None
        }
    } else {
        None
    }
}

/// The names of the placeholders from position `i` on, in order.
pub open spec fn names_from(s: Seq<char>, i: int) -> Seq<Seq<char>>
    decreases s.len() - i,
{
    if i < 0 || i >= s.len() {
        Seq::empty()
    } else {
        match placeholder_at(s, i) {
            Some(n) => seq![s.subrange(i + 2, i + 2 + n)] + names_from(s, i + n + 3),
            None => names_from(s, i + 1),
        }
    }
}

/// The text from position `i` on with its placeholders replaced by
/// `values`, the first of them for the first placeholder.
pub open spec fn substituted_from(s: Seq<char>, i: int, values: Seq<Seq<char>>) -> Seq<char>
    decreases s.len() - i,
{
    if i < 0 || i >= s.len() {
        Seq::empty()
    } else {
        match placeholder_at(s, i) {
            Some(n) => values[0] + substituted_from(s, i + n + 3, values.drop_first()),
            None => seq![s[i]] + substituted_from(s, i + 1, values),
        }
    }
}

/// `name_run` never runs past the end.
proof fn lemma_name_run_bounds(s: Seq<char>, i: int)
    requires
        0 <= i <= s.len(),
    ensures
        0 <= name_run(s, i) <= s.len() - i,
        forall|j: int| i <= j < i + name_run(s, i) ==> is_name_char(#[trigger] s[j]),
        i + name_run(s, i) < s.len() ==> !is_name_char(s[i + name_run(s, i)]),
    decreases s.len() - i,
{
    if i < s.len() && is_name_char(s[i]) {
        lemma_name_run_bounds(s, i + 1);
    }
}

/// Whether `c` is a name character.
fn name_char(c: char) -> (r: bool)
    ensures
        r == is_name_char(c),
{
    c == '_' || ('a' <= c && c <= 'z') || ('A' <= c && c <= 'Z') || ('0' <= c && c <= '9')
}

/// The characters of a text.
fn chars_of(s: &str) -> (r: Vec<char>)
    ensures
        r@ == s@,
{
    let mut r: Vec<char> = Vec::new();
    let ghost all = s@;
    proof {
        vstd::string::axiom_spec_iter(s);
    }
    for c in it: s.chars()
        invariant
            it.seq() == all,
            r@ == all.take(it.index() as int),
    {
        proof {
            assert(c == all[it.index() as int]);
            assert(all.take(it.index() + 1) =~= all.take(it.index() as int).push(c));
        }
        r.push(c);
    }
    proof {
        assert(all.take(all.len() as int) =~= all);
    }
    r
}

/// The length of the name of the placeholder at `i`, if one starts there.
fn find_placeholder(s: &Vec<char>, i: usize) -> (r: Option<usize>)
    requires
        i < s.len(),
    ensures
        match placeholder_at(s@, i as int) {
            Some(n) => r == Some(n as usize),
            None => r is None,
        },
        r matches Some(n) ==> i + n + 3 <= s.len(),
{
    if s.len() - i > 2 && s[i] == '$' && s[i + 1] == '{' && (s[i + 2] == '_' || ('a' <= s[i + 2] && s[i + 2] <= 'z') || (
    'A' <= s[i + 2] && s[i + 2] <= 'Z')) {
        let mut j: usize = i + 2;
        proof {
            lemma_name_run_bounds(s@, i + 2);
        }
        while j < s.len() && name_char(s[j])
            invariant
                i + 2 <= j <= s.len(),
                j - (i + 2) <= name_run(s@, i as int + 2),
                name_run(s@, j as int) == name_run(s@, i as int + 2) - (j - (i + 2)),
            decreases s.len() - j,
        {
            j = j + 1;
        }
        proof {
            if j < s.len() {
                assert(!is_name_char(s@[j as int]));
            }
            assert(name_run(s@, j as int) == 0);
        }
        if j < s.len() && s[j] == '}' {
            Some(j - (i + 2))
        } else {
            None
        }
    } else {
        None
    }
}

/// The names of the placeholders of a text, in order: the variables that
/// the text asks for.
pub fn placeholder_names(text: &str) -> (r: Vec<String>)
    ensures
        r@.map_values(|n: String| n@) == names_from(text@, 0),
{
    let s = chars_of(text);
    let mut r: Vec<String> = Vec::new();
    let mut i: usize = 0;
    while i < s.len()
        invariant
            s@ == text@,
            i <= s.len(),
            r@.map_values(|n: String| n@) + names_from(s@, i as int) == names_from(s@, 0),
        decreases s.len() - i,
    {
        let ghost before = r@.map_values(|n: String| n@);
        match find_placeholder(&s, i) {
            Some(n) => {
                let mut name = String::new();
                let mut k: usize = i + 2;
                while k < i + 2 + n
                    invariant
                        i + 2 <= k <= i + 2 + n,
                        i + n + 3 <= s.len(),
                        name@ == s@.subrange(i + 2, k as int),
                    decreases i + 2 + n - k,
                {
                    string_push(&mut name, s[k]);
                    proof {
                        assert(s@.subrange(i + 2, k + 1) =~= s@.subrange(i + 2, k as int).push(s@[k as int]));
                    }
                    k = k + 1;
                }
                r.push(name);
                proof {
                    assert(r@.map_values(|n: String| n@) =~= before.push(s@.subrange(i + 2, i + 2 + n)));
                    assert(names_from(s@, i as int) == seq![s@.subrange(i + 2, i + 2 + n)] + names_from(
                        s@,
                        i + n + 3,
                    ));
                    assert(before.push(s@.subrange(i + 2, i + 2 + n)) + names_from(s@, i + n + 3) =~= before
                        + names_from(s@, i as int));
                }
                i = i + n + 3;
            },
            None => {
                i = i + 1;
            },
        }
    }
    r
}

/// The text with each placeholder replaced by the value of its variable:
/// `values` holds one value for each name of `placeholder_names`, in order.
pub fn substitute_placeholders(text: &str, values: &Vec<String>) -> (r: String)
    requires
        values@.len() == names_from(text@, 0).len(),
    ensures
        r@ == substituted_from(text@, 0, values@.map_values(|v: String| v@)),
{
    let s = chars_of(text);
    let ghost vals = values@.map_values(|v: String| v@);
    let mut r = String::new();
    let mut i: usize = 0;
    let mut k: usize = 0;
    proof {
        assert(vals.skip(0) =~= vals);
    }
    while i < s.len()
        invariant
            s@ == text@,
            i <= s.len(),
            vals == values@.map_values(|v: String| v@),
            k + names_from(s@, i as int).len() == values@.len(),
            r@ + substituted_from(s@, i as int, vals.skip(k as int)) == substituted_from(s@, 0, vals),
        decreases s.len() - i,
    {
        let ghost before = r@;
        match find_placeholder(&s, i) {
            Some(n) => {
                proof {
                    assert(names_from(s@, i as int) == seq![s@.subrange(i + 2, i + 2 + n)] + names_from(
                        s@,
                        i + n + 3,
                    ));
                    assert(k < values.len());
                }
                let v = &values[k];
                let mut j: usize = 0;
                let vs = chars_of(v.as_str());
                while j < vs.len()
                    invariant
                        j <= vs.len(),
                        vs@ == v@,
                        r@ == before + vs@.take(j as int),
                    decreases vs.len() - j,
                {
                    string_push(&mut r, vs[j]);
                    proof {
                        assert(vs@.take(j + 1) =~= vs@.take(j as int).push(vs@[j as int]));
                    }
                    j = j + 1;
                }
                proof {
                    assert(vs@.take(j as int) =~= vs@);
                    assert(vals.skip(k as int)[0] == v@);
                    assert(vals.skip(k as int).drop_first() =~= vals.skip(k + 1));
                    assert(substituted_from(s@, i as int, vals.skip(k as int)) == v@ + substituted_from(
                        s@,
                        i + n + 3,
                        vals.skip(k + 1),
                    ));
                    assert(r@ + substituted_from(s@, i + n + 3, vals.skip(k + 1)) =~= before
                        + substituted_from(s@, i as int, vals.skip(k as int)));
                }
                i = i + n + 3;
                k = k + 1;
            },
            None => {
                string_push(&mut r, s[i]);
                proof {
                    assert(r@ + substituted_from(s@, i + 1, vals.skip(k as int)) =~= before
                        + substituted_from(s@, i as int, vals.skip(k as int)));
                }
                i = i + 1;
            },
        }
    }
    r
}

/// A text without `$` has no placeholder and is left as it is, from any
/// position on.
pub proof fn lemma_plain_text_unchanged(s: Seq<char>, i: int, values: Seq<Seq<char>>)
    requires
        0 <= i <= s.len(),
        forall|j: int| 0 <= j < s.len() ==> s[j] != '$',
    ensures
        names_from(s, i) == Seq::<Seq<char>>::empty(),
        substituted_from(s, i, values) == s.subrange(i, s.len() as int),
    decreases s.len() - i,
{
    if i < s.len() {
        lemma_plain_text_unchanged(s, i + 1, values);
        assert(s.subrange(i, s.len() as int) =~= seq![s[i]] + s.subrange(i + 1, s.len() as int));
    } else {
        assert(s.subrange(i, s.len() as int) =~= Seq::<char>::empty());
    }
}

} // verus!
