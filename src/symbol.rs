//! Exported symbol names: `Boundary_{namespace}_{class}_{method}`, where a dot of the
//! namespace becomes `_` and every literal `_` becomes the two characters `_1`.
use vstd::prelude::*;
use vstd::string::StrSliceExecFns;
use crate::text::push_char;

verus! {

/// The fixed prefix of every exported symbol.
pub open spec fn symbol_prefix() -> Seq<char> {
    seq!['B', 'o', 'u', 'n', 'd', 'a', 'r', 'y', '_']
}

/// What one character of a name becomes in a symbol.
pub open spec fn escape_char(c: char) -> Seq<char> {
    if c == '_' {
        seq!['_', '1']
    } else if c == '.' {
        seq!['_']
    } else {
        seq![c]
    }
}

/// A name with every character escaped.
pub open spec fn escape(s: Seq<char>) -> Seq<char>
    decreases s.len(),
{
    if s.len() == 0 {
        Seq::empty()
    } else {
        escape(s.drop_last()) + escape_char(s.last())
    }
}

/// The symbol exported for `method` of `class` in `namespace`.
pub open spec fn symbol_of(namespace: Seq<char>, class: Seq<char>, method: Seq<char>) -> Seq<char> {
    symbol_prefix() + escape(namespace) + seq!['_'] + escape(class) + seq!['_'] + escape(method)
}

pub open spec fn is_ascii_digit(c: char) -> bool {
    '0' <= c <= '9'
}

/// A class or method identifier: not empty, no leading digit, no dot.
pub open spec fn is_identifier(s: Seq<char>) -> bool {
    &&& s.len() > 0
    &&& !is_ascii_digit(s[0])
    &&& forall|i: int| 0 <= i < s.len() ==> s[i] != '.'
}

/// A dotted namespace: identifiers joined by single dots.
pub open spec fn is_qualified_name(s: Seq<char>) -> bool {
    &&& s.len() > 0
    &&& !is_ascii_digit(s[0])
    &&& forall|i: int|
        #![trigger s[i]]
        0 <= i < s.len() && s[i] == '.' ==> i + 1 < s.len() && s[i + 1] != '.' && !is_ascii_digit(
            s[i + 1],
        )
}

/// No `1` directly follows a dot: the property that keeps `_1` apart from a separator.
pub open spec fn no_one_after_dot(s: Seq<char>) -> bool {
    forall|i: int| 0 <= i < s.len() - 1 && s[i] == '.' ==> #[trigger] s[i + 1] != '1'
}

/// The namespace, class and method joined by dots.
pub open spec fn dotted(namespace: Seq<char>, class: Seq<char>, method: Seq<char>) -> Seq<char> {
    namespace + seq!['.'] + class + seq!['.'] + method
}

proof fn lemma_escape_concat(a: Seq<char>, b: Seq<char>)
    ensures
        escape(a + b) == escape(a) + escape(b),
    decreases b.len(),
{
    if b.len() == 0 {
        assert(a + b =~= a);
        assert(escape(a) + escape(b) =~= escape(a));
    } else {
        lemma_escape_concat(a, b.drop_last());
        assert((a + b).drop_last() =~= a + b.drop_last());
        assert((a + b).last() == b.last());
        assert(escape(a + b) =~= escape(a) + escape(b));
    }
}

proof fn lemma_escape_len(s: Seq<char>)
    ensures
        escape(s).len() >= s.len(),
    decreases s.len(),
{
    if s.len() > 0 {
        lemma_escape_len(s.drop_last());
    }
}

proof fn lemma_escape_injective(s: Seq<char>, t: Seq<char>)
    requires
        no_one_after_dot(s),
        no_one_after_dot(t),
        escape(s) == escape(t),
    ensures
        s == t,
    decreases s.len() + t.len(),
{
    lemma_escape_len(s);
    lemma_escape_len(t);
    if s.len() == 0 || t.len() == 0 {
        assert(s =~= t);
    } else {
        let s0 = s.drop_last();
        let t0 = t.drop_last();
        let a = s.last();
        let b = t.last();
        let es = escape(s);
        assert(es == escape(s0) + escape_char(a));
        assert(es == escape(t0) + escape_char(b));
        assert(es.last() == escape_char(a).last());
        assert(es.last() == escape_char(b).last());
        assert(no_one_after_dot(s0)) by {
            assert forall|i: int| 0 <= i < s0.len() - 1 && s0[i] == '.' implies #[trigger] s0[i + 1] != '1' by {
                assert(s[i] == s0[i] && s[i + 1] == s0[i + 1]);
            }
        }
        assert(no_one_after_dot(t0)) by {
            assert forall|i: int| 0 <= i < t0.len() - 1 && t0[i] == '.' implies #[trigger] t0[i + 1] != '1' by {
                assert(t[i] == t0[i] && t[i + 1] == t0[i + 1]);
            }
        }
        if escape_char(a).len() == escape_char(b).len() {
            assert(escape_char(a) =~= es.subrange(es.len() - escape_char(a).len(), es.len() as int));
            assert(escape_char(b) =~= es.subrange(es.len() - escape_char(b).len(), es.len() as int));
            assert(a == b);
            assert(escape(s0) =~= es.subrange(0, es.len() - escape_char(a).len()));
            assert(escape(t0) =~= es.subrange(0, es.len() - escape_char(b).len()));
            lemma_escape_injective(s0, t0);
            assert(s =~= s0.push(a));
            assert(t =~= t0.push(b));
        } else if a == '_' {
            assert(b == '1');
            assert(escape_char(a) == seq!['_', '1']);
            assert(escape_char(b) == seq!['1']);
            assert(escape(t0) =~= es.subrange(0, es.len() - 1));
            assert(escape(s0) + seq!['_'] =~= es.subrange(0, es.len() - 1));
            assert(escape(t0) =~= escape(s0) + seq!['_']);
            lemma_escape_len(t0);
            if t0.len() == 0 {
                assert(false);
            } else {
                assert(escape(t0) == escape(t0.drop_last()) + escape_char(t0.last()));
                assert(escape(t0).last() == escape_char(t0.last()).last());
                assert(t0.last() == '.');
                assert(t[t.len() - 2] == '.' && t[t.len() - 2 + 1] == '1');
            }
        } else {
            assert(b == '_');
            assert(a == '1');
            assert(escape_char(b) == seq!['_', '1']);
            assert(escape_char(a) == seq!['1']);
            assert(escape(s0) =~= es.subrange(0, es.len() - 1));
            assert(escape(t0) + seq!['_'] =~= es.subrange(0, es.len() - 1));
            assert(escape(s0) =~= escape(t0) + seq!['_']);
            if s0.len() == 0 {
                assert(false);
            } else {
                assert(escape(s0) == escape(s0.drop_last()) + escape_char(s0.last()));
                assert(escape(s0).last() == escape_char(s0.last()).last());
                assert(s0.last() == '.');
                assert(s[s.len() - 2] == '.' && s[s.len() - 2 + 1] == '1');
            }
        }
    }
}

proof fn lemma_symbol_is_escaped_dotted(namespace: Seq<char>, class: Seq<char>, method: Seq<char>)
    ensures
        symbol_of(namespace, class, method) == symbol_prefix() + escape(dotted(namespace, class, method)),
{
    let dot = seq!['.'];
    assert(escape(dot) =~= seq!['_']) by {
        assert(dot.drop_last() =~= Seq::<char>::empty());
        assert(escape(Seq::<char>::empty()) =~= Seq::<char>::empty());
        assert(dot.last() == '.');
        assert(escape(dot) == escape(dot.drop_last()) + escape_char(dot.last()));
    }
    lemma_escape_concat(namespace, dot);
    lemma_escape_concat(namespace + dot, class);
    lemma_escape_concat(namespace + dot + class, dot);
    lemma_escape_concat(namespace + dot + class + dot, method);
    assert(symbol_of(namespace, class, method) =~= symbol_prefix() + escape(dotted(namespace, class, method)));
}

proof fn lemma_dotted_valid(namespace: Seq<char>, class: Seq<char>, method: Seq<char>)
    requires
        is_qualified_name(namespace),
        is_identifier(class),
        is_identifier(method),
    ensures
        no_one_after_dot(dotted(namespace, class, method)),
{
    let d = dotted(namespace, class, method);
    let n = namespace.len() as int;
    let c = class.len() as int;
    assert forall|i: int| 0 <= i < d.len() - 1 && d[i] == '.' implies #[trigger] d[i + 1] != '1' by {
        if i < n {
            assert(d[i] == namespace[i]);
            if i + 1 < n {
                assert(d[i + 1] == namespace[i + 1]);
            } else {
                assert(false);
            }
        } else if i == n {
            assert(d[i + 1] == class[0]);
        } else if i < n + 1 + c {
            assert(d[i] == class[i - n - 1]);
        } else if i == n + 1 + c {
            assert(d[i + 1] == method[0]);
        } else {
            assert(d[i] == method[i - n - 2 - c]);
        }
    }
}

proof fn lemma_dotted_split(
    n1: Seq<char>, c1: Seq<char>, m1: Seq<char>,
    n2: Seq<char>, c2: Seq<char>, m2: Seq<char>,
)
    requires
        is_identifier(c1),
        is_identifier(m1),
        is_identifier(c2),
        is_identifier(m2),
        dotted(n1, c1, m1) == dotted(n2, c2, m2),
    ensures
        n1 == n2,
        c1 == c2,
        m1 == m2,
{
    let d = dotted(n1, c1, m1);
    let len = d.len() as int;
    assert(d == dotted(n2, c2, m2));
    // the method is what follows the last dot
    if m1.len() < m2.len() {
        let k = len - m1.len() - 1;
        assert(d[k] == '.');
        assert(d[k] == m2[k - (len - m2.len())]);
        assert(false);
    }
    if m2.len() < m1.len() {
        let k = len - m2.len() - 1;
        assert(d[k] == '.');
        assert(d[k] == m1[k - (len - m1.len())]);
        assert(false);
    }
    assert(m1 =~= d.subrange(len - m1.len(), len));
    assert(m2 =~= d.subrange(len - m2.len(), len));
    let rest = len - m1.len() - 1;
    if c1.len() < c2.len() {
        let k = rest - c1.len() - 1;
        assert(d[k] == '.');
        assert(d[k] == c2[k - (rest - c2.len())]);
        assert(false);
    }
    if c2.len() < c1.len() {
        let k = rest - c2.len() - 1;
        assert(d[k] == '.');
        assert(d[k] == c1[k - (rest - c1.len())]);
        assert(false);
    }
    assert(c1 =~= d.subrange(rest - c1.len(), rest));
    assert(c2 =~= d.subrange(rest - c2.len(), rest));
    assert(n1 =~= d.subrange(0, n1.len() as int));
    assert(n2 =~= d.subrange(0, n2.len() as int));
}

/// Distinct (namespace, class, method) triples of well-formed names never share an
/// exported symbol: the escaping of `_` keeps the separators unambiguous.
pub proof fn lemma_symbol_injective(
    namespace1: Seq<char>, class1: Seq<char>, method1: Seq<char>,
    namespace2: Seq<char>, class2: Seq<char>, method2: Seq<char>,
)
    requires
        is_qualified_name(namespace1),
        is_identifier(class1),
        is_identifier(method1),
        is_qualified_name(namespace2),
        is_identifier(class2),
        is_identifier(method2),
        symbol_of(namespace1, class1, method1) == symbol_of(namespace2, class2, method2),
    ensures
        namespace1 == namespace2,
        class1 == class2,
        method1 == method2,
{
    lemma_symbol_is_escaped_dotted(namespace1, class1, method1);
    lemma_symbol_is_escaped_dotted(namespace2, class2, method2);
    let d1 = dotted(namespace1, class1, method1);
    let d2 = dotted(namespace2, class2, method2);
    let p = symbol_prefix();
    let sym = symbol_of(namespace1, class1, method1);
    assert(escape(d1) =~= sym.subrange(p.len() as int, sym.len() as int));
    assert(escape(d2) =~= sym.subrange(p.len() as int, sym.len() as int));
    lemma_dotted_valid(namespace1, class1, method1);
    lemma_dotted_valid(namespace2, class2, method2);
    lemma_escape_injective(d1, d2);
    lemma_dotted_split(namespace1, class1, method1, namespace2, class2, method2);
}

/// Appends the escaped form of `s` to `out`.
fn append_escaped(out: &mut String, s: &str)
    ensures
        final(out)@ == old(out)@ + escape(s@),
{
    let n = s.unicode_len();
    let ghost start = out@;
    let mut i: usize = 0;
    while i < n
        invariant
            n == s@.len(),
            i <= n,
            out@ == start + escape(s@.subrange(0, i as int)),
        decreases n - i,
    {
        let c = s.get_char(i);
        proof {
            assert(s@.subrange(0, i + 1).drop_last() =~= s@.subrange(0, i as int));
        }
        if c == '_' {
            push_char(out, '_');
            push_char(out, '1');
        } else if c == '.' {
            push_char(out, '_');
        } else {
            push_char(out, c);
        }
        assert(out@ =~= start + escape(s@.subrange(0, i + 1)));
        i = i + 1;
    }
    assert(s@.subrange(0, n as int) =~= s@);
}

fn char_is_digit(c: char) -> (r: bool)
    ensures
        r == is_ascii_digit(c),
{
    '0' <= c && c <= '9'
}

/// Whether `s` is a class or method identifier.
pub fn check_identifier(s: &str) -> (r: bool)
    ensures
        r == is_identifier(s@),
{
    let n = s.unicode_len();
    if n == 0 || char_is_digit(s.get_char(0)) {
        return false;
    }
    let mut i: usize = 0;
    while i < n
        invariant
            n == s@.len(),
            i <= n,
            forall|j: int| 0 <= j < i ==> s@[j] != '.',
        decreases n - i,
    {
        if s.get_char(i) == '.' {
            return false;
        }
        i = i + 1;
    }
    true
}

/// Whether `s` is a dotted namespace.
pub fn check_qualified_name(s: &str) -> (r: bool)
    ensures
        r == is_qualified_name(s@),
{
    let n = s.unicode_len();
    if n == 0 || char_is_digit(s.get_char(0)) {
        return false;
    }
    let mut i: usize = 0;
    while i < n
        invariant
            n == s@.len(),
            i <= n,
            forall|j: int|
                #![trigger s@[j]]
                0 <= j < i && s@[j] == '.' ==> j + 1 < n && s@[j + 1] != '.' && !is_ascii_digit(s@[j + 1]),
        decreases n - i,
    {
        if s.get_char(i) == '.' {
            if i + 1 >= n {
                return false;
            }
            let d = s.get_char(i + 1);
            if d == '.' || char_is_digit(d) {
                return false;
            }
        }
        i = i + 1;
    }
    true
}

/// The exported symbol name for `method` of `class` in `namespace`.
pub fn symbol_name(namespace: &str, class: &str, method: &str) -> (r: String)
    ensures
        r@ == symbol_of(namespace@, class@, method@),
{
    let mut out = String::new();
    push_char(&mut out, 'B');
    push_char(&mut out, 'o');
    push_char(&mut out, 'u');
    push_char(&mut out, 'n');
    push_char(&mut out, 'd');
    push_char(&mut out, 'a');
    push_char(&mut out, 'r');
    push_char(&mut out, 'y');
    push_char(&mut out, '_');
    append_escaped(&mut out, namespace);
    push_char(&mut out, '_');
    append_escaped(&mut out, class);
    push_char(&mut out, '_');
    append_escaped(&mut out, method);
    assert(out@ =~= symbol_of(namespace@, class@, method@));
    out
}

} // verus!
