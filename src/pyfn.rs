//! Extraction of the `#[pyfn(module, "name", ...)]` attribute of a function
//! declared inside a `#[pymodule]` body.

use vstd::prelude::*;

verus! {

/// What the extraction reads of one nested item of an attribute's argument list.
pub enum NestedKind {
    /// A bare path of one identifier, such as `m`.
    Word(String),
    /// A string literal, holding its value.
    Str(String),
    /// Anything else.
    Other,
}

/// A nested item of an attribute's argument list, with the caller's own
/// representation of it carried along.
pub struct Nested<N> {
    pub kind: NestedKind,
    pub source: N,
}

/// What the extraction reads of an attribute's content.
pub enum AttrMeta<N> {
    /// `#[name(nested, ...)]`.
    List { name: String, nested: Vec<Nested<N>> },
    /// Any other shape.
    Other,
}

/// An attribute of a function, with the caller's own representation of it.
pub struct Attribute<A, N> {
    pub meta: AttrMeta<N>,
    pub source: A,
}

/// Why a `pyfn` attribute was rejected.
#[derive(Debug, Clone, Copy, PartialEq, Eq, Structural)]
pub enum PyFnError {
    /// Fewer than two parameters: the module and the Python name are required.
    TooFewParameters,
    /// The first parameter is not a bare identifier naming the module.
    ModuleNotIdent,
    /// The second parameter is not a string literal.
    NameNotLiteral,
    /// The second parameter does not hold a plain ASCII identifier.
    NameNotIdent,
}

/// What a `pyfn` attribute specifies.
pub struct PyFnAttrs<N> {
    /// The identifier of the module object the function is added to.
    pub module_name: String,
    /// The name of the function as Python sees it.
    pub python_name: String,
    /// The parameters after the first two, left for the argument parser.
    pub extra: Vec<N>,
}

/// A character that may stand in an ASCII identifier.
pub open spec fn ident_char(c: char) -> bool {
    ||| 'a' <= c <= 'z'
    ||| 'A' <= c <= 'Z'
    ||| '0' <= c <= '9'
    ||| c == '_'
}

/// Text made of ASCII identifier characters and spaces, with no word that
/// starts with a digit: it lexes into identifiers alone, the same way with
/// every lexer and without any lexing error.
pub open spec fn plain_text(s: Seq<char>) -> bool {
    forall|i: int|
        0 <= i < s.len() ==> {
            &&& (ident_char(#[trigger] s[i]) || s[i] == ' ')
            &&& ('0' <= s[i] <= '9' ==> i > 0 && ident_char(s[i - 1]))
        }
}

/// The identifier that `syn` parses out of the plain text `s`: present when
/// `s`, apart from surrounding spaces, is one identifier other than a
/// reserved word or `_`.
pub uninterp spec fn parsed_ident(s: Seq<char>) -> Option<Seq<char>>;

/// Relies on `syn::parse_str::<syn::Ident>`: it lexes `s` and accepts a
/// single identifier that is not a reserved word. On plain text both the
/// compiler's lexer and proc-macro2's own lex the same tokens and report no
/// error, so the result depends on the text alone.
#[verifier::external_body]
fn parse_ident(s: &str) -> (r: Option<String>)
    requires
        plain_text(s@),
    ensures
        match r {
            Some(t) => parsed_ident(s@) == Some(t@),
            None => parsed_ident(s@).is_none(),
        },
{
    match syn::parse_str::<syn::Ident>(s) {
        Ok(ident) => Some(ident.to_string()),
        Err(_) => None,
    }
}

/// Whether `s` is plain text.
fn is_plain_text(s: &str) -> (r: bool)
    ensures
        r == plain_text(s@),
{
    let n = s.unicode_len();
    let mut i: usize = 0;
    let mut prev_ident = false;
    while i < n
        invariant
            n == s@.len(),
            i <= n,
            prev_ident == (i > 0 && ident_char(s@[i - 1])),
            forall|j: int|
                0 <= j < i ==> {
                    &&& (ident_char(#[trigger] s@[j]) || s@[j] == ' ')
                    &&& ('0' <= s@[j] <= '9' ==> j > 0 && ident_char(s@[j - 1]))
                },
        decreases n - i,
    {
        let c = s.get_char(i);
        let is_ident = ('a' <= c && c <= 'z') || ('A' <= c && c <= 'Z') || ('0' <= c && c <= '9')
            || c == '_';
        if !is_ident && c != ' ' {
            return false;
        }
        if '0' <= c && c <= '9' && !prev_ident {
            return false;
        }
        prev_ident = is_ident;
        i = i + 1;
    }
    true
}

pub open spec fn pyfn_word() -> Seq<char> {
    seq!['p', 'y', 'f', 'n']
}

/// Whether `a` is a `#[pyfn(...)]` attribute.
pub open spec fn is_pyfn<A, N>(a: Attribute<A, N>) -> bool {
    match a.meta {
        AttrMeta::List { name, .. } => name@ == pyfn_word(),
        AttrMeta::Other => false,
    }
}

/// The nested items of a list attribute.
pub open spec fn items<A, N>(a: Attribute<A, N>) -> Seq<Nested<N>> {
    match a.meta {
        AttrMeta::List { nested, .. } => nested@,
        AttrMeta::Other => Seq::empty(),
    }
}

pub open spec fn word_of(k: NestedKind) -> Option<Seq<char>> {
    match k {
        NestedKind::Word(w) => Some(w@),
        _ => None,
    }
}

pub open spec fn literal_of(k: NestedKind) -> Option<Seq<char>> {
    match k {
        NestedKind::Str(v) => Some(v@),
        _ => None,
    }
}

/// The rejection of a `pyfn` attribute, if it is malformed.
pub open spec fn attr_error<A, N>(a: Attribute<A, N>) -> Option<PyFnError> {
    let it = items(a);
    if !is_pyfn(a) {
        None
    } else if it.len() < 2 {
        Some(PyFnError::TooFewParameters)
    } else if word_of(it[0].kind).is_none() {
        Some(PyFnError::ModuleNotIdent)
    } else if literal_of(it[1].kind).is_none() {
        Some(PyFnError::NameNotLiteral)
    } else if !plain_text(literal_of(it[1].kind).unwrap()) || parsed_ident(
        literal_of(it[1].kind).unwrap(),
    ).is_none() {
        Some(PyFnError::NameNotIdent)
    } else {
        None
    }
}

/// The rejection of the first malformed `pyfn` attribute in `s`.
pub open spec fn first_error<A, N>(s: Seq<Attribute<A, N>>) -> Option<PyFnError>
    decreases s.len(),
{
    if s.len() == 0 {
        None
    } else {
        match first_error(s.drop_last()) {
            Some(e) => Some(e),
            None => attr_error(s.last()),
        }
    }
}

/// The attributes of `s` that are not `pyfn` attributes, in order.
pub open spec fn kept<A, N>(s: Seq<Attribute<A, N>>) -> Seq<Attribute<A, N>>
    decreases s.len(),
{
    if s.len() == 0 {
        s
    } else if is_pyfn(s.last()) {
        kept(s.drop_last())
    } else {
        kept(s.drop_last()).push(s.last())
    }
}

/// The position of the last `pyfn` attribute of `s`.
pub open spec fn last_pyfn<A, N>(s: Seq<Attribute<A, N>>) -> Option<int>
    decreases s.len(),
{
    if s.len() == 0 {
        None
    } else if is_pyfn(s.last()) {
        Some(s.len() - 1)
    } else {
        last_pyfn(s.drop_last())
    }
}

/// The position of the last `pyfn` attribute of `s` with more than two parameters.
pub open spec fn last_extra<A, N>(s: Seq<Attribute<A, N>>) -> Option<int>
    decreases s.len(),
{
    if s.len() == 0 {
        None
    } else if is_pyfn(s.last()) && items(s.last()).len() >= 3 {
        Some(s.len() - 1)
    } else {
        last_extra(s.drop_last())
    }
}

/// The caller's representations of `items`.
pub open spec fn sources<N>(items: Seq<Nested<N>>) -> Seq<N> {
    items.map_values(|x: Nested<N>| x.source)
}

/// The parameters after the first two of the last `pyfn` attribute that has any.
pub open spec fn extra_of<A, N>(s: Seq<Attribute<A, N>>) -> Seq<N> {
    match last_extra(s) {
        Some(j) => sources(items(s[j]).subrange(2, items(s[j]).len() as int)),
        None => Seq::empty(),
    }
}

/// `p` is what the `pyfn` attributes of a well-formed `s` specify: module and
/// Python name come from the last of them, the extra parameters from the last
/// one that has any.
pub open spec fn specifies<A, N>(
    s: Seq<Attribute<A, N>>,
    module_name: Seq<char>,
    python_name: Seq<char>,
    extra: Seq<N>,
) -> bool {
    match last_pyfn(s) {
        Some(k) => {
            &&& Some(module_name) == word_of(items(s[k])[0].kind)
            &&& Some(python_name) == parsed_ident(literal_of(items(s[k])[1].kind).unwrap())
            &&& extra == extra_of(s)
        },
        None => false,
    }
}

/// The outcome of extracting the `pyfn` attribute from the attribute list
/// `before`, leaving `after` in its place and returning `r`: the first
/// malformed `pyfn` attribute is rejected and nothing changes; otherwise the
/// `pyfn` attributes are removed, and what they specify is returned if there
/// was one.
pub open spec fn extraction<A, N>(
    before: Seq<Attribute<A, N>>,
    after: Seq<Attribute<A, N>>,
    r: Result<Option<PyFnAttrs<N>>, PyFnError>,
) -> bool {
    match first_error(before) {
        Some(e) => r == Err::<Option<PyFnAttrs<N>>, PyFnError>(e) && after == before,
        None => {
            &&& after == kept(before)
            &&& match r {
                Ok(Some(p)) => specifies(before, p.module_name@, p.python_name@, p.extra@),
                Ok(None) => last_pyfn(before).is_none(),
                Err(_) => false,
            }
        },
    }
}

fn is_pyfn_attr<A, N>(a: &Attribute<A, N>) -> (r: bool)
    ensures
        r == is_pyfn(*a),
{
    match &a.meta {
        AttrMeta::List { name, .. } => {
            proof {
                reveal_strlit("pyfn");
                assert("pyfn"@ =~= pyfn_word());
            }
            *name == String::from_str("pyfn")
        },
        AttrMeta::Other => false,
    }
}

fn nested_len<A, N>(a: &Attribute<A, N>) -> (r: usize)
    ensures
        r == items(*a).len(),
{
    match &a.meta {
        AttrMeta::List { nested, .. } => nested.len(),
        AttrMeta::Other => 0,
    }
}

/// Checks one `pyfn` attribute and reads its module and Python names.
fn check_pyfn<A, N>(a: &Attribute<A, N>) -> (r: Result<(String, String), PyFnError>)
    requires
        is_pyfn(*a),
    ensures
        match r {
            Err(e) => attr_error(*a) == Some(e),
            Ok((m, p)) => {
                &&& attr_error(*a).is_none()
                &&& Some(m@) == word_of(items(*a)[0].kind)
                &&& Some(p@) == parsed_ident(literal_of(items(*a)[1].kind).unwrap())
            },
        },
{
    match &a.meta {
        AttrMeta::List { nested, .. } => {
            if nested.len() < 2 {
                return Err(PyFnError::TooFewParameters);
            }
            let module = match &nested[0].kind {
                NestedKind::Word(w) => w.clone(),
                _ => {
                    return Err(PyFnError::ModuleNotIdent);
                },
            };
            match &nested[1].kind {
                NestedKind::Str(v) => {
                    if !is_plain_text(v.as_str()) {
                        return Err(PyFnError::NameNotIdent);
                    }
                    match parse_ident(v.as_str()) {
                        Some(p) => Ok((module, p)),
                        None => Err(PyFnError::NameNotIdent),
                    }
                },
                _ => Err(PyFnError::NameNotLiteral),
            }
        },
        AttrMeta::Other => Err(PyFnError::TooFewParameters),
    }
}

/// Moves out the caller's representations of a list of nested items.
fn take_sources<N>(items: Vec<Nested<N>>) -> (r: Vec<N>)
    ensures
        r@ == sources(items@),
{
    let mut rest = items;
    let ghost all = rest@;
    let mut out: Vec<N> = Vec::new();
    while rest.len() > 0
        invariant
            out@.len() + rest@.len() == all.len(),
            rest@ == all.subrange(out@.len() as int, all.len() as int),
            out@ == sources(all.subrange(0, out@.len() as int)),
        decreases rest@.len(),
    {
        let ghost i = out@.len() as int;
        let x = rest.remove(0);
        out.push(x.source);
        proof {
            assert(rest@ =~= all.subrange(i + 1, all.len() as int));
            assert(sources(all.subrange(0, i + 1)) =~= sources(all.subrange(0, i)).push(
                all[i].source,
            ));
        }
    }
    proof {
        assert(all.subrange(0, all.len() as int) =~= all);
    }
    out
}

proof fn lemma_first_error_prefix<A, N>(s: Seq<Attribute<A, N>>, k: int)
    requires
        0 <= k <= s.len(),
        first_error(s.subrange(0, k)).is_some(),
    ensures
        first_error(s) == first_error(s.subrange(0, k)),
    decreases s.len(),
{
    if k == s.len() {
        assert(s.subrange(0, k) =~= s);
    } else {
        assert(s.drop_last().subrange(0, k) =~= s.subrange(0, k));
        lemma_first_error_prefix(s.drop_last(), k);
    }
}

/// Removes the `#[pyfn(...)]` attributes from `attrs` and returns what the
/// last of them specifies: the module, the Python name, and the parameters
/// after those two of the last one that has more. A malformed `pyfn`
/// attribute is rejected, and then `attrs` is left as it was.
pub fn extract_pyfn_attrs<A, N>(attrs: &mut Vec<Attribute<A, N>>) -> (r: Result<
    Option<PyFnAttrs<N>>,
    PyFnError,
>)
    ensures
        extraction(old(attrs)@, final(attrs)@, r),
{
    let ghost s = attrs@;
    let n = attrs.len();
    let mut names: Option<(String, String)> = None;
    let mut extra_at: Option<usize> = None;
    let mut i: usize = 0;
    while i < n
        invariant
            n == s.len(),
            attrs@ == s,
            i <= n,
            first_error(s.subrange(0, i as int)).is_none(),
            match last_pyfn(s.subrange(0, i as int)) {
                Some(k) => {
                    &&& 0 <= k < i
                    &&& names matches Some((m, p))
                    &&& Some(m@) == word_of(items(s[k])[0].kind)
                    &&& Some(p@) == parsed_ident(literal_of(items(s[k])[1].kind).unwrap())
                },
                None => names is None,
            },
            match last_extra(s.subrange(0, i as int)) {
                Some(k) => extra_at == Some(k as usize) && 0 <= k < i && is_pyfn(s[k])
                    && items(s[k]).len() >= 3,
                None => extra_at is None,
            },
        decreases n - i,
    {
        proof {
            assert(s.subrange(0, i + 1).drop_last() =~= s.subrange(0, i as int));
        }
        if is_pyfn_attr(&attrs[i]) {
            match check_pyfn(&attrs[i]) {
                Err(e) => {
                    proof {
                        lemma_first_error_prefix(s, i + 1);
                    }
                    return Err(e);
                },
                Ok((m, p)) => {
                    names = Some((m, p));
                    if nested_len(&attrs[i]) >= 3 {
                        extra_at = Some(i);
                    }
                },
            }
        }
        i = i + 1;
    }
    proof {
        assert(s.subrange(0, n as int) =~= s);
    }
    let mut rest: Vec<Attribute<A, N>> = Vec::new();
    std::mem::swap(attrs, &mut rest);
    let mut extra: Vec<N> = Vec::new();
    let mut j: usize = 0;
    proof {
        assert(s.subrange(0, 0) =~= Seq::<Attribute<A, N>>::empty());
        assert(rest@ =~= s.subrange(0, n as int));
    }
    while rest.len() > 0
        invariant
            n == s.len(),
            j + rest@.len() == n,
            rest@ == s.subrange(j as int, n as int),
            attrs@ == kept(s.subrange(0, j as int)),
            match last_extra(s) {
                Some(k) => extra_at == Some(k as usize) && 0 <= k < n && is_pyfn(s[k])
                    && items(s[k]).len() >= 3,
                None => extra_at is None,
            },
            extra@ == (if extra_at is Some && (extra_at->0 as int) < j {
                extra_of(s)
            } else {
                Seq::empty()
            }),
        decreases rest@.len(),
    {
        proof {
            assert(s.subrange(0, j + 1).drop_last() =~= s.subrange(0, j as int));
        }
        let a = rest.remove(0);
        proof {
            assert(rest@ =~= s.subrange(j + 1, n as int));
        }
        if is_pyfn_attr(&a) {
            let here = match extra_at {
                Some(e) => e == j,
                None => false,
            };
            if here {
                match a.meta {
                    AttrMeta::List { nested, .. } => {
                        let mut nested = nested;
                        let tail = nested.split_off(2);
                        extra = take_sources(tail);
                    },
                    AttrMeta::Other => {},
                }
            }
        } else {
            attrs.push(a);
        }
        j = j + 1;
    }
    match names {
        Some((module_name, python_name)) => Ok(Some(PyFnAttrs { module_name, python_name, extra })),
        None => Ok(None),
    }
}

proof fn lemma_kept_plain<A, N>(s: Seq<Attribute<A, N>>)
    ensures
        kept(kept(s)) == kept(s),
        first_error(kept(s)).is_none(),
        last_pyfn(kept(s)).is_none(),
    decreases s.len(),
{
    if s.len() > 0 {
        lemma_kept_plain(s.drop_last());
        if !is_pyfn(s.last()) {
            let k = kept(s.drop_last()).push(s.last());
            assert(k.drop_last() =~= kept(s.drop_last()));
        }
    }
}

/// Extraction leaves no `pyfn` attribute behind: on the attributes it leaves,
/// a second extraction finds nothing and changes nothing.
pub proof fn lemma_extraction_idempotent<A, N>(
    before: Seq<Attribute<A, N>>,
    after: Seq<Attribute<A, N>>,
    r: Result<Option<PyFnAttrs<N>>, PyFnError>,
    again: Seq<Attribute<A, N>>,
    r2: Result<Option<PyFnAttrs<N>>, PyFnError>,
)
    requires
        extraction(before, after, r),
        r is Ok,
        extraction(after, again, r2),
    ensures
        again == after,
        r2 matches Ok(None),
{
    lemma_kept_plain(before);
}

} // verus!
