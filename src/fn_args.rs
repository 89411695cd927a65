//! Classification of the inputs of a function exported to Python.

use vstd::prelude::*;

verus! {

/// What the classification reads of an input's pattern.
pub enum Pattern {
    /// A plain binding such as `x`, `mut x` or `ref x`.
    Ident { name: String, mutable: bool, by_ref: bool },
    /// Any other pattern, such as a tuple or a wildcard.
    Other,
}

/// What the classification reads of an input's type.
pub enum ArgType {
    /// A path type, with the identifier of its last segment if it has one.
    Path { last_segment: Option<String> },
    /// Any other type.
    Other,
}

/// An input of a function signature.
pub enum FnInput {
    /// `&self` or `&mut self`.
    SelfRef,
    /// `self`.
    SelfValue,
    /// `pattern: type`.
    Captured { pat: Pattern, ty: ArgType },
    /// An input with `_` as its pattern and no binding.
    Ignored,
    /// An input without a type.
    Inferred,
}

/// An argument of the exported function, as the wrapper generator sees it.
#[derive(Debug, PartialEq, Eq)]
pub struct FnArg {
    /// The position of the input in the signature.
    pub position: usize,
    pub name: String,
    pub mutable: bool,
    pub by_ref: bool,
    /// Whether the argument is the interpreter token, typed `Python`.
    pub py: bool,
}

/// Why an input cannot be exported.
#[derive(Debug, Clone, Copy, PartialEq, Eq, Structural)]
pub enum ArgError {
    /// The input's pattern is not a plain binding.
    UnsupportedPattern,
    /// The input has no binding.
    IgnoredArgument,
    /// The input has no type.
    InferredArgument,
}

pub open spec fn python_word() -> Seq<char> {
    seq!['P', 'y', 't', 'h', 'o', 'n']
}

/// Whether a type names the interpreter token: a path ending in `Python`.
pub open spec fn is_python_type(t: ArgType) -> bool {
    match t {
        ArgType::Path { last_segment: Some(s) } => s@ == python_word(),
        _ => false,
    }
}

/// Whether an input is a `self` receiver, which is not an argument.
pub open spec fn is_receiver(i: FnInput) -> bool {
    i is SelfRef || i is SelfValue
}

/// Why an input cannot be exported, if it cannot.
pub open spec fn input_error(i: FnInput) -> Option<ArgError> {
    match i {
        FnInput::Captured { pat: Pattern::Other, .. } => Some(ArgError::UnsupportedPattern),
        FnInput::Ignored => Some(ArgError::IgnoredArgument),
        FnInput::Inferred => Some(ArgError::InferredArgument),
        _ => None,
    }
}

/// `a` is the argument made of the input `i` at `position`.
pub open spec fn wraps(i: FnInput, position: int, a: FnArg) -> bool {
    match i {
        FnInput::Captured { pat: Pattern::Ident { name, mutable, by_ref }, ty } => {
            &&& a.position == position
            &&& a.name@ == name@
            &&& a.mutable == mutable
            &&& a.by_ref == by_ref
            &&& a.py == is_python_type(ty)
        },
        _ => false,
    }
}

/// The error of the first input of `s` that cannot be exported.
pub open spec fn first_input_error(s: Seq<FnInput>) -> Option<ArgError>
    decreases s.len(),
{
    if s.len() == 0 {
        None
    } else {
        match first_input_error(s.drop_last()) {
            Some(e) => Some(e),
            None => input_error(s.last()),
        }
    }
}

/// `out` holds, in order, the arguments made of the inputs of `s` that are
/// not receivers.
pub open spec fn wraps_all(s: Seq<FnInput>, out: Seq<FnArg>) -> bool
    decreases s.len(),
{
    if s.len() == 0 {
        out.len() == 0
    } else if is_receiver(s.last()) {
        wraps_all(s.drop_last(), out)
    } else {
        &&& out.len() > 0
        &&& wraps(s.last(), s.len() - 1, out.last())
        &&& wraps_all(s.drop_last(), out.drop_last())
    }
}

fn is_python(t: &ArgType) -> (r: bool)
    ensures
        r == is_python_type(*t),
{
    match t {
        ArgType::Path { last_segment: Some(s) } => {
            proof {
                reveal_strlit("Python");
                assert("Python"@ =~= python_word());
            }
            *s == String::from_str("Python")
        },
        _ => false,
    }
}

/// Turns the input at `position` into an argument of the exported function:
/// none for a receiver, an error for an input without a plain binding or
/// without a type.
pub fn wrap_fn_argument(input: &FnInput, position: usize) -> (r: Result<Option<FnArg>, ArgError>)
    ensures
        match input_error(*input) {
            Some(e) => r == Err::<Option<FnArg>, ArgError>(e),
            None => match r {
                Ok(None) => is_receiver(*input),
                Ok(Some(a)) => wraps(*input, position as int, a),
                Err(_) => false,
            },
        },
{
    match input {
        FnInput::SelfRef | FnInput::SelfValue => Ok(None),
        FnInput::Captured { pat, ty } => match pat {
            Pattern::Ident { name, mutable, by_ref } => Ok(
                Some(
                    FnArg {
                        position,
                        name: name.clone(),
                        mutable: *mutable,
                        by_ref: *by_ref,
                        py: is_python(ty),
                    },
                ),
            ),
            Pattern::Other => Err(ArgError::UnsupportedPattern),
        },
        FnInput::Ignored => Err(ArgError::IgnoredArgument),
        FnInput::Inferred => Err(ArgError::InferredArgument),
    }
}

/// The arguments of a function with the inputs `inputs`, receivers left out;
/// the first input that cannot be exported is rejected.
pub fn wrap_fn_arguments(inputs: &Vec<FnInput>) -> (r: Result<Vec<FnArg>, ArgError>)
    ensures
        match first_input_error(inputs@) {
            Some(e) => r == Err::<Vec<FnArg>, ArgError>(e),
            None => r matches Ok(args) && wraps_all(inputs@, args@),
        },
{
    let ghost s = inputs@;
    let mut args: Vec<FnArg> = Vec::new();
    let mut i: usize = 0;
    while i < inputs.len()
        invariant
            s == inputs@,
            i <= s.len(),
            first_input_error(s.subrange(0, i as int)).is_none(),
            wraps_all(s.subrange(0, i as int), args@),
        decreases s.len() - i,
    {
        proof {
            assert(s.subrange(0, i + 1).drop_last() =~= s.subrange(0, i as int));
        }
        match wrap_fn_argument(&inputs[i], i) {
            Err(e) => {
                proof {
                    lemma_first_input_error_prefix(s, i + 1);
                }
                return Err(e);
            },
            Ok(None) => {},
            Ok(Some(a)) => {
                let ghost before = args@;
                args.push(a);
                proof {
                    assert(args@.drop_last() =~= before);
                }
            },
        }
        i = i + 1;
    }
    proof {
        assert(s.subrange(0, i as int) =~= s);
    }
    Ok(args)
}

proof fn lemma_first_input_error_prefix(s: Seq<FnInput>, k: int)
    requires
        0 <= k <= s.len(),
        first_input_error(s.subrange(0, k)).is_some(),
    ensures
        first_input_error(s) == first_input_error(s.subrange(0, k)),
    decreases s.len(),
{
    if k == s.len() {
        assert(s.subrange(0, k) =~= s);
    } else {
        assert(s.drop_last().subrange(0, k) =~= s.subrange(0, k));
        lemma_first_input_error_prefix(s.drop_last(), k);
    }
}

} // verus!
