//! Rewriting of a `#[pymodule]` body: each function declared in it with a
//! `#[pyfn(...)]` attribute is wrapped and registered with the module.

use crate::fn_args::{first_input_error, wrap_fn_arguments, wraps_all, ArgError, FnArg, FnInput};
use crate::naming::{binds, function_wrapper_name, function_wrapper_spec, argument_binding_names};
use crate::pyfn::{extract_pyfn_attrs, first_error, kept, last_pyfn, specifies, Attribute, PyFnError};
use vstd::prelude::*;

verus! {

/// A function item declared inside the module body.
pub struct FnItem<S, A, N> {
    pub name: String,
    pub inputs: Vec<FnInput>,
    pub attrs: Vec<Attribute<A, N>>,
    /// The caller's representation of the rest of the item.
    pub source: S,
}

/// A statement of the module body.
pub enum Stmt<S, A, N> {
    ItemFn(FnItem<S, A, N>),
    Other(S),
}

/// The plan of the function that wraps a Rust function for Python and
/// returns it as a Python function object.
pub struct FnWrapper<N> {
    /// The name of the function as Python sees it.
    pub python_name: String,
    /// The `pyfn` parameters left for the argument parser.
    pub attrs: Vec<N>,
    /// The name of the generated function.
    pub wrapper_name: String,
    /// The arguments of the wrapped function.
    pub args: Vec<FnArg>,
    /// The names bound to `args` in the generated C wrapper.
    pub bindings: Vec<String>,
}

/// A wrapped function and the module it is added to.
pub struct Registration<N> {
    pub module_name: String,
    pub wrapper: FnWrapper<N>,
}

/// A statement of the rewritten body, preceded by the registration of the
/// function it declares, if that function is exported.
pub struct Processed<S, A, N> {
    pub registration: Option<Registration<N>>,
    pub stmt: Stmt<S, A, N>,
}

/// Why a module body cannot be rewritten.
#[derive(Debug, Clone, Copy, PartialEq, Eq, Structural)]
pub enum ModuleError {
    PyFn(PyFnError),
    Arg(ArgError),
}

/// `w` wraps the function `fn_name` with the inputs `inputs`.
pub open spec fn wrapper_for<N>(fn_name: Seq<char>, inputs: Seq<FnInput>, w: FnWrapper<N>) -> bool {
    &&& w.wrapper_name@ == function_wrapper_spec(fn_name)
    &&& wraps_all(inputs, w.args@)
    &&& binds(w.args@, w.bindings@)
}

/// Builds the plan of the function that wraps the Rust function `fn_name`,
/// with the inputs `inputs`, as the Python function `python_name`; an input
/// that cannot be exported is rejected.
pub fn add_fn_to_module<N>(
    fn_name: &str,
    inputs: &Vec<FnInput>,
    python_name: String,
    pyfn_attrs: Vec<N>,
) -> (r: Result<FnWrapper<N>, ArgError>)
    ensures
        match first_input_error(inputs@) {
            Some(e) => r == Err::<FnWrapper<N>, ArgError>(e),
            None => r matches Ok(w) && wrapper_for(fn_name@, inputs@, w) && w.python_name
                == python_name && w.attrs == pyfn_attrs,
        },
{
    let args = match wrap_fn_arguments(inputs) {
        Ok(args) => args,
        Err(e) => {
            return Err(e);
        },
    };
    let wrapper_name = function_wrapper_name(fn_name);
    let bindings = argument_binding_names(&args);
    Ok(FnWrapper { python_name, attrs: pyfn_attrs, wrapper_name, args, bindings })
}

/// Why a statement cannot be rewritten, if it cannot: a malformed `pyfn`
/// attribute, or an exported function with an input that cannot be exported.
pub open spec fn stmt_error<S, A, N>(st: Stmt<S, A, N>) -> Option<ModuleError> {
    match st {
        Stmt::ItemFn(f) => match first_error(f.attrs@) {
            Some(e) => Some(ModuleError::PyFn(e)),
            None => if last_pyfn(f.attrs@) is Some {
                match first_input_error(f.inputs@) {
                    Some(e) => Some(ModuleError::Arg(e)),
                    None => None,
                }
            } else {
                None
            },
        },
        Stmt::Other(_) => None,
    }
}

/// The error of the first statement of `s` that cannot be rewritten.
pub open spec fn first_stmt_error<S, A, N>(s: Seq<Stmt<S, A, N>>) -> Option<ModuleError>
    decreases s.len(),
{
    if s.len() == 0 {
        None
    } else {
        match first_stmt_error(s.drop_last()) {
            Some(e) => Some(e),
            None => stmt_error(s.last()),
        }
    }
}

/// `p` is the statement `st` rewritten: a function loses its `pyfn`
/// attributes and, if it had one, is registered as they specify.
pub open spec fn rewritten<S, A, N>(st: Stmt<S, A, N>, p: Processed<S, A, N>) -> bool {
    match st {
        Stmt::Other(s) => p.registration is None && p.stmt == Stmt::<S, A, N>::Other(s),
        Stmt::ItemFn(f) => match p.stmt {
            Stmt::ItemFn(g) => {
                &&& g.name == f.name
                &&& g.inputs == f.inputs
                &&& g.source == f.source
                &&& g.attrs@ == kept(f.attrs@)
                &&& match p.registration {
                    None => last_pyfn(f.attrs@) is None,
                    Some(reg) => {
                        &&& specifies(
                            f.attrs@,
                            reg.module_name@,
                            reg.wrapper.python_name@,
                            reg.wrapper.attrs@,
                        )
                        &&& wrapper_for(f.name@, f.inputs@, reg.wrapper)
                    },
                }
            },
            Stmt::Other(_) => false,
        },
    }
}

proof fn lemma_first_stmt_error_prefix<S, A, N>(s: Seq<Stmt<S, A, N>>, k: int)
    requires
        0 <= k <= s.len(),
        first_stmt_error(s.subrange(0, k)).is_some(),
    ensures
        first_stmt_error(s) == first_stmt_error(s.subrange(0, k)),
    decreases s.len(),
{
    if k == s.len() {
        assert(s.subrange(0, k) =~= s);
    } else {
        assert(s.drop_last().subrange(0, k) =~= s.subrange(0, k));
        lemma_first_stmt_error_prefix(s.drop_last(), k);
    }
}

/// Rewrites a module body: every function declared in it loses its `pyfn`
/// attributes, and one that had one is preceded by its registration. The
/// first statement that cannot be rewritten is rejected.
#[verifier::loop_isolation(false)]
pub fn process_functions_in_module<S, A, N>(stmts: Vec<Stmt<S, A, N>>) -> (r: Result<
    Vec<Processed<S, A, N>>,
    ModuleError,
>)
    ensures
        match first_stmt_error(stmts@) {
            Some(e) => r == Err::<Vec<Processed<S, A, N>>, ModuleError>(e),
            None => r matches Ok(out) && out@.len() == stmts@.len() && forall|i: int|
                0 <= i < out@.len() ==> #[trigger] rewritten(stmts@[i], out@[i]),
        },
{
    let ghost s = stmts@;
    let n = stmts.len();
    let mut rest = stmts;
    let mut out: Vec<Processed<S, A, N>> = Vec::new();
    proof {
        assert(rest@ =~= s.subrange(0, n as int));
    }
    while rest.len() > 0
        invariant
            n == s.len(),
            out@.len() + rest@.len() == n,
            rest@ == s.subrange(out@.len() as int, n as int),
            first_stmt_error(s.subrange(0, out@.len() as int)).is_none(),
            forall|k: int| 0 <= k < out@.len() ==> #[trigger] rewritten(s[k], out@[k]),
        decreases rest@.len(),
    {
        let ghost i = out@.len() as int;
        proof {
            assert(s.subrange(0, i + 1).drop_last() =~= s.subrange(0, i));
        }
        let st = rest.remove(0);
        proof {
            assert(rest@ =~= s.subrange(i + 1, n as int));
        }
        let processed = match st {
            Stmt::Other(x) => Processed { registration: None, stmt: Stmt::Other(x) },
            Stmt::ItemFn(f) => {
                let FnItem { name, inputs, attrs, source } = f;
                let mut attrs = attrs;
                let ghost attrs_before = attrs@;
                proof {
                    assert(s.subrange(0, i + 1).last() == s[i]);
                }
                match extract_pyfn_attrs(&mut attrs) {
                    Err(e) => {
                        proof {
                            assert(first_error(attrs_before) == Some(e));
                            assert(stmt_error(s[i]) == Some(ModuleError::PyFn(e)));
                            lemma_first_stmt_error_prefix(s, i + 1);
                        }
                        return Err(ModuleError::PyFn(e));
                    },
                    Ok(None) => Processed {
                        registration: None,
                        stmt: Stmt::ItemFn(FnItem { name, inputs, attrs, source }),
                    },
                    Ok(Some(p)) => {
                        match add_fn_to_module(name.as_str(), &inputs, p.python_name, p.extra) {
                            Err(e) => {
                                proof {
                                    assert(first_error(attrs_before).is_none());
                                    assert(last_pyfn(attrs_before) is Some);
                                    assert(stmt_error(s[i]) == Some(ModuleError::Arg(e)));
                                    lemma_first_stmt_error_prefix(s, i + 1);
                                }
                                return Err(ModuleError::Arg(e));
                            },
                            Ok(wrapper) => Processed {
                                registration: Some(
                                    Registration { module_name: p.module_name, wrapper },
                                ),
                                stmt: Stmt::ItemFn(FnItem { name, inputs, attrs, source }),
                            },
                        }
                    },
                }
            },
        };
        out.push(processed);
    }
    proof {
        assert(s.subrange(0, n as int) =~= s);
    }
    Ok(out)
}

} // verus!
