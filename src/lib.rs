//! Verified planning logic for generating the native entry points of a Python
//! extension module: symbol naming, `#[pyfn(...)]` attribute extraction,
//! argument classification and the rewriting of a `#[pymodule]` body.
//!
//! The code that turns these plans into token streams lives outside the
//! verified library, since it is written with `quote!`.

mod fn_args;
mod module;
mod naming;
mod pyfn;

pub use fn_args::{wrap_fn_argument, wrap_fn_arguments, ArgError, ArgType, FnArg, FnInput, Pattern};
pub use module::{
    add_fn_to_module, process_functions_in_module, FnItem, FnWrapper, ModuleError, Processed,
    Registration, Stmt,
};
pub use naming::{
    argument_binding_names, decimal_string, function_wrapper_name, py2_init_symbol,
    py3_init_symbol, trim_raw_prefix,
};
pub use pyfn::{extract_pyfn_attrs, lemma_extraction_idempotent, AttrMeta, Attribute, Nested, NestedKind, PyFnAttrs, PyFnError};
