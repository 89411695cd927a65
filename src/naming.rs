//! Names of the symbols and bindings that the generated code introduces.

use crate::fn_args::FnArg;
use vstd::prelude::*;

verus! {

/// The character of a decimal digit.
pub open spec fn digit_char(d: nat) -> char {
    if d == 0 { '0' }
    else if d == 1 { '1' }
    else if d == 2 { '2' }
    else if d == 3 { '3' }
    else if d == 4 { '4' }
    else if d == 5 { '5' }
    else if d == 6 { '6' }
    else if d == 7 { '7' }
    else if d == 8 { '8' }
    else { '9' }
}

/// The decimal representation of `n`, without leading zeros.
pub open spec fn decimal(n: nat) -> Seq<char>
    decreases n,
{
    if n < 10 {
        seq![digit_char(n)]
    } else {
        decimal(n / 10) + seq![digit_char(n % 10)]
    }
}

/// `s` with every leading `r#` removed, as `str::trim_start_matches("r#")` does.
pub open spec fn strip_raw_prefix(s: Seq<char>) -> Seq<char>
    decreases s.len(),
{
    if s.len() >= 2 && s[0] == 'r' && s[1] == '#' {
        strip_raw_prefix(s.subrange(2, s.len() as int))
    } else {
        s
    }
}

/// Name of the entry point a Python 3 interpreter looks up for module `name`.
pub open spec fn py3_init_spec(name: Seq<char>) -> Seq<char> {
    seq!['P', 'y', 'I', 'n', 'i', 't', '_'] + name
}

/// Name of the entry point a Python 2 interpreter looks up for module `name`.
pub open spec fn py2_init_spec(name: Seq<char>) -> Seq<char> {
    seq!['i', 'n', 'i', 't'] + name
}

/// Prefix of the function that adds a wrapped function to a module.
pub open spec fn wrapper_prefix() -> Seq<char> {
    seq![
        '_', '_', 'p', 'y', 'o', '3', '_', 'g', 'e', 't', '_', 'f', 'u', 'n', 'c', 't', 'i',
        'o', 'n', '_',
    ]
}

/// Name of the function that adds the Rust function `fn_name` to a module.
pub open spec fn function_wrapper_spec(fn_name: Seq<char>) -> Seq<char> {
    wrapper_prefix() + strip_raw_prefix(fn_name)
}

/// Name bound to the argument at `index` in the generated C wrapper: the
/// interpreter token is passed as `_py`, every other argument as `arg<index>`.
pub open spec fn binding_name_spec(index: nat, is_py: bool) -> Seq<char> {
    if is_py {
        seq!['_', 'p', 'y']
    } else {
        seq!['a', 'r', 'g'] + decimal(index)
    }
}

/// The entry point name `PyInit_<name>`.
pub fn py3_init_symbol(name: &str) -> (r: String)
    ensures
        r@ == py3_init_spec(name@),
{
    proof {
        reveal_strlit("PyInit_");
    }
    String::from_str("PyInit_").concat(name)
}

/// The entry point name `init<name>`.
pub fn py2_init_symbol(name: &str) -> (r: String)
    ensures
        r@ == py2_init_spec(name@),
{
    proof {
        reveal_strlit("init");
    }
    String::from_str("init").concat(name)
}

/// Removes every leading `r#` from `s`.
pub fn trim_raw_prefix(s: &str) -> (r: &str)
    ensures
        r@ == strip_raw_prefix(s@),
{
    let n = s.unicode_len();
    let mut i: usize = 0;
    assert(s@.subrange(0, n as int) =~= s@);
    while n - i >= 2 && s.get_char(i) == 'r' && s.get_char(i + 1) == '#'
        invariant
            n == s@.len(),
            i <= n,
            strip_raw_prefix(s@) == strip_raw_prefix(s@.subrange(i as int, n as int)),
        decreases n - i,
    {
        proof {
            let t = s@.subrange(i as int, n as int);
            assert(t.subrange(2, t.len() as int) =~= s@.subrange(i + 2, n as int));
        }
        i = i + 2;
    }
    proof {
        let t = s@.subrange(i as int, n as int);
        assert(strip_raw_prefix(t) == t);
    }
    s.substring_char(i, n)
}

/// Name of the function that adds the Rust function `fn_name` to a module:
/// `__pyo3_get_function_` followed by `fn_name` without its raw prefix.
pub fn function_wrapper_name(fn_name: &str) -> (r: String)
    ensures
        r@ == function_wrapper_spec(fn_name@),
{
    proof {
        reveal_strlit("__pyo3_get_function_");
    }
    String::from_str("__pyo3_get_function_").concat(trim_raw_prefix(fn_name))
}

fn digit_string(d: usize) -> (r: String)
    requires
        d < 10,
    ensures
        r@ == seq![digit_char(d as nat)],
{
    let digits = "0123456789";
    proof {
        reveal_strlit("0123456789");
    }
    String::from_str(digits.substring_char(d, d + 1))
}

/// The decimal representation of `n`.
pub fn decimal_string(n: usize) -> (r: String)
    ensures
        r@ == decimal(n as nat),
    decreases n,
{
    if n < 10 {
        digit_string(n)
    } else {
        let mut s = decimal_string(n / 10);
        let last = digit_string(n % 10);
        s.append(last.as_str());
        s
    }
}

/// Whether `names` are the names bound to `args` in the generated wrapper.
pub open spec fn binds(args: Seq<FnArg>, names: Seq<String>) -> bool {
    &&& names.len() == args.len()
    &&& forall|i: int|
        0 <= i < names.len() ==> #[trigger] names[i]@ == binding_name_spec(i as nat, args[i].py)
}

/// The names bound to the arguments of a wrapped function, one per argument.
pub fn argument_binding_names(args: &Vec<FnArg>) -> (r: Vec<String>)
    ensures
        binds(args@, r@),
{
    let mut names: Vec<String> = Vec::new();
    let mut i: usize = 0;
    while i < args.len()
        invariant
            i <= args@.len(),
            names@.len() == i,
            forall|j: int|
                0 <= j < i ==> #[trigger] names@[j]@ == binding_name_spec(j as nat, args@[j].py),
        decreases args@.len() - i,
    {
        if args[i].py {
            proof {
                reveal_strlit("_py");
            }
            names.push(String::from_str("_py"));
        } else {
            proof {
                reveal_strlit("arg");
            }
            let digits = decimal_string(i);
            names.push(String::from_str("arg").concat(digits.as_str()));
        }
        i = i + 1;
    }
    names
}

} // verus!
