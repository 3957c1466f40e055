//! Generation of the bootstrap script that wires a compiled test module into
//! the in-browser test-reporting interface.
//!
//! The script imports a fixed set of named bindings from the module, updates
//! the status element once scripts are executing, defines an asynchronous
//! entry routine that initializes the module from its binary artifact,
//! installs the five console-forwarding hooks, forwards the runtime argument
//! list as a string-array literal, and runs the registered test entry points
//! in the exact order supplied.
//!
//! Module and test names are interpolated as identifiers and path segments,
//! not as free text: callers must supply names that are well formed in that
//! position. Runtime arguments are serialized as quoted string literals with
//! quotes, backslashes and control characters escaped, so each argument
//! reaches the session context unchanged.

use vstd::prelude::*;
use vstd::string::*;
use crate::paths::{join_path, joined};

verus! {

/// Opens the import of the fixed bindings; the module name follows.
pub const SCRIPT_IMPORT: &'static str = "import {\n    WasmBindgenTestContext as Context,\n    __wbgtest_console_debug,\n    __wbgtest_console_log,\n    __wbgtest_console_info,\n    __wbgtest_console_warn,\n    __wbgtest_console_error,\n    default as init,\n} from './";

/// Follows the module name in the import; updates the status element and
/// opens the entry routine, whose initializer call names the module's binary
/// artifact next.
pub const SCRIPT_STATUS: &'static str = "';\n\ndocument.getElementById('output').textContent = 'Loading wasm module...';\n\nasync function main(test) {\n    const wasm = await init('./";

/// Follows the module name in the binary-artifact reference: constructs the
/// session context, installs the five console-forwarding hooks, and opens
/// the call that forwards the runtime arguments.
pub const SCRIPT_INIT: &'static str = "_bg.wasm');\n\n    const cx = new Context();\n    window.on_console_debug = __wbgtest_console_debug;\n    window.on_console_log = __wbgtest_console_log;\n    window.on_console_info = __wbgtest_console_info;\n    window.on_console_warn = __wbgtest_console_warn;\n    window.on_console_error = __wbgtest_console_error;\n\n    cx.args(";

/// Follows the argument-list literal: runs the registered test entry points,
/// resolved by name from the module's exports, and opens the registration
/// collection.
pub const SCRIPT_RUN: &'static str = ");\n\n    await cx.run(test.map(s => wasm[s]));\n}\n\nconst tests = [];\n";

/// The final statement: one invocation of the entry routine.
pub const SCRIPT_MAIN: &'static str = "main(tests);\n";

/// The fixed file name the bootstrap script is written under in the work
/// directory.
pub const SCRIPT_FILE_NAME: &'static str = "run.js";

/// The lower-case hexadecimal digit for `d`.
pub open spec fn hex_digit(d: int) -> char {
    if d == 0 { '0' }
    else if d == 1 { '1' }
    else if d == 2 { '2' }
    else if d == 3 { '3' }
    else if d == 4 { '4' }
    else if d == 5 { '5' }
    else if d == 6 { '6' }
    else if d == 7 { '7' }
    else if d == 8 { '8' }
    else if d == 9 { '9' }
    else if d == 10 { 'a' }
    else if d == 11 { 'b' }
    else if d == 12 { 'c' }
    else if d == 13 { 'd' }
    else if d == 14 { 'e' }
    else { 'f' }
}

/// A control character: it may not stand raw inside a generated string
/// literal (a raw newline would end the literal early).
pub open spec fn is_control(c: char) -> bool {
    (c as u32) < 32 || (c as u32) == 127 || (128 <= (c as u32) && (c as u32) <= 159)
}

/// How one character is escaped inside a generated string literal: quotes
/// and backslashes get a backslash, the common control characters their
/// named escapes, any other control character a braced two-digit unicode
/// escape, and everything else stands as itself.
pub open spec fn escape_char(c: char) -> Seq<char> {
    if c == '"' || c == '\\' {
        seq!['\\', c]
    } else if c == '\n' {
        seq!['\\', 'n']
    } else if c == '\r' {
        seq!['\\', 'r']
    } else if c == '\t' {
        seq!['\\', 't']
    } else if is_control(c) {
        seq!['\\', 'u', '{', hex_digit((c as u32) as int / 16), hex_digit((c as u32) as int % 16), '}']
    } else {
        seq![c]
    }
}

/// The one-character string holding the hexadecimal digit for `d`.
fn hex_digit_str(d: u32) -> (r: &'static str)
    requires
        d < 16,
    ensures
        r@ == seq![hex_digit(d as int)],
{
    let r = if d == 0 { "0" }
    else if d == 1 { "1" }
    else if d == 2 { "2" }
    else if d == 3 { "3" }
    else if d == 4 { "4" }
    else if d == 5 { "5" }
    else if d == 6 { "6" }
    else if d == 7 { "7" }
    else if d == 8 { "8" }
    else if d == 9 { "9" }
    else if d == 10 { "a" }
    else if d == 11 { "b" }
    else if d == 12 { "c" }
    else if d == 13 { "d" }
    else if d == 14 { "e" }
    else { "f" };
    proof {
        reveal_strlit("0");
        reveal_strlit("1");
        reveal_strlit("2");
        reveal_strlit("3");
        reveal_strlit("4");
        reveal_strlit("5");
        reveal_strlit("6");
        reveal_strlit("7");
        reveal_strlit("8");
        reveal_strlit("9");
        reveal_strlit("a");
        reveal_strlit("b");
        reveal_strlit("c");
        reveal_strlit("d");
        reveal_strlit("e");
        reveal_strlit("f");
        assert(r@ =~= seq![hex_digit(d as int)]);
    }
    r
}

/// `s` with every character escaped for a generated string literal.
pub open spec fn escaped(s: Seq<char>) -> Seq<char>
    decreases s.len(),
{
    if s.len() == 0 {
        Seq::empty()
    } else {
        escaped(s.drop_last()) + escape_char(s.last())
    }
}

/// `s` as a generated string literal: escaped and wrapped in quotes.
pub open spec fn quoted(s: Seq<char>) -> Seq<char> {
    seq!['"'] + escaped(s) + seq!['"']
}

/// The comma-separated element list of the argument-array literal.
pub open spec fn args_elements(args: Seq<Seq<char>>) -> Seq<char>
    decreases args.len(),
{
    if args.len() == 0 {
        Seq::empty()
    } else if args.len() == 1 {
        quoted(args[0])
    } else {
        args_elements(args.drop_last()) + ", "@ + quoted(args.last())
    }
}

/// The argument list serialized as a string-array literal.
pub open spec fn args_literal(args: Seq<Seq<char>>) -> Seq<char> {
    seq!['['] + args_elements(args) + seq![']']
}

/// One registration statement per test name, in the order supplied.
pub open spec fn push_statements(tests: Seq<Seq<char>>) -> Seq<char>
    decreases tests.len(),
{
    if tests.len() == 0 {
        Seq::empty()
    } else {
        push_statements(tests.drop_last()) + "tests.push('"@ + tests.last() + "');\n"@
    }
}

/// The whole bootstrap script for a module, its runtime arguments and its
/// test entry points.
pub open spec fn bootstrap_script(
    module: Seq<char>,
    args: Seq<Seq<char>>,
    tests: Seq<Seq<char>>,
) -> Seq<char> {
    SCRIPT_IMPORT@ + module + SCRIPT_STATUS@ + module + SCRIPT_INIT@ + args_literal(args)
        + SCRIPT_RUN@ + push_statements(tests) + SCRIPT_MAIN@
}

/// Escapes one runtime argument for interpolation into a string literal.
fn escape_arg(s: &str) -> (r: String)
    ensures
        r@ == escaped(s@),
{
    let n = s.unicode_len();
    let mut out = String::new();
    let mut i: usize = 0;
    while i < n
        invariant
            0 <= i <= n,
            n == s@.len(),
            out@ == escaped(s@.take(i as int)),
        decreases n - i,
    {
        let c = s.get_char(i);
        if c == '"' {
            out.append("\\\"");
            proof {
                reveal_strlit("\\\"");
            }
        } else if c == '\\' {
            out.append("\\\\");
            proof {
                reveal_strlit("\\\\");
            }
        } else if c == '\n' {
            out.append("\\n");
            proof {
                reveal_strlit("\\n");
            }
        } else if c == '\r' {
            out.append("\\r");
            proof {
                reveal_strlit("\\r");
            }
        } else if c == '\t' {
            out.append("\\t");
            proof {
                reveal_strlit("\\t");
            }
        } else if (c as u32) < 32 || c as u32 == 127 || (128 <= c as u32 && c as u32 <= 159) {
            let v = c as u32;
            out.append("\\u{");
            out.append(hex_digit_str(v / 16));
            out.append(hex_digit_str(v % 16));
            out.append("}");
            proof {
                reveal_strlit("\\u{");
                reveal_strlit("}");
            }
        } else {
            let piece = s.substring_char(i, i + 1);
            out.append(piece);
        }
        proof {
            assert(s@.take(i + 1).drop_last() =~= s@.take(i as int));
            assert(s@.take(i + 1).last() == s@[i as int]);
            assert(out@ =~= escaped(s@.take(i + 1)));
        }
        i = i + 1;
    }
    proof {
        assert(s@.take(n as int) =~= s@);
    }
    out
}

/// Serializes the runtime argument list as a string-array literal.
pub fn args_array(args: &Vec<String>) -> (r: String)
    ensures
        r@ == args_literal(args.deep_view()),
{
    let mut out = String::from_str("[");
    proof {
        reveal_strlit("[");
        assert(out@ =~= seq!['['] + args_elements(args.deep_view().take(0)));
    }
    let n = args.len();
    let mut i: usize = 0;
    while i < n
        invariant
            0 <= i <= n,
            n == args@.len(),
            out@ == seq!['['] + args_elements(args.deep_view().take(i as int)),
        decreases n - i,
    {
        if i > 0 {
            out.append(", ");
        }
        out.append("\"");
        let e = escape_arg(args[i].as_str());
        out.append(e.as_str());
        out.append("\"");
        proof {
            reveal_strlit("\"");
            assert("\""@ =~= seq!['"']);
            let adv = args.deep_view();
            assert(adv.take(i + 1).drop_last() =~= adv.take(i as int));
            assert(adv.take(i + 1).last() == adv[i as int]);
            assert(out@ =~= seq!['['] + args_elements(adv.take(i + 1)));
        }
        i = i + 1;
    }
    out.append("]");
    proof {
        reveal_strlit("]");
        assert(args.deep_view().take(n as int) =~= args.deep_view());
        assert(out@ =~= args_literal(args.deep_view()));
    }
    out
}

/// Generates the bootstrap script for `module`, forwarding `args` verbatim
/// and invoking the tests named in `tests` in the exact order supplied.
pub fn generate_bootstrap(module: &str, args: &Vec<String>, tests: &Vec<String>) -> (r: String)
    ensures
        r@ == bootstrap_script(module@, args.deep_view(), tests.deep_view()),
{
    let mut out = String::from_str(SCRIPT_IMPORT);
    out.append(module);
    out.append(SCRIPT_STATUS);
    out.append(module);
    out.append(SCRIPT_INIT);
    let arr = args_array(args);
    out.append(arr.as_str());
    out.append(SCRIPT_RUN);
    let ghost prelude = out@;
    proof {
        assert(prelude =~= SCRIPT_IMPORT@ + module@ + SCRIPT_STATUS@ + module@ + SCRIPT_INIT@
            + args_literal(args.deep_view()) + SCRIPT_RUN@);
    }
    let n = tests.len();
    let mut i: usize = 0;
    while i < n
        invariant
            0 <= i <= n,
            n == tests@.len(),
            out@ == prelude + push_statements(tests.deep_view().take(i as int)),
        decreases n - i,
    {
        out.append("tests.push('");
        out.append(tests[i].as_str());
        out.append("');\n");
        proof {
            let tdv = tests.deep_view();
            assert(tdv.take(i + 1).drop_last() =~= tdv.take(i as int));
            assert(tdv.take(i + 1).last() == tdv[i as int]);
            assert(out@ =~= prelude + push_statements(tdv.take(i + 1)));
        }
        i = i + 1;
    }
    out.append(SCRIPT_MAIN);
    proof {
        assert(tests.deep_view().take(n as int) =~= tests.deep_view());
        assert(out@ =~= bootstrap_script(module@, args.deep_view(), tests.deep_view()));
    }
    out
}

/// The path the bootstrap script is written to: the fixed file name under
/// the work directory.
pub fn bootstrap_script_path(work_dir: &str) -> (r: String)
    ensures
        r@ == joined(work_dir@, SCRIPT_FILE_NAME@),
{
    join_path(work_dir, SCRIPT_FILE_NAME)
}

} // verus!
