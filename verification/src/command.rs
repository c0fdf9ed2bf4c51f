//! A description of a command to run.

use vstd::prelude::*;

verus! {

/// Whether `c` has the Unicode `White_Space` property.
pub open spec fn is_white_space(c: char) -> bool {
    let u = c as u32;
    ||| 0x09 <= u <= 0x0d
    ||| u == 0x20
    ||| u == 0x85
    ||| u == 0xa0
    ||| u == 0x1680
    ||| 0x2000 <= u <= 0x200a
    ||| u == 0x2028
    ||| u == 0x2029
    ||| u == 0x202f
    ||| u == 0x205f
    ||| u == 0x3000
}

/// Whether some character of `s` is white space.
pub open spec fn has_white_space(s: Seq<char>) -> bool {
    exists|i: int| 0 <= i < s.len() && #[trigger] is_white_space(s[i])
}

/// Whether `c` has the Unicode `White_Space` property.
pub fn char_is_white_space(c: char) -> (r: bool)
    ensures
        r == is_white_space(c),
{
    let u = c as u32;
    (0x09 <= u && u <= 0x0d) || u == 0x20 || u == 0x85 || u == 0xa0 || u == 0x1680
        || (0x2000 <= u && u <= 0x200a) || u == 0x2028 || u == 0x2029 || u == 0x202f
        || u == 0x205f || u == 0x3000
}

/// Whether some character of `s` is white space.
pub fn str_has_white_space(s: &str) -> (r: bool)
    ensures
        r == has_white_space(s@),
{
    let n = s.unicode_len();
    let mut i: usize = 0;
    while i < n
        invariant
            n == s@.len(),
            i <= n,
            forall|j: int| 0 <= j < i ==> !is_white_space(#[trigger] s@[j]),
        decreases n - i,
    {
        if char_is_white_space(s.get_char(i)) {
            return true;
        }
        i = i + 1;
    }
    false
}

/// How one argument is shown: between double quotes when it holds white
/// space, as itself otherwise.
pub open spec fn shown_arg(a: Seq<char>) -> Seq<char> {
    if has_white_space(a) { seq!['"'] + a + seq!['"'] } else { a }
}

/// The arguments shown one after another, each after a space.
pub open spec fn shown_args(args: Seq<String>) -> Seq<char>
    decreases args.len(),
{
    if args.len() == 0 {
        Seq::empty()
    } else {
        shown_args(args.drop_last()) + seq![' '] + shown_arg(args.last()@)
    }
}

/// A fully-resolved command invocation.
#[derive(Debug)]
pub struct CommandSpec {
    /// The program to execute (looked up on `PATH` unless absolute).
    pub program: String,
    /// Arguments passed to the program, not including `program` itself.
    pub args: Vec<String>,
    /// Working directory. `None` means "inherit the parent's".
    pub cwd: Option<std::path::PathBuf>,
    /// Extra environment variables to set (added to the inherited environment).
    pub env: Vec<(String, String)>,
}

impl CommandSpec {
    /// Parse a spec from an argv-style slice (`["cargo", "test", "--quiet"]`):
    /// the first word is the program, the rest its arguments. `None` when the
    /// slice is empty.
    pub fn from_argv(argv: &[String]) -> (r: Option<CommandSpec>)
        ensures
            argv@.len() == 0 <==> r is None,
            r is Some ==> {
                let spec = r->0;
                &&& spec.program@ == argv@[0]@
                &&& spec.args@.len() == argv@.len() - 1
                &&& forall|i: int| 0 <= i < spec.args@.len() ==> #[trigger] spec.args@[i]@ == argv@[i + 1]@
                &&& spec.cwd is None
                &&& spec.env@.len() == 0
            },
    {
        if argv.len() == 0 {
            return None;
        }
        let program = argv[0].clone();
        let mut args: Vec<String> = Vec::new();
        let mut i: usize = 1;
        while i < argv.len()
            invariant
                1 <= i <= argv@.len(),
                args@.len() == i - 1,
                forall|j: int| 0 <= j < args@.len() ==> #[trigger] args@[j]@ == argv@[j + 1]@,
            decreases argv@.len() - i,
        {
            args.push(argv[i].clone());
            i = i + 1;
        }
        Some(CommandSpec { program, args, cwd: None, env: Vec::new() })
    }

    /// Render the command back to a human-readable shell-ish string (for
    /// logs): the program, then each argument after a space, quoted when it
    /// holds white space.
    pub fn display(&self) -> (r: String)
        ensures
            r@ == self.program@ + shown_args(self.args@),
    {
        let mut out = String::new();
        out.append(self.program.as_str());
        let mut i: usize = 0;
        while i < self.args.len()
            invariant
                i <= self.args@.len(),
                out@ == self.program@ + shown_args(self.args@.subrange(0, i as int)),
            decreases self.args@.len() - i,
        {
            let a = &self.args[i];
            out.append(" ");
            if str_has_white_space(a.as_str()) {
                out.append("\"");
                out.append(a.as_str());
                out.append("\"");
            } else {
                out.append(a.as_str());
            }
            proof {
                reveal_strlit(" ");
                reveal_strlit("\"");
                let prefix = self.args@.subrange(0, i + 1);
                assert(prefix.drop_last() =~= self.args@.subrange(0, i as int));
                assert(prefix.last() == self.args@[i as int]);
                assert(out@ =~= self.program@ + shown_args(prefix));
            }
            i = i + 1;
        }
        assert(self.args@.subrange(0, self.args@.len() as int) =~= self.args@);
        out
    }
}

} // verus!
