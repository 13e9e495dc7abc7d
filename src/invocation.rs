use vstd::prelude::*;
use vstd::string::{StrSliceExecFns, StringExecFns};

verus! {

/// The directory under which named namespaces are persisted.
pub const NETNS_DIR: &'static str = "/run/netns/";

/// The exit code after a usage message: the tool reports success then.
pub const USAGE_EXIT_CODE: i32 = 0;

/// What the command line asks for.
#[derive(Debug, Clone, PartialEq, Eq)]
pub enum Invocation {
    /// The arguments are not exactly one name: print the usage and exit.
    Usage,
    /// Set up the namespace of this name.
    Setup { name: String },
}

/// The command line asks for a setup exactly when it holds the program's name
/// and one argument; that argument is then the namespace name.
pub open spec fn asks_for_setup(args: Seq<String>) -> bool {
    args.len() == 2
}

/// Reads the command line, program name first.
pub fn parse_args(args: &Vec<String>) -> (r: Invocation)
    ensures
        asks_for_setup(args@) <==> r is Setup,
        r matches Invocation::Setup { name } ==> name@ == args@[1]@,
{
    if args.len() != 2 {
        Invocation::Usage
    } else {
        Invocation::Setup { name: args[1].clone() }
    }
}

/// The usage message.
pub open spec fn usage_text() -> Seq<char> {
    "usage: add_netns <ns_name>"@
}

/// The usage message, for the tool to print on standard error.
pub fn usage() -> (r: String)
    ensures
        r@ == usage_text(),
{
    String::from_str("usage: add_netns <ns_name>")
}

/// The exit code of the tool for a command line that does not ask for a setup.
pub fn usage_exit_code(inv: &Invocation) -> (r: Option<i32>)
    ensures
        r == (if inv is Usage {
            Some(USAGE_EXIT_CODE)
        } else {
            None::<i32>
        }),
        inv is Usage ==> r == Some(0i32),
{
    match inv {
        Invocation::Usage => Some(USAGE_EXIT_CODE),
        Invocation::Setup { .. } => None,
    }
}

/// Where the namespace of a name is persisted.
pub open spec fn netns_path_of(name: Seq<char>) -> Seq<char> {
    NETNS_DIR@ + name
}

/// The path of the persisted namespace of `name`.
pub fn netns_path(name: &str) -> (r: String)
    ensures
        r@ == netns_path_of(name@),
{
    let mut p = String::from_str(NETNS_DIR);
    p.append(name);
    p
}

/// A namespace name must be a single path component: not empty, not `.` or
/// `..`, and free of `/` and of the NUL character.
pub open spec fn valid_ns_name(name: Seq<char>) -> bool {
    &&& name.len() > 0
    &&& name != seq!['.']
    &&& name != seq!['.', '.']
    &&& forall|i: int| 0 <= i < name.len() ==> #[trigger] name[i] != '/' && name[i] != '\0'
}

/// Whether `name` can name a namespace.
pub fn is_valid_ns_name(name: &str) -> (r: bool)
    ensures
        r == valid_ns_name(name@),
{
    let n = name.unicode_len();
    if n == 0 {
        return false;
    }
    let mut i: usize = 0;
    let mut dots: usize = 0;
    while i < n
        invariant
            n == name@.len(),
            0 <= i <= n,
            dots <= i,
            forall|k: int| 0 <= k < i ==> #[trigger] name@[k] != '/' && name@[k] != '\0',
            dots == i <==> forall|k: int| 0 <= k < i ==> #[trigger] name@[k] == '.',
        decreases n - i,
    {
        let c = name.get_char(i);
        if c == '/' || c == '\0' {
            return false;
        }
        if c == '.' && dots == i {
            dots = dots + 1;
        }
        i = i + 1;
    }
    if dots == n && n <= 2 {
        assert(name@[0] == '.');
        if n == 1 {
            assert(name@ =~= seq!['.']);
        } else {
            assert(name@[1] == '.');
            assert(name@ =~= seq!['.', '.']);
        }
        false
    } else {
        proof {
            if name@ == seq!['.'] || name@ == seq!['.', '.'] {
                assert(forall|k: int| 0 <= k < n ==> #[trigger] name@[k] == '.');
            }
        }
        true
    }
}

} // verus!
