//! Names of per-request workspace directories. Each request of a server
//! process gets a serial number, and the name carries it in decimal, so no
//! two requests of one process share a directory.
use vstd::prelude::*;
use vstd::string::StringExecFns;

verus! {

/// The decimal digit for a value below ten.
pub open spec fn digit(d: nat) -> char {
    if d == 0 {
        '0'
    } else if d == 1 {
        '1'
    } else if d == 2 {
        '2'
    } else if d == 3 {
        '3'
    } else if d == 4 {
        '4'
    } else if d == 5 {
        '5'
    } else if d == 6 {
        '6'
    } else if d == 7 {
        '7'
    } else if d == 8 {
        '8'
    } else {
        '9'
    }
}

/// A number written in decimal, without leading zeros.
pub open spec fn decimal(n: nat) -> Seq<char>
    decreases n,
{
    if n < 10 {
        seq![digit(n)]
    } else {
        decimal(n / 10).push(digit(n % 10))
    }
}

/// The workspace directory of a request, under a base directory, for a
/// server process and a serial number within that process.
pub open spec fn workspace_path(base: Seq<char>, process: nat, serial: nat) -> Seq<char> {
    base + "/code-executor-"@ + decimal(process) + "-"@ + decimal(serial)
}

fn digit_text(d: u64) -> (r: &'static str)
    requires
        d < 10,
    ensures
        r@ == seq![digit(d as nat)],
{
    let r = if d == 0 {
        "0"
    } else if d == 1 {
        "1"
    } else if d == 2 {
        "2"
    } else if d == 3 {
        "3"
    } else if d == 4 {
        "4"
    } else if d == 5 {
        "5"
    } else if d == 6 {
        "6"
    } else if d == 7 {
        "7"
    } else if d == 8 {
        "8"
    } else {
        "9"
    };
    proof {
        reveal_strlit("0");
        reveal_strlit("1");
        reveal_strlit("2");
        reveal_strlit("3");
        reveal_strlit("4");
        reveal_strlit("5");
        reveal_strlit("6");
        reveal_strlit("7");
        reveal_strlit("8");
        reveal_strlit("9");
    }
    assert(r@ =~= seq![digit(d as nat)]);
    r
}

/// Writes a number in decimal.
pub fn decimal_text(n: u64) -> (r: String)
    ensures
        r@ == decimal(n as nat),
    decreases n,
{
    if n < 10 {
        String::from_str(digit_text(n))
    } else {
        let head = decimal_text(n / 10);
        let r = head.concat(digit_text(n % 10));
        assert(r@ =~= decimal(n as nat));
        r
    }
}

/// Builds the workspace directory name of a request.
pub fn workspace_name(base: &str, process: u64, serial: u64) -> (r: String)
    ensures
        r@ == workspace_path(base@, process as nat, serial as nat),
{
    let mut r = String::from_str(base);
    r.append("/code-executor-");
    let p = decimal_text(process);
    r.append(p.as_str());
    r.append("-");
    let s = decimal_text(serial);
    r.append(s.as_str());
    r
}

proof fn lemma_decimal_len(n: nat)
    ensures
        decimal(n).len() >= 1,
        n >= 10 ==> decimal(n).len() >= 2,
    decreases n,
{
    if n >= 10 {
        lemma_decimal_len(n / 10);
    }
}

/// Different numbers are written differently.
pub proof fn lemma_decimal_injective(a: nat, b: nat)
    requires
        decimal(a) == decimal(b),
    ensures
        a == b,
    decreases a,
{
    lemma_decimal_len(a);
    lemma_decimal_len(b);
    if a >= 10 && b >= 10 {
        let da = decimal(a);
        assert(da.last() == digit(a % 10));
        assert(decimal(b).last() == digit(b % 10));
        assert(da.drop_last() =~= decimal(a / 10));
        assert(decimal(b).drop_last() =~= decimal(b / 10));
        lemma_decimal_injective(a / 10, b / 10);
        assert(a == 10 * (a / 10) + a % 10);
        assert(b == 10 * (b / 10) + b % 10);
    } else if a < 10 && b < 10 {
        assert(decimal(a)[0] == digit(a));
        assert(decimal(b)[0] == digit(b));
    }
}

/// Two requests of one server process, with different serial numbers, get
/// different workspace directories.
pub proof fn lemma_workspace_names_distinct(base: Seq<char>, process: nat, first: nat, second: nat)
    requires
        first != second,
    ensures
        workspace_path(base, process, first) != workspace_path(base, process, second),
{
    let prefix = base + "/code-executor-"@ + decimal(process) + "-"@;
    if workspace_path(base, process, first) == workspace_path(base, process, second) {
        let w = workspace_path(base, process, first);
        assert(w.subrange(prefix.len() as int, w.len() as int) =~= decimal(first));
        let v = workspace_path(base, process, second);
        assert(v.subrange(prefix.len() as int, v.len() as int) =~= decimal(second));
        lemma_decimal_injective(first, second);
    }
}

} // verus!
