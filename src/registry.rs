//! The table of supported languages: for each one, the file that holds the
//! submitted source, the optional compile command and the run command.
use vstd::prelude::*;
use vstd::string::StringExecFns;

verus! {

/// How one language is built and run inside the container.
pub struct ToolchainSpec {
    /// Name of the file, inside the workspace, that receives the source text.
    pub source_file: String,
    /// Command that compiles the source, for ahead-of-time compiled languages.
    pub compile: Option<Vec<String>>,
    /// Command that runs the program.
    pub run: Vec<String>,
}

/// Mathematical model of a [`ToolchainSpec`].
pub ghost struct Toolchain {
    pub source_file: Seq<char>,
    pub compile: Option<Seq<Seq<char>>>,
    pub run: Seq<Seq<char>>,
}

impl View for ToolchainSpec {
    type V = Toolchain;

    open spec fn view(&self) -> Toolchain {
        Toolchain {
            source_file: self.source_file@,
            compile: self.compile.deep_view(),
            run: self.run.deep_view(),
        }
    }
}

impl Toolchain {
    /// Every entry of the table can be run: its run command is not empty.
    pub open spec fn wf(self) -> bool {
        self.run.len() > 0
    }
}

/// The registry, keyed by a lower-cased language identifier.
pub open spec fn registry(lang: Seq<char>) -> Option<Toolchain> {
    if lang == "python"@ {
        Some(Toolchain { source_file: "code.py"@, compile: None, run: seq!["python3"@, "code.py"@] })
    } else if lang == "rust"@ {
        Some(
            Toolchain {
                source_file: "code.rs"@,
                compile: Some(seq!["rustc"@, "code.rs"@]),
                run: seq!["./code"@],
            },
        )
    } else if lang == "cpp"@ {
        Some(
            Toolchain {
                source_file: "code.cpp"@,
                compile: Some(seq!["g++"@, "code.cpp"@, "-o"@, "code"@]),
                run: seq!["./code"@],
            },
        )
    } else if lang == "typescript"@ || lang == "javascript"@ {
        Some(Toolchain { source_file: "code.ts"@, compile: None, run: seq!["bun"@, "run"@, "code.ts"@] })
    } else {
        None
    }
}

/// The identifiers that the registry knows, in lower case.
pub open spec fn supported(lang: Seq<char>) -> bool {
    lang == "python"@ || lang == "rust"@ || lang == "cpp"@ || lang == "typescript"@ || lang
        == "javascript"@
}

/// Whether two string slices hold the same characters.
pub fn same_text(a: &str, b: &str) -> (r: bool)
    ensures
        r == (a@ == b@),
{
    let n = a.unicode_len();
    if n != b.unicode_len() {
        return false;
    }
    let mut i: usize = 0;
    while i < n
        invariant
            n == a@.len(),
            n == b@.len(),
            i <= n,
            forall|j: int| 0 <= j < i ==> a@[j] == b@[j],
        decreases n - i,
    {
        if a.get_char(i) != b.get_char(i) {
            return false;
        }
        i = i + 1;
    }
    assert(a@ =~= b@);
    true
}

/// Appends one argument to a command line.
pub fn push_text(v: &mut Vec<String>, s: String)
    ensures
        final(v).deep_view() == old(v).deep_view().push(s@),
{
    v.push(s);
    assert(final(v).deep_view() =~= old(v).deep_view().push(s@)) by {
        assert forall|i: int| 0 <= i < final(v)@.len() implies #[trigger] final(v).deep_view()[i]
            == old(v).deep_view().push(s@)[i] by {
            if i < old(v)@.len() {
                assert(final(v)@[i] == old(v)@[i]);
            }
        }
    }
}

fn command1(a: &str) -> (r: Vec<String>)
    ensures
        r.deep_view() == seq![a@],
{
    let mut v: Vec<String> = Vec::new();
    push_text(&mut v, String::from_str(a));
    assert(v.deep_view() =~= seq![a@]);
    v
}

fn command2(a: &str, b: &str) -> (r: Vec<String>)
    ensures
        r.deep_view() == seq![a@, b@],
{
    let mut v = command1(a);
    push_text(&mut v, String::from_str(b));
    assert(v.deep_view() =~= seq![a@, b@]);
    v
}

fn command3(a: &str, b: &str, c: &str) -> (r: Vec<String>)
    ensures
        r.deep_view() == seq![a@, b@, c@],
{
    let mut v = command2(a, b);
    push_text(&mut v, String::from_str(c));
    assert(v.deep_view() =~= seq![a@, b@, c@]);
    v
}

fn command4(a: &str, b: &str, c: &str, d: &str) -> (r: Vec<String>)
    ensures
        r.deep_view() == seq![a@, b@, c@, d@],
{
    let mut v = command3(a, b, c);
    push_text(&mut v, String::from_str(d));
    assert(v.deep_view() =~= seq![a@, b@, c@, d@]);
    v
}

/// Looks up an already lower-cased language identifier.
pub fn toolchain_for(normalized: &str) -> (r: Option<ToolchainSpec>)
    ensures
        match r {
            Some(t) => registry(normalized@) == Some(t@),
            None => registry(normalized@) is None,
        },
{
    if same_text(normalized, "python") {
        Some(
            ToolchainSpec {
                source_file: String::from_str("code.py"),
                compile: None,
                run: command2("python3", "code.py"),
            },
        )
    } else if same_text(normalized, "rust") {
        Some(
            ToolchainSpec {
                source_file: String::from_str("code.rs"),
                compile: Some(command2("rustc", "code.rs")),
                run: command1("./code"),
            },
        )
    } else if same_text(normalized, "cpp") {
        Some(
            ToolchainSpec {
                source_file: String::from_str("code.cpp"),
                compile: Some(command4("g++", "code.cpp", "-o", "code")),
                run: command1("./code"),
            },
        )
    } else if same_text(normalized, "typescript") || same_text(normalized, "javascript") {
        Some(
            ToolchainSpec {
                source_file: String::from_str("code.ts"),
                compile: None,
                run: command3("bun", "run", "code.ts"),
            },
        )
    } else {
        None
    }
}

} // verus!
