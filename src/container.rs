//! Command lines for the container runtime: run the image, remove it on exit,
//! mount the request's workspace at a fixed path and work there.
use vstd::prelude::*;
use vstd::string::StringExecFns;
use crate::registry::push_text;

verus! {

/// The workspace directory as the container sees it.
pub open spec fn container_dir() -> Seq<char> {
    "/app"@
}

/// The bind-mount argument for a host workspace directory.
pub open spec fn mount_of(workspace: Seq<char>) -> Seq<char> {
    workspace + ":"@ + container_dir()
}

/// Where the source file of a request is written on the host.
pub open spec fn source_path(workspace: Seq<char>, file_name: Seq<char>) -> Seq<char> {
    workspace + "/"@ + file_name
}

/// The runtime arguments that precede a toolchain command. An interactive
/// invocation keeps standard input open for the program.
pub open spec fn container_prefix(interactive: bool, workspace: Seq<char>) -> Seq<Seq<char>> {
    if interactive {
        seq!["run"@, "--rm"@, "-i"@, "-v"@, mount_of(workspace), "-w"@, container_dir(), "executor"@]
    } else {
        seq!["run"@, "--rm"@, "-v"@, mount_of(workspace), "-w"@, container_dir(), "executor"@]
    }
}

/// The full argument list handed to the container runtime.
pub open spec fn container_args(interactive: bool, workspace: Seq<char>, cmd: Seq<Seq<char>>) -> Seq<
    Seq<char>,
> {
    container_prefix(interactive, workspace) + cmd
}

/// Builds the bind-mount argument for a workspace directory.
pub fn mount_arg(workspace: &str) -> (r: String)
    ensures
        r@ == mount_of(workspace@),
{
    let mut m = String::from_str(workspace);
    m.append(":");
    m.append("/app");
    assert(m@ == mount_of(workspace@)) by {
        assert(workspace@ + ":"@ + "/app"@ =~= mount_of(workspace@));
    }
    m
}

/// Builds the host path of the source file of a request.
pub fn source_path_of(workspace: &str, file_name: &str) -> (r: String)
    ensures
        r@ == source_path(workspace@, file_name@),
{
    let mut p = String::from_str(workspace);
    p.append("/");
    p.append(file_name);
    p
}

/// Builds the runtime arguments for one compile or run invocation.
pub fn container_command(interactive: bool, workspace: &str, cmd: &Vec<String>) -> (r: Vec<String>)
    ensures
        r.deep_view() == container_args(interactive, workspace@, cmd.deep_view()),
{
    let mut v: Vec<String> = Vec::new();
    push_text(&mut v, String::from_str("run"));
    push_text(&mut v, String::from_str("--rm"));
    if interactive {
        push_text(&mut v, String::from_str("-i"));
    }
    push_text(&mut v, String::from_str("-v"));
    push_text(&mut v, mount_arg(workspace));
    push_text(&mut v, String::from_str("-w"));
    push_text(&mut v, String::from_str("/app"));
    push_text(&mut v, String::from_str("executor"));
    let ghost prefix = v.deep_view();
    assert(prefix =~= container_prefix(interactive, workspace@));
    let mut i: usize = 0;
    while i < cmd.len()
        invariant
            i <= cmd@.len(),
            v.deep_view() =~= prefix + cmd.deep_view().subrange(0, i as int),
        decreases cmd@.len() - i,
    {
        push_text(&mut v, cmd[i].clone());
        assert(cmd.deep_view().subrange(0, i + 1) =~= cmd.deep_view().subrange(0, i as int).push(
            cmd@[i as int]@,
        ));
        i = i + 1;
    }
    assert(cmd.deep_view().subrange(0, i as int) =~= cmd.deep_view());
    v
}

} // verus!
