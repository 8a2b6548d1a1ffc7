//! Properties that hold of every request, stated over the models of the
//! registry and of the orchestration, and proved.
use vstd::prelude::*;
use crate::container::{container_args, container_prefix, mount_of, source_path};
use crate::execution::{
    action_of, advanced, begin, next_stage, replay, unsupported_message, Action, Happened,
    Orchestration, Reply, Stage,
};
use crate::registry::{registry, supported};
use crate::request::lower_of;

verus! {

/// Dispatch resolves exactly the supported identifiers, compared after
/// lower-casing; each resolved toolchain has a run command. Any other
/// identifier is answered with a client error before any step is taken.
pub proof fn lemma_dispatch(
    language: Seq<char>,
    workspace: Seq<char>,
    code: Seq<char>,
    stdin: Seq<char>,
)
    ensures
        (registry(lower_of(language)) is Some) == supported(lower_of(language)),
        registry(lower_of(language)) matches Some(t) ==> (t.wf()),
        !supported(lower_of(language)) ==> begin(lower_of(language), workspace, code, stdin)
            == Err::<Orchestration, Reply>(Reply::BadRequest(unsupported_message())),
        supported(lower_of(language)) ==> (begin(lower_of(language), workspace, code, stdin)
            matches Ok(o) && o.stage == Stage::Staging),
{
}

/// A finished request stays finished, whatever else is reported to it.
pub proof fn lemma_done_is_final(o: Orchestration, events: Seq<Happened>)
    requires
        o.stage is Done,
    ensures
        replay(o, events) == o,
    decreases events.len(),
{
    if events.len() > 0 {
        assert(advanced(o, events[0]) =~= o);
        lemma_done_is_final(o, events.drop_first());
    }
}

/// A failed compile ends the request with the compiler's diagnostics as the
/// error and no output, and no run step follows, whatever is reported after.
/// Diagnostics that are not empty give an error that is not empty.
pub proof fn lemma_compile_failure_stops(
    o: Orchestration,
    stdout: Seq<char>,
    stderr: Seq<char>,
    later: Seq<Happened>,
)
    requires
        o.stage is Compiling,
    ensures
        ({
            let d = replay(advanced(o, Happened::Exited(false, stdout, stderr)), later);
            &&& d.stage == Stage::Done(Reply::Success(Seq::empty(), stderr))
            &&& action_of(d) == Action::Respond(Reply::Success(Seq::empty(), stderr))
            &&& stderr.len() > 0 ==> action_of(d)->Respond_0->Success_1.len() > 0
        }),
{
    lemma_done_is_final(advanced(o, Happened::Exited(false, stdout, stderr)), later);
}

/// Events never change what a request is about: its toolchain, workspace,
/// source text and input text.
pub proof fn lemma_replay_keeps_request(o: Orchestration, events: Seq<Happened>)
    ensures
        replay(o, events).toolchain == o.toolchain,
        replay(o, events).workspace == o.workspace,
        replay(o, events).code == o.code,
        replay(o, events).stdin == o.stdin,
    decreases events.len(),
{
    if events.len() > 0 {
        lemma_replay_keeps_request(advanced(o, events[0]), events.drop_first());
    }
}

/// Whenever a request reaches its run step, the program is started through
/// an interactive invocation and handed the request's whole input text.
pub proof fn lemma_run_gets_input(
    language: Seq<char>,
    workspace: Seq<char>,
    code: Seq<char>,
    stdin: Seq<char>,
    events: Seq<Happened>,
)
    requires
        begin(language, workspace, code, stdin) is Ok,
        replay(begin(language, workspace, code, stdin)->Ok_0, events).stage is Running,
    ensures
        ({
            let o = begin(language, workspace, code, stdin)->Ok_0;
            action_of(replay(o, events)) == Action::Run(
                container_args(true, workspace, o.toolchain.run),
                stdin,
            )
        }),
{
    lemma_replay_keeps_request(begin(language, workspace, code, stdin)->Ok_0, events);
}

/// The same request, answered by the same reports (a deterministic program),
/// is asked for the same steps and gets the same response.
pub proof fn lemma_same_request_same_answer(
    language: Seq<char>,
    workspace: Seq<char>,
    code: Seq<char>,
    stdin: Seq<char>,
    first: Seq<Happened>,
    second: Seq<Happened>,
)
    requires
        first == second,
    ensures
        begin(language, workspace, code, stdin) matches Ok(o) ==> (action_of(replay(o, first))
            == action_of(replay(o, second))),
        begin(language, workspace, code, stdin) matches Err(r) ==> (r == Reply::BadRequest(
            unsupported_message(),
        )),
{
}

proof fn lemma_suffix_injective(a: Seq<char>, b: Seq<char>, s: Seq<char>)
    requires
        a + s == b + s,
    ensures
        a == b,
{
    assert((a + s).len() == (b + s).len());
    assert(a =~= (a + s).subrange(0, a.len() as int));
    assert(b =~= (b + s).subrange(0, b.len() as int));
}

/// Two requests in different workspaces never share a source file or a
/// mounted directory: under the same language their source paths differ,
/// and so do the mount arguments of all their container invocations.
pub proof fn lemma_workspaces_isolated(o1: Orchestration, o2: Orchestration)
    requires
        o1.workspace != o2.workspace,
        o1.toolchain.source_file == o2.toolchain.source_file,
    ensures
        source_path(o1.workspace, o1.toolchain.source_file) != source_path(
            o2.workspace,
            o2.toolchain.source_file,
        ),
        mount_of(o1.workspace) != mount_of(o2.workspace),
        forall|i1: bool, i2: bool, c1: Seq<Seq<char>>, c2: Seq<Seq<char>>|
            #![trigger container_args(i1, o1.workspace, c1), container_args(i2, o2.workspace, c2)]
            container_args(i1, o1.workspace, c1) != container_args(i2, o2.workspace, c2),
{
    let f = o1.toolchain.source_file;
    if source_path(o1.workspace, f) == source_path(o2.workspace, f) {
        assert(o1.workspace + ("/"@ + f) =~= source_path(o1.workspace, f));
        assert(o2.workspace + ("/"@ + f) =~= source_path(o2.workspace, f));
        lemma_suffix_injective(o1.workspace, o2.workspace, "/"@ + f);
    }
    assert(o1.workspace + ":"@ + "/app"@ =~= o1.workspace + (":"@ + "/app"@));
    assert(o2.workspace + ":"@ + "/app"@ =~= o2.workspace + (":"@ + "/app"@));
    if mount_of(o1.workspace) == mount_of(o2.workspace) {
        lemma_suffix_injective(o1.workspace, o2.workspace, ":"@ + "/app"@);
    }
    assert forall|i1: bool, i2: bool, c1: Seq<Seq<char>>, c2: Seq<Seq<char>>|
        #![trigger container_args(i1, o1.workspace, c1), container_args(i2, o2.workspace, c2)]
        container_args(i1, o1.workspace, c1) != container_args(i2, o2.workspace, c2) by {
        let a1 = container_args(i1, o1.workspace, c1);
        let a2 = container_args(i2, o2.workspace, c2);
        if a1 == a2 {
            let k1: int = if i1 { 4 } else { 3 };
            let k2: int = if i2 { 4 } else { 3 };
            assert(a1[k1] == mount_of(o1.workspace));
            assert(a2[k2] == mount_of(o2.workspace));
            if i1 != i2 {
                // The flag that keeps standard input open shifts the mount.
                assert(a1[2] == container_prefix(i1, o1.workspace)[2]);
                assert(a2[2] == container_prefix(i2, o2.workspace)[2]);
                assert("-i"@ != "-v"@) by {
                    reveal_strlit("-i");
                    reveal_strlit("-v");
                    assert("-i"@[1] != "-v"@[1]);
                }
            }
        }
    }
}

/// A container that cannot be launched, at compile or at run time, ends the
/// request with a server error that carries no output and says what failed.
pub proof fn lemma_launch_failure(o: Orchestration, reason: Seq<char>)
    requires
        o.stage is Compiling || o.stage is Running,
    ensures
        next_stage(o, Happened::LaunchFailed(reason)) matches Stage::Done(Reply::ServerError(out, err))
            && out.len() == 0 && err.len() > reason.len(),
{
    reveal_strlit("Compilation failed: ");
    reveal_strlit("Failed to run code: ");
}

} // verus!
