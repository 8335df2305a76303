//! The podman adapter's invocation layout: the exact argument vectors handed
//! to the `podman` binary for machine bring-up, interactive shells and
//! one-shot runs. Spawning the process itself lives with the caller, outside
//! what is verified; these functions pin down everything up to that point.

use vstd::prelude::*;

use super::{cap_token, Capabilities, ContainerRunRequest, RunRequestView};

verus! {

/// One `--cap-add <TOKEN>` flag pair per capability, in list order.
pub open spec fn cap_args(caps: Seq<Capabilities>) -> Seq<Seq<char>>
    decreases caps.len(),
{
    if caps.len() == 0 {
        Seq::empty()
    } else {
        cap_args(caps.drop_last()) + seq!["--cap-add"@, cap_token(caps.last())]
    }
}

/// The bind-mount argument: the host output directory mounted at `/OUTPUT`,
/// relabelled for shared use.
pub open spec fn volume_arg(output_dir: Seq<char>) -> Seq<char> {
    output_dir + ":/OUTPUT:Z"@
}

/// The distinguishing prompt exported into interactive shells.
pub open spec fn shell_prompt() -> Seq<char> {
    "PS1=\\[\\033[1;32m\\]podshot \\[\\033[0m\\]:\\[\\033[1;34m\\]\\w\\[\\033[0m\\]^ "@
}

/// The arguments of `podman machine init`.
pub open spec fn machine_init_invocation() -> Seq<Seq<char>> {
    seq!["machine"@, "init"@]
}

/// The arguments of `podman machine start`.
pub open spec fn machine_start_invocation() -> Seq<Seq<char>> {
    seq!["machine"@, "start"@]
}

/// The arguments of a shell invocation that precede the capability flags.
pub open spec fn shell_head(output_dir: Seq<char>) -> Seq<Seq<char>> {
    seq!["run"@, "-it"@, "--rm"@, "-v"@, volume_arg(output_dir), "-w"@, "/OUTPUT"@]
}

/// The arguments of a shell invocation that follow the capability flags: the
/// prompt, the image, and a shell that runs the install script directly
/// followed by `exec /bin/sh`.
pub open spec fn shell_tail(req: RunRequestView) -> Seq<Seq<char>> {
    seq![
        "-e"@,
        shell_prompt(),
        req.image,
        "/bin/sh"@,
        "-c"@,
        req.install_commands + "exec /bin/sh"@,
    ]
}

/// The full argument vector of an interactive-shell invocation.
pub open spec fn shell_invocation(req: RunRequestView) -> Seq<Seq<char>> {
    shell_head(req.output_dir) + cap_args(req.capabilities) + shell_tail(req)
}

/// The arguments of a one-shot run invocation that precede the capability
/// flags: signal proxying on, stdin kept open without a TTY, and stdout and
/// stderr attached.
pub open spec fn run_head(output_dir: Seq<char>) -> Seq<Seq<char>> {
    seq![
        "run"@,
        "--sig-proxy=true"@,
        "-i"@,
        "--rm"@,
        "-v"@,
        volume_arg(output_dir),
        "-w"@,
        "/OUTPUT"@,
        "-a"@,
        "stdout"@,
        "-a"@,
        "stderr"@,
    ]
}

/// The arguments of a one-shot run invocation that follow the capability
/// flags: the image and a shell that runs the install script directly
/// followed by `eval <command>`.
pub open spec fn run_tail(req: RunRequestView, command: Seq<char>) -> Seq<Seq<char>> {
    seq![req.image, "/bin/sh"@, "-c"@, req.install_commands + "eval "@ + command]
}

/// The full argument vector of a one-shot run invocation.
pub open spec fn run_invocation(req: RunRequestView, command: Seq<char>) -> Seq<Seq<char>> {
    run_head(req.output_dir) + cap_args(req.capabilities) + run_tail(req, command)
}

/// Law: with an empty install script, the shell command of a one-shot run is
/// exactly `eval ` followed by the caller's command, with nothing prepended.
pub proof fn lemma_empty_script_runs_command_alone(req: RunRequestView, command: Seq<char>)
    requires
        req.install_commands.len() == 0,
    ensures
        run_invocation(req, command).last() == "eval "@ + command,
{
    assert(req.install_commands + "eval "@ + command =~= "eval "@ + command);
    assert(run_invocation(req, command).last() == run_tail(req, command)[3]);
}

/// Appends one owned argument.
fn push_owned(args: &mut Vec<String>, a: String)
    ensures
        final(args).deep_view() == old(args).deep_view().push(a@),
{
    let ghost before = args.deep_view();
    let ghost av = a@;
    args.push(a);
    proof {
        assert(args.deep_view() =~~= before.push(av));
    }
}

/// Appends one literal argument.
fn push_arg(args: &mut Vec<String>, a: &str)
    ensures
        final(args).deep_view() == old(args).deep_view().push(a@),
{
    let ghost before = args.deep_view();
    args.push(a.to_owned());
    proof {
        assert(args.deep_view() =~~= before.push(a@));
    }
}

/// Appends the `--cap-add` flag pairs for every capability, in order.
fn push_cap_args(args: &mut Vec<String>, caps: &Vec<Capabilities>)
    ensures
        final(args).deep_view() == old(args).deep_view() + cap_args(caps@),
{
    let ghost before = args.deep_view();
    let mut i: usize = 0;
    while i < caps.len()
        invariant
            i <= caps@.len(),
            args.deep_view() == before + cap_args(caps@.take(i as int)),
        decreases caps.len() - i,
    {
        push_arg(args, "--cap-add");
        push_arg(args, caps[i].token());
        proof {
            assert(caps@.take(i + 1).drop_last() =~= caps@.take(i as int));
            assert(caps@.take(i + 1).last() == caps@[i as int]);
            assert(args.deep_view() =~~= before + cap_args(caps@.take(i + 1)));
        }
        i += 1;
    }
    proof {
        assert(caps@.take(caps@.len() as int) =~= caps@);
    }
}

/// The production adapter for the podman CLI. It computes the exact argument
/// vectors of every podman invocation; the surrounding binary spawns the
/// processes and reports spawn failures through `ContainerError`.
pub struct Podman;

impl Podman {
    pub fn new() -> (r: Self) {
        Podman
    }

    /// The arguments of the first bring-up invocation, `machine init`.
    pub fn machine_init_args(&self) -> (r: Vec<String>)
        ensures
            r.deep_view() == machine_init_invocation(),
    {
        let mut args: Vec<String> = Vec::new();
        push_arg(&mut args, "machine");
        push_arg(&mut args, "init");
        proof {
            assert(args.deep_view() =~~= machine_init_invocation());
        }
        args
    }

    /// The arguments of the second bring-up invocation, `machine start`.
    pub fn machine_start_args(&self) -> (r: Vec<String>)
        ensures
            r.deep_view() == machine_start_invocation(),
    {
        let mut args: Vec<String> = Vec::new();
        push_arg(&mut args, "machine");
        push_arg(&mut args, "start");
        proof {
            assert(args.deep_view() =~~= machine_start_invocation());
        }
        args
    }

    /// The arguments of an interactive-shell invocation for `req`.
    pub fn shell_args(&self, req: &ContainerRunRequest) -> (r: Vec<String>)
        ensures
            r.deep_view() == shell_invocation(req@),
    {
        let mut args: Vec<String> = Vec::new();
        push_arg(&mut args, "run");
        push_arg(&mut args, "-it");
        push_arg(&mut args, "--rm");
        push_arg(&mut args, "-v");
        let mut vol = req.output_dir().to_owned();
        vol.append(":/OUTPUT:Z");
        push_owned(&mut args, vol);
        push_arg(&mut args, "-w");
        push_arg(&mut args, "/OUTPUT");
        proof {
            assert(args.deep_view() =~~= shell_head(req@.output_dir));
        }
        push_cap_args(&mut args, req.capabilities());
        let ghost mid = args.deep_view();
        push_arg(&mut args, "-e");
        push_arg(
            &mut args,
            "PS1=\\[\\033[1;32m\\]podshot \\[\\033[0m\\]:\\[\\033[1;34m\\]\\w\\[\\033[0m\\]^ ",
        );
        push_owned(&mut args, req.image().to_owned());
        push_arg(&mut args, "/bin/sh");
        push_arg(&mut args, "-c");
        let mut sh = req.install_commands().as_str().to_owned();
        sh.append("exec /bin/sh");
        push_owned(&mut args, sh);
        proof {
            assert(args.deep_view() =~~= mid + shell_tail(req@));
            assert(args.deep_view() =~~= shell_invocation(req@));
        }
        args
    }

    /// The arguments of a one-shot run invocation for `req` and `command`.
    pub fn run_args(&self, req: &ContainerRunRequest, command: &str) -> (r: Vec<String>)
        ensures
            r.deep_view() == run_invocation(req@, command@),
    {
        let mut args: Vec<String> = Vec::new();
        push_arg(&mut args, "run");
        push_arg(&mut args, "--sig-proxy=true");
        push_arg(&mut args, "-i");
        push_arg(&mut args, "--rm");
        push_arg(&mut args, "-v");
        let mut vol = req.output_dir().to_owned();
        vol.append(":/OUTPUT:Z");
        push_owned(&mut args, vol);
        push_arg(&mut args, "-w");
        push_arg(&mut args, "/OUTPUT");
        push_arg(&mut args, "-a");
        push_arg(&mut args, "stdout");
        push_arg(&mut args, "-a");
        push_arg(&mut args, "stderr");
        proof {
            assert(args.deep_view() =~~= run_head(req@.output_dir));
        }
        push_cap_args(&mut args, req.capabilities());
        let ghost mid = args.deep_view();
        push_owned(&mut args, req.image().to_owned());
        push_arg(&mut args, "/bin/sh");
        push_arg(&mut args, "-c");
        let mut sh = req.install_commands().as_str().to_owned();
        sh.append("eval ");
        sh.append(command);
        push_owned(&mut args, sh);
        proof {
            assert(args.deep_view() =~~= mid + run_tail(req@, command@));
            assert(args.deep_view() =~~= run_invocation(req@, command@));
        }
        args
    }
}

} // verus!
