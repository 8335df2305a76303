use oneshot::container::podman::Podman;
use oneshot::container::{Capabilities, ContainerRunRequest, InstallCommandBuilder};

const PROMPT: &str =
    "PS1=\\[\\033[1;32m\\]podshot \\[\\033[0m\\]:\\[\\033[1;34m\\]\\w\\[\\033[0m\\]^ ";

fn request(caps: Vec<Capabilities>, script_pkgs: Option<&[String]>) -> ContainerRunRequest {
    let install = InstallCommandBuilder::new().with_apk(script_pkgs).build();
    ContainerRunRequest::new("alpine:latest", "/tmp/out".to_string(), caps, &install)
}

#[test]
fn machine_bring_up_invocations() {
    let podman = Podman::new();
    assert_eq!(podman.machine_init_args(), vec!["machine", "init"]);
    assert_eq!(podman.machine_start_args(), vec!["machine", "start"]);
}

#[test]
fn bring_up_invocations_are_the_same_every_time() {
    let podman = Podman::new();
    assert_eq!(podman.machine_init_args(), podman.machine_init_args());
    assert_eq!(podman.machine_start_args(), podman.machine_start_args());
}

#[test]
fn shell_invocation_without_capabilities_or_script() {
    let podman = Podman::new();
    let req = request(Vec::new(), None);
    let args = podman.shell_args(&req);
    assert_eq!(
        args,
        vec![
            "run",
            "-it",
            "--rm",
            "-v",
            "/tmp/out:/OUTPUT:Z",
            "-w",
            "/OUTPUT",
            "-e",
            PROMPT,
            "alpine:latest",
            "/bin/sh",
            "-c",
            "exec /bin/sh",
        ]
    );
}

#[test]
fn capability_flags_come_in_separate_pairs_in_order() {
    let podman = Podman::new();
    let req = request(vec![Capabilities::NetRaw, Capabilities::NetAdmin], None);
    let args = podman.shell_args(&req);
    assert_eq!(
        args[7..11].to_vec(),
        vec![
            "--cap-add".to_string(),
            "NET_RAW".to_string(),
            "--cap-add".to_string(),
            "NET_ADMIN".to_string(),
        ]
    );
    let run_args = podman.run_args(&req, "true");
    assert_eq!(
        run_args[12..16].to_vec(),
        vec![
            "--cap-add".to_string(),
            "NET_RAW".to_string(),
            "--cap-add".to_string(),
            "NET_ADMIN".to_string(),
        ]
    );
}

#[test]
fn shell_invocation_prepends_install_script() {
    let podman = Podman::new();
    let pkgs = vec!["git".to_string()];
    let req = request(Vec::new(), Some(&pkgs));
    let args = podman.shell_args(&req);
    assert_eq!(
        args.last().unwrap().as_str(),
        "apk update && apk add --no-cache gitexec /bin/sh"
    );
}

#[test]
fn run_invocation_with_empty_script_is_eval_command_alone() {
    let podman = Podman::new();
    let req = request(Vec::new(), None);
    let args = podman.run_args(&req, "echo hi");
    assert_eq!(args.last().unwrap().as_str(), "eval echo hi");
}

#[test]
fn run_invocation_full_layout() {
    let podman = Podman::new();
    let req = request(vec![Capabilities::NetRaw], None);
    let args = podman.run_args(&req, "python3 -i");
    assert_eq!(
        args,
        vec![
            "run",
            "--sig-proxy=true",
            "-i",
            "--rm",
            "-v",
            "/tmp/out:/OUTPUT:Z",
            "-w",
            "/OUTPUT",
            "-a",
            "stdout",
            "-a",
            "stderr",
            "--cap-add",
            "NET_RAW",
            "alpine:latest",
            "/bin/sh",
            "-c",
            "eval python3 -i",
        ]
    );
}

#[test]
fn run_invocation_prepends_install_script() {
    let podman = Podman::new();
    let pkgs = vec!["curl".to_string()];
    let req = request(Vec::new(), Some(&pkgs));
    let args = podman.run_args(&req, "curl example.org");
    assert_eq!(
        args.last().unwrap().as_str(),
        "apk update && apk add --no-cache curleval curl example.org"
    );
}
