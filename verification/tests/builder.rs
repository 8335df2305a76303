use oneshot::container::InstallCommandBuilder;

fn strings(items: &[&str]) -> Vec<String> {
    items.iter().map(|s| s.to_string()).collect()
}

#[test]
fn none_contributes_nothing_for_every_toolchain() {
    let cmd = InstallCommandBuilder::new()
        .with_apk(None)
        .with_cargo(None)
        .with_uv(None)
        .with_bun(None)
        .with_git(None)
        .with_rubygems(None)
        .with_npm(None)
        .with_pip(None)
        .with_flatpak(None)
        .build();
    assert_eq!(cmd.as_str(), "");
}

#[test]
fn none_leaves_no_bootstrap_text() {
    let pkgs = strings(&["curl"]);
    let cmd = InstallCommandBuilder::new()
        .with_apk(Some(&pkgs))
        .with_cargo(None)
        .with_uv(None)
        .with_bun(None)
        .with_git(None)
        .build();
    let script = cmd.as_str().to_string();
    assert!(!script.contains("cargo"));
    assert!(!script.contains("venv"));
    assert!(!script.contains("bun"));
    assert!(!script.contains("git"));
}

#[test]
fn empty_list_apk_bootstrap_only() {
    let pkgs: Vec<String> = Vec::new();
    let cmd = InstallCommandBuilder::new().with_apk(Some(&pkgs)).build();
    assert_eq!(cmd.as_str(), "apk update");
}

#[test]
fn empty_list_cargo_bootstrap_only() {
    let pkgs: Vec<String> = Vec::new();
    let cmd = InstallCommandBuilder::new().with_cargo(Some(&pkgs)).build();
    assert_eq!(cmd.as_str(), "apk add --no-cache cargo");
}

#[test]
fn empty_list_uv_bootstrap_only() {
    let pkgs: Vec<String> = Vec::new();
    let cmd = InstallCommandBuilder::new().with_uv(Some(&pkgs)).build();
    assert_eq!(
        cmd.as_str(),
        "apk add --no-cache python3 py3-pip && python3 -m venv /app/venv && \
         . /app/venv/bin/activate && pip install uv && deactivate && . /app/venv/bin/activate"
    );
}

#[test]
fn empty_list_bun_bootstrap_only() {
    let pkgs: Vec<String> = Vec::new();
    let cmd = InstallCommandBuilder::new().with_bun(Some(&pkgs)).build();
    assert_eq!(
        cmd.as_str(),
        "apk add --no-cache curl bash && curl -fsSL https://bun.sh/install | bash && \
         export PATH=/root/.bun/bin:$PATH"
    );
}

#[test]
fn empty_list_git_bootstrap_only() {
    let repos: Vec<String> = Vec::new();
    let cmd = InstallCommandBuilder::new().with_git(Some(&repos)).build();
    assert_eq!(cmd.as_str(), "apk add --no-cache git");
}

#[test]
fn empty_list_rubygems_bootstrap_only() {
    let pkgs: Vec<String> = Vec::new();
    let cmd = InstallCommandBuilder::new().with_rubygems(Some(&pkgs)).build();
    assert_eq!(cmd.as_str(), "apk add --no-cache ruby");
}

#[test]
fn empty_list_npm_bootstrap_only() {
    let pkgs: Vec<String> = Vec::new();
    let cmd = InstallCommandBuilder::new().with_npm(Some(&pkgs)).build();
    assert_eq!(cmd.as_str(), "apk add --no-cache nodejs npm");
}

#[test]
fn empty_list_pip_bootstrap_only() {
    let pkgs: Vec<String> = Vec::new();
    let cmd = InstallCommandBuilder::new().with_pip(Some(&pkgs)).build();
    assert_eq!(cmd.as_str(), "apk add --no-cache python3 py3-pip");
}

#[test]
fn empty_list_flatpak_bootstrap_only() {
    let pkgs: Vec<String> = Vec::new();
    let cmd = InstallCommandBuilder::new().with_flatpak(Some(&pkgs)).build();
    assert_eq!(
        cmd.as_str(),
        "apk add --no-cache flatpak && flatpak remote-add --if-not-exists flathub \
         https://flathub.org/repo/flathub.flatpakrepo"
    );
}

#[test]
fn apk_packages_joined_in_order() {
    let pkgs = strings(&["git", "curl"]);
    let cmd = InstallCommandBuilder::new().with_apk(Some(&pkgs)).build();
    assert_eq!(cmd.as_str(), "apk update && apk add --no-cache git curl");
}

#[test]
fn git_one_clone_per_repo_in_order() {
    let repos = strings(&["repoA", "repoB"]);
    let cmd = InstallCommandBuilder::new().with_git(Some(&repos)).build();
    assert_eq!(
        cmd.as_str(),
        "apk add --no-cache git && git clone repoA && git clone repoB"
    );
}

#[test]
fn flatpak_one_install_per_package_in_order() {
    let pkgs = strings(&["org.gnome.Maps", "org.inkscape.Inkscape"]);
    let cmd = InstallCommandBuilder::new().with_flatpak(Some(&pkgs)).build();
    assert_eq!(
        cmd.as_str(),
        "apk add --no-cache flatpak && flatpak remote-add --if-not-exists flathub \
         https://flathub.org/repo/flathub.flatpakrepo && \
         flatpak install -y flathub org.gnome.Maps && \
         flatpak install -y flathub org.inkscape.Inkscape"
    );
}

#[test]
fn uv_install_between_bootstrap_and_reactivation() {
    let pkgs = strings(&["numpy"]);
    let cmd = InstallCommandBuilder::new().with_uv(Some(&pkgs)).build();
    assert_eq!(
        cmd.as_str(),
        "apk add --no-cache python3 py3-pip && python3 -m venv /app/venv && \
         . /app/venv/bin/activate && pip install uv && uv pip install numpy && \
         deactivate && . /app/venv/bin/activate"
    );
}

#[test]
fn bun_install_after_bootstrap() {
    let pkgs = strings(&["left-pad"]);
    let cmd = InstallCommandBuilder::new().with_bun(Some(&pkgs)).build();
    assert_eq!(
        cmd.as_str(),
        "apk add --no-cache curl bash && curl -fsSL https://bun.sh/install | bash && \
         export PATH=/root/.bun/bin:$PATH && bun install left-pad"
    );
}

#[test]
fn cargo_packages_joined_in_order() {
    let pkgs = strings(&["ripgrep", "fd-find"]);
    let cmd = InstallCommandBuilder::new().with_cargo(Some(&pkgs)).build();
    assert_eq!(
        cmd.as_str(),
        "apk add --no-cache cargo && cargo install ripgrep fd-find"
    );
}

#[test]
fn rubygems_packages_joined_in_order() {
    let pkgs = strings(&["rails"]);
    let cmd = InstallCommandBuilder::new().with_rubygems(Some(&pkgs)).build();
    assert_eq!(cmd.as_str(), "apk add --no-cache ruby && gem install rails");
}

#[test]
fn npm_packages_joined_in_order() {
    let pkgs = strings(&["typescript", "eslint"]);
    let cmd = InstallCommandBuilder::new().with_npm(Some(&pkgs)).build();
    assert_eq!(
        cmd.as_str(),
        "apk add --no-cache nodejs npm && npm install -g typescript eslint"
    );
}

#[test]
fn pip_packages_joined_in_order() {
    let pkgs = strings(&["requests"]);
    let cmd = InstallCommandBuilder::new().with_pip(Some(&pkgs)).build();
    assert_eq!(
        cmd.as_str(),
        "apk add --no-cache python3 py3-pip && pip install requests"
    );
}

#[test]
fn chained_activations_keep_call_order() {
    let apk = strings(&["x"]);
    let cargo: Vec<String> = Vec::new();
    let cmd = InstallCommandBuilder::new()
        .with_apk(Some(&apk))
        .with_cargo(Some(&cargo))
        .build();
    assert_eq!(
        cmd.as_str(),
        "apk update && apk add --no-cache x && apk add --no-cache cargo"
    );
}

#[test]
fn packages_not_deduplicated_or_sorted() {
    let pkgs = strings(&["b", "a", "b"]);
    let cmd = InstallCommandBuilder::new().with_apk(Some(&pkgs)).build();
    assert_eq!(cmd.as_str(), "apk update && apk add --no-cache b a b");
}
