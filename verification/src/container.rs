//! The install-command builder, the container run request, and the container
//! abstraction that runtime adapters implement.

pub mod podman;

use vstd::prelude::*;

use crate::text::{join_all, join_with, split_trim, split_trimmed};

verus! {

/// The mathematical content of a catalog entry: a short name, the registry
/// URL, and the tag aliases in order.
pub struct ImageView {
    pub name: Seq<char>,
    pub url: Seq<char>,
    pub tags: Seq<Seq<char>>,
}

/// One entry of the known-image catalog. The catalog serves user-facing
/// lookup only; the core logic never consumes it.
#[derive(Debug)]
pub struct ContainerImage {
    name: String,
    url: String,
    tags: Vec<String>,
}

impl View for ContainerImage {
    type V = ImageView;

    closed spec fn view(&self) -> ImageView {
        ImageView { name: self.name@, url: self.url@, tags: self.tags.deep_view() }
    }
}

impl ContainerImage {
    /// An entry with the given name and URL; `tags` is split at commas and
    /// each alias trimmed of surrounding blanks.
    pub fn new(name: &str, url: &str, tags: &str) -> (r: Self)
        ensures
            r@ == (ImageView { name: name@, url: url@, tags: split_trimmed(tags@) }),
    {
        ContainerImage { name: name.to_owned(), url: url.to_owned(), tags: split_trim(tags) }
    }

    /// The entry's short name.
    pub fn name(&self) -> (r: &str)
        ensures
            r@ == self@.name,
    {
        self.name.as_str()
    }

    /// The entry's registry URL.
    pub fn url(&self) -> (r: &str)
        ensures
            r@ == self@.url,
    {
        self.url.as_str()
    }

    /// The entry's tag aliases, in order.
    pub fn tags(&self) -> (r: &Vec<String>)
        ensures
            r.deep_view() == self@.tags,
    {
        &self.tags
    }
}

/// The built-in catalog of known images.
pub struct ContainerImages(pub Vec<ContainerImage>);

impl Default for ContainerImages {
    /// The three images the catalog knows out of the box.
    fn default() -> (r: Self)
        ensures
            r.0@.len() == 3,
            r.0@[0]@ == (ImageView {
                name: "rust"@,
                url: "docker.io/library/rust:alpine"@,
                tags: split_trimmed("rust,cargo,rustup"@),
            }),
            r.0@[1]@ == (ImageView {
                name: "bun"@,
                url: "docker.io/oven/bun:alpine"@,
                tags: split_trimmed("bun,js,ts,bunsh,typescript"@),
            }),
            r.0@[2]@ == (ImageView {
                name: "uv"@,
                url: "ghcr.io/astral-sh/uv:alpine"@,
                tags: split_trimmed("uv,python,python3,pip"@),
            }),
    {
        let mut images: Vec<ContainerImage> = Vec::new();
        images.push(ContainerImage::new("rust", "docker.io/library/rust:alpine", "rust,cargo,rustup"));
        images.push(ContainerImage::new("bun", "docker.io/oven/bun:alpine", "bun,js,ts,bunsh,typescript"));
        images.push(ContainerImage::new("uv", "ghcr.io/astral-sh/uv:alpine", "uv,python,python3,pip"));
        ContainerImages(images)
    }
}

/// An elevated privilege granted to the container process by the host
/// runtime.
#[derive(Clone, Copy, Debug, PartialEq, Eq, Structural)]
pub enum Capabilities {
    NetRaw,
    NetAdmin,
}

/// The runtime privilege token that stands for a capability.
pub open spec fn cap_token(c: Capabilities) -> Seq<char> {
    match c {
        Capabilities::NetRaw => "NET_RAW"@,
        Capabilities::NetAdmin => "NET_ADMIN"@,
    }
}

impl Capabilities {
    /// The exact privilege token handed to the runtime's `--cap-add` flag.
    pub fn token(&self) -> (r: &'static str)
        ensures
            r@ == cap_token(*self),
    {
        match self {
            Capabilities::NetRaw => "NET_RAW",
            Capabilities::NetAdmin => "NET_ADMIN",
        }
    }
}

/// A failure to launch an underlying runtime process: `Init` during runtime
/// bring-up, `Execution` during `shell` or `run`. Both carry the OS-level
/// spawn failure's message. A non-zero exit status of a process that did
/// launch is not an error of this kind.
#[derive(Debug)]
pub enum ContainerError {
    Init(String),
    Execution(String),
}

impl ContainerError {
    /// The fixed description of the error's kind.
    pub fn describe(&self) -> (r: &'static str)
        ensures
            self is Init ==> r@ == "could not init container"@,
            self is Execution ==> r@ == "error while executing"@,
    {
        match self {
            ContainerError::Init(_) => "could not init container",
            ContainerError::Execution(_) => "error while executing",
        }
    }
}

/// The fully joined, `&&`-chained shell fragment produced by the builder; it
/// is executed inside the container before the interactive shell or the
/// caller's command. Its view is the script's character sequence.
#[derive(Clone, Debug)]
pub struct InstallCommand {
    text: String,
}

impl View for InstallCommand {
    type V = Seq<char>;

    closed spec fn view(&self) -> Seq<char> {
        self.text@
    }
}

impl InstallCommand {
    /// The script text itself.
    pub fn as_str(&self) -> (r: &str)
        ensures
            r@ == self@,
    {
        self.text.as_str()
    }
}

/// The statements a toolchain with one bootstrap statement contributes: the
/// bootstrap alone for an empty package list, otherwise the bootstrap plus one
/// install statement made of `prefix` and the packages joined by single
/// spaces, in the order supplied.
pub open spec fn toolchain_stmts(bootstrap: Seq<char>, prefix: Seq<char>, pkgs: Seq<Seq<char>>) -> Seq<
    Seq<char>,
> {
    if pkgs.len() == 0 {
        seq![bootstrap]
    } else {
        seq![bootstrap, prefix + join_with(pkgs, " "@)]
    }
}

/// What an apk directive contributes: nothing for `None`, the apk bootstrap
/// and at most one install statement otherwise.
pub open spec fn apk_stmts(packages: Option<Seq<Seq<char>>>) -> Seq<Seq<char>> {
    match packages {
        None => seq![],
        Some(ps) => toolchain_stmts("apk update"@, "apk add --no-cache "@, ps),
    }
}

/// What a cargo directive contributes.
pub open spec fn cargo_stmts(packages: Option<Seq<Seq<char>>>) -> Seq<Seq<char>> {
    match packages {
        None => seq![],
        Some(ps) => toolchain_stmts("apk add --no-cache cargo"@, "cargo install "@, ps),
    }
}

/// What a rubygems directive contributes.
pub open spec fn rubygems_stmts(packages: Option<Seq<Seq<char>>>) -> Seq<Seq<char>> {
    match packages {
        None => seq![],
        Some(ps) => toolchain_stmts("apk add --no-cache ruby"@, "gem install "@, ps),
    }
}

/// What an npm directive contributes.
pub open spec fn npm_stmts(packages: Option<Seq<Seq<char>>>) -> Seq<Seq<char>> {
    match packages {
        None => seq![],
        Some(ps) => toolchain_stmts("apk add --no-cache nodejs npm"@, "npm install -g "@, ps),
    }
}

/// What a pip directive contributes.
pub open spec fn pip_stmts(packages: Option<Seq<Seq<char>>>) -> Seq<Seq<char>> {
    match packages {
        None => seq![],
        Some(ps) => toolchain_stmts("apk add --no-cache python3 py3-pip"@, "pip install "@, ps),
    }
}

/// What a uv directive contributes: a four-statement bootstrap that creates
/// and activates a virtual environment, at most one install statement, then a
/// deactivation immediately followed by a re-activation (kept verbatim for
/// compatibility with the established script).
pub open spec fn uv_stmts(packages: Option<Seq<Seq<char>>>) -> Seq<Seq<char>> {
    match packages {
        None => seq![],
        Some(ps) => {
            let bootstrap = seq![
                "apk add --no-cache python3 py3-pip"@,
                "python3 -m venv /app/venv"@,
                ". /app/venv/bin/activate"@,
                "pip install uv"@,
            ];
            let tail = seq!["deactivate"@, ". /app/venv/bin/activate"@];
            if ps.len() == 0 {
                bootstrap + tail
            } else {
                bootstrap + seq!["uv pip install "@ + join_with(ps, " "@)] + tail
            }
        },
    }
}

/// What a bun directive contributes: a three-statement bootstrap regardless
/// of the package list, then at most one install statement.
pub open spec fn bun_stmts(packages: Option<Seq<Seq<char>>>) -> Seq<Seq<char>> {
    match packages {
        None => seq![],
        Some(ps) => {
            let bootstrap = seq![
                "apk add --no-cache curl bash"@,
                "curl -fsSL https://bun.sh/install | bash"@,
                "export PATH=/root/.bun/bin:$PATH"@,
            ];
            if ps.len() == 0 {
                bootstrap
            } else {
                bootstrap + seq!["bun install "@ + join_with(ps, " "@)]
            }
        },
    }
}

/// What a git directive contributes: the git bootstrap, then one clone
/// statement per repository, in input order.
pub open spec fn git_stmts(repos: Option<Seq<Seq<char>>>) -> Seq<Seq<char>> {
    match repos {
        None => seq![],
        Some(rs) => seq!["apk add --no-cache git"@] + rs.map_values(
            |r: Seq<char>| "git clone "@ + r,
        ),
    }
}

/// What a flatpak directive contributes: a two-statement bootstrap that
/// installs flatpak and adds the flathub remote, then one install statement
/// per package, in input order.
pub open spec fn flatpak_stmts(packages: Option<Seq<Seq<char>>>) -> Seq<Seq<char>> {
    match packages {
        None => seq![],
        Some(ps) => seq![
            "apk add --no-cache flatpak"@,
            "flatpak remote-add --if-not-exists flathub https://flathub.org/repo/flathub.flatpakrepo"@,
        ] + ps.map_values(|p: Seq<char>| "flatpak install -y flathub "@ + p),
    }
}

/// Law: an absent directive contributes no statements, for every toolchain;
/// its bootstrap text cannot reach the script through that toolchain.
pub proof fn lemma_none_contributes_nothing()
    ensures
        apk_stmts(None) == Seq::<Seq<char>>::empty(),
        cargo_stmts(None) == Seq::<Seq<char>>::empty(),
        uv_stmts(None) == Seq::<Seq<char>>::empty(),
        bun_stmts(None) == Seq::<Seq<char>>::empty(),
        git_stmts(None) == Seq::<Seq<char>>::empty(),
        rubygems_stmts(None) == Seq::<Seq<char>>::empty(),
        npm_stmts(None) == Seq::<Seq<char>>::empty(),
        pip_stmts(None) == Seq::<Seq<char>>::empty(),
        flatpak_stmts(None) == Seq::<Seq<char>>::empty(),
{
    assert(apk_stmts(None) =~~= Seq::<Seq<char>>::empty());
    assert(cargo_stmts(None) =~~= Seq::<Seq<char>>::empty());
    assert(uv_stmts(None) =~~= Seq::<Seq<char>>::empty());
    assert(bun_stmts(None) =~~= Seq::<Seq<char>>::empty());
    assert(git_stmts(None) =~~= Seq::<Seq<char>>::empty());
    assert(rubygems_stmts(None) =~~= Seq::<Seq<char>>::empty());
    assert(npm_stmts(None) =~~= Seq::<Seq<char>>::empty());
    assert(pip_stmts(None) =~~= Seq::<Seq<char>>::empty());
    assert(flatpak_stmts(None) =~~= Seq::<Seq<char>>::empty());
}

/// Law: a present but empty directive contributes exactly the toolchain's
/// bootstrap statements and no install or clone statement, for every
/// toolchain.
pub proof fn lemma_empty_list_bootstrap_only()
    ensures
        apk_stmts(Some(Seq::empty())) == seq!["apk update"@],
        cargo_stmts(Some(Seq::empty())) == seq!["apk add --no-cache cargo"@],
        uv_stmts(Some(Seq::empty())) == seq![
            "apk add --no-cache python3 py3-pip"@,
            "python3 -m venv /app/venv"@,
            ". /app/venv/bin/activate"@,
            "pip install uv"@,
            "deactivate"@,
            ". /app/venv/bin/activate"@,
        ],
        bun_stmts(Some(Seq::empty())) == seq![
            "apk add --no-cache curl bash"@,
            "curl -fsSL https://bun.sh/install | bash"@,
            "export PATH=/root/.bun/bin:$PATH"@,
        ],
        git_stmts(Some(Seq::empty())) == seq!["apk add --no-cache git"@],
        rubygems_stmts(Some(Seq::empty())) == seq!["apk add --no-cache ruby"@],
        npm_stmts(Some(Seq::empty())) == seq!["apk add --no-cache nodejs npm"@],
        pip_stmts(Some(Seq::empty())) == seq!["apk add --no-cache python3 py3-pip"@],
        flatpak_stmts(Some(Seq::empty())) == seq![
            "apk add --no-cache flatpak"@,
            "flatpak remote-add --if-not-exists flathub https://flathub.org/repo/flathub.flatpakrepo"@,
        ],
{
    assert(uv_stmts(Some(Seq::empty())) =~~= seq![
        "apk add --no-cache python3 py3-pip"@,
        "python3 -m venv /app/venv"@,
        ". /app/venv/bin/activate"@,
        "pip install uv"@,
        "deactivate"@,
        ". /app/venv/bin/activate"@,
    ]);
    assert(git_stmts(Some(Seq::empty())) =~~= seq!["apk add --no-cache git"@]);
    assert(flatpak_stmts(Some(Seq::empty())) =~~= seq![
        "apk add --no-cache flatpak"@,
        "flatpak remote-add --if-not-exists flathub https://flathub.org/repo/flathub.flatpakrepo"@,
    ]);
}

/// Law: when two toolchain activations each contribute statements, the built
/// script is the script of everything up to and including the first
/// activation, then one separator, then the second activation's fragment:
/// call order is preserved in the final string.
pub proof fn lemma_build_keeps_call_order(
    before: Seq<Seq<char>>,
    first: Seq<Seq<char>>,
    second: Seq<Seq<char>>,
)
    requires
        first.len() > 0,
        second.len() > 0,
    ensures
        join_with(before + first + second, " && "@) == join_with(before + first, " && "@)
            + " && "@ + join_with(second, " && "@),
{
    crate::text::lemma_join_with_append(before + first, second, " && "@);
    assert(before + first + second =~~= (before + first) + second);
}

/// Accumulates shell statements, one toolchain activation at a time, in call
/// order; `build` joins them with `&&` into one short-circuiting script. The
/// view is the accumulated statement list. Package strings are interpolated
/// verbatim into shell statements; nothing here quotes or validates them.
pub struct InstallCommandBuilder {
    statements: Vec<String>,
}

impl View for InstallCommandBuilder {
    type V = Seq<Seq<char>>;

    closed spec fn view(&self) -> Seq<Seq<char>> {
        self.statements.deep_view()
    }
}

/// Appends a toolchain's bootstrap statement, and one install statement of
/// `prefix` followed by the space-joined `packages` when that list is
/// non-empty.
fn push_toolchain(stmts: Vec<String>, bootstrap: &str, prefix: &str, packages: &[String]) -> (r:
    Vec<String>)
    ensures
        r.deep_view() == stmts.deep_view() + toolchain_stmts(
            bootstrap@,
            prefix@,
            packages.deep_view(),
        ),
{
    let ghost orig = stmts.deep_view();
    let mut stmts = stmts;
    stmts.push(bootstrap.to_owned());
    if packages.len() > 0 {
        let mut cmd = prefix.to_owned();
        let joined = join_all(packages, " ");
        cmd.append(joined.as_str());
        stmts.push(cmd);
        proof {
            assert(stmts.deep_view() =~~= orig + toolchain_stmts(
                bootstrap@,
                prefix@,
                packages.deep_view(),
            ));
        }
    } else {
        proof {
            assert(packages.deep_view().len() == 0);
            assert(stmts.deep_view() =~~= orig + toolchain_stmts(
                bootstrap@,
                prefix@,
                packages.deep_view(),
            ));
        }
    }
    stmts
}

/// Appends one statement of `prefix` followed by the item, for each item in
/// order.
fn push_each(stmts: Vec<String>, prefix: &str, items: &[String]) -> (r: Vec<String>)
    ensures
        r.deep_view() == stmts.deep_view() + items.deep_view().map_values(
            |s: Seq<char>| prefix@ + s,
        ),
{
    let ghost orig = stmts.deep_view();
    let mut stmts = stmts;
    let mut i: usize = 0;
    while i < items.len()
        invariant
            i <= items.len(),
            stmts.deep_view() == orig + items.deep_view().take(i as int).map_values(
                |s: Seq<char>| prefix@ + s,
            ),
        decreases items.len() - i,
    {
        let mut cmd = prefix.to_owned();
        cmd.append(items[i].as_str());
        let ghost cmdv = cmd@;
        let ghost before = stmts.deep_view();
        stmts.push(cmd);
        proof {
            let dv = items.deep_view();
            assert(stmts.deep_view() =~~= before.push(cmdv));
            assert(dv.take(i + 1).map_values(|s: Seq<char>| prefix@ + s) =~~= dv.take(
                i as int,
            ).map_values(|s: Seq<char>| prefix@ + s).push(prefix@ + dv[i as int]));
            assert(stmts.deep_view() =~~= orig + dv.take(i + 1).map_values(
                |s: Seq<char>| prefix@ + s,
            ));
        }
        i += 1;
    }
    proof {
        let dv = items.deep_view();
        assert(dv.take(dv.len() as int) =~= dv);
        assert(stmts.deep_view() =~~= orig + dv.map_values(|s: Seq<char>| prefix@ + s));
    }
    stmts
}

impl InstallCommandBuilder {
    /// A builder with no statements accumulated yet.
    pub fn new() -> (r: Self)
        ensures
            r@ == Seq::<Seq<char>>::empty(),
    {
        let r = InstallCommandBuilder { statements: Vec::new() };
        proof {
            assert(r@ =~~= Seq::<Seq<char>>::empty());
        }
        r
    }

    /// Activates apk: `None` leaves the builder unchanged; `Some` appends
    /// `apk update`, and `apk add --no-cache <packages>` when the list is
    /// non-empty.
    pub fn with_apk(self, packages: Option<&[String]>) -> (r: Self)
        ensures
            r@ == self@ + apk_stmts(packages.deep_view()),
    {
        match packages {
            None => {
                proof {
                    assert(self@ + apk_stmts(None) =~~= self@);
                }
                self
            },
            Some(ps) => InstallCommandBuilder {
                statements: push_toolchain(self.statements, "apk update", "apk add --no-cache ", ps),
            },
        }
    }

    /// Activates cargo: `None` is a no-op; `Some` appends the cargo
    /// bootstrap, and `cargo install <packages>` when the list is non-empty.
    pub fn with_cargo(self, packages: Option<&[String]>) -> (r: Self)
        ensures
            r@ == self@ + cargo_stmts(packages.deep_view()),
    {
        match packages {
            None => {
                proof {
                    assert(self@ + cargo_stmts(None) =~~= self@);
                }
                self
            },
            Some(ps) => InstallCommandBuilder {
                statements: push_toolchain(
                    self.statements,
                    "apk add --no-cache cargo",
                    "cargo install ",
                    ps,
                ),
            },
        }
    }

    /// Activates rubygems: `None` is a no-op; `Some` appends the ruby
    /// bootstrap, and `gem install <packages>` when the list is non-empty.
    pub fn with_rubygems(self, packages: Option<&[String]>) -> (r: Self)
        ensures
            r@ == self@ + rubygems_stmts(packages.deep_view()),
    {
        match packages {
            None => {
                proof {
                    assert(self@ + rubygems_stmts(None) =~~= self@);
                }
                self
            },
            Some(ps) => InstallCommandBuilder {
                statements: push_toolchain(
                    self.statements,
                    "apk add --no-cache ruby",
                    "gem install ",
                    ps,
                ),
            },
        }
    }

    /// Activates npm: `None` is a no-op; `Some` appends the node bootstrap,
    /// and `npm install -g <packages>` when the list is non-empty.
    pub fn with_npm(self, packages: Option<&[String]>) -> (r: Self)
        ensures
            r@ == self@ + npm_stmts(packages.deep_view()),
    {
        match packages {
            None => {
                proof {
                    assert(self@ + npm_stmts(None) =~~= self@);
                }
                self
            },
            Some(ps) => InstallCommandBuilder {
                statements: push_toolchain(
                    self.statements,
                    "apk add --no-cache nodejs npm",
                    "npm install -g ",
                    ps,
                ),
            },
        }
    }

    /// Activates pip: `None` is a no-op; `Some` appends the python bootstrap,
    /// and `pip install <packages>` when the list is non-empty.
    pub fn with_pip(self, packages: Option<&[String]>) -> (r: Self)
        ensures
            r@ == self@ + pip_stmts(packages.deep_view()),
    {
        match packages {
            None => {
                proof {
                    assert(self@ + pip_stmts(None) =~~= self@);
                }
                self
            },
            Some(ps) => InstallCommandBuilder {
                statements: push_toolchain(
                    self.statements,
                    "apk add --no-cache python3 py3-pip",
                    "pip install ",
                    ps,
                ),
            },
        }
    }

    /// Activates uv: `None` is a no-op; `Some` appends the virtual-environment
    /// bootstrap, `uv pip install <packages>` when the list is non-empty, and
    /// the trailing deactivate/re-activate pair.
    pub fn with_uv(self, packages: Option<&[String]>) -> (r: Self)
        ensures
            r@ == self@ + uv_stmts(packages.deep_view()),
    {
        match packages {
            None => {
                proof {
                    assert(self@ + uv_stmts(None) =~~= self@);
                }
                self
            },
            Some(ps) => {
                let ghost orig = self@;
                let mut stmts = self.statements;
                stmts.push("apk add --no-cache python3 py3-pip".to_owned());
                stmts.push("python3 -m venv /app/venv".to_owned());
                stmts.push(". /app/venv/bin/activate".to_owned());
                stmts.push("pip install uv".to_owned());
                if ps.len() > 0 {
                    let mut cmd = "uv pip install ".to_owned();
                    let joined = join_all(ps, " ");
                    cmd.append(joined.as_str());
                    stmts.push(cmd);
                }
                stmts.push("deactivate".to_owned());
                stmts.push(". /app/venv/bin/activate".to_owned());
                let r = InstallCommandBuilder { statements: stmts };
                proof {
                    assert(r@ =~~= orig + uv_stmts(Some(ps.deep_view())));
                }
                r
            },
        }
    }

    /// Activates bun: `None` is a no-op; `Some` appends the three bun
    /// bootstrap statements, and `bun install <packages>` when the list is
    /// non-empty.
    pub fn with_bun(self, packages: Option<&[String]>) -> (r: Self)
        ensures
            r@ == self@ + bun_stmts(packages.deep_view()),
    {
        match packages {
            None => {
                proof {
                    assert(self@ + bun_stmts(None) =~~= self@);
                }
                self
            },
            Some(ps) => {
                let ghost orig = self@;
                let mut stmts = self.statements;
                stmts.push("apk add --no-cache curl bash".to_owned());
                stmts.push("curl -fsSL https://bun.sh/install | bash".to_owned());
                stmts.push("export PATH=/root/.bun/bin:$PATH".to_owned());
                if ps.len() > 0 {
                    let mut cmd = "bun install ".to_owned();
                    let joined = join_all(ps, " ");
                    cmd.append(joined.as_str());
                    stmts.push(cmd);
                }
                let r = InstallCommandBuilder { statements: stmts };
                proof {
                    assert(r@ =~~= orig + bun_stmts(Some(ps.deep_view())));
                }
                r
            },
        }
    }

    /// Activates git: `None` is a no-op; `Some` appends the git bootstrap and
    /// one `git clone <repo>` statement per repository, in input order.
    pub fn with_git(self, repos: Option<&[String]>) -> (r: Self)
        ensures
            r@ == self@ + git_stmts(repos.deep_view()),
    {
        match repos {
            None => {
                proof {
                    assert(self@ + git_stmts(None) =~~= self@);
                }
                self
            },
            Some(rs) => {
                let ghost orig = self@;
                let mut stmts = self.statements;
                stmts.push("apk add --no-cache git".to_owned());
                let stmts = push_each(stmts, "git clone ", rs);
                let r = InstallCommandBuilder { statements: stmts };
                proof {
                    assert(r@ =~~= orig + git_stmts(Some(rs.deep_view())));
                }
                r
            },
        }
    }

    /// Activates flatpak: `None` is a no-op; `Some` appends the flatpak
    /// bootstrap, the flathub remote, and one install statement per package,
    /// in input order.
    pub fn with_flatpak(self, packages: Option<&[String]>) -> (r: Self)
        ensures
            r@ == self@ + flatpak_stmts(packages.deep_view()),
    {
        match packages {
            None => {
                proof {
                    assert(self@ + flatpak_stmts(None) =~~= self@);
                }
                self
            },
            Some(ps) => {
                let ghost orig = self@;
                let mut stmts = self.statements;
                stmts.push("apk add --no-cache flatpak".to_owned());
                stmts.push(
                    "flatpak remote-add --if-not-exists flathub https://flathub.org/repo/flathub.flatpakrepo".to_owned(),
                );
                let stmts = push_each(stmts, "flatpak install -y flathub ", ps);
                let r = InstallCommandBuilder { statements: stmts };
                proof {
                    assert(r@ =~~= orig + flatpak_stmts(Some(ps.deep_view())));
                }
                r
            },
        }
    }

    /// Joins the accumulated statements, in activation order, with `&&` into
    /// the final install script; the builder is consumed.
    pub fn build(self) -> (r: InstallCommand)
        ensures
            r@ == join_with(self@, " && "@),
    {
        let stmts = self.statements;
        let parts = stmts.as_slice();
        proof {
            assert(parts.deep_view() =~~= stmts.deep_view());
        }
        InstallCommand { text: join_all(parts, " && ") }
    }
}

/// The mathematical content of a run request: the image reference, the host
/// output directory, the capability list in order, and the install script.
pub struct RunRequestView {
    pub image: Seq<char>,
    pub output_dir: Seq<char>,
    pub capabilities: Seq<Capabilities>,
    pub install_commands: Seq<char>,
}

/// Everything one container action needs: target image, host output
/// directory, capabilities to grant, and the built install script. Created
/// once, immutable, consumed by a runtime adapter.
pub struct ContainerRunRequest {
    image: String,
    output_dir: String,
    capabilities: Vec<Capabilities>,
    install_commands: InstallCommand,
}

impl View for ContainerRunRequest {
    type V = RunRequestView;

    closed spec fn view(&self) -> RunRequestView {
        RunRequestView {
            image: self.image@,
            output_dir: self.output_dir@,
            capabilities: self.capabilities@,
            install_commands: self.install_commands@,
        }
    }
}

impl ContainerRunRequest {
    /// A request holding exactly the given image, output directory,
    /// capabilities and install script.
    pub fn new(
        image: &str,
        output_dir: String,
        capabilities: Vec<Capabilities>,
        install_commands: &InstallCommand,
    ) -> (r: Self)
        ensures
            r@.image == image@,
            r@.output_dir == output_dir@,
            r@.capabilities == capabilities@,
            r@.install_commands == install_commands@,
    {
        ContainerRunRequest {
            image: image.to_owned(),
            output_dir,
            capabilities,
            install_commands: InstallCommand { text: install_commands.text.clone() },
        }
    }

    /// The target image reference.
    pub fn image(&self) -> (r: &str)
        ensures
            r@ == self@.image,
    {
        self.image.as_str()
    }

    /// The host directory bind-mounted into the container.
    pub fn output_dir(&self) -> (r: &str)
        ensures
            r@ == self@.output_dir,
    {
        self.output_dir.as_str()
    }

    /// The capabilities to grant, in order.
    pub fn capabilities(&self) -> (r: &Vec<Capabilities>)
        ensures
            r@ == self@.capabilities,
    {
        &self.capabilities
    }

    /// The install script to run before the shell or command.
    pub fn install_commands(&self) -> (r: &InstallCommand)
        ensures
            r@ == self@.install_commands,
    {
        &self.install_commands
    }
}

/// A common interface for container adapters: bring up the runtime, attach an
/// interactive shell, or execute a one-shot command for a request. Each
/// operation fails with a `ContainerError` exactly when the underlying
/// runtime process cannot be launched; a non-zero exit status of a launched
/// process is not distinguished from success here. `init` must be safe to
/// call on an already initialized runtime. Implementations sit at the process
/// boundary, outside what is verified.
pub trait Container {
    fn init(&self) -> Result<(), ContainerError>;

    fn shell(&self, req: &ContainerRunRequest) -> Result<(), ContainerError>;

    fn run(&self, req: &ContainerRunRequest, command: &str) -> Result<(), ContainerError>;
}

} // verus!
