//! Path and binary resolution.
//!
//! Production launches (a GUI app started outside a login shell) cannot rely
//! on the ambient search path, so binaries are looked for at fixed well-known
//! locations first. The gateway's own directory is found through an ordered
//! fallback chain: the bundled resource directory, then the nearest project
//! root above the working directory. Both policies are pure functions of the
//! filesystem facts the shell probes and passes in.

use vstd::prelude::*;

verus! {

use vstd::string::StringExecFns;

/// The gateway's entry file, relative to its deployment directory.
pub const GATEWAY_ENTRY: &'static str = "gateway/server.js";

/// Resolving the gateway directory can fail: no bundled copy and no project
/// root anywhere above the working directory.
#[derive(Clone, Copy, Debug, PartialEq, Eq, Structural)]
pub enum ResolveError {
    NotFound,
}

/// The first well-known location of binary `name`.
pub open spec fn spec_usr_bin(name: Seq<char>) -> Seq<char> {
    "/usr/bin/"@ + name
}

/// The second well-known location of binary `name`.
pub open spec fn spec_usr_local_bin(name: Seq<char>) -> Seq<char> {
    "/usr/local/bin/"@ + name
}

/// Locate binary `name`, preferring fixed system locations over the ambient
/// search path. The shell probes the two well-known candidates —
/// `/usr/bin/<name>` first, `/usr/local/bin/<name>` second — and passes
/// whether each exists; the result is the first candidate that exists, or
/// the bare name for ambient resolution when neither does.
pub fn resolve_bin(name: &str, usr_bin_exists: bool, usr_local_bin_exists: bool) -> (r: String)
    ensures
        usr_bin_exists ==> r@ == spec_usr_bin(name@),
        !usr_bin_exists && usr_local_bin_exists ==> r@ == spec_usr_local_bin(name@),
        !usr_bin_exists && !usr_local_bin_exists ==> r@ == name@,
{
    if usr_bin_exists {
        let mut r = String::from_str("/usr/bin/");
        r.append(name);
        r
    } else if usr_local_bin_exists {
        let mut r = String::from_str("/usr/local/bin/");
        r.append(name);
        r
    } else {
        name.to_owned()
    }
}

/// What the shell saw of the bundled resource directory: its
/// `resources/gateway` subpath, and whether the entry file exists under it.
/// Absent entirely when the resource directory could not be resolved.
pub struct BundledProbe {
    /// The `resources/gateway` path under the resource directory.
    pub dir: String,
    /// Whether `gateway/server.js` exists under that path.
    pub entry_exists: bool,
}

/// What the shell saw of one directory on the walk upward from the working
/// directory, nearest first.
pub struct AncestorProbe {
    /// This ancestor's own path.
    pub dir: String,
    /// Its `dist` subdirectory's path.
    pub dist_dir: String,
    /// Whether the project marker file `package.json` is here.
    pub has_project_marker: bool,
    /// Whether the workspace marker `pnpm-workspace.yaml` is here.
    pub has_workspace_marker: bool,
    /// Whether the known source subdirectory `src/gateway` is here.
    pub has_gateway_sources: bool,
    /// Whether `gateway/server.js` exists under `dist`.
    pub dist_entry_exists: bool,
}

impl AncestorProbe {
    /// Whether this directory is a project root: the project marker plus
    /// either the workspace marker or the gateway's source subdirectory.
    pub open spec fn spec_is_root(self) -> bool {
        self.has_project_marker && (self.has_workspace_marker || self.has_gateway_sources)
    }

    /// Decide whether this directory is a project root.
    pub fn is_root(&self) -> (b: bool)
        ensures
            b == self.spec_is_root(),
    {
        self.has_project_marker && (self.has_workspace_marker || self.has_gateway_sources)
    }
}

/// Where the gateway was found, by strategy.
#[derive(Clone, Debug)]
pub enum GatewayDir {
    /// The bundled resource copy: the production path.
    Bundled { dir: String },
    /// A project root's prebuilt `dist` directory.
    Dist { dir: String },
    /// A project root without a built `dist`: the root itself, to be run
    /// through the package-manager fallback.
    ProjectRoot { dir: String },
}

impl GatewayDir {
    /// The directory the strategy settled on.
    pub fn dir(self) -> (d: String)
        ensures
            d == match self {
                GatewayDir::Bundled { dir } => dir,
                GatewayDir::Dist { dir } => dir,
                GatewayDir::ProjectRoot { dir } => dir,
            },
    {
        match self {
            GatewayDir::Bundled { dir } => dir,
            GatewayDir::Dist { dir } => dir,
            GatewayDir::ProjectRoot { dir } => dir,
        }
    }
}

/// Resolve the gateway's deployment directory from the probed facts.
///
/// The chain, in order: (a) the bundled resource copy, when its entry file
/// exists — the production path; (b) walking upward from the working
/// directory (`ancestors` is ordered nearest first), the first project root
/// found — its `dist` directory when the entry file is built there, else the
/// root itself; (c) `NotFound` when no strategy resolves.
pub open spec fn bundled_wins(bundled: Option<BundledProbe>) -> bool {
    match bundled {
        Option::Some(b) => b.entry_exists,
        Option::None => false,
    }
}

/// The directory the first project root on the walk settles on: its `dist`
/// when the entry file is built there, else the root itself.
pub open spec fn spec_root_choice(a: AncestorProbe) -> GatewayDir {
    if a.dist_entry_exists {
        GatewayDir::Dist { dir: a.dist_dir }
    } else {
        GatewayDir::ProjectRoot { dir: a.dir }
    }
}

pub fn resolve_gateway_dir(bundled: Option<BundledProbe>, ancestors: Vec<AncestorProbe>) -> (r:
    Result<GatewayDir, ResolveError>)
    ensures
        bundled_wins(bundled) ==> r == Ok::<GatewayDir, ResolveError>(
            GatewayDir::Bundled { dir: bundled.unwrap().dir },
        ),
        (!bundled_wins(bundled) && (forall|j: int|
            0 <= j < ancestors@.len() ==> !(#[trigger] ancestors@[j].spec_is_root()))) ==> r
            == Err::<GatewayDir, ResolveError>(ResolveError::NotFound),
        forall|i: int|
            (!bundled_wins(bundled) && 0 <= i < ancestors@.len()
                && (#[trigger] ancestors@[i].spec_is_root()) && (forall|j: int|
                0 <= j < i ==> !(#[trigger] ancestors@[j].spec_is_root()))) ==> r == Ok::<
                GatewayDir,
                ResolveError,
            >(spec_root_choice(ancestors@[i])),
{
    match &bundled {
        Option::Some(b) => {
            if b.entry_exists {
                return Result::Ok(GatewayDir::Bundled { dir: b.dir.clone() });
            }
        },
        Option::None => {},
    }
    let mut idx: usize = 0;
    let n = ancestors.len();
    while idx < n
        invariant
            !bundled_wins(bundled),
            idx <= n,
            n == ancestors@.len(),
            forall|j: int| 0 <= j < idx ==> !(#[trigger] ancestors@[j].spec_is_root()),
        decreases n - idx,
    {
        let a = &ancestors[idx];
        if a.is_root() {
            if a.dist_entry_exists {
                return Result::Ok(GatewayDir::Dist { dir: a.dist_dir.clone() });
            }
            return Result::Ok(GatewayDir::ProjectRoot { dir: a.dir.clone() });
        }
        idx = idx + 1;
    }
    Result::Err(ResolveError::NotFound)
}

} // verus!
