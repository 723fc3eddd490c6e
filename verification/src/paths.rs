//! Path resolver: computes where the bundled runtime binary, the server
//! entry script, and the server working directory live, for a development
//! layout (under the current working directory) and a packaged layout
//! (under the installed application's resource directory).
//!
//! Paths are modelled as sequences of components; the application joins the
//! components into a platform path before touching the filesystem.
use vstd::prelude::*;

verus! {

/// Whether the launcher runs from a development tree or an installed bundle.
#[derive(PartialEq, Eq, Structural, Debug, Clone, Copy)]
pub enum Mode {
    Development,
    Production,
}

/// Target platform, selected at build time by the application.
#[derive(PartialEq, Eq, Structural, Debug, Clone, Copy)]
pub enum Platform {
    Windows,
    Unix,
}

/// The views of a path's components.
pub open spec fn comps(v: Seq<String>) -> Seq<Seq<char>> {
    v.map_values(|s: String| s@)
}

/// File name of the bundled runtime binary on the given platform.
pub open spec fn node_binary_spec(platform: Platform) -> Seq<char> {
    match platform {
        Platform::Windows => "node.exe"@,
        Platform::Unix => "node"@,
    }
}

/// File name of the bundled runtime binary on the given platform.
pub fn node_binary_name(platform: &Platform) -> (s: String)
    ensures
        s@ == node_binary_spec(*platform),
{
    match platform {
        Platform::Windows => "node.exe".to_owned(),
        Platform::Unix => "node".to_owned(),
    }
}

/// The resolved on-disk locations the launcher works with. All three are
/// derived from a single resource root, so they stay mutually consistent.
#[derive(Debug)]
pub struct ResourcePaths {
    /// `<root>/runtime/<node binary>`
    pub runtime_binary: Vec<String>,
    /// `<root>/server/server.js`
    pub server_script: Vec<String>,
    /// `<root>/server`
    pub server_dir: Vec<String>,
}

impl ResourcePaths {
    /// All three paths are derived from the root `root`.
    pub open spec fn derived_from(self, root: Seq<Seq<char>>, platform: Platform) -> bool {
        &&& comps(self.runtime_binary@) == root.push("runtime"@).push(node_binary_spec(platform))
        &&& comps(self.server_script@) == root.push("server"@).push("server.js"@)
        &&& comps(self.server_dir@) == root.push("server"@)
    }
}

/// The resource root in development mode: the current working directory
/// joined with the fixed bundle subdirectory.
pub open spec fn development_root(cwd: Seq<Seq<char>>) -> Seq<Seq<char>> {
    cwd.push("bundle"@)
}

/// Path resolution failure: in production the installed resource directory
/// could not be determined, which means a broken installation.
#[derive(PartialEq, Eq, Structural, Debug, Clone, Copy)]
pub enum PathError {
    ResourceDirUnavailable,
}

fn copy_components(v: &Vec<String>) -> (r: Vec<String>)
    ensures
        comps(r@) == comps(v@),
{
    let mut r: Vec<String> = Vec::new();
    let mut i: usize = 0;
    while i < v.len()
        invariant
            i <= v.len(),
            comps(r@) == comps(v@.subrange(0, i as int)),
        decreases v.len() - i,
    {
        let ghost prev = r@;
        let s = v[i].as_str().to_owned();
        r.push(s);
        i = i + 1;
        proof {
            broadcast use Seq::lemma_push_map_commute;

            let gi = i as int;
            assert(v@.subrange(0, gi) =~= v@.subrange(0, gi - 1).push(v@[gi - 1]));
            assert(comps(r@) == comps(prev).push(s@));
            assert(comps(v@.subrange(0, gi)) == comps(v@.subrange(0, gi - 1)).push(v@[gi - 1]@));
        }
    }
    proof {
        assert(v@.subrange(0, v@.len() as int) =~= v@);
    }
    r
}

fn join(root: &Vec<String>, a: String) -> (r: Vec<String>)
    ensures
        comps(r@) == comps(root@).push(a@),
{
    let mut r = copy_components(root);
    let ghost prev = r@;
    r.push(a);
    proof {
        broadcast use Seq::lemma_push_map_commute;

        assert(comps(r@) == comps(prev).push(a@));
    }
    r
}

fn join2(root: &Vec<String>, a: String, b: String) -> (r: Vec<String>)
    ensures
        comps(r@) == comps(root@).push(a@).push(b@),
{
    let mut r = join(root, a);
    let ghost prev = r@;
    r.push(b);
    proof {
        broadcast use Seq::lemma_push_map_commute;

        assert(comps(r@) == comps(prev).push(b@));
    }
    r
}

/// Resolve the three resource paths. In development mode the root is the
/// current working directory joined with `bundle`, whatever `resource_dir`
/// holds; in production mode it is the installed resource directory, and
/// resolution fails when that directory could not be determined.
pub fn resolve_paths(
    mode: &Mode,
    cwd: &Vec<String>,
    resource_dir: Option<Vec<String>>,
    platform: &Platform,
) -> (r: Result<ResourcePaths, PathError>)
    ensures
        mode is Development ==> r is Ok && r.unwrap().derived_from(
            development_root(comps(cwd@)),
            *platform,
        ),
        mode is Production && resource_dir is Some ==> r is Ok && r.unwrap().derived_from(
            comps(resource_dir.unwrap()@),
            *platform,
        ),
        mode is Production && resource_dir is None ==> r == Err::<ResourcePaths, PathError>(
            PathError::ResourceDirUnavailable,
        ),
{
    let root: Vec<String> = match mode {
        Mode::Development => join(cwd, "bundle".to_owned()),
        Mode::Production => match resource_dir {
            Some(dir) => dir,
            None => {
                return Err(PathError::ResourceDirUnavailable);
            },
        },
    };
    let runtime_binary = join2(&root, "runtime".to_owned(), node_binary_name(platform));
    let server_script = join2(&root, "server".to_owned(), "server.js".to_owned());
    let server_dir = join(&root, "server".to_owned());
    Ok(ResourcePaths { runtime_binary, server_script, server_dir })
}

/// Development-mode resolution always lands under the current working
/// directory: every resolved path begins with the working directory's
/// components.
pub proof fn lemma_dev_paths_under_cwd(p: ResourcePaths, cwd: Seq<Seq<char>>, platform: Platform)
    requires
        p.derived_from(development_root(cwd), platform),
    ensures
        cwd.is_prefix_of(comps(p.runtime_binary@)),
        cwd.is_prefix_of(comps(p.server_script@)),
        cwd.is_prefix_of(comps(p.server_dir@)),
{
    assert(comps(p.runtime_binary@).subrange(0, cwd.len() as int) =~= cwd);
    assert(comps(p.server_script@).subrange(0, cwd.len() as int) =~= cwd);
    assert(comps(p.server_dir@).subrange(0, cwd.len() as int) =~= cwd);
}

/// Production-mode resolution always lands under the resource directory.
/// It never lands under the working directory, provided the working
/// directory does not itself lie on the way to the resource directory (a
/// resource directory installed inside the working directory is the one
/// layout where the two roots coincide).
pub proof fn lemma_prod_paths_under_resource_dir(
    p: ResourcePaths,
    resource_dir: Seq<Seq<char>>,
    cwd: Seq<Seq<char>>,
    platform: Platform,
)
    requires
        p.derived_from(resource_dir, platform),
        !cwd.is_prefix_of(resource_dir),
        cwd.len() <= resource_dir.len(),
    ensures
        resource_dir.is_prefix_of(comps(p.runtime_binary@)),
        resource_dir.is_prefix_of(comps(p.server_script@)),
        resource_dir.is_prefix_of(comps(p.server_dir@)),
        !cwd.is_prefix_of(comps(p.runtime_binary@)),
        !cwd.is_prefix_of(comps(p.server_script@)),
        !cwd.is_prefix_of(comps(p.server_dir@)),
{
    assert(comps(p.runtime_binary@).subrange(0, resource_dir.len() as int) =~= resource_dir);
    assert(comps(p.server_script@).subrange(0, resource_dir.len() as int) =~= resource_dir);
    assert(comps(p.server_dir@).subrange(0, resource_dir.len() as int) =~= resource_dir);
    if cwd.is_prefix_of(comps(p.runtime_binary@)) {
        assert(cwd =~= resource_dir.subrange(0, cwd.len() as int));
    }
    if cwd.is_prefix_of(comps(p.server_script@)) {
        assert(cwd =~= resource_dir.subrange(0, cwd.len() as int));
    }
    if cwd.is_prefix_of(comps(p.server_dir@)) {
        assert(cwd =~= resource_dir.subrange(0, cwd.len() as int));
    }
}

} // verus!
