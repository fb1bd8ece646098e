//! Locations of rlex's data and the ports of its servers.
//!
//! Paths are held as text; joining follows `Path::join` on Unix.
use vstd::prelude::*;
use crate::text;

verus! {

/// The whole configuration.
#[derive(Debug)]
pub struct Config {
    pub paths: PathsConfig,
    pub server: ServerConfig,
}

/// Data directories.
#[derive(Debug)]
pub struct PathsConfig {
    /// Root directory for all rlex data (`~/.rlex`).
    pub root: String,
    /// Oxigraph store location (`~/.rlex/oxigraph`).
    pub oxigraph: String,
    /// Downloaded graph file cache (`~/.rlex/cache`).
    pub cache: String,
    /// Cloned repositories such as forx-index (`~/.rlex/repos`).
    pub repos: String,
}

/// Server ports.
#[derive(Debug)]
pub struct ServerConfig {
    /// SPARQL endpoint port.
    pub sparql_port: u16,
    /// Visualisation UI port.
    pub viz_port: u16,
}

/// `base` joined with `part` as `Path::join` does on Unix: an absolute
/// `part` replaces `base`; otherwise a `/` goes between them unless `base`
/// is empty or already ends with one.
pub open spec fn path_join(base: Seq<char>, part: Seq<char>) -> Seq<char> {
    if part.len() > 0 && part[0] == '/' {
        part
    } else if base.len() == 0 || base.last() == '/' {
        base + part
    } else {
        base + "/"@ + part
    }
}

/// Joins two paths as [`path_join`] says.
pub fn join_path(base: &str, part: &str) -> (r: String)
    ensures
        r@ == path_join(base@, part@),
{
    let p = text::chars_of(part);
    if p.len() > 0 && p[0] == '/' {
        return part.to_owned();
    }
    let mut b = text::chars_of(base);
    if b.len() == 0 || b[b.len() - 1] == '/' {
        text::push_all(&mut b, &p);
    } else {
        text::push_str(&mut b, "/");
        text::push_all(&mut b, &p);
    }
    text::string_from_chars(&b)
}

impl Config {
    /// The default configuration under `root`: the store, the cache and the
    /// clones in its `oxigraph`, `cache` and `repos` directories, the SPARQL
    /// endpoint on port 7878 and the visualisation UI on port 3000.
    pub fn with_root(root: &str) -> (c: Config)
        ensures
            c.paths.root@ == root@,
            c.paths.oxigraph@ == path_join(root@, "oxigraph"@),
            c.paths.cache@ == path_join(root@, "cache"@),
            c.paths.repos@ == path_join(root@, "repos"@),
            c.server.sparql_port == 7878,
            c.server.viz_port == 3000,
    {
        Config {
            paths: PathsConfig {
                oxigraph: join_path(root, "oxigraph"),
                cache: join_path(root, "cache"),
                repos: join_path(root, "repos"),
                root: root.to_owned(),
            },
            server: ServerConfig { sparql_port: 7878, viz_port: 3000 },
        }
    }

    /// Cache path for a repository: `{cache}/{org}/{repo}`.
    pub fn cache_path(&self, org: &str, repo: &str) -> (p: String)
        ensures
            p@ == path_join(path_join(self.paths.cache@, org@), repo@),
    {
        let a = join_path(self.paths.cache.as_str(), org);
        join_path(a.as_str(), repo)
    }

    /// Clone path of a repository: `{repos}/{org}/{repo}`.
    pub fn repo_path(&self, org: &str, repo: &str) -> (p: String)
        ensures
            p@ == path_join(path_join(self.paths.repos@, org@), repo@),
    {
        let a = join_path(self.paths.repos.as_str(), org);
        join_path(a.as_str(), repo)
    }

    /// Path of the forx-index clone.
    pub fn forx_index_path(&self) -> (p: String)
        ensures
            p@ == path_join(path_join(self.paths.repos@, "repolex-forx"@), "forx-index"@),
    {
        self.repo_path("repolex-forx", "forx-index")
    }
}


/// A joined path always ends with the part joined on; a relative part
/// keeps the base in front of it.
pub proof fn law_join_keeps_part(base: Seq<char>, part: Seq<char>)
    ensures
        text::ends_with_seq(path_join(base, part), part),
        !(part.len() > 0 && part[0] == '/') ==> text::starts_with_seq(path_join(base, part), base),
{
    let j = path_join(base, part);
    assert(j.subrange(j.len() - part.len(), j.len() as int) =~= part);
    if !(part.len() > 0 && part[0] == '/') {
        assert(j.subrange(0, base.len() as int) =~= base);
    }
}

} // verus!
