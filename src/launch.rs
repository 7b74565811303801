use vstd::prelude::*;

verus! {

/// One environment variable handed to the spawned sidecar.
pub struct EnvVar {
    pub name: String,
    pub value: String,
}

pub open spec fn joined(dir: Seq<char>, sep: Seq<char>, leaf: Seq<char>) -> Seq<char> {
    dir + sep + leaf
}

fn join(dir: &str, sep: &str, leaf: &str) -> (r: String)
    ensures
        r@ == joined(dir@, sep@, leaf@),
{
    let mut s = String::from_str(dir);
    s.append(sep);
    s.append(leaf);
    assert(s@ =~= joined(dir@, sep@, leaf@));
    s
}

fn var(name: &str, value: String) -> (r: EnvVar)
    ensures
        r.name@ == name@,
        r.value == value,
{
    EnvVar { name: String::from_str(name), value }
}

/// The environment of the spawned sidecar: its configuration file and
/// directories, all under the host's configuration directory `config_dir`
/// (joined with the platform's separator `sep`), the matching XDG variables,
/// and `GODOT_PATH` where the host has one.
pub fn sidecar_env(config_dir: &str, sep: &str, godot_path: Option<String>) -> (r: Vec<EnvVar>)
    ensures
        r@.len() == if godot_path is Some { 8int } else { 7int },
        r@[0].name@ == "OPENCODE_CONFIG_FILE"@ && r@[0].value@ == joined(config_dir@, sep@, "opencode.json"@),
        r@[1].name@ == "OPENCODE_CONFIG_DIR"@ && r@[1].value@ == config_dir@,
        r@[2].name@ == "OPENCODE_DATA_DIR"@ && r@[2].value@ == joined(config_dir@, sep@, "data"@),
        r@[3].name@ == "XDG_CONFIG_HOME"@ && r@[3].value@ == config_dir@,
        r@[4].name@ == "XDG_DATA_HOME"@ && r@[4].value@ == joined(config_dir@, sep@, "data"@),
        r@[5].name@ == "XDG_CACHE_HOME"@ && r@[5].value@ == joined(config_dir@, sep@, "cache"@),
        r@[6].name@ == "GODOT_DOC_DIR"@ && r@[6].value@ == joined(config_dir@, sep@, "godot_docs"@),
        godot_path matches Some(g) ==> r@[7].name@ == "GODOT_PATH"@ && r@[7].value == g,
{
    let mut r: Vec<EnvVar> = Vec::new();
    r.push(var("OPENCODE_CONFIG_FILE", join(config_dir, sep, "opencode.json")));
    r.push(var("OPENCODE_CONFIG_DIR", String::from_str(config_dir)));
    r.push(var("OPENCODE_DATA_DIR", join(config_dir, sep, "data")));
    r.push(var("XDG_CONFIG_HOME", String::from_str(config_dir)));
    r.push(var("XDG_DATA_HOME", join(config_dir, sep, "data")));
    r.push(var("XDG_CACHE_HOME", join(config_dir, sep, "cache")));
    r.push(var("GODOT_DOC_DIR", join(config_dir, sep, "godot_docs")));
    match godot_path {
        Some(g) => r.push(var("GODOT_PATH", g)),
        None => {},
    }
    r
}

/// The arguments that make the sidecar serve on `port`.
pub fn serve_args(port: &str) -> (r: Vec<String>)
    ensures
        r@.len() == 3,
        r@[0]@ == "serve"@,
        r@[1]@ == "--port"@,
        r@[2]@ == port@,
{
    let mut r: Vec<String> = Vec::new();
    r.push(String::from_str("serve"));
    r.push(String::from_str("--port"));
    r.push(String::from_str(port));
    r
}

} // verus!
