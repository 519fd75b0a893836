use vstd::prelude::*;
use vstd::string::StringExecFns;

verus! {

/// One entry of the mirrored version manifest: the identifiers from which
/// the per-version descriptor addresses and mirror paths are formed.
#[derive(Debug)]
pub struct ManifestVersion {
    pub name: String,
    pub branch: String,
    pub cdn: Vec<String>,
    pub game_id: String,
    pub unk_id: String,
    pub hash: String,
}

/// The address of a version's launcher descriptor, formed from the entry's
/// branch, first mirror host and identifiers.
pub fn launcher_index_url(v: &ManifestVersion) -> (r: String)
    requires
        v.cdn@.len() >= 1,
    ensures
        r@ == "https://"@ + v.branch@ + "-"@ + v.cdn@[0]@
            + "-gamestarter.kurogame.com/launcher/launcher/"@ + v.unk_id@ + "_"@ + v.hash@ + "/"@
            + v.game_id@ + "/index.json"@,
{
    let mut s = String::new();
    s.append("https://");
    s.append(v.branch.as_str());
    s.append("-");
    s.append(v.cdn[0].as_str());
    s.append("-gamestarter.kurogame.com/launcher/launcher/");
    s.append(v.unk_id.as_str());
    s.append("_");
    s.append(v.hash.as_str());
    s.append("/");
    s.append(v.game_id.as_str());
    s.append("/index.json");
    proof {
        assert(s@ =~= "https://"@ + v.branch@ + "-"@ + v.cdn@[0]@
            + "-gamestarter.kurogame.com/launcher/launcher/"@ + v.unk_id@ + "_"@ + v.hash@ + "/"@
            + v.game_id@ + "/index.json"@);
    }
    s
}

/// The mirror path under which a version's launcher descriptor is stored.
pub fn launcher_index_path(v: &ManifestVersion) -> (r: String)
    ensures
        r@ == "launcher/"@ + v.name@ + "/index.json"@,
{
    let mut s = String::new();
    s.append("launcher/");
    s.append(v.name.as_str());
    s.append("/index.json");
    proof {
        assert(s@ =~= "launcher/"@ + v.name@ + "/index.json"@);
    }
    s
}

/// The address of a version's game descriptor, formed from the entry's
/// branch, first mirror host and identifiers.
pub fn game_index_url(v: &ManifestVersion) -> (r: String)
    requires
        v.cdn@.len() >= 1,
    ensures
        r@ == "https://"@ + v.branch@ + "-"@ + v.cdn@[0]@
            + "-gamestarter.kurogame.com/launcher/game/"@ + v.game_id@ + "/"@ + v.unk_id@ + "_"@
            + v.hash@ + "/index.json"@,
{
    let mut s = String::new();
    s.append("https://");
    s.append(v.branch.as_str());
    s.append("-");
    s.append(v.cdn[0].as_str());
    s.append("-gamestarter.kurogame.com/launcher/game/");
    s.append(v.game_id.as_str());
    s.append("/");
    s.append(v.unk_id.as_str());
    s.append("_");
    s.append(v.hash.as_str());
    s.append("/index.json");
    proof {
        assert(s@ =~= "https://"@ + v.branch@ + "-"@ + v.cdn@[0]@
            + "-gamestarter.kurogame.com/launcher/game/"@ + v.game_id@ + "/"@ + v.unk_id@ + "_"@
            + v.hash@ + "/index.json"@);
    }
    s
}

/// The mirror path under which a version's game descriptor is stored.
pub fn game_index_path(v: &ManifestVersion) -> (r: String)
    ensures
        r@ == "game/"@ + v.name@ + "/index.json"@,
{
    let mut s = String::new();
    s.append("game/");
    s.append(v.name.as_str());
    s.append("/index.json");
    proof {
        assert(s@ =~= "game/"@ + v.name@ + "/index.json"@);
    }
    s
}

/// The address of a version's resource list: the mirror host named inside
/// the game descriptor, joined with the resource file it names.
pub fn resources_url(cdn: &str, resources: &str) -> (r: String)
    ensures
        r@ == cdn@ + "/"@ + resources@,
{
    let mut s = String::new();
    s.append(cdn);
    s.append("/");
    s.append(resources);
    proof {
        assert(s@ =~= cdn@ + "/"@ + resources@);
    }
    s
}

/// The mirror path under which a version's resource list is stored.
pub fn resources_path(v: &ManifestVersion) -> (r: String)
    ensures
        r@ == "game/"@ + v.name@ + "/resources.json"@,
{
    let mut s = String::new();
    s.append("game/");
    s.append(v.name.as_str());
    s.append("/resources.json");
    proof {
        assert(s@ =~= "game/"@ + v.name@ + "/resources.json"@);
    }
    s
}

} // verus!
