use vstd::prelude::*;

verus! {

/// The asset directory for config files: the `ASSET_PATH` environment
/// variable when it is set, else `assets`.
pub fn resolve_asset_path(asset_path_var: Option<String>) -> (p: String)
    ensures
        p@ == match asset_path_var {
            Some(v) => v@,
            None => "assets"@,
        },
{
    match asset_path_var {
        Some(v) => v,
        None => String::from_str("assets"),
    }
}

/// The asset directory handed to the engine's asset loader: the
/// `ASSET_PATH` environment variable when it is set; otherwise `assets` on
/// the web (where the bundler copies the assets next to the page) and
/// `../../assets` natively (relative to each app's package directory).
pub fn resolve_asset_path_for_bevy(asset_path_var: Option<String>, web: bool) -> (p: String)
    ensures
        p@ == match asset_path_var {
            Some(v) => v@,
            None => if web {
                "assets"@
            } else {
                "../../assets"@
            },
        },
{
    match asset_path_var {
        Some(v) => v,
        None => if web {
            String::from_str("assets")
        } else {
            String::from_str("../../assets")
        },
    }
}

/// The path of a config file: `{assets_base}/config/{filename}`.
pub fn config_file_path(assets_base: &str, filename: &str) -> (p: String)
    ensures
        p@ == assets_base@ + "/config/"@ + filename@,
{
    let mut p = String::from_str(assets_base);
    p.append("/config/");
    p.append(filename);
    p
}

} // verus!
