use vstd::prelude::*;

verus! {

/// The upstream base URL for the `/hello` route: the configured value
/// (the `HELLO_WORLD_URL` environment setting, read by the caller) when
/// one is present, else the default `http://localhost:8080`.
pub fn resolve_hello_world_url(configured: Option<String>) -> (url: String)
    ensures
        url@ == (match configured {
            Some(s) => s@,
            None => "http://localhost:8080"@,
        }),
{
    match configured {
        Some(s) => s,
        None => "http://localhost:8080".to_owned(),
    }
}

/// Which directory the static assets are served from: `assets` under the
/// current working directory when that directory exists, else `assets`
/// under the running executable's directory. The caller probes the
/// filesystem and hands in both candidate paths.
pub fn resolve_assets_dir(cwd_assets: String, cwd_assets_is_dir: bool, exe_assets: String) -> (dir: String)
    ensures
        dir == (if cwd_assets_is_dir { cwd_assets } else { exe_assets }),
{
    if cwd_assets_is_dir {
        cwd_assets
    } else {
        exe_assets
    }
}

} // verus!
