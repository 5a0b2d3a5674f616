//! The static-asset route table of the web front-end.
//!
//! Explicit routes preempt the catch-all proxy fallback, which has the
//! lowest priority. The table pairs each route pattern with the directory it
//! is served from; pattern segments such as path parameters are interpreted
//! by the HTTP layer that mounts the table. Media files are mounted only
//! when the media backend is `file`.

use vstd::prelude::*;

use crate::settings::StorageSettings;

verus! {

/// One route binding: requests matching `pattern` are served from the
/// `target` directory.
pub struct RouteBinding {
    /// Route pattern, as the HTTP layer interprets it.
    pub pattern: String,
    /// Directory the route serves from.
    pub target: String,
}

/// The contents of a route table, as pattern/target character sequences.
pub open spec fn binding_views(bs: Seq<RouteBinding>) -> Seq<(Seq<char>, Seq<char>)> {
    bs.map_values(|b: RouteBinding| (b.pattern@, b.target@))
}

/// The fixed part of the asset route table, in mount order: the static
/// trees, the per-interface asset mounts, and the help tree.
pub open spec fn fixed_asset_routes() -> Seq<(Seq<char>, Seq<char>)> {
    seq![
        ("/static/authentik/"@, "./web/authentik"@),
        ("/static/dist/"@, "./web/dist"@),
        ("/if/flow/:flow_slug/assets"@, "./web/dist/assets"@),
        ("/if/admin/assets"@, "./web/dist/assets"@),
        ("/if/user/assets"@, "./web/dist/assets"@),
        ("/if/rac/:app_slug/assets"@, "./web/dist/assets"@),
        ("/if/help/"@, "./website/help"@),
    ]
}

/// Builds the asset route table: the fixed routes, with the media mount —
/// present exactly when the media backend is `file` — inserted between the
/// interface asset mounts and the help tree.
pub fn asset_route_bindings(storage: &StorageSettings) -> (r: Vec<RouteBinding>)
    ensures
        storage.media.backend@ == "file"@ ==> binding_views(r@) == fixed_asset_routes().take(6)
            + seq![("/media/"@, storage.media.file.path@)] + fixed_asset_routes().skip(6),
        storage.media.backend@ != "file"@ ==> binding_views(r@) == fixed_asset_routes(),
{
    let mut out: Vec<RouteBinding> = Vec::new();
    out.push(
        RouteBinding {
            pattern: "/static/authentik/".to_owned(),
            target: "./web/authentik".to_owned(),
        },
    );
    out.push(RouteBinding { pattern: "/static/dist/".to_owned(), target: "./web/dist".to_owned() });
    out.push(
        RouteBinding {
            pattern: "/if/flow/:flow_slug/assets".to_owned(),
            target: "./web/dist/assets".to_owned(),
        },
    );
    out.push(
        RouteBinding {
            pattern: "/if/admin/assets".to_owned(),
            target: "./web/dist/assets".to_owned(),
        },
    );
    out.push(
        RouteBinding {
            pattern: "/if/user/assets".to_owned(),
            target: "./web/dist/assets".to_owned(),
        },
    );
    out.push(
        RouteBinding {
            pattern: "/if/rac/:app_slug/assets".to_owned(),
            target: "./web/dist/assets".to_owned(),
        },
    );
    match crate::settings::media_route(storage) {
        Some(path) => {
            out.push(RouteBinding { pattern: "/media/".to_owned(), target: path });
        }
        None => {}
    }
    out.push(RouteBinding { pattern: "/if/help/".to_owned(), target: "./website/help".to_owned() });
    proof {
        if storage.media.backend@ == "file"@ {
            assert(binding_views(out@) =~= fixed_asset_routes().take(6) + seq![
                ("/media/"@, storage.media.file.path@),
            ] + fixed_asset_routes().skip(6));
        } else {
            assert(binding_views(out@) =~= fixed_asset_routes());
        }
    }
    out
}

} // verus!
