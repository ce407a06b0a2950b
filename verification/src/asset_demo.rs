//! The built-in demo assets shown before a project is opened.
use crate::asset_index::{record_path_key, AssetIndex};
use crate::asset_record::{has_no_metadata, AssetRecord};
use crate::asset_scan::AssetScan;
use crate::assets::{path_components, stable_asset_id, AssetKind};
use crate::path_sort::{lemma_sort_by_key, sort_by_key, sorted_by_key};
use vstd::prelude::*;

verus! {

/// The identifier, name, path and kind of the demo asset at position `i`.
pub open spec fn demo_entry(i: int) -> (u64, Seq<char>, Seq<char>, AssetKind) {
    if i == 0 {
        (1, "README.md"@, "README.md"@, AssetKind::Text)
    } else if i == 1 {
        (2, "click.wav"@, "assets/audio/click.wav"@, AssetKind::Audio)
    } else if i == 2 {
        (3, "default.material"@, "assets/materials/default.material"@, AssetKind::Material)
    } else if i == 3 {
        (4, "cube.glb"@, "assets/models/cube.glb"@, AssetKind::Model)
    } else if i == 4 {
        (5, "demo.scene"@, "assets/scenes/demo.scene"@, AssetKind::Scene)
    } else if i == 5 {
        (6, "checker.png"@, "assets/textures/checker.png"@, AssetKind::Image)
    } else {
        (7, "player.rs"@, "scripts/player.rs"@, AssetKind::Script)
    }
}

/// The demo records, in the order they are listed.
pub open spec fn is_demo_records(s: Seq<AssetRecord>) -> bool {
    &&& s.len() == 7
    &&& forall|i: int|
        0 <= i < 7 ==> {
            let (id, name, path, kind) = demo_entry(i);
            &&& (#[trigger] s[i]).id@ == id
            &&& s[i].name@ == name
            &&& s[i].path@ == path_components(path)
            &&& s[i].kind == kind
            &&& has_no_metadata(s[i])
        }
}

fn demo_record(id: u64, name: &str, path: &str, kind: AssetKind) -> (r: AssetRecord)
    requires
        id > 0,
    ensures
        r.id@ == id,
        r.name@ == name@,
        r.path@ == path_components(path@),
        r.kind == kind,
        has_no_metadata(r),
{
    AssetRecord::from_parts(stable_asset_id(id), name, path, kind)
}

pub fn demo_asset_records() -> (r: Vec<AssetRecord>)
    ensures
        is_demo_records(r@),
{
    let mut out: Vec<AssetRecord> = Vec::new();
    out.push(demo_record(1, "README.md", "README.md", AssetKind::Text));
    out.push(demo_record(2, "click.wav", "assets/audio/click.wav", AssetKind::Audio));
    out.push(
        demo_record(
            3,
            "default.material",
            "assets/materials/default.material",
            AssetKind::Material,
        ),
    );
    out.push(demo_record(4, "cube.glb", "assets/models/cube.glb", AssetKind::Model));
    out.push(demo_record(5, "demo.scene", "assets/scenes/demo.scene", AssetKind::Scene));
    out.push(demo_record(6, "checker.png", "assets/textures/checker.png", AssetKind::Image));
    out.push(demo_record(7, "player.rs", "scripts/player.rs", AssetKind::Script));
    out
}

/// The index of the demo records: those records, ordered by path.
pub open spec fn is_demo_index(s: Seq<AssetRecord>) -> bool {
    exists|d: Seq<AssetRecord>|
        is_demo_records(d) && s == sort_by_key(d, record_path_key()) && #[trigger] sorted_by_key(
            s,
            record_path_key(),
        )
}

pub fn demo_asset_index() -> (r: AssetIndex)
    ensures
        is_demo_index(r@),
        r@.len() == 7,
{
    let records = demo_asset_records();
    let ghost d = records@;
    let index = AssetIndex::from_records(records);
    proof {
        lemma_sort_by_key(d, record_path_key());
    }
    index
}

pub fn demo_asset_scan() -> (r: AssetScan)
    ensures
        r.root matches Some(p) && p@ == "assets"@,
        r.request is None,
        is_demo_index(r.index@),
        r.index@.len() == 7,
        r.diagnostics@.len() == 0,
{
    AssetScan::from_demo_index(demo_asset_index())
}

/// The scan of the demo assets, as shown when no project is open.
pub fn scan_demo_assets() -> (r: AssetScan)
    ensures
        r.root matches Some(p) && p@ == "assets"@,
        r.request is None,
        is_demo_index(r.index@),
        r.index@.len() == 7,
        r.diagnostics@.len() == 0,
{
    demo_asset_scan()
}

} // verus!
