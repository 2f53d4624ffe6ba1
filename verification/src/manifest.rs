use vstd::prelude::*;
use crate::json::{Json, json_get, json_str, parse_json, json_parse};
use crate::text::str_eq;

verus! {

/// A vehicle class declared by the asset manifest.
#[derive(Debug)]
pub struct VehicleClassEntry {
    pub name: String,
    pub glb_path: String,
    /// The mass in kilograms as the manifest writes it (a JSON number);
    /// `None` when absent or not a number, for which the game uses 1000 kg.
    pub mass_kg: Option<String>,
    pub license: String,
    pub author: String,
}

/// A map declared by the asset manifest.
#[derive(Debug)]
pub struct MapEntry {
    pub name: String,
    pub heightmap_path: String,
    pub license: String,
}

/// A mod declared by the asset manifest.
#[derive(Debug)]
pub struct ModEntry {
    pub name: String,
    pub version: String,
    pub author: String,
    pub license: String,
    pub root: String,
}

/// The accepted entries of the asset manifest.
#[derive(Debug)]
pub struct AssetManifest {
    pub vehicles: Vec<VehicleClassEntry>,
    pub maps: Vec<MapEntry>,
    pub mods: Vec<ModEntry>,
}

pub struct VehicleView {
    pub name: Seq<char>,
    pub glb_path: Seq<char>,
    pub mass_kg: Option<Seq<char>>,
    pub license: Seq<char>,
    pub author: Seq<char>,
}

pub struct MapView {
    pub name: Seq<char>,
    pub heightmap_path: Seq<char>,
    pub license: Seq<char>,
}

pub struct ModView {
    pub name: Seq<char>,
    pub version: Seq<char>,
    pub author: Seq<char>,
    pub license: Seq<char>,
    pub root: Seq<char>,
}

pub struct ManifestView {
    pub vehicles: Seq<VehicleView>,
    pub maps: Seq<MapView>,
    pub mods: Seq<ModView>,
}

impl View for VehicleClassEntry {
    type V = VehicleView;

    open spec fn view(&self) -> VehicleView {
        VehicleView {
            name: self.name@,
            glb_path: self.glb_path@,
            mass_kg: match self.mass_kg {
                Some(t) => Some(t@),
                None => None,
            },
            license: self.license@,
            author: self.author@,
        }
    }
}

impl View for MapEntry {
    type V = MapView;

    open spec fn view(&self) -> MapView {
        MapView { name: self.name@, heightmap_path: self.heightmap_path@, license: self.license@ }
    }
}

impl View for ModEntry {
    type V = ModView;

    open spec fn view(&self) -> ModView {
        ModView {
            name: self.name@,
            version: self.version@,
            author: self.author@,
            license: self.license@,
            root: self.root@,
        }
    }
}

impl View for AssetManifest {
    type V = ManifestView;

    open spec fn view(&self) -> ManifestView {
        ManifestView {
            vehicles: self.vehicles@.map_values(|e: VehicleClassEntry| e@),
            maps: self.maps@.map_values(|e: MapEntry| e@),
            mods: self.mods@.map_values(|e: ModEntry| e@),
        }
    }
}

/// The licences under which manifest assets are accepted (exact match).
pub open spec fn license_allowed(l: Seq<char>) -> bool {
    ||| l == "CC0"@
    ||| l == "CC-BY-4.0"@
    ||| l == "CC-BY-SA-4.0"@
    ||| l == "MIT"@
    ||| l == "Apache-2.0"@
    ||| l == "Unlicense"@
    ||| l == "Public Domain"@
}

/// Returns `true` when `license` is in the allow-list (case-sensitive).
pub fn license_ok(license: &str) -> (r: bool)
    ensures
        r == license_allowed(license@),
{
    str_eq(license, "CC0") || str_eq(license, "CC-BY-4.0") || str_eq(license, "CC-BY-SA-4.0")
        || str_eq(license, "MIT") || str_eq(license, "Apache-2.0") || str_eq(license, "Unlicense")
        || str_eq(license, "Public Domain")
}

/// The string member `key` of `entry`, or the empty string when it is
/// missing or not a string.
pub open spec fn text_of(entry: Json, key: Seq<char>) -> Seq<char> {
    match json_str(json_get(entry, key)) {
        Some(s) => s,
        None => Seq::empty(),
    }
}

/// The text of the number member `key` of `entry`, if it is a number.
pub open spec fn number_of(entry: Json, key: Seq<char>) -> Option<Seq<char>> {
    match json_get(entry, key) {
        Some(Json::Number(t)) => Some(t@),
        _ => None,
    }
}

/// The entries of the array member `key` of the document root; none when
/// it is missing or not an array.
pub open spec fn section(root: Json, key: Seq<char>) -> Seq<Json> {
    match json_get(root, key) {
        Some(Json::Array(a)) => a@,
        _ => Seq::empty(),
    }
}

/// An entry is kept only when its licence is present and allowed.
pub open spec fn entry_accepted(entry: Json) -> bool {
    license_allowed(text_of(entry, "license"@))
}

pub open spec fn vehicle_of(e: Json) -> Option<VehicleView> {
    if entry_accepted(e) {
        Some(
            VehicleView {
                name: text_of(e, "name"@),
                glb_path: text_of(e, "glb_path"@),
                mass_kg: number_of(e, "mass_kg"@),
                license: text_of(e, "license"@),
                author: text_of(e, "author"@),
            },
        )
    } else {
        None
    }
}

pub open spec fn map_of(e: Json) -> Option<MapView> {
    if entry_accepted(e) {
        Some(
            MapView {
                name: text_of(e, "name"@),
                heightmap_path: text_of(e, "heightmap_path"@),
                license: text_of(e, "license"@),
            },
        )
    } else {
        None
    }
}

pub open spec fn mod_of(e: Json) -> Option<ModView> {
    if entry_accepted(e) {
        Some(
            ModView {
                name: text_of(e, "name"@),
                version: text_of(e, "version"@),
                author: text_of(e, "author"@),
                license: text_of(e, "license"@),
                root: text_of(e, "root"@),
            },
        )
    } else {
        None
    }
}

/// The manifest that a parsed document declares: the entries of the
/// "vehicles", "maps" and "mods" arrays whose licence is allowed, in order.
pub open spec fn manifest_of(root: Json) -> ManifestView {
    ManifestView {
        vehicles: section(root, "vehicles"@).filter_map(|e: Json| vehicle_of(e)),
        maps: section(root, "maps"@).filter_map(|e: Json| map_of(e)),
        mods: section(root, "mods"@).filter_map(|e: Json| mod_of(e)),
    }
}

fn text_field(entry: &Json, key: &str) -> (r: String)
    ensures
        r@ == text_of(*entry, key@),
{
    match entry.get(key) {
        Some(v) => match v.as_str() {
            Some(s) => s.to_owned(),
            None => String::new(),
        },
        None => String::new(),
    }
}

pub(crate) fn number_field(entry: &Json, key: &str) -> (r: Option<String>)
    ensures
        match r {
            Some(t) => number_of(*entry, key@) == Some(t@),
            None => number_of(*entry, key@) is None,
        },
{
    match entry.get(key) {
        Some(Json::Number(t)) => Some(t.clone()),
        _ => None,
    }
}

fn section_items<'a>(root: &'a Json, key: &str) -> (r: Option<&'a Vec<Json>>)
    ensures
        match r {
            Some(a) => section(*root, key@) == a@,
            None => section(*root, key@) == Seq::<Json>::empty(),
        },
{
    match root.get(key) {
        Some(Json::Array(a)) => Some(a),
        _ => None,
    }
}

fn accepted(entry: &Json) -> (r: bool)
    ensures
        r == entry_accepted(*entry),
{
    let license = text_field(entry, "license");
    license_ok(license.as_str())
}


fn vehicle_entries(items: &Vec<Json>) -> (out: Vec<VehicleClassEntry>)
    ensures
        out@.map_values(|e: VehicleClassEntry| e@) == items@.filter_map(|e: Json| vehicle_of(e)),
{
    let mut out: Vec<VehicleClassEntry> = Vec::new();
    let mut i: usize = 0;
    while i < items.len()
        invariant
            i <= items@.len(),
            out@.map_values(|e: VehicleClassEntry| e@) == items@.take(i as int).filter_map(|e: Json| vehicle_of(e)),
        decreases items.len() - i,
    {
        let entry = &items[i];
        proof {
            assert(items@.take(i + 1).drop_last() =~= items@.take(i as int));
            assert(items@.take(i + 1).last() == *entry);
        }
        if accepted(entry) {
            let v = VehicleClassEntry {
                name: text_field(entry, "name"),
                glb_path: text_field(entry, "glb_path"),
                mass_kg: number_field(entry, "mass_kg"),
                license: text_field(entry, "license"),
                author: text_field(entry, "author"),
            };
            let ghost before = out@;
            out.push(v);
            proof {
                assert(out@.map_values(|e: VehicleClassEntry| e@) =~= before.map_values(|e: VehicleClassEntry| e@)
                    + seq![v@]);
            }
        }
        i = i + 1;
    }
    proof {
        assert(items@.take(items@.len() as int) =~= items@);
    }
    out
}

fn map_entries(items: &Vec<Json>) -> (out: Vec<MapEntry>)
    ensures
        out@.map_values(|e: MapEntry| e@) == items@.filter_map(|e: Json| map_of(e)),
{
    let mut out: Vec<MapEntry> = Vec::new();
    let mut i: usize = 0;
    while i < items.len()
        invariant
            i <= items@.len(),
            out@.map_values(|e: MapEntry| e@) == items@.take(i as int).filter_map(|e: Json| map_of(e)),
        decreases items.len() - i,
    {
        let entry = &items[i];
        proof {
            assert(items@.take(i + 1).drop_last() =~= items@.take(i as int));
            assert(items@.take(i + 1).last() == *entry);
        }
        if accepted(entry) {
            let v = MapEntry {
                name: text_field(entry, "name"),
                heightmap_path: text_field(entry, "heightmap_path"),
                license: text_field(entry, "license"),
            };
            let ghost before = out@;
            out.push(v);
            proof {
                assert(out@.map_values(|e: MapEntry| e@) =~= before.map_values(|e: MapEntry| e@) + seq![v@]);
            }
        }
        i = i + 1;
    }
    proof {
        assert(items@.take(items@.len() as int) =~= items@);
    }
    out
}

fn mod_entries(items: &Vec<Json>) -> (out: Vec<ModEntry>)
    ensures
        out@.map_values(|e: ModEntry| e@) == items@.filter_map(|e: Json| mod_of(e)),
{
    let mut out: Vec<ModEntry> = Vec::new();
    let mut i: usize = 0;
    while i < items.len()
        invariant
            i <= items@.len(),
            out@.map_values(|e: ModEntry| e@) == items@.take(i as int).filter_map(|e: Json| mod_of(e)),
        decreases items.len() - i,
    {
        let entry = &items[i];
        proof {
            assert(items@.take(i + 1).drop_last() =~= items@.take(i as int));
            assert(items@.take(i + 1).last() == *entry);
        }
        if accepted(entry) {
            let v = ModEntry {
                name: text_field(entry, "name"),
                version: text_field(entry, "version"),
                author: text_field(entry, "author"),
                license: text_field(entry, "license"),
                root: text_field(entry, "root"),
            };
            let ghost before = out@;
            out.push(v);
            proof {
                assert(out@.map_values(|e: ModEntry| e@) =~= before.map_values(|e: ModEntry| e@) + seq![v@]);
            }
        }
        i = i + 1;
    }
    proof {
        assert(items@.take(items@.len() as int) =~= items@);
    }
    out
}

impl AssetManifest {
    pub fn new() -> (m: AssetManifest)
        ensures
            m@.vehicles.len() == 0 && m@.maps.len() == 0 && m@.mods.len() == 0,
    {
        AssetManifest { vehicles: Vec::new(), maps: Vec::new(), mods: Vec::new() }
    }
}

/// The manifest declared by a parsed document. Entries whose licence is
/// missing or not in the allow-list are skipped; missing string fields are
/// empty.
pub fn manifest_from_json(root: &Json) -> (m: AssetManifest)
    ensures
        m@ == manifest_of(*root),
{
    let vehicles = match section_items(root, "vehicles") {
        Some(items) => vehicle_entries(items),
        None => Vec::new(),
    };
    let maps = match section_items(root, "maps") {
        Some(items) => map_entries(items),
        None => Vec::new(),
    };
    let mods = match section_items(root, "mods") {
        Some(items) => mod_entries(items),
        None => Vec::new(),
    };
    let m = AssetManifest { vehicles, maps, mods };
    proof {
        assert(m@.vehicles =~= manifest_of(*root).vehicles);
        assert(m@.maps =~= manifest_of(*root).maps);
        assert(m@.mods =~= manifest_of(*root).mods);
    }
    m
}

/// Parses the text of the manifest file: an empty manifest when it is not
/// JSON, else the accepted entries of each section.
pub fn parse_manifest(text: &str) -> (m: AssetManifest)
    ensures
        match json_parse(text@) {
            Some(root) => m@ == manifest_of(root),
            None => m@.vehicles.len() == 0 && m@.maps.len() == 0 && m@.mods.len() == 0,
        },
{
    match parse_json(text) {
        Some(root) => manifest_from_json(&root),
        None => AssetManifest::new(),
    }
}

/// The string member `key` of a JSON entry as an accepted manifest entry
/// keeps it: the member's text when it is a string, else empty.
pub open spec fn member_text(e: Json, key: Seq<char>) -> Seq<char> {
    match json_get(e, key) {
        Some(Json::Str(s)) => s@,
        _ => Seq::empty(),
    }
}

/// An entry is accepted exactly when its "license" member is a string in
/// the allow-list, and each field of an accepted entry is the member of the
/// same name: every mod's name, version, author, licence and root, every
/// map's name, heightmap path and licence, and every vehicle's name, model
/// path, author, licence and mass (a number member) come from their own
/// members and no other.
pub proof fn lemma_entry_fields(e: Json)
    ensures
        mod_of(e) is Some <==> license_allowed(member_text(e, "license"@)),
        map_of(e) is Some <==> license_allowed(member_text(e, "license"@)),
        vehicle_of(e) is Some <==> license_allowed(member_text(e, "license"@)),
        mod_of(e) is Some ==> {
            let m = mod_of(e).unwrap();
            &&& m.name == member_text(e, "name"@)
            &&& m.version == member_text(e, "version"@)
            &&& m.author == member_text(e, "author"@)
            &&& m.license == member_text(e, "license"@)
            &&& m.root == member_text(e, "root"@)
        },
        map_of(e) is Some ==> {
            let m = map_of(e).unwrap();
            &&& m.name == member_text(e, "name"@)
            &&& m.heightmap_path == member_text(e, "heightmap_path"@)
            &&& m.license == member_text(e, "license"@)
        },
        vehicle_of(e) is Some ==> {
            let v = vehicle_of(e).unwrap();
            &&& v.name == member_text(e, "name"@)
            &&& v.glb_path == member_text(e, "glb_path"@)
            &&& v.author == member_text(e, "author"@)
            &&& v.license == member_text(e, "license"@)
            &&& v.mass_kg == match json_get(e, "mass_kg"@) {
                Some(Json::Number(t)) => Some(t@),
                _ => None,
            }
        },
{
}

/// Two mod entries that differ only in one member give the same value for
/// every field read from another member: the version does not depend on
/// the author, and so on.
pub proof fn lemma_mod_fields_independent(e1: Json, e2: Json, key: Seq<char>)
    requires
        forall|k: Seq<char>| k != key ==> json_get(e1, k) == json_get(e2, k),
        mod_of(e1) is Some,
        mod_of(e2) is Some,
    ensures
        key != "version"@ ==> mod_of(e1).unwrap().version == mod_of(e2).unwrap().version,
        key != "author"@ ==> mod_of(e1).unwrap().author == mod_of(e2).unwrap().author,
        key != "name"@ ==> mod_of(e1).unwrap().name == mod_of(e2).unwrap().name,
        key != "root"@ ==> mod_of(e1).unwrap().root == mod_of(e2).unwrap().root,
{
    lemma_entry_fields(e1);
    lemma_entry_fields(e2);
}

} // verus!
