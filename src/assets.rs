//! Asset paths of the page, resolved from the bundler's manifest.
use vstd::prelude::*;
use crate::utils::str_eq;

verus! {

/// One manifest entry, as the bundler writes it.
#[derive(Clone, Debug)]
pub struct AssetInfo {
    pub file: String,
    pub src: Option<String>,
    pub is_entry: Option<bool>,
    pub imports: Option<Vec<String>>,
    pub css: Option<Vec<String>>,
}

/// URLs of the stylesheet and scripts the page loads.
#[derive(Clone, Debug)]
pub struct AssetPaths {
    pub css_main: String,
    pub js_main: String,
    pub js_three_scene: String,
    pub js_main_legacy: String,
    pub js_three_scene_legacy: String,
    pub js_polyfills_legacy: String,
}

/// URL of the file that the last entry under `key` names, or `default` when no entry has `key`.
pub open spec fn manifest_path(
    entries: Seq<(String, AssetInfo)>,
    key: Seq<char>,
    default: Seq<char>,
) -> Seq<char>
    decreases entries.len(),
{
    if entries.len() == 0 {
        default
    } else if entries.last().0@ == key {
        "/static/"@ + entries.last().1.file@
    } else {
        manifest_path(entries.drop_last(), key, default)
    }
}

/// Taking one more entry into account.
proof fn lemma_manifest_step(entries: Seq<(String, AssetInfo)>, i: int, key: Seq<char>, default: Seq<char>)
    requires
        0 <= i < entries.len(),
    ensures
        manifest_path(entries.take(i + 1), key, default) == if entries[i].0@ == key {
            "/static/"@ + entries[i].1.file@
        } else {
            manifest_path(entries.take(i), key, default)
        },
{
    assert(entries.take(i + 1).drop_last() =~= entries.take(i));
}

/// `/static/` followed by `file`.
fn static_url(file: &str) -> (r: String)
    ensures
        r@ == "/static/"@ + file@,
{
    let mut r = String::from_str("/static/");
    r.append(file);
    r
}

impl Default for AssetPaths {
    /// The unbundled development paths.
    fn default() -> (r: Self)
        ensures
            r.css_main@ == "/static/css/style.css"@,
            r.js_main@ == "/static/js/main.js"@,
            r.js_three_scene@ == "/static/js/threeScene.js"@,
            r.js_main_legacy@ == "/static/js/main-legacy.js"@,
            r.js_three_scene_legacy@ == "/static/js/threeScene-legacy.js"@,
            r.js_polyfills_legacy@ == "/static/js/polyfills-legacy.js"@,
    {
        AssetPaths {
            css_main: "/static/css/style.css".to_owned(),
            js_main: "/static/js/main.js".to_owned(),
            js_three_scene: "/static/js/threeScene.js".to_owned(),
            js_main_legacy: "/static/js/main-legacy.js".to_owned(),
            js_three_scene_legacy: "/static/js/threeScene-legacy.js".to_owned(),
            js_polyfills_legacy: "/static/js/polyfills-legacy.js".to_owned(),
        }
    }
}

impl AssetPaths {
    /// Asset paths from the manifest's entries: each known key points its asset at
    /// `/static/` followed by the entry's file; unknown keys are ignored, and assets without
    /// an entry keep their default path.
    pub fn from_manifest(entries: &Vec<(String, AssetInfo)>) -> (r: AssetPaths)
        ensures
            r.css_main@ == manifest_path(entries@, "css/style.css"@, "/static/css/style.css"@),
            r.js_main@ == manifest_path(entries@, "js/main.js"@, "/static/js/main.js"@),
            r.js_three_scene@ == manifest_path(entries@, "js/three-scene.js"@, "/static/js/threeScene.js"@),
            r.js_main_legacy@ == manifest_path(entries@, "js/main-legacy.js"@, "/static/js/main-legacy.js"@),
            r.js_three_scene_legacy@ == manifest_path(entries@, "js/three-scene-legacy.js"@, "/static/js/threeScene-legacy.js"@),
            r.js_polyfills_legacy@ == manifest_path(entries@, "../vite/legacy-polyfills-legacy"@, "/static/js/polyfills-legacy.js"@),
    {
        let mut r = AssetPaths::default();
        let mut i: usize = 0;
        while i < entries.len()
            invariant
                i <= entries@.len(),
                r.css_main@ == manifest_path(entries@.take(i as int), "css/style.css"@, "/static/css/style.css"@),
                r.js_main@ == manifest_path(entries@.take(i as int), "js/main.js"@, "/static/js/main.js"@),
                r.js_three_scene@ == manifest_path(entries@.take(i as int), "js/three-scene.js"@, "/static/js/threeScene.js"@),
                r.js_main_legacy@ == manifest_path(entries@.take(i as int), "js/main-legacy.js"@, "/static/js/main-legacy.js"@),
                r.js_three_scene_legacy@ == manifest_path(entries@.take(i as int), "js/three-scene-legacy.js"@, "/static/js/threeScene-legacy.js"@),
                r.js_polyfills_legacy@ == manifest_path(entries@.take(i as int), "../vite/legacy-polyfills-legacy"@, "/static/js/polyfills-legacy.js"@),
            decreases entries@.len() - i,
        {
            let key = entries[i].0.as_str();
            proof {
                lemma_manifest_step(entries@, i as int, "css/style.css"@, "/static/css/style.css"@);
                lemma_manifest_step(entries@, i as int, "js/main.js"@, "/static/js/main.js"@);
                lemma_manifest_step(entries@, i as int, "js/three-scene.js"@, "/static/js/threeScene.js"@);
                lemma_manifest_step(entries@, i as int, "js/main-legacy.js"@, "/static/js/main-legacy.js"@);
                lemma_manifest_step(entries@, i as int, "js/three-scene-legacy.js"@, "/static/js/threeScene-legacy.js"@);
                lemma_manifest_step(entries@, i as int, "../vite/legacy-polyfills-legacy"@, "/static/js/polyfills-legacy.js"@);
            }
            if str_eq(key, "css/style.css") {
                r.css_main = static_url(entries[i].1.file.as_str());
            }
            if str_eq(key, "js/main.js") {
                r.js_main = static_url(entries[i].1.file.as_str());
            }
            if str_eq(key, "js/three-scene.js") {
                r.js_three_scene = static_url(entries[i].1.file.as_str());
            }
            if str_eq(key, "js/main-legacy.js") {
                r.js_main_legacy = static_url(entries[i].1.file.as_str());
            }
            if str_eq(key, "js/three-scene-legacy.js") {
                r.js_three_scene_legacy = static_url(entries[i].1.file.as_str());
            }
            if str_eq(key, "../vite/legacy-polyfills-legacy") {
                r.js_polyfills_legacy = static_url(entries[i].1.file.as_str());
            }
            i = i + 1;
        }
        assert(entries@.take(i as int) =~= entries@);
        r
    }
}

} // verus!
