use daedalus::string_map::StringMap;
use daedalus::tmpl::vite::{InjectCss, InjectJs, InjectReactRefresh, InjectVite, Manifest};
use daedalus::tmpl::InjectVersion;

fn manifest() -> Manifest {
    let mut files = StringMap::new();
    files.insert("resources/ts/app.ts".to_string(), "assets/app-123.js".to_string());
    files.insert("resources/css/app.css".to_string(), "assets/app-456.css".to_string());
    Manifest::from_files(files)
}

#[test]
fn js_in_development() {
    let js = InjectJs::new().set_dev_path("resources/ts");
    assert_eq!(
        js.inject(Some("app.ts")).unwrap(),
        r#"<script type="module" src="http://localhost:5173/resources/ts/app.ts"></script>"#
    );
    assert_eq!(
        InjectJs::new().inject(Some("a.js")).unwrap(),
        r#"<script type="module" src="http://localhost:5173/resources/js/a.js"></script>"#
    );
}

#[test]
fn js_built() {
    let js = InjectJs::new().set_dev(false).set_manifest(manifest()).set_dev_path("resources/ts");
    assert_eq!(js.inject(Some("app.ts")).unwrap(), r#"<script type="module" src="/build/assets/app-123.js"></script>"#);
    assert_eq!(js.inject(Some("other.ts")).unwrap_err(), "Failed to find js bundle: other.ts");
    assert_eq!(
        js.inject(None).unwrap_err(),
        "No name provided for js bundle. Example: {{ js('app.js') }}"
    );
    let js = js.set_build_path("dist");
    assert_eq!(js.inject(Some("app.ts")).unwrap(), r#"<script type="module" src="/dist/assets/app-123.js"></script>"#);
}

#[test]
fn css_looks_up_the_fixed_stylesheet_path() {
    let css = InjectCss::new().set_dev(false).set_manifest(manifest()).set_dev_path("elsewhere");
    assert_eq!(css.inject(Some("app.css")).unwrap(), r#"<link rel="stylesheet" href="/build/assets/app-456.css" />"#);
    assert_eq!(css.inject(Some("x.css")).unwrap_err(), "Failed to find css bundle: x.css");
    assert_eq!(
        InjectCss::new().inject(Some("app.css")).unwrap(),
        r#"<link rel="stylesheet" href="http://localhost:5173/resources/css/app.css" />"#
    );
    assert_eq!(
        InjectCss::new().inject(None).unwrap_err(),
        "No name provided for css bundle. Example: {{ css('app.css') }}"
    );
}

#[test]
fn vite_and_refresh_only_in_development() {
    assert_eq!(
        InjectVite::new().inject().unwrap(),
        r#"<script type="module" src="http://localhost:5173/@vite/client"></script>"#
    );
    assert!(InjectVite::new().set_dev(false).inject().is_none());
    let refresh = InjectReactRefresh::new().inject().unwrap();
    assert!(refresh.contains("window.$RefreshReg$ = () => {{ /* noop */ }}"));
    assert!(refresh.contains("import RefreshRuntime from 'http://localhost:5173/@react-refresh'"));
    assert!(InjectReactRefresh::new().set_dev(false).inject().is_none());
    assert_eq!(InjectVite::KEY, "vite");
    assert_eq!(InjectJs::KEY, "js");
    assert_eq!(InjectCss::KEY, "css");
    assert_eq!(InjectReactRefresh::KEY, "react_refresh");
}

#[test]
fn version_injection() {
    assert_eq!(InjectVersion::new("1.0.0".to_string()).inject(), "1.0.0");
    assert!(Manifest::new().file("x").is_none());
}
