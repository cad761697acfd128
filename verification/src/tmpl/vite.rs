//! The functions that templates call to inject the tags of the Vite dev server and of
//! the built bundles.
use vstd::prelude::*;

use crate::string_map::StringMap;

verus! {

/// The built files, by the path of their source.
#[derive(Clone, Debug)]
pub struct Manifest {
    inner: StringMap,
}

impl View for Manifest {
    type V = Map<Seq<char>, Seq<char>>;

    closed spec fn view(&self) -> Map<Seq<char>, Seq<char>> {
        self.inner@
    }
}

impl Manifest {
    /// An empty manifest.
    pub fn new() -> (m: Manifest)
        ensures
            m@ == Map::<Seq<char>, Seq<char>>::empty(),
    {
        Manifest { inner: StringMap::new() }
    }

    /// The manifest with the given built files, by the path of their source.
    pub fn from_files(files: StringMap) -> (m: Manifest)
        ensures
            m@ == files@,
    {
        Manifest { inner: files }
    }

    /// The built file for the source at `id`, if any.
    pub fn file(&self, id: &str) -> (r: Option<&String>)
        ensures
            match r {
                Some(f) => self@.contains_key(id@) && f@ == self@[id@],
                None => !self@.contains_key(id@),
            },
    {
        self.inner.get(id)
    }
}

/// Where the manifest keeps the built stylesheets, before their name.
pub const CSS_MANIFEST_PREFIX: &'static str = "resources/css/";

/// The script of the Vite client, from the dev server.
pub const VITE_CLIENT: &'static str = "<script type=\"module\" src=\"http://localhost:5173/@vite/client\"></script>";

/// Injects `VITE_CLIENT` in development, and nothing otherwise.
pub struct InjectVite {
    dev: bool,
}

impl InjectVite {
    /// The name under which templates call the function.
    pub const KEY: &'static str = "vite";

    /// An injector for development.
    pub fn new() -> (r: InjectVite)
        ensures
            r.is_dev(),
    {
        InjectVite { dev: true }
    }

    /// Whether the injector is in development mode.
    pub closed spec fn is_dev(&self) -> bool {
        self.dev
    }

    /// The injector with the given development mode.
    pub fn set_dev(self, dev: bool) -> (r: InjectVite)
        ensures
            r.is_dev() == dev,
    {
        InjectVite { dev }
    }

    /// The injected text in development, `None` (the template's null) otherwise.
    pub fn inject(&self) -> (r: Option<String>)
        ensures
            match r {
                Some(t) => self.is_dev() && t@ == "<script type=\"module\" src=\"http://localhost:5173/@vite/client\"></script>"@,
                None => !self.is_dev(),
            },
    {
        if self.dev {
            Some(String::from_str(VITE_CLIENT))
        } else {
            None
        }
    }
}

/// The text that comes before the path of a js bundle served by the dev server.
pub const JS_DEV_PREFIX: &'static str = "<script type=\"module\" src=\"http://localhost:5173/";
/// The text that comes before the path of a built js bundle.
pub const JS_BUILD_PREFIX: &'static str = "<script type=\"module\" src=\"/";
/// The text that closes a js tag.
pub const JS_SUFFIX: &'static str = "\"></script>";
/// The error where no bundle name is given.
pub const JS_MISSING_NAME: &'static str = "No name provided for js bundle. Example: {{ js('app.js') }}";
/// The start of the error where the manifest has no entry for the bundle.
pub const JS_NOT_FOUND: &'static str = "Failed to find js bundle: ";

/// Injects the tag of a js bundle: from the dev server in development, else the
/// built file that the manifest names.
pub struct InjectJs {
    dev: bool,
    manifest: Manifest,
    dev_path: String,
    build_path: String,
}

impl View for InjectJs {
    /// Whether in development, the manifest, the dev path and the build path.
    type V = (bool, Map<Seq<char>, Seq<char>>, Seq<char>, Seq<char>);

    closed spec fn view(&self) -> Self::V {
        (self.dev, self.manifest@, self.dev_path@, self.build_path@)
    }
}

impl InjectJs {
    /// The name under which templates call the function.
    pub const KEY: &'static str = "js";

    /// An injector for development, with an empty manifest, the dev path
    /// `resources/js` and the build path `build`.
    pub fn new() -> (r: InjectJs)
        ensures
            r@.0,
            r@.1 == Map::<Seq<char>, Seq<char>>::empty(),
            r@.2 == "resources/js"@,
            r@.3 == "build"@,
    {
        InjectJs {
            dev: true,
            manifest: Manifest::new(),
            dev_path: String::from_str("resources/js"),
            build_path: String::from_str("build"),
        }
    }

    /// The injector with the given development mode.
    pub fn set_dev(self, dev: bool) -> (r: InjectJs)
        ensures
            r@ == (dev, self@.1, self@.2, self@.3),
    {
        InjectJs { dev, ..self }
    }

    /// The injector with the given manifest.
    pub fn set_manifest(self, manifest: Manifest) -> (r: InjectJs)
        ensures
            r@ == (self@.0, manifest@, self@.2, self@.3),
    {
        InjectJs { manifest, ..self }
    }

    /// The injector with the given dev path.
    pub fn set_dev_path(self, dev_path: &str) -> (r: InjectJs)
        ensures
            r@ == (self@.0, self@.1, dev_path@, self@.3),
    {
        InjectJs { dev_path: String::from_str(dev_path), ..self }
    }

    /// The injector with the given build path.
    pub fn set_build_path(self, build_path: &str) -> (r: InjectJs)
        ensures
            r@ == (self@.0, self@.1, self@.2, build_path@),
    {
        InjectJs { build_path: String::from_str(build_path), ..self }
    }

    /// The manifest entry that the bundle `name` is looked up under.
    pub open spec fn manifest_id(self, name: &str) -> Seq<char> {
        self@.2 + "/"@ + name@
    }

    /// The tag for the bundle `name`, or the error that the template sees.
    pub fn inject(&self, name: Option<&str>) -> (r: Result<String, String>)
        ensures
            match name {
                None => r matches Err(e) && e@ == "No name provided for js bundle. Example: {{ js('app.js') }}"@,
                Some(name) => if self@.0 {
                    r matches Ok(t) && t@ == "<script type=\"module\" src=\"http://localhost:5173/"@ + self@.2 + "/"@ + name@ + "\"></script>"@
                } else if self@.1.contains_key((self@.2 + "/"@ + name@)) {
                    r matches Ok(t) && t@ == "<script type=\"module\" src=\"/"@ + self@.3 + "/"@ + self@.1[(self@.2 + "/"@ + name@)]
                        + "\"></script>"@
                } else {
                    r matches Err(e) && e@ == "Failed to find js bundle: "@ + name@
                },
            },
    {
        let name = match name {
            None => {
                return Err(String::from_str(JS_MISSING_NAME));
            },
            Some(name) => name,
        };
        if self.dev {
            let mut t = String::from_str(JS_DEV_PREFIX);
            t.append(self.dev_path.as_str());
            t.append("/");
            t.append(name);
            t.append(JS_SUFFIX);
            return Ok(t);
        }
        let mut id = self.dev_path.clone();
            id.append("/");
            id.append(name);
        match self.manifest.file(id.as_str()) {
            None => {
                let mut e = String::from_str(JS_NOT_FOUND);
                e.append(name);
                Err(e)
            },
            Some(file) => {
                let mut t = String::from_str(JS_BUILD_PREFIX);
                t.append(self.build_path.as_str());
                t.append("/");
                t.append(file.as_str());
                t.append(JS_SUFFIX);
                Ok(t)
            },
        }
    }
}

/// The text that comes before the path of a css bundle served by the dev server.
pub const CSS_DEV_PREFIX: &'static str = "<link rel=\"stylesheet\" href=\"http://localhost:5173/";
/// The text that comes before the path of a built css bundle.
pub const CSS_BUILD_PREFIX: &'static str = "<link rel=\"stylesheet\" href=\"/";
/// The text that closes a css tag.
pub const CSS_SUFFIX: &'static str = "\" />";
/// The error where no bundle name is given.
pub const CSS_MISSING_NAME: &'static str = "No name provided for css bundle. Example: {{ css('app.css') }}";
/// The start of the error where the manifest has no entry for the bundle.
pub const CSS_NOT_FOUND: &'static str = "Failed to find css bundle: ";

/// Injects the tag of a css bundle: from the dev server in development, else the
/// built file that the manifest names.
pub struct InjectCss {
    dev: bool,
    manifest: Manifest,
    dev_path: String,
    build_path: String,
}

impl View for InjectCss {
    /// Whether in development, the manifest, the dev path and the build path.
    type V = (bool, Map<Seq<char>, Seq<char>>, Seq<char>, Seq<char>);

    closed spec fn view(&self) -> Self::V {
        (self.dev, self.manifest@, self.dev_path@, self.build_path@)
    }
}

impl InjectCss {
    /// The name under which templates call the function.
    pub const KEY: &'static str = "css";

    /// An injector for development, with an empty manifest, the dev path
    /// `resources/css` and the build path `build`.
    pub fn new() -> (r: InjectCss)
        ensures
            r@.0,
            r@.1 == Map::<Seq<char>, Seq<char>>::empty(),
            r@.2 == "resources/css"@,
            r@.3 == "build"@,
    {
        InjectCss {
            dev: true,
            manifest: Manifest::new(),
            dev_path: String::from_str("resources/css"),
            build_path: String::from_str("build"),
        }
    }

    /// The injector with the given development mode.
    pub fn set_dev(self, dev: bool) -> (r: InjectCss)
        ensures
            r@ == (dev, self@.1, self@.2, self@.3),
    {
        InjectCss { dev, ..self }
    }

    /// The injector with the given manifest.
    pub fn set_manifest(self, manifest: Manifest) -> (r: InjectCss)
        ensures
            r@ == (self@.0, manifest@, self@.2, self@.3),
    {
        InjectCss { manifest, ..self }
    }

    /// The injector with the given dev path.
    pub fn set_dev_path(self, dev_path: &str) -> (r: InjectCss)
        ensures
            r@ == (self@.0, self@.1, dev_path@, self@.3),
    {
        InjectCss { dev_path: String::from_str(dev_path), ..self }
    }

    /// The injector with the given build path.
    pub fn set_build_path(self, build_path: &str) -> (r: InjectCss)
        ensures
            r@ == (self@.0, self@.1, self@.2, build_path@),
    {
        InjectCss { build_path: String::from_str(build_path), ..self }
    }

    /// The manifest entry that the bundle `name` is looked up under.
    pub open spec fn manifest_id(self, name: &str) -> Seq<char> {
        CSS_MANIFEST_PREFIX@ + name@
    }

    /// The tag for the bundle `name`, or the error that the template sees.
    pub fn inject(&self, name: Option<&str>) -> (r: Result<String, String>)
        ensures
            match name {
                None => r matches Err(e) && e@ == "No name provided for css bundle. Example: {{ css('app.css') }}"@,
                Some(name) => if self@.0 {
                    r matches Ok(t) && t@ == "<link rel=\"stylesheet\" href=\"http://localhost:5173/"@ + self@.2 + "/"@ + name@ + "\" />"@
                } else if self@.1.contains_key(("resources/css/"@ + name@)) {
                    r matches Ok(t) && t@ == "<link rel=\"stylesheet\" href=\"/"@ + self@.3 + "/"@ + self@.1[("resources/css/"@ + name@)]
                        + "\" />"@
                } else {
                    r matches Err(e) && e@ == "Failed to find css bundle: "@ + name@
                },
            },
    {
        let name = match name {
            None => {
                return Err(String::from_str(CSS_MISSING_NAME));
            },
            Some(name) => name,
        };
        if self.dev {
            let mut t = String::from_str(CSS_DEV_PREFIX);
            t.append(self.dev_path.as_str());
            t.append("/");
            t.append(name);
            t.append(CSS_SUFFIX);
            return Ok(t);
        }
        let mut id = String::from_str(CSS_MANIFEST_PREFIX);
            id.append(name);
        match self.manifest.file(id.as_str()) {
            None => {
                let mut e = String::from_str(CSS_NOT_FOUND);
                e.append(name);
                Err(e)
            },
            Some(file) => {
                let mut t = String::from_str(CSS_BUILD_PREFIX);
                t.append(self.build_path.as_str());
                t.append("/");
                t.append(file.as_str());
                t.append(CSS_SUFFIX);
                Ok(t)
            },
        }
    }
}

/// The preamble of React fast refresh, from the dev server.
pub const REACT_REFRESH: &'static str = "\n                <script type=\"module\">\n                    import RefreshRuntime from 'http://localhost:5173/@react-refresh'\n                    RefreshRuntime.injectIntoGlobalHook(window)\n                    window.$RefreshReg$ = () => {{ /* noop */ }}\n                    window.$RefreshSig$ = () => (type) => type\n                    window.__vite_plugin_react_preamble_installed__ = true\n                </script>\n                ";

/// Injects `REACT_REFRESH` in development, and nothing otherwise.
pub struct InjectReactRefresh {
    dev: bool,
}

impl InjectReactRefresh {
    /// The name under which templates call the function.
    pub const KEY: &'static str = "react_refresh";

    /// An injector for development.
    pub fn new() -> (r: InjectReactRefresh)
        ensures
            r.is_dev(),
    {
        InjectReactRefresh { dev: true }
    }

    /// Whether the injector is in development mode.
    pub closed spec fn is_dev(&self) -> bool {
        self.dev
    }

    /// The injector with the given development mode.
    pub fn set_dev(self, dev: bool) -> (r: InjectReactRefresh)
        ensures
            r.is_dev() == dev,
    {
        InjectReactRefresh { dev }
    }

    /// The injected text in development, `None` (the template's null) otherwise.
    pub fn inject(&self) -> (r: Option<String>)
        ensures
            match r {
                Some(t) => self.is_dev() && t@ == "
                <script type=\"module\">
                    import RefreshRuntime from 'http://localhost:5173/@react-refresh'
                    RefreshRuntime.injectIntoGlobalHook(window)
                    window.$RefreshReg$ = () => {{ /* noop */ }}
                    window.$RefreshSig$ = () => (type) => type
                    window.__vite_plugin_react_preamble_installed__ = true
                </script>
                "@,
                None => !self.is_dev(),
            },
    {
        if self.dev {
            Some(String::from_str(REACT_REFRESH))
        } else {
            None
        }
    }
}

/// In build mode a js bundle is looked up in the manifest under the injector's dev path,
/// a `/`, and the bundle's name, whatever the dev path is; a css bundle under
/// `resources/css/` and its name, whatever the css injector's dev path is.
pub proof fn law_bundle_lookup_keys(js: InjectJs, css: InjectCss, name: &str)
    ensures
        js.manifest_id(name) == js@.2 + seq!['/'] + name@,
        css.manifest_id(name) == seq!['r', 'e', 's', 'o', 'u', 'r', 'c', 'e', 's', '/', 'c', 's', 's', '/'] + name@,
{
    reveal_strlit("/");
    reveal_strlit("resources/css/");
    assert("/"@ =~= seq!['/']);
    assert("resources/css/"@ =~= seq!['r', 'e', 's', 'o', 'u', 'r', 'c', 'e', 's', '/', 'c', 's', 's', '/']);
}

} // verus!
