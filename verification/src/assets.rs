//! Dispatch of raw asset declarations to typed asset variants.
//!
//! A scanned declaration is an attribute map tagged as coming from a
//! link-like or a script-like element. A link declaration must carry a `rel`
//! attribute whose value, looked up case-sensitively in the recognized key
//! set, selects exactly one variant; a script declaration always becomes the
//! JS variant with no key lookup. Construction failures abort only their own
//! declaration, before any worker is spawned for it.

use vstd::prelude::*;
use vstd::string::*;
use crate::attrs::{attrs_get, Attrs};
use crate::errors::AssetError;

verus! {

/// A reference to a trunk asset.
pub enum TrunkAssetReference {
    Link(Attrs),
    Script(Attrs),
}

/// A CSS file to hash and copy.
pub struct Css {
    pub id: usize,
    pub path: String,
}

/// A Sass or SCSS file to compile to CSS.
pub struct Sass {
    pub id: usize,
    pub path: String,
}

/// A Tailwind CSS file to compile.
pub struct TailwindCss {
    pub id: usize,
    pub path: String,
}

/// A JavaScript file referenced by a script element.
pub struct Js {
    pub id: usize,
    pub path: String,
}

/// An icon file to copy.
pub struct Icon {
    pub id: usize,
    pub path: String,
}

/// A file whose content is inlined into the document.
pub struct Inline {
    pub id: usize,
    pub path: String,
}

/// A file copied unchanged into the dist dir.
pub struct CopyFile {
    pub id: usize,
    pub path: String,
}

/// A directory copied unchanged into the dist dir.
pub struct CopyDir {
    pub id: usize,
    pub path: String,
}

/// A Rust WASM application; its manifest path may be left implicit.
pub struct RustApp {
    pub id: usize,
    pub path: Option<String>,
}

/// The kind of an asset variant.
#[derive(Clone, Copy, Debug, PartialEq, Eq, Structural)]
pub enum AssetKind {
    Css,
    Sass,
    TailwindCss,
    Js,
    Icon,
    Inline,
    CopyFile,
    CopyDir,
    RustApp,
}

/// A model of all of the supported asset links expressed in the source HTML,
/// the parsed form of one declaration.
pub enum TrunkAsset {
    Css(Css),
    Sass(Sass),
    TailwindCss(TailwindCss),
    Js(Js),
    Icon(Icon),
    Inline(Inline),
    CopyFile(CopyFile),
    CopyDir(CopyDir),
    RustApp(RustApp),
}

/// The variant that one recognized link kind key selects; `None` outside the
/// recognized set. Keys are case-sensitive lowercase.
pub open spec fn link_kind_of(rel: Seq<char>) -> Option<AssetKind> {
    if rel == "css"@ {
        Some(AssetKind::Css)
    } else if rel == "scss"@ || rel == "sass"@ {
        Some(AssetKind::Sass)
    } else if rel == "icon"@ {
        Some(AssetKind::Icon)
    } else if rel == "inline"@ {
        Some(AssetKind::Inline)
    } else if rel == "copy-file"@ {
        Some(AssetKind::CopyFile)
    } else if rel == "copy-dir"@ {
        Some(AssetKind::CopyDir)
    } else if rel == "rust-app"@ {
        Some(AssetKind::RustApp)
    } else if rel == "tailwind-css"@ {
        Some(AssetKind::TailwindCss)
    } else {
        None
    }
}

impl TrunkAsset {
    /// Which of the nine kinds this variant is.
    pub open spec fn kind(self) -> AssetKind {
        match self {
            TrunkAsset::Css(_) => AssetKind::Css,
            TrunkAsset::Sass(_) => AssetKind::Sass,
            TrunkAsset::TailwindCss(_) => AssetKind::TailwindCss,
            TrunkAsset::Js(_) => AssetKind::Js,
            TrunkAsset::Icon(_) => AssetKind::Icon,
            TrunkAsset::Inline(_) => AssetKind::Inline,
            TrunkAsset::CopyFile(_) => AssetKind::CopyFile,
            TrunkAsset::CopyDir(_) => AssetKind::CopyDir,
            TrunkAsset::RustApp(_) => AssetKind::RustApp,
        }
    }

    /// The asset id assigned to this variant's declaration.
    pub open spec fn spec_id(self) -> usize {
        match self {
            TrunkAsset::Css(inner) => inner.id,
            TrunkAsset::Sass(inner) => inner.id,
            TrunkAsset::TailwindCss(inner) => inner.id,
            TrunkAsset::Js(inner) => inner.id,
            TrunkAsset::Icon(inner) => inner.id,
            TrunkAsset::Inline(inner) => inner.id,
            TrunkAsset::CopyFile(inner) => inner.id,
            TrunkAsset::CopyDir(inner) => inner.id,
            TrunkAsset::RustApp(inner) => inner.id,
        }
    }

    /// The source path parsed out of the declaration, if it named one.
    pub open spec fn spec_path(self) -> Option<Seq<char>> {
        match self {
            TrunkAsset::Css(inner) => Some(inner.path@),
            TrunkAsset::Sass(inner) => Some(inner.path@),
            TrunkAsset::TailwindCss(inner) => Some(inner.path@),
            TrunkAsset::Js(inner) => Some(inner.path@),
            TrunkAsset::Icon(inner) => Some(inner.path@),
            TrunkAsset::Inline(inner) => Some(inner.path@),
            TrunkAsset::CopyFile(inner) => Some(inner.path@),
            TrunkAsset::CopyDir(inner) => Some(inner.path@),
            TrunkAsset::RustApp(inner) => match inner.path {
                Some(p) => Some(p@),
                None => None,
            },
        }
    }

    /// The asset id assigned to this variant's declaration.
    pub fn id(&self) -> (r: usize)
        ensures
            r == self.spec_id(),
    {
        match self {
            TrunkAsset::Css(inner) => inner.id,
            TrunkAsset::Sass(inner) => inner.id,
            TrunkAsset::TailwindCss(inner) => inner.id,
            TrunkAsset::Js(inner) => inner.id,
            TrunkAsset::Icon(inner) => inner.id,
            TrunkAsset::Inline(inner) => inner.id,
            TrunkAsset::CopyFile(inner) => inner.id,
            TrunkAsset::CopyDir(inner) => inner.id,
            TrunkAsset::RustApp(inner) => inner.id,
        }
    }
}

/// Everything dispatch promises of its result: which variant each recognized
/// key selects, that a script declaration bypasses the lookup, and which
/// declaration error comes back on which input.
pub open spec fn dispatch_spec(
    reference: TrunkAssetReference,
    id: usize,
    r: Result<TrunkAsset, AssetError>,
) -> bool {
    match reference {
        TrunkAssetReference::Script(attrs) => match attrs_get(attrs@, "src"@) {
            Some(v) => r matches Ok(TrunkAsset::Js(js)) && js.id == id && js.path@ == v,
            None => r matches Err(AssetError::MissingAttr { name }) && name@ == "src"@,
        },
        TrunkAssetReference::Link(attrs) => match attrs_get(attrs@, "rel"@) {
            None => r matches Err(AssetError::MissingAttr { name }) && name@ == "rel"@,
            Some(rel) => match link_kind_of(rel) {
                None => r matches Err(AssetError::UnknownKind { value }) && value@ == rel,
                Some(kind) => match attrs_get(attrs@, "href"@) {
                    Some(h) => r matches Ok(a) && a.kind() == kind && a.spec_id() == id
                        && a.spec_path() == Some(h),
                    None => if kind == AssetKind::RustApp {
                        r matches Ok(a) && a.kind() == AssetKind::RustApp && a.spec_id() == id
                            && a.spec_path() is None
                    } else {
                        r matches Err(AssetError::MissingAttr { name }) && name@ == "href"@
                    },
                },
            },
        },
    }
}

fn str_eq_lit(s: &String, lit: &str) -> (r: bool)
    ensures
        r == (s@ == lit@),
{
    s.eq(&lit.to_owned())
}

impl TrunkAsset {
    /// Construct a new instance: dispatch one declaration, with its assigned
    /// id, to the variant its key selects.
    pub fn from_html(reference: TrunkAssetReference, id: usize) -> (r: Result<
        TrunkAsset,
        AssetError,
    >)
        ensures
            dispatch_spec(reference, id, r),
            match reference {
                TrunkAssetReference::Script(_) => match r {
                    Ok(a) => a matches TrunkAsset::Js(_),
                    Err(_) => true,
                },
                TrunkAssetReference::Link(_) => true,
            },
            match reference {
                TrunkAssetReference::Link(attrs) => match attrs_get(attrs@, "rel"@) {
                    Some(rel) => ((r matches Err(AssetError::UnknownKind { value }) && value@
                        == rel) <==> link_kind_of(rel) is None),
                    None => true,
                },
                TrunkAssetReference::Script(_) => true,
            },
    {
        match reference {
            TrunkAssetReference::Script(attrs) => match attrs.get("src") {
                Some(src) => Ok(TrunkAsset::Js(Js { id, path: src.clone() })),
                None => Err(AssetError::MissingAttr { name: "src".to_owned() }),
            },
            TrunkAssetReference::Link(attrs) => {
                let rel_missing = attrs.get("rel").is_none();
                if rel_missing {
                    return Err(AssetError::MissingAttr { name: "rel".to_owned() });
                }
                let rel = attrs.get("rel").unwrap().clone();
                let href = match attrs.get("href") {
                    Some(h) => Some(h.clone()),
                    None => None,
                };
                if str_eq_lit(&rel, "css") {
                    match href {
                        Some(h) => Ok(TrunkAsset::Css(Css { id, path: h })),
                        None => Err(AssetError::MissingAttr { name: "href".to_owned() }),
                    }
                } else if str_eq_lit(&rel, "scss") || str_eq_lit(&rel, "sass") {
                    match href {
                        Some(h) => Ok(TrunkAsset::Sass(Sass { id, path: h })),
                        None => Err(AssetError::MissingAttr { name: "href".to_owned() }),
                    }
                } else if str_eq_lit(&rel, "icon") {
                    match href {
                        Some(h) => Ok(TrunkAsset::Icon(Icon { id, path: h })),
                        None => Err(AssetError::MissingAttr { name: "href".to_owned() }),
                    }
                } else if str_eq_lit(&rel, "inline") {
                    match href {
                        Some(h) => Ok(TrunkAsset::Inline(Inline { id, path: h })),
                        None => Err(AssetError::MissingAttr { name: "href".to_owned() }),
                    }
                } else if str_eq_lit(&rel, "copy-file") {
                    match href {
                        Some(h) => Ok(TrunkAsset::CopyFile(CopyFile { id, path: h })),
                        None => Err(AssetError::MissingAttr { name: "href".to_owned() }),
                    }
                } else if str_eq_lit(&rel, "copy-dir") {
                    match href {
                        Some(h) => Ok(TrunkAsset::CopyDir(CopyDir { id, path: h })),
                        None => Err(AssetError::MissingAttr { name: "href".to_owned() }),
                    }
                } else if str_eq_lit(&rel, "rust-app") {
                    Ok(TrunkAsset::RustApp(RustApp { id, path: href }))
                } else if str_eq_lit(&rel, "tailwind-css") {
                    match href {
                        Some(h) => Ok(TrunkAsset::TailwindCss(TailwindCss { id, path: h })),
                        None => Err(AssetError::MissingAttr { name: "href".to_owned() }),
                    }
                } else {
                    Err(AssetError::UnknownKind { value: rel })
                }
            },
        }
    }
}

} // verus!
