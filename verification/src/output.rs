//! The output of one asset pipeline, and its rendering.
//!
//! Each output mirrors one asset variant and carries exactly what the
//! finalizer needs: the build-resolved file name(s) or the inline content.
//! Rendering an output to markup is verified string building; inserting that
//! markup into the document is the finalizer's work.

use vstd::prelude::*;
use vstd::string::*;

verus! {

/// The output of a CSS pipeline: the copied style sheet's resolved name.
pub struct CssOutput {
    pub id: usize,
    pub file_name: String,
}

/// The output of a Sass/SCSS pipeline: the compiled sheet's resolved name.
pub struct SassOutput {
    pub id: usize,
    pub file_name: String,
}

/// The output of a Tailwind pipeline: the compiled sheet's resolved name.
pub struct TailwindCssOutput {
    pub id: usize,
    pub file_name: String,
}

/// The output of a JS pipeline: the copied script's resolved name.
pub struct JsOutput {
    pub id: usize,
    pub file_name: String,
}

/// The output of an icon pipeline: the copied icon's resolved name.
pub struct IconOutput {
    pub id: usize,
    pub file_name: String,
}

/// How inlined content is wrapped when it replaces its placeholder.
#[derive(Clone, Copy, Debug, PartialEq, Eq, Structural)]
pub enum InlineContentType {
    /// Raw markup, inserted unchanged.
    Html,
    /// Style text, wrapped in a style element.
    Css,
    /// Script text, wrapped in a script element.
    Js,
}

/// The output of an inline pipeline: the file content to embed.
pub struct InlineOutput {
    pub id: usize,
    pub content_type: InlineContentType,
    pub content: String,
}

/// The output of a copy-file pipeline; the placeholder is simply removed.
pub struct CopyFileOutput {
    pub id: usize,
}

/// The output of a copy-dir pipeline; the placeholder is simply removed.
pub struct CopyDirOutput {
    pub id: usize,
}

/// The output of a Rust WASM application pipeline: the resolved names of the
/// JS loader and the WASM binary.
pub struct RustAppOutput {
    pub id: usize,
    pub js_output: String,
    pub wasm_output: String,
}

/// The output of one asset pipeline.
pub enum TrunkAssetPipelineOutput {
    Css(CssOutput),
    Sass(SassOutput),
    TailwindCss(TailwindCssOutput),
    Js(JsOutput),
    Icon(IconOutput),
    Inline(InlineOutput),
    CopyFile(CopyFileOutput),
    CopyDir(CopyDirOutput),
    RustApp(RustAppOutput),
}

impl TrunkAssetPipelineOutput {
    /// The asset id carried from the declaration through the worker.
    pub open spec fn spec_id(self) -> usize {
        match self {
            TrunkAssetPipelineOutput::Css(out) => out.id,
            TrunkAssetPipelineOutput::Sass(out) => out.id,
            TrunkAssetPipelineOutput::TailwindCss(out) => out.id,
            TrunkAssetPipelineOutput::Js(out) => out.id,
            TrunkAssetPipelineOutput::Icon(out) => out.id,
            TrunkAssetPipelineOutput::Inline(out) => out.id,
            TrunkAssetPipelineOutput::CopyFile(out) => out.id,
            TrunkAssetPipelineOutput::CopyDir(out) => out.id,
            TrunkAssetPipelineOutput::RustApp(out) => out.id,
        }
    }

    /// The asset id carried from the declaration through the worker.
    pub fn id(&self) -> (r: usize)
        ensures
            r == self.spec_id(),
    {
        match self {
            TrunkAssetPipelineOutput::Css(out) => out.id,
            TrunkAssetPipelineOutput::Sass(out) => out.id,
            TrunkAssetPipelineOutput::TailwindCss(out) => out.id,
            TrunkAssetPipelineOutput::Js(out) => out.id,
            TrunkAssetPipelineOutput::Icon(out) => out.id,
            TrunkAssetPipelineOutput::Inline(out) => out.id,
            TrunkAssetPipelineOutput::CopyFile(out) => out.id,
            TrunkAssetPipelineOutput::CopyDir(out) => out.id,
            TrunkAssetPipelineOutput::RustApp(out) => out.id,
        }
    }

    /// The markup that replaces this output's placeholder. Copy outputs
    /// render to nothing: their placeholder is removed without replacement.
    pub open spec fn render_spec(self) -> Seq<char> {
        match self {
            TrunkAssetPipelineOutput::Css(out) => "<link rel=\"stylesheet\" href=\""@
                + out.file_name@ + "\"/>"@,
            TrunkAssetPipelineOutput::Sass(out) => "<link rel=\"stylesheet\" href=\""@
                + out.file_name@ + "\"/>"@,
            TrunkAssetPipelineOutput::TailwindCss(out) => "<link rel=\"stylesheet\" href=\""@
                + out.file_name@ + "\"/>"@,
            TrunkAssetPipelineOutput::Js(out) => "<script src=\""@ + out.file_name@
                + "\"></script>"@,
            TrunkAssetPipelineOutput::Icon(out) => "<link rel=\"icon\" href=\""@ + out.file_name@
                + "\"/>"@,
            TrunkAssetPipelineOutput::Inline(out) => match out.content_type {
                InlineContentType::Html => out.content@,
                InlineContentType::Css => "<style>"@ + out.content@ + "</style>"@,
                InlineContentType::Js => "<script>"@ + out.content@ + "</script>"@,
            },
            TrunkAssetPipelineOutput::CopyFile(_) => Seq::empty(),
            TrunkAssetPipelineOutput::CopyDir(_) => Seq::empty(),
            TrunkAssetPipelineOutput::RustApp(out) => "<link rel=\"preload\" href=\""@
                + out.wasm_output@
                + "\" as=\"fetch\" type=\"application/wasm\"/><script type=\"module\" src=\""@
                + out.js_output@ + "\"></script>"@,
        }
    }

    /// Render the markup that replaces this output's placeholder.
    pub fn render_html(&self) -> (r: String)
        ensures
            r@ == self.render_spec(),
    {
        match self {
            TrunkAssetPipelineOutput::Css(out) => {
                let mut s = String::from_str("<link rel=\"stylesheet\" href=\"");
                s.append(out.file_name.as_str());
                s.append("\"/>");
                s
            },
            TrunkAssetPipelineOutput::Sass(out) => {
                let mut s = String::from_str("<link rel=\"stylesheet\" href=\"");
                s.append(out.file_name.as_str());
                s.append("\"/>");
                s
            },
            TrunkAssetPipelineOutput::TailwindCss(out) => {
                let mut s = String::from_str("<link rel=\"stylesheet\" href=\"");
                s.append(out.file_name.as_str());
                s.append("\"/>");
                s
            },
            TrunkAssetPipelineOutput::Js(out) => {
                let mut s = String::from_str("<script src=\"");
                s.append(out.file_name.as_str());
                s.append("\"></script>");
                s
            },
            TrunkAssetPipelineOutput::Icon(out) => {
                let mut s = String::from_str("<link rel=\"icon\" href=\"");
                s.append(out.file_name.as_str());
                s.append("\"/>");
                s
            },
            TrunkAssetPipelineOutput::Inline(out) => match out.content_type {
                InlineContentType::Html => out.content.clone(),
                InlineContentType::Css => {
                    let mut s = String::from_str("<style>");
                    s.append(out.content.as_str());
                    s.append("</style>");
                    s
                },
                InlineContentType::Js => {
                    let mut s = String::from_str("<script>");
                    s.append(out.content.as_str());
                    s.append("</script>");
                    s
                },
            },
            TrunkAssetPipelineOutput::CopyFile(_) => {
                let s = String::new();
                s
            },
            TrunkAssetPipelineOutput::CopyDir(_) => {
                let s = String::new();
                s
            },
            TrunkAssetPipelineOutput::RustApp(out) => {
                let mut s = String::from_str("<link rel=\"preload\" href=\"");
                s.append(out.wasm_output.as_str());
                s.append("\" as=\"fetch\" type=\"application/wasm\"/><script type=\"module\" src=\"");
                s.append(out.js_output.as_str());
                s.append("\"></script>");
                s
            },
        }
    }
}

} // verus!
