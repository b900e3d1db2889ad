//! The three-value stage marker handed to an external hook scheduler.

use vstd::prelude::*;
use vstd::string::*;

verus! {

/// A stage in the build process, used to say when a hook runs.
#[derive(Clone, Copy, Debug, PartialEq, Eq, Structural)]
pub enum PipelineStage {
    /// Before asset builds are executed.
    PreBuild,
    /// While all asset builds are executed.
    Build,
    /// After asset builds are executed.
    PostBuild,
}

impl PipelineStage {
    /// The lowercase-snake writing of this stage.
    pub open spec fn spec_str(self) -> Seq<char> {
        match self {
            PipelineStage::PreBuild => "pre_build"@,
            PipelineStage::Build => "build"@,
            PipelineStage::PostBuild => "post_build"@,
        }
    }

    /// Serialize this stage in lowercase-snake form.
    pub fn as_str(&self) -> (r: &'static str)
        ensures
            r@ == self.spec_str(),
    {
        match self {
            PipelineStage::PreBuild => "pre_build",
            PipelineStage::Build => "build",
            PipelineStage::PostBuild => "post_build",
        }
    }

    /// Parse the lowercase-snake writing of a stage; any other text is
    /// rejected.
    pub fn parse(s: &str) -> (r: Option<PipelineStage>)
        ensures
            r == parse_result(s@),
    {
        let text = s.to_owned();
        if text.eq(&"pre_build".to_owned()) {
            Some(PipelineStage::PreBuild)
        } else if text.eq(&"build".to_owned()) {
            Some(PipelineStage::Build)
        } else if text.eq(&"post_build".to_owned()) {
            Some(PipelineStage::PostBuild)
        } else {
            None
        }
    }
}

/// Serializing a stage and parsing it back gives the stage again.
pub proof fn lemma_stage_round_trip(stage: PipelineStage)
    ensures
        parse_result(stage.spec_str()) == Some(stage),
{
    reveal_strlit("pre_build");
    reveal_strlit("build");
    reveal_strlit("post_build");
    assert("pre_build"@.len() == 9);
    assert("build"@.len() == 5);
    assert("post_build"@.len() == 10);
    match stage {
        PipelineStage::PreBuild => {
            assert(parse_result(stage.spec_str()) == Some(PipelineStage::PreBuild));
        },
        PipelineStage::Build => {
            assert(stage.spec_str() != "pre_build"@);
            assert(parse_result(stage.spec_str()) == Some(PipelineStage::Build));
        },
        PipelineStage::PostBuild => {
            assert(stage.spec_str() != "pre_build"@);
            assert(stage.spec_str() != "build"@);
            assert(parse_result(stage.spec_str()) == Some(PipelineStage::PostBuild));
        },
    }
}

/// What `PipelineStage::parse` returns, as a function of the text alone.
pub open spec fn parse_result(s: Seq<char>) -> Option<PipelineStage> {
    if s == "pre_build"@ {
        Some(PipelineStage::PreBuild)
    } else if s == "build"@ {
        Some(PipelineStage::Build)
    } else if s == "post_build"@ {
        Some(PipelineStage::PostBuild)
    } else {
        None
    }
}

} // verus!
