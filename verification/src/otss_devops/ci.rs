//! CI/CD pipeline settings and the GitHub Actions workflow they give.
use std::collections::HashMap;
use vstd::prelude::*;

verus! {

/// One stage of a pipeline: a name and the commands it runs.
#[derive(Debug, Clone)]
pub struct PipelineStage {
    pub name: String,
    pub script: Vec<String>,
}

/// CI/CD settings.
#[derive(Debug, Clone)]
pub struct CICDConfig {
    pub name: String,
    pub repository: String,
    pub default_branch: String,
    pub stages: Vec<PipelineStage>,
    pub env_vars: HashMap<String, String>,
}

/// The stage has the given name and one command.
pub open spec fn is_stage(stage: PipelineStage, name: Seq<char>, command: Seq<char>) -> bool {
    &&& stage.name@ == name
    &&& stage.script@.len() == 1
    &&& stage.script@[0]@ == command
}

impl Default for CICDConfig {
    /// `OTSS Pipeline` on branch `main`, with a build and a test stage.
    fn default() -> (r: CICDConfig)
        ensures
            r.name@ == "OTSS Pipeline"@,
            r.repository@ == "https://github.com/otss/otss"@,
            r.default_branch@ == "main"@,
            r.stages@.len() == 2,
            is_stage(r.stages@[0], "build"@, "cargo build --workspace"@),
            is_stage(r.stages@[1], "test"@, "cargo test --workspace"@),
            r.env_vars@.dom().len() == 0,
    {
        proof {
            reveal_strlit("OTSS Pipeline");
            reveal_strlit("https://github.com/otss/otss");
            reveal_strlit("main");
            reveal_strlit("build");
            reveal_strlit("cargo build --workspace");
            reveal_strlit("test");
            reveal_strlit("cargo test --workspace");
        }
        let mut build_script: Vec<String> = Vec::new();
        build_script.push(String::from_str("cargo build --workspace"));
        let mut test_script: Vec<String> = Vec::new();
        test_script.push(String::from_str("cargo test --workspace"));
        let mut stages: Vec<PipelineStage> = Vec::new();
        stages.push(PipelineStage { name: String::from_str("build"), script: build_script });
        stages.push(PipelineStage { name: String::from_str("test"), script: test_script });
        CICDConfig {
            name: String::from_str("OTSS Pipeline"),
            repository: String::from_str("https://github.com/otss/otss"),
            default_branch: String::from_str("main"),
            stages,
            env_vars: HashMap::new(),
        }
    }
}

/// The fixed head of the workflow: name, triggers, job and checkout.
pub open spec fn workflow_head() -> Seq<char> {
    "name: OTSS CI\n\n"@ + "on:\n  push:\n    branches: [ main ]\n"@ + "  pull_request:\n    branches: [ main ]\n\n"@
        + "jobs:\n  ci:\n    runs-on: ubuntu-latest\n"@ + "    steps:\n      - uses: actions/checkout@v3\n"@
}

/// One `run` line per command.
pub open spec fn run_lines(script: Seq<String>) -> Seq<char>
    decreases script.len(),
{
    if script.len() == 0 {
        Seq::empty()
    } else {
        run_lines(script.drop_last()) + "      - run: "@ + script.last()@ + "\n"@
    }
}

/// For each stage, a comment line with its name, then its `run` lines.
pub open spec fn stage_lines(stages: Seq<PipelineStage>) -> Seq<char>
    decreases stages.len(),
{
    if stages.len() == 0 {
        Seq::empty()
    } else {
        stage_lines(stages.drop_last()) + "      # "@ + stages.last().name@ + " stage\n"@ + run_lines(
            stages.last().script@,
        )
    }
}

/// A pipeline under CI/CD settings.
#[derive(Debug, Clone)]
pub struct PipelineConfig {
    config: CICDConfig,
}

impl PipelineConfig {
    pub closed spec fn config_spec(self) -> CICDConfig {
        self.config
    }

    /// A pipeline with the given settings.
    pub fn new(config: CICDConfig) -> (r: PipelineConfig)
        ensures
            r.config_spec() == config,
    {
        PipelineConfig { config }
    }

    /// The settings.
    pub fn config(&self) -> (r: &CICDConfig)
        ensures
            *r == self.config_spec(),
    {
        &self.config
    }

    /// The GitHub Actions workflow: the fixed head, then each stage's lines.
    pub fn generate_github_actions(&self) -> (r: String)
        ensures
            r@ == workflow_head() + stage_lines(self.config_spec().stages@),
    {
        proof {
            reveal_strlit("name: OTSS CI\n\n");
            reveal_strlit("on:\n  push:\n    branches: [ main ]\n");
            reveal_strlit("  pull_request:\n    branches: [ main ]\n\n");
            reveal_strlit("jobs:\n  ci:\n    runs-on: ubuntu-latest\n");
            reveal_strlit("    steps:\n      - uses: actions/checkout@v3\n");
            reveal_strlit("      # ");
            reveal_strlit(" stage\n");
            reveal_strlit("      - run: ");
            reveal_strlit("\n");
        }
        let mut yaml = String::from_str("name: OTSS CI\n\n");
        yaml.append("on:\n  push:\n    branches: [ main ]\n");
        yaml.append("  pull_request:\n    branches: [ main ]\n\n");
        yaml.append("jobs:\n  ci:\n    runs-on: ubuntu-latest\n");
        yaml.append("    steps:\n      - uses: actions/checkout@v3\n");
        let stages = &self.config.stages;
        let mut i: usize = 0;
        while i < stages.len()
            invariant
                i <= stages@.len(),
                yaml@ == workflow_head() + stage_lines(stages@.take(i as int)),
            decreases stages@.len() - i,
        {
            let stage = &stages[i];
            yaml.append("      # ");
            yaml.append(stage.name.as_str());
            yaml.append(" stage\n");
            let ghost before = yaml@;
            let mut j: usize = 0;
            while j < stage.script.len()
                invariant
                    j <= stage.script@.len(),
                    yaml@ == before + run_lines(stage.script@.take(j as int)),
                decreases stage.script@.len() - j,
            {
                yaml.append("      - run: ");
                yaml.append(stage.script[j].as_str());
                yaml.append("\n");
                proof {
                    assert(stage.script@.take(j as int + 1).drop_last() =~= stage.script@.take(j as int));
                }
                j = j + 1;
            }
            proof {
                assert(stage.script@.take(j as int) =~= stage.script@);
                assert(stages@.take(i as int + 1).drop_last() =~= stages@.take(i as int));
                assert(stages@.take(i as int + 1).last() == stages@[i as int]);
            }
            i = i + 1;
        }
        proof {
            assert(stages@.take(i as int) =~= stages@);
        }
        yaml
    }
}

} // verus!
