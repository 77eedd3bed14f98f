//! The RSpec test framework.

use super::Ruby;
use crate::context::Context;
use crate::utils;
use crate::ArgsList;
use vstd::prelude::*;

verus! {

/// RSpec: spec files end in `_spec.rb` or are features under `spec/`;
/// a project's preloader or bundler wraps the bare `rspec` when present.
#[derive(Debug)]
pub struct RSpec {
    pub language: Ruby,
    /// The file pattern a suitable path must match.
    pub pattern: String,
    /// Empty: the executable is looked up per project.
    pub executable: Vec<String>,
    pub test_pattern: String,
    pub namespace_pattern: String,
}

impl Default for RSpec {
    fn default() -> (r: Self)
        ensures
            r.pattern@ == r"(_spec\.rb|spec[/\\].*\.feature)$"@,
            r.executable@.len() == 0,
            r.test_pattern@ == Seq::<char>::empty(),
            r.namespace_pattern@ == Seq::<char>::empty(),
    {
        RSpec {
            language: Ruby {  },
            pattern: String::from_str(r"(_spec\.rb|spec[/\\].*\.feature)$"),
            executable: Vec::new(),
            test_pattern: String::new(),
            namespace_pattern: String::new(),
        }
    }
}

impl RSpec {
    /// The bare `rspec`, behind `zeus`, the project's spring or rspec
    /// binstub, or `bundle exec`, whichever the project carries first.
    pub fn build_executable(&self, context: &Context) -> (r: ArgsList)
        requires
            context.rel_path.wf(),
        ensures
            r.deep_view() == seq!["rspec"@] || r.deep_view() == seq!["zeus"@, "rspec"@]
                || r.deep_view() == seq!["bin/spring"@, "rspec"@] || r.deep_view() == seq![
                "bin/rspec"@,
                "rspec"@,
            ] || r.deep_view() == seq!["bundle"@, "exec"@, "rspec"@],
    {
        proof {
            reveal_strlit("bin/spring");
            reveal_strlit("bin/rspec");
        }
        let mut executable: Vec<String> = Vec::new();
        executable.push(String::from_str("rspec"));
        let ghost base = executable.deep_view();
        proof {
            assert(base =~= seq!["rspec"@]);
        }

        if context.find_file(".zeus.sock").is_some() {
            let mut prefix: Vec<String> = Vec::new();
            prefix.push(String::from_str("zeus"));
            let out = utils::concat(prefix, executable);
            proof {
                assert(out.deep_view() =~= seq!["zeus"@, "rspec"@]);
            }
            out
        } else {
            let spring = context.find_file("bin/spring");
            match spring {
                Some(spring_bin) => {
                    let mut prefix: Vec<String> = Vec::new();
                    prefix.push(String::from_str(spring_bin.rel_str()));
                    let out = utils::concat(prefix, executable);
                    proof {
                        assert(out.deep_view() =~= seq!["bin/spring"@, "rspec"@]);
                    }
                    out
                },
                None => {
                    let bin = context.find_file("bin/rspec");
                    match bin {
                        Some(rspec_bin) => {
                            let mut prefix: Vec<String> = Vec::new();
                            prefix.push(String::from_str(rspec_bin.rel_str()));
                            let out = utils::concat(prefix, executable);
                            proof {
                                assert(out.deep_view() =~= seq!["bin/rspec"@, "rspec"@]);
                            }
                            out
                        },
                        None => {
                            if context.find_file("Gemfile").is_some() {
                                let mut prefix: Vec<String> = Vec::new();
                                prefix.push(String::from_str("bundle"));
                                prefix.push(String::from_str("exec"));
                                let out = utils::concat(prefix, executable);
                                proof {
                                    assert(out.deep_view() =~= seq!["bundle"@, "exec"@, "rspec"@]);
                                }
                                out
                            } else {
                                executable
                            }
                        },
                    }
                },
            }
        }
    }
}

} // verus!
